use std::collections::{BTreeMap, BTreeSet};

use deadlockshock::app::{
    AppSection, AppState, Detection, LogDetectionStatus, Poll, SoundStatus,
};
use deadlockshock::binary32::{single, Binary32};
use deadlockshock::bridge_listener::ListenerPhase;
use deadlockshock::bridge_record::{
    parse_bridge_record, AbilityCatalog, AbilityCatalogEntry, AbilityTrigger, BridgeEvent,
    HookReady, LocalPlayerDeath,
};
use deadlockshock::pishock::{Device, Error};
use deadlockshock::provider::{
    target_from_pishock, ConnectedProvider, Login, ProviderError, ProviderKind, ProviderTarget,
    SoundCommand, TargetId,
};
use deadlockshock::settings::{
    AbilityFilter, CredentialState, ResolvedShock, ShockMode, StatusColor, TriggerKind,
};
use deadlockshock::shock::{
    ShockCompletion, ShockCompletionResult, ShockEnqueueResult, ShockRequest, ShockStatus,
    TriggerIdentity,
};
use serde_json::Value;

fn number(value: f32) -> Binary32 {
    single(value.to_bits())
}

fn optional<T>(field: Option<&Value>, read: fn(&Value) -> Option<T>) -> Option<Option<T>> {
    match field {
        None | Some(Value::Null) => Some(None),
        Some(value) => read(value).map(Some),
    }
}

fn trigger(kind: TriggerKind, session_id: &str, sequence: u64) -> TriggerIdentity {
    TriggerIdentity {
        kind,
        session_id: session_id.to_owned(),
        client_time_ms: sequence,
        sequence,
        detection: "test".to_owned(),
        ability_slot: if kind == TriggerKind::Death { None } else { Some(2) },
        ability_name: if kind == TriggerKind::Death {
            None
        } else {
            Some("Test Ability".to_owned())
        },
        charges_before: None,
        charges_after: None,
    }
}

fn death_event(session_id: &str, sequence: u64) -> LocalPlayerDeath {
    LocalPlayerDeath {
        schema: 1,
        session_id: session_id.to_owned(),
        client_time_ms: sequence,
        sequence,
        detection: "test".to_owned(),
    }
}

fn hub() -> ProviderTarget {
    target_from_pishock(Device {
        client_id: 7,
        name: "Hub".to_owned(),
        user_id: 42,
        username: "user".to_owned(),
        shockers: vec![],
    })
}

fn connected() -> AppState {
    let mut state = AppState::default();
    state.apply_connection_result(Ok((ConnectedProvider::PiShock, vec![hub()])));
    state
}

#[test]
fn credentials_require_provider_specific_values() {
    let mut state = AppState::default();
    assert!(!state.credentials_present());
    state.username = "user".into();
    state.api_key = "key".into();
    assert!(state.credentials_present());
    state.set_provider(ProviderKind::OpenShock);
    assert!(!state.credentials_present());
    state.openshock_token = "token".into();
    assert!(state.credentials_present());
}

#[test]
fn switching_provider_clears_active_and_preferred_targets_but_retains_forms() {
    let mut state = AppState {
        username: "user".into(),
        api_key: "key".into(),
        devices: vec![ProviderTarget::new(TargetId::PiShock(1), "hub")],
        selected_device: Some(TargetId::PiShock(1)),
        preferred_target: Some(TargetId::PiShock(1)),
        credential_state: CredentialState::Valid,
        ..AppState::default()
    };
    state.set_provider(ProviderKind::OpenShock);
    assert_eq!(state.provider, ProviderKind::OpenShock);
    assert!(state.devices.is_empty());
    assert!(state.selected_device.is_none());
    assert!(state.preferred_target.is_none());
    assert_eq!(state.username, "user");
    assert_eq!(state.api_key, "key");
}

#[test]
fn clients_of_ended_connections_are_handed_out_to_be_closed() {
    let mut state = connected();
    assert_eq!(
        state.set_provider(ProviderKind::OpenShock),
        Some(ConnectedProvider::PiShock)
    );
    assert_eq!(state.reset_connection(), None);
    let mut state = connected();
    assert_eq!(state.reset_connection(), Some(ConnectedProvider::PiShock));
    assert_eq!(state.start_connection_test().1, None);
    let mut busy = AppState {
        shock_in_flight: 1,
        ..connected()
    };
    assert_eq!(busy.set_provider(ProviderKind::OpenShock), None);
}

#[test]
fn provider_stays_while_work_is_under_way_or_nothing_changes() {
    let mut busy = AppState {
        shock_in_flight: 1,
        ..connected()
    };
    busy.set_provider(ProviderKind::OpenShock);
    assert_eq!(busy.provider, ProviderKind::PiShock);
    let mut same = connected();
    same.set_provider(ProviderKind::PiShock);
    assert_eq!(same.client, Some(ConnectedProvider::PiShock));
}

#[test]
fn preferred_target_is_reconciled_only_against_freshly_fetched_targets() {
    let preferred = TargetId::PiShock(2);
    let mut state = AppState {
        preferred_target: Some(preferred.clone()),
        ..AppState::default()
    };
    assert!(state.selected_device.is_none());
    state.apply_devices(vec![
        ProviderTarget::new(TargetId::PiShock(1), "Alpha"),
        ProviderTarget::new(preferred.clone(), "Beta"),
    ]);
    assert_eq!(state.selected_device, Some(preferred.clone()));
    assert_eq!(
        state.selected_device().map(ProviderTarget::name),
        Some("Beta")
    );

    state.reset_connection();
    assert!(state.selected_device.is_none());
    assert_eq!(state.preferred_target, Some(preferred.clone()));
    state.apply_connection_result(Err(ProviderError::NotConnected));
    assert_eq!(state.preferred_target, Some(preferred.clone()));

    state.apply_devices(vec![ProviderTarget::new(TargetId::PiShock(3), "Gamma")]);
    assert_eq!(state.selected_device, Some(TargetId::PiShock(3)));
    assert_eq!(state.preferred_target, Some(TargetId::PiShock(3)));
    assert!(state.select_device(TargetId::PiShock(3)));
    assert_eq!(state.preferred_target, Some(TargetId::PiShock(3)));
    assert!(!state.select_device(TargetId::PiShock(99)));
    assert_eq!(state.selected_device, Some(TargetId::PiShock(3)));
}

#[test]
fn an_empty_listing_selects_nothing() {
    let mut state = AppState {
        preferred_target: Some(TargetId::PiShock(2)),
        ..AppState::default()
    };
    state.apply_devices(vec![]);
    assert_eq!(state.selected_device, None);
    assert_eq!(state.preferred_target, None);
    assert_eq!(state.credential_state, CredentialState::Valid);
}

#[test]
fn failed_connection_clears_stale_live_targets_but_preserves_preference() {
    let mut state = AppState {
        devices: vec![ProviderTarget::new(TargetId::PiShock(1), "hub")],
        selected_device: Some(TargetId::PiShock(1)),
        preferred_target: Some(TargetId::PiShock(1)),
        ..AppState::default()
    };
    state.apply_connection_result(Err(ProviderError::NotConnected));
    assert!(state.devices.is_empty());
    assert!(state.selected_device.is_none());
    assert_eq!(state.preferred_target, Some(TargetId::PiShock(1)));
    assert_eq!(state.credential_state, CredentialState::Invalid);
    assert_eq!(
        state.connection_error,
        Some("no provider is connected".to_owned())
    );
}

#[test]
fn connection_tests_run_from_start_to_result() {
    let mut state = AppState {
        username: " user ".to_owned(),
        api_key: "key".to_owned(),
        ..connected()
    };
    let (login, closed) = state.start_connection_test();
    assert_eq!(closed, Some(ConnectedProvider::PiShock));
    match login {
        Login::PiShock { credentials, .. } => assert_eq!(credentials.username, "user"),
        Login::OpenShock { .. } => panic!("wrong provider"),
    }
    assert_eq!(state.credential_state, CredentialState::Testing);
    assert!(state.is_busy());
    assert!(state.client.is_none() && state.devices.is_empty());
    state.poll_connection_test(Poll::Empty);
    assert!(state.is_busy());
    state.poll_connection_test(Poll::Ready(Ok((ConnectedProvider::PiShock, vec![hub()]))));
    assert!(!state.is_busy());
    assert_eq!(state.client, Some(ConnectedProvider::PiShock));
    assert_eq!(state.selected_device, Some(TargetId::PiShock(7)));

    state.poll_connection_test(Poll::Closed);
    assert_eq!(state.credential_state, CredentialState::Valid);
    state.start_connection_test();
    state.poll_connection_test(Poll::Closed);
    assert_eq!(state.credential_state, CredentialState::Invalid);
    assert!(!state.is_busy());
}

#[test]
fn sound_status_reports_success_and_failure() {
    let mut state = AppState::default();
    state.apply_sound_result(Ok(()));
    assert_eq!(state.sound_status, Some(SoundStatus::Sent));
    state.apply_sound_result(Err(ProviderError::NotConnected));
    assert!(matches!(state.sound_status, Some(SoundStatus::Failed(_))));
    assert_eq!(
        state.sound_status,
        Some(SoundStatus::Failed(
            "Test sound failed: no provider is connected".to_owned()
        ))
    );
}

#[test]
fn test_sounds_run_from_start_to_result() {
    assert!(AppState::default().start_sound().is_none());
    let mut aimless = connected();
    aimless.selected_device = None;
    assert!(aimless.start_sound().is_none());
    assert!(!aimless.is_busy());

    let mut state = connected();
    assert!(matches!(
        state.start_sound(),
        Some(Ok(SoundCommand::PiShock { seconds: 1, .. }))
    ));
    assert_eq!(state.sound_status, Some(SoundStatus::Sending));
    assert!(state.is_busy());
    state.poll_sound(Poll::Empty);
    assert!(state.is_busy());
    state.poll_sound(Poll::Ready(Ok(())));
    assert_eq!(state.sound_status, Some(SoundStatus::Sent));
    assert!(!state.is_busy());
    state.start_sound();
    state.poll_sound(Poll::Closed);
    assert!(matches!(state.sound_status, Some(SoundStatus::Failed(_))));
    state.poll_sound(Poll::Ready(Ok(())));
    assert!(matches!(state.sound_status, Some(SoundStatus::Failed(_))));
}

#[test]
fn statuses_have_labels_and_colors() {
    assert_eq!(SoundStatus::Sending.label(), "Sending test sound…");
    assert_eq!(SoundStatus::Sent.label(), "Test sound sent.");
    assert_eq!(SoundStatus::Failed("why".to_owned()).label(), "why");
    assert_eq!(SoundStatus::Sending.color(), StatusColor::Neutral);
    assert_eq!(SoundStatus::Sent.color(), StatusColor::Success);
    assert_eq!(
        SoundStatus::Failed(String::new()).color(),
        StatusColor::Failure
    );
    assert_eq!(
        LogDetectionStatus::Found.label(),
        "Found Deadlock console.log."
    );
    assert_eq!(LogDetectionStatus::Found.color(), StatusColor::Success);
    assert_eq!(LogDetectionStatus::NotCreated.color(), StatusColor::Warning);
    assert_eq!(
        LogDetectionStatus::Failed("why".to_owned()).color(),
        StatusColor::Failure
    );
    assert_eq!(AppSection::default(), AppSection::Setup);
    assert_eq!(AppSection::Setup.label(), "Setup");
    assert_eq!(AppSection::Effects.label(), "Effects");
    assert_eq!(AppSection::GameConnection.label(), "Game connection");
}

#[test]
fn successful_detection_populates_path_and_status() {
    let path = "/steam/Deadlock/game/citadel/console.log";
    let mut state = AppState::default();
    let (start, status) = state
        .apply_log_detection(Ok(Detection::Ready {
            path: path.to_owned(),
        }))
        .expect("the log has to be followed");
    assert_eq!(start.path, path);
    assert!(start.needed);
    state.detection_finished(status, Ok(()));
    assert_eq!(state.log_path, path);
    assert_eq!(state.log_detection_status, Some(LogDetectionStatus::Found));
    assert!(state.bridge_events.is_some());
}

#[test]
fn missing_log_populates_guidance() {
    let path = "/steam/Deadlock/game/citadel/console.log".to_owned();
    let mut state = AppState::default();
    let (_, status) = state
        .apply_log_detection(Ok(Detection::NotCreated { path }))
        .expect("the log has to be followed");
    state.detection_finished(status, Ok(()));
    assert!(state
        .log_detection_status
        .expect("status")
        .label()
        .contains("-condebug"));
}

#[test]
fn failed_detection_does_not_replace_manual_path() {
    let mut state = AppState {
        log_path: "/manual/console.log".into(),
        ..AppState::default()
    };
    assert!(state
        .apply_log_detection(Err("Deadlock is not installed".to_owned()))
        .is_none());
    assert_eq!(state.log_path, "/manual/console.log");
    assert_eq!(
        state.log_detection_status,
        Some(LogDetectionStatus::Failed(
            "Auto-detect failed: Deadlock is not installed".to_owned()
        ))
    );
}

#[test]
fn listeners_that_cannot_start_are_told_of() {
    let mut state = AppState::default();
    state.detection_finished(LogDetectionStatus::Found, Err("e".to_owned()));
    assert_eq!(
        state.log_detection_status,
        Some(LogDetectionStatus::Failed(
            "Deadlock console.log was found, but the listener could not start: e".to_owned()
        ))
    );
    state.detection_finished(LogDetectionStatus::NotCreated, Err("e".to_owned()));
    assert_eq!(
        state.log_detection_status,
        Some(LogDetectionStatus::Failed(
            "Deadlock was found, but the listener could not start: e".to_owned()
        ))
    );
    state.listener_started(Err("e".to_owned()));
    assert_eq!(
        state.listener_action_error,
        Some("Could not start listener: e".to_owned())
    );
    state.listener_started(Ok(()));
    assert_eq!(state.listener_action_error, None);
}

#[test]
fn listeners_start_from_the_entered_path() {
    let mut state = AppState {
        log_path: " \t".to_owned(),
        ..AppState::default()
    };
    assert!(state.start_listener_from_input().is_none());
    assert_eq!(
        state.listener_action_error,
        Some("Enter a console.log path before starting the listener.".to_owned())
    );
    state.auto_detect_log_path();
    assert_eq!(state.listener_action_error, None);
    state.log_path = " /logs/console.log ".to_owned();
    let start = state.start_listener_from_input().unwrap();
    assert_eq!(start.path, "/logs/console.log");
    assert!(start.needed);
    let subscription = state.bridge_events;
    assert!(subscription.is_some());
    assert!(state.start_listener_from_input().unwrap().needed);
    assert_eq!(state.bridge_events, subscription);
}

#[test]
fn copy_transfers_both_shock_banks_without_enabled_state_or_filter() {
    let mut state = AppState::default();
    state.triggers.death.enabled = false;
    state.triggers.death.shock.mode = ShockMode::Fixed;
    state.triggers.death.shock.fixed.intensity = number(61.0);
    state.triggers.death.shock.fixed.duration_seconds = number(1.7);
    state.triggers.death.shock.interval.minimum_intensity = number(11.0);
    state.triggers.death.shock.interval.maximum_intensity = number(89.0);
    state.triggers.death.shock.interval.minimum_duration_seconds = number(0.6);
    state.triggers.death.shock.interval.maximum_duration_seconds = number(2.8);
    state.triggers.ability_use.trigger.enabled = true;
    state.triggers.ability_use.ability_filter = AbilityFilter::Selected(BTreeSet::from([2]));

    assert!(state.copy_shock_settings(TriggerKind::Death, TriggerKind::AbilityUse));
    assert_eq!(
        state.triggers.ability_use.trigger.shock,
        state.triggers.death.shock
    );
    assert!(state.triggers.ability_use.trigger.enabled);
    assert_eq!(
        state.triggers.ability_use.ability_filter,
        AbilityFilter::Selected(BTreeSet::from([2]))
    );
    assert_eq!(
        state.copy_feedback,
        Some("Copied death shock settings to ability use.".to_owned())
    );
    assert!(!state.copy_shock_settings(TriggerKind::Death, TriggerKind::Death));
}

#[test]
fn selecting_an_effect_updates_the_editor_and_copy_source() {
    let mut state = AppState {
        selected_effect: TriggerKind::Death,
        copy_source: TriggerKind::AbilityUse,
        copy_feedback: Some("old confirmation".to_owned()),
        ..AppState::default()
    };

    state.select_effect(TriggerKind::AbilityUse);

    assert_eq!(state.selected_effect, TriggerKind::AbilityUse);
    assert_eq!(state.copy_source, TriggerKind::Death);
    assert!(state.copy_feedback.is_none());
}

#[test]
fn expired_completion_is_skipped_and_decrements_in_flight() {
    let request = ShockRequest {
        provider: ProviderKind::PiShock,
        target: None,
        resolved: None,
        trigger: trigger(TriggerKind::Death, "session", 1),
    };
    let mut state = AppState {
        shock_in_flight: 1,
        ..AppState::default()
    };
    assert!(state.poll_shock(Poll::Ready(ShockCompletion {
        request,
        result: ShockCompletionResult::Skipped { reason: "expired" },
    })));
    assert!(!state.poll_shock(Poll::Empty));
    assert_eq!(state.shock_in_flight, 0);
    let Some(ShockStatus::Skipped { reason, .. }) = state.shock_status else {
        panic!("expected skipped status");
    };
    assert_eq!(reason, "expired");
}

#[test]
fn completions_report_success_failure_and_a_lost_worker() {
    let request = || ShockRequest {
        provider: ProviderKind::PiShock,
        target: None,
        resolved: None,
        trigger: trigger(TriggerKind::Death, "session", 1),
    };
    let mut state = AppState {
        shock_in_flight: 3,
        ..AppState::default()
    };
    state.poll_shock(Poll::Ready(ShockCompletion {
        request: request(),
        result: ShockCompletionResult::Completed(Ok(())),
    }));
    assert!(state.shock_status == Some(ShockStatus::Sent(request())));
    state.poll_shock(Poll::Ready(ShockCompletion {
        request: request(),
        result: ShockCompletionResult::Completed(Err(ProviderError::PiShock(
            Error::DeviceOffline,
        ))),
    }));
    assert!(
        state.shock_status
            == Some(ShockStatus::Failed {
                request: request(),
                error: "PiShock: the target PiShock hub is not connected".to_owned()
            })
    );
    assert_eq!(state.shock_in_flight, 1);
    assert!(!state.poll_shock(Poll::Closed));
    assert_eq!(state.shock_in_flight, 0);
}

#[test]
fn queue_submission_outcomes_update_status_and_in_flight_count() {
    let request = ShockRequest {
        provider: ProviderKind::PiShock,
        target: None,
        resolved: None,
        trigger: trigger(TriggerKind::Death, "session", 1),
    };

    let mut full = AppState::default();
    full.apply_shock_enqueue_result(request.clone(), ShockEnqueueResult::Full);
    assert_eq!(full.shock_in_flight, 0);
    assert!(matches!(
        full.shock_status,
        Some(ShockStatus::Skipped { reason, .. }) if reason == "shock queue is full"
    ));

    let mut disconnected = AppState::default();
    disconnected.apply_shock_enqueue_result(request.clone(), ShockEnqueueResult::Disconnected);
    assert_eq!(disconnected.shock_in_flight, 0);
    assert!(matches!(
        disconnected.shock_status,
        Some(ShockStatus::Failed { error, .. }) if error == "shock worker is unavailable"
    ));

    let mut accepted = AppState::default();
    accepted.apply_shock_enqueue_result(request, ShockEnqueueResult::Accepted);
    assert_eq!(accepted.shock_in_flight, 1);
    assert!(matches!(
        accepted.shock_status,
        Some(ShockStatus::Sending(_))
    ));
}

#[test]
fn actionable_events_share_a_global_sequence_watermark_across_trigger_kinds() {
    let mut state = AppState::default();
    state.queue_trigger_shock(trigger(TriggerKind::AbilityUse, "first", 4));
    assert_eq!(state.last_sequence, Some(("first".to_owned(), 4)));
    assert!(state.shock_status.is_none());

    state.queue_trigger_shock(trigger(TriggerKind::Death, "first", 3));
    assert!(state.shock_status.is_none());
    state.queue_trigger_shock(trigger(TriggerKind::Death, "first", 5));
    let first = state.shock_status.clone();
    assert!(matches!(&first, Some(ShockStatus::Skipped { .. })));

    state.triggers.ability_use.trigger.enabled = true;
    state.queue_trigger_shock(trigger(TriggerKind::AbilityUse, "first", 5));
    assert!(state.shock_status == first);
    state.queue_trigger_shock(trigger(TriggerKind::AbilityUse, "first", 6));
    assert!(state.shock_status != first);

    state.queue_trigger_shock(trigger(TriggerKind::Death, "second", 1));
    assert_eq!(state.last_sequence, Some(("second".to_owned(), 1)));
}

#[test]
fn trigger_defaults_and_cooldown_enablement_control_queueing() {
    let mut state = AppState::default();
    assert!(state.triggers.death.enabled);
    assert!(!state.triggers.ability_use.trigger.enabled);
    assert!(!state.triggers.ability_cooldown_ready.trigger.enabled);

    state.queue_trigger_shock(trigger(TriggerKind::AbilityCooldownReady, "session", 1));
    assert_eq!(state.last_sequence, Some(("session".to_owned(), 1)));
    assert!(state.shock_status.is_none());

    state.triggers.ability_cooldown_ready.trigger.enabled = true;
    state.queue_trigger_shock(trigger(TriggerKind::AbilityCooldownReady, "session", 2));
    assert!(matches!(
        state.shock_status,
        Some(ShockStatus::Skipped { .. })
    ));
}

#[test]
fn hook_ready_is_observed_but_never_advances_the_actionable_watermark() {
    let mut state = AppState {
        bridge_events: Some(0),
        ..AppState::default()
    };
    state
        .ability_catalog
        .insert(1, Some("Stale name".to_owned()));
    let (more, request) = state.poll_bridge_events(Poll::Ready(BridgeEvent::HookReady(HookReady {
        schema: 1,
        session_id: "session".to_owned(),
        client_time_ms: 1,
        poll_interval_ms: 100,
    })));
    assert!(more && request.is_none());
    assert!(state.ability_catalog.is_empty());
    assert!(state.last_sequence.is_none());
    assert!(state.shock_status.is_none());
    assert!(matches!(
        state.last_bridge_event,
        Some(BridgeEvent::HookReady(_))
    ));
}

#[test]
fn enabled_death_preserves_skipped_status_when_prerequisites_are_missing() {
    let mut state = AppState {
        bridge_events: Some(0),
        ..AppState::default()
    };
    let (_, request) = state.poll_bridge_events(Poll::Ready(BridgeEvent::LocalPlayerDeath(
        death_event("session", 1),
    )));
    assert!(request.is_none());
    assert!(matches!(
        state.shock_status,
        Some(ShockStatus::Skipped { .. })
    ));
    assert_eq!(state.shock_in_flight, 0);
}

#[test]
fn parsed_enabled_ability_event_reaches_the_shock_queue_path() {
    let event = parse_bridge_record(
        "[DEADLOCK_DEATH_HOOK]{\"schema\":1,\"event\":\"ability_cooldown_ready\",\"session_id\":\"session\",\"client_time_ms\":7,\"sequence\":3,\"ability_slot\":2,\"ability_name\":\"Bookwyrm\",\"detection\":\"charge_restored\",\"charges_before\":1,\"charges_after\":2}",
        |payload| {
            let value: Value = serde_json::from_str(payload).ok()?;
            if value.get("event")?.as_str()? != "ability_cooldown_ready" {
                return None;
            }
            Some(BridgeEvent::AbilityCooldownReady(AbilityTrigger {
                schema: u32::try_from(value.get("schema")?.as_u64()?).ok()?,
                session_id: value.get("session_id")?.as_str()?.to_owned(),
                client_time_ms: value.get("client_time_ms")?.as_u64()?,
                sequence: value.get("sequence")?.as_u64()?,
                ability_slot: u32::try_from(value.get("ability_slot")?.as_u64()?).ok()?,
                ability_name: optional(value.get("ability_name"), |name| {
                    name.as_str().map(str::to_owned)
                })?,
                detection: value.get("detection")?.as_str()?.to_owned(),
                charges_before: optional(value.get("charges_before"), Value::as_u64)?,
                charges_after: optional(value.get("charges_after"), Value::as_u64)?,
            }))
        },
    )
    .expect("valid ability event");
    let mut state = AppState {
        bridge_events: Some(0),
        ..AppState::default()
    };
    state.triggers.ability_cooldown_ready.trigger.enabled = true;

    state.poll_bridge_events(Poll::Ready(event));

    assert_eq!(state.last_sequence, Some(("session".to_owned(), 3)));
    assert!(matches!(
        state.shock_status,
        Some(ShockStatus::Skipped { .. })
    ));
    assert_eq!(state.shock_in_flight, 0);
}

#[test]
fn closed_subscriptions_are_given_up() {
    let mut state = AppState {
        bridge_events: Some(0),
        ..AppState::default()
    };
    assert!(!state.poll_bridge_events(Poll::Empty).0);
    assert_eq!(state.bridge_events, Some(0));
    assert!(!state.poll_bridge_events(Poll::Closed).0);
    assert_eq!(state.bridge_events, None);
    let ignored = state.poll_bridge_events(Poll::Ready(BridgeEvent::LocalPlayerDeath(
        death_event("session", 1),
    )));
    assert!(!ignored.0);
    assert!(state.last_sequence.is_none());
}

#[test]
fn deduplication_advances_before_filtering_and_filters_are_independent() {
    let mut state = AppState::default();
    state.triggers.ability_use.trigger.enabled = true;
    state.triggers.ability_cooldown_ready.trigger.enabled = true;
    state.triggers.ability_use.ability_filter = AbilityFilter::Selected(BTreeSet::new());
    state.triggers.ability_cooldown_ready.ability_filter =
        AbilityFilter::Selected(BTreeSet::from([3]));

    state.queue_trigger_shock(trigger(TriggerKind::AbilityUse, "session", 1));
    assert_eq!(state.last_sequence, Some(("session".to_owned(), 1)));
    assert!(state.shock_status.is_none());

    state.triggers.ability_use.ability_filter = AbilityFilter::All;
    state.queue_trigger_shock(trigger(TriggerKind::AbilityUse, "session", 1));
    assert!(state.shock_status.is_none());
    state.queue_trigger_shock(trigger(TriggerKind::AbilityUse, "session", 2));
    let accepted_use = state.shock_status.clone();
    assert!(matches!(&accepted_use, Some(ShockStatus::Skipped { .. })));

    state.queue_trigger_shock(trigger(TriggerKind::AbilityCooldownReady, "session", 3));
    assert!(state.shock_status == accepted_use);
    assert_eq!(state.last_sequence, Some(("session".to_owned(), 3)));
}

#[test]
fn trigger_routing_resolves_the_selected_profile_before_status_is_recorded() {
    let mut state = AppState::default();
    state.triggers.death.shock.mode = ShockMode::Fixed;
    state.triggers.death.shock.fixed.intensity = number(19.0);
    state.triggers.death.shock.fixed.duration_seconds = number(0.7);
    state.triggers.ability_use.trigger.enabled = true;
    state.triggers.ability_use.trigger.shock.mode = ShockMode::Fixed;
    state.triggers.ability_use.trigger.shock.fixed.intensity = number(73.0);
    state
        .triggers
        .ability_use
        .trigger
        .shock
        .fixed
        .duration_seconds = number(2.1);

    state.queue_trigger_shock(trigger(TriggerKind::AbilityUse, "session", 1));
    let Some(status) = state.shock_status.clone() else {
        panic!("enabled trigger should record missing-provider status");
    };
    assert_eq!(
        status.request().resolved,
        Some(ResolvedShock {
            intensity: 73,
            duration_ms: 2_100,
        })
    );

    state.triggers.ability_use.trigger.shock.fixed.intensity = number(5.0);
    assert_eq!(status.request().resolved.unwrap().intensity, 73);
}

#[test]
fn shocks_are_handed_out_once_nothing_stands_in_the_way() {
    let mut state = connected();
    let request = state
        .queue_trigger_shock(trigger(TriggerKind::Death, "session", 1))
        .expect("a connected, targeted death asks for a shock");
    assert!(request.target == Some(hub()));
    assert_eq!(
        request.resolved,
        Some(ResolvedShock {
            intensity: 1,
            duration_ms: 300
        })
    );
    assert!(state.shock_status.is_none());
    state.apply_shock_enqueue_result(request, ShockEnqueueResult::Accepted);
    assert!(state.is_busy());

    state.triggers.death.shock.interval.minimum_intensity = number(1.5);
    assert!(state
        .queue_trigger_shock(trigger(TriggerKind::Death, "session", 2))
        .is_none());
    assert!(matches!(
        &state.shock_status,
        Some(ShockStatus::Skipped { reason, .. }) if reason == "shock settings are invalid"
    ));
    state.selected_device = None;
    state.queue_trigger_shock(trigger(TriggerKind::Death, "session", 3));
    assert!(matches!(
        &state.shock_status,
        Some(ShockStatus::Skipped { reason, .. }) if reason == "no target is selected"
    ));
    state.client = None;
    state.queue_trigger_shock(trigger(TriggerKind::Death, "session", 4));
    assert!(matches!(
        &state.shock_status,
        Some(ShockStatus::Skipped { reason, .. }) if reason == "provider is not connected"
    ));
}

#[test]
fn prepared_shocks_follow_the_given_resolution() {
    let mut state = connected();
    let shock = ResolvedShock {
        intensity: 33,
        duration_ms: 777,
    };
    let request = state
        .handle_trigger(trigger(TriggerKind::Death, "session", 1), Some(shock))
        .unwrap();
    assert_eq!(request.resolved, Some(shock));
    assert!(state
        .handle_trigger(trigger(TriggerKind::Death, "session", 1), Some(shock))
        .is_none());
    assert!(state
        .handle_trigger(trigger(TriggerKind::Death, "session", 2), None)
        .is_none());
}

#[test]
fn ability_catalog_replaces_runtime_names_without_advancing_actionable_state() {
    let mut state = AppState {
        bridge_events: Some(0),
        ..AppState::default()
    };
    state.poll_bridge_events(Poll::Ready(BridgeEvent::AbilityCatalog(AbilityCatalog {
        schema: 1,
        session_id: "session".to_owned(),
        client_time_ms: 1,
        abilities: vec![
            AbilityCatalogEntry {
                ability_slot: 1,
                ability_name: Some("First".to_owned()),
            },
            AbilityCatalogEntry {
                ability_slot: 5,
                ability_name: None,
            },
        ],
    })));
    assert_eq!(
        state.ability_catalog,
        BTreeMap::from([(1, Some("First".to_owned())), (5, None)])
    );
    assert!(state.last_sequence.is_none());
    assert!(state.shock_status.is_none());

    state.replace_ability_catalog(AbilityCatalog {
        schema: 1,
        session_id: "session".to_owned(),
        client_time_ms: 2,
        abilities: vec![AbilityCatalogEntry {
            ability_slot: 2,
            ability_name: Some("Replacement".to_owned()),
        }],
    });
    assert_eq!(
        state.ability_catalog,
        BTreeMap::from([(2, Some("Replacement".to_owned()))])
    );
}

#[test]
fn catalogs_skip_slot_zero_and_keep_the_last_entry() {
    let entry = |ability_slot: u32, name: &str| AbilityCatalogEntry {
        ability_slot,
        ability_name: Some(name.to_owned()),
    };
    let mut state = AppState::default();
    state.replace_ability_catalog(AbilityCatalog {
        schema: 1,
        session_id: "session".to_owned(),
        client_time_ms: 2,
        abilities: vec![entry(0, "none"), entry(3, "old"), entry(3, "new")],
    });
    assert_eq!(
        state.ability_catalog,
        BTreeMap::from([(3, Some("new".to_owned()))])
    );
}

#[test]
fn reset_is_blocked_by_each_in_flight_work_kind() {
    let mut connection_busy = AppState {
        username: "keep".to_owned(),
        connection_testing: true,
        ..AppState::default()
    };
    assert!(!connection_busy.reset_saved_state());
    assert_eq!(connection_busy.username, "keep");

    let mut sound_busy = AppState {
        sound_pending: true,
        ..AppState::default()
    };
    assert!(!sound_busy.reset_saved_state());

    let mut shock_busy = AppState {
        shock_in_flight: 1,
        ..AppState::default()
    };
    assert!(!shock_busy.reset_saved_state());
    assert_eq!(shock_busy.shock_in_flight, 1);
}

#[test]
fn windows_are_repainted_while_something_is_going_on() {
    let mut state = AppState::default();
    assert!(!state.needs_repaint());
    state.shock_in_flight = 1;
    assert!(state.needs_repaint());
    state.shock_in_flight = 0;
    state.bridge_listener.status.phase = ListenerPhase::WaitingForFile;
    assert!(state.needs_repaint());
}
