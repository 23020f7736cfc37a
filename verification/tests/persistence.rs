use std::collections::BTreeSet;

use deadlockshock::app::AppState;
use deadlockshock::binary32::{single, Binary32};
use deadlockshock::bridge_listener::FirstOpen;
use deadlockshock::companion::{CompanionApp, ResetDialog};
use deadlockshock::persistence::{
    backup_name, load_preserved, load_step, normalize_value, write_failure, LoadOutcome, LoadStep,
    PersistedState, PersistedTarget, Persistence, ReadOutcome, SaveReason, WriteStep,
    SAVE_DEBOUNCE, SCHEMA_VERSION,
};
use deadlockshock::provider::{ConnectedProvider, ProviderKind, ProviderTarget, TargetId};
use deadlockshock::settings::{AbilityFilter, CredentialState, ShockMode, TriggerKind};
use deadlockshock::shock::TriggerIdentity;

fn number(value: f32) -> Binary32 {
    single(value.to_bits())
}

fn loaded(step: LoadStep) -> LoadOutcome {
    match step {
        LoadStep::Done(outcome) => outcome,
        LoadStep::Preserve(_) => panic!("the file is valid"),
    }
}

fn open() -> (Persistence, PersistedState) {
    let outcome = loaded(load_step("state.json", ReadOutcome::Missing));
    Persistence::open("state.json".to_owned(), outcome)
}

#[test]
fn json_roundtrip_is_readable_versioned_and_restores_only_durable_state() {
    let mut original = AppState::default();
    original.provider = ProviderKind::OpenShock;
    original.username = "pi-user".to_owned();
    original.api_key = "pi-key".to_owned();
    original.openshock_token = "open-token".to_owned();
    original.preferred_target = Some(TargetId::OpenShock("group-id".to_owned()));
    original.triggers.death.shock.mode = ShockMode::Fixed;
    original.triggers.death.shock.interval.minimum_intensity = number(11.0);
    original.triggers.death.shock.interval.maximum_intensity = number(72.0);
    original.triggers.death.shock.fixed.intensity = number(43.0);
    original.triggers.death.shock.interval.minimum_duration_seconds = number(0.5);
    original.triggers.death.shock.interval.maximum_duration_seconds = number(2.6);
    original.triggers.death.shock.fixed.duration_seconds = number(1.4);
    original.triggers.ability_use.trigger.enabled = true;
    original.triggers.ability_use.ability_filter = AbilityFilter::Selected(BTreeSet::from([2, 7]));
    original.triggers.ability_cooldown_ready.trigger.shock.mode = ShockMode::Fixed;
    original.log_path = "/logs/console.log".to_owned();
    original.credential_state = CredentialState::Valid;
    original.devices = vec![ProviderTarget::new(
        TargetId::OpenShock("group-id".to_owned()),
        "Fetched group",
    )];
    original.selected_device = Some(TargetId::OpenShock("group-id".to_owned()));
    let persisted = PersistedState::from_app(&original);
    assert_eq!(persisted.schema_version, 1);
    assert_eq!(persisted.provider, ProviderKind::OpenShock);
    assert_eq!(
        persisted.preferred_target,
        Some(PersistedTarget {
            provider: ProviderKind::OpenShock,
            id: "group-id".to_owned()
        })
    );

    let decoded = persisted.duplicate().normalized().unwrap();
    assert_eq!(decoded, persisted);
    let restored = decoded.restore_app();
    assert_eq!(PersistedState::from_app(&restored), persisted);
    assert_eq!(restored.triggers, original.triggers);
    assert_eq!(restored.credential_state, CredentialState::Unknown);
    assert!(restored.devices.is_empty());
    assert!(restored.selected_device.is_none());
    assert!(!restored.listener_is_running());
    assert!(restored.runtime_trigger_and_shock_state_is_clear());
}

#[test]
fn missing_file_loads_current_defaults_without_warning() {
    let outcome = loaded(load_step("state.json", ReadOutcome::Missing));
    assert_eq!(outcome.state, PersistedState::default());
    assert!(outcome.warning.is_none());
}

#[test]
fn unreadable_file_loads_defaults_with_a_warning() {
    let outcome = loaded(load_step(
        "/c/state.json",
        ReadOutcome::Unreadable("denied".to_owned()),
    ));
    assert_eq!(outcome.state, PersistedState::default());
    assert_eq!(
        outcome.warning,
        Some(
            "Could not read saved state at /c/state.json: denied. Defaults were restored."
                .to_owned()
        )
    );
}

#[test]
fn corrupt_file_is_preserved_before_defaults_are_returned() {
    let step = load_step(
        "/c/state.json",
        ReadOutcome::Malformed("key must be a string".to_owned()),
    );
    let LoadStep::Preserve(error) = step else {
        panic!("a corrupt file has to be put aside");
    };
    let name = backup_name("state", Some("json"), 1_700_000_000, 42, 0);
    assert_eq!(name, "state.invalid-1700000000-000000042.json");
    assert!(name.starts_with("state.invalid-"));
    let outcome = load_preserved("/c/state.json", &error, Ok(name));
    assert_eq!(outcome.state, PersistedState::default());
    assert!(outcome.warning.as_deref().unwrap().contains("preserved"));
    assert_eq!(
        outcome.warning.unwrap(),
        "Saved state was invalid (key must be a string). The invalid file was preserved at state.invalid-1700000000-000000042.json. Defaults were restored."
    );
    let outcome = load_preserved("/c/state.json", "bad", Err("denied".to_owned()));
    assert_eq!(
        outcome.warning.unwrap(),
        "Saved state was invalid (bad). The invalid file could not be moved to a backup (denied); it remains at /c/state.json. Defaults were restored."
    );
}

#[test]
fn backup_names_tell_time_and_collisions() {
    for nanos in [0, 9, 10, 999_999_999, 100_000_000] {
        for collision in [0, 1, 12] {
            let suffix = if collision == 0 {
                String::new()
            } else {
                format!("-{collision}")
            };
            assert_eq!(
                backup_name("s", None, 7, nanos, collision),
                format!("s.invalid-7-{nanos:09}{suffix}")
            );
        }
    }
}

#[test]
fn loaded_shock_values_are_normalized_and_intervals_are_ordered() {
    let mut state = PersistedState::default();
    state.shock.interval.minimum_intensity = number(120.0);
    state.shock.interval.maximum_intensity = number(-5.0);
    state.shock.interval.minimum_duration_seconds = number(2.7);
    state.shock.interval.maximum_duration_seconds = number(0.1);
    state.shock.fixed.intensity = number(-1.0);
    state.shock.fixed.duration_seconds = number(9.0);
    let normalized = state.normalized().unwrap();
    assert_eq!(normalized.shock.interval.minimum_intensity, number(100.0));
    assert_eq!(normalized.shock.interval.maximum_intensity, number(100.0));
    assert_eq!(
        normalized.shock.interval.minimum_duration_seconds,
        number(2.7)
    );
    assert_eq!(
        normalized.shock.interval.maximum_duration_seconds,
        number(2.7)
    );
    assert_eq!(normalized.shock.fixed.intensity, number(1.0));
    assert_eq!(normalized.shock.fixed.duration_seconds, number(3.0));
}

#[test]
fn every_profile_is_normalized() {
    let mut state = PersistedState::default();
    state.triggers.ability_use.trigger.shock.fixed.intensity = number(f32::NAN);
    state
        .triggers
        .ability_cooldown_ready
        .trigger
        .shock
        .fixed
        .duration_seconds = number(f32::INFINITY);
    let normal = state.normalized().unwrap();
    assert_eq!(
        normal.triggers.ability_use.trigger.shock.fixed.intensity,
        number(1.0)
    );
    assert_eq!(
        normal
            .triggers
            .ability_cooldown_ready
            .trigger
            .shock
            .fixed
            .duration_seconds,
        number(0.3)
    );
    let again = normal.duplicate().normalized().unwrap();
    assert!(again.equals(&normal));
    assert_eq!(
        normalize_value(number(2.0), number(0.3), number(3.0), number(0.3)),
        number(2.0)
    );
}

#[test]
fn preferred_targets_are_kept_only_for_their_provider() {
    let with = |provider: ProviderKind, of: ProviderKind, id: &str| {
        let mut state = PersistedState::default();
        state.provider = provider;
        state.preferred_target = Some(PersistedTarget {
            provider: of,
            id: id.to_owned(),
        });
        state.normalized()
    };
    let kept = with(ProviderKind::PiShock, ProviderKind::PiShock, "+007").unwrap();
    assert_eq!(kept.preferred_target.unwrap().id, "7");
    let dropped = with(ProviderKind::PiShock, ProviderKind::OpenShock, "group").unwrap();
    assert_eq!(dropped.preferred_target, None);
    assert_eq!(
        with(ProviderKind::PiShock, ProviderKind::PiShock, "seven"),
        Err("PiShock preferred target ID is not an unsigned integer".to_owned())
    );
    assert_eq!(
        with(ProviderKind::OpenShock, ProviderKind::OpenShock, " "),
        Err("OpenShock preferred target ID is empty".to_owned())
    );

    for id in [
        TargetId::PiShock(0),
        TargetId::PiShock(u64::MAX),
        TargetId::OpenShock("group".to_owned()),
    ] {
        assert_eq!(PersistedTarget::from_target_id(&id).to_target_id(), Ok(id));
    }
    let mut blank = AppState::default();
    blank.username = "kept".to_owned();
    blank.provider = ProviderKind::OpenShock;
    blank.preferred_target = Some(TargetId::OpenShock("  ".to_owned()));
    let saved = PersistedState::from_app(&blank);
    assert_eq!(saved.preferred_target, None);
    assert_eq!(saved.provider, ProviderKind::OpenShock);
    assert_eq!(saved.restore_app().username, "kept");
}

#[test]
fn saved_states_compare_field_by_field() {
    let base = PersistedState::default();
    assert!(base.equals(&base.duplicate()));
    let mut other = base.duplicate();
    other.triggers.ability_use.ability_filter = AbilityFilter::Selected(BTreeSet::from([1, 2]));
    assert!(!base.equals(&other));
    let mut third = other.duplicate();
    assert!(third.equals(&other));
    third.triggers.ability_use.ability_filter = AbilityFilter::Selected(BTreeSet::from([1, 3]));
    assert!(!third.equals(&other));
    third.triggers.ability_use.ability_filter = AbilityFilter::Selected(BTreeSet::from([1]));
    assert!(!third.equals(&other));
    let mut zero = base.duplicate();
    zero.shock.fixed.intensity = number(0.0);
    let mut minus = base.duplicate();
    minus.shock.fixed.intensity = number(-0.0);
    assert!(zero.equals(&minus));
    assert_eq!(zero, minus);
    assert_eq!(zero.shock, minus.shock);
    let mut nan = base.duplicate();
    nan.shock.fixed.intensity = number(f32::NAN);
    assert!(!nan.equals(&nan));
    let copy = nan.duplicate();
    assert_ne!(nan, copy);
    assert_ne!(nan.shock, copy.shock);
}

#[test]
fn debounce_writes_once_and_save_now_flushes_immediately() {
    let (mut persistence, initial) = open();
    let mut changed = initial.duplicate();
    changed.log_path = "/changed".to_owned();
    let start = 1_000;

    let look = persistence.observe(changed.duplicate(), start);
    assert!(look.job.is_none());
    assert_eq!(look.delay, Some(SAVE_DEBOUNCE));
    let look = persistence.observe(changed.duplicate(), start + SAVE_DEBOUNCE / 2);
    assert!(look.job.is_none());
    assert_eq!(look.delay, Some(SAVE_DEBOUNCE / 2));
    let look = persistence.observe(changed.duplicate(), start + SAVE_DEBOUNCE);
    let job = look.job.expect("the time to write has come");
    assert_eq!(job.state, changed);
    assert_eq!(
        persistence.settle(job, Ok(()), start + SAVE_DEBOUNCE),
        None
    );
    assert_eq!(persistence.saved, changed);
    let look = persistence.observe(changed.duplicate(), start + SAVE_DEBOUNCE * 2);
    assert!(look.job.is_none() && look.delay.is_none());

    changed.log_path = "/exit-flush".to_owned();
    persistence.observe(changed.duplicate(), start + SAVE_DEBOUNCE * 2);
    let job = persistence.flush(changed.duplicate()).expect("dirty");
    assert_eq!(job.state, changed);
    assert_eq!(persistence.commit(job, Ok(())), Ok(()));
    assert_eq!(persistence.saved, changed);
    assert!(persistence.flush(changed.duplicate()).is_none());

    changed.log_path = "/save-now".to_owned();
    let job = persistence.save_reset_now(changed.duplicate());
    assert_eq!(job.reason, SaveReason::Reset);
    assert_eq!(persistence.commit(job, Ok(())), Ok(()));
    assert_eq!(persistence.saved, changed);
}

#[test]
fn changes_that_are_taken_back_are_not_written() {
    let (mut persistence, initial) = open();
    let mut changed = initial.duplicate();
    changed.log_path = "/changed".to_owned();
    persistence.observe(changed, 0);
    let look = persistence.observe(initial, SAVE_DEBOUNCE * 9);
    assert!(look.job.is_none() && look.delay.is_none());
    assert!(persistence.pending.is_none());
}

#[test]
fn failed_writes_are_retried_later() {
    let (mut persistence, initial) = open();
    let mut changed = initial.duplicate();
    changed.log_path = "/changed".to_owned();
    persistence.observe(changed.duplicate(), 0);
    let job = persistence
        .observe(changed.duplicate(), SAVE_DEBOUNCE)
        .job
        .unwrap();
    let delay = persistence.settle(job, Err("disk full.".to_owned()), SAVE_DEBOUNCE);
    assert_eq!(delay, Some(SAVE_DEBOUNCE));
    assert_eq!(
        persistence.save_error(),
        Some("Could not save settings: disk full. Changes remain unsaved and will be retried.")
    );
    let look = persistence.observe(changed.duplicate(), SAVE_DEBOUNCE + 1);
    assert!(look.job.is_none());
    let job = persistence
        .observe(changed.duplicate(), SAVE_DEBOUNCE * 2)
        .job
        .unwrap();
    assert_eq!(persistence.settle(job, Ok(()), SAVE_DEBOUNCE * 2), None);
    assert_eq!(persistence.save_error(), None);
    assert_eq!(persistence.saved, changed);
}

#[test]
fn unsupported_schema_is_backed_up_like_malformed_json() {
    let state = PersistedState {
        schema_version: SCHEMA_VERSION + 1,
        ..PersistedState::default()
    };
    let LoadStep::Preserve(error) = load_step("/c/state.json", ReadOutcome::Decoded(state)) else {
        panic!("another schema has to be put aside");
    };
    let outcome = load_preserved("/c/state.json", &error, Ok("backup".to_owned()));
    assert_eq!(outcome.state, PersistedState::default());
    assert!(outcome
        .warning
        .unwrap()
        .contains("unsupported schema version 2; expected 1"));
}

#[test]
fn failed_reset_save_stays_dirty_and_reports_that_disk_state_may_return() {
    let (mut persistence, mut state) = open();
    state.log_path = "/reset-in-memory".to_owned();
    let job = persistence.save_reset_now(state.duplicate());
    assert_eq!(
        persistence.commit(job, Err("is a directory.".to_owned())),
        Err(())
    );
    assert_eq!(persistence.pending, Some(state));
    assert!(persistence
        .save_error()
        .unwrap()
        .contains("previous disk state may return"));
    assert_eq!(
        persistence.save_error(),
        Some("Current settings were reset in memory, but saved state could not be replaced: is a directory. The previous disk state may return after restart.")
    );
    let look = persistence.observe(persistence.observed.duplicate(), 7);
    assert_eq!(look.delay, Some(SAVE_DEBOUNCE));
}

#[test]
fn without_a_place_nothing_is_written() {
    let (mut persistence, state) = Persistence::unavailable("no home.");
    assert_eq!(
        persistence.load_warning(),
        Some("Saved state is unavailable: no home. Settings will remain in memory for this session.")
    );
    assert_eq!(state, PersistedState::default());
    let job = persistence.save_reset_now(state);
    assert_eq!(persistence.commit(job, Ok(())), Err(()));
    assert!(persistence
        .save_error()
        .unwrap()
        .contains("No per-user saved-state path is available."));
}

#[test]
fn failed_steps_of_writing_are_told() {
    let cases = [
        (
            WriteStep::Directory,
            "Could not create the saved-state directory /d: e",
        ),
        (
            WriteStep::DirectoryPermissions,
            "Could not restrict saved-state directory permissions for /d: e",
        ),
        (
            WriteStep::Temporary,
            "Could not create a temporary saved-state file in /d: e",
        ),
        (
            WriteStep::FilePermissions,
            "Could not restrict saved-state file permissions: e",
        ),
        (
            WriteStep::Serialization,
            "Could not serialize saved state: e",
        ),
        (
            WriteStep::LastByte,
            "Could not finish writing saved state: e",
        ),
        (
            WriteStep::Synchronization,
            "Could not synchronize saved state: e",
        ),
        (
            WriteStep::Replacement,
            "Could not atomically replace /d: e",
        ),
    ];
    for (step, told) in cases {
        assert_eq!(write_failure(step, "/d", "e"), told);
    }
}

#[test]
fn confirmed_reset_stops_runtime_state_and_writes_durable_defaults_immediately() {
    let outcome = loaded(load_step("state.json", ReadOutcome::Missing));
    let mut app = CompanionApp::load(Ok(("state.json".to_owned(), outcome)));
    app.state.provider = ProviderKind::OpenShock;
    app.state.openshock_token = "secret".to_owned();
    app.state.preferred_target = Some(TargetId::OpenShock("group".to_owned()));
    app.state.triggers.death.shock.mode = ShockMode::Fixed;
    app.state.triggers.death.shock.fixed.intensity = number(80.0);
    app.state.triggers.ability_use.trigger.enabled = true;
    app.state.triggers.ability_use.ability_filter = AbilityFilter::Selected(BTreeSet::from([2]));
    app.state.triggers.ability_cooldown_ready.trigger.enabled = true;
    let log_path = "console.log".to_owned();
    app.state.log_path = log_path.clone();
    assert!(app.state.start_log_listener(&log_path));
    app.state
        .bridge_listener
        .follow(log_path, FirstOpen::Missing);
    app.state.bridge_listener.spawned(Ok(())).unwrap();
    app.state.queue_trigger_shock(TriggerIdentity {
        kind: TriggerKind::Death,
        session_id: "session".to_owned(),
        client_time_ms: 1,
        sequence: 1,
        detection: "test".to_owned(),
        ability_slot: None,
        ability_name: None,
        charges_before: None,
        charges_after: None,
    });
    assert!(app.state.listener_is_running());
    assert!(!app.state.runtime_trigger_and_shock_state_is_clear());

    app.ask_for_reset();
    let reset = app
        .close_reset_dialog(ResetDialog {
            open: true,
            confirmed: true,
            cancelled: false,
        })
        .expect("nothing is under way");
    assert!(!app.reset_confirmation);
    assert_eq!(
        PersistedState::from_app(&app.state),
        PersistedState::default()
    );
    assert!(!app.state.listener_is_running());
    assert!(app.state.runtime_trigger_and_shock_state_is_clear());
    assert_eq!(app.state.credential_state, CredentialState::Unknown);
    assert!(app.state.devices.is_empty());
    assert!(app.state.selected_device.is_none());
    assert_eq!(reset.closed, None);
    assert_eq!(reset.job.state, PersistedState::default());
    assert_eq!(app.persistence.commit(reset.job, Ok(())), Ok(()));
}

#[test]
fn resets_clear_the_preferred_target_of_either_provider() {
    for target in [
        TargetId::PiShock(1),
        TargetId::OpenShock("group".to_owned()),
    ] {
        let mut state = AppState {
            preferred_target: Some(target.clone()),
            ..AppState::default()
        };
        assert!(state.reset_saved_state());
        assert!(state.preferred_target.is_none());
        assert_eq!(PersistedState::from_app(&state), PersistedState::default());

        let mut app = CompanionApp::load(Err("no home.".to_owned()));
        app.state.client = Some(ConnectedProvider::PiShock);
        app.state.preferred_target = Some(target);
        let reset = app.reset_and_save().unwrap();
        assert_eq!(reset.job.state, PersistedState::default());
        assert_eq!(reset.closed, Some(ConnectedProvider::PiShock));
        assert!(app.state.client.is_none());
    }
}

#[test]
fn busy_apps_are_not_reset() {
    let mut app = CompanionApp::load(Err("no home.".to_owned()));
    app.state.shock_in_flight = 1;
    app.ask_for_reset();
    assert!(!app.reset_available());
    let dialog = |confirmed: bool, cancelled: bool| ResetDialog {
        open: true,
        confirmed,
        cancelled,
    };
    assert!(app.close_reset_dialog(dialog(true, false)).is_none());
    assert!(app.reset_confirmation);
    assert!(app.close_reset_dialog(dialog(false, true)).is_none());
    assert!(!app.reset_confirmation);
}

#[test]
fn apps_observe_and_flush_their_state() {
    let outcome = loaded(load_step("state.json", ReadOutcome::Missing));
    let mut app = CompanionApp::load(Ok(("state.json".to_owned(), outcome)));
    assert!(app.observe(0).job.is_none());
    assert!(app.flush_pending().is_none());
    app.state.username = "user".to_owned();
    assert_eq!(app.observe(1).delay, Some(SAVE_DEBOUNCE));
    let job = app.flush_pending().expect("dirty");
    assert_eq!(job.state.credentials.pishock.username, "user");
    assert_eq!(app.persistence.commit(job, Ok(())), Ok(()));
    assert!(app.flush_pending().is_none());
}
