use std::collections::BTreeSet;

use deadlockshock::binary32::{single, Binary32};
use deadlockshock::bridge_record::{AbilityTrigger, LocalPlayerDeath};
use deadlockshock::provider::{ProviderError, ProviderKind, ProviderTarget, TargetId};
use deadlockshock::settings::{
    editor_fields, first_copy_source, portable_duration, portable_intensity,
    trigger_display_label, AbilityFilter, CredentialState, ResolvedShock, ShockField, ShockMode, ShockSettings, StatusColor,
    TriggerKind, TriggerSettingsSet,
};
use deadlockshock::shock::{
    dispatch, settle, shock_job_expired_at, ShockCompletionResult, ShockDispatch, ShockRequest,
    ShockStatus, TriggerIdentity, MAX_SHOCK_QUEUE_AGE, SHOCK_QUEUE_CAPACITY,
};

fn number(value: f32) -> Binary32 {
    single(value.to_bits())
}

fn trigger(kind: TriggerKind, session_id: &str, sequence: u64) -> TriggerIdentity {
    TriggerIdentity {
        kind,
        session_id: session_id.to_owned(),
        client_time_ms: sequence,
        sequence,
        detection: "test".to_owned(),
        ability_slot: if kind == TriggerKind::Death { None } else { Some(2) },
        ability_name: if kind == TriggerKind::Death {
            None
        } else {
            Some("Test Ability".to_owned())
        },
        charges_before: None,
        charges_after: None,
    }
}

fn request(resolved: Option<ResolvedShock>) -> ShockRequest {
    ShockRequest {
        provider: ProviderKind::PiShock,
        target: Some(ProviderTarget::new(TargetId::PiShock(1), "hub")),
        resolved,
        trigger: trigger(TriggerKind::Death, "session", 1),
    }
}

#[test]
fn shock_profiles_resolve_portable_fixed_and_interval_values_independently() {
    let mut fixed = ShockSettings::default();
    fixed.mode = ShockMode::Fixed;
    fixed.fixed.intensity = number(37.0);
    fixed.fixed.duration_seconds = number(1.234);
    assert_eq!(
        fixed.resolve(),
        Some(ResolvedShock {
            intensity: 37,
            duration_ms: 1_234
        })
    );

    let mut interval = ShockSettings::default();
    interval.interval.minimum_intensity = number(70.0);
    interval.interval.maximum_intensity = number(72.0);
    interval.interval.minimum_duration_seconds = number(2.5);
    interval.interval.maximum_duration_seconds = number(2.6);
    for _ in 0..200 {
        let resolved = interval.resolve().unwrap();
        assert!((70..=72).contains(&resolved.intensity));
        assert!((2_500..=2_600).contains(&resolved.duration_ms));
    }
    let draw = ResolvedShock {
        intensity: 71,
        duration_ms: 2_555,
    };
    assert_eq!(interval.resolve_with(draw), Some(draw));
    assert_eq!(ShockSettings::default().resolve().unwrap().intensity, 1);

    fixed.fixed.intensity = number(0.0);
    assert_eq!(fixed.resolve(), None);
    interval.interval.minimum_intensity = number(90.0);
    interval.interval.maximum_intensity = number(10.0);
    assert_eq!(interval.resolve(), None);
    assert_eq!(interval.resolve_with(draw), None);
}

#[test]
fn draws_reach_every_allowed_intensity() {
    let mut interval = ShockSettings::default();
    interval.interval.maximum_intensity = number(3.0);
    let mut seen = BTreeSet::new();
    for _ in 0..500 {
        seen.insert(interval.resolve().unwrap().intensity);
    }
    assert_eq!(seen, BTreeSet::from([1, 2, 3]));
}

#[test]
fn portable_values_are_whole_percentages_and_milliseconds() {
    for value in [1.0, 37.0, 100.0] {
        assert_eq!(portable_intensity(number(value)), Some(value as u8));
    }
    for value in [
        0.0,
        0.5,
        1.5,
        99.99999,
        100.5,
        101.0,
        -1.0,
        f32::NAN,
        f32::INFINITY,
        f32::NEG_INFINITY,
    ] {
        assert_eq!(portable_intensity(number(value)), None);
    }
    for value in [0.3, 0.30000004, 1.0, 2.9999998, 3.0] {
        assert_eq!(
            portable_duration(number(value)),
            Some((value * 1_000.0_f32).round() as u64)
        );
    }
    for value in [0.29999998, 3.0000002, 0.0, -0.3, f32::NAN, f32::INFINITY] {
        assert_eq!(portable_duration(number(value)), None);
    }
}

#[test]
fn summaries_show_the_numbers_of_the_mode() {
    let mut settings = ShockSettings::default();
    assert_eq!(settings.summary(), "1–1% for 0.3–0.3 s");
    settings.interval.maximum_intensity = number(72.0);
    settings.interval.maximum_duration_seconds = number(2.55);
    assert_eq!(
        settings.summary(),
        format!("1–72% for 0.3–{:.1} s", 2.55_f32)
    );
    settings.mode = ShockMode::Fixed;
    settings.fixed.intensity = number(43.0);
    settings.fixed.duration_seconds = number(1.4);
    assert_eq!(settings.summary(), "43% for 1.4 s");
    assert_eq!(ShockMode::Interval.label(), "Interval");
    assert_eq!(ShockMode::Fixed.label(), "Fixed");
    assert_eq!(ShockMode::default(), ShockMode::Interval);
}

#[test]
fn upper_bounds_follow_lower_ones() {
    let mut settings = ShockSettings::default();
    settings.interval.minimum_intensity = number(40.0);
    settings.interval.minimum_duration_seconds = number(2.0);
    settings.keep_ordered();
    assert_eq!(settings.interval.maximum_intensity, number(40.0));
    assert_eq!(settings.interval.maximum_duration_seconds, number(2.0));
    let ordered = settings;
    settings.keep_ordered();
    assert_eq!(settings, ordered);
}

#[test]
fn ability_filters_cover_all_selected_empty_and_unknown_slots() {
    assert!(AbilityFilter::All.accepts(1));
    assert!(AbilityFilter::All.accepts(999));
    let selected = AbilityFilter::Selected(BTreeSet::from([2, 5]));
    assert!(!selected.accepts(1));
    assert!(selected.accepts(2));
    assert!(selected.accepts(5));
    assert!(!selected.accepts(999));
    assert!(!AbilityFilter::Selected(BTreeSet::new()).accepts(2));
}

#[test]
fn abilities_are_selected_one_by_one() {
    let shown = BTreeSet::from([1, 2, 3, 4, 9]);
    let mut filter = AbilityFilter::default();
    assert!(!filter.is_empty());
    filter.set(3, false, &shown);
    assert_eq!(
        filter,
        AbilityFilter::Selected(BTreeSet::from([1, 2, 4, 9]))
    );
    filter.set(3, true, &shown);
    filter.set(9, false, &shown);
    assert_eq!(
        filter,
        AbilityFilter::Selected(BTreeSet::from([1, 2, 3, 4]))
    );
    filter.select_none();
    assert!(filter.is_empty());
    filter.select_all();
    assert_eq!(filter, AbilityFilter::All);
}

#[test]
fn triggers_have_names_titles_and_copy_sources() {
    assert_eq!(TriggerKind::Death.label(), "death");
    assert_eq!(TriggerKind::AbilityUse.label(), "ability use");
    assert_eq!(
        TriggerKind::AbilityCooldownReady.label(),
        "ability cooldown ready"
    );
    assert_eq!(trigger_display_label(TriggerKind::Death), "Death");
    assert_eq!(trigger_display_label(TriggerKind::AbilityUse), "Ability use");
    assert_eq!(
        trigger_display_label(TriggerKind::AbilityCooldownReady),
        "Cooldown ready"
    );
    assert_eq!(
        first_copy_source(TriggerKind::Death),
        TriggerKind::AbilityUse
    );
    assert_eq!(
        first_copy_source(TriggerKind::AbilityUse),
        TriggerKind::Death
    );
    assert_eq!(
        first_copy_source(TriggerKind::AbilityCooldownReady),
        TriggerKind::Death
    );
}

#[test]
fn settings_of_each_trigger_are_their_own() {
    let mut set = TriggerSettingsSet::default();
    set.get_mut(TriggerKind::AbilityUse).enabled = true;
    assert!(set.get(TriggerKind::AbilityUse).enabled);
    assert!(!set.get(TriggerKind::AbilityCooldownReady).enabled);
    assert!(set.ability_filter(TriggerKind::Death).is_none());
    assert!(set.ability_filter_mut(TriggerKind::Death).is_none());
    if let Some(filter) = set.ability_filter_mut(TriggerKind::AbilityCooldownReady) {
        filter.select_none();
    }
    assert_eq!(
        set.ability_filter(TriggerKind::AbilityUse),
        Some(&AbilityFilter::All)
    );
    assert_eq!(
        set.ability_filter(TriggerKind::AbilityCooldownReady),
        Some(&AbilityFilter::Selected(BTreeSet::new()))
    );
}

#[test]
fn credential_states_have_labels_and_colors() {
    assert_eq!(CredentialState::default(), CredentialState::Unknown);
    let cases = [
        (
            CredentialState::Valid,
            "Connection valid",
            StatusColor::Success,
        ),
        (
            CredentialState::Invalid,
            "Connection failed",
            StatusColor::Failure,
        ),
        (
            CredentialState::Testing,
            "Testing connection…",
            StatusColor::Neutral,
        ),
        (
            CredentialState::Unknown,
            "Connection not tested",
            StatusColor::Neutral,
        ),
    ];
    for (state, label, color) in cases {
        assert_eq!(state.label(), label);
        assert_eq!(state.color(), color);
    }
}

#[test]
fn shock_queue_accepts_capacity_without_blocking() {
    let (sender, receiver) = std::sync::mpsc::sync_channel(SHOCK_QUEUE_CAPACITY);
    for value in 0..SHOCK_QUEUE_CAPACITY {
        assert!(sender.try_send(value).is_ok());
    }
    assert!(matches!(
        sender.try_send(SHOCK_QUEUE_CAPACITY),
        Err(std::sync::mpsc::TrySendError::Full(_))
    ));
    drop(receiver);
    assert!(matches!(
        sender.try_send(0),
        Err(std::sync::mpsc::TrySendError::Disconnected(_))
    ));
}

#[test]
fn expired_shock_jobs_are_skipped_before_dispatch() {
    let queued_at = 1_000_000_000_000;
    let now = queued_at + MAX_SHOCK_QUEUE_AGE;
    assert!(shock_job_expired_at(queued_at, now));
    assert!(!shock_job_expired_at(queued_at, now - 1_000_000));
    assert!(!shock_job_expired_at(now, queued_at));
}

#[test]
fn queued_shocks_expire_are_refused_or_sent() {
    let shock = ResolvedShock {
        intensity: 20,
        duration_ms: 500,
    };
    let complete = request(Some(shock));
    assert_eq!(dispatch(&complete, 5, 6), ShockDispatch::Send(shock));
    assert_eq!(
        dispatch(&complete, 5, 5 + MAX_SHOCK_QUEUE_AGE),
        ShockDispatch::Expire
    );
    assert_eq!(dispatch(&request(None), 5, 6), ShockDispatch::Refuse);
    let mut aimless = request(Some(shock));
    aimless.target = None;
    assert_eq!(dispatch(&aimless, 5, 6), ShockDispatch::Refuse);

    assert!(matches!(
        settle(ShockDispatch::Expire, Ok(())),
        ShockCompletionResult::Skipped { reason: "expired" }
    ));
    assert!(matches!(
        settle(ShockDispatch::Refuse, Ok(())),
        ShockCompletionResult::Completed(Err(ProviderError::NotConnected))
    ));
    assert!(matches!(
        settle(ShockDispatch::Send(shock), Ok(())),
        ShockCompletionResult::Completed(Ok(()))
    ));
}

#[test]
fn shock_status_contains_generic_trigger_slot_and_detection_details() {
    let mut ability = trigger(TriggerKind::AbilityCooldownReady, "session", 9);
    ability.detection = "charge_restored".to_owned();
    ability.charges_before = Some(1);
    ability.charges_after = Some(2);
    let request = ShockRequest {
        provider: ProviderKind::OpenShock,
        target: Some(ProviderTarget::new(
            TargetId::OpenShock("group".to_owned()),
            "group",
        )),
        resolved: Some(ResolvedShock {
            intensity: 20,
            duration_ms: 500,
        }),
        trigger: ability,
    };
    let status = ShockStatus::Sent(request);
    let label = status.label();
    assert!(label.contains("OpenShock"));
    assert!(label.contains("group"));
    assert!(label.contains("20% for 0.5 s"));
    assert!(label.contains("ability cooldown ready slot 2"));
    assert!(label.contains("charge_restored"));
    assert!(label.contains("charges 1→2"));
    assert!(label.contains("session#9"));
    assert_eq!(
        label,
        "OpenShock: Shock sent to group at 20% for 0.5 s (ability cooldown ready slot 2 (Test Ability), detection charge_restored, charges 1→2, session#9)."
    );
}

#[test]
fn news_of_shocks_are_told_in_full() {
    let shock = ResolvedShock {
        intensity: 5,
        duration_ms: 1_250,
    };
    let sending = ShockStatus::Sending(request(Some(shock)));
    assert_eq!(
        sending.label(),
        "PiShock: Sending shock to hub at 5% for 1.2 s (death session#1)…"
    );
    assert_eq!(sending.color(), StatusColor::Neutral);
    let failed = ShockStatus::Failed {
        request: request(None),
        error: "broken".to_owned(),
    };
    assert_eq!(
        failed.label(),
        "PiShock: Shock failed for hub at settings unavailable (death session#1): broken"
    );
    assert_eq!(failed.color(), StatusColor::Failure);
    let mut aimless = request(Some(shock));
    aimless.target = None;
    let skipped = ShockStatus::Skipped {
        request: aimless,
        reason: "no target is selected".to_owned(),
    };
    assert_eq!(
        skipped.label(),
        "PiShock: Shock skipped for no target at 5% for 1.2 s (death session#1): no target is selected"
    );
    assert_eq!(skipped.color(), StatusColor::Warning);
    assert_eq!(
        ShockStatus::Sent(request(None)).color(),
        StatusColor::Success
    );
}

#[test]
fn triggers_come_from_deaths_and_abilities() {
    let death = LocalPlayerDeath {
        schema: 1,
        session_id: "s".to_owned(),
        client_time_ms: 3,
        sequence: 4,
        detection: "d".to_owned(),
    };
    let from_death = TriggerIdentity::from_death(death);
    assert_eq!(from_death.kind, TriggerKind::Death);
    assert_eq!(from_death.ability_slot, None);
    assert_eq!(from_death.status_description(), "death s#4");
    let ability = AbilityTrigger {
        schema: 1,
        session_id: "s".to_owned(),
        client_time_ms: 3,
        sequence: 4,
        ability_slot: 7,
        ability_name: None,
        detection: "d".to_owned(),
        charges_before: Some(1),
        charges_after: None,
    };
    let from_ability = TriggerIdentity::from_ability(TriggerKind::AbilityUse, ability);
    assert_eq!(from_ability.ability_slot, Some(7));
    assert_eq!(
        from_ability.status_description(),
        "ability use slot 7, detection d, s#4"
    );
}

#[test]
fn each_mode_offers_its_own_numbers() {
    assert_eq!(
        editor_fields(ShockMode::Interval),
        vec![
            ShockField::MinimumIntensity,
            ShockField::MaximumIntensity,
            ShockField::MinimumDuration,
            ShockField::MaximumDuration,
        ]
    );
    assert_eq!(
        editor_fields(ShockMode::Fixed),
        vec![ShockField::Intensity, ShockField::Duration]
    );
    for (field, label, suffix, least, greatest) in [
        (ShockField::MinimumIntensity, "Minimum intensity", "%", 1.0, 100.0),
        (ShockField::MaximumIntensity, "Maximum intensity", "%", 1.0, 100.0),
        (ShockField::MinimumDuration, "Minimum duration", " s", 0.3, 3.0),
        (ShockField::MaximumDuration, "Maximum duration", " s", 0.3, 3.0),
        (ShockField::Intensity, "Intensity", "%", 1.0, 100.0),
        (ShockField::Duration, "Duration", " s", 0.3, 3.0),
    ] {
        assert_eq!(field.label(), label);
        assert_eq!(field.suffix(), suffix);
        assert_eq!(field.is_duration(), suffix == " s");
        assert_eq!(field.range(), (number(least), number(greatest)));
    }
}

#[test]
fn edits_change_one_number_and_raise_the_upper_bound() {
    for field in [
        ShockField::MinimumIntensity,
        ShockField::MaximumIntensity,
        ShockField::Intensity,
    ] {
        let mut settings = ShockSettings::default();
        settings.edit(field, number(40.0));
        assert_eq!(settings.get(field), number(40.0));
        assert_eq!(
            settings.get(ShockField::MaximumIntensity) == number(40.0),
            field != ShockField::Intensity
        );
        assert_eq!(settings.get(ShockField::MinimumDuration), number(0.3));
        assert_eq!(settings.get(ShockField::Duration), number(0.3));
    }
    let mut settings = ShockSettings::default();
    settings.edit(ShockField::MinimumDuration, number(2.0));
    assert_eq!(settings.get(ShockField::MaximumDuration), number(2.0));
    settings.edit(ShockField::MaximumDuration, number(1.0));
    assert_eq!(settings.get(ShockField::MaximumDuration), number(2.0));
    settings.edit(ShockField::MaximumDuration, number(3.0));
    assert_eq!(settings.get(ShockField::MinimumDuration), number(2.0));
    assert_eq!(settings.get(ShockField::MaximumDuration), number(3.0));
    settings.edit(ShockField::Duration, number(1.5));
    assert_eq!(settings.get(ShockField::Duration), number(1.5));
    assert_eq!(settings.get(ShockField::MinimumDuration), number(2.0));
}

#[test]
fn edited_intervals_resolve_within_their_bounds() {
    let mut settings = ShockSettings::default();
    settings.edit(ShockField::MinimumIntensity, number(20.0));
    settings.edit(ShockField::MaximumIntensity, number(25.0));
    settings.edit(ShockField::MinimumDuration, number(0.5));
    settings.edit(ShockField::MaximumDuration, number(0.7));
    for _ in 0..200 {
        let shock = settings.resolve().expect("settings in range resolve");
        assert!((20..=25).contains(&shock.intensity));
        assert!((500..=700).contains(&shock.duration_ms));
    }
}
