use std::collections::{BTreeMap, BTreeSet};

use deadlockshock::app::{AppState, SoundStatus};
use deadlockshock::bridge_listener::{ListenerPhase, ListenerStatus};
use deadlockshock::bridge_record::{
    AbilityCatalog, AbilityCatalogEntry, AbilityTrigger, BridgeEvent, HookReady,
};
use deadlockshock::companion::{
    latest_version_line, mod_version_line, update_notices, CompanionApp, ModVersionObservation,
    UpdateLink, UpdateNotice, VersionCheckState, WarningSelection,
};
use deadlockshock::provider::{ConnectedProvider, ProviderKind, ProviderTarget, TargetId};
use deadlockshock::settings::{AbilityFilter, ResolvedShock, StatusColor, TriggerKind};
use deadlockshock::shock::{ShockRequest, ShockStatus, TriggerIdentity};
use deadlockshock::view::{
    ability_notes, bridge_event_description, catalog_line, delivery_line, effects_view, format_duration,
    listener_view, setup_view, shown_slots, slot_label,
};

const SECOND: u64 = 1_000_000_000;

fn ability() -> AbilityTrigger {
    AbilityTrigger {
        schema: 1,
        session_id: "s".to_owned(),
        client_time_ms: 1,
        sequence: 2,
        ability_slot: 3,
        ability_name: Some("Slash".to_owned()),
        detection: "d".to_owned(),
        charges_before: Some(2),
        charges_after: Some(1),
    }
}

#[test]
fn durations_are_told_in_seconds_or_minutes() {
    assert_eq!(format_duration(0), "0.0s");
    assert_eq!(format_duration(1_250_000_000), "1.2s");
    assert_eq!(format_duration(59_960_000_000), "60.0s");
    assert_eq!(format_duration(60 * SECOND), "1m 0s");
    assert_eq!(format_duration(125 * SECOND + 999), "2m 5s");
}

#[test]
fn events_are_described() {
    let ready = BridgeEvent::HookReady(HookReady {
        schema: 1,
        session_id: "s".to_owned(),
        client_time_ms: 1,
        poll_interval_ms: 100,
    });
    assert_eq!(bridge_event_description(&ready), "hook_ready");
    let catalog = BridgeEvent::AbilityCatalog(AbilityCatalog {
        schema: 1,
        session_id: "s".to_owned(),
        client_time_ms: 1,
        abilities: vec![
            AbilityCatalogEntry {
                ability_slot: 1,
                ability_name: None,
            },
            AbilityCatalogEntry {
                ability_slot: 2,
                ability_name: None,
            },
        ],
    });
    assert_eq!(
        bridge_event_description(&catalog),
        "ability_catalog, 2 slot(s)"
    );
    assert_eq!(
        bridge_event_description(&BridgeEvent::AbilityUsed(ability())),
        "ability_used, slot 3 (Slash), detection d, charges 2→1"
    );
    let mut bare = ability();
    bare.ability_name = None;
    bare.charges_after = None;
    assert_eq!(
        bridge_event_description(&BridgeEvent::AbilityCooldownReady(bare)),
        "ability_cooldown_ready, slot 3, detection d"
    );
}

#[test]
fn listener_status_is_shown() {
    let mut status = ListenerStatus::default();
    let view = listener_view(&status, &None, 10 * SECOND);
    assert!(view.path.is_none());
    assert_eq!(view.phase, "Listener stopped.");
    assert_eq!(view.phase_color, StatusColor::Neutral);
    assert_eq!(view.activity, "Last log activity: none since listener start.");
    assert_eq!(view.event, "Last bridge event: none since listener start.");

    status.configured_path = Some("/logs/console.log".to_owned());
    status.phase = ListenerPhase::Listening;
    status.last_activity_at = Some(8 * SECOND);
    status.last_event_at = Some(5 * SECOND);
    let view = listener_view(
        &status,
        &Some(BridgeEvent::AbilityUsed(ability())),
        10 * SECOND,
    );
    assert_eq!(
        view.path,
        Some("Configured listener path: /logs/console.log".to_owned())
    );
    assert_eq!(view.phase, "Listener is monitoring console.log.");
    assert_eq!(view.phase_color, StatusColor::Success);
    assert_eq!(view.activity, "Last log activity: 2.0s ago.");
    assert_eq!(
        view.event,
        "Last bridge event: ability_used, slot 3 (Slash), detection d, charges 2→1 (5.0s ago)."
    );

    status.phase = ListenerPhase::WaitingForFile;
    let view = listener_view(&status, &None, 0);
    assert_eq!(
        view.phase,
        "Listener waiting for console.log to be created."
    );
    assert_eq!(view.phase_color, StatusColor::Warning);
    status.phase = ListenerPhase::Failed;
    assert_eq!(
        listener_view(&status, &None, 0).phase,
        "Listener failed: unknown error"
    );
    status.current_error = Some("gone".to_owned());
    let view = listener_view(&status, &None, 0);
    assert_eq!(view.phase, "Listener failed: gone");
    assert_eq!(view.phase_color, StatusColor::Failure);
}

#[test]
fn setup_offers_what_is_possible() {
    let mut state = AppState::default();
    let view = setup_view(&state);
    assert!(view.can_edit && !view.can_test && !view.can_select && !view.can_sound);
    assert_eq!(view.selected_name, "No device groups found");
    assert_eq!(view.credentials, "Connection not tested");
    assert!(view.sound.is_none() && view.connection_error.is_none());

    state.username = "user".to_owned();
    state.api_key = "key".to_owned();
    state.apply_connection_result(Ok((
        ConnectedProvider::PiShock,
        vec![ProviderTarget::new(TargetId::PiShock(1), "Hub")],
    )));
    state.sound_status = Some(SoundStatus::Sent);
    let view = setup_view(&state);
    assert!(view.can_test && view.can_select && view.can_sound);
    assert_eq!(view.selected_name, "Hub");
    assert_eq!(view.credentials_color, StatusColor::Success);
    assert_eq!(view.sound.unwrap().text, "Test sound sent.");

    state.selected_device = None;
    assert_eq!(setup_view(&state).selected_name, "Select a device group");
    state.shock_in_flight = 1;
    let view = setup_view(&state);
    assert!(!view.can_edit && !view.can_test && !view.can_select && !view.can_sound);
}

#[test]
fn effects_list_every_trigger() {
    let mut state = AppState::default();
    let view = effects_view(&state);
    assert!(view.can_edit && view.can_copy);
    assert_eq!(view.rows.len(), 3);
    assert_eq!(view.rows[0].title, "Death");
    assert_eq!(view.rows[0].summary, "1–1% for 0.3–0.3 s");
    assert!(view.rows[0].enabled && view.rows[0].selected);
    assert!(!view.rows[1].enabled && !view.rows[1].selected);
    assert_eq!(view.rows[2].kind, TriggerKind::AbilityCooldownReady);
    assert_eq!(view.heading, "Death effect");
    assert!(!view.shows_abilities && !view.shows_cooldown_note);
    assert_eq!(
        view.copy_sources,
        vec![TriggerKind::AbilityUse, TriggerKind::AbilityCooldownReady]
    );

    state.select_effect(TriggerKind::AbilityCooldownReady);
    state.shock_in_flight = 1;
    let view = effects_view(&state);
    assert_eq!(view.heading, "Cooldown ready effect");
    assert!(view.shows_abilities && view.shows_cooldown_note);
    assert!(!view.can_edit && !view.can_copy);
    state.select_effect(TriggerKind::AbilityUse);
    let view = effects_view(&state);
    assert!(view.shows_abilities && !view.shows_cooldown_note);
    assert_eq!(
        view.copy_sources,
        vec![TriggerKind::Death, TriggerKind::AbilityCooldownReady]
    );
}

#[test]
fn slots_are_numbered_and_named() {
    let catalog = BTreeMap::from([(2, Some("Slash".to_owned())), (9, None)]);
    assert_eq!(shown_slots(&BTreeMap::new()), BTreeSet::from([1, 2, 3, 4]));
    assert_eq!(shown_slots(&catalog), BTreeSet::from([1, 2, 3, 4, 9]));
    assert_eq!(slot_label(&catalog, 2), "Slot 2 — Slash");
    assert_eq!(slot_label(&catalog, 9), "Slot 9");
    assert_eq!(slot_label(&catalog, 1), "Slot 1");
}

#[test]
fn notes_on_abilities_follow_the_filter_and_catalog() {
    let mut state = AppState::default();
    let notes = ability_notes(&state, TriggerKind::AbilityUse);
    assert!(!notes.none_selected && notes.names_unknown);
    state.triggers.ability_use.ability_filter = AbilityFilter::Selected(BTreeSet::new());
    state.ability_catalog.insert(1, None);
    let notes = ability_notes(&state, TriggerKind::AbilityUse);
    assert!(notes.none_selected && !notes.names_unknown);
    assert!(!ability_notes(&state, TriggerKind::Death).none_selected);
    assert_eq!(catalog_line(&state), "Current ability catalogue: 1 slot(s).");
}

#[test]
fn versions_are_told() {
    assert_eq!(
        mod_version_line(&ModVersionObservation::Unknown),
        "Mod version: unknown"
    );
    assert_eq!(
        mod_version_line(&ModVersionObservation::Legacy),
        "Mod version: legacy (no version reporting)"
    );
    assert_eq!(
        mod_version_line(&ModVersionObservation::Invalid),
        "Mod version: invalid"
    );
    assert_eq!(
        mod_version_line(&ModVersionObservation::Reported("1.2.3".to_owned())),
        "Mod version: last observed 1.2.3"
    );
    let latest = || "2.0.0".to_owned();
    assert_eq!(
        latest_version_line(&VersionCheckState::Checking),
        "Latest stable: checking…"
    );
    assert_eq!(
        latest_version_line(&VersionCheckState::Current { latest: latest() }),
        "Latest stable: 2.0.0 (current)"
    );
    assert_eq!(
        latest_version_line(&VersionCheckState::UpdateAvailable { latest: latest() }),
        "Latest stable: 2.0.0 (update available)"
    );
    assert_eq!(
        latest_version_line(&VersionCheckState::Unavailable {
            reason: "offline".to_owned()
        }),
        "Latest stable: unavailable (offline)"
    );
}

#[test]
fn the_newest_version_is_known_after_a_finished_check() {
    assert_eq!(VersionCheckState::Checking.newest_known(), None);
    let unavailable = VersionCheckState::Unavailable {
        reason: "offline".to_owned(),
    };
    assert_eq!(unavailable.newest_known(), None);
    let current = VersionCheckState::Current {
        latest: "1.2.3".to_owned(),
    };
    assert_eq!(current.newest_known(), Some("1.2.3"));
    let update = VersionCheckState::UpdateAvailable {
        latest: "1.3.0".to_owned(),
    };
    assert_eq!(update.newest_known(), Some("1.3.0"));
}

#[test]
fn one_notice_is_shown_for_the_companion_and_one_for_the_mod() {
    let mut warnings = WarningSelection::default();
    assert_eq!(update_notices(&warnings, "1.0.0"), vec![]);
    warnings.mod_legacy = true;
    warnings.mod_invalid = true;
    assert_eq!(
        update_notices(&warnings, "1.0.0"),
        vec![UpdateNotice {
            text: "The last observed DeadlockShock mod predates version reporting.".to_owned(),
            link: UpdateLink::Mod
        }]
    );
    warnings.mod_legacy = false;
    assert_eq!(
        update_notices(&warnings, "1.0.0")[0].text,
        "The last observed DeadlockShock mod reported an invalid version; reinstall the latest mod."
    );
    warnings.mod_outdated = Some(("0.9.0".to_owned(), "1.1.0".to_owned()));
    warnings.companion_outdated = Some("1.1.0".to_owned());
    assert_eq!(
        update_notices(&warnings, "1.0.0"),
        vec![
            UpdateNotice {
                text: "Companion 1.0.0 is older than 1.1.0.".to_owned(),
                link: UpdateLink::Companion
            },
            UpdateNotice {
                text: "DeadlockShock mod 0.9.0 is older than 1.1.0.".to_owned(),
                link: UpdateLink::Mod
            }
        ]
    );
}

#[test]
fn the_menu_shows_versions_and_what_is_possible() {
    let mut app = CompanionApp::load(Err("no home.".to_owned()));
    assert_eq!(app.state.provider, ProviderKind::PiShock);
    let menu = app.menu_view("1.0.0", &ModVersionObservation::Unknown);
    assert_eq!(menu.companion_version, "Companion version: 1.0.0");
    assert_eq!(menu.mod_version, "Mod version: unknown");
    assert_eq!(menu.latest_version, "Latest stable: checking…");
    assert!(!menu.can_check && menu.can_reset);
    app.version_check = VersionCheckState::Unavailable {
        reason: "offline".to_owned(),
    };
    app.state.sound_pending = true;
    let menu = app.menu_view("1.0.0", &ModVersionObservation::Unknown);
    assert!(menu.can_check && !menu.can_reset);
}

#[test]
fn the_last_delivery_is_shown() {
    let mut state = AppState::default();
    let line = delivery_line(&state);
    assert_eq!(line.text, "Last shock delivery: none since startup.");
    assert_eq!(line.color, StatusColor::Neutral);

    let status = ShockStatus::Failed {
        request: ShockRequest {
            provider: ProviderKind::PiShock,
            target: Some(ProviderTarget::new(TargetId::PiShock(1), "hub")),
            resolved: Some(ResolvedShock {
                intensity: 5,
                duration_ms: 300,
            }),
            trigger: TriggerIdentity::from_ability(TriggerKind::AbilityUse, ability()),
        },
        error: "refused".to_owned(),
    };
    let told = status.label();
    assert!(told.contains("refused"));
    state.shock_status = Some(status);
    let line = delivery_line(&state);
    assert_eq!(line.text, told);
    assert_eq!(line.color, StatusColor::Failure);
}
