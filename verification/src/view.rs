//! What the window shows: the texts, colours and availabilities that follow
//! from the state.

use std::collections::{BTreeMap, BTreeSet};
use vstd::prelude::*;
use vstd::std_specs::btree::spec_keys_iter;
use vstd::std_specs::iter::IteratorSpec;

use crate::app::AppState;
use crate::binary32::{seconds_text, seconds_with_nanos, tenths_numeral, tenths_of};
use crate::bridge_listener::{since, ListenerPhase, ListenerStatus};
use crate::bridge_record::{duplicate_text, AbilityTrigger, BridgeEvent};
use crate::provider::login_complete;
use crate::settings::{
    trigger_display_label, usual_copy_source, CredentialState, StatusColor, TriggerKind,
};
use crate::shock::{charges_note, name_note, write_charges_note, write_name_note};
use crate::text::{decimal, decimal_text};

verus! {

broadcast use vstd::std_specs::btree::group_btree_axioms;

/// How many nanoseconds a second has.
pub const SECOND: u64 = 1_000_000_000;

/// A length of time in words.
pub open spec fn duration_text(elapsed: u64) -> Seq<char> {
    let secs = (elapsed / SECOND) as nat;
    if secs >= 60 {
        decimal(secs / 60) + "m "@ + decimal(secs % 60) + "s"@
    } else {
        tenths_numeral(tenths_of(seconds_with_nanos(secs, (elapsed % SECOND) as nat))) + "s"@
    }
}

/// Renders a length of time in words: minutes and seconds, or seconds with one
/// digit after the point where it is less than a minute.
pub fn format_duration(elapsed: u64) -> (text: String)
    ensures
        text@ == duration_text(elapsed),
{
    let secs: u64 = elapsed / SECOND;
    if secs >= 60 {
        let minutes = decimal_text((secs / 60) as u128);
        let rest = decimal_text((secs % 60) as u128);
        minutes.concat("m ").concat(rest.as_str()).concat("s")
    } else {
        seconds_text(secs, (elapsed % SECOND) as u32).concat("s")
    }
}

/// What happened to an ability, in words.
pub open spec fn ability_description(name: Seq<char>, ability: AbilityTrigger) -> Seq<char> {
    name + ", slot "@ + decimal(ability.ability_slot as nat) + name_note(ability.ability_name)
        + ", detection "@ + ability.detection@ + charges_note(
        ability.charges_before,
        ability.charges_after,
    )
}

/// Renders what happened to an ability in words.
fn write_ability_description(name: &str, ability: &AbilityTrigger) -> (text: String)
    ensures
        text@ == ability_description(name@, *ability),
{
    let slot = decimal_text(ability.ability_slot as u128);
    let note = write_name_note(&ability.ability_name);
    let charges = write_charges_note(ability.charges_before, ability.charges_after);
    name.to_owned().concat(", slot ").concat(slot.as_str()).concat(note.as_str()).concat(
        ", detection ",
    ).concat(ability.detection.as_str()).concat(charges.as_str())
}

/// An event in words.
pub open spec fn event_description(event: BridgeEvent) -> Seq<char> {
    match event {
        BridgeEvent::HookReady(_) => event.wire_name(),
        BridgeEvent::LocalPlayerDeath(_) => event.wire_name(),
        BridgeEvent::AbilityCatalog(catalog) => "ability_catalog, "@ + decimal(
            catalog.abilities@.len(),
        ) + " slot(s)"@,
        BridgeEvent::AbilityUsed(ability) => ability_description("ability_used"@, ability),
        BridgeEvent::AbilityCooldownReady(ability) => ability_description(
            "ability_cooldown_ready"@,
            ability,
        ),
    }
}

/// Renders an event in words.
pub fn bridge_event_description(event: &BridgeEvent) -> (text: String)
    ensures
        text@ == event_description(*event),
{
    match event {
        BridgeEvent::HookReady(_) => event.event_name().to_owned(),
        BridgeEvent::LocalPlayerDeath(_) => event.event_name().to_owned(),
        BridgeEvent::AbilityCatalog(catalog) => {
            let count = decimal_text(catalog.abilities.len() as u128);
            "ability_catalog, ".to_owned().concat(count.as_str()).concat(" slot(s)")
        },
        BridgeEvent::AbilityUsed(ability) => write_ability_description("ability_used", ability),
        BridgeEvent::AbilityCooldownReady(ability) => write_ability_description(
            "ability_cooldown_ready",
            ability,
        ),
    }
}

/// What is shown of the listener.
pub struct ListenerView {
    pub path: Option<String>,
    pub phase: String,
    pub phase_color: StatusColor,
    pub activity: String,
    pub event: String,
}

/// The phase of the listener in words.
pub open spec fn phase_text(status: ListenerStatus) -> Seq<char> {
    match status.phase {
        ListenerPhase::Stopped => "Listener stopped."@,
        ListenerPhase::WaitingForFile => "Listener waiting for console.log to be created."@,
        ListenerPhase::Listening => "Listener is monitoring console.log."@,
        ListenerPhase::Failed => "Listener failed: "@ + (match status.current_error {
            Some(error) => error@,
            None => "unknown error"@,
        }),
    }
}

/// Shows the listener at the time `now`.
pub fn listener_view(
    status: &ListenerStatus,
    last_event: &Option<BridgeEvent>,
    now: u64,
) -> (view: ListenerView)
    ensures
        match status.configured_path {
            Some(path) => view.path matches Some(told) && told@ == "Configured listener path: "@
                + path@,
            None => view.path is None,
        },
        view.phase@ == phase_text(*status),
        view.phase_color == match status.phase {
            ListenerPhase::Stopped => StatusColor::Neutral,
            ListenerPhase::WaitingForFile => StatusColor::Warning,
            ListenerPhase::Listening => StatusColor::Success,
            ListenerPhase::Failed => StatusColor::Failure,
        },
        view.activity@ == match status.last_activity_at {
            Some(at) => "Last log activity: "@ + duration_text(since(at, now)) + " ago."@,
            None => "Last log activity: none since listener start."@,
        },
        view.event@ == match (*last_event, status.last_event_at) {
            (Some(event), Some(at)) => "Last bridge event: "@ + event_description(event) + " ("@
                + duration_text(since(at, now)) + " ago)."@,
            _ => "Last bridge event: none since listener start."@,
        },
{
    let path = match &status.configured_path {
        Some(path) => Some("Configured listener path: ".to_owned().concat(path.as_str())),
        None => None,
    };
    let (phase, phase_color) = match status.phase {
        ListenerPhase::Stopped => ("Listener stopped.".to_owned(), StatusColor::Neutral),
        ListenerPhase::WaitingForFile => (
            "Listener waiting for console.log to be created.".to_owned(),
            StatusColor::Warning,
        ),
        ListenerPhase::Listening => (
            "Listener is monitoring console.log.".to_owned(),
            StatusColor::Success,
        ),
        ListenerPhase::Failed => (
            match &status.current_error {
                Some(error) => "Listener failed: ".to_owned().concat(error.as_str()),
                None => "Listener failed: ".to_owned().concat("unknown error"),
            },
            StatusColor::Failure,
        ),
    };
    let activity = match status.last_activity_at {
        Some(at) => {
            let elapsed = format_duration(now.saturating_sub(at));
            "Last log activity: ".to_owned().concat(elapsed.as_str()).concat(" ago.")
        },
        None => "Last log activity: none since listener start.".to_owned(),
    };
    let event = match (last_event, status.last_event_at) {
        (Some(event), Some(at)) => {
            let told = bridge_event_description(event);
            let elapsed = format_duration(now.saturating_sub(at));
            "Last bridge event: ".to_owned().concat(told.as_str()).concat(" (").concat(
                elapsed.as_str(),
            ).concat(" ago).")
        },
        _ => "Last bridge event: none since listener start.".to_owned(),
    };
    ListenerView { path, phase, phase_color, activity, event }
}

/// What is shown of a status, and in which colour.
pub struct StatusLine {
    pub text: String,
    pub color: StatusColor,
}

/// What the setup section shows besides what was entered.
pub struct SetupView {
    /// Provider and credentials may be changed.
    pub can_edit: bool,
    /// The connection may be tested.
    pub can_test: bool,
    pub credentials: &'static str,
    pub credentials_color: StatusColor,
    pub connection_error: Option<String>,
    /// A target may be selected.
    pub can_select: bool,
    pub selected_name: String,
    /// A test sound may be sent.
    pub can_sound: bool,
    pub sound: Option<StatusLine>,
}

/// The name of the selected target, or why there is none.
pub open spec fn selection_text(state: AppState) -> Seq<char> {
    match state.selected() {
        Some(target) => target.name@,
        None => if state.devices@.len() == 0 {
            "No device groups found"@
        } else {
            "Select a device group"@
        },
    }
}

/// Shows the setup section.
pub fn setup_view(state: &AppState) -> (view: SetupView)
    ensures
        view.can_edit == !state.busy(),
        view.can_test == (!state.busy() && login_complete(
            state.provider,
            state.username@,
            state.api_key@,
            state.openshock_token@,
        )),
        view.credentials@ == match state.credential_state {
            CredentialState::Valid => "Connection valid"@,
            CredentialState::Invalid => "Connection failed"@,
            CredentialState::Testing => "Testing connection…"@,
            CredentialState::Unknown => "Connection not tested"@,
        },
        view.credentials_color == match state.credential_state {
            CredentialState::Valid => StatusColor::Success,
            CredentialState::Invalid => StatusColor::Failure,
            _ => StatusColor::Neutral,
        },
        view.connection_error == state.connection_error,
        view.can_select == (!state.busy() && state.devices@.len() > 0),
        view.selected_name@ == selection_text(*state),
        view.can_sound == (!state.busy() && state.selected_device is Some && state.client is Some),
        match state.sound_status {
            Some(status) => view.sound matches Some(line) && line.text@ == status.description()
                && line.color == status.shade(),
            None => view.sound is None,
        },
{
    let busy = state.is_busy();
    let selected_name = match state.selected_device() {
        Some(target) => target.name.clone(),
        None => if state.devices.len() == 0 {
            "No device groups found".to_owned()
        } else {
            "Select a device group".to_owned()
        },
    };
    let sound = match &state.sound_status {
        Some(status) => Some(StatusLine { text: status.label().to_owned(), color: status.color() }),
        None => None,
    };
    SetupView {
        can_edit: !busy,
        can_test: state.credentials_present() && !busy,
        credentials: state.credential_state.label(),
        credentials_color: state.credential_state.color(),
        connection_error: duplicate_text(&state.connection_error),
        can_select: state.devices.len() > 0 && !busy,
        selected_name,
        can_sound: state.selected_device.is_some() && state.client.is_some() && !busy,
        sound,
    }
}

/// What is shown of one trigger in the list of effects.
pub struct EffectRow {
    pub kind: TriggerKind,
    pub title: &'static str,
    pub summary: String,
    pub selected: bool,
    pub enabled: bool,
}

/// What the effects section shows besides the settings themselves.
pub struct EffectsView {
    /// Settings may be changed.
    pub can_edit: bool,
    pub rows: Vec<EffectRow>,
    pub heading: String,
    /// The abilities that count are shown.
    pub shows_abilities: bool,
    /// The note on what readiness of a cooldown means is shown.
    pub shows_cooldown_note: bool,
    /// The triggers that settings may be copied from.
    pub copy_sources: Vec<TriggerKind>,
    /// Settings may be copied.
    pub can_copy: bool,
}

/// The triggers in the order in which they are shown.
pub open spec fn all_triggers() -> Seq<TriggerKind> {
    seq![TriggerKind::Death, TriggerKind::AbilityUse, TriggerKind::AbilityCooldownReady]
}

/// The triggers but one, in the order in which they are shown.
pub open spec fn other_triggers(kind: TriggerKind) -> Seq<TriggerKind> {
    all_triggers().filter(|other: TriggerKind| other != kind)
}

/// Whether a row shows a trigger.
pub open spec fn row_shows(state: AppState, kind: TriggerKind, row: EffectRow) -> bool {
    &&& row.kind == kind
    &&& row.title@ == kind.title()
    &&& row.summary@ == state.triggers.of(kind).shock.description()
    &&& row.selected == (state.selected_effect == kind)
    &&& row.enabled == state.triggers.of(kind).enabled
}

/// Shows one trigger in the list of effects.
fn effect_row(state: &AppState, kind: TriggerKind) -> (row: EffectRow)
    ensures
        row_shows(*state, kind, row),
{
    EffectRow {
        kind,
        title: trigger_display_label(kind),
        summary: state.triggers.get(kind).shock.summary(),
        selected: state.selected_effect == kind,
        enabled: state.triggers.get(kind).enabled,
    }
}

/// Shows the effects section.
pub fn effects_view(state: &AppState) -> (view: EffectsView)
    ensures
        view.can_edit == !state.busy(),
        view.rows@.len() == all_triggers().len(),
        forall|i: int|
            0 <= i < view.rows@.len() ==> row_shows(
                *state,
                all_triggers()[i],
                #[trigger] view.rows@[i],
            ),
        view.heading@ == state.selected_effect.title() + " effect"@,
        view.shows_abilities == (state.selected_effect != TriggerKind::Death),
        view.shows_cooldown_note == (state.selected_effect == TriggerKind::AbilityCooldownReady),
        view.copy_sources@ == other_triggers(state.selected_effect),
        view.can_copy == (!state.busy() && state.copy_source != state.selected_effect),
{
    let busy = state.is_busy();
    let destination = state.selected_effect;
    let mut rows: Vec<EffectRow> = Vec::new();
    rows.push(effect_row(state, TriggerKind::Death));
    rows.push(effect_row(state, TriggerKind::AbilityUse));
    rows.push(effect_row(state, TriggerKind::AbilityCooldownReady));
    let mut copy_sources: Vec<TriggerKind> = Vec::new();
    match destination {
        TriggerKind::Death => {
            copy_sources.push(TriggerKind::AbilityUse);
            copy_sources.push(TriggerKind::AbilityCooldownReady);
        },
        TriggerKind::AbilityUse => {
            copy_sources.push(TriggerKind::Death);
            copy_sources.push(TriggerKind::AbilityCooldownReady);
        },
        TriggerKind::AbilityCooldownReady => {
            copy_sources.push(TriggerKind::Death);
            copy_sources.push(TriggerKind::AbilityUse);
        },
    }
    proof {
        reveal_with_fuel(Seq::filter, 4);
        assert(all_triggers().drop_last() =~= seq![TriggerKind::Death, TriggerKind::AbilityUse]);
        assert(all_triggers().drop_last().drop_last() =~= seq![TriggerKind::Death]);
        assert(all_triggers().drop_last().drop_last().drop_last() =~= Seq::empty());
        assert(copy_sources@ =~= other_triggers(destination));
    }
    EffectsView {
        can_edit: !busy,
        rows,
        heading: trigger_display_label(destination).to_owned().concat(" effect"),
        shows_abilities: destination != TriggerKind::Death,
        shows_cooldown_note: destination == TriggerKind::AbilityCooldownReady,
        copy_sources,
        can_copy: !busy && state.copy_source != destination,
    }
}

/// The slots that are always shown.
pub open spec fn usual_slots() -> Set<u32> {
    set![1u32, 2u32, 3u32, 4u32]
}

/// The slots to show: the usual ones and those whose abilities are known.
pub fn shown_slots(catalog: &BTreeMap<u32, Option<String>>) -> (slots: BTreeSet<u32>)
    ensures
        slots@ == usual_slots().union(catalog@.dom()),
{
    let mut slots: BTreeSet<u32> = BTreeSet::new();
    slots.insert(1);
    slots.insert(2);
    slots.insert(3);
    slots.insert(4);
    let ghost keys = spec_keys_iter(catalog).remaining();
    assert(slots@ =~= usual_slots());
    for slot in iter: catalog.keys()
        invariant
            iter.seq() == keys,
            forall|known: u32| #[trigger]
                slots@.contains(known) <==> usual_slots().contains(known) || exists|j: int|
                    0 <= j < iter.index() && *#[trigger] keys[j] == known,
    {
        let ghost before = slots@;
        slots.insert(*slot);
        assert forall|known: u32| #[trigger] slots@.contains(known) implies usual_slots().contains(
            known,
        ) || exists|j: int| 0 <= j < iter.index() + 1 && *#[trigger] keys[j] == known by {
            if known == *slot {
                assert(*keys[iter.index() as int] == known);
            } else {
                assert(before.contains(known));
            }
        }
    }
    proof {
        let known = keys.unref();
        assert(slots@ =~= usual_slots().union(catalog@.dom())) by {
            assert forall|slot: u32| slots@.contains(slot) <==> usual_slots().union(
                catalog@.dom(),
            ).contains(slot) by {
                if catalog@.dom().contains(slot) {
                    assert(known.to_set().contains(slot));
                    let j = choose|j: int| 0 <= j < known.len() && known[j] == slot;
                    assert(*keys[j] == slot);
                }
                if exists|j: int| 0 <= j < keys.len() && *#[trigger] keys[j] == slot {
                    let j = choose|j: int| 0 <= j < keys.len() && *#[trigger] keys[j] == slot;
                    assert(known[j] == slot);
                    assert(known.to_set().contains(slot));
                }
            }
        }
    }
    slots
}

/// A slot in words, with the name of its ability where it is known.
pub open spec fn slot_text(catalog: Map<u32, Option<String>>, slot: u32) -> Seq<char> {
    let number = "Slot "@ + decimal(slot as nat);
    if catalog.contains_key(slot) && catalog[slot] is Some {
        number + " — "@ + catalog[slot]->0@
    } else {
        number
    }
}

/// Renders a slot in words.
pub fn slot_label(catalog: &BTreeMap<u32, Option<String>>, slot: u32) -> (text: String)
    ensures
        text@ == slot_text(catalog@, slot),
{
    let number = decimal_text(slot as u128);
    let label = "Slot ".to_owned().concat(number.as_str());
    match catalog.get(&slot) {
        Some(Some(name)) => label.concat(" — ").concat(name.as_str()),
        _ => label,
    }
}

/// Which notes stand below the abilities of a trigger.
pub struct AbilityNotes {
    /// That no ability counts, so that the trigger causes no shock.
    pub none_selected: bool,
    /// That the names of abilities are not known yet.
    pub names_unknown: bool,
}

/// Decides which notes stand below the abilities of a trigger.
pub fn ability_notes(state: &AppState, kind: TriggerKind) -> (notes: AbilityNotes)
    ensures
        notes.none_selected == (state.triggers.filter_of(kind) matches Some(filter) && forall|
            slot: u32,
        | !#[trigger] filter.admits(slot)),
        notes.names_unknown == state.ability_catalog@.dom().is_empty(),
{
    let none_selected = match state.triggers.ability_filter(kind) {
        Some(filter) => {
            let empty = filter.is_empty();
            proof {
                if !empty && !filter.admits(0) {
                    let slot = filter->Selected_0@.choose();
                    assert(filter.admits(slot));
                }
            }
            empty
        },
        None => false,
    };
    AbilityNotes { none_selected, names_unknown: state.ability_catalog.is_empty() }
}

/// What is shown of the last shock.
pub fn delivery_line(state: &AppState) -> (line: StatusLine)
    ensures
        match state.shock_status {
            Some(status) => line.text@ == status.description() && line.color == status.shade(),
            None => line.text@ == "Last shock delivery: none since startup."@ && line.color
                == StatusColor::Neutral,
        },
{
    match &state.shock_status {
        Some(status) => StatusLine { text: status.label(), color: status.color() },
        None => StatusLine {
            text: "Last shock delivery: none since startup.".to_owned(),
            color: StatusColor::Neutral,
        },
    }
}

/// How many abilities are known, in words.
pub fn catalog_line(state: &AppState) -> (text: String)
    ensures
        text@ == "Current ability catalogue: "@ + decimal(state.ability_catalog@.len())
            + " slot(s)."@,
{
    let count = decimal_text(state.ability_catalog.len() as u128);
    "Current ability catalogue: ".to_owned().concat(count.as_str()).concat(" slot(s).")
}

/// From a minute on a length of time is told in whole minutes and the seconds
/// left over; below, in seconds.
pub proof fn times_are_told_in_minutes_and_seconds(minutes: nat, seconds: nat, rest: nat)
    requires
        seconds < 60,
        rest < 1_000_000_000,
        (60 * minutes + seconds) * 1_000_000_000 + rest <= u64::MAX,
    ensures
        ({
            let elapsed = ((60 * minutes + seconds) * 1_000_000_000 + rest) as u64;
            &&& minutes > 0 ==> duration_text(elapsed) == decimal(minutes) + "m "@ + decimal(seconds)
                + "s"@
            &&& minutes == 0 ==> duration_text(elapsed) == tenths_numeral(
                tenths_of(seconds_with_nanos(seconds, rest)),
            ) + "s"@
        }),
{
    let elapsed = (60 * minutes + seconds) * 1_000_000_000 + rest;
    assert(elapsed / 1_000_000_000 == 60 * minutes + seconds);
    assert(elapsed % 1_000_000_000 == rest);
    assert((60 * minutes + seconds) / 60 == minutes && (60 * minutes + seconds) % 60 == seconds);
}

/// An event in words begins with its name; of an ability it tells the slot,
/// how it was detected, and what is known of name and charges; of a catalog,
/// how many slots it names.
pub proof fn events_read_as_they_are(event: BridgeEvent)
    ensures
        event.wire_name().is_prefix_of(event_description(event)),
        event matches BridgeEvent::AbilityUsed(ability) ==> event_description(event)
            == "ability_used"@ + ", slot "@ + decimal(ability.ability_slot as nat) + name_note(
            ability.ability_name,
        ) + ", detection "@ + ability.detection@ + charges_note(
            ability.charges_before,
            ability.charges_after,
        ),
        event matches BridgeEvent::AbilityCooldownReady(ability) ==> event_description(event)
            == "ability_cooldown_ready"@ + ", slot "@ + decimal(ability.ability_slot as nat)
            + name_note(ability.ability_name) + ", detection "@ + ability.detection@ + charges_note(
            ability.charges_before,
            ability.charges_after,
        ),
        event matches BridgeEvent::AbilityCatalog(catalog) ==> (decimal(catalog.abilities@.len())
            + " slot(s)"@).is_suffix_of(event_description(event)),
{
    let text = event_description(event);
    let name = event.wire_name();
    reveal_strlit("ability_catalog");
    reveal_strlit("ability_catalog, ");
    assert(text.subrange(0, name.len() as int) =~= name);
    if let BridgeEvent::AbilityCatalog(catalog) = event {
        let closing = decimal(catalog.abilities@.len()) + " slot(s)"@;
        assert(text.subrange(text.len() - closing.len(), text.len() as int) =~= closing);
    }
}

/// A listener that failed tells why.
pub proof fn failed_listeners_tell_why(status: ListenerStatus)
    requires
        status.phase is Failed,
        status.current_error is Some,
    ensures
        status.current_error->0@.is_suffix_of(phase_text(status)),
{
    let (text, error) = (phase_text(status), status.current_error->0@);
    assert(text.subrange(text.len() - error.len(), text.len() as int) =~= error);
}

/// The selected target is shown by its name; without one, the text tells
/// whether there is any to select.
pub proof fn selections_are_shown_by_name(state: AppState)
    ensures
        state.selected() matches Some(target) ==> selection_text(state) == target.name@,
        state.selected() is None && state.devices@.len() == 0 ==> selection_text(state)
            == "No device groups found"@,
        state.selected() is None && state.devices@.len() > 0 ==> selection_text(state)
            == "Select a device group"@,
{
}

/// Every trigger is listed once, and settings can be copied from every trigger
/// but the one shown; the first of them is the one proposed.
pub proof fn every_trigger_is_listed_once(kind: TriggerKind, other: TriggerKind)
    ensures
        all_triggers().contains(kind),
        all_triggers().no_duplicates(),
        all_triggers().len() == 3,
        other_triggers(kind).contains(other) <==> other != kind,
        other_triggers(kind)[0] == usual_copy_source(kind),
{
    reveal_with_fuel(Seq::filter, 4);
    assert(all_triggers().drop_last() =~= seq![TriggerKind::Death, TriggerKind::AbilityUse]);
    assert(all_triggers().drop_last().drop_last() =~= seq![TriggerKind::Death]);
    assert(all_triggers().drop_last().drop_last().drop_last() =~= Seq::empty());
    let all = all_triggers();
    assert(all[0] is Death && all[1] is AbilityUse && all[2] is AbilityCooldownReady);
    let differs = |each: TriggerKind| each != kind;
    assert(all.contains(other));
    if other != kind {
        let at = choose|at: int| 0 <= at < all.len() && all[at] == other;
        assert(differs(all[at]));
        assert(all.filter(differs).contains(all[at])) by {
            broadcast use vstd::seq_lib::group_filter_ensures;

        }
    }
    if other_triggers(kind).contains(other) {
        broadcast use vstd::seq_lib::group_filter_ensures;

        let at = choose|at: int|
            0 <= at < all.filter(differs).len() && all.filter(differs)[at] == other;
        assert(differs(all.filter(differs)[at]));
    }
}

/// A row shows the trigger's own switch and settings, by its own name.
pub proof fn rows_show_their_own_trigger(state: AppState, kind: TriggerKind, row: EffectRow)
    requires
        row_shows(state, kind, row),
    ensures
        row.kind == kind,
        row.title@ == kind.title(),
        row.selected <==> state.selected_effect == kind,
        kind is Death ==> row.enabled == state.triggers.death.enabled && row.summary@
            == state.triggers.death.shock.description(),
        kind is AbilityUse ==> row.enabled == state.triggers.ability_use.trigger.enabled
            && row.summary@ == state.triggers.ability_use.trigger.shock.description(),
        kind is AbilityCooldownReady ==> row.enabled
            == state.triggers.ability_cooldown_ready.trigger.enabled && row.summary@
            == state.triggers.ability_cooldown_ready.trigger.shock.description(),
{
}

/// A slot is shown by its number, followed by the name of its ability where
/// that is known; the first four slots are always shown.
pub proof fn slots_are_shown_by_number_and_name(catalog: Map<u32, Option<String>>, slot: u32)
    ensures
        ("Slot "@ + decimal(slot as nat)).is_prefix_of(slot_text(catalog, slot)),
        catalog.contains_key(slot) && catalog[slot] is Some ==> slot_text(catalog, slot) == "Slot "@
            + decimal(slot as nat) + " — "@ + catalog[slot]->0@,
        !(catalog.contains_key(slot) && catalog[slot] is Some) ==> slot_text(catalog, slot)
            == "Slot "@ + decimal(slot as nat),
        usual_slots().contains(slot) <==> 1 <= slot <= 4,
{
    let opening = "Slot "@ + decimal(slot as nat);
    assert(slot_text(catalog, slot).subrange(0, opening.len() as int) =~= opening);
}

/// While work is under way nothing of the setup can be changed, tested or
/// made to sound. Otherwise it can be edited; a complete login can be tested,
/// a listed target selected, and a selected one made to sound while a provider
/// is connected.
pub proof fn setup_offers_what_is_possible(state: AppState, view: SetupView)
    requires
        call_ensures(setup_view, (&state,), view),
    ensures
        state.connection_testing || state.sound_pending || state.shock_in_flight > 0
            ==> !view.can_edit && !view.can_test && !view.can_select && !view.can_sound,
        !state.connection_testing && !state.sound_pending && state.shock_in_flight == 0 ==> {
            &&& view.can_edit
            &&& view.can_test <==> login_complete(
                state.provider,
                state.username@,
                state.api_key@,
                state.openshock_token@,
            )
            &&& view.can_select <==> state.devices@.len() > 0
            &&& view.can_sound <==> state.selected_device is Some && state.client is Some
        },
        view.connection_error == state.connection_error,
        view.credentials_color is Success <==> state.credential_state is Valid,
        view.credentials_color is Failure <==> state.credential_state is Invalid,
{
}

} // verus!
