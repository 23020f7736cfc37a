//! What is saved between sessions: which part of the state it is, what is made
//! of a file that was loaded, and when changes are written.
//!
//! Times are readings of one clock, in nanoseconds; lengths of time are
//! nanoseconds too. Paths are texts.

use std::collections::BTreeSet;
use vstd::arithmetic::power2::pow2;
use vstd::prelude::*;
use vstd::std_specs::btree::spec_btree_keys_iter;
use vstd::std_specs::iter::IteratorSpec;

use crate::app::{reset_applied, AppSection, AppState};
use crate::binary32::{
    named_numbers, pattern_order, single, thousandths_are_in_range, thousandths_keep_order,
    Binary32,
};
use crate::provider::{same_id, ProviderKind, TargetId};
use crate::settings::{
    between, default_shock, default_triggers, same_filter, AbilityFilter, AbilityTriggerSettings,
    ShockField, ShockFixedSettings, ShockIntervalSettings, ShockMode, ShockSettings, TriggerKind,
    TriggerSettings, TriggerSettingsSet, MAX_SHOCK_DURATION, MAX_SHOCK_INTENSITY, MIN_SHOCK_DURATION,
    MIN_SHOCK_INTENSITY,
};
use crate::text::{
    blank, characters, decimal, decimal_text, is_blank, occurs, occurs_at, parse_unsigned,
    unsigned_value, unsigned_value_of_decimal,
};

verus! {

broadcast use vstd::std_specs::btree::group_btree_axioms;

/// The version of the saved state.
pub const SCHEMA_VERSION: u32 = 1;

/// How long changes may follow one another before they are written: half a
/// second.
pub const SAVE_DEBOUNCE: u64 = 500_000_000;

/// What was entered to log in with PiShock.
#[derive(Clone, Debug, Eq, PartialEq)]
pub struct PersistedPiShockCredentials {
    pub username: String,
    pub api_key: String,
}

/// What was entered to log in with OpenShock.
#[derive(Clone, Debug, Eq, PartialEq)]
pub struct PersistedOpenShockCredentials {
    pub token: String,
}

/// What was entered to log in.
#[derive(Clone, Debug, Eq, PartialEq)]
pub struct PersistedCredentials {
    pub pishock: PersistedPiShockCredentials,
    pub openshock: PersistedOpenShockCredentials,
}

/// A target, by its provider and the text of its identifier.
#[derive(Clone, Debug, Eq, PartialEq)]
pub struct PersistedTarget {
    pub provider: ProviderKind,
    pub id: String,
}

/// The triggers, without the shock settings of deaths.
#[derive(Clone, Debug, PartialEq)]
pub struct PersistedTriggers {
    pub death_enabled: bool,
    pub ability_use: AbilityTriggerSettings,
    pub ability_cooldown_ready: AbilityTriggerSettings,
}

/// What is saved.
#[derive(Clone, Debug, PartialEq)]
pub struct PersistedState {
    pub schema_version: u32,
    pub provider: ProviderKind,
    pub credentials: PersistedCredentials,
    pub preferred_target: Option<PersistedTarget>,
    /// The shock settings of deaths.
    pub shock: ShockSettings,
    pub triggers: PersistedTriggers,
    pub log_path: String,
}

/// Whether two ability triggers are set alike.
pub open spec fn same_ability_trigger(a: AbilityTriggerSettings, b: AbilityTriggerSettings) -> bool {
    a.trigger == b.trigger && same_filter(a.ability_filter, b.ability_filter)
}

/// Whether two saved states hold the same.
pub open spec fn same_saved(a: PersistedState, b: PersistedState) -> bool {
    &&& a.schema_version == b.schema_version
    &&& a.provider == b.provider
    &&& a.credentials == b.credentials
    &&& a.preferred_target == b.preferred_target
    &&& a.shock == b.shock
    &&& a.triggers.death_enabled == b.triggers.death_enabled
    &&& same_ability_trigger(a.triggers.ability_use, b.triggers.ability_use)
    &&& same_ability_trigger(
        a.triggers.ability_cooldown_ready,
        b.triggers.ability_cooldown_ready,
    )
    &&& a.log_path == b.log_path
}

/// A copy of an ability trigger.
fn duplicate_ability_trigger(settings: &AbilityTriggerSettings) -> (copy: AbilityTriggerSettings)
    ensures
        same_ability_trigger(copy, *settings),
{
    AbilityTriggerSettings {
        trigger: settings.trigger,
        ability_filter: settings.ability_filter.duplicate(),
    }
}

/// What is saved before anyone changed anything.
pub open spec fn default_saved(state: PersistedState) -> bool {
    &&& state.schema_version == SCHEMA_VERSION
    &&& state.provider == ProviderKind::PiShock
    &&& state.credentials.pishock.username@ == Seq::<char>::empty()
    &&& state.credentials.pishock.api_key@ == Seq::<char>::empty()
    &&& state.credentials.openshock.token@ == Seq::<char>::empty()
    &&& state.preferred_target is None
    &&& state.shock == default_shock()
    &&& state.triggers.death_enabled == default_triggers().death.enabled
    &&& state.triggers.ability_use == default_triggers().ability_use
    &&& state.triggers.ability_cooldown_ready == default_triggers().ability_cooldown_ready
    &&& state.log_path@ == Seq::<char>::empty()
}

impl Default for PersistedState {
    fn default() -> (state: Self)
        ensures
            default_saved(state),
    {
        let set = TriggerSettingsSet::default();
        Self {
            schema_version: SCHEMA_VERSION,
            provider: ProviderKind::PiShock,
            credentials: PersistedCredentials {
                pishock: PersistedPiShockCredentials {
                    username: String::new(),
                    api_key: String::new(),
                },
                openshock: PersistedOpenShockCredentials { token: String::new() },
            },
            preferred_target: None,
            shock: ShockSettings::default(),
            triggers: PersistedTriggers {
                death_enabled: set.death.enabled,
                ability_use: set.ability_use,
                ability_cooldown_ready: set.ability_cooldown_ready,
            },
            log_path: String::new(),
        }
    }
}

impl PersistedTarget {
    /// The target as it is saved.
    pub open spec fn stands_for(self, target: TargetId) -> bool {
        match target {
            TargetId::PiShock(id) => self.provider == ProviderKind::PiShock && self.id@ == decimal(
                id as nat,
            ),
            TargetId::OpenShock(id) => self.provider == ProviderKind::OpenShock && self.id == id,
        }
    }

    /// Writes a target down.
    pub fn from_target_id(target: &TargetId) -> (saved: Self)
        ensures
            saved.stands_for(*target),
    {
        match target {
            TargetId::PiShock(id) => Self {
                provider: ProviderKind::PiShock,
                id: decimal_text(*id as u128),
            },
            TargetId::OpenShock(id) => Self { provider: ProviderKind::OpenShock, id: id.clone() },
        }
    }

    /// The target that was saved, or why there is none.
    pub open spec fn target(self) -> Result<TargetId, Seq<char>> {
        match self.provider {
            ProviderKind::PiShock => match unsigned_value(self.id@) {
                Some(id) => Ok(TargetId::PiShock(id)),
                None => Err("PiShock preferred target ID is not an unsigned integer"@),
            },
            ProviderKind::OpenShock => if blank(self.id@) {
                Err("OpenShock preferred target ID is empty"@)
            } else {
                Ok(TargetId::OpenShock(self.id))
            },
        }
    }

    /// Reads the target that was saved.
    pub fn to_target_id(&self) -> (target: Result<TargetId, String>)
        ensures
            match target {
                Ok(id) => self.target() == Ok::<TargetId, Seq<char>>(id),
                Err(told) => self.target() == Err::<TargetId, Seq<char>>(told@),
            },
    {
        match self.provider {
            ProviderKind::PiShock => match parse_unsigned(self.id.as_str()) {
                Some(id) => Ok(TargetId::PiShock(id)),
                None => Err("PiShock preferred target ID is not an unsigned integer".to_owned()),
            },
            ProviderKind::OpenShock => if is_blank(self.id.as_str()) {
                Err("OpenShock preferred target ID is empty".to_owned())
            } else {
                Ok(TargetId::OpenShock(self.id.clone()))
            },
        }
    }

    /// A copy of the target.
    pub fn duplicate(&self) -> (copy: Self)
        ensures
            copy == *self,
    {
        PersistedTarget { provider: self.provider, id: self.id.clone() }
    }
}

/// A target that is written down is read back the same, unless its identifier
/// is blank.
pub proof fn saved_targets_are_read_back(saved: PersistedTarget, target: TargetId)
    requires
        saved.stands_for(target),
        target.visible(),
    ensures
        saved.target() == Ok::<TargetId, Seq<char>>(target),
{
    if let TargetId::PiShock(id) = target {
        unsigned_value_of_decimal(id);
    }
}

/// A number within a range: itself, the nearer bound, or the fallback where it
/// is no number.
pub open spec fn within(
    value: Binary32,
    minimum: Binary32,
    maximum: Binary32,
    fallback: Binary32,
) -> Binary32 {
    if value.finite() {
        value.limited(minimum, maximum)
    } else {
        fallback
    }
}

/// Brings a number into a range.
pub fn normalize_value(
    value: Binary32,
    minimum: Binary32,
    maximum: Binary32,
    fallback: Binary32,
) -> (normal: Binary32)
    requires
        minimum.finite(),
        maximum.finite(),
        minimum.value() <= maximum.value(),
    ensures
        normal == within(value, minimum, maximum, fallback),
        between(fallback, minimum, maximum) ==> between(normal, minimum, maximum),
{
    if value.is_finite() {
        value.clamp(minimum, maximum)
    } else {
        fallback
    }
}

/// An intensity brought into range.
pub open spec fn normal_intensity(value: Binary32) -> Binary32 {
    within(
        value,
        single(MIN_SHOCK_INTENSITY),
        single(MAX_SHOCK_INTENSITY),
        single(MIN_SHOCK_INTENSITY),
    )
}

/// A duration brought into range.
pub open spec fn normal_duration(value: Binary32) -> Binary32 {
    within(
        value,
        single(MIN_SHOCK_DURATION),
        single(MAX_SHOCK_DURATION),
        single(MIN_SHOCK_DURATION),
    )
}

/// The larger of two numbers.
pub open spec fn larger(a: Binary32, b: Binary32) -> Binary32 {
    if b.above(a) {
        b
    } else {
        a
    }
}

/// Shock settings with every number in range and the bounds in order.
pub open spec fn normal_shock(shock: ShockSettings) -> ShockSettings {
    let low = normal_intensity(shock.interval.minimum_intensity);
    let short = normal_duration(shock.interval.minimum_duration_seconds);
    ShockSettings {
        mode: shock.mode,
        interval: ShockIntervalSettings {
            minimum_intensity: low,
            maximum_intensity: larger(normal_intensity(shock.interval.maximum_intensity), low),
            minimum_duration_seconds: short,
            maximum_duration_seconds: larger(
                normal_duration(shock.interval.maximum_duration_seconds),
                short,
            ),
        },
        fixed: ShockFixedSettings {
            intensity: normal_intensity(shock.fixed.intensity),
            duration_seconds: normal_duration(shock.fixed.duration_seconds),
        },
    }
}

/// Whether every number of shock settings is in range and the bounds are in
/// order.
pub open spec fn shock_in_range(shock: ShockSettings) -> bool {
    let (low, high) = (single(MIN_SHOCK_INTENSITY), single(MAX_SHOCK_INTENSITY));
    let (short, long) = (single(MIN_SHOCK_DURATION), single(MAX_SHOCK_DURATION));
    &&& between(shock.interval.minimum_intensity, low, high)
    &&& between(shock.interval.maximum_intensity, low, high)
    &&& between(shock.interval.minimum_duration_seconds, short, long)
    &&& between(shock.interval.maximum_duration_seconds, short, long)
    &&& between(shock.fixed.intensity, low, high)
    &&& between(shock.fixed.duration_seconds, short, long)
    &&& !shock.interval.minimum_intensity.above(shock.interval.maximum_intensity)
    &&& !shock.interval.minimum_duration_seconds.above(shock.interval.maximum_duration_seconds)
}

/// The ranges of intensities and durations are not empty.
proof fn ranges_are_sound()
    ensures
        single(MIN_SHOCK_INTENSITY).finite(),
        single(MAX_SHOCK_INTENSITY).finite(),
        single(MIN_SHOCK_DURATION).finite(),
        single(MAX_SHOCK_DURATION).finite(),
        single(MIN_SHOCK_INTENSITY).value() <= single(MAX_SHOCK_INTENSITY).value(),
        single(MIN_SHOCK_DURATION).value() <= single(MAX_SHOCK_DURATION).value(),
{
    named_numbers();
    pattern_order(MIN_SHOCK_INTENSITY, MAX_SHOCK_INTENSITY);
    pattern_order(MIN_SHOCK_DURATION, MAX_SHOCK_DURATION);
}

/// Normal shock settings are in range and in order.
pub proof fn normal_shock_is_in_range(shock: ShockSettings)
    ensures
        shock_in_range(normal_shock(shock)),
{
    ranges_are_sound();
}

/// Settings that are in range and in order stay as they are.
pub proof fn shock_in_range_is_normal(shock: ShockSettings)
    requires
        shock_in_range(shock),
    ensures
        normal_shock(shock) == shock,
{
    ranges_are_sound();
}

/// Whether the intensities that a mode uses are whole percentages.
pub open spec fn whole_intensities(shock: ShockSettings) -> bool {
    match shock.mode {
        ShockMode::Fixed => shock.fixed.intensity.whole() is Some,
        ShockMode::Interval => shock.interval.minimum_intensity.whole() is Some
            && shock.interval.maximum_intensity.whole() is Some,
    }
}

/// Settings that are in range and in order, with whole intensities, can always
/// be resolved to a shock.
pub proof fn ranged_settings_resolve(shock: ShockSettings)
    requires
        shock_in_range(shock),
        whole_intensities(shock),
    ensures
        shock.allowed() is Some,
{
    ranges_are_sound();
    named_numbers();
    vstd::arithmetic::power2::lemma_pow2_pos(149);
    let unit = pow2(149) as int;
    let (low, high) = (
        shock.interval.minimum_intensity.value(),
        shock.interval.maximum_intensity.value(),
    );
    assert(low <= high);
    vstd::arithmetic::div_mod::lemma_div_is_ordered(low, high, unit);
    assert(0 <= low / unit && high / unit <= 100) by (nonlinear_arith)
        requires
            unit > 0,
            unit <= low,
            high <= 100 * unit,
    ;
    let (short, long) = (
        shock.interval.minimum_duration_seconds,
        shock.interval.maximum_duration_seconds,
    );
    thousandths_keep_order(short, long);
    thousandths_are_in_range(short);
    thousandths_are_in_range(long);
}

/// Entering a number within its limits keeps settings in range and in order.
pub proof fn edited_settings_stay_in_range(
    shock: ShockSettings,
    field: ShockField,
    value: Binary32,
)
    requires
        shock_in_range(shock),
        between(value, field.limits().0, field.limits().1),
    ensures
        shock_in_range(shock.with(field, value).ordered()),
{
    ranges_are_sound();
}

/// Brings every number of shock settings into range and the bounds in order.
pub fn normalize_shock(shock: ShockSettings) -> (normal: ShockSettings)
    ensures
        normal == normal_shock(shock),
        shock_in_range(normal),
{
    proof {
        ranges_are_sound();
    }
    let (weak, strong) = (single(MIN_SHOCK_INTENSITY), single(MAX_SHOCK_INTENSITY));
    let (short, long) = (single(MIN_SHOCK_DURATION), single(MAX_SHOCK_DURATION));
    let minimum_intensity = normalize_value(
        shock.interval.minimum_intensity,
        weak,
        strong,
        weak,
    );
    let maximum_intensity = normalize_value(
        shock.interval.maximum_intensity,
        weak,
        strong,
        weak,
    ).max(minimum_intensity);
    let minimum_duration_seconds = normalize_value(
        shock.interval.minimum_duration_seconds,
        short,
        long,
        short,
    );
    let maximum_duration_seconds = normalize_value(
        shock.interval.maximum_duration_seconds,
        short,
        long,
        short,
    ).max(minimum_duration_seconds);
    ShockSettings {
        mode: shock.mode,
        interval: ShockIntervalSettings {
            minimum_intensity,
            maximum_intensity,
            minimum_duration_seconds,
            maximum_duration_seconds,
        },
        fixed: ShockFixedSettings {
            intensity: normalize_value(shock.fixed.intensity, weak, strong, weak),
            duration_seconds: normalize_value(shock.fixed.duration_seconds, short, long, short),
        },
    }
}

/// Whether two saved targets are written alike.
pub open spec fn alike_targets(a: Option<PersistedTarget>, b: Option<PersistedTarget>) -> bool {
    match (a, b) {
        (Some(a), Some(b)) => a.provider == b.provider && a.id@ == b.id@,
        (None, None) => true,
        _ => false,
    }
}

/// Whether two shock settings have the same mode and equal numbers.
pub open spec fn alike_shocks(a: ShockSettings, b: ShockSettings) -> bool {
    &&& a.mode == b.mode
    &&& a.interval.minimum_intensity.equals(b.interval.minimum_intensity)
    &&& a.interval.maximum_intensity.equals(b.interval.maximum_intensity)
    &&& a.interval.minimum_duration_seconds.equals(b.interval.minimum_duration_seconds)
    &&& a.interval.maximum_duration_seconds.equals(b.interval.maximum_duration_seconds)
    &&& a.fixed.intensity.equals(b.fixed.intensity)
    &&& a.fixed.duration_seconds.equals(b.fixed.duration_seconds)
}

/// Whether two ability triggers have equal settings.
pub open spec fn alike_ability_triggers(
    a: AbilityTriggerSettings,
    b: AbilityTriggerSettings,
) -> bool {
    &&& a.trigger.enabled == b.trigger.enabled
    &&& alike_shocks(a.trigger.shock, b.trigger.shock)
    &&& same_filter(a.ability_filter, b.ability_filter)
}

/// Whether two saved states are equal: their texts hold the same characters,
/// their numbers are equal, and so on.
#[verifier::opaque]
pub open spec fn alike(a: PersistedState, b: PersistedState) -> bool {
    &&& a.schema_version == b.schema_version
    &&& a.provider == b.provider
    &&& a.credentials.pishock.username@ == b.credentials.pishock.username@
    &&& a.credentials.pishock.api_key@ == b.credentials.pishock.api_key@
    &&& a.credentials.openshock.token@ == b.credentials.openshock.token@
    &&& alike_targets(a.preferred_target, b.preferred_target)
    &&& alike_shocks(a.shock, b.shock)
    &&& a.triggers.death_enabled == b.triggers.death_enabled
    &&& alike_ability_triggers(a.triggers.ability_use, b.triggers.ability_use)
    &&& alike_ability_triggers(
        a.triggers.ability_cooldown_ready,
        b.triggers.ability_cooldown_ready,
    )
    &&& a.log_path@ == b.log_path@
}

/// Whether two sets of slots hold the same.
fn same_slots(a: &BTreeSet<u32>, b: &BTreeSet<u32>) -> (same: bool)
    ensures
        same == (a@ == b@),
{
    if a.len() != b.len() {
        return false;
    }
    let ghost items = spec_btree_keys_iter(a).remaining();
    let mut all = true;
    for slot in iter: a.iter()
        invariant
            iter.seq() == items,
            all == forall|j: int| 0 <= j < iter.index() ==> b@.contains(*#[trigger] items[j]),
    {
        if !b.contains(slot) {
            all = false;
        }
    }
    proof {
        let slots = items.unref();
        let others = spec_btree_keys_iter(b).remaining().unref();
        vstd::seq_lib::seq_to_set_is_finite(slots);
        vstd::seq_lib::seq_to_set_is_finite(others);
        if all {
            assert(a@.subset_of(b@)) by {
                assert forall|slot: u32| a@.contains(slot) implies b@.contains(slot) by {
                    assert(slots.contains(slot));
                    let j = choose|j: int| 0 <= j < slots.len() && slots[j] == slot;
                    assert(*items[j] == slot);
                }
            }
            vstd::set_lib::lemma_subset_equality(a@, b@);
        } else {
            let j = choose|j: int| 0 <= j < items.len() && !b@.contains(*#[trigger] items[j]);
            assert(slots[j] == *items[j]);
            assert(a@.contains(slots[j]));
        }
    }
    all
}

/// Decides whether two filters let the same abilities count.
fn same_filters(a: &AbilityFilter, b: &AbilityFilter) -> (same: bool)
    ensures
        same == same_filter(*a, *b),
{
    match (a, b) {
        (AbilityFilter::All, AbilityFilter::All) => true,
        (AbilityFilter::Selected(a), AbilityFilter::Selected(b)) => same_slots(a, b),
        _ => false,
    }
}

/// Decides whether two shock settings have the same mode and equal numbers.
fn equal_shocks(a: &ShockSettings, b: &ShockSettings) -> (equal: bool)
    ensures
        equal == alike_shocks(*a, *b),
{
    a.mode == b.mode && a.interval.minimum_intensity.is_equal(b.interval.minimum_intensity)
        && a.interval.maximum_intensity.is_equal(b.interval.maximum_intensity)
        && a.interval.minimum_duration_seconds.is_equal(b.interval.minimum_duration_seconds)
        && a.interval.maximum_duration_seconds.is_equal(b.interval.maximum_duration_seconds)
        && a.fixed.intensity.is_equal(b.fixed.intensity) && a.fixed.duration_seconds.is_equal(
        b.fixed.duration_seconds,
    )
}

/// Decides whether two ability triggers have equal settings.
fn equal_ability_triggers(a: &AbilityTriggerSettings, b: &AbilityTriggerSettings) -> (equal: bool)
    ensures
        equal == alike_ability_triggers(*a, *b),
{
    a.trigger.enabled == b.trigger.enabled && equal_shocks(&a.trigger.shock, &b.trigger.shock)
        && same_filters(&a.ability_filter, &b.ability_filter)
}

/// Decides whether two saved targets are written alike.
fn equal_targets(a: &Option<PersistedTarget>, b: &Option<PersistedTarget>) -> (equal: bool)
    ensures
        equal == alike_targets(*a, *b),
{
    match (a, b) {
        (Some(a), Some(b)) => a.provider == b.provider && a.id == b.id,
        (None, None) => true,
        _ => false,
    }
}

/// Why a state that was loaded cannot be used, if it cannot.
pub open spec fn refusal(state: PersistedState) -> Option<Seq<char>> {
    if state.schema_version != SCHEMA_VERSION {
        Some(
            "unsupported schema version "@ + decimal(state.schema_version as nat)
                + "; expected "@ + decimal(SCHEMA_VERSION as nat),
        )
    } else {
        match state.preferred_target {
            Some(target) => match target.target() {
                Ok(_) => None,
                Err(told) => Some(told),
            },
            None => None,
        }
    }
}

/// Whether `saved` is what is kept of a preferred target: itself where it
/// belongs to the provider and has a visible identifier, else nothing.
pub open spec fn preference_kept(
    preferred: Option<TargetId>,
    provider: ProviderKind,
    saved: Option<PersistedTarget>,
) -> bool {
    match preferred {
        Some(id) => if id.provider() == provider && id.visible() {
            saved matches Some(target) && target.stands_for(id)
        } else {
            saved is None
        },
        None => saved is None,
    }
}

/// The target that was preferred when a state was saved.
pub open spec fn saved_preference(state: PersistedState) -> Option<TargetId> {
    match state.preferred_target {
        Some(target) => match target.target() {
            Ok(id) => Some(id),
            Err(_) => None,
        },
        None => None,
    }
}

/// An ability trigger with its shock settings in range.
pub open spec fn normal_ability_trigger(settings: AbilityTriggerSettings) -> AbilityTriggerSettings {
    AbilityTriggerSettings {
        trigger: TriggerSettings {
            enabled: settings.trigger.enabled,
            shock: normal_shock(settings.trigger.shock),
        },
        ability_filter: settings.ability_filter,
    }
}

/// Whether `normal` is a state in its normal form: every number in range, every
/// interval in order, and the preferred target one of the provider's, written
/// the usual way.
pub open spec fn normal_form(state: PersistedState, normal: PersistedState) -> bool {
    &&& preference_kept(saved_preference(state), state.provider, normal.preferred_target)
    &&& normal == (PersistedState {
        shock: normal_shock(state.shock),
        triggers: PersistedTriggers {
            death_enabled: state.triggers.death_enabled,
            ability_use: normal_ability_trigger(state.triggers.ability_use),
            ability_cooldown_ready: normal_ability_trigger(state.triggers.ability_cooldown_ready),
        },
        preferred_target: normal.preferred_target,
        ..state
    })
}

/// Brings the shock settings of an ability trigger into range.
fn normalize_ability_trigger(settings: AbilityTriggerSettings) -> (normal: AbilityTriggerSettings)
    ensures
        normal == normal_ability_trigger(settings),
{
    AbilityTriggerSettings {
        trigger: TriggerSettings {
            enabled: settings.trigger.enabled,
            shock: normalize_shock(settings.trigger.shock),
        },
        ability_filter: settings.ability_filter,
    }
}

/// Whether `saved` is what is saved of a state.
pub open spec fn saves(app: AppState, saved: PersistedState) -> bool {
    &&& saved.schema_version == SCHEMA_VERSION
    &&& saved.provider == app.provider
    &&& saved.credentials.pishock.username == app.username
    &&& saved.credentials.pishock.api_key == app.api_key
    &&& saved.credentials.openshock.token == app.openshock_token
    &&& preference_kept(app.preferred_target, app.provider, saved.preferred_target)
    &&& saved.shock == normal_shock(app.triggers.death.shock)
    &&& saved.triggers.death_enabled == app.triggers.death.enabled
    &&& same_ability_trigger(
        saved.triggers.ability_use,
        normal_ability_trigger(app.triggers.ability_use),
    )
    &&& same_ability_trigger(
        saved.triggers.ability_cooldown_ready,
        normal_ability_trigger(app.triggers.ability_cooldown_ready),
    )
    &&& saved.log_path == app.log_path
}

/// Whether `app` is a state that was restored: what is saved is there, and
/// everything else is as at first.
pub open spec fn restores(saved: PersistedState, app: AppState) -> bool {
    &&& app.provider == saved.provider
    &&& app.username == saved.credentials.pishock.username
    &&& app.api_key == saved.credentials.pishock.api_key
    &&& app.openshock_token == saved.credentials.openshock.token
    &&& app.preferred_target == saved_preference(saved)
    &&& app.triggers.death == (TriggerSettings {
        enabled: saved.triggers.death_enabled,
        shock: saved.shock,
    })
    &&& same_ability_trigger(app.triggers.ability_use, saved.triggers.ability_use)
    &&& same_ability_trigger(
        app.triggers.ability_cooldown_ready,
        saved.triggers.ability_cooldown_ready,
    )
    &&& app.log_path == saved.log_path
    &&& app.disconnected()
    &&& app.nothing_heard()
    &&& app.bridge_listener.fresh()
    &&& app.log_detection_status is None
    &&& app.listener_action_error is None
    &&& app.selected_section == AppSection::Setup
    &&& app.selected_effect == TriggerKind::Death
    &&& app.copy_source == TriggerKind::AbilityUse
    &&& app.copy_feedback is None
}

impl PersistedState {
    /// Whether two saved states are equal.
    pub fn equals(&self, other: &PersistedState) -> (equal: bool)
        ensures
            equal == alike(*self, *other),
            equal ==> {
                &&& self.schema_version == other.schema_version
                &&& self.provider == other.provider
                &&& self.credentials.pishock.username@ == other.credentials.pishock.username@
                &&& self.credentials.pishock.api_key@ == other.credentials.pishock.api_key@
                &&& self.credentials.openshock.token@ == other.credentials.openshock.token@
                &&& self.preferred_target is Some <==> other.preferred_target is Some
                &&& self.triggers.death_enabled == other.triggers.death_enabled
                &&& self.triggers.ability_use.trigger.enabled
                    == other.triggers.ability_use.trigger.enabled
                &&& self.triggers.ability_cooldown_ready.trigger.enabled
                    == other.triggers.ability_cooldown_ready.trigger.enabled
                &&& self.log_path@ == other.log_path@
            },
    {
        proof {
            reveal(alike);
        }
        self.schema_version == other.schema_version && self.provider == other.provider
            && self.credentials.pishock.username == other.credentials.pishock.username
            && self.credentials.pishock.api_key == other.credentials.pishock.api_key
            && self.credentials.openshock.token == other.credentials.openshock.token
            && equal_targets(&self.preferred_target, &other.preferred_target) && equal_shocks(
            &self.shock,
            &other.shock,
        ) && self.triggers.death_enabled == other.triggers.death_enabled && equal_ability_triggers(
            &self.triggers.ability_use,
            &other.triggers.ability_use,
        ) && equal_ability_triggers(
            &self.triggers.ability_cooldown_ready,
            &other.triggers.ability_cooldown_ready,
        ) && self.log_path == other.log_path
    }

    /// A copy of the state.
    pub fn duplicate(&self) -> (copy: Self)
        ensures
            same_saved(copy, *self),
    {
        PersistedState {
            schema_version: self.schema_version,
            provider: self.provider,
            credentials: PersistedCredentials {
                pishock: PersistedPiShockCredentials {
                    username: self.credentials.pishock.username.clone(),
                    api_key: self.credentials.pishock.api_key.clone(),
                },
                openshock: PersistedOpenShockCredentials {
                    token: self.credentials.openshock.token.clone(),
                },
            },
            preferred_target: match &self.preferred_target {
                Some(target) => Some(target.duplicate()),
                None => None,
            },
            shock: self.shock,
            triggers: PersistedTriggers {
                death_enabled: self.triggers.death_enabled,
                ability_use: duplicate_ability_trigger(&self.triggers.ability_use),
                ability_cooldown_ready: duplicate_ability_trigger(
                    &self.triggers.ability_cooldown_ready,
                ),
            },
            log_path: self.log_path.clone(),
        }
    }

    /// The state in its normal form, or why it cannot be used.
    pub fn normalized(self) -> (normal: Result<Self, String>)
        ensures
            match refusal(self) {
                Some(reason) => normal matches Err(told) && told@ == reason,
                None => normal matches Ok(normal) && normal_form(self, normal),
            },
    {
        if self.schema_version != SCHEMA_VERSION {
            let version = decimal_text(self.schema_version as u128);
            let expected = decimal_text(SCHEMA_VERSION as u128);
            return Err(
                "unsupported schema version ".to_owned().concat(version.as_str()).concat(
                    "; expected ",
                ).concat(expected.as_str()),
            );
        }
        let preferred_target = match &self.preferred_target {
            Some(target) => match target.to_target_id() {
                Ok(id) => {
                    let canonical = PersistedTarget::from_target_id(&id);
                    if canonical.provider == self.provider {
                        Some(canonical)
                    } else {
                        None
                    }
                },
                Err(told) => return Err(told),
            },
            None => None,
        };
        let triggers = self.triggers;
        Ok(
            PersistedState {
                schema_version: self.schema_version,
                provider: self.provider,
                credentials: self.credentials,
                preferred_target,
                shock: normalize_shock(self.shock),
                triggers: PersistedTriggers {
                    death_enabled: triggers.death_enabled,
                    ability_use: normalize_ability_trigger(triggers.ability_use),
                    ability_cooldown_ready: normalize_ability_trigger(
                        triggers.ability_cooldown_ready,
                    ),
                },
                log_path: self.log_path,
            },
        )
    }

    /// What is saved of a state. A preferred target without a visible
    /// identifier cannot be saved and is left out.
    pub fn from_app(app: &AppState) -> (saved: Self)
        ensures
            saves(*app, saved),
    {
        let preferred_target = match &app.preferred_target {
            Some(id) => if id.is_visible() {
                Some(PersistedTarget::from_target_id(id))
            } else {
                None
            },
            None => None,
        };
        let state = PersistedState {
            schema_version: SCHEMA_VERSION,
            provider: app.provider,
            credentials: PersistedCredentials {
                pishock: PersistedPiShockCredentials {
                    username: app.username.clone(),
                    api_key: app.api_key.clone(),
                },
                openshock: PersistedOpenShockCredentials { token: app.openshock_token.clone() },
            },
            preferred_target,
            shock: app.triggers.death.shock,
            triggers: PersistedTriggers {
                death_enabled: app.triggers.death.enabled,
                ability_use: duplicate_ability_trigger(&app.triggers.ability_use),
                ability_cooldown_ready: duplicate_ability_trigger(
                    &app.triggers.ability_cooldown_ready,
                ),
            },
            log_path: app.log_path.clone(),
        };
        proof {
            if state.preferred_target is Some {
                saved_targets_are_read_back(state.preferred_target->0, app.preferred_target->0);
            }
        }
        match state.normalized() {
            Ok(normal) => normal,
            Err(_) => PersistedState::default(),
        }
    }

    /// The state that was saved, with everything else as at first.
    pub fn restore_app(&self) -> (app: AppState)
        ensures
            restores(*self, app),
    {
        let mut app = AppState::default();
        app.provider = self.provider;
        app.username = self.credentials.pishock.username.clone();
        app.api_key = self.credentials.pishock.api_key.clone();
        app.openshock_token = self.credentials.openshock.token.clone();
        app.preferred_target = match &self.preferred_target {
            Some(target) => match target.to_target_id() {
                Ok(id) => Some(id),
                Err(_) => None,
            },
            None => None,
        };
        app.triggers = TriggerSettingsSet {
            death: TriggerSettings { enabled: self.triggers.death_enabled, shock: self.shock },
            ability_use: duplicate_ability_trigger(&self.triggers.ability_use),
            ability_cooldown_ready: duplicate_ability_trigger(
                &self.triggers.ability_cooldown_ready,
            ),
        };
        app.log_path = self.log_path.clone();
        app
    }
}

/// Numbers in range are equal to themselves.
proof fn in_range_is_alike(shock: ShockSettings)
    requires
        shock_in_range(shock),
    ensures
        alike_shocks(shock, shock),
{
    ranges_are_sound();
}

/// Whether a state is in its normal form.
pub open spec fn is_normal(state: PersistedState) -> bool {
    exists|raw: PersistedState| refusal(raw) is None && #[trigger] normal_form(raw, state)
}

/// A state in its normal form can be used, and every number in it is in range
/// and every interval in order.
pub proof fn normal_states_are_usable(state: PersistedState)
    requires
        is_normal(state),
    ensures
        refusal(state) is None,
        shock_in_range(state.shock),
        shock_in_range(state.triggers.ability_use.trigger.shock),
        shock_in_range(state.triggers.ability_cooldown_ready.trigger.shock),
        saved_preference(state) matches Some(id) ==> id.provider() == state.provider,
        alike(state, state),
{
    let raw = choose|raw: PersistedState| refusal(raw) is None && #[trigger] normal_form(raw, state);
    normal_shock_is_in_range(raw.shock);
    normal_shock_is_in_range(raw.triggers.ability_use.trigger.shock);
    normal_shock_is_in_range(raw.triggers.ability_cooldown_ready.trigger.shock);
    in_range_is_alike(state.shock);
    in_range_is_alike(state.triggers.ability_use.trigger.shock);
    in_range_is_alike(state.triggers.ability_cooldown_ready.trigger.shock);
    reveal(alike);
    if state.preferred_target is Some {
        saved_targets_are_read_back(state.preferred_target->0, saved_preference(raw)->0);
    }
}

/// A state in its normal form is left as it is.
pub proof fn normalizing_is_idempotent(state: PersistedState, again: PersistedState)
    requires
        is_normal(state),
        normal_form(state, again),
    ensures
        alike(again, state),
{
    reveal(alike);
    let raw = choose|raw: PersistedState| refusal(raw) is None && #[trigger] normal_form(raw, state);
    normal_states_are_usable(state);
    shock_in_range_is_normal(state.shock);
    shock_in_range_is_normal(state.triggers.ability_use.trigger.shock);
    shock_in_range_is_normal(state.triggers.ability_cooldown_ready.trigger.shock);
    in_range_is_alike(state.shock);
    in_range_is_alike(state.triggers.ability_use.trigger.shock);
    in_range_is_alike(state.triggers.ability_cooldown_ready.trigger.shock);
    if state.preferred_target is Some {
        saved_targets_are_read_back(state.preferred_target->0, saved_preference(raw)->0);
    }
}

/// What was saved and restored is saved again the same.
pub proof fn restored_states_are_saved_again(
    saved: PersistedState,
    app: AppState,
    again: PersistedState,
)
    requires
        is_normal(saved),
        restores(saved, app),
        saves(app, again),
    ensures
        alike(again, saved),
{
    reveal(alike);
    let raw = choose|raw: PersistedState| refusal(raw) is None && #[trigger] normal_form(raw, saved);
    normal_states_are_usable(saved);
    shock_in_range_is_normal(saved.shock);
    shock_in_range_is_normal(saved.triggers.ability_use.trigger.shock);
    shock_in_range_is_normal(saved.triggers.ability_cooldown_ready.trigger.shock);
    in_range_is_alike(saved.shock);
    in_range_is_alike(saved.triggers.ability_use.trigger.shock);
    in_range_is_alike(saved.triggers.ability_cooldown_ready.trigger.shock);
    if saved.preferred_target is Some {
        saved_targets_are_read_back(saved.preferred_target->0, saved_preference(raw)->0);
    }
}

/// Whatever state is saved, what is saved of it can be used again: it is equal
/// to itself, every number in it is in range, every interval in order, and the
/// preferred target one of the provider's.
pub proof fn saved_states_are_usable(app: AppState, saved: PersistedState)
    requires
        saves(app, saved),
    ensures
        refusal(saved) is None,
        alike(saved, saved),
        shock_in_range(saved.shock),
        shock_in_range(saved.triggers.ability_use.trigger.shock),
        shock_in_range(saved.triggers.ability_cooldown_ready.trigger.shock),
        saved_preference(saved) matches Some(id) ==> id.provider() == saved.provider,
{
    normal_shock_is_in_range(app.triggers.death.shock);
    normal_shock_is_in_range(app.triggers.ability_use.trigger.shock);
    normal_shock_is_in_range(app.triggers.ability_cooldown_ready.trigger.shock);
    ranges_are_sound();
    reveal(alike);
    if saved.preferred_target is Some {
        saved_targets_are_read_back(saved.preferred_target->0, app.preferred_target->0);
    }
}

/// A setup is remembered: what is saved of a state and loaded and restored in
/// another session is the provider, what was entered to log in, the path of the
/// log, the preferred target where it is one of the provider's and has a visible
/// identifier, and of every trigger whether it is enabled, which abilities count, and the shock settings
/// brought into range. The names of abilities and everything that came with a
/// connection are not.
pub proof fn setups_are_remembered(
    app: AppState,
    saved: PersistedState,
    loaded: PersistedState,
    restored: AppState,
    kind: TriggerKind,
)
    requires
        saves(app, saved),
        normal_form(saved, loaded),
        restores(loaded, restored),
    ensures
        refusal(saved) is None,
        restored.provider == app.provider,
        restored.username == app.username,
        restored.api_key == app.api_key,
        restored.openshock_token == app.openshock_token,
        restored.log_path == app.log_path,
        restored.preferred_target == if app.preferred_target matches Some(id) && id.provider()
            == app.provider && id.visible() {
            app.preferred_target
        } else {
            None
        },
        restored.triggers.of(kind).enabled == app.triggers.of(kind).enabled,
        restored.triggers.of(kind).shock == normal_shock(app.triggers.of(kind).shock),
        shock_in_range(app.triggers.of(kind).shock) ==> restored.triggers.of(kind).shock
            == app.triggers.of(kind).shock,
        match (restored.triggers.filter_of(kind), app.triggers.filter_of(kind)) {
            (Some(kept), Some(filter)) => same_filter(kept, filter),
            (None, None) => true,
            _ => false,
        },
        restored.ability_catalog@ == Map::<u32, Option<String>>::empty(),
        restored.disconnected(),
{
    saved_states_are_usable(app, saved);
    let shock = app.triggers.of(kind).shock;
    normal_shock_is_in_range(shock);
    shock_in_range_is_normal(normal_shock(shock));
    if shock_in_range(shock) {
        shock_in_range_is_normal(shock);
    }
    if saved.preferred_target is Some {
        let id = app.preferred_target->0;
        saved_targets_are_read_back(saved.preferred_target->0, id);
        saved_targets_are_read_back(loaded.preferred_target->0, id);
    }
}

/// After a reset the defaults are saved.
pub proof fn reset_states_are_saved_as_defaults(
    state: AppState,
    reset: AppState,
    saved: PersistedState,
)
    requires
        reset_applied(state, reset),
        saves(reset, saved),
    ensures
        default_saved(saved),
{
    ranges_are_sound();
    assert(shock_in_range(default_shock()));
    shock_in_range_is_normal(default_shock());
}

/// The defaults are equal to themselves.
proof fn defaults_are_alike(state: PersistedState)
    requires
        default_saved(state),
    ensures
        alike(state, state),
{
    ranges_are_sound();
    reveal(alike);
}

/// Why a state is written.
#[derive(Clone, Copy, Debug, Eq, PartialEq, Structural)]
pub enum SaveReason {
    Autosave,
    Reset,
}

/// A state that has to be written, and why.
#[derive(Debug)]
pub struct SaveJob {
    pub state: PersistedState,
    pub reason: SaveReason,
}

/// When changes are written. `saved` is what the file holds, `observed` what
/// was last seen, `pending` what has yet to be written, and `deadline` when.
#[derive(Debug)]
pub struct Persistence {
    pub path: Option<String>,
    pub saved: PersistedState,
    pub observed: PersistedState,
    pub pending: Option<PersistedState>,
    pub pending_reason: SaveReason,
    pub deadline: Option<u64>,
    pub debounce: u64,
    pub load_warning: Option<String>,
    pub save_error: Option<String>,
}

/// What follows a look at the current state.
pub struct Observation {
    /// What has to be written now, if anything.
    pub job: Option<SaveJob>,
    /// After how long another look is due, if one is and nothing is written.
    pub delay: Option<u64>,
}

/// How long it is until a time, none where it has passed.
pub open spec fn until(deadline: Option<u64>, now: u64) -> Option<u64> {
    match deadline {
        Some(at) => Some(
            if at >= now {
                (at - now) as u64
            } else {
                0
            },
        ),
        None => None,
    }
}

/// What an attempt to write came to: without a path there is none.
pub open spec fn write_result(path: Option<String>, result: Result<(), String>) -> Option<
    Seq<char>,
> {
    match (path, result) {
        (None, _) => Some("No per-user saved-state path is available."@),
        (Some(_), Err(error)) => Some(error@),
        (Some(_), Ok(_)) => None,
    }
}

/// What a user is told of a failed attempt to write.
pub open spec fn save_complaint(reason: SaveReason, error: Seq<char>) -> Seq<char> {
    match reason {
        SaveReason::Autosave => "Could not save settings: "@ + error
            + " Changes remain unsaved and will be retried."@,
        SaveReason::Reset =>
            "Current settings were reset in memory, but saved state could not be replaced: "@
            + error + " The previous disk state may return after restart."@,
    }
}

impl Persistence {
    /// Something is to be written wherever there is a time to write it.
    pub open spec fn wf(self) -> bool {
        self.deadline is Some ==> self.pending is Some
    }

    /// A write can be put off without running over the clock.
    pub open spec fn can_defer(self, now: u64) -> bool {
        now + self.debounce <= u64::MAX
    }

    /// Nothing is to be written.
    pub open spec fn clean(self) -> bool {
        self.pending is None && self.deadline is None
    }

    /// Nothing has yet to be written, and what was last seen is what the file
    /// holds.
    pub open spec fn begins(self) -> bool {
        &&& self.clean()
        &&& self.debounce == SAVE_DEBOUNCE
        &&& alike(self.observed, self.saved)
    }

    /// Begins with a file that was loaded.
    pub fn open(path: String, outcome: LoadOutcome) -> (opened: (Self, PersistedState))
        ensures
            ({
                let (persistence, state) = opened;
                &&& persistence.wf()
                &&& persistence.clean()
                &&& persistence.path == Some(path)
                &&& same_saved(persistence.saved, outcome.state)
                &&& same_saved(persistence.observed, outcome.state)
                &&& persistence.pending_reason == SaveReason::Autosave
                &&& persistence.debounce == SAVE_DEBOUNCE
                &&& persistence.load_warning == outcome.warning
                &&& persistence.save_error is None
                &&& state == outcome.state
                &&& alike(outcome.state, outcome.state) ==> persistence.begins()
            }),
    {
        let state = outcome.state;
        proof {
            reveal(alike);
        }
        (
            Self {
                path: Some(path),
                saved: state.duplicate(),
                observed: state.duplicate(),
                pending: None,
                pending_reason: SaveReason::Autosave,
                deadline: None,
                debounce: SAVE_DEBOUNCE,
                load_warning: outcome.warning,
                save_error: None,
            },
            state,
        )
    }

    /// Begins without a place for a file.
    pub fn unavailable(message: &str) -> (opened: (Self, PersistedState))
        ensures
            ({
                let (persistence, state) = opened;
                &&& persistence.wf()
                &&& persistence.clean()
                &&& persistence.path is None
                &&& default_saved(state)
                &&& same_saved(persistence.saved, state)
                &&& same_saved(persistence.observed, state)
                &&& persistence.pending_reason == SaveReason::Autosave
                &&& persistence.debounce == SAVE_DEBOUNCE
                &&& persistence.load_warning matches Some(told) && told@
                    == "Saved state is unavailable: "@ + message@
                    + " Settings will remain in memory for this session."@
                &&& persistence.save_error is None
                &&& persistence.begins()
            }),
    {
        let state = PersistedState::default();
        proof {
            defaults_are_alike(state);
            reveal(alike);
        }
        (
            Self {
                path: None,
                saved: state.duplicate(),
                observed: state.duplicate(),
                pending: None,
                pending_reason: SaveReason::Autosave,
                deadline: None,
                debounce: SAVE_DEBOUNCE,
                load_warning: Some(
                    "Saved state is unavailable: ".to_owned().concat(message).concat(
                        " Settings will remain in memory for this session.",
                    ),
                ),
                save_error: None,
            },
            state,
        )
    }

    /// What a user is told of the file that was loaded.
    pub fn load_warning(&self) -> (warning: Option<&str>)
        ensures
            match warning {
                Some(told) => self.load_warning matches Some(text) && text@ == told@,
                None => self.load_warning is None,
            },
    {
        match &self.load_warning {
            Some(told) => Some(told.as_str()),
            None => None,
        }
    }

    /// What a user is told of the last attempt to write.
    pub fn save_error(&self) -> (error: Option<&str>)
        ensures
            match error {
                Some(told) => self.save_error matches Some(text) && text@ == told@,
                None => self.save_error is None,
            },
    {
        match &self.save_error {
            Some(told) => Some(told.as_str()),
            None => None,
        }
    }

    /// Whether `next` is this after a look at the current state, before
    /// anything is written. A change is put off; a change that was taken back
    /// needs no writing; a write that failed is tried again later.
    pub open spec fn after_look(self, state: PersistedState, now: u64, next: Persistence) -> bool {
        let later = Some((now + self.debounce) as u64);
        if !alike(state, self.observed) {
            &&& same_saved(next.observed, state)
            &&& if alike(state, self.saved) {
                next == (Persistence {
                    observed: next.observed,
                    pending: None,
                    deadline: None,
                    save_error: None,
                    ..self
                })
            } else {
                &&& next.pending == Some(state)
                &&& next == (Persistence {
                    observed: next.observed,
                    pending: next.pending,
                    pending_reason: SaveReason::Autosave,
                    deadline: later,
                    ..self
                })
            }
        } else if self.pending is Some && self.deadline is None {
            next == (Persistence { deadline: later, ..self })
        } else {
            next == self
        }
    }

    /// The time to write has come.
    pub open spec fn due(self, now: u64) -> bool {
        self.deadline matches Some(at) && at <= now
    }

    /// Whether `job` is to write what has yet to be written.
    pub open spec fn hands_out(self, job: SaveJob) -> bool {
        &&& self.pending matches Some(pending) && same_saved(job.state, pending)
        &&& job.reason == self.pending_reason
    }

    /// Takes a look at the current state, and says what has to be written now,
    /// if its time has come.
    pub fn observe(&mut self, state: PersistedState, now: u64) -> (observation: Observation)
        requires
            old(self).wf(),
            old(self).can_defer(now),
        ensures
            final(self).wf(),
            old(self).after_look(state, now, *final(self)),
            match observation.job {
                Some(job) => {
                    &&& final(self).due(now)
                    &&& final(self).hands_out(job)
                    &&& observation.delay is None
                },
                None => {
                    &&& !final(self).due(now)
                    &&& observation.delay == until(final(self).deadline, now)
                },
            },
    {
        let later: u64 = now + self.debounce;
        if !state.equals(&self.observed) {
            self.observed = state.duplicate();
            if state.equals(&self.saved) {
                self.pending = None;
                self.deadline = None;
                self.save_error = None;
            } else {
                self.pending = Some(state);
                self.pending_reason = SaveReason::Autosave;
                self.deadline = Some(later);
            }
        } else if self.pending.is_some() && self.deadline.is_none() {
            self.deadline = Some(later);
        }
        match self.deadline {
            Some(at) => {
                if at <= now {
                    match &self.pending {
                        Some(pending) => {
                            let job = SaveJob {
                                state: pending.duplicate(),
                                reason: self.pending_reason,
                            };
                            return Observation { job: Some(job), delay: None };
                        },
                        None => {},
                    }
                }
                Observation { job: None, delay: Some(at.saturating_sub(now)) }
            },
            None => Observation { job: None, delay: None },
        }
    }

    /// Whether `next` is this after an attempt to write.
    pub open spec fn after_write(
        self,
        job: SaveJob,
        result: Result<(), String>,
        next: Persistence,
    ) -> bool {
        match write_result(self.path, result) {
            None => next == (Persistence {
                saved: job.state,
                pending: None,
                deadline: None,
                save_error: None,
                ..self
            }),
            Some(error) => {
                &&& next.save_error matches Some(told) && told@ == save_complaint(job.reason, error)
                &&& next == (Persistence {
                    pending: Some(job.state),
                    pending_reason: job.reason,
                    deadline: None,
                    save_error: next.save_error,
                    ..self
                })
            },
        }
    }

    /// Settles an attempt to write, given what it came to. Where it failed, the
    /// state is still to be written.
    pub fn commit(&mut self, job: SaveJob, result: Result<(), String>) -> (outcome: Result<(), ()>)
        ensures
            final(self).wf(),
            old(self).after_write(job, result, *final(self)),
            outcome is Ok <==> write_result(old(self).path, result) is None,
    {
        let error = match (&self.path, result) {
            (None, _) => Some("No per-user saved-state path is available.".to_owned()),
            (Some(_), Err(error)) => Some(error),
            (Some(_), Ok(_)) => None,
        };
        match error {
            None => {
                self.saved = job.state;
                self.pending = None;
                self.deadline = None;
                self.save_error = None;
                Ok(())
            },
            Some(error) => {
                self.pending = Some(job.state);
                self.pending_reason = job.reason;
                self.deadline = None;
                self.save_error = Some(
                    match job.reason {
                        SaveReason::Autosave => "Could not save settings: ".to_owned().concat(
                            error.as_str(),
                        ).concat(" Changes remain unsaved and will be retried."),
                        SaveReason::Reset =>
                            "Current settings were reset in memory, but saved state could not be replaced: ".to_owned().concat(
                            error.as_str(),
                        ).concat(" The previous disk state may return after restart."),
                    },
                );
                Err(())
            },
        }
    }

    /// Whether `next` is this after an attempt to write that followed a look at
    /// the current state: a failed one is put off.
    pub open spec fn after_settling(
        self,
        job: SaveJob,
        result: Result<(), String>,
        now: u64,
        next: Persistence,
    ) -> bool {
        match write_result(self.path, result) {
            None => self.after_write(job, result, next),
            Some(_) => {
                &&& next.deadline == Some((now + self.debounce) as u64)
                &&& self.after_write(job, result, (Persistence { deadline: None, ..next }))
            },
        }
    }

    /// Settles an attempt to write that followed a look at the current state,
    /// and says after how long another look is due, if one is. Where it failed,
    /// it is put off.
    pub fn settle(&mut self, job: SaveJob, result: Result<(), String>, now: u64) -> (delay: Option<
        u64,
    >)
        requires
            old(self).can_defer(now),
        ensures
            final(self).wf(),
            delay == until(final(self).deadline, now),
            old(self).after_settling(job, result, now, *final(self)),
    {
        if self.commit(job, result).is_err() {
            self.deadline = Some(now + self.debounce);
        }
        match self.deadline {
            Some(at) => Some(at.saturating_sub(now)),
            None => None,
        }
    }

    /// Has a state written at once because it was reset.
    pub fn save_reset_now(&mut self, state: PersistedState) -> (job: SaveJob)
        ensures
            job.state == state,
            job.reason == SaveReason::Reset,
            same_saved(final(self).observed, state),
            *final(self) == (Persistence { observed: final(self).observed, ..*old(self) }),
    {
        self.observed = state.duplicate();
        SaveJob { state, reason: SaveReason::Reset }
    }

    /// Has a state written at once because there will be no later, unless the
    /// file holds it already.
    pub fn flush(&mut self, state: PersistedState) -> (job: Option<SaveJob>)
        ensures
            if alike(state, old(self).saved) && old(self).pending is None {
                job is None && *final(self) == *old(self)
            } else {
                &&& job matches Some(job)
                &&& job.state == state
                &&& job.reason == if old(self).pending is Some {
                    old(self).pending_reason
                } else {
                    SaveReason::Autosave
                }
                &&& same_saved(final(self).observed, state)
                &&& *final(self) == (Persistence { observed: final(self).observed, ..*old(self) })
            },
    {
        if state.equals(&self.saved) && self.pending.is_none() {
            return None;
        }
        self.observed = state.duplicate();
        let reason = if self.pending.is_some() {
            self.pending_reason
        } else {
            SaveReason::Autosave
        };
        Some(SaveJob { state, reason })
    }
}

/// A file that was loaded.
pub struct LoadOutcome {
    pub state: PersistedState,
    pub warning: Option<String>,
}

/// What an attempt to read the file came to.
pub enum ReadOutcome {
    /// There is no file.
    Missing,
    /// It could not be read, for the reason given.
    Unreadable(String),
    /// It holds no saved state, for the reason given.
    Malformed(String),
    /// It holds a saved state.
    Decoded(PersistedState),
}

/// What follows an attempt to read the file.
pub enum LoadStep {
    /// This is the state to begin with.
    Done(LoadOutcome),
    /// The file is invalid, for the reason given, and has to be put aside.
    Preserve(String),
}

/// Why the file is invalid, if it is.
pub open spec fn invalidity(read: ReadOutcome) -> Option<Seq<char>> {
    match read {
        ReadOutcome::Malformed(error) => Some(error@),
        ReadOutcome::Decoded(state) => refusal(state),
        _ => None,
    }
}

/// Decides what follows an attempt to read the file: a missing or unreadable
/// one gives the defaults, a valid one its state, an invalid one is put aside.
pub fn load_step(path: &str, read: ReadOutcome) -> (step: LoadStep)
    ensures
        match invalidity(read) {
            Some(reason) => step matches LoadStep::Preserve(told) && told@ == reason,
            None => {
                &&& step matches LoadStep::Done(outcome)
                &&& match read {
                    ReadOutcome::Missing => default_saved(outcome.state) && outcome.warning is None,
                    ReadOutcome::Unreadable(error) => {
                        &&& default_saved(outcome.state)
                        &&& outcome.warning matches Some(told) && told@
                            == "Could not read saved state at "@ + path@ + ": "@ + error@
                            + ". Defaults were restored."@
                    },
                    ReadOutcome::Decoded(state) => {
                        normal_form(state, outcome.state) && outcome.warning is None
                    },
                    ReadOutcome::Malformed(_) => false,
                }
            },
        },
        step matches LoadStep::Done(outcome) ==> alike(outcome.state, outcome.state),
{
    match read {
        ReadOutcome::Missing => {
            let state = PersistedState::default();
            proof {
                defaults_are_alike(state);
            }
            LoadStep::Done(LoadOutcome { state, warning: None })
        },
        ReadOutcome::Unreadable(error) => {
            let state = PersistedState::default();
            proof {
                defaults_are_alike(state);
            }
            let warning = "Could not read saved state at ".to_owned().concat(path).concat(
                ": ",
            ).concat(error.as_str()).concat(". Defaults were restored.");
            LoadStep::Done(LoadOutcome { state, warning: Some(warning) })
        },
        ReadOutcome::Malformed(error) => LoadStep::Preserve(error),
        ReadOutcome::Decoded(state) => match state.normalized() {
            Ok(normal) => {
                proof {
                    assert(refusal(state) is None && normal_form(state, normal));
                    normal_states_are_usable(normal);
                }
                LoadStep::Done(LoadOutcome { state: normal, warning: None })
            },
            Err(told) => LoadStep::Preserve(told),
        },
    }
}

/// The state to begin with after an invalid file was put aside, or could not
/// be: the defaults, and a word on where the file is now.
pub fn load_preserved(path: &str, error: &str, backup: Result<String, String>) -> (outcome:
    LoadOutcome)
    ensures
        default_saved(outcome.state),
        alike(outcome.state, outcome.state),
        outcome.warning matches Some(told) && told@ == "Saved state was invalid ("@ + error@
            + "). "@ + (match backup {
            Ok(place) => "The invalid file was preserved at "@ + place@ + "."@,
            Err(failure) => "The invalid file could not be moved to a backup ("@ + failure@
                + "); it remains at "@ + path@ + "."@,
        }) + " Defaults were restored."@,
{
    let preservation = match backup {
        Ok(place) => "The invalid file was preserved at ".to_owned().concat(
            place.as_str(),
        ).concat("."),
        Err(failure) => "The invalid file could not be moved to a backup (".to_owned().concat(
            failure.as_str(),
        ).concat("); it remains at ").concat(path).concat("."),
    };
    let state = PersistedState::default();
    proof {
        defaults_are_alike(state);
    }
    LoadOutcome {
        state,
        warning: Some(
            "Saved state was invalid (".to_owned().concat(error).concat("). ").concat(
                preservation.as_str(),
            ).concat(" Defaults were restored."),
        ),
    }
}

/// A numeral filled up with zeros from the left to nine digits.
pub open spec fn nine_digits(value: nat) -> Seq<char> {
    let digits = decimal(value);
    Seq::new((9 - digits.len()) as nat, |i: int| '0') + digits
}

/// A number below a billion has at most nine digits.
proof fn digits_fit(value: nat)
    requires
        value < 1_000_000_000,
    ensures
        decimal(value).len() <= 9,
{
    reveal_with_fuel(decimal, 9);
}

/// Writes a number below a billion with nine digits.
fn write_nine_digits(value: u32) -> (text: String)
    requires
        value < 1_000_000_000,
    ensures
        text@ == nine_digits(value as nat),
{
    let digits = decimal_text(value as u128);
    proof {
        digits_fit(value as nat);
    }
    let chars: Vec<char> = characters(digits.as_str());
    let mut text = String::new();
    let mut width: usize = chars.len();
    while width < 9
        invariant
            chars@.len() <= width <= 9,
            text@ == Seq::new((width - chars@.len()) as nat, |i: int| '0'),
        decreases 9 - width,
    {
        text.push('0');
        width += 1;
        assert(text@ =~= Seq::new((width - chars@.len()) as nat, |i: int| '0'));
    }
    text.concat(digits.as_str())
}

/// The name under which an invalid file is put aside.
pub open spec fn backup_file_name(
    stem: Seq<char>,
    extension: Option<Seq<char>>,
    secs: u64,
    nanos: u32,
    collision: u32,
) -> Seq<char> {
    let suffix = if collision == 0 {
        Seq::empty()
    } else {
        "-"@ + decimal(collision as nat)
    };
    let ending = match extension {
        Some(extension) => "."@ + extension,
        None => Seq::empty(),
    };
    stem + ".invalid-"@ + decimal(secs as nat) + "-"@ + nine_digits(nanos as nat) + suffix + ending
}

/// Writes the name under which an invalid file is put aside: the file's own
/// name with the time, and a number where that name is taken.
pub fn backup_name(
    stem: &str,
    extension: Option<&str>,
    secs: u64,
    nanos: u32,
    collision: u32,
) -> (name: String)
    requires
        nanos < 1_000_000_000,
    ensures
        name@ == backup_file_name(
            stem@,
            match extension {
                Some(extension) => Some(extension@),
                None => None,
            },
            secs,
            nanos,
            collision,
        ),
{
    let time = decimal_text(secs as u128);
    let fraction = write_nine_digits(nanos);
    let suffix = if collision == 0 {
        String::new()
    } else {
        let number = decimal_text(collision as u128);
        "-".to_owned().concat(number.as_str())
    };
    let ending = match extension {
        Some(extension) => ".".to_owned().concat(extension),
        None => String::new(),
    };
    stem.to_owned().concat(".invalid-").concat(time.as_str()).concat("-").concat(
        fraction.as_str(),
    ).concat(suffix.as_str()).concat(ending.as_str())
}

/// Files that are put aside at one time get different names.
pub proof fn backup_names_differ(
    stem: Seq<char>,
    extension: Option<Seq<char>>,
    secs: u64,
    nanos: u32,
    first: u32,
    second: u32,
)
    requires
        first != second,
    ensures
        backup_file_name(stem, extension, secs, nanos, first) != backup_file_name(
            stem,
            extension,
            secs,
            nanos,
            second,
        ),
{
    let ending = match extension {
        Some(extension) => "."@ + extension,
        None => Seq::empty(),
    };
    let head = stem + ".invalid-"@ + decimal(secs as nat) + "-"@ + nine_digits(nanos as nat);
    let one = if first == 0 {
        Seq::empty()
    } else {
        "-"@ + decimal(first as nat)
    };
    let other = if second == 0 {
        Seq::empty()
    } else {
        "-"@ + decimal(second as nat)
    };
    reveal_strlit("-");
    unsigned_value_of_decimal(first as u64);
    unsigned_value_of_decimal(second as u64);
    let a = backup_file_name(stem, extension, secs, nanos, first);
    let b = backup_file_name(stem, extension, secs, nanos, second);
    assert(a =~= head + one + ending);
    assert(b =~= head + other + ending);
    if a == b {
        assert(one.len() == other.len());
        assert(one =~= a.subrange(head.len() as int, (head.len() + one.len()) as int));
        assert(other =~= b.subrange(head.len() as int, (head.len() + other.len()) as int));
        if first != 0 && second != 0 {
            assert(one.skip(1) =~= decimal(first as nat));
            assert(other.skip(1) =~= decimal(second as nat));
        }
        assert(false);
    }
}

/// A step of writing the file that failed.
#[derive(Clone, Copy, Debug, Eq, PartialEq, Structural)]
pub enum WriteStep {
    Directory,
    DirectoryPermissions,
    Temporary,
    FilePermissions,
    Serialization,
    LastByte,
    Synchronization,
    Replacement,
}

/// What a failed step of writing the file is told as. `place` is the directory
/// of the file, or the file itself where it could not be replaced.
pub fn write_failure(step: WriteStep, place: &str, error: &str) -> (text: String)
    ensures
        text@ == match step {
            WriteStep::Directory => "Could not create the saved-state directory "@ + place@ + ": "@
                + error@,
            WriteStep::DirectoryPermissions =>
                "Could not restrict saved-state directory permissions for "@ + place@ + ": "@
                + error@,
            WriteStep::Temporary => "Could not create a temporary saved-state file in "@ + place@
                + ": "@ + error@,
            WriteStep::FilePermissions => "Could not restrict saved-state file permissions: "@
                + error@,
            WriteStep::Serialization => "Could not serialize saved state: "@ + error@,
            WriteStep::LastByte => "Could not finish writing saved state: "@ + error@,
            WriteStep::Synchronization => "Could not synchronize saved state: "@ + error@,
            WriteStep::Replacement => "Could not atomically replace "@ + place@ + ": "@ + error@,
        },
{
    match step {
        WriteStep::Directory => "Could not create the saved-state directory ".to_owned().concat(
            place,
        ).concat(": ").concat(error),
        WriteStep::DirectoryPermissions =>
            "Could not restrict saved-state directory permissions for ".to_owned().concat(
            place,
        ).concat(": ").concat(error),
        WriteStep::Temporary => "Could not create a temporary saved-state file in ".to_owned().concat(
            place,
        ).concat(": ").concat(error),
        WriteStep::FilePermissions => {
            "Could not restrict saved-state file permissions: ".to_owned().concat(error)
        },
        WriteStep::Serialization => "Could not serialize saved state: ".to_owned().concat(error),
        WriteStep::LastByte => "Could not finish writing saved state: ".to_owned().concat(error),
        WriteStep::Synchronization => "Could not synchronize saved state: ".to_owned().concat(error),
        WriteStep::Replacement => "Could not atomically replace ".to_owned().concat(place).concat(
            ": ",
        ).concat(error),
    }
}

impl Persistence {
    /// What has yet to be written is what was last seen; where nothing has, the
    /// file holds what was last seen.
    pub open spec fn tracks(self) -> bool {
        match self.pending {
            Some(pending) => alike(pending, self.observed),
            None => alike(self.observed, self.saved),
        }
    }
}

/// A look at the current state never loses a change: either the file holds the
/// state, or the state is what has yet to be written.
pub proof fn changes_are_never_lost(
    persistence: Persistence,
    state: PersistedState,
    now: u64,
    next: Persistence,
)
    requires
        persistence.tracks(),
        alike(state, state),
        persistence.after_look(state, now, next),
    ensures
        next.tracks(),
        next.pending is None ==> alike(state, next.saved),
        next.pending matches Some(pending) ==> alike(state, pending),
{
    if !alike(state, persistence.observed) {
        same_in_place(next.observed, state, next.saved);
        same_in_place(next.observed, state, state);
        alike_both_ways(next.observed, state);
    } else if persistence.pending is Some {
        alike_both_ways(persistence.pending->0, persistence.observed);
        alike_in_a_row(state, persistence.observed, persistence.pending->0);
    } else {
        alike_in_a_row(state, persistence.observed, persistence.saved);
    }
}

/// Equality of saved states goes both ways.
proof fn alike_both_ways(a: PersistedState, b: PersistedState)
    requires
        alike(a, b),
    ensures
        alike(b, a),
{
    reveal(alike);
}

/// Equality of saved states carries over.
proof fn alike_in_a_row(a: PersistedState, b: PersistedState, c: PersistedState)
    requires
        alike(a, b),
        alike(b, c),
    ensures
        alike(a, c),
{
    reveal(alike);
}

/// A copy is equal to what its original is equal to.
proof fn same_in_place(copy: PersistedState, original: PersistedState, other: PersistedState)
    requires
        same_saved(copy, original),
    ensures
        alike(copy, other) == alike(original, other),
{
    reveal(alike);
}

/// A write leaves the file with what was last seen, or what was last seen to be
/// written again.
pub proof fn writes_keep_track(
    persistence: Persistence,
    job: SaveJob,
    result: Result<(), String>,
    next: Persistence,
)
    requires
        alike(job.state, persistence.observed),
        persistence.after_write(job, result, next),
    ensures
        next.tracks(),
        next.clean() <==> write_result(persistence.path, result) is None,
        next.clean() ==> alike(persistence.observed, next.saved),
{
    alike_both_ways(job.state, persistence.observed);
}

/// A change that was just seen is not written at once, but put off; every
/// further change puts it off again.
pub proof fn changes_are_put_off(
    persistence: Persistence,
    state: PersistedState,
    now: u64,
    next: Persistence,
)
    requires
        persistence.wf(),
        persistence.can_defer(now),
        persistence.debounce > 0,
        !alike(state, persistence.observed),
        persistence.after_look(state, now, next),
    ensures
        !(next.deadline matches Some(at) && at <= now),
        !alike(state, persistence.saved) ==> next.deadline == Some(
            (now + persistence.debounce) as u64,
        ),
{
}

/// A call that may lead to a write, with what the write came to if there was
/// one.
pub enum SaveCall {
    /// A look at the current state at a time.
    Observe { state: PersistedState, now: u64, result: Result<(), String> },
    /// A write at once because of a reset.
    SaveResetNow { state: PersistedState, result: Result<(), String> },
    /// A write at once because there will be no later.
    Flush { state: PersistedState, result: Result<(), String> },
}

impl SaveCall {
    /// The state that the call is about.
    pub open spec fn state(self) -> PersistedState {
        match self {
            SaveCall::Observe { state, .. } => state,
            SaveCall::SaveResetNow { state, .. } => state,
            SaveCall::Flush { state, .. } => state,
        }
    }

    /// What the clock shows after the call, where it showed `clock` before.
    pub open spec fn clock(self, clock: u64) -> u64 {
        match self {
            SaveCall::Observe { now, .. } => now,
            _ => clock,
        }
    }
}

impl Persistence {
    /// Whether `next` is this after a look at the current state and the write
    /// that followed it, if its time had come.
    pub open spec fn looked(
        self,
        state: PersistedState,
        now: u64,
        result: Result<(), String>,
        seen: Persistence,
        next: Persistence,
    ) -> bool {
        &&& self.after_look(state, now, seen)
        &&& if seen.due(now) {
            exists|job: SaveJob|
                #[trigger] seen.hands_out(job) && seen.after_settling(job, result, now, next)
        } else {
            next == seen
        }
    }

    /// Whether `next` is this after a state was written at once.
    pub open spec fn written_at_once(
        self,
        job: SaveJob,
        result: Result<(), String>,
        seen: Persistence,
        next: Persistence,
    ) -> bool {
        &&& same_saved(seen.observed, job.state)
        &&& seen == (Persistence { observed: seen.observed, ..self })
        &&& seen.after_write(job, result, next)
    }

    /// Whether `next` is this after a call.
    pub open spec fn performs(self, call: SaveCall, next: Persistence) -> bool {
        match call {
            SaveCall::Observe { state, now, result } => exists|seen: Persistence| #[trigger]
                self.looked(state, now, result, seen, next),
            SaveCall::SaveResetNow { state, result } => exists|seen: Persistence| #[trigger]
                self.written_at_once(
                    (SaveJob { state, reason: SaveReason::Reset }),
                    result,
                    seen,
                    next,
                ),
            SaveCall::Flush { state, result } => if alike(state, self.saved) && self.pending is None {
                next == self
            } else {
                let reason = if self.pending is Some {
                    self.pending_reason
                } else {
                    SaveReason::Autosave
                };
                exists|seen: Persistence| #[trigger]
                    self.written_at_once((SaveJob { state, reason }), result, seen, next)
            },
        }
    }

    /// What holds after every call: nothing that was seen is lost, and a write
    /// is never more than the debounce time away from the last look.
    pub open spec fn in_order(self, clock: u64) -> bool {
        &&& self.wf()
        &&& self.tracks()
        &&& self.debounce == SAVE_DEBOUNCE
        &&& self.deadline matches Some(at) ==> at <= clock + SAVE_DEBOUNCE
    }
}

/// What a look and the write that followed it, if one did, come to: the state
/// was seen; another look is due if and only if something has yet to be
/// written, within the debounce time; else the file holds the state; nothing is
/// written while the state changes or before its time has come; and going back
/// to what the file holds leaves nothing to write and no complaint.
pub open spec fn look_is_settled(
    before: Persistence,
    state: PersistedState,
    now: u64,
    after: Persistence,
) -> bool {
    &&& alike(state, after.observed)
    &&& until(after.deadline, now) is Some <==> after.pending is Some
    &&& until(after.deadline, now) is None ==> alike(state, after.saved)
    &&& until(after.deadline, now) matches Some(delay) ==> delay <= SAVE_DEBOUNCE
    &&& !alike(state, before.observed) ==> after.saved == before.saved
    &&& !before.due(now) ==> after.saved == before.saved
    &&& !alike(state, before.observed) && alike(state, before.saved) ==> after.pending is None
        && after.save_error is None
}

/// A write of something that is equal to what was last seen keeps order.
proof fn writes_keep_order(
    persistence: Persistence,
    job: SaveJob,
    result: Result<(), String>,
    next: Persistence,
    clock: u64,
)
    requires
        persistence.debounce == SAVE_DEBOUNCE,
        alike(job.state, persistence.observed),
        persistence.after_write(job, result, next),
    ensures
        next.in_order(clock),
        next.observed == persistence.observed,
{
    writes_keep_track(persistence, job, result, next);
}

/// A look and the write that followed it keep order.
proof fn looks_keep_order(
    persistence: Persistence,
    clock: u64,
    state: PersistedState,
    now: u64,
    result: Result<(), String>,
    seen: Persistence,
    next: Persistence,
)
    requires
        persistence.in_order(clock),
        clock <= now,
        persistence.can_defer(now),
        alike(state, state),
        persistence.looked(state, now, result, seen, next),
    ensures
        next.in_order(now),
        look_is_settled(persistence, state, now, next),
{
    changes_are_never_lost(persistence, state, now, seen);
    if !alike(state, persistence.observed) {
        same_in_place(seen.observed, state, state);
        alike_both_ways(seen.observed, state);
    }
    assert(alike(state, seen.observed));
    if seen.due(now) {
        let job = choose|job: SaveJob|
            #[trigger] seen.hands_out(job) && seen.after_settling(job, result, now, next);
        let pending = seen.pending->0;
        same_in_place(job.state, pending, seen.observed);
        assert(alike(job.state, seen.observed));
        let written = if write_result(seen.path, result) is None {
            next
        } else {
            Persistence { deadline: None, ..next }
        };
        writes_keep_order(seen, job, result, written, now);
        if write_result(seen.path, result) is None {
            alike_in_a_row(state, seen.observed, next.saved);
        }
    }
}

/// What the clock shows after the first `count` calls.
pub open spec fn clock_after(calls: Seq<SaveCall>, count: nat) -> u64
    decreases count,
{
    if count == 0 {
        0
    } else {
        calls[count - 1].clock(clock_after(calls, (count - 1) as nat))
    }
}

/// Whether the call at `i` led from one of `states` to the next, while the
/// clock did not go back.
pub open spec fn call_made(states: Seq<Persistence>, calls: Seq<SaveCall>, i: int) -> bool {
    &&& states[i].performs(calls[i], states[i + 1])
    &&& alike(calls[i].state(), calls[i].state())
    &&& calls[i] matches SaveCall::Observe { now, .. } ==> clock_after(calls, i as nat) <= now && now
        + SAVE_DEBOUNCE <= u64::MAX
}

/// Whether `states` are what calls lead to, one after the other, from a
/// beginning on.
pub open spec fn saving_history(states: Seq<Persistence>, calls: Seq<SaveCall>) -> bool {
    &&& states.len() == calls.len() + 1
    &&& states[0].begins()
    &&& forall|i: int| 0 <= i < calls.len() ==> #[trigger] call_made(states, calls, i)
}

/// However changes are seen and written, order is kept: what has yet to be
/// written is what was last seen, and where nothing has, the file holds it.
pub proof fn order_is_kept(states: Seq<Persistence>, calls: Seq<SaveCall>, count: nat)
    requires
        saving_history(states, calls),
        count <= calls.len(),
    ensures
        states[count as int].in_order(clock_after(calls, count)),
    decreases count,
{
    if count > 0 {
        let i = count - 1;
        order_is_kept(states, calls, i as nat);
        assert(call_made(states, calls, i));
        let (before, next) = (states[i], states[i + 1]);
        let clock = clock_after(calls, i as nat);
        match calls[i] {
            SaveCall::Observe { state, now, result } => {
                let seen = choose|seen: Persistence| #[trigger]
                    before.looked(state, now, result, seen, next);
                looks_keep_order(before, clock, state, now, result, seen, next);
            },
            SaveCall::SaveResetNow { state, result } => {
                let job = SaveJob { state, reason: SaveReason::Reset };
                let seen = choose|seen: Persistence| #[trigger]
                    before.written_at_once(job, result, seen, next);
                same_in_place(seen.observed, state, state);
                alike_both_ways(seen.observed, state);
                writes_keep_order(seen, job, result, next, clock);
            },
            SaveCall::Flush { state, result } => {
                if !(alike(state, before.saved) && before.pending is None) {
                    let reason = if before.pending is Some {
                        before.pending_reason
                    } else {
                        SaveReason::Autosave
                    };
                    let job = SaveJob { state, reason };
                    let seen = choose|seen: Persistence| #[trigger]
                        before.written_at_once(job, result, seen, next);
                    same_in_place(seen.observed, state, state);
                    alike_both_ways(seen.observed, state);
                    writes_keep_order(seen, job, result, next, clock);
                }
            },
        }
    }
}

/// Every look in a history of looks, resets and flushes is settled.
pub proof fn every_look_is_settled(states: Seq<Persistence>, calls: Seq<SaveCall>, i: int)
    requires
        saving_history(states, calls),
        0 <= i < calls.len(),
    ensures
        calls[i] matches SaveCall::Observe { state, now, .. } ==> look_is_settled(
            states[i],
            state,
            now,
            states[i + 1],
        ),
{
    order_is_kept(states, calls, i as nat);
    assert(call_made(states, calls, i));
    if let SaveCall::Observe { state, now, result } = calls[i] {
        let seen = choose|seen: Persistence| #[trigger]
            states[i].looked(state, now, result, seen, states[i + 1]);
        looks_keep_order(
            states[i],
            clock_after(calls, i as nat),
            state,
            now,
            result,
            seen,
            states[i + 1],
        );
    }
}

/// Shock settings are equal if and only if they have the same mode and each of
/// their numbers is a number and the same in both.
pub proof fn equal_shocks_agree_in_every_number(a: ShockSettings, b: ShockSettings)
    ensures
        alike_shocks(a, b) <==> {
            &&& a.mode == b.mode
            &&& forall|field: ShockField|
                !(#[trigger] a.at(field)).nan() && !b.at(field).nan() && a.at(field).value()
                    == b.at(field).value()
        },
{
    if forall|field: ShockField|
        !(#[trigger] a.at(field)).nan() && !b.at(field).nan() && a.at(field).value() == b.at(
            field,
        ).value() {
        assert(a.at(ShockField::MinimumIntensity) == a.interval.minimum_intensity);
        assert(a.at(ShockField::MaximumIntensity) == a.interval.maximum_intensity);
        assert(a.at(ShockField::MinimumDuration) == a.interval.minimum_duration_seconds);
        assert(a.at(ShockField::MaximumDuration) == a.interval.maximum_duration_seconds);
        assert(a.at(ShockField::Intensity) == a.fixed.intensity);
        assert(a.at(ShockField::Duration) == a.fixed.duration_seconds);
    }
}

/// Saved states that are equal agree in every field that is saved: version,
/// provider, username, key, token, preferred target, every switch, filter and
/// number, and the path of the log.
pub proof fn equal_states_agree_in_every_field(
    a: PersistedState,
    b: PersistedState,
    field: ShockField,
)
    requires
        alike(a, b),
    ensures
        a.schema_version == b.schema_version,
        a.provider == b.provider,
        a.credentials.pishock.username@ == b.credentials.pishock.username@,
        a.credentials.pishock.api_key@ == b.credentials.pishock.api_key@,
        a.credentials.openshock.token@ == b.credentials.openshock.token@,
        match (a.preferred_target, b.preferred_target) {
            (Some(one), Some(other)) => one.provider == other.provider && one.id@ == other.id@,
            (None, None) => true,
            _ => false,
        },
        a.shock.mode == b.shock.mode,
        a.shock.at(field).value() == b.shock.at(field).value(),
        a.triggers.death_enabled == b.triggers.death_enabled,
        a.triggers.ability_use.trigger.enabled == b.triggers.ability_use.trigger.enabled,
        a.triggers.ability_use.trigger.shock.mode == b.triggers.ability_use.trigger.shock.mode,
        a.triggers.ability_use.trigger.shock.at(field).value()
            == b.triggers.ability_use.trigger.shock.at(field).value(),
        match (a.triggers.ability_use.ability_filter, b.triggers.ability_use.ability_filter) {
            (AbilityFilter::All, AbilityFilter::All) => true,
            (AbilityFilter::Selected(one), AbilityFilter::Selected(other)) => one@ == other@,
            _ => false,
        },
        a.triggers.ability_cooldown_ready.trigger.enabled
            == b.triggers.ability_cooldown_ready.trigger.enabled,
        a.triggers.ability_cooldown_ready.trigger.shock.mode
            == b.triggers.ability_cooldown_ready.trigger.shock.mode,
        a.triggers.ability_cooldown_ready.trigger.shock.at(field).value()
            == b.triggers.ability_cooldown_ready.trigger.shock.at(field).value(),
        match (
            a.triggers.ability_cooldown_ready.ability_filter,
            b.triggers.ability_cooldown_ready.ability_filter,
        ) {
            (AbilityFilter::All, AbilityFilter::All) => true,
            (AbilityFilter::Selected(one), AbilityFilter::Selected(other)) => one@ == other@,
            _ => false,
        },
        a.log_path@ == b.log_path@,
{
    reveal(alike);
    equal_shocks_agree_in_every_number(a.shock, b.shock);
    equal_shocks_agree_in_every_number(
        a.triggers.ability_use.trigger.shock,
        b.triggers.ability_use.trigger.shock,
    );
    equal_shocks_agree_in_every_number(
        a.triggers.ability_cooldown_ready.trigger.shock,
        b.triggers.ability_cooldown_ready.trigger.shock,
    );
}

/// Saved states that agree in every field are equal, as long as each of their
/// numbers is a number.
pub proof fn states_that_agree_are_equal(a: PersistedState, b: PersistedState)
    requires
        a.schema_version == b.schema_version,
        a.provider == b.provider,
        a.credentials.pishock.username@ == b.credentials.pishock.username@,
        a.credentials.pishock.api_key@ == b.credentials.pishock.api_key@,
        a.credentials.openshock.token@ == b.credentials.openshock.token@,
        a.preferred_target == b.preferred_target,
        a.shock == b.shock,
        a.triggers == b.triggers,
        a.log_path@ == b.log_path@,
        forall|field: ShockField| !(#[trigger] a.shock.at(field)).nan(),
        forall|field: ShockField|
            !(#[trigger] a.triggers.ability_use.trigger.shock.at(field)).nan(),
        forall|field: ShockField|
            !(#[trigger] a.triggers.ability_cooldown_ready.trigger.shock.at(field)).nan(),
    ensures
        alike(a, b),
{
    reveal(alike);
    equal_shocks_agree_in_every_number(a.shock, b.shock);
    equal_shocks_agree_in_every_number(
        a.triggers.ability_use.trigger.shock,
        b.triggers.ability_use.trigger.shock,
    );
    equal_shocks_agree_in_every_number(
        a.triggers.ability_cooldown_ready.trigger.shock,
        b.triggers.ability_cooldown_ready.trigger.shock,
    );
}

/// What a state restores to holds the fields of any saved state equal to it:
/// provider, username, key, token, path, preferred target, and every switch,
/// filter and number.
pub proof fn equal_states_restore_to_the_same(
    seen: PersistedState,
    saved: PersistedState,
    restored: AppState,
    field: ShockField,
)
    requires
        alike(seen, saved),
        restores(saved, restored),
    ensures
        restored.provider == seen.provider,
        restored.username@ == seen.credentials.pishock.username@,
        restored.api_key@ == seen.credentials.pishock.api_key@,
        restored.openshock_token@ == seen.credentials.openshock.token@,
        restored.log_path@ == seen.log_path@,
        match seen.preferred_target {
            Some(target) => match target.provider {
                ProviderKind::PiShock => match unsigned_value(target.id@) {
                    Some(id) => restored.preferred_target == Some(TargetId::PiShock(id)),
                    None => restored.preferred_target is None,
                },
                ProviderKind::OpenShock => if blank(target.id@) {
                    restored.preferred_target is None
                } else {
                    restored.preferred_target matches Some(TargetId::OpenShock(id)) && id@
                        == target.id@
                },
            },
            None => restored.preferred_target is None,
        },
        restored.triggers.death.enabled == seen.triggers.death_enabled,
        restored.triggers.death.shock.mode == seen.shock.mode,
        restored.triggers.death.shock.at(field).value() == seen.shock.at(field).value(),
        restored.triggers.ability_use.trigger.enabled == seen.triggers.ability_use.trigger.enabled,
        restored.triggers.ability_use.trigger.shock.mode
            == seen.triggers.ability_use.trigger.shock.mode,
        restored.triggers.ability_use.trigger.shock.at(field).value()
            == seen.triggers.ability_use.trigger.shock.at(field).value(),
        match (
            restored.triggers.ability_use.ability_filter,
            seen.triggers.ability_use.ability_filter,
        ) {
            (AbilityFilter::All, AbilityFilter::All) => true,
            (AbilityFilter::Selected(one), AbilityFilter::Selected(other)) => one@ == other@,
            _ => false,
        },
        restored.triggers.ability_cooldown_ready.trigger.enabled
            == seen.triggers.ability_cooldown_ready.trigger.enabled,
        restored.triggers.ability_cooldown_ready.trigger.shock.mode
            == seen.triggers.ability_cooldown_ready.trigger.shock.mode,
        restored.triggers.ability_cooldown_ready.trigger.shock.at(field).value()
            == seen.triggers.ability_cooldown_ready.trigger.shock.at(field).value(),
        match (
            restored.triggers.ability_cooldown_ready.ability_filter,
            seen.triggers.ability_cooldown_ready.ability_filter,
        ) {
            (AbilityFilter::All, AbilityFilter::All) => true,
            (AbilityFilter::Selected(one), AbilityFilter::Selected(other)) => one@ == other@,
            _ => false,
        },
{
    equal_states_agree_in_every_field(seen, saved, field);
}

/// Whenever nothing has yet to be written after a look, a reset or a flush, the
/// file holds what the call was about.
pub proof fn settled_calls_are_in_the_file(
    states: Seq<Persistence>,
    calls: Seq<SaveCall>,
    i: int,
)
    requires
        saving_history(states, calls),
        0 <= i < calls.len(),
        states[i + 1].pending is None,
    ensures
        alike(calls[i].state(), states[i + 1].saved),
{
    assert(call_made(states, calls, i));
    let (before, next) = (states[i], states[i + 1]);
    let seen = calls[i].state();
    match calls[i] {
        SaveCall::Observe { .. } => {
            every_look_is_settled(states, calls, i);
        },
        SaveCall::SaveResetNow { state, result } => {
            let job = SaveJob { state, reason: SaveReason::Reset };
            let middle = choose|middle: Persistence| #[trigger]
                before.written_at_once(job, result, middle, next);
            assert(alike(seen, next.saved));
        },
        SaveCall::Flush { state, result } => {
            if !(alike(state, before.saved) && before.pending is None) {
                let reason = if before.pending is Some {
                    before.pending_reason
                } else {
                    SaveReason::Autosave
                };
                let job = SaveJob { state, reason };
                let middle = choose|middle: Persistence| #[trigger]
                    before.written_at_once(job, result, middle, next);
            }
            assert(alike(seen, next.saved));
        },
    }
}

/// Whenever nothing has yet to be written after a look, a reset or a flush,
/// what the file holds restores to what the call was about: the same provider,
/// username, key, token, path, preferred target and settings.
pub proof fn what_was_seen_is_restored(
    states: Seq<Persistence>,
    calls: Seq<SaveCall>,
    i: int,
    restored: AppState,
    field: ShockField,
)
    requires
        saving_history(states, calls),
        0 <= i < calls.len(),
        states[i + 1].pending is None,
        restores(states[i + 1].saved, restored),
    ensures
        ({
            let seen = match calls[i] {
                SaveCall::Observe { state, .. } => state,
                SaveCall::SaveResetNow { state, .. } => state,
                SaveCall::Flush { state, .. } => state,
            };
            &&& restored.provider == seen.provider
            &&& restored.username@ == seen.credentials.pishock.username@
            &&& restored.api_key@ == seen.credentials.pishock.api_key@
            &&& restored.openshock_token@ == seen.credentials.openshock.token@
            &&& restored.log_path@ == seen.log_path@
            &&& restored.preferred_target is Some ==> seen.preferred_target is Some
            &&& restored.preferred_target matches Some(TargetId::PiShock(id)) ==> unsigned_value(
                seen.preferred_target->0.id@,
            ) == Some(id)
            &&& restored.preferred_target matches Some(TargetId::OpenShock(id)) ==> id@
                == seen.preferred_target->0.id@
            &&& restored.triggers.death.enabled == seen.triggers.death_enabled
            &&& restored.triggers.ability_use.trigger.enabled
                == seen.triggers.ability_use.trigger.enabled
            &&& restored.triggers.ability_cooldown_ready.trigger.enabled
                == seen.triggers.ability_cooldown_ready.trigger.enabled
            &&& restored.triggers.death.shock.mode == seen.shock.mode
            &&& restored.triggers.death.shock.at(field).value() == seen.shock.at(field).value()
            &&& restored.triggers.ability_use.trigger.shock.at(field).value()
                == seen.triggers.ability_use.trigger.shock.at(field).value()
            &&& restored.triggers.ability_cooldown_ready.trigger.shock.at(field).value()
                == seen.triggers.ability_cooldown_ready.trigger.shock.at(field).value()
        }),
{
    settled_calls_are_in_the_file(states, calls, i);
    equal_states_restore_to_the_same(calls[i].state(), states[i + 1].saved, restored, field);
}

/// A copy of a saved state holds the same in every field.
pub proof fn copies_hold_the_same(a: PersistedState, b: PersistedState, slot: u32)
    requires
        same_saved(a, b),
    ensures
        a.schema_version == b.schema_version,
        a.provider == b.provider,
        a.credentials.pishock.username@ == b.credentials.pishock.username@,
        a.credentials.pishock.api_key@ == b.credentials.pishock.api_key@,
        a.credentials.openshock.token@ == b.credentials.openshock.token@,
        a.preferred_target == b.preferred_target,
        a.shock == b.shock,
        a.triggers.death_enabled == b.triggers.death_enabled,
        a.triggers.ability_use.trigger == b.triggers.ability_use.trigger,
        a.triggers.ability_cooldown_ready.trigger == b.triggers.ability_cooldown_ready.trigger,
        a.triggers.ability_use.ability_filter is All
            <==> b.triggers.ability_use.ability_filter is All,
        a.triggers.ability_use.ability_filter.admits(slot)
            == b.triggers.ability_use.ability_filter.admits(slot),
        a.triggers.ability_cooldown_ready.ability_filter is All
            <==> b.triggers.ability_cooldown_ready.ability_filter is All,
        a.triggers.ability_cooldown_ready.ability_filter.admits(slot)
            == b.triggers.ability_cooldown_ready.ability_filter.admits(slot),
        a.log_path@ == b.log_path@,
{
}

/// What is saved of a state holds each field in its own place, the settings of
/// each trigger apart from those of the others.
pub proof fn fields_are_saved_in_their_places(app: AppState, saved: PersistedState)
    requires
        saves(app, saved),
    ensures
        saved.schema_version == 1,
        saved.provider == app.provider,
        saved.credentials.pishock.username@ == app.username@,
        saved.credentials.pishock.api_key@ == app.api_key@,
        saved.credentials.openshock.token@ == app.openshock_token@,
        saved.log_path@ == app.log_path@,
        saved.triggers.death_enabled == app.triggers.death.enabled,
        saved.triggers.ability_use.trigger.enabled == app.triggers.ability_use.trigger.enabled,
        saved.triggers.ability_cooldown_ready.trigger.enabled
            == app.triggers.ability_cooldown_ready.trigger.enabled,
        shock_in_range(app.triggers.death.shock) ==> saved.shock == app.triggers.death.shock,
        shock_in_range(app.triggers.ability_use.trigger.shock)
            ==> saved.triggers.ability_use.trigger.shock == app.triggers.ability_use.trigger.shock,
        shock_in_range(app.triggers.ability_cooldown_ready.trigger.shock)
            ==> saved.triggers.ability_cooldown_ready.trigger.shock
            == app.triggers.ability_cooldown_ready.trigger.shock,
        match (saved.triggers.ability_use.ability_filter, app.triggers.ability_use.ability_filter) {
            (AbilityFilter::All, AbilityFilter::All) => true,
            (AbilityFilter::Selected(one), AbilityFilter::Selected(other)) => one@ == other@,
            _ => false,
        },
        match (
            saved.triggers.ability_cooldown_ready.ability_filter,
            app.triggers.ability_cooldown_ready.ability_filter,
        ) {
            (AbilityFilter::All, AbilityFilter::All) => true,
            (AbilityFilter::Selected(one), AbilityFilter::Selected(other)) => one@ == other@,
            _ => false,
        },
        match app.preferred_target {
            Some(TargetId::PiShock(id)) => if app.provider is PiShock {
                saved.preferred_target matches Some(target) && target.provider is PiShock
                    && target.id@ == decimal(id as nat)
            } else {
                saved.preferred_target is None
            },
            Some(TargetId::OpenShock(id)) => if app.provider is OpenShock && !blank(id@) {
                saved.preferred_target matches Some(target) && target.provider is OpenShock
                    && target.id@ == id@
            } else {
                saved.preferred_target is None
            },
            None => saved.preferred_target is None,
        },
{
    if shock_in_range(app.triggers.death.shock) {
        shock_in_range_is_normal(app.triggers.death.shock);
    }
    if shock_in_range(app.triggers.ability_use.trigger.shock) {
        shock_in_range_is_normal(app.triggers.ability_use.trigger.shock);
    }
    if shock_in_range(app.triggers.ability_cooldown_ready.trigger.shock) {
        shock_in_range_is_normal(app.triggers.ability_cooldown_ready.trigger.shock);
    }
}

/// A number is moved no further than needed to bring it into range: one in
/// range stays, one beyond a bound becomes that bound, and what is no finite
/// number becomes the lower bound.
pub proof fn numbers_are_moved_no_further_than_needed(value: Binary32)
    ensures
        ({
            let normal = normal_intensity(value);
            &&& value.finite() && pow2(149) <= value.value() <= 100 * pow2(149) ==> normal == value
            &&& value.finite() && value.value() < pow2(149) ==> normal.value() == pow2(149)
            &&& value.finite() && value.value() > 100 * pow2(149) ==> normal.value() == 100 * pow2(
                149,
            )
            &&& !value.finite() ==> normal.value() == pow2(149)
        }),
        ({
            let normal = normal_duration(value);
            let (short, long) = (0x99_999a * pow2(124), 3 * pow2(149));
            &&& value.finite() && short <= value.value() <= long ==> normal == value
            &&& value.finite() && value.value() < short ==> normal.value() == short
            &&& value.finite() && value.value() > long ==> normal.value() == long
            &&& !value.finite() ==> normal.value() == short
        }),
{
    named_numbers();
    ranges_are_sound();
}

/// Shock settings are in range if and only if each intensity lies between one
/// and one hundred, each duration between three tenths of a second and three
/// seconds, and no lower bound above its upper bound.
pub proof fn settings_are_in_range_number_by_number(shock: ShockSettings)
    ensures
        shock_in_range(shock) <==> {
            &&& forall|field: ShockField|
                field.timed() ==> (#[trigger] shock.at(field)).finite() && 0x99_999a * pow2(124)
                    <= shock.at(field).value() <= 3 * pow2(149)
            &&& forall|field: ShockField|
                !field.timed() ==> (#[trigger] shock.at(field)).finite() && pow2(149) <= shock.at(
                    field,
                ).value() <= 100 * pow2(149)
            &&& shock.interval.minimum_intensity.value() <= shock.interval.maximum_intensity.value()
            &&& shock.interval.minimum_duration_seconds.value()
                <= shock.interval.maximum_duration_seconds.value()
        },
{
    named_numbers();
    ranges_are_sound();
    if forall|field: ShockField|
        #![trigger shock.at(field)]
        shock.at(field).finite() && (field.timed() ==> 0x99_999a * pow2(124) <= shock.at(
            field,
        ).value() <= 3 * pow2(149)) && (!field.timed() ==> pow2(149) <= shock.at(field).value()
            <= 100 * pow2(149)) {
        assert(shock.at(ShockField::MinimumIntensity).finite());
        assert(shock.at(ShockField::MaximumIntensity).finite());
        assert(shock.at(ShockField::MinimumDuration).finite());
        assert(shock.at(ShockField::MaximumDuration).finite());
        assert(shock.at(ShockField::Intensity).finite());
        assert(shock.at(ShockField::Duration).finite());
    }
}

/// Normal settings keep their mode, and each number in its own place is the
/// one that was there, brought into range; but an upper bound that would lie
/// below its lower bound is raised to it.
pub proof fn settings_are_brought_into_range_number_by_number(shock: ShockSettings)
    ensures
        ({
            let normal = normal_shock(shock);
            let high = normal_intensity(shock.interval.maximum_intensity);
            let long = normal_duration(shock.interval.maximum_duration_seconds);
            &&& normal.mode == shock.mode
            &&& normal.fixed.intensity == normal_intensity(shock.fixed.intensity)
            &&& normal.fixed.duration_seconds == normal_duration(shock.fixed.duration_seconds)
            &&& normal.interval.minimum_intensity == normal_intensity(
                shock.interval.minimum_intensity,
            )
            &&& normal.interval.minimum_duration_seconds == normal_duration(
                shock.interval.minimum_duration_seconds,
            )
            &&& normal.interval.maximum_intensity == if normal.interval.minimum_intensity.value()
                > high.value() {
                normal.interval.minimum_intensity
            } else {
                high
            }
            &&& normal.interval.maximum_duration_seconds
                == if normal.interval.minimum_duration_seconds.value() > long.value() {
                normal.interval.minimum_duration_seconds
            } else {
                long
            }
        }),
{
    ranges_are_sound();
}

/// A loaded state is refused if and only if its version is not the first, or
/// it has a preferred target whose identifier cannot be read; the version that
/// was found is told.
pub proof fn states_are_refused_for_version_or_target(state: PersistedState)
    ensures
        refusal(state) is None <==> state.schema_version == 1 && (
        state.preferred_target matches Some(target) ==> match target.provider {
            ProviderKind::PiShock => unsigned_value(target.id@) is Some,
            ProviderKind::OpenShock => !blank(target.id@),
        }),
        state.schema_version != 1 ==> (refusal(state) matches Some(told) && (
        "unsupported schema version "@ + decimal(state.schema_version as nat)).is_prefix_of(told)),
{
    if state.schema_version != 1 {
        let told = refusal(state)->0;
        let opening = "unsupported schema version "@ + decimal(state.schema_version as nat);
        assert(told.subrange(0, opening.len() as int) =~= opening);
    }
}

/// A loaded state in its normal form keeps provider, login, path, switches and
/// filters; of its preferred target, one of the other provider is dropped and
/// one of its own is kept.
pub proof fn normal_states_keep_what_was_loaded(state: PersistedState, normal: PersistedState)
    requires
        normal_form(state, normal),
        refusal(state) is None,
    ensures
        normal.schema_version == 1,
        normal.provider == state.provider,
        normal.credentials == state.credentials,
        normal.log_path == state.log_path,
        normal.triggers.death_enabled == state.triggers.death_enabled,
        normal.triggers.ability_use.trigger.enabled == state.triggers.ability_use.trigger.enabled,
        normal.triggers.ability_use.ability_filter == state.triggers.ability_use.ability_filter,
        normal.triggers.ability_cooldown_ready.trigger.enabled
            == state.triggers.ability_cooldown_ready.trigger.enabled,
        normal.triggers.ability_cooldown_ready.ability_filter
            == state.triggers.ability_cooldown_ready.ability_filter,
        normal.shock == normal_shock(state.shock),
        normal.triggers.ability_use.trigger.shock == normal_shock(
            state.triggers.ability_use.trigger.shock,
        ),
        normal.triggers.ability_cooldown_ready.trigger.shock == normal_shock(
            state.triggers.ability_cooldown_ready.trigger.shock,
        ),
        match state.preferred_target {
            Some(target) => if target.provider == state.provider {
                &&& normal.preferred_target matches Some(kept)
                &&& kept.provider == target.provider
                &&& target.provider is OpenShock ==> kept.id@ == target.id@
                &&& target.provider is PiShock ==> unsigned_value(kept.id@) == unsigned_value(
                    target.id@,
                )
            } else {
                normal.preferred_target is None
            },
            None => normal.preferred_target is None,
        },
{
    if let Some(target) = state.preferred_target {
        if target.provider is PiShock {
            unsigned_value_of_decimal(unsigned_value(target.id@)->0);
        }
    }
}

/// A target is saved under its provider with its own identifier, and two
/// targets are saved alike only if they are the same.
pub proof fn targets_are_saved_under_their_provider(
    saved: PersistedTarget,
    target: TargetId,
    other: PersistedTarget,
    another: TargetId,
)
    requires
        saved.stands_for(target),
        other.stands_for(another),
    ensures
        saved.provider is PiShock <==> target is PiShock,
        target matches TargetId::PiShock(id) ==> saved.id@ == decimal(id as nat),
        target matches TargetId::OpenShock(id) ==> saved.id@ == id@,
        saved.provider == other.provider && saved.id@ == other.id@ ==> same_id(target, another),
        target matches TargetId::OpenShock(id) ==> (blank(id@) <==> saved.target() is Err),
        target is PiShock ==> saved.target() is Ok,
{
    if let TargetId::PiShock(id) = target {
        unsigned_value_of_decimal(id);
    }
    if let TargetId::PiShock(id) = another {
        unsigned_value_of_decimal(id);
    }
}

/// Before anything is saved, nothing was entered, PiShock is the provider and
/// deaths alone cause shocks, the weakest.
pub proof fn first_saved_state_holds_nothing(state: PersistedState)
    requires
        default_saved(state),
    ensures
        state.schema_version == 1,
        state.provider is PiShock,
        state.credentials.pishock.username@.len() == 0,
        state.credentials.pishock.api_key@.len() == 0,
        state.credentials.openshock.token@.len() == 0,
        state.preferred_target is None,
        state.log_path@.len() == 0,
        state.shock == default_shock(),
        state.triggers.death_enabled,
        !state.triggers.ability_use.trigger.enabled,
        !state.triggers.ability_cooldown_ready.trigger.enabled,
        state.triggers.ability_use.trigger.shock == default_shock(),
        state.triggers.ability_cooldown_ready.trigger.shock == default_shock(),
        state.triggers.ability_use.ability_filter is All,
        state.triggers.ability_cooldown_ready.ability_filter is All,
{
}

/// A change that stays is written half a second after it was seen, not
/// earlier, and it is that change which is written, on its own account; a
/// change that is taken back before is not written at all.
pub proof fn changes_that_stay_are_written_after_half_a_second(
    first: Persistence,
    state: PersistedState,
    now: u64,
    second: Persistence,
    again: PersistedState,
    later: u64,
    third: Persistence,
    job: SaveJob,
)
    requires
        first.begins(),
        now + 500_000_000 <= u64::MAX,
        alike(state, state),
        !alike(state, first.observed),
        first.after_look(state, now, second),
        alike(again, state),
        now <= later,
        second.after_look(again, later, third),
    ensures
        third.due(later) <==> later >= now + 500_000_000,
        third.pending is Some && third.hands_out(job) ==> job.state.schema_version
            == state.schema_version && job.state.credentials == state.credentials
            && job.state.provider == state.provider && job.state.log_path == state.log_path
            && job.state.shock == state.shock && job.reason is Autosave,
        third.pending is Some,
        third.saved == first.saved,
        forall|back: PersistedState, at: u64, fourth: Persistence|
            #![trigger third.after_look(back, at, fourth)]
            third.after_look(back, at, fourth) && !alike(back, third.observed) && alike(
                back,
                first.saved,
            ) ==> fourth.pending is None && fourth.deadline is None && fourth.save_error is None,
{
    same_in_place(second.observed, state, state);
    alike_both_ways(second.observed, state);
    alike_in_a_row(again, state, second.observed);
    if alike(state, first.saved) {
        alike_both_ways(first.observed, first.saved);
        alike_in_a_row(state, first.saved, first.observed);
    }
}

/// A write that succeeds leaves the file with what was written and nothing to
/// write; one that fails, or for which there is no path, leaves the file as it
/// was and the same state to be written, and tells why. After a look it is
/// tried again when the debounce time has passed.
pub proof fn writes_succeed_or_are_tried_again(
    before: Persistence,
    job: SaveJob,
    result: Result<(), String>,
    now: u64,
    after: Persistence,
)
    requires
        before.after_settling(job, result, now, after),
        before.can_defer(now),
    ensures
        after.path == before.path,
        after.observed == before.observed,
        after.load_warning == before.load_warning,
        after.debounce == before.debounce,
        if before.path is Some && result is Ok {
            &&& after.saved == job.state
            &&& after.pending is None
            &&& after.deadline is None
            &&& after.save_error is None
        } else {
            &&& after.saved == before.saved
            &&& after.pending == Some(job.state)
            &&& after.pending_reason == job.reason
            &&& after.deadline matches Some(at) && at == now + before.debounce
            &&& after.save_error matches Some(told) && match result {
                Err(error) => before.path is Some ==> occurs(told@, error@),
                Ok(_) => true,
            }
        },
{
    if let Err(error) = result {
        if before.path is Some {
            let (opening, text) = match job.reason {
                SaveReason::Autosave => (
                    "Could not save settings: "@,
                    save_complaint(job.reason, error@),
                ),
                SaveReason::Reset => (
                    "Current settings were reset in memory, but saved state could not be replaced: "@,
                    save_complaint(job.reason, error@),
                ),
            };
            let at = opening.len() as int;
            assert(text.subrange(at, at + error@.len()) =~= error@);
            assert(occurs_at(text, error@, at));
        }
    }
}

/// The time left until a write is what is left of it, and nothing once it has
/// come.
pub proof fn time_runs_out(at: u64, now: u64)
    ensures
        until(None, now) is None,
        now <= at ==> (until(Some(at), now) matches Some(left) && now + left == at),
        at <= now ==> until(Some(at), now) == Some(0u64),
{
}

/// A file that is missing or cannot be read is not invalid; one that holds no
/// state is, for that reason; one that holds a state is if and only if the
/// state is refused.
pub proof fn files_are_invalid_for_what_they_hold(read: ReadOutcome)
    ensures
        read is Missing || read is Unreadable ==> invalidity(read) is None,
        read matches ReadOutcome::Malformed(error) ==> invalidity(read) == Some(error@),
        read matches ReadOutcome::Decoded(state) ==> invalidity(read) == refusal(state),
{
}

/// The name under which a file is put aside begins with the file's own, and
/// ends with its extension; the fraction of the time always has nine digits.
pub proof fn backup_names_keep_the_files_name(
    stem: Seq<char>,
    extension: Seq<char>,
    secs: u64,
    nanos: u32,
    collision: u32,
)
    requires
        nanos < 1_000_000_000,
    ensures
        ({
            let name = backup_file_name(stem, Some(extension), secs, nanos, collision);
            let bare = backup_file_name(stem, None, secs, nanos, collision);
            &&& (stem + ".invalid-"@ + decimal(secs as nat) + "-"@).is_prefix_of(name)
            &&& (stem + ".invalid-"@ + decimal(secs as nat) + "-"@).is_prefix_of(bare)
            &&& name == bare + "."@ + extension
            &&& collision == 0 ==> nine_digits(nanos as nat).is_suffix_of(bare)
            &&& collision > 0 ==> ("-"@ + decimal(collision as nat)).is_suffix_of(bare)
        }),
        nine_digits(nanos as nat).len() == 9,
        decimal(nanos as nat).is_suffix_of(nine_digits(nanos as nat)),
        forall|i: int|
            0 <= i < 9 - decimal(nanos as nat).len() ==> nine_digits(nanos as nat)[i] == '0',
{
    digits_fit(nanos as nat);
    let name = backup_file_name(stem, Some(extension), secs, nanos, collision);
    let bare = backup_file_name(stem, None, secs, nanos, collision);
    let opening = stem + ".invalid-"@ + decimal(secs as nat) + "-"@;
    assert(name.subrange(0, opening.len() as int) =~= opening);
    assert(bare.subrange(0, opening.len() as int) =~= opening);
    assert(name =~= bare + "."@ + extension);
    let fraction = nine_digits(nanos as nat);
    let suffix = if collision == 0 {
        fraction
    } else {
        "-"@ + decimal(collision as nat)
    };
    assert(bare.subrange(bare.len() - suffix.len(), bare.len() as int) =~= suffix);
    let digits = decimal(nanos as nat);
    assert(fraction.subrange(fraction.len() - digits.len(), fraction.len() as int) =~= digits);
}

/// A setup survives a restart: what is saved of a state, read from the file
/// again and restored is the provider, username, key, token and path, of every
/// trigger its switch and its settings, brought into range, and the preferred
/// target where it is one of the provider's and has a visible identifier; there
/// is no warning.
pub proof fn setups_survive_a_restart(
    app: AppState,
    saved: PersistedState,
    path: &str,
    step: LoadStep,
    loaded: LoadOutcome,
    restored: AppState,
)
    requires
        call_ensures(PersistedState::from_app, (&app,), saved),
        call_ensures(load_step, (path, ReadOutcome::Decoded(saved)), step),
        step matches LoadStep::Done(outcome) ==> loaded == outcome && call_ensures(
            PersistedState::restore_app,
            (&loaded.state,),
            restored,
        ),
    ensures
        step is Done,
        loaded.warning is None,
        restored.provider == app.provider,
        restored.username@ == app.username@,
        restored.api_key@ == app.api_key@,
        restored.openshock_token@ == app.openshock_token@,
        restored.log_path@ == app.log_path@,
        restored.triggers.death.enabled == app.triggers.death.enabled,
        restored.triggers.ability_use.trigger.enabled == app.triggers.ability_use.trigger.enabled,
        restored.triggers.ability_cooldown_ready.trigger.enabled
            == app.triggers.ability_cooldown_ready.trigger.enabled,
        restored.triggers.death.shock == normal_shock(app.triggers.death.shock),
        restored.triggers.ability_use.trigger.shock == normal_shock(
            app.triggers.ability_use.trigger.shock,
        ),
        restored.triggers.ability_cooldown_ready.trigger.shock == normal_shock(
            app.triggers.ability_cooldown_ready.trigger.shock,
        ),
        match app.preferred_target {
            Some(TargetId::PiShock(id)) => restored.preferred_target == if app.provider is PiShock {
                Some(TargetId::PiShock(id))
            } else {
                None
            },
            Some(TargetId::OpenShock(id)) => if app.provider is OpenShock && !blank(id@) {
                restored.preferred_target matches Some(TargetId::OpenShock(kept)) && kept@ == id@
            } else {
                restored.preferred_target is None
            },
            None => restored.preferred_target is None,
        },
{
    saved_states_are_usable(app, saved);
    setups_are_remembered(app, saved, loaded.state, restored, TriggerKind::Death);
    setups_are_remembered(app, saved, loaded.state, restored, TriggerKind::AbilityUse);
    setups_are_remembered(app, saved, loaded.state, restored, TriggerKind::AbilityCooldownReady);
}

/// A flush has the current state written unless the file holds it already and
/// nothing has yet to be written, and keeps everything else.
pub proof fn flushes_write_what_the_file_lacks()
    ensures
        forall|persistence: &mut Persistence, state: PersistedState, job: Option<SaveJob>|
            #[trigger] call_ensures(Persistence::flush, (persistence, state), job) ==> {
                &&& job is None <==> alike(state, persistence.saved) && persistence.pending is None
                &&& job matches Some(job) ==> job.state == state
                &&& final(persistence).saved == persistence.saved
                &&& final(persistence).pending == persistence.pending
                &&& final(persistence).path == persistence.path
            },
        forall|persistence: &mut Persistence, state: PersistedState, job: SaveJob|
            #[trigger] call_ensures(Persistence::save_reset_now, (persistence, state), job) ==> {
                &&& job.state == state
                &&& job.reason is Reset
                &&& final(persistence).saved == persistence.saved
            },
{
}

} // verus!
