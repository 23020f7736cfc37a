//! Settings of the effects: how strong and how long shocks are, which triggers
//! cause them, and which abilities count.

use std::collections::BTreeSet;
use vstd::arithmetic::power2::pow2;
use vstd::prelude::*;

use crate::binary32::{
    named_numbers, single, thousandths_are_in_range, thousandths_are_near, Binary32, ONE,
    ONE_HUNDRED, THREE, THREE_TENTHS,
};

verus! {

broadcast use vstd::std_specs::btree::group_btree_axioms;

/// The least intensity of a shock, in percent: one.
pub const MIN_SHOCK_INTENSITY: u32 = ONE;

/// The greatest intensity of a shock, in percent: one hundred.
pub const MAX_SHOCK_INTENSITY: u32 = ONE_HUNDRED;

/// The least duration of a shock, in seconds: three tenths.
pub const MIN_SHOCK_DURATION: u32 = THREE_TENTHS;

/// The greatest duration of a shock, in seconds: three.
pub const MAX_SHOCK_DURATION: u32 = THREE;

/// What a status line's colour tells.
#[derive(Clone, Copy, Debug, Eq, PartialEq, Structural)]
pub enum StatusColor {
    Success,
    Failure,
    Neutral,
    Warning,
}

/// What is known of the entered credentials.
#[derive(Clone, Copy, Debug, Eq, PartialEq, Structural)]
pub enum CredentialState {
    Valid,
    Invalid,
    Testing,
    Unknown,
}

impl Default for CredentialState {
    fn default() -> (state: Self)
        ensures
            state == CredentialState::Unknown,
    {
        CredentialState::Unknown
    }
}

impl CredentialState {
    /// The state in words.
    pub fn label(self) -> (label: &'static str)
        ensures
            label@ == match self {
                CredentialState::Valid => "Connection valid"@,
                CredentialState::Invalid => "Connection failed"@,
                CredentialState::Testing => "Testing connection…"@,
                CredentialState::Unknown => "Connection not tested"@,
            },
    {
        match self {
            CredentialState::Valid => "Connection valid",
            CredentialState::Invalid => "Connection failed",
            CredentialState::Testing => "Testing connection…",
            CredentialState::Unknown => "Connection not tested",
        }
    }

    /// The colour of the state.
    pub fn color(self) -> (color: StatusColor)
        ensures
            color == match self {
                CredentialState::Valid => StatusColor::Success,
                CredentialState::Invalid => StatusColor::Failure,
                _ => StatusColor::Neutral,
            },
    {
        match self {
            CredentialState::Valid => StatusColor::Success,
            CredentialState::Invalid => StatusColor::Failure,
            CredentialState::Testing => StatusColor::Neutral,
            CredentialState::Unknown => StatusColor::Neutral,
        }
    }
}

/// Where the strength of a shock comes from.
#[derive(Clone, Copy, Debug, Eq, PartialEq, Structural)]
pub enum ShockMode {
    /// Drawn at random between two bounds.
    Interval,
    /// Always the same.
    Fixed,
}

impl Default for ShockMode {
    fn default() -> (mode: Self)
        ensures
            mode == ShockMode::Interval,
    {
        ShockMode::Interval
    }
}

impl ShockMode {
    /// The mode in words.
    pub fn label(self) -> (label: &'static str)
        ensures
            label@ == match self {
                ShockMode::Interval => "Interval"@,
                ShockMode::Fixed => "Fixed"@,
            },
    {
        match self {
            ShockMode::Interval => "Interval",
            ShockMode::Fixed => "Fixed",
        }
    }
}

/// The bounds between which a shock is drawn.
#[derive(Clone, Copy, Debug, PartialEq)]
pub struct ShockIntervalSettings {
    pub minimum_intensity: Binary32,
    pub maximum_intensity: Binary32,
    pub minimum_duration_seconds: Binary32,
    pub maximum_duration_seconds: Binary32,
}

/// A shock that is always the same.
#[derive(Clone, Copy, Debug, PartialEq)]
pub struct ShockFixedSettings {
    pub intensity: Binary32,
    pub duration_seconds: Binary32,
}

/// How strong and how long the shocks of one trigger are.
#[derive(Clone, Copy, Debug, PartialEq)]
pub struct ShockSettings {
    pub mode: ShockMode,
    pub interval: ShockIntervalSettings,
    pub fixed: ShockFixedSettings,
}

/// The settings before anyone changed them: the weakest and shortest shock.
pub open spec fn default_shock() -> ShockSettings {
    ShockSettings {
        mode: ShockMode::Interval,
        interval: ShockIntervalSettings {
            minimum_intensity: single(MIN_SHOCK_INTENSITY),
            maximum_intensity: single(MIN_SHOCK_INTENSITY),
            minimum_duration_seconds: single(MIN_SHOCK_DURATION),
            maximum_duration_seconds: single(MIN_SHOCK_DURATION),
        },
        fixed: ShockFixedSettings {
            intensity: single(MIN_SHOCK_INTENSITY),
            duration_seconds: single(MIN_SHOCK_DURATION),
        },
    }
}

impl Default for ShockSettings {
    fn default() -> (settings: Self)
        ensures
            settings == default_shock(),
    {
        Self {
            mode: ShockMode::Interval,
            interval: ShockIntervalSettings {
                minimum_intensity: single(MIN_SHOCK_INTENSITY),
                maximum_intensity: single(MIN_SHOCK_INTENSITY),
                minimum_duration_seconds: single(MIN_SHOCK_DURATION),
                maximum_duration_seconds: single(MIN_SHOCK_DURATION),
            },
            fixed: ShockFixedSettings {
                intensity: single(MIN_SHOCK_INTENSITY),
                duration_seconds: single(MIN_SHOCK_DURATION),
            },
        }
    }
}

/// A shock as it is sent.
#[derive(Clone, Copy, Debug, Eq, PartialEq, Structural)]
pub struct ResolvedShock {
    pub intensity: u8,
    pub duration_ms: u64,
}

/// Whether a number lies between two others.
pub open spec fn between(value: Binary32, minimum: Binary32, maximum: Binary32) -> bool {
    value.finite() && minimum.value() <= value.value() <= maximum.value()
}

/// Decides whether a number lies between two others.
fn is_between(value: Binary32, minimum: Binary32, maximum: Binary32) -> (inside: bool)
    requires
        minimum.finite(),
        maximum.finite(),
    ensures
        inside == between(value, minimum, maximum),
{
    value.is_finite() && !minimum.is_above(value) && !value.is_above(maximum)
}

/// The intensity that every provider takes for a setting: a whole percentage
/// in range.
pub open spec fn intensity_of(value: Binary32) -> Option<u8> {
    if between(value, single(MIN_SHOCK_INTENSITY), single(MAX_SHOCK_INTENSITY)) {
        match value.whole() {
            Some(number) => Some(number as u8),
            None => None,
        }
    } else {
        None
    }
}

/// Reads the intensity that every provider takes for a setting.
pub fn portable_intensity(value: Binary32) -> (intensity: Option<u8>)
    ensures
        intensity == intensity_of(value),
        intensity matches Some(percent) ==> 1 <= percent <= 100,
{
    proof {
        named_numbers();
    }
    if !is_between(value, single(MIN_SHOCK_INTENSITY), single(MAX_SHOCK_INTENSITY)) {
        return None;
    }
    match value.whole_number() {
        Some(number) => Some(number as u8),
        None => None,
    }
}

/// The duration in milliseconds that every provider takes for a setting.
pub open spec fn duration_of(value: Binary32) -> Option<u64> {
    if between(value, single(MIN_SHOCK_DURATION), single(MAX_SHOCK_DURATION)) {
        Some(value.thousandths() as u64)
    } else {
        None
    }
}

/// Reads the duration in milliseconds that every provider takes for a setting.
pub fn portable_duration(value: Binary32) -> (duration: Option<u64>)
    ensures
        duration == duration_of(value),
        duration matches Some(millis) ==> 300 <= millis <= 3000,
{
    proof {
        named_numbers();
    }
    if !is_between(value, single(MIN_SHOCK_DURATION), single(MAX_SHOCK_DURATION)) {
        return None;
    }
    Some(value.in_thousandths())
}

/// The shocks that settings allow.
#[derive(Clone, Copy, Debug, Eq, PartialEq, Structural)]
pub struct ShockBounds {
    pub minimum_intensity: u8,
    pub maximum_intensity: u8,
    pub minimum_duration_ms: u64,
    pub maximum_duration_ms: u64,
}

impl ShockBounds {
    /// Whether a shock is within the bounds.
    pub open spec fn hold(self, shock: ResolvedShock) -> bool {
        &&& self.minimum_intensity <= shock.intensity <= self.maximum_intensity
        &&& self.minimum_duration_ms <= shock.duration_ms <= self.maximum_duration_ms
    }
}

/// `rand::Rng::random_range`, on the generator that `rand::rng` hands out and
/// an inclusive range: the number lies in the range. Which number it is, is a
/// matter of chance, and nothing more is stated of it.
#[verifier::external_body]
fn random_between(minimum: u64, maximum: u64) -> (number: u64)
    requires
        minimum <= maximum,
    ensures
        minimum <= number <= maximum,
{
    rand::Rng::random_range(&mut rand::rng(), minimum..=maximum)
}

impl ShockSettings {
    /// The shocks that the settings allow, where they are such as every
    /// provider takes.
    pub open spec fn allowed(self) -> Option<ShockBounds> {
        let (low, high, short, long) = match self.mode {
            ShockMode::Fixed => (
                intensity_of(self.fixed.intensity),
                intensity_of(self.fixed.intensity),
                duration_of(self.fixed.duration_seconds),
                duration_of(self.fixed.duration_seconds),
            ),
            ShockMode::Interval => (
                intensity_of(self.interval.minimum_intensity),
                intensity_of(self.interval.maximum_intensity),
                duration_of(self.interval.minimum_duration_seconds),
                duration_of(self.interval.maximum_duration_seconds),
            ),
        };
        match (low, high, short, long) {
            (Some(low), Some(high), Some(short), Some(long)) => if low <= high && short <= long {
                Some(
                    ShockBounds {
                        minimum_intensity: low,
                        maximum_intensity: high,
                        minimum_duration_ms: short,
                        maximum_duration_ms: long,
                    },
                )
            } else {
                None
            },
            _ => None,
        }
    }

    /// Reads the shocks that the settings allow.
    pub fn bounds(&self) -> (bounds: Option<ShockBounds>)
        ensures
            bounds == self.allowed(),
            bounds matches Some(b) ==> 1 <= b.minimum_intensity <= b.maximum_intensity <= 100
                && 300 <= b.minimum_duration_ms <= b.maximum_duration_ms <= 3000,
    {
        let (low, high, short, long) = match self.mode {
            ShockMode::Fixed => (
                portable_intensity(self.fixed.intensity),
                portable_intensity(self.fixed.intensity),
                portable_duration(self.fixed.duration_seconds),
                portable_duration(self.fixed.duration_seconds),
            ),
            ShockMode::Interval => (
                portable_intensity(self.interval.minimum_intensity),
                portable_intensity(self.interval.maximum_intensity),
                portable_duration(self.interval.minimum_duration_seconds),
                portable_duration(self.interval.maximum_duration_seconds),
            ),
        };
        match (low, high, short, long) {
            (Some(low), Some(high), Some(short), Some(long)) => if low <= high && short <= long {
                Some(
                    ShockBounds {
                        minimum_intensity: low,
                        maximum_intensity: high,
                        minimum_duration_ms: short,
                        maximum_duration_ms: long,
                    },
                )
            } else {
                None
            },
            _ => None,
        }
    }

    /// Whether a draw of intensity and duration is one that the settings allow.
    pub open spec fn fair_draw(self, draw: ResolvedShock) -> bool {
        self.allowed() matches Some(bounds) ==> bounds.hold(draw)
    }

    /// The shock to send, given what was drawn from the allowed ones: the draw
    /// itself, and nothing where the settings allow no shock.
    pub fn resolve_with(&self, draw: ResolvedShock) -> (shock: Option<ResolvedShock>)
        requires
            self.fair_draw(draw),
        ensures
            shock == match self.allowed() {
                Some(_) => Some(draw),
                None => None,
            },
            self.mode == ShockMode::Fixed ==> shock == match (
                intensity_of(self.fixed.intensity),
                duration_of(self.fixed.duration_seconds),
            ) {
                (Some(intensity), Some(duration_ms)) => Some(
                    (ResolvedShock { intensity, duration_ms }),
                ),
                _ => None,
            },
    {
        match self.bounds() {
            Some(_) => Some(draw),
            None => None,
        }
    }

    /// Whether `shock` is one that the settings may come to: nothing where they
    /// allow no shock, else an allowed one.
    pub open spec fn may_resolve_to(self, shock: Option<ResolvedShock>) -> bool {
        match self.allowed() {
            Some(bounds) => shock matches Some(shock) && bounds.hold(shock),
            None => shock is None,
        }
    }

    /// The weakest and shortest shock that the settings may come to.
    pub open spec fn least(self) -> Option<ResolvedShock> {
        match self.allowed() {
            Some(bounds) => Some(
                ResolvedShock {
                    intensity: bounds.minimum_intensity,
                    duration_ms: bounds.minimum_duration_ms,
                },
            ),
            None => None,
        }
    }

    /// Draws the shock to send. With fixed settings there is one to draw.
    pub fn resolve(&self) -> (shock: Option<ResolvedShock>)
        ensures
            self.may_resolve_to(shock),
            shock matches Some(shock) ==> 1 <= shock.intensity <= 100 && 300 <= shock.duration_ms
                <= 3000,
    {
        match self.bounds() {
            Some(bounds) => {
                let intensity: u64 = random_between(
                    bounds.minimum_intensity as u64,
                    bounds.maximum_intensity as u64,
                );
                let duration_ms: u64 = random_between(
                    bounds.minimum_duration_ms,
                    bounds.maximum_duration_ms,
                );
                self.resolve_with(ResolvedShock { intensity: intensity as u8, duration_ms })
            },
            None => None,
        }
    }

    /// The settings in words.
    pub open spec fn description(self) -> Seq<char> {
        match self.mode {
            ShockMode::Fixed => self.fixed.intensity.text_rounded() + "% for "@
                + self.fixed.duration_seconds.text_tenths() + " s"@,
            ShockMode::Interval => self.interval.minimum_intensity.text_rounded() + "–"@
                + self.interval.maximum_intensity.text_rounded() + "% for "@
                + self.interval.minimum_duration_seconds.text_tenths() + "–"@
                + self.interval.maximum_duration_seconds.text_tenths() + " s"@,
        }
    }

    /// Renders the settings in words.
    pub fn summary(&self) -> (text: String)
        ensures
            text@ == self.description(),
    {
        match self.mode {
            ShockMode::Fixed => {
                let duration = self.fixed.duration_seconds.tenths_text();
                self.fixed.intensity.rounded_text().concat("% for ").concat(
                    duration.as_str(),
                ).concat(" s")
            },
            ShockMode::Interval => {
                let high = self.interval.maximum_intensity.rounded_text();
                let short = self.interval.minimum_duration_seconds.tenths_text();
                let long = self.interval.maximum_duration_seconds.tenths_text();
                self.interval.minimum_intensity.rounded_text().concat("–").concat(
                    high.as_str(),
                ).concat("% for ").concat(short.as_str()).concat("–").concat(
                    long.as_str(),
                ).concat(" s")
            },
        }
    }

    /// The settings with each upper bound raised to the lower one where it was
    /// below it.
    pub open spec fn ordered(self) -> ShockSettings {
        let interval = self.interval;
        ShockSettings {
            interval: ShockIntervalSettings {
                maximum_intensity: if interval.minimum_intensity.above(interval.maximum_intensity) {
                    interval.minimum_intensity
                } else {
                    interval.maximum_intensity
                },
                maximum_duration_seconds: if interval.minimum_duration_seconds.above(
                    interval.maximum_duration_seconds,
                ) {
                    interval.minimum_duration_seconds
                } else {
                    interval.maximum_duration_seconds
                },
                ..interval
            },
            ..self
        }
    }

    /// Raises each upper bound to the lower one where it is below it.
    pub fn keep_ordered(&mut self)
        ensures
            *final(self) == old(self).ordered(),
    {
        if self.interval.minimum_intensity.is_above(self.interval.maximum_intensity) {
            self.interval.maximum_intensity = self.interval.minimum_intensity;
        }
        if self.interval.minimum_duration_seconds.is_above(
            self.interval.maximum_duration_seconds,
        ) {
            self.interval.maximum_duration_seconds = self.interval.minimum_duration_seconds;
        }
    }
}

/// A number among shock settings that can be edited.
#[derive(Clone, Copy, Debug, Eq, PartialEq, Structural)]
pub enum ShockField {
    MinimumIntensity,
    MaximumIntensity,
    MinimumDuration,
    MaximumDuration,
    Intensity,
    Duration,
}

impl ShockField {
    /// Whether the number is a duration; else it is an intensity.
    pub open spec fn timed(self) -> bool {
        match self {
            ShockField::MinimumDuration => true,
            ShockField::MaximumDuration => true,
            ShockField::Duration => true,
            _ => false,
        }
    }

    /// Whether the number is a duration; else it is an intensity.
    pub fn is_duration(self) -> (duration: bool)
        ensures
            duration == self.timed(),
    {
        match self {
            ShockField::MinimumDuration => true,
            ShockField::MaximumDuration => true,
            ShockField::Duration => true,
            _ => false,
        }
    }

    /// What the number is called.
    pub fn label(self) -> (label: &'static str)
        ensures
            label@ == match self {
                ShockField::MinimumIntensity => "Minimum intensity"@,
                ShockField::MaximumIntensity => "Maximum intensity"@,
                ShockField::MinimumDuration => "Minimum duration"@,
                ShockField::MaximumDuration => "Maximum duration"@,
                ShockField::Intensity => "Intensity"@,
                ShockField::Duration => "Duration"@,
            },
    {
        match self {
            ShockField::MinimumIntensity => "Minimum intensity",
            ShockField::MaximumIntensity => "Maximum intensity",
            ShockField::MinimumDuration => "Minimum duration",
            ShockField::MaximumDuration => "Maximum duration",
            ShockField::Intensity => "Intensity",
            ShockField::Duration => "Duration",
        }
    }

    /// What follows the number.
    pub fn suffix(self) -> (suffix: &'static str)
        ensures
            suffix@ == if self.timed() {
                " s"@
            } else {
                "%"@
            },
    {
        if self.is_duration() {
            " s"
        } else {
            "%"
        }
    }

    /// The least and the greatest number that can be entered.
    pub open spec fn limits(self) -> (Binary32, Binary32) {
        if self.timed() {
            (single(MIN_SHOCK_DURATION), single(MAX_SHOCK_DURATION))
        } else {
            (single(MIN_SHOCK_INTENSITY), single(MAX_SHOCK_INTENSITY))
        }
    }

    /// The least and the greatest number that can be entered.
    pub fn range(self) -> (range: (Binary32, Binary32))
        ensures
            range == self.limits(),
    {
        if self.is_duration() {
            (single(MIN_SHOCK_DURATION), single(MAX_SHOCK_DURATION))
        } else {
            (single(MIN_SHOCK_INTENSITY), single(MAX_SHOCK_INTENSITY))
        }
    }
}

/// The numbers that can be edited in a mode, in their order.
pub open spec fn fields_of(mode: ShockMode) -> Seq<ShockField> {
    match mode {
        ShockMode::Interval => seq![
            ShockField::MinimumIntensity,
            ShockField::MaximumIntensity,
            ShockField::MinimumDuration,
            ShockField::MaximumDuration,
        ],
        ShockMode::Fixed => seq![ShockField::Intensity, ShockField::Duration],
    }
}

/// Lists the numbers that can be edited in a mode.
pub fn editor_fields(mode: ShockMode) -> (fields: Vec<ShockField>)
    ensures
        fields@ == fields_of(mode),
{
    let mut fields: Vec<ShockField> = Vec::new();
    match mode {
        ShockMode::Interval => {
            fields.push(ShockField::MinimumIntensity);
            fields.push(ShockField::MaximumIntensity);
            fields.push(ShockField::MinimumDuration);
            fields.push(ShockField::MaximumDuration);
        },
        ShockMode::Fixed => {
            fields.push(ShockField::Intensity);
            fields.push(ShockField::Duration);
        },
    }
    assert(fields@ =~= fields_of(mode));
    fields
}

impl ShockSettings {
    /// One number of the settings.
    pub open spec fn at(self, field: ShockField) -> Binary32 {
        match field {
            ShockField::MinimumIntensity => self.interval.minimum_intensity,
            ShockField::MaximumIntensity => self.interval.maximum_intensity,
            ShockField::MinimumDuration => self.interval.minimum_duration_seconds,
            ShockField::MaximumDuration => self.interval.maximum_duration_seconds,
            ShockField::Intensity => self.fixed.intensity,
            ShockField::Duration => self.fixed.duration_seconds,
        }
    }

    /// The settings with one number changed.
    pub open spec fn with(self, field: ShockField, value: Binary32) -> ShockSettings {
        let (interval, fixed) = (self.interval, self.fixed);
        match field {
            ShockField::MinimumIntensity => ShockSettings {
                interval: ShockIntervalSettings { minimum_intensity: value, ..interval },
                ..self
            },
            ShockField::MaximumIntensity => ShockSettings {
                interval: ShockIntervalSettings { maximum_intensity: value, ..interval },
                ..self
            },
            ShockField::MinimumDuration => ShockSettings {
                interval: ShockIntervalSettings { minimum_duration_seconds: value, ..interval },
                ..self
            },
            ShockField::MaximumDuration => ShockSettings {
                interval: ShockIntervalSettings { maximum_duration_seconds: value, ..interval },
                ..self
            },
            ShockField::Intensity => ShockSettings {
                fixed: ShockFixedSettings { intensity: value, ..fixed },
                ..self
            },
            ShockField::Duration => ShockSettings {
                fixed: ShockFixedSettings { duration_seconds: value, ..fixed },
                ..self
            },
        }
    }

    /// One number of the settings.
    pub fn get(&self, field: ShockField) -> (value: Binary32)
        ensures
            value == self.at(field),
    {
        match field {
            ShockField::MinimumIntensity => self.interval.minimum_intensity,
            ShockField::MaximumIntensity => self.interval.maximum_intensity,
            ShockField::MinimumDuration => self.interval.minimum_duration_seconds,
            ShockField::MaximumDuration => self.interval.maximum_duration_seconds,
            ShockField::Intensity => self.fixed.intensity,
            ShockField::Duration => self.fixed.duration_seconds,
        }
    }

    /// Changes one number of the settings, and raises the upper bounds where
    /// that puts them below the lower ones.
    pub fn edit(&mut self, field: ShockField, value: Binary32)
        ensures
            *final(self) == old(self).with(field, value).ordered(),
            final(self).mode == old(self).mode,
            final(self).fixed.intensity == if field is Intensity {
                value
            } else {
                old(self).fixed.intensity
            },
            final(self).fixed.duration_seconds == if field is Duration {
                value
            } else {
                old(self).fixed.duration_seconds
            },
            final(self).interval.minimum_intensity == if field is MinimumIntensity {
                value
            } else {
                old(self).interval.minimum_intensity
            },
            final(self).interval.minimum_duration_seconds == if field is MinimumDuration {
                value
            } else {
                old(self).interval.minimum_duration_seconds
            },
            !(field is MaximumIntensity) ==> final(self).interval.maximum_intensity
                == old(self).interval.maximum_intensity || final(self).interval.maximum_intensity
                == final(self).interval.minimum_intensity,
            !(field is MaximumDuration) ==> final(self).interval.maximum_duration_seconds
                == old(self).interval.maximum_duration_seconds
                || final(self).interval.maximum_duration_seconds
                == final(self).interval.minimum_duration_seconds,
    {
        match field {
            ShockField::MinimumIntensity => {
                self.interval.minimum_intensity = value;
            },
            ShockField::MaximumIntensity => {
                self.interval.maximum_intensity = value;
            },
            ShockField::MinimumDuration => {
                self.interval.minimum_duration_seconds = value;
            },
            ShockField::MaximumDuration => {
                self.interval.maximum_duration_seconds = value;
            },
            ShockField::Intensity => {
                self.fixed.intensity = value;
            },
            ShockField::Duration => {
                self.fixed.duration_seconds = value;
            },
        }
        self.keep_ordered();
    }
}

/// Fixed settings that every provider takes resolve to exactly themselves,
/// whatever chance does.
pub proof fn fixed_settings_resolve_to_themselves(
    settings: ShockSettings,
    shock: Option<ResolvedShock>,
)
    requires
        settings.mode == ShockMode::Fixed,
        settings.may_resolve_to(shock),
    ensures
        shock == match (
            intensity_of(settings.fixed.intensity),
            duration_of(settings.fixed.duration_seconds),
        ) {
            (Some(intensity), Some(duration_ms)) => Some(
                (ResolvedShock { intensity, duration_ms }),
            ),
            _ => None,
        },
{
}

/// Raising the upper bounds once is enough.
pub proof fn ordering_is_idempotent(settings: ShockSettings)
    ensures
        settings.ordered().ordered() == settings.ordered(),
        !settings.ordered().interval.minimum_intensity.above(
            settings.ordered().interval.maximum_intensity,
        ),
        !settings.ordered().interval.minimum_duration_seconds.above(
            settings.ordered().interval.maximum_duration_seconds,
        ),
{
}

/// Whether a trigger causes shocks, and which.
#[derive(Clone, Copy, Debug, PartialEq)]
pub struct TriggerSettings {
    pub enabled: bool,
    pub shock: ShockSettings,
}

/// Which abilities count.
#[derive(Clone, Debug, Eq, PartialEq)]
pub enum AbilityFilter {
    All,
    Selected(BTreeSet<u32>),
}

impl Default for AbilityFilter {
    fn default() -> (filter: Self)
        ensures
            filter == AbilityFilter::All,
    {
        AbilityFilter::All
    }
}

/// Whether two filters let the same abilities count, and in the same way.
pub open spec fn same_filter(a: AbilityFilter, b: AbilityFilter) -> bool {
    match (a, b) {
        (AbilityFilter::All, AbilityFilter::All) => true,
        (AbilityFilter::Selected(a), AbilityFilter::Selected(b)) => a@ == b@,
        _ => false,
    }
}

impl AbilityFilter {
    /// Whether an ability counts.
    pub open spec fn admits(self, ability_slot: u32) -> bool {
        match self {
            AbilityFilter::All => true,
            AbilityFilter::Selected(slots) => slots@.contains(ability_slot),
        }
    }

    /// Whether an ability counts.
    pub fn accepts(&self, ability_slot: u32) -> (accepted: bool)
        ensures
            accepted == self.admits(ability_slot),
    {
        match self {
            AbilityFilter::All => true,
            AbilityFilter::Selected(slots) => slots.contains(&ability_slot),
        }
    }

    /// A copy of the filter.
    pub fn duplicate(&self) -> (copy: Self)
        ensures
            same_filter(copy, *self),
    {
        match self {
            AbilityFilter::All => AbilityFilter::All,
            AbilityFilter::Selected(slots) => AbilityFilter::Selected(slots.clone()),
        }
    }

    /// Whether no ability counts.
    pub fn is_empty(&self) -> (empty: bool)
        ensures
            empty == (self matches AbilityFilter::Selected(slots) && slots@.is_empty()),
    {
        match self {
            AbilityFilter::All => false,
            AbilityFilter::Selected(slots) => slots.is_empty(),
        }
    }

    /// Lets one ability count or not. A filter that let all abilities count
    /// becomes a selection of all that are shown but this one.
    pub fn set(&mut self, slot: u32, selected: bool, shown: &BTreeSet<u32>)
        ensures
            match *old(self) {
                AbilityFilter::All => *final(self) matches AbilityFilter::Selected(slots) && slots@
                    == shown@.remove(slot),
                AbilityFilter::Selected(before) => {
                    &&& *final(self) matches AbilityFilter::Selected(slots)
                    &&& slots@ == if selected {
                        before@.insert(slot)
                    } else {
                        before@.remove(slot)
                    }
                },
            },
    {
        match self {
            AbilityFilter::All => {
                let mut slots = shown.clone();
                slots.remove(&slot);
                *self = AbilityFilter::Selected(slots);
            },
            AbilityFilter::Selected(slots) => {
                if selected {
                    slots.insert(slot);
                } else {
                    slots.remove(&slot);
                }
            },
        }
    }

    /// Lets all abilities count.
    pub fn select_all(&mut self)
        ensures
            *final(self) == AbilityFilter::All,
    {
        *self = AbilityFilter::All;
    }

    /// Lets no ability count.
    pub fn select_none(&mut self)
        ensures
            *final(self) matches AbilityFilter::Selected(slots) && slots@ == Set::<u32>::empty(),
    {
        *self = AbilityFilter::Selected(BTreeSet::new());
    }
}

/// A trigger and the abilities that count for it.
#[derive(Clone, Debug, PartialEq)]
pub struct AbilityTriggerSettings {
    pub trigger: TriggerSettings,
    pub ability_filter: AbilityFilter,
}

/// What a shock can be caused by.
#[derive(Clone, Copy, Debug, Eq, PartialEq, Structural)]
pub enum TriggerKind {
    Death,
    AbilityUse,
    AbilityCooldownReady,
}

impl TriggerKind {
    /// The trigger in the middle of a sentence.
    pub open spec fn name(self) -> Seq<char> {
        match self {
            TriggerKind::Death => "death"@,
            TriggerKind::AbilityUse => "ability use"@,
            TriggerKind::AbilityCooldownReady => "ability cooldown ready"@,
        }
    }

    /// The trigger in the middle of a sentence.
    pub fn label(self) -> (label: &'static str)
        ensures
            label@ == self.name(),
    {
        match self {
            TriggerKind::Death => "death",
            TriggerKind::AbilityUse => "ability use",
            TriggerKind::AbilityCooldownReady => "ability cooldown ready",
        }
    }

    /// The trigger as a heading.
    pub open spec fn title(self) -> Seq<char> {
        match self {
            TriggerKind::Death => "Death"@,
            TriggerKind::AbilityUse => "Ability use"@,
            TriggerKind::AbilityCooldownReady => "Cooldown ready"@,
        }
    }
}

/// The trigger as a heading.
pub fn trigger_display_label(kind: TriggerKind) -> (label: &'static str)
    ensures
        label@ == kind.title(),
{
    match kind {
        TriggerKind::Death => "Death",
        TriggerKind::AbilityUse => "Ability use",
        TriggerKind::AbilityCooldownReady => "Cooldown ready",
    }
}

/// The trigger that settings are copied from unless another is chosen.
pub open spec fn usual_copy_source(destination: TriggerKind) -> TriggerKind {
    match destination {
        TriggerKind::Death => TriggerKind::AbilityUse,
        _ => TriggerKind::Death,
    }
}

/// The trigger that settings are copied from unless another is chosen: never
/// the one they are copied to.
pub fn first_copy_source(destination: TriggerKind) -> (source: TriggerKind)
    ensures
        source == usual_copy_source(destination),
        source != destination,
{
    match destination {
        TriggerKind::Death => TriggerKind::AbilityUse,
        TriggerKind::AbilityUse => TriggerKind::Death,
        TriggerKind::AbilityCooldownReady => TriggerKind::Death,
    }
}

/// The settings of all triggers.
#[derive(Clone, Debug, PartialEq)]
pub struct TriggerSettingsSet {
    pub death: TriggerSettings,
    pub ability_use: AbilityTriggerSettings,
    pub ability_cooldown_ready: AbilityTriggerSettings,
}

/// The settings before anyone changed them: deaths cause the weakest shock,
/// abilities none.
pub open spec fn default_triggers() -> TriggerSettingsSet {
    TriggerSettingsSet {
        death: TriggerSettings { enabled: true, shock: default_shock() },
        ability_use: AbilityTriggerSettings {
            trigger: TriggerSettings { enabled: false, shock: default_shock() },
            ability_filter: AbilityFilter::All,
        },
        ability_cooldown_ready: AbilityTriggerSettings {
            trigger: TriggerSettings { enabled: false, shock: default_shock() },
            ability_filter: AbilityFilter::All,
        },
    }
}

impl Default for TriggerSettingsSet {
    fn default() -> (set: Self)
        ensures
            set == default_triggers(),
    {
        let shock = ShockSettings::default();
        Self {
            death: TriggerSettings { enabled: true, shock },
            ability_use: AbilityTriggerSettings {
                trigger: TriggerSettings { enabled: false, shock },
                ability_filter: AbilityFilter::All,
            },
            ability_cooldown_ready: AbilityTriggerSettings {
                trigger: TriggerSettings { enabled: false, shock },
                ability_filter: AbilityFilter::All,
            },
        }
    }
}

impl TriggerSettingsSet {
    /// The settings of one trigger.
    pub open spec fn of(self, kind: TriggerKind) -> TriggerSettings {
        match kind {
            TriggerKind::Death => self.death,
            TriggerKind::AbilityUse => self.ability_use.trigger,
            TriggerKind::AbilityCooldownReady => self.ability_cooldown_ready.trigger,
        }
    }

    /// These settings with those of one trigger changed.
    pub open spec fn with(self, kind: TriggerKind, trigger: TriggerSettings) -> TriggerSettingsSet {
        match kind {
            TriggerKind::Death => TriggerSettingsSet { death: trigger, ..self },
            TriggerKind::AbilityUse => TriggerSettingsSet {
                ability_use: AbilityTriggerSettings { trigger, ..self.ability_use },
                ..self
            },
            TriggerKind::AbilityCooldownReady => TriggerSettingsSet {
                ability_cooldown_ready: AbilityTriggerSettings {
                    trigger,
                    ..self.ability_cooldown_ready
                },
                ..self
            },
        }
    }

    /// The abilities that count for one trigger, where it is about abilities.
    pub open spec fn filter_of(self, kind: TriggerKind) -> Option<AbilityFilter> {
        match kind {
            TriggerKind::Death => None,
            TriggerKind::AbilityUse => Some(self.ability_use.ability_filter),
            TriggerKind::AbilityCooldownReady => Some(self.ability_cooldown_ready.ability_filter),
        }
    }

    /// These settings with the abilities that count for one trigger changed.
    pub open spec fn with_filter(
        self,
        kind: TriggerKind,
        ability_filter: AbilityFilter,
    ) -> TriggerSettingsSet {
        match kind {
            TriggerKind::Death => self,
            TriggerKind::AbilityUse => TriggerSettingsSet {
                ability_use: AbilityTriggerSettings { ability_filter, ..self.ability_use },
                ..self
            },
            TriggerKind::AbilityCooldownReady => TriggerSettingsSet {
                ability_cooldown_ready: AbilityTriggerSettings {
                    ability_filter,
                    ..self.ability_cooldown_ready
                },
                ..self
            },
        }
    }

    /// The settings of one trigger.
    pub fn get(&self, kind: TriggerKind) -> (trigger: &TriggerSettings)
        ensures
            *trigger == self.of(kind),
    {
        match kind {
            TriggerKind::Death => &self.death,
            TriggerKind::AbilityUse => &self.ability_use.trigger,
            TriggerKind::AbilityCooldownReady => &self.ability_cooldown_ready.trigger,
        }
    }

    /// The settings of one trigger, to be changed.
    pub fn get_mut(&mut self, kind: TriggerKind) -> (trigger: &mut TriggerSettings)
        ensures
            *trigger == old(self).of(kind),
            *final(self) == old(self).with(kind, *final(trigger)),
    {
        match kind {
            TriggerKind::Death => &mut self.death,
            TriggerKind::AbilityUse => &mut self.ability_use.trigger,
            TriggerKind::AbilityCooldownReady => &mut self.ability_cooldown_ready.trigger,
        }
    }

    /// The abilities that count for one trigger, where it is about abilities.
    pub fn ability_filter(&self, kind: TriggerKind) -> (filter: Option<&AbilityFilter>)
        ensures
            match filter {
                Some(filter) => self.filter_of(kind) == Some(*filter),
                None => self.filter_of(kind) is None,
            },
    {
        match kind {
            TriggerKind::Death => None,
            TriggerKind::AbilityUse => Some(&self.ability_use.ability_filter),
            TriggerKind::AbilityCooldownReady => Some(&self.ability_cooldown_ready.ability_filter),
        }
    }

    /// The abilities that count for one trigger, to be changed.
    pub fn ability_filter_mut(&mut self, kind: TriggerKind) -> (filter: Option<&mut AbilityFilter>)
        ensures
            match filter {
                Some(filter) => {
                    &&& old(self).filter_of(kind) == Some(*filter)
                    &&& *final(self) == old(self).with_filter(kind, *final(filter))
                },
                None => old(self).filter_of(kind) is None && *final(self) == *old(self),
            },
    {
        match kind {
            TriggerKind::Death => None,
            TriggerKind::AbilityUse => Some(&mut self.ability_use.ability_filter),
            TriggerKind::AbilityCooldownReady => Some(
                &mut self.ability_cooldown_ready.ability_filter,
            ),
        }
    }
}

/// After a number was edited it is the one that was entered, and neither the
/// mode nor any other number has changed; but an upper bound that lies below
/// its lower bound is raised to it.
pub proof fn edits_change_one_number(
    settings: ShockSettings,
    field: ShockField,
    value: Binary32,
    edited: ShockSettings,
)
    requires
        edited == settings.with(field, value).ordered(),
    ensures
        edited.mode == settings.mode,
        edited.fixed.intensity == if field is Intensity {
            value
        } else {
            settings.fixed.intensity
        },
        edited.fixed.duration_seconds == if field is Duration {
            value
        } else {
            settings.fixed.duration_seconds
        },
        edited.interval.minimum_intensity == if field is MinimumIntensity {
            value
        } else {
            settings.interval.minimum_intensity
        },
        edited.interval.minimum_duration_seconds == if field is MinimumDuration {
            value
        } else {
            settings.interval.minimum_duration_seconds
        },
        ({
            let low = edited.interval.minimum_intensity;
            let high = if field is MaximumIntensity {
                value
            } else {
                settings.interval.maximum_intensity
            };
            edited.interval.maximum_intensity == if !low.nan() && !high.nan() && low.value()
                > high.value() {
                low
            } else {
                high
            }
        }),
        ({
            let short = edited.interval.minimum_duration_seconds;
            let long = if field is MaximumDuration {
                value
            } else {
                settings.interval.maximum_duration_seconds
            };
            edited.interval.maximum_duration_seconds == if !short.nan() && !long.nan()
                && short.value() > long.value() {
                short
            } else {
                long
            }
        }),
{
}

/// What is read back after an edit: the edited number is the one entered, any
/// other is the one that was there, and an upper bound is never read below
/// what was entered or was there.
pub proof fn edits_are_read_back(
    settings: ShockSettings,
    field: ShockField,
    value: Binary32,
    edited: ShockSettings,
    other: ShockField,
)
    requires
        edited == settings.with(field, value).ordered(),
    ensures
        ({
            let entered = if other == field {
                value
            } else {
                settings.at(other)
            };
            let read = edited.at(other);
            match other {
                ShockField::MaximumIntensity => read == entered || (read
                    == edited.interval.minimum_intensity && read.value() > entered.value()),
                ShockField::MaximumDuration => read == entered || (read
                    == edited.interval.minimum_duration_seconds && read.value()
                    > entered.value()),
                _ => read == entered,
            }
        }),
        settings.at(ShockField::MinimumIntensity) == settings.interval.minimum_intensity,
        settings.at(ShockField::MaximumIntensity) == settings.interval.maximum_intensity,
        settings.at(ShockField::MinimumDuration) == settings.interval.minimum_duration_seconds,
        settings.at(ShockField::MaximumDuration) == settings.interval.maximum_duration_seconds,
        settings.at(ShockField::Intensity) == settings.fixed.intensity,
        settings.at(ShockField::Duration) == settings.fixed.duration_seconds,
{
}

/// Ordering settings touches nothing but an upper bound below its lower bound.
pub proof fn ordering_raises_upper_bounds_alone(settings: ShockSettings)
    ensures
        settings.ordered().mode == settings.mode,
        settings.ordered().fixed == settings.fixed,
        settings.ordered().interval.minimum_intensity == settings.interval.minimum_intensity,
        settings.ordered().interval.minimum_duration_seconds
            == settings.interval.minimum_duration_seconds,
        settings.interval.minimum_intensity.value() <= settings.interval.maximum_intensity.value()
            ==> settings.ordered().interval.maximum_intensity
            == settings.interval.maximum_intensity,
        settings.interval.minimum_duration_seconds.value()
            <= settings.interval.maximum_duration_seconds.value()
            ==> settings.ordered().interval.maximum_duration_seconds
            == settings.interval.maximum_duration_seconds,
        settings.interval.minimum_intensity.above(settings.interval.maximum_intensity)
            ==> settings.ordered().interval.maximum_intensity
            == settings.interval.minimum_intensity,
        settings.interval.minimum_duration_seconds.above(
            settings.interval.maximum_duration_seconds,
        ) ==> settings.ordered().interval.maximum_duration_seconds
            == settings.interval.minimum_duration_seconds,
{
}

/// A setting is taken for an intensity if and only if it is that whole number
/// of percent, from one to one hundred.
pub proof fn intensities_are_whole_percentages(value: Binary32, percent: u8)
    ensures
        intensity_of(value) == Some(percent) <==> value.finite() && value.value() == percent * pow2(
            149,
        ) && 1 <= percent <= 100,
{
    named_numbers();
    let unit = pow2(149) as int;
    vstd::arithmetic::power2::lemma_pow2_pos(149);
    let found = value.value() / unit;
    if value.finite() && value.value() == percent * unit && 1 <= percent <= 100 {
        vstd::arithmetic::div_mod::lemma_div_multiples_vanish(percent as int, unit);
        vstd::arithmetic::div_mod::lemma_mod_multiples_basic(percent as int, unit);
        assert(unit * percent == percent * unit) by (nonlinear_arith);
        assert(unit <= percent * unit <= 100 * unit) by (nonlinear_arith)
            requires
                1 <= percent <= 100,
                unit > 0,
        ;
    }
    if intensity_of(value) == Some(percent) {
        vstd::arithmetic::div_mod::lemma_fundamental_div_mod(value.value(), unit);
        assert(value.value() == found * unit) by (nonlinear_arith)
            requires
                value.value() == unit * found + 0,
        ;
        assert(1 <= found <= 100) by (nonlinear_arith)
            requires
                unit <= found * unit <= 100 * unit,
                unit > 0,
        ;
    }
}

/// A setting is taken for a duration if and only if it lies between three
/// tenths of a second and three seconds, and the duration is the number of
/// milliseconds nearest to it.
pub proof fn durations_are_the_nearest_milliseconds(value: Binary32, millis: u64)
    ensures
        duration_of(value) is Some <==> value.finite() && 0x99_999a * pow2(124) <= value.value()
            <= 3 * pow2(149),
        duration_of(value) matches Some(taken) ==> {
            &&& 300 <= taken <= 3000
            &&& millis * pow2(149) <= 1000 * value.value() ==> millis <= taken
            &&& (2 * millis + 1) * pow2(149) <= 2000 * value.value() ==> millis < taken
            &&& 4000 * value.value() <= (4 * millis + 1) * pow2(149) ==> taken <= millis
        },
{
    named_numbers();
    if duration_of(value) is Some {
        thousandths_are_in_range(value);
        thousandths_are_near(value, millis as nat);
    }
}

/// Settings come to exactly the shocks that they speak of: those whose
/// intensity and duration lie between the two bounds, or are the fixed ones,
/// and none where a number is none that every provider takes or the bounds are
/// the wrong way round. The numbers of the other mode play no part.
pub proof fn settings_come_to_what_was_set(settings: ShockSettings, shock: ResolvedShock)
    ensures
        settings.mode == ShockMode::Fixed ==> (settings.may_resolve_to(Some(shock)) <==> {
            &&& intensity_of(settings.fixed.intensity) == Some(shock.intensity)
            &&& duration_of(settings.fixed.duration_seconds) == Some(shock.duration_ms)
        }),
        settings.mode == ShockMode::Interval ==> (settings.may_resolve_to(Some(shock)) <==> {
            &&& intensity_of(settings.interval.minimum_intensity) matches Some(low) && low
                <= shock.intensity
            &&& intensity_of(settings.interval.maximum_intensity) matches Some(high)
                && shock.intensity <= high
            &&& duration_of(settings.interval.minimum_duration_seconds) matches Some(short)
                && short <= shock.duration_ms
            &&& duration_of(settings.interval.maximum_duration_seconds) matches Some(long)
                && shock.duration_ms <= long
        }),
        settings.may_resolve_to(None) <==> !exists|shock: ResolvedShock|
            settings.may_resolve_to(Some(shock)),
{
    if let Some(bounds) = settings.allowed() {
        let least = ResolvedShock {
            intensity: bounds.minimum_intensity,
            duration_ms: bounds.minimum_duration_ms,
        };
        assert(settings.may_resolve_to(Some(least)));
    }
}

/// A shock that settings come to is as strong as they say: at least as strong
/// as the lower and at most as strong as the upper bound, or exactly as strong
/// as the fixed intensity.
pub proof fn shocks_are_as_strong_as_set(settings: ShockSettings, shock: ResolvedShock)
    requires
        settings.may_resolve_to(Some(shock)),
    ensures
        1 <= shock.intensity <= 100,
        300 <= shock.duration_ms <= 3000,
        settings.mode == ShockMode::Fixed ==> shock.intensity * pow2(149)
            == settings.fixed.intensity.value(),
        settings.mode == ShockMode::Interval ==> settings.interval.minimum_intensity.value()
            <= shock.intensity * pow2(149) <= settings.interval.maximum_intensity.value(),
{
    settings_come_to_what_was_set(settings, shock);
    let unit = pow2(149) as int;
    vstd::arithmetic::power2::lemma_pow2_pos(149);
    let (a, b, c, d) = match settings.mode {
        ShockMode::Fixed => (
            settings.fixed.intensity,
            settings.fixed.intensity,
            settings.fixed.duration_seconds,
            settings.fixed.duration_seconds,
        ),
        ShockMode::Interval => (
            settings.interval.minimum_intensity,
            settings.interval.maximum_intensity,
            settings.interval.minimum_duration_seconds,
            settings.interval.maximum_duration_seconds,
        ),
    };
    let (low, high) = (intensity_of(a)->0, intensity_of(b)->0);
    intensities_are_whole_percentages(a, low);
    intensities_are_whole_percentages(b, high);
    durations_are_the_nearest_milliseconds(c, 0);
    durations_are_the_nearest_milliseconds(d, 0);
    assert(low * unit <= shock.intensity * unit <= high * unit) by (nonlinear_arith)
        requires
            low <= shock.intensity <= high,
            unit > 0,
    ;
}

/// The numbers that can be edited in a mode are those that its shocks depend
/// on: each is listed once, and editing any other number changes no shock.
pub proof fn editable_numbers_are_those_that_matter(
    settings: ShockSettings,
    field: ShockField,
    value: Binary32,
)
    ensures
        fields_of(settings.mode).no_duplicates(),
        fields_of(settings.mode).contains(field) <==> (settings.mode == ShockMode::Fixed <==> (field
            is Intensity || field is Duration)),
        !fields_of(settings.mode).contains(field) ==> settings.with(field, value).allowed()
            == settings.allowed(),
{
    let fields = fields_of(settings.mode);
    match settings.mode {
        ShockMode::Interval => {
            assert(fields[0] is MinimumIntensity && fields[1] is MaximumIntensity);
            assert(fields[2] is MinimumDuration && fields[3] is MaximumDuration);
        },
        ShockMode::Fixed => {
            assert(fields[0] is Intensity && fields[1] is Duration);
        },
    }
}

/// What can be entered for a number is what every provider takes for it, but
/// that an intensity must be whole.
pub proof fn entered_numbers_are_taken(field: ShockField, value: Binary32)
    ensures
        field.timed() <==> (field is MinimumDuration || field is MaximumDuration
            || field is Duration),
        field.timed() ==> (duration_of(value) is Some <==> value.finite()
            && field.limits().0.value() <= value.value() <= field.limits().1.value()),
        !field.timed() ==> (intensity_of(value) is Some <==> value.whole() is Some
            && field.limits().0.value() <= value.value() <= field.limits().1.value()),
        !field.timed() ==> field.limits().0.value() == pow2(149) && field.limits().1.value() == 100
            * pow2(149),
        field.timed() ==> field.limits().0.value() == 0x99_999a * pow2(124)
            && field.limits().1.value() == 3 * pow2(149),
{
    named_numbers();
}

/// The settings in words hold the numbers of the mode, and no others: two
/// settings of one mode with the same numbers in it read the same.
pub proof fn settings_read_as_they_are(settings: ShockSettings)
    ensures
        settings.mode == ShockMode::Fixed ==> settings.description()
            == settings.fixed.intensity.text_rounded() + "% for "@
            + settings.fixed.duration_seconds.text_tenths() + " s"@,
        settings.mode == ShockMode::Interval ==> settings.description()
            == settings.interval.minimum_intensity.text_rounded() + "–"@
            + settings.interval.maximum_intensity.text_rounded() + "% for "@
            + settings.interval.minimum_duration_seconds.text_tenths() + "–"@
            + settings.interval.maximum_duration_seconds.text_tenths() + " s"@,
{
}

/// A filter lets an ability count if it lets all count or its slot was
/// selected, and not otherwise; filters that are the same agree on every
/// ability, and on whether abilities are selected one by one.
pub proof fn filters_admit_what_was_selected(
    filter: AbilityFilter,
    other: AbilityFilter,
    slot: u32,
)
    ensures
        filter is All ==> filter.admits(slot),
        filter matches AbilityFilter::Selected(slots) ==> (filter.admits(slot) <==> slots@.contains(
            slot,
        )),
        same_filter(filter, other) <==> {
            &&& (filter is All <==> other is All)
            &&& forall|slot: u32| #[trigger] filter.admits(slot) == other.admits(slot)
        },
{
    if let (AbilityFilter::Selected(slots), AbilityFilter::Selected(others)) = (filter, other) {
        if forall|slot: u32| #[trigger] filter.admits(slot) == other.admits(slot) {
            assert forall|slot: u32| slots@.contains(slot) == others@.contains(slot) by {
                assert(filter.admits(slot) == other.admits(slot));
            }
            assert(slots@ =~= others@);
        }
    }
}

/// Before anyone changes them, deaths cause shocks and abilities do not,
/// every ability would count, and any shock is the weakest and shortest.
pub proof fn defaults_are_mild(shock: Option<ResolvedShock>)
    ensures
        default_triggers().death.enabled,
        !default_triggers().ability_use.trigger.enabled,
        !default_triggers().ability_cooldown_ready.trigger.enabled,
        default_triggers().ability_use.ability_filter is All,
        default_triggers().ability_cooldown_ready.ability_filter is All,
        default_triggers().death.shock == default_shock(),
        default_triggers().ability_use.trigger.shock == default_shock(),
        default_triggers().ability_cooldown_ready.trigger.shock == default_shock(),
        default_shock().mode is Interval,
        default_shock().fixed.intensity.value() == pow2(149),
        default_shock().fixed.duration_seconds.value() == 0x99_999a * pow2(124),
        default_shock().may_resolve_to(shock) <==> shock == Some(
            (ResolvedShock { intensity: 1, duration_ms: 300 }),
        ),
{
    named_numbers();
    let settings = default_shock();
    vstd::arithmetic::power2::lemma_pow2_pos(149);
    vstd::arithmetic::power2::lemma_pow2_pos(124);
    intensities_are_whole_percentages(single(ONE), 1);
    three_tenths_are_in_order();
    durations_are_the_nearest_milliseconds(single(THREE_TENTHS), 300);
    assert(duration_of(single(THREE_TENTHS)) == Some(300u64));
    if let Some(shock) = shock {
        settings_come_to_what_was_set(settings, shock);
    }
    settings_come_to_what_was_set(settings, (ResolvedShock { intensity: 1, duration_ms: 300 }));
}

/// Three tenths lie below three, and less than a quarter of a thousandth above
/// three hundred thousandths.
proof fn three_tenths_are_in_order()
    ensures
        0x99_999a * pow2(124) <= 3 * pow2(149),
        4000 * (0x99_999a * pow2(124)) <= 1201 * pow2(149),
{
    vstd::arithmetic::power2::lemma2_to64();
    vstd::arithmetic::power2::lemma_pow2_adds(25, 124);
    let p = pow2(124);
    assert(0x99_999a * p <= 3 * (0x200_0000 * p)) by (nonlinear_arith)
        requires
            p >= 0,
    ;
    assert(4000 * (0x99_999a * p) <= 1201 * (0x200_0000 * p)) by (nonlinear_arith)
        requires
            p >= 0,
    ;
}

/// Each trigger has settings of its own: those of one are read where they were
/// written, and writing them changes neither the settings of another nor which
/// abilities count.
pub proof fn triggers_have_settings_of_their_own(
    set: TriggerSettingsSet,
    kind: TriggerKind,
    trigger: TriggerSettings,
    other: TriggerKind,
)
    ensures
        set.of(TriggerKind::Death) == set.death,
        set.of(TriggerKind::AbilityUse) == set.ability_use.trigger,
        set.of(TriggerKind::AbilityCooldownReady) == set.ability_cooldown_ready.trigger,
        set.with(kind, trigger).of(other) == if other == kind {
            trigger
        } else {
            set.of(other)
        },
        set.with(kind, trigger).death == if kind is Death {
            trigger
        } else {
            set.death
        },
        set.with(kind, trigger).ability_use.trigger == if kind is AbilityUse {
            trigger
        } else {
            set.ability_use.trigger
        },
        set.with(kind, trigger).ability_cooldown_ready.trigger == if kind is AbilityCooldownReady {
            trigger
        } else {
            set.ability_cooldown_ready.trigger
        },
        set.with(kind, trigger).ability_use.ability_filter == set.ability_use.ability_filter,
        set.with(kind, trigger).ability_cooldown_ready.ability_filter
            == set.ability_cooldown_ready.ability_filter,
{
}

/// Each trigger about abilities has a filter of its own, a death has none:
/// the filter of one is read where it was written, and writing it changes
/// nothing else.
pub proof fn triggers_have_filters_of_their_own(
    set: TriggerSettingsSet,
    kind: TriggerKind,
    filter: AbilityFilter,
    other: TriggerKind,
)
    ensures
        set.filter_of(TriggerKind::Death) is None,
        set.filter_of(TriggerKind::AbilityUse) == Some(set.ability_use.ability_filter),
        set.filter_of(TriggerKind::AbilityCooldownReady) == Some(
            set.ability_cooldown_ready.ability_filter,
        ),
        set.with_filter(kind, filter).filter_of(other) == if other == kind && !(kind is Death) {
            Some(filter)
        } else {
            set.filter_of(other)
        },
        set.with_filter(kind, filter).death == set.death,
        set.with_filter(kind, filter).ability_use.trigger == set.ability_use.trigger,
        set.with_filter(kind, filter).ability_cooldown_ready.trigger
            == set.ability_cooldown_ready.trigger,
{
}

/// No two triggers are called the same, in a sentence or as a heading.
pub proof fn triggers_have_names_of_their_own(kind: TriggerKind, other: TriggerKind)
    requires
        kind != other,
    ensures
        kind.name() != other.name(),
        kind.title() != other.title(),
{
    reveal_strlit("death");
    reveal_strlit("ability use");
    reveal_strlit("ability cooldown ready");
    reveal_strlit("Death");
    reveal_strlit("Ability use");
    reveal_strlit("Cooldown ready");
    assert(kind.name().len() != other.name().len());
    assert(kind.title().len() != other.title().len());
}

/// An ability that is let count or not counts or does not afterwards, and for
/// every other ability nothing changes, where abilities are selected one by
/// one. A filter that let all abilities count becomes a selection of those
/// shown, without the one that was touched. After all or none were selected,
/// all or none count.
pub proof fn selections_change_one_ability(other: u32)
    ensures
        forall|filter: &mut AbilityFilter, slot: u32, selected: bool, shown: &BTreeSet<u32>|
            #[trigger] call_ensures(AbilityFilter::set, (filter, slot, selected, shown), ()) ==> {
                &&& *final(filter) is Selected
                &&& *filter is Selected ==> (final(filter).admits(slot) <==> selected)
                &&& *filter is Selected && other != slot ==> (final(filter).admits(other)
                    <==> filter.admits(other))
                &&& *filter is All ==> (final(filter).admits(other) <==> other != slot
                    && shown@.contains(other))
            },
        forall|filter: &mut AbilityFilter|
            #[trigger] call_ensures(AbilityFilter::select_all, (filter,), ()) ==> final(filter).admits(other),
        forall|filter: &mut AbilityFilter|
            #[trigger] call_ensures(AbilityFilter::select_none, (filter,), ()) ==> !final(filter).admits(other),
{
}

/// Editing a number of the settings changes that number and no other, but that
/// an upper bound of the same pair is raised to its lower bound.
pub proof fn edited_numbers_stand_alone(other: ShockField)
    ensures
        forall|settings: &mut ShockSettings, field: ShockField, value: Binary32|
            #[trigger] call_ensures(ShockSettings::edit, (settings, field, value), ()) ==> {
                let entered = if other == field {
                    value
                } else {
                    settings.at(other)
                };
                let read = final(settings).at(other);
                &&& final(settings).mode == settings.mode
                &&& read == entered || (other is MaximumIntensity && read
                    == final(settings).interval.minimum_intensity && read.value()
                    > entered.value()) || (other is MaximumDuration && read
                    == final(settings).interval.minimum_duration_seconds && read.value()
                    > entered.value())
            },
{
}

} // verus!
