//! Shocks from the trigger that causes them to the report on their delivery.

use vstd::prelude::*;

use crate::binary32::{millis_text, seconds_of_millis, tenths_numeral, tenths_of};
use crate::bridge_record::{AbilityTrigger, LocalPlayerDeath};
use crate::provider::{ProviderError, ProviderKind, ProviderTarget};
use crate::settings::{ResolvedShock, StatusColor, TriggerKind};
use crate::text::{decimal, decimal_text, occurs, occurs_at};

verus! {

/// How many shocks may wait to be sent.
pub const SHOCK_QUEUE_CAPACITY: usize = 10;

/// After how many nanoseconds a waiting shock is no longer sent: half a minute.
pub const MAX_SHOCK_QUEUE_AGE: u64 = 30_000_000_000;

/// What caused a shock.
#[derive(Clone, Debug, Eq, PartialEq)]
pub struct TriggerIdentity {
    pub kind: TriggerKind,
    pub session_id: String,
    pub sequence: u64,
    pub client_time_ms: u64,
    pub detection: String,
    pub ability_slot: Option<u32>,
    pub ability_name: Option<String>,
    pub charges_before: Option<u64>,
    pub charges_after: Option<u64>,
}

/// The name of an ability in brackets, where it has one.
pub open spec fn name_note(name: Option<String>) -> Seq<char> {
    match name {
        Some(name) => " ("@ + name@ + ")"@,
        None => Seq::empty(),
    }
}

/// Writes the name of an ability in brackets, where it has one.
pub fn write_name_note(name: &Option<String>) -> (text: String)
    ensures
        text@ == name_note(*name),
{
    match name {
        Some(name) => " (".to_owned().concat(name.as_str()).concat(")"),
        None => String::new(),
    }
}

/// How the charges of an ability changed, where both counts are known.
pub open spec fn charges_note(before: Option<u64>, after: Option<u64>) -> Seq<char> {
    match (before, after) {
        (Some(before), Some(after)) => ", charges "@ + decimal(before as nat) + "→"@ + decimal(
            after as nat,
        ),
        _ => Seq::empty(),
    }
}

/// Writes how the charges of an ability changed, where both counts are known.
pub fn write_charges_note(before: Option<u64>, after: Option<u64>) -> (text: String)
    ensures
        text@ == charges_note(before, after),
{
    match (before, after) {
        (Some(before), Some(after)) => {
            let from = decimal_text(before as u128);
            let to = decimal_text(after as u128);
            ", charges ".to_owned().concat(from.as_str()).concat("→").concat(to.as_str())
        },
        _ => String::new(),
    }
}

impl TriggerIdentity {
    /// The trigger that a death is.
    pub open spec fn of_death(death: LocalPlayerDeath) -> TriggerIdentity {
        TriggerIdentity {
            kind: TriggerKind::Death,
            session_id: death.session_id,
            sequence: death.sequence,
            client_time_ms: death.client_time_ms,
            detection: death.detection,
            ability_slot: None,
            ability_name: None,
            charges_before: None,
            charges_after: None,
        }
    }

    /// The trigger that a death is.
    pub fn from_death(death: LocalPlayerDeath) -> (trigger: Self)
        ensures
            trigger == Self::of_death(death),
    {
        Self {
            kind: TriggerKind::Death,
            session_id: death.session_id,
            sequence: death.sequence,
            client_time_ms: death.client_time_ms,
            detection: death.detection,
            ability_slot: None,
            ability_name: None,
            charges_before: None,
            charges_after: None,
        }
    }

    /// The trigger that something happening to an ability is.
    pub open spec fn of_ability(kind: TriggerKind, ability: AbilityTrigger) -> TriggerIdentity {
        TriggerIdentity {
            kind,
            session_id: ability.session_id,
            sequence: ability.sequence,
            client_time_ms: ability.client_time_ms,
            detection: ability.detection,
            ability_slot: Some(ability.ability_slot),
            ability_name: ability.ability_name,
            charges_before: ability.charges_before,
            charges_after: ability.charges_after,
        }
    }

    /// The trigger that something happening to an ability is.
    pub fn from_ability(kind: TriggerKind, ability: AbilityTrigger) -> (trigger: Self)
        ensures
            trigger == Self::of_ability(kind, ability),
    {
        Self {
            kind,
            session_id: ability.session_id,
            sequence: ability.sequence,
            client_time_ms: ability.client_time_ms,
            detection: ability.detection,
            ability_slot: Some(ability.ability_slot),
            ability_name: ability.ability_name,
            charges_before: ability.charges_before,
            charges_after: ability.charges_after,
        }
    }

    /// The trigger in words.
    pub open spec fn description(self) -> Seq<char> {
        let place = self.session_id@ + "#"@ + decimal(self.sequence as nat);
        if self.kind == TriggerKind::Death {
            "death "@ + place
        } else {
            let slot = match self.ability_slot {
                Some(slot) => slot as nat,
                None => 0,
            };
            self.kind.name() + " slot "@ + decimal(slot) + name_note(self.ability_name)
                + ", detection "@ + self.detection@ + charges_note(
                self.charges_before,
                self.charges_after,
            ) + ", "@ + place
        }
    }

    /// Renders the trigger in words.
    pub fn status_description(&self) -> (text: String)
        ensures
            text@ == self.description(),
    {
        let sequence = decimal_text(self.sequence as u128);
        let place = self.session_id.clone().concat("#").concat(sequence.as_str());
        if self.kind == TriggerKind::Death {
            return "death ".to_owned().concat(place.as_str());
        }
        let slot: u32 = match self.ability_slot {
            Some(slot) => slot,
            None => 0,
        };
        let number = decimal_text(slot as u128);
        let name = write_name_note(&self.ability_name);
        let charges = write_charges_note(self.charges_before, self.charges_after);
        self.kind.label().to_owned().concat(" slot ").concat(number.as_str()).concat(
            name.as_str(),
        ).concat(", detection ").concat(self.detection.as_str()).concat(charges.as_str()).concat(
            ", ",
        ).concat(place.as_str())
    }
}

/// A shock and the circumstances under which it was asked for.
#[derive(Clone, Eq, PartialEq)]
pub struct ShockRequest {
    pub provider: ProviderKind,
    pub target: Option<ProviderTarget>,
    pub resolved: Option<ResolvedShock>,
    pub trigger: TriggerIdentity,
}

/// What became of a shock that was queued.
pub enum ShockCompletionResult {
    /// The provider was asked, and answered.
    Completed(Result<(), ProviderError>),
    /// The provider was not asked.
    Skipped { reason: &'static str },
}

/// A queued shock and what became of it.
pub struct ShockCompletion {
    pub request: ShockRequest,
    pub result: ShockCompletionResult,
}

/// What became of an attempt to queue a shock.
#[derive(Clone, Copy, Debug, Eq, PartialEq, Structural)]
pub enum ShockEnqueueResult {
    Accepted,
    Full,
    Disconnected,
}

/// Whether a shock has waited too long to be sent.
pub open spec fn waited_too_long(queued_at: u64, now: u64) -> bool {
    now >= queued_at + MAX_SHOCK_QUEUE_AGE
}

/// Whether a shock that was queued at one time has waited too long at another.
pub fn shock_job_expired_at(queued_at: u64, now: u64) -> (expired: bool)
    ensures
        expired == waited_too_long(queued_at, now),
{
    now.saturating_sub(queued_at) >= MAX_SHOCK_QUEUE_AGE
}

/// What to do with a queued shock when its turn comes.
#[derive(Clone, Copy, Debug, Eq, PartialEq, Structural)]
pub enum ShockDispatch {
    /// It waited too long.
    Expire,
    /// It lacks a target or a strength.
    Refuse,
    /// The target gets a shock of this strength.
    Send(ResolvedShock),
}

/// Decides what to do with a queued shock when its turn comes.
pub fn dispatch(request: &ShockRequest, queued_at: u64, now: u64) -> (decision: ShockDispatch)
    ensures
        decision == if waited_too_long(queued_at, now) {
            ShockDispatch::Expire
        } else {
            match (request.target, request.resolved) {
                (Some(_), Some(resolved)) => ShockDispatch::Send(resolved),
                _ => ShockDispatch::Refuse,
            }
        },
{
    if shock_job_expired_at(queued_at, now) {
        return ShockDispatch::Expire;
    }
    match (&request.target, request.resolved) {
        (Some(_), Some(resolved)) => ShockDispatch::Send(resolved),
        _ => ShockDispatch::Refuse,
    }
}

/// What becomes of a queued shock, given the decision on it and what the
/// provider answered if it was asked.
pub fn settle(decision: ShockDispatch, reply: Result<(), ProviderError>) -> (result:
    ShockCompletionResult)
    ensures
        match decision {
            ShockDispatch::Expire => result matches ShockCompletionResult::Skipped { reason }
                && reason@ == "expired"@,
            ShockDispatch::Refuse => result == ShockCompletionResult::Completed(
                Err(ProviderError::NotConnected),
            ),
            ShockDispatch::Send(_) => result == ShockCompletionResult::Completed(reply),
        },
{
    match decision {
        ShockDispatch::Expire => ShockCompletionResult::Skipped { reason: "expired" },
        ShockDispatch::Refuse => ShockCompletionResult::Completed(
            Err(ProviderError::NotConnected),
        ),
        ShockDispatch::Send(_) => ShockCompletionResult::Completed(reply),
    }
}

/// A shock that has waited too long stays too old, and was too old no earlier
/// than the limit after it was queued.
pub proof fn expiry_is_lasting(queued_at: u64, earlier: u64, later: u64)
    requires
        waited_too_long(queued_at, earlier),
        earlier <= later,
    ensures
        waited_too_long(queued_at, later),
        later - queued_at >= MAX_SHOCK_QUEUE_AGE,
{
}

/// The last news of a shock.
#[derive(Clone, Eq, PartialEq)]
pub enum ShockStatus {
    Sending(ShockRequest),
    Sent(ShockRequest),
    Failed { request: ShockRequest, error: String },
    Skipped { request: ShockRequest, reason: String },
}

impl ShockRequest {
    /// The name of the target, or that there is none.
    pub open spec fn target_name(self) -> Seq<char> {
        match self.target {
            Some(target) => target.name@,
            None => "no target"@,
        }
    }

    /// The strength of the shock in words.
    pub open spec fn strength(self) -> Seq<char> {
        match self.resolved {
            Some(resolved) => decimal(resolved.intensity as nat) + "% for "@ + tenths_numeral(
                tenths_of(seconds_of_millis(resolved.duration_ms as nat)),
            ) + " s"@,
            None => "settings unavailable"@,
        }
    }

    /// Writes the strength of the shock in words.
    fn write_strength(&self) -> (text: String)
        ensures
            text@ == self.strength(),
    {
        match self.resolved {
            Some(resolved) => {
                let duration = millis_text(resolved.duration_ms);
                decimal_text(resolved.intensity as u128).concat("% for ").concat(
                    duration.as_str(),
                ).concat(" s")
            },
            None => "settings unavailable".to_owned(),
        }
    }

    /// The name of the target, or that there is none.
    fn write_target_name(&self) -> (text: String)
        ensures
            text@ == self.target_name(),
    {
        match &self.target {
            Some(target) => target.name.clone(),
            None => "no target".to_owned(),
        }
    }
}

impl ShockStatus {
    /// The shock that the news is about.
    pub open spec fn about(self) -> ShockRequest {
        match self {
            ShockStatus::Sending(request) => request,
            ShockStatus::Sent(request) => request,
            ShockStatus::Failed { request, .. } => request,
            ShockStatus::Skipped { request, .. } => request,
        }
    }

    /// The shock that the news is about.
    pub fn request(&self) -> (request: &ShockRequest)
        ensures
            *request == self.about(),
    {
        match self {
            ShockStatus::Sending(request) => request,
            ShockStatus::Sent(request) => request,
            ShockStatus::Failed { request, .. } => request,
            ShockStatus::Skipped { request, .. } => request,
        }
    }

    /// The news in words.
    pub open spec fn description(self) -> Seq<char> {
        let request = self.about();
        let (opening, closing) = match self {
            ShockStatus::Sending(_) => (": Sending shock to "@, ")…"@),
            ShockStatus::Sent(_) => (": Shock sent to "@, ")."@),
            ShockStatus::Failed { error, .. } => (": Shock failed for "@, "): "@ + error@),
            ShockStatus::Skipped { reason, .. } => (": Shock skipped for "@, "): "@ + reason@),
        };
        request.provider.name() + opening + request.target_name() + " at "@ + request.strength()
            + " ("@ + request.trigger.description() + closing
    }

    /// Renders the news in words.
    pub fn label(&self) -> (text: String)
        ensures
            text@ == self.description(),
    {
        let (opening, closing) = match self {
            ShockStatus::Sending(_) => (": Sending shock to ", ")…".to_owned()),
            ShockStatus::Sent(_) => (": Shock sent to ", ").".to_owned()),
            ShockStatus::Failed { error, .. } => (
                ": Shock failed for ",
                "): ".to_owned().concat(error.as_str()),
            ),
            ShockStatus::Skipped { reason, .. } => (
                ": Shock skipped for ",
                "): ".to_owned().concat(reason.as_str()),
            ),
        };
        let request = self.request();
        let target = request.write_target_name();
        let strength = request.write_strength();
        let trigger = request.trigger.status_description();
        request.provider.label().to_owned().concat(opening).concat(target.as_str()).concat(
            " at ",
        ).concat(strength.as_str()).concat(" (").concat(trigger.as_str()).concat(closing.as_str())
    }

    /// The colour of the news.
    pub open spec fn shade(self) -> StatusColor {
        match self {
            ShockStatus::Sending(_) => StatusColor::Neutral,
            ShockStatus::Sent(_) => StatusColor::Success,
            ShockStatus::Failed { .. } => StatusColor::Failure,
            ShockStatus::Skipped { .. } => StatusColor::Warning,
        }
    }

    /// The colour of the news.
    pub fn color(&self) -> (color: StatusColor)
        ensures
            color == self.shade(),
    {
        match self {
            ShockStatus::Sending(_) => StatusColor::Neutral,
            ShockStatus::Sent(_) => StatusColor::Success,
            ShockStatus::Failed { .. } => StatusColor::Failure,
            ShockStatus::Skipped { .. } => StatusColor::Warning,
        }
    }
}

/// A trigger holds what was reported: which session and number it has, when
/// and how it was detected, and of which ability and how many charges, if of
/// any.
pub proof fn triggers_hold_what_was_reported(
    death: LocalPlayerDeath,
    kind: TriggerKind,
    ability: AbilityTrigger,
)
    ensures
        ({
            let trigger = TriggerIdentity::of_death(death);
            &&& trigger.kind is Death
            &&& trigger.session_id@ == death.session_id@
            &&& trigger.sequence == death.sequence
            &&& trigger.client_time_ms == death.client_time_ms
            &&& trigger.detection@ == death.detection@
            &&& trigger.ability_slot is None && trigger.ability_name is None
            &&& trigger.charges_before is None && trigger.charges_after is None
        }),
        ({
            let trigger = TriggerIdentity::of_ability(kind, ability);
            &&& trigger.kind == kind
            &&& trigger.session_id@ == ability.session_id@
            &&& trigger.sequence == ability.sequence
            &&& trigger.client_time_ms == ability.client_time_ms
            &&& trigger.detection@ == ability.detection@
            &&& trigger.ability_slot == Some(ability.ability_slot)
            &&& trigger.ability_name == ability.ability_name
            &&& trigger.charges_before == ability.charges_before
            &&& trigger.charges_after == ability.charges_after
        }),
{
}

/// A shock waits too long from half a minute after it was queued, and not a
/// nanosecond earlier; a clock that went back makes nothing too old.
pub proof fn shocks_expire_after_half_a_minute(queued_at: u64, waited: u64)
    requires
        queued_at + waited <= u64::MAX,
    ensures
        waited_too_long(queued_at, (queued_at + waited) as u64) <==> waited >= 30_000_000_000,
        forall|earlier: u64| earlier < queued_at ==> !waited_too_long(queued_at, earlier),
{
}

/// A trigger in words begins with its kind and ends with its session and
/// number; of an ability it tells the slot and how it was detected.
pub proof fn triggers_read_as_they_are(trigger: TriggerIdentity)
    ensures
        trigger.kind.name().is_prefix_of(trigger.description()),
        (trigger.session_id@ + "#"@ + decimal(trigger.sequence as nat)).is_suffix_of(
            trigger.description(),
        ),
        !(trigger.kind is Death) ==> (trigger.ability_slot matches Some(slot) ==> (
        trigger.kind.name() + " slot "@ + decimal(slot as nat)).is_prefix_of(
            trigger.description(),
        )),
        !(trigger.kind is Death) ==> exists|at: int| #[trigger]
            occurs_at(trigger.description(), ", detection "@ + trigger.detection@, at),
{
    let text = trigger.description();
    let place = trigger.session_id@ + "#"@ + decimal(trigger.sequence as nat);
    assert(text.subrange(text.len() - place.len(), text.len() as int) =~= place);
    let name = trigger.kind.name();
    if trigger.kind is Death {
        reveal_strlit("death");
        reveal_strlit("death ");
        assert(text.subrange(0, name.len() as int) =~= name);
    } else {
        assert(text.subrange(0, name.len() as int) =~= name);
        let number = match trigger.ability_slot {
            Some(slot) => decimal(slot as nat),
            None => decimal(0),
        };
        let opening = name + " slot "@ + number;
        assert(text.subrange(0, opening.len() as int) =~= opening);
        let at = (opening + name_note(trigger.ability_name)).len() as int;
        let detection = ", detection "@ + trigger.detection@;
        assert(text.subrange(at, at + detection.len()) =~= detection);
        assert(occurs_at(text, detection, at));
    }
}

/// A named ability is shown in brackets, and both counts of charges around an
/// arrow; what is not known is not shown.
pub proof fn abilities_read_as_they_are(
    name: Option<String>,
    before: Option<u64>,
    after: Option<u64>,
)
    ensures
        name matches Some(known) ==> occurs(name_note(name), known@),
        name is None ==> name_note(name).len() == 0,
        before is Some && after is Some ==> decimal(before->0 as nat) + "→"@ + decimal(
            after->0 as nat,
        ) == charges_note(before, after).skip(", charges "@.len() as int),
        before is None || after is None ==> charges_note(before, after).len() == 0,
{
    if let Some(known) = name {
        let text = name_note(name);
        let at = " ("@.len() as int;
        assert(text.subrange(at, at + known@.len()) =~= known@);
        assert(occurs_at(text, known@, at));
    }
    if before is Some && after is Some {
        assert(decimal(before->0 as nat) + "→"@ + decimal(after->0 as nat) =~= charges_note(
            before,
            after,
        ).skip(", charges "@.len() as int));
    }
}

/// The news of a shock is about the shock itself: it begins with its provider,
/// names target, strength and trigger in this order, and ends with the error
/// or the reason, where there is one.
pub proof fn news_of_shocks_read_as_they_are(status: ShockStatus)
    ensures
        status matches ShockStatus::Sending(request) ==> status.about() == request,
        status matches ShockStatus::Sent(request) ==> status.about() == request,
        status matches ShockStatus::Failed { request, error } ==> status.about() == request
            && ("): "@ + error@).is_suffix_of(status.description()),
        status matches ShockStatus::Skipped { request, reason } ==> status.about() == request
            && ("): "@ + reason@).is_suffix_of(status.description()),
        status.about().provider.name().is_prefix_of(status.description()),
        occurs(
            status.description(),
            status.about().target_name() + " at "@ + status.about().strength() + " ("@
                + status.about().trigger.description(),
        ),
        status is Sent <==> status.shade() is Success,
        status is Failed <==> status.shade() is Failure,
        status is Skipped <==> status.shade() is Warning,
{
    let text = status.description();
    let request = status.about();
    let (opening, closing) = match status {
        ShockStatus::Sending(_) => (": Sending shock to "@, ")…"@),
        ShockStatus::Sent(_) => (": Shock sent to "@, ")."@),
        ShockStatus::Failed { error, .. } => (": Shock failed for "@, "): "@ + error@),
        ShockStatus::Skipped { reason, .. } => (": Shock skipped for "@, "): "@ + reason@),
    };
    assert(text.subrange(text.len() - closing.len(), text.len() as int) =~= closing);
    let name = request.provider.name();
    assert(text.subrange(0, name.len() as int) =~= name);
    let middle = request.target_name() + " at "@ + request.strength() + " ("@
        + request.trigger.description();
    let at = (name + opening).len() as int;
    assert(text.subrange(at, at + middle.len()) =~= middle);
    assert(occurs_at(text, middle, at));
}

/// A shock in words names its own target, its own intensity and its own length
/// in tenths of a second, and says where target or strength is missing.
pub proof fn shocks_read_as_they_are(request: ShockRequest)
    ensures
        request.target matches Some(target) ==> request.target_name() == target.name@,
        request.target is None ==> request.target_name() == "no target"@,
        request.resolved matches Some(shock) ==> request.strength() == decimal(
            shock.intensity as nat,
        ) + "% for "@ + tenths_numeral(tenths_of(seconds_of_millis(shock.duration_ms as nat)))
            + " s"@,
        request.resolved is None ==> request.strength() == "settings unavailable"@,
{
}

/// A queued shock whose turn comes is sent if and only if it waited less than
/// half a minute and has a target and a strength, and then with that strength;
/// what the provider answers is what becomes of it. One that waited longer is
/// skipped as expired, whatever else holds of it.
pub proof fn queued_shocks_are_sent_in_time_or_not_at_all(
    request: ShockRequest,
    queued_at: u64,
    now: u64,
    decision: ShockDispatch,
    reply: Result<(), ProviderError>,
    result: ShockCompletionResult,
)
    requires
        call_ensures(dispatch, (&request, queued_at, now), decision),
        call_ensures(settle, (decision, reply), result),
    ensures
        decision matches ShockDispatch::Send(shock) ==> now < queued_at + 30_000_000_000
            && request.target is Some && request.resolved == Some(shock) && result
            == ShockCompletionResult::Completed(reply),
        now < queued_at + 30_000_000_000 && request.target is Some && request.resolved is Some
            ==> decision is Send,
        now >= queued_at + 30_000_000_000 ==> (
        result matches ShockCompletionResult::Skipped { reason } && reason@ == "expired"@),
        now < queued_at + 30_000_000_000 && !(request.target is Some && request.resolved is Some)
            ==> result == ShockCompletionResult::Completed(Err(ProviderError::NotConnected)),
{
}

} // verus!
