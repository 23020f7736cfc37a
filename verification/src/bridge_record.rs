//! Bridge records in the console log: which lines a stream of bytes is made
//! of, which of them carry a record, and which events the records report.

use vstd::prelude::*;
use vstd::utf8::{decode_utf8, valid_utf8};

use crate::text::{characters, find, occurs, occurs_at, text_between, utf8_text};

verus! {

/// What stands in front of a record.
pub const BRIDGE_RECORD_PREFIX: &'static str = "[DEADLOCK_DEATH_HOOK]";

/// The version of the records that are understood.
pub const BRIDGE_SCHEMA: u32 = 1;

/// The longest line that is kept.
pub const MAX_INCOMPLETE_LINE_BYTES: usize = 256 * 1024;

/// The end of a line.
pub const NEW_LINE: u8 = 10;

/// What may stand in front of the end of a line.
pub const CARRIAGE_RETURN: u8 = 13;

/// The mod has started.
#[derive(Clone, Debug, Eq, PartialEq)]
pub struct HookReady {
    pub schema: u32,
    pub session_id: String,
    pub client_time_ms: u64,
    pub poll_interval_ms: u64,
}

/// An ability slot and the name of what is in it.
#[derive(Clone, Debug, Eq, PartialEq)]
pub struct AbilityCatalogEntry {
    pub ability_slot: u32,
    pub ability_name: Option<String>,
}

/// The abilities of the current hero.
#[derive(Clone, Debug, Eq, PartialEq)]
pub struct AbilityCatalog {
    pub schema: u32,
    pub session_id: String,
    pub client_time_ms: u64,
    pub abilities: Vec<AbilityCatalogEntry>,
}

/// The local player died.
#[derive(Clone, Debug, Eq, PartialEq)]
pub struct LocalPlayerDeath {
    pub schema: u32,
    pub session_id: String,
    pub client_time_ms: u64,
    pub sequence: u64,
    pub detection: String,
}

/// Something happened to an ability of the local player.
#[derive(Clone, Debug, Eq, PartialEq)]
pub struct AbilityTrigger {
    pub schema: u32,
    pub session_id: String,
    pub client_time_ms: u64,
    pub sequence: u64,
    pub ability_slot: u32,
    pub ability_name: Option<String>,
    pub detection: String,
    pub charges_before: Option<u64>,
    pub charges_after: Option<u64>,
}

/// What a record reports.
#[derive(Clone, Debug, Eq, PartialEq)]
pub enum BridgeEvent {
    HookReady(HookReady),
    AbilityCatalog(AbilityCatalog),
    LocalPlayerDeath(LocalPlayerDeath),
    AbilityUsed(AbilityTrigger),
    AbilityCooldownReady(AbilityTrigger),
}

impl BridgeEvent {
    /// The version of the record.
    pub open spec fn schema(self) -> u32 {
        match self {
            BridgeEvent::HookReady(event) => event.schema,
            BridgeEvent::AbilityCatalog(event) => event.schema,
            BridgeEvent::LocalPlayerDeath(event) => event.schema,
            BridgeEvent::AbilityUsed(event) => event.schema,
            BridgeEvent::AbilityCooldownReady(event) => event.schema,
        }
    }

    /// The name of the event in a record.
    pub open spec fn wire_name(self) -> Seq<char> {
        match self {
            BridgeEvent::HookReady(_) => "hook_ready"@,
            BridgeEvent::AbilityCatalog(_) => "ability_catalog"@,
            BridgeEvent::LocalPlayerDeath(_) => "local_player_death"@,
            BridgeEvent::AbilityUsed(_) => "ability_used"@,
            BridgeEvent::AbilityCooldownReady(_) => "ability_cooldown_ready"@,
        }
    }

    /// The name of the event in a record.
    pub fn event_name(&self) -> (name: &'static str)
        ensures
            name@ == self.wire_name(),
    {
        match self {
            BridgeEvent::HookReady(_) => "hook_ready",
            BridgeEvent::AbilityCatalog(_) => "ability_catalog",
            BridgeEvent::LocalPlayerDeath(_) => "local_player_death",
            BridgeEvent::AbilityUsed(_) => "ability_used",
            BridgeEvent::AbilityCooldownReady(_) => "ability_cooldown_ready",
        }
    }

    /// The version of the record.
    fn schema_version(&self) -> (schema: u32)
        ensures
            schema == self.schema(),
    {
        match self {
            BridgeEvent::HookReady(event) => event.schema,
            BridgeEvent::AbilityCatalog(event) => event.schema,
            BridgeEvent::LocalPlayerDeath(event) => event.schema,
            BridgeEvent::AbilityUsed(event) => event.schema,
            BridgeEvent::AbilityCooldownReady(event) => event.schema,
        }
    }

    /// A copy of the event.
    pub fn duplicate(&self) -> (copy: Self)
        ensures
            same_event(copy, *self),
    {
        match self {
            BridgeEvent::HookReady(event) => BridgeEvent::HookReady(
                HookReady {
                    schema: event.schema,
                    session_id: event.session_id.clone(),
                    client_time_ms: event.client_time_ms,
                    poll_interval_ms: event.poll_interval_ms,
                },
            ),
            BridgeEvent::AbilityCatalog(event) => BridgeEvent::AbilityCatalog(
                AbilityCatalog {
                    schema: event.schema,
                    session_id: event.session_id.clone(),
                    client_time_ms: event.client_time_ms,
                    abilities: duplicate_entries(&event.abilities),
                },
            ),
            BridgeEvent::LocalPlayerDeath(event) => BridgeEvent::LocalPlayerDeath(
                LocalPlayerDeath {
                    schema: event.schema,
                    session_id: event.session_id.clone(),
                    client_time_ms: event.client_time_ms,
                    sequence: event.sequence,
                    detection: event.detection.clone(),
                },
            ),
            BridgeEvent::AbilityUsed(event) => BridgeEvent::AbilityUsed(event.duplicate()),
            BridgeEvent::AbilityCooldownReady(event) => BridgeEvent::AbilityCooldownReady(
                event.duplicate(),
            ),
        }
    }
}

/// Whether two events report the same.
pub open spec fn same_event(a: BridgeEvent, b: BridgeEvent) -> bool {
    match (a, b) {
        (BridgeEvent::AbilityCatalog(a), BridgeEvent::AbilityCatalog(b)) => {
            &&& a.schema == b.schema
            &&& a.session_id == b.session_id
            &&& a.client_time_ms == b.client_time_ms
            &&& a.abilities@ == b.abilities@
        },
        _ => a == b,
    }
}

/// A copy of an optional text.
pub fn duplicate_text(text: &Option<String>) -> (copy: Option<String>)
    ensures
        copy == *text,
{
    match text {
        Some(text) => Some(text.clone()),
        None => None,
    }
}

impl AbilityTrigger {
    /// A copy of the report.
    pub fn duplicate(&self) -> (copy: Self)
        ensures
            copy == *self,
    {
        AbilityTrigger {
            schema: self.schema,
            session_id: self.session_id.clone(),
            client_time_ms: self.client_time_ms,
            sequence: self.sequence,
            ability_slot: self.ability_slot,
            ability_name: duplicate_text(&self.ability_name),
            detection: self.detection.clone(),
            charges_before: self.charges_before,
            charges_after: self.charges_after,
        }
    }
}

/// A copy of catalog entries.
fn duplicate_entries(entries: &Vec<AbilityCatalogEntry>) -> (copy: Vec<AbilityCatalogEntry>)
    ensures
        copy@ == entries@,
{
    let mut copy: Vec<AbilityCatalogEntry> = Vec::new();
    let mut i: usize = 0;
    while i < entries.len()
        invariant
            i <= entries@.len(),
            copy@ == entries@.take(i as int),
        decreases entries@.len() - i,
    {
        let entry = &entries[i];
        copy.push(
            AbilityCatalogEntry {
                ability_slot: entry.ability_slot,
                ability_name: duplicate_text(&entry.ability_name),
            },
        );
        assert(copy@ =~= entries@.take(i + 1));
        i += 1;
    }
    assert(entries@.take(i as int) =~= entries@);
    copy
}

/// Whether a record's prefix stands at `at` and nowhere before it.
pub open spec fn prefix_at(record: Seq<char>, at: int) -> bool {
    &&& occurs_at(record, BRIDGE_RECORD_PREFIX@, at)
    &&& forall|before: int|
        before < at ==> !#[trigger] occurs_at(record, BRIDGE_RECORD_PREFIX@, before)
}

/// What follows the first prefix in a line of text.
pub open spec fn payload(record: Seq<char>) -> Option<Seq<char>> {
    if occurs(record, BRIDGE_RECORD_PREFIX@) {
        let at = choose|at: int| prefix_at(record, at);
        Some(record.skip(at + BRIDGE_RECORD_PREFIX@.len()))
    } else {
        None
    }
}

/// Finds what follows the first prefix in a line of text.
pub fn bridge_payload(record: &str) -> (found: Option<String>)
    ensures
        match found {
            Some(text) => payload(record@) == Some(text@),
            None => payload(record@) is None,
        },
{
    let chars: Vec<char> = characters(record);
    let prefix: Vec<char> = characters(BRIDGE_RECORD_PREFIX);
    let end: usize = chars.len();
    let width: usize = prefix.len();
    match find(&chars, &prefix) {
        Some(at) => {
            proof {
                assert(prefix_at(record@, at as int));
                let chosen = choose|at: int| prefix_at(record@, at);
                assert(prefix_at(record@, chosen));
                assert(chosen == at) by {
                    if chosen < at {
                        assert(!occurs_at(record@, BRIDGE_RECORD_PREFIX@, chosen));
                    }
                    if at < chosen {
                        assert(!occurs_at(record@, BRIDGE_RECORD_PREFIX@, at as int));
                    }
                }
                assert(record@.skip(at + prefix@.len()) =~= record@.subrange(
                    at + prefix@.len(),
                    record@.len() as int,
                ));
            }
            Some(text_between(&chars, at + width, end))
        },
        None => None,
    }
}

/// The event that a decoded payload stands for: one whose version is
/// understood.
pub open spec fn accepted(decoded: Option<BridgeEvent>) -> Option<BridgeEvent> {
    match decoded {
        Some(event) => if event.schema() == BRIDGE_SCHEMA {
            Some(event)
        } else {
            None
        },
        None => None,
    }
}

/// Takes an event over where its version is understood.
pub fn accept(decoded: Option<BridgeEvent>) -> (event: Option<BridgeEvent>)
    ensures
        event == accepted(decoded),
{
    match decoded {
        Some(event) => if event.schema_version() == BRIDGE_SCHEMA {
            Some(event)
        } else {
            None
        },
        None => None,
    }
}

/// Whether `event` is what a line of text reports, given how payloads are
/// decoded.
pub open spec fn reports<F: Fn(&str) -> Option<BridgeEvent>>(
    decode: F,
    record: Seq<char>,
    event: Option<BridgeEvent>,
) -> bool {
    match payload(record) {
        Some(text) => exists|given: &str, decoded: Option<BridgeEvent>|
            {
                &&& given@ == text
                &&& #[trigger] call_ensures(decode, (given,), decoded)
                &&& event == accepted(decoded)
            },
        None => event is None,
    }
}

/// Reads the event that a line of text reports, if any. The text after the
/// first prefix is handed to `decode`, and nothing else is.
pub fn parse_bridge_record<F: Fn(&str) -> Option<BridgeEvent>>(record: &str, decode: F) -> (event:
    Option<BridgeEvent>)
    requires
        forall|given: &str| call_requires(decode, (given,)),
    ensures
        reports(decode, record@, event),
{
    match bridge_payload(record) {
        Some(text) => {
            let decoded = decode(text.as_str());
            accept(decoded)
        },
        None => None,
    }
}

/// A line without the carriage return that may end it.
pub open spec fn without_return(line: Seq<u8>) -> Seq<u8> {
    if line.len() > 0 && line.last() == CARRIAGE_RETURN {
        line.drop_last()
    } else {
        line
    }
}

/// Whether `event` is what a line of bytes reports.
pub open spec fn line_reports<F: Fn(&str) -> Option<BridgeEvent>>(
    decode: F,
    line: Seq<u8>,
    event: Option<BridgeEvent>,
) -> bool {
    if valid_utf8(without_return(line)) {
        reports(decode, decode_utf8(without_return(line)), event)
    } else {
        event is None
    }
}

/// Reads the event that a line of bytes reports, if any.
fn parse_line<F: Fn(&str) -> Option<BridgeEvent>>(line: &Vec<u8>, decode: &F) -> (event: Option<
    BridgeEvent,
>)
    requires
        forall|given: &str| call_requires(*decode, (given,)),
    ensures
        line_reports(*decode, line@, event),
{
    let mut end: usize = line.len();
    if end > 0 && line[end - 1] == CARRIAGE_RETURN {
        end -= 1;
    }
    let bytes = vstd::slice::slice_subrange(line.as_slice(), 0, end);
    assert(bytes@ =~= without_return(line@));
    match utf8_text(bytes) {
        Some(record) => match bridge_payload(record) {
            Some(text) => {
                let decoded = decode(text.as_str());
                accept(decoded)
            },
            None => None,
        },
        None => None,
    }
}

/// A stream of bytes cut into lines: the lines that ended, the bytes of the
/// line that has yet to end, and whether that line is too long to be kept.
pub struct Framing {
    pub incomplete: Seq<u8>,
    pub discarding: bool,
    pub lines: Seq<Seq<u8>>,
}

impl Framing {
    /// The stream after one more byte.
    pub open spec fn step(self, byte: u8) -> Framing {
        if self.discarding {
            Framing { discarding: byte != NEW_LINE, ..self }
        } else if byte == NEW_LINE {
            Framing {
                incomplete: Seq::empty(),
                discarding: false,
                lines: self.lines.push(self.incomplete),
            }
        } else if self.incomplete.len() < MAX_INCOMPLETE_LINE_BYTES {
            Framing { incomplete: self.incomplete.push(byte), ..self }
        } else {
            Framing { incomplete: Seq::empty(), discarding: true, ..self }
        }
    }

    /// The stream after more bytes.
    pub open spec fn after(self, bytes: Seq<u8>) -> Framing
        decreases bytes.len(),
    {
        if bytes.len() == 0 {
            self
        } else {
            self.after(bytes.drop_last()).step(bytes.last())
        }
    }
}

/// A stream of which nothing but the open line is known.
pub open spec fn open_stream(incomplete: Seq<u8>, discarding: bool) -> Framing {
    Framing { incomplete, discarding, lines: Seq::empty() }
}

/// Whether `events` are what lines report, in their order.
pub open spec fn delivers<F: Fn(&str) -> Option<BridgeEvent>>(
    decode: F,
    lines: Seq<Seq<u8>>,
    events: Seq<BridgeEvent>,
) -> bool
    decreases lines.len(),
{
    if lines.len() == 0 {
        events.len() == 0
    } else {
        exists|event: Option<BridgeEvent>|
            {
                &&& #[trigger] line_reports(decode, lines.last(), event)
                &&& match event {
                    Some(event) => {
                        &&& events.len() > 0
                        &&& events.last() == event
                        &&& delivers(decode, lines.drop_last(), events.drop_last())
                    },
                    None => delivers(decode, lines.drop_last(), events),
                }
            }
    }
}

/// Takes bytes of the log and hands out the events that the lines ending in
/// them report. A line longer than the limit is dropped as a whole; what
/// follows it is read as usual.
pub fn consume_bytes<F: Fn(&str) -> Option<BridgeEvent>>(
    incomplete_line: &mut Vec<u8>,
    discarding_oversized_line: &mut bool,
    bytes: &[u8],
    decode: F,
) -> (events: Vec<BridgeEvent>)
    requires
        forall|given: &str| call_requires(decode, (given,)),
    ensures
        ({
            let stream = open_stream(
                old(incomplete_line)@,
                *old(discarding_oversized_line),
            ).after(bytes@);
            &&& final(incomplete_line)@ == stream.incomplete
            &&& *final(discarding_oversized_line) == stream.discarding
            &&& delivers(decode, stream.lines, events@)
        }),
        old(incomplete_line)@.len() <= MAX_INCOMPLETE_LINE_BYTES ==> final(incomplete_line)@.len()
            <= MAX_INCOMPLETE_LINE_BYTES,
{
    let ghost start = open_stream(incomplete_line@, *discarding_oversized_line);
    let mut events: Vec<BridgeEvent> = Vec::new();
    let mut i: usize = 0;
    while i < bytes.len()
        invariant
            i <= bytes@.len(),
            forall|given: &str| call_requires(decode, (given,)),
            incomplete_line@ == start.after(bytes@.take(i as int)).incomplete,
            *discarding_oversized_line == start.after(bytes@.take(i as int)).discarding,
            delivers(decode, start.after(bytes@.take(i as int)).lines, events@),
            start.incomplete.len() <= MAX_INCOMPLETE_LINE_BYTES ==> incomplete_line@.len()
                <= MAX_INCOMPLETE_LINE_BYTES,
        decreases bytes@.len() - i,
    {
        let ghost before = start.after(bytes@.take(i as int));
        let ghost told = events@;
        let byte: u8 = bytes[i];
        proof {
            assert(bytes@.take(i + 1).drop_last() =~= bytes@.take(i as int));
            assert(bytes@.take(i + 1).last() == byte);
        }
        if *discarding_oversized_line {
            if byte == NEW_LINE {
                *discarding_oversized_line = false;
            }
        } else if byte == NEW_LINE {
            let event = parse_line(incomplete_line, &decode);
            proof {
                let lines = before.lines.push(before.incomplete);
                assert(lines.drop_last() =~= before.lines);
                assert(lines.last() == before.incomplete);
                assert(line_reports(decode, lines.last(), event));
                if event is Some {
                    assert(told.push(event->0).drop_last() =~= told);
                }
            }
            if let Some(event) = event {
                events.push(event);
            }
            incomplete_line.clear();
        } else if incomplete_line.len() < MAX_INCOMPLETE_LINE_BYTES {
            incomplete_line.push(byte);
        } else {
            incomplete_line.clear();
            *discarding_oversized_line = true;
        }
        i += 1;
    }
    assert(bytes@.take(i as int) =~= bytes@);
    events
}

/// It makes no difference in how many pieces bytes arrive.
pub proof fn chunks_do_not_matter(stream: Framing, first: Seq<u8>, second: Seq<u8>)
    ensures
        stream.after(first).after(second) == stream.after(first + second),
    decreases second.len(),
{
    if second.len() == 0 {
        assert(first + second =~= first);
    } else {
        chunks_do_not_matter(stream, first, second.drop_last());
        assert((first + second).drop_last() =~= first + second.drop_last());
    }
}

/// Lines that ended earlier stay in front of those that end later.
pub proof fn earlier_lines_stay(stream: Framing, bytes: Seq<u8>)
    ensures
        ({
            let fresh = open_stream(stream.incomplete, stream.discarding).after(bytes);
            &&& stream.after(bytes).incomplete == fresh.incomplete
            &&& stream.after(bytes).discarding == fresh.discarding
            &&& stream.after(bytes).lines == stream.lines + fresh.lines
        }),
    decreases bytes.len(),
{
    let fresh = open_stream(stream.incomplete, stream.discarding);
    if bytes.len() == 0 {
        assert(stream.lines + fresh.lines =~= stream.lines);
    } else {
        earlier_lines_stay(stream, bytes.drop_last());
        let before = fresh.after(bytes.drop_last());
        assert(stream.lines + before.lines.push(before.incomplete) =~= (stream.lines
            + before.lines).push(before.incomplete));
    }
}

/// What two runs of lines report one after the other is what all of them report
/// together.
pub proof fn deliveries_add_up<F: Fn(&str) -> Option<BridgeEvent>>(
    decode: F,
    first: Seq<Seq<u8>>,
    early: Seq<BridgeEvent>,
    second: Seq<Seq<u8>>,
    late: Seq<BridgeEvent>,
)
    requires
        delivers(decode, first, early),
        delivers(decode, second, late),
    ensures
        delivers(decode, first + second, early + late),
    decreases second.len(),
{
    let lines = first + second;
    let events = early + late;
    if second.len() == 0 {
        assert(lines =~= first);
        assert(events =~= early);
    } else {
        let event = choose|event: Option<BridgeEvent>|
            {
                &&& #[trigger] line_reports(decode, second.last(), event)
                &&& match event {
                    Some(event) => {
                        &&& late.len() > 0
                        &&& late.last() == event
                        &&& delivers(decode, second.drop_last(), late.drop_last())
                    },
                    None => delivers(decode, second.drop_last(), late),
                }
            };
        assert(lines.drop_last() =~= first + second.drop_last());
        assert(line_reports(decode, lines.last(), event));
        match event {
            Some(_) => {
                deliveries_add_up(decode, first, early, second.drop_last(), late.drop_last());
                assert(events.drop_last() =~= early + late.drop_last());
            },
            None => {
                deliveries_add_up(decode, first, early, second.drop_last(), late);
            },
        }
    }
}

/// It makes no difference to the open line and to the events handed out in how
/// many pieces the log is read: what two reads in turn leave and report is what
/// one read of all their bytes leaves and reports.
pub proof fn reads_deliver_as_one<F: Fn(&str) -> Option<BridgeEvent>>(
    decode: F,
    start: Framing,
    a: Seq<u8>,
    early: Seq<BridgeEvent>,
    b: Seq<u8>,
    late: Seq<BridgeEvent>,
)
    requires
        start.lines.len() == 0,
        delivers(decode, start.after(a).lines, early),
        delivers(
            decode,
            open_stream(start.after(a).incomplete, start.after(a).discarding).after(b).lines,
            late,
        ),
    ensures
        ({
            let halfway = start.after(a);
            let last = open_stream(halfway.incomplete, halfway.discarding).after(b);
            let whole = start.after(a + b);
            &&& whole.incomplete == last.incomplete
            &&& whole.discarding == last.discarding
            &&& delivers(decode, whole.lines, early + late)
        }),
{
    let halfway = start.after(a);
    let last = open_stream(halfway.incomplete, halfway.discarding).after(b);
    chunks_do_not_matter(start, a, b);
    earlier_lines_stay(halfway, b);
    deliveries_add_up(decode, halfway.lines, early, last.lines, late);
}

/// Whether a decoder reads the same out of the same text every time.
pub open spec fn steady<F: Fn(&str) -> Option<BridgeEvent>>(decode: F) -> bool {
    forall|x: &str, y: &str, from_x: Option<BridgeEvent>, from_y: Option<BridgeEvent>|
        #![trigger call_ensures(decode, (x,), from_x), call_ensures(decode, (y,), from_y)]
        x@ == y@ && call_ensures(decode, (x,), from_x) && call_ensures(decode, (y,), from_y)
            ==> same_outcome(from_x, from_y)
}

/// Whether two readings of a text report the same.
pub open spec fn same_outcome(a: Option<BridgeEvent>, b: Option<BridgeEvent>) -> bool {
    match (a, b) {
        (Some(a), Some(b)) => same_event(a, b),
        (None, None) => true,
        _ => false,
    }
}

/// With a decoder that reads the same out of the same text every time, lines
/// deliver the same events whenever they are read.
pub proof fn deliveries_are_determined<F: Fn(&str) -> Option<BridgeEvent>>(
    decode: F,
    lines: Seq<Seq<u8>>,
    once: Seq<BridgeEvent>,
    again: Seq<BridgeEvent>,
)
    requires
        steady(decode),
        delivers(decode, lines, once),
        delivers(decode, lines, again),
    ensures
        once.len() == again.len(),
        forall|i: int| 0 <= i < once.len() ==> same_event(#[trigger] once[i], again[i]),
    decreases lines.len(),
{
    if lines.len() > 0 {
        let x = choose|event: Option<BridgeEvent>|
            {
                &&& #[trigger] line_reports(decode, lines.last(), event)
                &&& match event {
                    Some(event) => {
                        &&& once.len() > 0
                        &&& once.last() == event
                        &&& delivers(decode, lines.drop_last(), once.drop_last())
                    },
                    None => delivers(decode, lines.drop_last(), once),
                }
            };
        let y = choose|event: Option<BridgeEvent>|
            {
                &&& #[trigger] line_reports(decode, lines.last(), event)
                &&& match event {
                    Some(event) => {
                        &&& again.len() > 0
                        &&& again.last() == event
                        &&& delivers(decode, lines.drop_last(), again.drop_last())
                    },
                    None => delivers(decode, lines.drop_last(), again),
                }
            };
        assert(same_outcome(x, y));
        match (x, y) {
            (Some(_), Some(_)) => {
                deliveries_are_determined(
                    decode,
                    lines.drop_last(),
                    once.drop_last(),
                    again.drop_last(),
                );
                assert forall|i: int| 0 <= i < once.len() implies same_event(
                    #[trigger] once[i],
                    again[i],
                ) by {
                    if i < once.len() - 1 {
                        assert(once[i] == once.drop_last()[i]);
                        assert(again[i] == again.drop_last()[i]);
                    }
                }
            },
            _ => {
                deliveries_are_determined(decode, lines.drop_last(), once, again);
            },
        }
    }
}

/// How a log is cut into reads changes nothing: with a decoder that reads the
/// same out of the same text every time, two reads in turn leave the open line
/// and report the events, in their order, that one read of all their bytes
/// leaves and reports.
pub proof fn cutting_a_log_changes_nothing<F: Fn(&str) -> Option<BridgeEvent>>(
    decode: F,
    start: Framing,
    a: Seq<u8>,
    early: Seq<BridgeEvent>,
    b: Seq<u8>,
    late: Seq<BridgeEvent>,
    together: Seq<BridgeEvent>,
)
    requires
        steady(decode),
        start.lines.len() == 0,
        delivers(decode, start.after(a).lines, early),
        delivers(
            decode,
            open_stream(start.after(a).incomplete, start.after(a).discarding).after(b).lines,
            late,
        ),
        delivers(decode, start.after(a + b).lines, together),
    ensures
        ({
            let halfway = start.after(a);
            let last = open_stream(halfway.incomplete, halfway.discarding).after(b);
            let whole = start.after(a + b);
            &&& whole.incomplete == last.incomplete
            &&& whole.discarding == last.discarding
            &&& together.len() == early.len() + late.len()
            &&& forall|i: int|
                0 <= i < together.len() ==> same_event(#[trigger] together[i], (early + late)[i])
        }),
{
    reads_deliver_as_one(decode, start, a, early, b, late);
    deliveries_are_determined(decode, start.after(a + b).lines, together, early + late);
}

/// The name of a reported event is the one that stands in its record: with a
/// decoder that goes by the name in a text, found by `name_in`, an event that a
/// line reports has the name in what follows the line's first prefix.
pub proof fn reported_events_have_the_recorded_name<F: Fn(&str) -> Option<BridgeEvent>>(
    decode: F,
    name_in: spec_fn(Seq<char>) -> Option<Seq<char>>,
    record: Seq<char>,
    event: BridgeEvent,
)
    requires
        forall|given: &str, decoded: BridgeEvent|
            #![trigger call_ensures(decode, (given,), Some(decoded))]
            call_ensures(decode, (given,), Some(decoded)) ==> name_in(given@) == Some(
                decoded.wire_name(),
            ),
        reports(decode, record, Some(event)),
    ensures
        payload(record) matches Some(text) && name_in(text) == Some(event.wire_name()),
{
}

/// The part of a text after its last line end.
pub open spec fn open_line(text: Seq<u8>) -> Seq<u8>
    decreases text.len(),
{
    if text.len() == 0 || text.last() == NEW_LINE {
        Seq::empty()
    } else {
        open_line(text.drop_last()).push(text.last())
    }
}

/// The lines of a text that ended, without their ends.
pub open spec fn ended_lines(text: Seq<u8>) -> Seq<Seq<u8>>
    decreases text.len(),
{
    if text.len() == 0 {
        Seq::empty()
    } else if text.last() == NEW_LINE {
        ended_lines(text.drop_last()).push(open_line(text.drop_last()))
    } else {
        ended_lines(text.drop_last())
    }
}

/// A log that is read from its start is cut at its line ends; every line up to
/// the limit is read, every longer one is dropped, and no other line is lost.
pub proof fn log_is_read_line_by_line(text: Seq<u8>)
    ensures
        ({
            let stream = open_stream(Seq::empty(), false).after(text);
            &&& stream.lines == ended_lines(text).filter(
                |line: Seq<u8>| line.len() <= MAX_INCOMPLETE_LINE_BYTES,
            )
            &&& stream.discarding == (open_line(text).len() > MAX_INCOMPLETE_LINE_BYTES)
            &&& !stream.discarding ==> stream.incomplete == open_line(text)
            &&& stream.discarding ==> stream.incomplete.len() == 0
        }),
    decreases text.len(),
{
    reveal(Seq::filter);
    let short = |line: Seq<u8>| line.len() <= MAX_INCOMPLETE_LINE_BYTES;
    if text.len() > 0 {
        let rest = text.drop_last();
        log_is_read_line_by_line(rest);
        if text.last() == NEW_LINE {
            let lines = ended_lines(rest).push(open_line(rest));
            assert(lines.drop_last() =~= ended_lines(rest));
            assert(lines.last() == open_line(rest));
        }
    }
}

/// A line too long to be kept does not take the next one with it.
pub proof fn oversized_line_spares_the_next(long: Seq<u8>, next: Seq<u8>)
    requires
        long.len() > MAX_INCOMPLETE_LINE_BYTES,
        next.len() <= MAX_INCOMPLETE_LINE_BYTES,
        forall|i: int| 0 <= i < long.len() ==> long[i] != NEW_LINE,
        forall|i: int| 0 <= i < next.len() ==> next[i] != NEW_LINE,
    ensures
        open_stream(Seq::empty(), false).after(
            long.push(NEW_LINE) + next.push(NEW_LINE),
        ) == (Framing { incomplete: Seq::empty(), discarding: false, lines: seq![next] }),
{
    let text = long.push(NEW_LINE) + next.push(NEW_LINE);
    let start = open_stream(Seq::empty(), false);
    let first = long.push(NEW_LINE);
    chunks_do_not_matter(start, first, next.push(NEW_LINE));
    unbroken_line(long);
    assert(first.drop_last() =~= long);
    log_is_read_line_by_line(long);
    let middle = start.after(first);
    assert(start.after(long).discarding);
    assert(start.after(long).lines =~= Seq::empty()) by {
        reveal(Seq::filter);
    }
    assert(start.after(long).incomplete =~= Seq::empty());
    assert(middle == start);
    unbroken_line(next);
    log_is_read_line_by_line(next);
    assert(next.push(NEW_LINE).drop_last() =~= next);
    assert(start.after(next).lines =~= Seq::empty()) by {
        reveal(Seq::filter);
    }
    assert(start.after(next.push(NEW_LINE)).lines =~= seq![next]);
}

/// A text without a line end is one open line.
proof fn unbroken_line(text: Seq<u8>)
    requires
        forall|i: int| 0 <= i < text.len() ==> text[i] != NEW_LINE,
    ensures
        open_line(text) == text,
        ended_lines(text).len() == 0,
    decreases text.len(),
{
    if text.len() > 0 {
        unbroken_line(text.drop_last());
        assert(text.drop_last().push(text.last()) =~= text);
    }
}

/// Lines that carry no record deliver nothing.
pub proof fn ordinary_output_delivers_nothing<F: Fn(&str) -> Option<BridgeEvent>>(
    decode: F,
    lines: Seq<Seq<u8>>,
    events: Seq<BridgeEvent>,
)
    requires
        delivers(decode, lines, events),
        forall|i: int|
            0 <= i < lines.len() ==> {
                let line = without_return(#[trigger] lines[i]);
                valid_utf8(line) ==> !occurs(decode_utf8(line), BRIDGE_RECORD_PREFIX@)
            },
    ensures
        events.len() == 0,
    decreases lines.len(),
{
    if lines.len() > 0 {
        let event = choose|event: Option<BridgeEvent>|
            {
                &&& #[trigger] line_reports(decode, lines.last(), event)
                &&& match event {
                    Some(event) => {
                        &&& events.len() > 0
                        &&& events.last() == event
                        &&& delivers(decode, lines.drop_last(), events.drop_last())
                    },
                    None => delivers(decode, lines.drop_last(), events),
                }
            };
        assert(lines.last() == lines[lines.len() - 1]);
        assert(event is None);
        assert forall|i: int| 0 <= i < lines.drop_last().len() implies {
            let line = without_return(#[trigger] lines.drop_last()[i]);
            valid_utf8(line) ==> !occurs(decode_utf8(line), BRIDGE_RECORD_PREFIX@)
        } by {
            assert(lines.drop_last()[i] == lines[i]);
        }
        ordinary_output_delivers_nothing(decode, lines.drop_last(), events);
    }
}

/// No event of another version than the understood one is delivered.
pub proof fn delivered_events_are_understood<F: Fn(&str) -> Option<BridgeEvent>>(
    decode: F,
    lines: Seq<Seq<u8>>,
    events: Seq<BridgeEvent>,
)
    requires
        delivers(decode, lines, events),
    ensures
        events.len() <= lines.len(),
        forall|i: int| 0 <= i < events.len() ==> (#[trigger] events[i]).schema() == BRIDGE_SCHEMA,
    decreases lines.len(),
{
    if lines.len() > 0 {
        let event = choose|event: Option<BridgeEvent>|
            {
                &&& #[trigger] line_reports(decode, lines.last(), event)
                &&& match event {
                    Some(event) => {
                        &&& events.len() > 0
                        &&& events.last() == event
                        &&& delivers(decode, lines.drop_last(), events.drop_last())
                    },
                    None => delivers(decode, lines.drop_last(), events),
                }
            };
        match event {
            Some(last) => {
                delivered_events_are_understood(decode, lines.drop_last(), events.drop_last());
                assert forall|i: int| 0 <= i < events.len() implies (#[trigger] events[i]).schema()
                    == BRIDGE_SCHEMA by {
                    if i < events.len() - 1 {
                        assert(events[i] == events.drop_last()[i]);
                    }
                }
            },
            None => {
                delivered_events_are_understood(decode, lines.drop_last(), events);
            },
        }
    }
}

/// What follows the first prefix in a line is the payload of the record,
/// whatever stands in front of it; a line without the prefix has none.
pub proof fn payloads_follow_the_first_prefix(
    record: Seq<char>,
    before: Seq<char>,
    after: Seq<char>,
)
    requires
        record == before + "[DEADLOCK_DEATH_HOOK]"@ + after,
        forall|at: int|
            0 <= at < before.len() ==> !#[trigger] occurs_at(
                record,
                "[DEADLOCK_DEATH_HOOK]"@,
                at,
            ),
    ensures
        payload(record) == Some(after),
{
    let prefix = "[DEADLOCK_DEATH_HOOK]"@;
    let at = before.len() as int;
    assert(record.subrange(at, at + prefix.len()) =~= prefix);
    assert(occurs_at(record, prefix, at));
    assert(prefix_at(record, at));
    let chosen = choose|at: int| prefix_at(record, at);
    assert(prefix_at(record, chosen));
    if chosen < at {
        assert(!occurs_at(record, prefix, chosen));
    }
    if at < chosen {
        assert(!occurs_at(record, prefix, at));
    }
    assert(record.skip(at + prefix.len()) =~= after);
}

/// A line in which the prefix does not stand carries no record.
pub proof fn lines_without_the_prefix_carry_no_record(record: Seq<char>)
    requires
        forall|at: int| !#[trigger] occurs_at(record, "[DEADLOCK_DEATH_HOOK]"@, at),
    ensures
        payload(record) is None,
{
}

/// A record that decodes to an event of the first version reports that very
/// event, one of any other version and one that does not decode report none.
pub proof fn understood_records_are_reported<F: Fn(&str) -> Option<BridgeEvent>>(
    decode: F,
    record: Seq<char>,
    decoded: Option<BridgeEvent>,
    event: Option<BridgeEvent>,
)
    requires
        reports(decode, record, event),
        payload(record) is Some,
        forall|given: &str, outcome: Option<BridgeEvent>|
            given@ == payload(record)->0 && #[trigger] call_ensures(decode, (given,), outcome)
                ==> outcome == decoded,
    ensures
        ({
            let version = match decoded {
                Some(BridgeEvent::HookReady(ready)) => Some(ready.schema),
                Some(BridgeEvent::AbilityCatalog(catalog)) => Some(catalog.schema),
                Some(BridgeEvent::LocalPlayerDeath(death)) => Some(death.schema),
                Some(BridgeEvent::AbilityUsed(ability)) => Some(ability.schema),
                Some(BridgeEvent::AbilityCooldownReady(ability)) => Some(ability.schema),
                None => None,
            };
            event == if version == Some(1u32) {
                decoded
            } else {
                None
            }
        }),
{
}

/// A line that ends in a carriage return reports what it reports without it.
pub proof fn carriage_returns_do_not_matter<F: Fn(&str) -> Option<BridgeEvent>>(
    decode: F,
    line: Seq<u8>,
    event: Option<BridgeEvent>,
)
    requires
        line.len() > 0 ==> line.last() != 13,
    ensures
        line_reports(decode, line.push(13), event) <==> line_reports(decode, line, event),
        valid_utf8(line) ==> (line_reports(decode, line, event) <==> reports(
            decode,
            decode_utf8(line),
            event,
        )),
        !valid_utf8(line) ==> (line_reports(decode, line, event) <==> event is None),
{
    assert(line.push(13).drop_last() =~= line);
    assert(without_return(line.push(13)) == line);
    assert(without_return(line) == line);
}

/// A line delivers the event that it reports, and nothing else.
pub proof fn lines_deliver_what_they_report<F: Fn(&str) -> Option<BridgeEvent>>(
    decode: F,
    line: Seq<u8>,
    event: BridgeEvent,
)
    ensures
        delivers(decode, seq![line], seq![event]) <==> line_reports(decode, line, Some(event)),
        delivers(decode, seq![line], Seq::empty()) <==> line_reports(decode, line, None),
        forall|events: Seq<BridgeEvent>|
            #[trigger] delivers(decode, seq![line], events) ==> events.len() <= 1,
{
    let lines = seq![line];
    assert(lines.last() == line);
    assert(lines.drop_last() =~= Seq::<Seq<u8>>::empty());
    assert(seq![event].drop_last() =~= Seq::<BridgeEvent>::empty());
    reveal_with_fuel(delivers, 2);
    if delivers(decode, lines, seq![event]) {
        assert(line_reports(decode, line, Some(event)));
    }
    assert forall|events: Seq<BridgeEvent>| #[trigger] delivers(decode, lines, events) implies
        events.len() <= 1 by {
        reveal_with_fuel(delivers, 2);
    }
}

/// A line of up to 262144 bytes that ends is handed on as it is, and nothing of
/// it is left; until it ends it is kept.
pub proof fn lines_are_handed_on_as_they_are(begun: Seq<u8>, bytes: Seq<u8>)
    requires
        begun.len() + bytes.len() <= 262144,
        forall|i: int| 0 <= i < bytes.len() ==> bytes[i] != 10,
    ensures
        open_stream(begun, false).after(bytes) == open_stream(begun + bytes, false),
        open_stream(begun, false).after(bytes.push(10)) == (Framing {
            incomplete: Seq::empty(),
            discarding: false,
            lines: seq![begun + bytes],
        }),
    decreases bytes.len(),
{
    let start = open_stream(begun, false);
    if bytes.len() > 0 {
        let fewer = bytes.drop_last();
        assert forall|i: int| 0 <= i < fewer.len() implies fewer[i] != 10 by {
            assert(fewer[i] == bytes[i]);
        }
        lines_are_handed_on_as_they_are(begun, fewer);
        assert(bytes.last() == bytes[bytes.len() - 1]);
        assert((begun + fewer).push(bytes.last()) =~= begun + bytes);
    } else {
        assert(begun + bytes =~= begun);
    }
    assert(start.after(bytes) == open_stream(begun + bytes, false));
    assert(bytes.push(10).drop_last() =~= bytes);
    assert(bytes.push(10).last() == 10);
    assert(Seq::<Seq<u8>>::empty().push(begun + bytes) =~= seq![begun + bytes]);
}

/// Every event goes by the name that the mod writes for it.
pub proof fn events_go_by_their_names(event: BridgeEvent)
    ensures
        event is HookReady <==> event.wire_name() == "hook_ready"@,
        event is AbilityCatalog <==> event.wire_name() == "ability_catalog"@,
        event is LocalPlayerDeath <==> event.wire_name() == "local_player_death"@,
        event is AbilityUsed <==> event.wire_name() == "ability_used"@,
        event is AbilityCooldownReady <==> event.wire_name() == "ability_cooldown_ready"@,
{
    reveal_strlit("hook_ready");
    reveal_strlit("ability_catalog");
    reveal_strlit("local_player_death");
    reveal_strlit("ability_used");
    reveal_strlit("ability_cooldown_ready");
    assert("hook_ready"@.len() == 10 && "ability_catalog"@.len() == 15);
    assert("local_player_death"@.len() == 18 && "ability_used"@.len() == 12);
    assert("ability_cooldown_ready"@.len() == 22);
}

/// Events that report the same agree in everything that they report.
pub proof fn same_events_agree_in_everything(a: BridgeEvent, b: BridgeEvent)
    requires
        same_event(a, b),
    ensures
        match a {
            BridgeEvent::HookReady(x) => {
                &&& b matches BridgeEvent::HookReady(y)
                &&& x.schema == y.schema
                &&& x.session_id@ == y.session_id@
                &&& x.client_time_ms == y.client_time_ms
                &&& x.poll_interval_ms == y.poll_interval_ms
            },
            BridgeEvent::AbilityCatalog(x) => {
                &&& b matches BridgeEvent::AbilityCatalog(y)
                &&& x.schema == y.schema
                &&& x.session_id@ == y.session_id@
                &&& x.client_time_ms == y.client_time_ms
                &&& x.abilities@ == y.abilities@
            },
            BridgeEvent::LocalPlayerDeath(x) => {
                &&& b matches BridgeEvent::LocalPlayerDeath(y)
                &&& x.schema == y.schema
                &&& x.session_id@ == y.session_id@
                &&& x.client_time_ms == y.client_time_ms
                &&& x.sequence == y.sequence
                &&& x.detection@ == y.detection@
            },
            BridgeEvent::AbilityUsed(x) => b matches BridgeEvent::AbilityUsed(y) && x == y,
            BridgeEvent::AbilityCooldownReady(x) => b matches BridgeEvent::AbilityCooldownReady(y)
                && x == y,
        },
{
}

} // verus!
