//! The console log listener: how a growing log is followed through creation,
//! truncation and replacement, and what is known of it meanwhile.
//!
//! Times are readings of one clock, in nanoseconds; lengths of time are
//! nanoseconds too. Paths are texts.

use vstd::prelude::*;

use crate::bridge_record::{
    chunks_do_not_matter, consume_bytes, delivers, duplicate_text, earlier_lines_stay,
    lines_are_handed_on_as_they_are, open_stream, BridgeEvent, Framing, MAX_INCOMPLETE_LINE_BYTES,
};

verus! {

/// How many of the last bytes read are kept to recognise the log by.
pub const TAIL_CHECKPOINT_BYTES: usize = 64;

/// What the listener is doing.
#[derive(Clone, Copy, Debug, Eq, PartialEq, Structural)]
pub enum ListenerPhase {
    Stopped,
    WaitingForFile,
    Listening,
    Failed,
}

impl Default for ListenerPhase {
    fn default() -> (phase: Self)
        ensures
            phase == ListenerPhase::Stopped,
    {
        ListenerPhase::Stopped
    }
}

/// What is known of the listener.
#[derive(Clone, Debug, Eq, PartialEq)]
pub struct ListenerStatus {
    pub phase: ListenerPhase,
    pub configured_path: Option<String>,
    pub current_error: Option<String>,
    pub last_activity_at: Option<u64>,
    pub last_event_at: Option<u64>,
}

impl Default for ListenerStatus {
    fn default() -> (status: Self)
        ensures
            status == (ListenerStatus {
                phase: ListenerPhase::Stopped,
                configured_path: None,
                current_error: None,
                last_activity_at: None,
                last_event_at: None,
            }),
    {
        Self {
            phase: ListenerPhase::Stopped,
            configured_path: None,
            current_error: None,
            last_activity_at: None,
            last_event_at: None,
        }
    }
}

/// The characters of an optional text.
pub open spec fn text_of(text: Option<String>) -> Option<Seq<char>> {
    match text {
        Some(text) => Some(text@),
        None => None,
    }
}

/// How long ago something was, none where the clock went back.
pub open spec fn since(at: u64, now: u64) -> u64 {
    if at <= now {
        (now - at) as u64
    } else {
        0
    }
}

impl ListenerStatus {
    /// Whether the log is being followed.
    pub fn is_listening(&self) -> (listening: bool)
        ensures
            listening == (self.phase == ListenerPhase::Listening),
    {
        self.phase == ListenerPhase::Listening
    }

    /// How long the log has not grown at the time `now`, where it ever has.
    pub open spec fn idle(self, now: u64) -> Option<u64> {
        match self.last_activity_at {
            Some(at) => Some(since(at, now)),
            None => None,
        }
    }

    /// How long the log has not grown at the time `now`, where it ever has.
    pub fn idle_for(&self, now: u64) -> (idle: Option<u64>)
        ensures
            idle == self.idle(now),
    {
        match self.last_activity_at {
            Some(at) => Some(now.saturating_sub(at)),
            None => None,
        }
    }

    /// Whether the log is being followed and has grown lately.
    pub open spec fn live(self, now: u64, maximum_idle: u64) -> bool {
        &&& self.phase == ListenerPhase::Listening
        &&& self.idle(now) matches Some(idle) && idle <= maximum_idle
    }

    /// Whether the log is being followed and has grown lately.
    pub fn is_live(&self, now: u64, maximum_idle: u64) -> (live: bool)
        ensures
            live == self.live(now, maximum_idle),
    {
        match self.idle_for(now) {
            Some(idle) => self.is_listening() && idle <= maximum_idle,
            None => false,
        }
    }

    /// A copy of the status.
    pub fn duplicate(&self) -> (copy: Self)
        ensures
            copy == *self,
    {
        ListenerStatus {
            phase: self.phase,
            configured_path: duplicate_text(&self.configured_path),
            current_error: duplicate_text(&self.current_error),
            last_activity_at: self.last_activity_at,
            last_event_at: self.last_event_at,
        }
    }

    /// Whether `next` is this status in another phase, with the given error.
    pub open spec fn moved_to(
        self,
        phase: ListenerPhase,
        error: Option<Seq<char>>,
        next: ListenerStatus,
    ) -> bool {
        &&& next == (ListenerStatus { phase, current_error: next.current_error, ..self })
        &&& text_of(next.current_error) == error
    }

    /// Enters a phase, with the error that caused it, if one did.
    pub fn set_phase(&mut self, phase: ListenerPhase, current_error: Option<String>)
        ensures
            old(self).moved_to(phase, text_of(current_error), *final(self)),
    {
        self.phase = phase;
        self.current_error = current_error;
    }
}

/// What tells a file from every other that took its place.
#[derive(Clone, Copy, Debug, Eq, PartialEq, Structural)]
pub struct FileIdentity {
    pub device: u64,
    pub inode: u64,
}

/// The last bytes of a text, as many as are kept.
pub open spec fn tail(text: Seq<u8>) -> Seq<u8> {
    if text.len() <= TAIL_CHECKPOINT_BYTES {
        text
    } else {
        text.skip(text.len() - TAIL_CHECKPOINT_BYTES)
    }
}

/// Follows the last bytes of a text as it grows.
pub fn update_checkpoint(checkpoint: &mut Vec<u8>, bytes: &[u8])
    ensures
        final(checkpoint)@ == tail(old(checkpoint)@ + bytes@),
{
    let ghost text = checkpoint@ + bytes@;
    let added: usize = bytes.len();
    if added >= TAIL_CHECKPOINT_BYTES {
        checkpoint.clear();
        let last = vstd::slice::slice_subrange(bytes, added - TAIL_CHECKPOINT_BYTES, added);
        checkpoint.extend_from_slice(last);
        assert(checkpoint@ =~= tail(text));
        return;
    }
    let held: usize = checkpoint.len();
    let room: usize = TAIL_CHECKPOINT_BYTES - added;
    if held > room {
        let kept = checkpoint.split_off(held - room);
        *checkpoint = kept;
    }
    checkpoint.extend_from_slice(bytes);
    assert(checkpoint@ =~= tail(text));
}

/// The bytes kept of a text that grows in pieces are the last of the whole.
pub proof fn checkpoint_follows_the_text(text: Seq<u8>, bytes: Seq<u8>)
    ensures
        tail(tail(text) + bytes) == tail(text + bytes),
{
    assert(tail(tail(text) + bytes) =~= tail(text + bytes));
}

/// How many bytes before a position are kept to recognise the log by.
pub fn checkpoint_length(offset: u64) -> (length: usize)
    ensures
        length == if offset < TAIL_CHECKPOINT_BYTES {
            offset as int
        } else {
            TAIL_CHECKPOINT_BYTES as int
        },
{
    if offset < TAIL_CHECKPOINT_BYTES as u64 {
        offset as usize
    } else {
        TAIL_CHECKPOINT_BYTES
    }
}

/// A log that is open: how far it was read, the last bytes read, and the line
/// that has yet to end.
#[derive(Debug)]
pub struct OpenLog {
    pub identity: FileIdentity,
    pub offset: u64,
    pub checkpoint: Vec<u8>,
    pub incomplete_line: Vec<u8>,
    pub discarding_oversized_line: bool,
}

impl OpenLog {
    /// The last bytes read are held as far as they were read and are to be
    /// kept, and the open line is within its limit.
    pub open spec fn wf(self) -> bool {
        &&& self.checkpoint@.len() == if self.offset < TAIL_CHECKPOINT_BYTES {
            self.offset as int
        } else {
            TAIL_CHECKPOINT_BYTES as int
        }
        &&& self.incomplete_line@.len() <= MAX_INCOMPLETE_LINE_BYTES
    }

    /// A log that was just opened at `offset`, with the bytes before it.
    pub fn open(identity: FileIdentity, offset: u64, checkpoint: Vec<u8>) -> (log: Self)
        requires
            checkpoint@.len() == if offset < TAIL_CHECKPOINT_BYTES {
                offset as int
            } else {
                TAIL_CHECKPOINT_BYTES as int
            },
        ensures
            log.wf(),
            log.identity == identity,
            log.offset == offset,
            log.checkpoint == checkpoint,
            log.incomplete_line@ == Seq::<u8>::empty(),
            !log.discarding_oversized_line,
    {
        OpenLog {
            identity,
            offset,
            checkpoint,
            incomplete_line: Vec::new(),
            discarding_oversized_line: false,
        }
    }
}

/// What a look at the path found.
pub enum Inspection {
    /// Nothing is there.
    Missing,
    /// The look itself failed, for the reason given.
    Unreadable(String),
    /// Something is there, and it is not a file.
    NotAFile,
    /// A file of this identity and length is there.
    File { identity: FileIdentity, length: u64 },
}

/// What the listener has to do next.
#[derive(Clone, Copy, Debug, Eq, PartialEq, Structural)]
pub enum TailAction {
    /// Nothing before the next look.
    Pause,
    /// Open the log, at its end where what it holds is to be skipped.
    Open { skip_existing: bool },
    /// Read `length` bytes from `start` and compare them with the checkpoint.
    Compare { start: u64, length: usize },
    /// Go back to the start of the log.
    Rewind,
    /// Read on.
    Read,
}

/// How one log is followed.
pub struct TailWorker {
    pub path: String,
    pub skip_first_success: bool,
    pub open_log: Option<OpenLog>,
    /// The length of the log at the last look.
    pub length: u64,
}

/// What to do with an open log of a certain length before it is read on.
pub open spec fn truncation_check(log: OpenLog, length: u64) -> TailAction {
    if length < log.offset {
        TailAction::Rewind
    } else if log.checkpoint@.len() == 0 {
        TailAction::Read
    } else {
        TailAction::Compare {
            start: (log.offset - log.checkpoint@.len()) as u64,
            length: log.checkpoint@.len() as usize,
        }
    }
}

/// Decides what to do with an open log before it is read on.
fn check_for_truncation(log: &OpenLog, length: u64) -> (action: TailAction)
    requires
        log.wf(),
    ensures
        action == truncation_check(*log, length),
{
    if length < log.offset {
        TailAction::Rewind
    } else if log.checkpoint.len() == 0 {
        TailAction::Read
    } else {
        let held: usize = log.checkpoint.len();
        TailAction::Compare { start: log.offset - held as u64, length: held }
    }
}

/// A message about a path and a reason.
pub open spec fn complaint(
    before: Seq<char>,
    path: Seq<char>,
    between: Seq<char>,
    reason: Seq<char>,
) -> Seq<char> {
    before + path + between + reason
}

/// Writes a message about a path and a reason.
fn write_complaint(before: &str, path: &String, between: &str, reason: &String) -> (text: String)
    ensures
        text@ == complaint(before@, path@, between@, reason@),
{
    before.to_owned().concat(path.as_str()).concat(between).concat(reason.as_str())
}

/// Whether two stretches of bytes are the same.
fn same_bytes(a: &Vec<u8>, b: &Vec<u8>) -> (same: bool)
    ensures
        same == (a@ == b@),
{
    if a.len() != b.len() {
        return false;
    }
    let mut i: usize = 0;
    while i < a.len()
        invariant
            i <= a@.len(),
            a@.len() == b@.len(),
            forall|j: int| 0 <= j < i ==> a@[j] == b@[j],
        decreases a@.len() - i,
    {
        if a[i] != b[i] {
            return false;
        }
        i += 1;
    }
    assert(a@ =~= b@);
    true
}

impl TailWorker {
    /// An open log keeps its own invariant, and once a log was opened nothing
    /// that a later one holds is skipped.
    pub open spec fn wf(self) -> bool {
        self.open_log matches Some(log) ==> log.wf() && !self.skip_first_success
    }

    /// A log is open wherever the action is one on an open log.
    pub open spec fn ready_for(self, action: TailAction) -> bool {
        match action {
            TailAction::Pause => true,
            TailAction::Open { .. } => self.open_log is None,
            _ => self.open_log is Some,
        }
    }

    /// What follows a look at the path.
    pub fn inspect(&mut self, status: &mut ListenerStatus, inspection: Inspection) -> (action:
        TailAction)
        requires
            old(self).wf(),
        ensures
            final(self).wf(),
            final(self).ready_for(action),
            !old(self).skip_first_success ==> !final(self).skip_first_success && action != (
            TailAction::Open { skip_existing: true }),
            old(self).open_log matches Some(log) && inspection matches Inspection::File {
                identity,
                ..
            } && log.identity != identity ==> action == (TailAction::Open { skip_existing: false }),
            match inspection {
                Inspection::Missing => {
                    &&& action == TailAction::Pause
                    &&& *final(self) == (TailWorker {
                        open_log: None,
                        skip_first_success: false,
                        ..*old(self)
                    })
                    &&& old(status).moved_to(ListenerPhase::WaitingForFile, None, *final(status))
                },
                Inspection::Unreadable(error) => {
                    &&& action == TailAction::Pause
                    &&& *final(self) == *old(self)
                    &&& old(status).moved_to(
                        ListenerPhase::Failed,
                        Some(complaint("could not inspect "@, old(self).path@, ": "@, error@)),
                        *final(status),
                    )
                },
                Inspection::NotAFile => {
                    &&& action == TailAction::Pause
                    &&& *final(self) == (TailWorker { open_log: None, ..*old(self) })
                    &&& old(status).moved_to(
                        ListenerPhase::Failed,
                        Some(old(self).path@ + " is not a file"@),
                        *final(status),
                    )
                },
                Inspection::File { identity, length } => {
                    &&& *final(status) == *old(status)
                    &&& match old(self).open_log {
                        Some(log) if log.identity == identity => {
                            &&& *final(self) == (TailWorker { length, ..*old(self) })
                            &&& action == truncation_check(log, length)
                        },
                        _ => {
                            &&& *final(self) == (TailWorker { open_log: None, length, ..*old(self) })
                            &&& action == TailAction::Open {
                                skip_existing: old(self).skip_first_success,
                            }
                        },
                    }
                },
            },
    {
        match inspection {
            Inspection::Missing => {
                self.skip_first_success = false;
                self.open_log = None;
                status.set_phase(ListenerPhase::WaitingForFile, None);
                TailAction::Pause
            },
            Inspection::Unreadable(error) => {
                let told = write_complaint("could not inspect ", &self.path, ": ", &error);
                status.set_phase(ListenerPhase::Failed, Some(told));
                TailAction::Pause
            },
            Inspection::NotAFile => {
                self.open_log = None;
                let told = self.path.clone().concat(" is not a file");
                status.set_phase(ListenerPhase::Failed, Some(told));
                TailAction::Pause
            },
            Inspection::File { identity, length } => {
                self.length = length;
                let known = match &self.open_log {
                    Some(log) => if log.identity == identity {
                        Some(check_for_truncation(log, length))
                    } else {
                        None
                    },
                    None => None,
                };
                match known {
                    Some(action) => action,
                    None => {
                        self.open_log = None;
                        TailAction::Open { skip_existing: self.skip_first_success }
                    },
                }
            },
        }
    }

    /// What follows an attempt to open the log.
    pub fn opened(&mut self, status: &mut ListenerStatus, result: Result<OpenLog, String>) -> (action:
        TailAction)
        requires
            old(self).wf(),
            result matches Ok(log) ==> log.wf(),
        ensures
            final(self).wf(),
            final(self).ready_for(action),
            !old(self).skip_first_success ==> !final(self).skip_first_success,
            match result {
                Ok(log) => {
                    &&& *final(self) == (TailWorker {
                        open_log: Some(log),
                        skip_first_success: false,
                        ..*old(self)
                    })
                    &&& old(status).moved_to(ListenerPhase::Listening, None, *final(status))
                    &&& action == truncation_check(log, old(self).length)
                },
                Err(error) => {
                    &&& action == TailAction::Pause
                    &&& *final(self) == *old(self)
                    &&& old(status).moved_to(
                        ListenerPhase::Failed,
                        Some(complaint("could not open "@, old(self).path@, ": "@, error@)),
                        *final(status),
                    )
                },
            },
    {
        match result {
            Ok(log) => {
                let action = check_for_truncation(&log, self.length);
                self.open_log = Some(log);
                self.skip_first_success = false;
                status.set_phase(ListenerPhase::Listening, None);
                action
            },
            Err(error) => {
                let told = write_complaint("could not open ", &self.path, ": ", &error);
                status.set_phase(ListenerPhase::Failed, Some(told));
                TailAction::Pause
            },
        }
    }

    /// What follows a reading of the bytes that the checkpoint was taken from.
    pub fn compared(&mut self, status: &mut ListenerStatus, result: Result<Vec<u8>, String>) -> (action:
        TailAction)
        requires
            old(self).wf(),
            old(self).open_log is Some,
        ensures
            final(self).wf(),
            final(self).ready_for(action),
            *final(self) == *old(self),
            match result {
                Ok(bytes) => {
                    &&& *final(status) == *old(status)
                    &&& action == if bytes@ == old(self).open_log->0.checkpoint@ {
                        TailAction::Read
                    } else {
                        TailAction::Rewind
                    }
                },
                Err(error) => {
                    &&& action == TailAction::Pause
                    &&& old(status).moved_to(
                        ListenerPhase::Failed,
                        Some(
                            complaint(
                                "could not check "@,
                                old(self).path@,
                                " for truncation: "@,
                                error@,
                            ),
                        ),
                        *final(status),
                    )
                },
            },
    {
        match result {
            Ok(bytes) => {
                let same = match &self.open_log {
                    Some(log) => same_bytes(&bytes, &log.checkpoint),
                    None => false,
                };
                if same {
                    TailAction::Read
                } else {
                    TailAction::Rewind
                }
            },
            Err(error) => {
                let told = write_complaint(
                    "could not check ",
                    &self.path,
                    " for truncation: ",
                    &error,
                );
                status.set_phase(ListenerPhase::Failed, Some(told));
                TailAction::Pause
            },
        }
    }

    /// What follows an attempt to go back to the start of the log.
    pub fn rewound(&mut self, status: &mut ListenerStatus, result: Result<(), String>) -> (action:
        TailAction)
        requires
            old(self).wf(),
            old(self).open_log is Some,
        ensures
            final(self).wf(),
            final(self).ready_for(action),
            match result {
                Ok(_) => {
                    &&& action == TailAction::Read
                    &&& *final(status) == *old(status)
                    &&& *final(self) == (TailWorker {
                        open_log: final(self).open_log,
                        ..*old(self)
                    })
                    &&& final(self).open_log matches Some(log)
                    &&& log.identity == old(self).open_log->0.identity
                    &&& log.offset == 0
                    &&& log.checkpoint@ == Seq::<u8>::empty()
                    &&& log.incomplete_line@ == Seq::<u8>::empty()
                    &&& !log.discarding_oversized_line
                },
                Err(error) => {
                    &&& action == TailAction::Pause
                    &&& *final(self) == *old(self)
                    &&& old(status).moved_to(
                        ListenerPhase::Failed,
                        Some(
                            complaint(
                                "could not check "@,
                                old(self).path@,
                                " for truncation: "@,
                                error@,
                            ),
                        ),
                        *final(status),
                    )
                },
            },
    {
        match result {
            Ok(_) => {
                let log = self.open_log.take();
                match log {
                    Some(log) => {
                        self.open_log = Some(OpenLog::open(log.identity, 0, Vec::new()));
                    },
                    None => {},
                }
                TailAction::Read
            },
            Err(error) => {
                let told = write_complaint(
                    "could not check ",
                    &self.path,
                    " for truncation: ",
                    &error,
                );
                status.set_phase(ListenerPhase::Failed, Some(told));
                TailAction::Pause
            },
        }
    }

    /// What follows a read of the log: no bytes at its end, else the next
    /// bytes. Hands out the events that the lines ending in them report.
    pub fn read<F: Fn(&str) -> Option<BridgeEvent>>(
        &mut self,
        status: &mut ListenerStatus,
        now: u64,
        result: Result<Vec<u8>, String>,
        decode: F,
    ) -> (outcome: (Vec<BridgeEvent>, TailAction))
        requires
            old(self).wf(),
            old(self).open_log is Some,
            result matches Ok(bytes) ==> old(self).open_log->0.offset + bytes@.len() <= u64::MAX,
            forall|given: &str| call_requires(decode, (given,)),
        ensures
            final(self).wf(),
            final(self).ready_for(outcome.1),
            match result {
                Ok(bytes) => if bytes@.len() == 0 {
                    &&& outcome.0@ == Seq::<BridgeEvent>::empty()
                    &&& outcome.1 == TailAction::Pause
                    &&& *final(self) == *old(self)
                    &&& old(status).moved_to(ListenerPhase::Listening, None, *final(status))
                } else {
                    &&& outcome.1 == TailAction::Read
                    &&& *final(status) == (ListenerStatus {
                        last_activity_at: Some(now),
                        ..*old(status)
                    })
                    &&& *final(self) == (TailWorker {
                        open_log: final(self).open_log,
                        ..*old(self)
                    })
                    &&& final(self).open_log matches Some(log)
                    &&& read_on(old(self).open_log->0, bytes@, log)
                    &&& delivers(
                        decode,
                        open_stream(
                            old(self).open_log->0.incomplete_line@,
                            old(self).open_log->0.discarding_oversized_line,
                        ).after(bytes@).lines,
                        outcome.0@,
                    )
                },
                Err(error) => {
                    &&& outcome.0@ == Seq::<BridgeEvent>::empty()
                    &&& outcome.1 == TailAction::Pause
                    &&& *final(self) == *old(self)
                    &&& old(status).moved_to(
                        ListenerPhase::Failed,
                        Some(complaint("could not read "@, old(self).path@, ": "@, error@)),
                        *final(status),
                    )
                },
            },
    {
        match result {
            Ok(bytes) => {
                if bytes.len() == 0 {
                    status.set_phase(ListenerPhase::Listening, None);
                    return (Vec::new(), TailAction::Pause);
                }
                let taken = self.open_log.take();
                match taken {
                    Some(mut log) => {
                        log.offset = log.offset + bytes.len() as u64;
                        update_checkpoint(&mut log.checkpoint, bytes.as_slice());
                        status.last_activity_at = Some(now);
                        let events = consume_bytes(
                            &mut log.incomplete_line,
                            &mut log.discarding_oversized_line,
                            bytes.as_slice(),
                            decode,
                        );
                        self.open_log = Some(log);
                        (events, TailAction::Read)
                    },
                    None => (Vec::new(), TailAction::Read),
                }
            },
            Err(error) => {
                let told = write_complaint("could not read ", &self.path, ": ", &error);
                status.set_phase(ListenerPhase::Failed, Some(told));
                (Vec::new(), TailAction::Pause)
            },
        }
    }
}

/// Whether `next` is an open log after more bytes of it were read.
pub open spec fn read_on(log: OpenLog, bytes: Seq<u8>, next: OpenLog) -> bool {
    let stream = open_stream(log.incomplete_line@, log.discarding_oversized_line).after(bytes);
    &&& next.identity == log.identity
    &&& next.offset == log.offset + bytes.len()
    &&& next.checkpoint@ == tail(log.checkpoint@ + bytes)
    &&& next.incomplete_line@ == stream.incomplete
    &&& next.discarding_oversized_line == stream.discarding
}

/// Two reads in a row are one read of all their bytes, and the lines of the
/// one are those of the two.
pub proof fn reads_add_up(
    log: OpenLog,
    first: Seq<u8>,
    middle: OpenLog,
    second: Seq<u8>,
    last: OpenLog,
)
    requires
        read_on(log, first, middle),
        read_on(middle, second, last),
    ensures
        read_on(log, first + second, last),
        open_stream(log.incomplete_line@, log.discarding_oversized_line).after(
            first + second,
        ).lines == open_stream(log.incomplete_line@, log.discarding_oversized_line).after(
            first,
        ).lines + open_stream(middle.incomplete_line@, middle.discarding_oversized_line).after(
            second,
        ).lines,
{
    let start = open_stream(log.incomplete_line@, log.discarding_oversized_line);
    chunks_do_not_matter(start, first, second);
    let halfway = start.after(first);
    earlier_lines_stay(halfway, second);
    checkpoint_follows_the_text(log.checkpoint@ + first, second);
    assert(log.checkpoint@ + (first + second) =~= log.checkpoint@ + first + second);
}

/// Whether an open log is in step with what the file holds: the bytes up to
/// its position are those that were read last.
pub open spec fn in_step(log: OpenLog, file: Seq<u8>) -> bool {
    &&& log.offset <= file.len()
    &&& log.checkpoint@ == tail(file.take(log.offset as int))
}

/// A log stays in step while it is read on.
pub proof fn reading_keeps_step(log: OpenLog, file: Seq<u8>, bytes: Seq<u8>, next: OpenLog)
    requires
        in_step(log, file),
        log.offset + bytes.len() <= file.len(),
        file.subrange(log.offset as int, log.offset + bytes.len()) == bytes,
        read_on(log, bytes, next),
    ensures
        in_step(next, file),
{
    let read = file.take(log.offset as int);
    checkpoint_follows_the_text(read, bytes);
    assert(file.take(next.offset as int) =~= read + bytes);
}

/// A log that only grew is read on, never from its start again.
pub proof fn grown_log_is_read_on(log: OpenLog, file: Seq<u8>, grown: Seq<u8>)
    requires
        log.wf(),
        in_step(log, file),
        file.is_prefix_of(grown),
        grown.len() <= u64::MAX,
    ensures
        match truncation_check(log, grown.len() as u64) {
            TailAction::Read => true,
            TailAction::Compare { start, length } => grown.subrange(
                start as int,
                start + length,
            ) == log.checkpoint@,
            _ => false,
        },
{
    let held = log.checkpoint@.len() as int;
    let start = log.offset - held;
    assert(file.take(log.offset as int) =~= grown.take(log.offset as int));
    assert(grown.subrange(start, start + held) =~= log.checkpoint@);
}

/// A log that is now shorter, or whose last bytes read are now others, is read
/// from its start again.
pub proof fn changed_log_is_read_again(log: OpenLog, file: Seq<u8>)
    requires
        log.wf(),
        !in_step(log, file),
        file.len() <= u64::MAX,
    ensures
        match truncation_check(log, file.len() as u64) {
            TailAction::Rewind => true,
            TailAction::Compare { start, length } => file.subrange(start as int, start + length)
                != log.checkpoint@,
            _ => false,
        },
{
    if log.offset <= file.len() {
        let held = log.checkpoint@.len() as int;
        let start = log.offset - held;
        let read = file.take(log.offset as int);
        if held == 0 {
            assert(tail(read) =~= log.checkpoint@);
        }
        assert(file.subrange(start, start + held) =~= tail(read));
    }
}

/// What the first attempt to open a log came to.
pub enum FirstOpen {
    /// It is open, at its end.
    Opened(OpenLog),
    /// It is not there yet.
    Missing,
    /// It could not be opened.
    Failed,
}

/// The listener as its owner sees it. Subscribers are numbers that were handed
/// out, in the order in which they subscribed.
#[derive(Debug)]
pub struct ConsoleLogListener {
    pub status: ListenerStatus,
    pub subscribers: Vec<u64>,
    pub next_subscriber: u64,
    pub running: bool,
}

/// The subscribers that took an event.
pub open spec fn reached(subscribers: Seq<u64>, outcomes: Seq<bool>) -> Seq<u64>
    recommends
        subscribers.len() == outcomes.len(),
    decreases subscribers.len(),
{
    if subscribers.len() == 0 {
        Seq::empty()
    } else {
        let before = reached(subscribers.drop_last(), outcomes.drop_last());
        if outcomes.last() {
            before.push(subscribers.last())
        } else {
            before
        }
    }
}

impl Default for ConsoleLogListener {
    fn default() -> (listener: Self)
        ensures
            listener.fresh(),
    {
        Self::new()
    }
}

impl ConsoleLogListener {
    /// A listener that was never started and has no subscribers.
    pub open spec fn fresh(self) -> bool {
        &&& self.status == (ListenerStatus {
            phase: ListenerPhase::Stopped,
            configured_path: None,
            current_error: None,
            last_activity_at: None,
            last_event_at: None,
        })
        &&& self.subscribers@ == Seq::<u64>::empty()
        &&& self.next_subscriber == 0
        &&& !self.running
    }

    /// A listener that was never started and has no subscribers.
    pub fn new() -> (listener: Self)
        ensures
            listener.fresh(),
    {
        Self {
            status: ListenerStatus::default(),
            subscribers: Vec::new(),
            next_subscriber: 0,
            running: false,
        }
    }

    /// Adds a subscriber.
    pub fn subscribe(&mut self) -> (subscriber: u64)
        requires
            old(self).next_subscriber < u64::MAX,
        ensures
            subscriber == old(self).next_subscriber,
            final(self).next_subscriber == subscriber + 1,
            final(self).subscribers@ == old(self).subscribers@.push(subscriber),
            final(self).status == old(self).status,
            final(self).running == old(self).running,
    {
        let subscriber: u64 = self.next_subscriber;
        self.next_subscriber = subscriber + 1;
        self.subscribers.push(subscriber);
        subscriber
    }

    /// Settles an event that was sent to every subscriber, in their order:
    /// those that did not take it are dropped, and the event counts where any
    /// took it.
    pub fn broadcast(&mut self, outcomes: &Vec<bool>, now: u64) -> (delivered: bool)
        requires
            outcomes@.len() == old(self).subscribers@.len(),
        ensures
            delivered == outcomes@.contains(true),
            final(self).subscribers@ == reached(old(self).subscribers@, outcomes@),
            final(self).next_subscriber == old(self).next_subscriber,
            final(self).running == old(self).running,
            final(self).status == (ListenerStatus {
                last_event_at: if delivered {
                    Some(now)
                } else {
                    old(self).status.last_event_at
                },
                ..old(self).status
            }),
    {
        let mut kept: Vec<u64> = Vec::new();
        let mut delivered = false;
        let mut i: usize = 0;
        while i < outcomes.len()
            invariant
                i <= outcomes@.len(),
                outcomes@.len() == self.subscribers@.len(),
                *self == *old(self),
                delivered == outcomes@.take(i as int).contains(true),
                kept@ == reached(self.subscribers@.take(i as int), outcomes@.take(i as int)),
            decreases outcomes@.len() - i,
        {
            proof {
                let next = outcomes@.take(i + 1);
                assert(next.drop_last() =~= outcomes@.take(i as int));
                assert(self.subscribers@.take(i + 1).drop_last() =~= self.subscribers@.take(
                    i as int,
                ));
                if outcomes@[i as int] {
                    assert(next[i as int]);
                } else if next.contains(true) {
                    let at = choose|at: int| 0 <= at < next.len() && next[at];
                    assert(outcomes@.take(i as int)[at]);
                }
                if outcomes@.take(i as int).contains(true) {
                    let at = choose|at: int| 0 <= at < i && outcomes@.take(i as int)[at];
                    assert(next[at]);
                }
            }
            if outcomes[i] {
                delivered = true;
                kept.push(self.subscribers[i]);
            }
            i += 1;
        }
        assert(outcomes@.take(i as int) =~= outcomes@);
        assert(self.subscribers@.take(i as int) =~= self.subscribers@);
        self.subscribers = kept;
        if delivered {
            self.status.last_event_at = Some(now);
        }
        delivered
    }

    /// Prepares to follow the log at a path, and says whether there is anything
    /// to do: nothing where it is being followed already.
    pub fn start(&mut self, path: &String) -> (needed: bool)
        ensures
            needed == !(old(self).running && text_of(old(self).status.configured_path) == Some(
                path@,
            )),
            if needed {
                old(self).stopped(*final(self))
            } else {
                *final(self) == *old(self)
            },
    {
        let same = match &self.status.configured_path {
            Some(configured) => *configured == *path,
            None => false,
        };
        if self.running && same {
            return false;
        }
        self.stop();
        true
    }

    /// Begins to follow the log at a path, given what the first attempt to open
    /// it came to. What the log already holds is skipped, unless it is yet to
    /// be created.
    pub fn follow(&mut self, path: String, first: FirstOpen) -> (worker: TailWorker)
        requires
            first matches FirstOpen::Opened(log) ==> log.wf(),
        ensures
            worker.wf(),
            worker.path@ == path@,
            worker.length == 0,
            worker.skip_first_success == (first is Failed),
            worker.open_log == match first {
                FirstOpen::Opened(log) => Some(log),
                _ => None,
            },
            final(self).status.phase == if first is Opened {
                ListenerPhase::Listening
            } else {
                ListenerPhase::WaitingForFile
            },
            text_of(final(self).status.configured_path) == Some(path@),
            final(self).status.current_error is None,
            final(self).status.last_activity_at is None,
            final(self).status.last_event_at is None,
            *final(self) == (ConsoleLogListener { status: final(self).status, ..*old(self) }),
    {
        let (open_log, skip_first_success) = match first {
            FirstOpen::Opened(log) => (Some(log), false),
            FirstOpen::Missing => (None, false),
            FirstOpen::Failed => (None, true),
        };
        let phase = if open_log.is_some() {
            ListenerPhase::Listening
        } else {
            ListenerPhase::WaitingForFile
        };
        self.status = ListenerStatus {
            phase,
            configured_path: Some(path.clone()),
            current_error: None,
            last_activity_at: None,
            last_event_at: None,
        };
        TailWorker { path, skip_first_success, open_log, length: 0 }
    }

    /// Notes whether the work could be handed to a thread.
    pub fn spawned(&mut self, result: Result<(), String>) -> (outcome: Result<(), String>)
        ensures
            outcome == result,
            match result {
                Ok(_) => *final(self) == (ConsoleLogListener { running: true, ..*old(self) }),
                Err(error) => {
                    &&& *final(self) == (ConsoleLogListener {
                        status: final(self).status,
                        ..*old(self)
                    })
                    &&& old(self).status.moved_to(
                        ListenerPhase::Failed,
                        Some("could not start listener thread: "@ + error@),
                        final(self).status,
                    )
                },
            },
    {
        match result {
            Ok(done) => {
                self.running = true;
                Ok(done)
            },
            Err(error) => {
                let told = "could not start listener thread: ".to_owned().concat(error.as_str());
                self.status.set_phase(ListenerPhase::Failed, Some(told));
                Err(error)
            },
        }
    }

    /// Takes over what the running work reports of itself.
    pub fn observe(
        &mut self,
        phase: ListenerPhase,
        current_error: Option<String>,
        last_activity_at: Option<u64>,
    )
        ensures
            *final(self) == if old(self).running {
                ConsoleLogListener {
                    status: ListenerStatus {
                        phase,
                        current_error,
                        last_activity_at,
                        ..old(self).status
                    },
                    ..*old(self)
                }
            } else {
                *old(self)
            },
    {
        if self.running {
            self.status.phase = phase;
            self.status.current_error = current_error;
            self.status.last_activity_at = last_activity_at;
        }
    }

    /// Whether `next` is this listener after it was stopped.
    pub open spec fn stopped(self, next: ConsoleLogListener) -> bool {
        next == (ConsoleLogListener {
            status: ListenerStatus {
                phase: ListenerPhase::Stopped,
                current_error: None,
                ..self.status
            },
            running: false,
            ..self
        })
    }

    /// Stops following the log. Subscribers stay.
    pub fn stop(&mut self)
        ensures
            old(self).stopped(*final(self)),
    {
        self.running = false;
        self.status.phase = ListenerPhase::Stopped;
        self.status.current_error = None;
    }

    /// What is known of the listener.
    pub fn status(&self) -> (status: ListenerStatus)
        ensures
            status == self.status,
    {
        self.status.duplicate()
    }

    /// The path of the log that was last followed.
    pub fn configured_path(&self) -> (path: Option<String>)
        ensures
            path == self.status.configured_path,
    {
        duplicate_text(&self.status.configured_path)
    }

    /// Why the log cannot be followed.
    pub fn current_error(&self) -> (error: Option<String>)
        ensures
            error == self.status.current_error,
    {
        duplicate_text(&self.status.current_error)
    }

    /// Whether the log is being followed.
    pub fn is_listening(&self) -> (listening: bool)
        ensures
            listening == (self.status.phase == ListenerPhase::Listening),
    {
        self.status.is_listening()
    }

    /// How long the log has not grown at the time `now`, where it ever has.
    pub fn idle_for(&self, now: u64) -> (idle: Option<u64>)
        ensures
            idle == self.status.idle(now),
    {
        self.status.idle_for(now)
    }

    /// Whether the log is being followed and has grown lately.
    pub fn is_live(&self, now: u64, maximum_idle: u64) -> (live: bool)
        ensures
            live == self.status.live(now, maximum_idle),
    {
        self.status.is_live(now, maximum_idle)
    }
}

/// Of what was read, the last 64 bytes are kept, or all of it where there are
/// fewer.
pub proof fn last_bytes_are_kept(front: Seq<u8>, back: Seq<u8>)
    ensures
        back.len() == 64 ==> tail(front + back) == back,
        back.len() < 64 ==> tail(back) == back,
{
    if back.len() == 64 {
        assert(tail(front + back) =~= back);
    }
}

/// A log is live if and only if it is being followed and grew no longer ago
/// than is allowed; a clock that went back counts as no time at all.
pub proof fn logs_are_live_while_they_grow(status: ListenerStatus, now: u64, maximum_idle: u64)
    ensures
        status.live(now, maximum_idle) <==> {
            &&& status.phase is Listening
            &&& status.last_activity_at matches Some(at) && now <= at + maximum_idle
        },
        status.idle(now) is Some <==> status.last_activity_at is Some,
        status.last_activity_at matches Some(at) ==> {
            &&& at <= now ==> (status.idle(now) matches Some(idle) && at + idle == now)
            &&& now < at ==> status.idle(now) == Some(0u64)
        },
{
}

/// A new phase comes with its own error or none; the path and the times stay.
pub proof fn phases_come_with_their_error(
    status: ListenerStatus,
    phase: ListenerPhase,
    error: Option<Seq<char>>,
    next: ListenerStatus,
)
    requires
        status.moved_to(phase, error, next),
    ensures
        next.phase == phase,
        error matches Some(told) ==> (next.current_error matches Some(kept) && kept@ == told),
        error is None ==> next.current_error is None,
        next.configured_path == status.configured_path,
        next.last_activity_at == status.last_activity_at,
        next.last_event_at == status.last_event_at,
{
}

/// A complaint ends with its reason, and names the path in front of it.
pub proof fn complaints_name_path_and_reason(
    before: Seq<char>,
    path: Seq<char>,
    between: Seq<char>,
    reason: Seq<char>,
)
    ensures
        complaint(before, path, between, reason).skip(before.len() as int) == path + (between
            + reason),
        complaint(before, path, between, reason).take(before.len() as int) == before,
{
    assert(complaint(before, path, between, reason).skip(before.len() as int) =~= path + (between
        + reason));
    assert(complaint(before, path, between, reason).take(before.len() as int) =~= before);
}

/// A log that got shorter than it was read is read from its start; else the
/// bytes just before the position are compared, as many as were kept, and
/// where none were kept it is read on.
pub proof fn logs_are_checked_before_they_are_read_on(log: OpenLog, length: u64)
    requires
        log.wf(),
    ensures
        match truncation_check(log, length) {
            TailAction::Rewind => length < log.offset,
            TailAction::Read => log.offset <= length && log.offset == 0,
            TailAction::Compare { start, length: compared } => {
                &&& log.offset <= length
                &&& start + compared == log.offset
                &&& compared == log.checkpoint@.len()
                &&& compared == if log.offset < 64 {
                    log.offset as int
                } else {
                    64
                }
                &&& log.offset > 0
            },
            _ => false,
        },
{
}

/// Reading on moves the position by what was read and keeps the file. A line
/// that does not end stays open with what was read; a line that ends leaves
/// nothing open.
pub proof fn reading_moves_the_position(log: OpenLog, bytes: Seq<u8>, next: OpenLog)
    requires
        read_on(log, bytes, next),
    ensures
        next.identity == log.identity,
        next.offset == log.offset + bytes.len(),
        bytes.len() >= 64 ==> next.checkpoint@ == bytes.skip(bytes.len() - 64),
        log.checkpoint@.len() + bytes.len() <= 64 ==> next.checkpoint@ == log.checkpoint@ + bytes,
        !log.discarding_oversized_line && log.incomplete_line@.len() + bytes.len() <= 262144
            && !bytes.contains(10) ==> next.incomplete_line@ == log.incomplete_line@ + bytes
            && !next.discarding_oversized_line,
        bytes.len() > 0 && bytes.last() == 10 ==> !next.discarding_oversized_line
            && next.incomplete_line@.len() == 0 || log.discarding_oversized_line,
{
    if bytes.len() >= 64 {
        assert(tail(log.checkpoint@ + bytes) =~= bytes.skip(bytes.len() - 64));
    }
    if !log.discarding_oversized_line && log.incomplete_line@.len() + bytes.len() <= 262144
        && !bytes.contains(10) {
        lines_are_handed_on_as_they_are(log.incomplete_line@, bytes);
    }
    if bytes.len() > 0 && bytes.last() == 10 && !log.discarding_oversized_line {
        let start = open_stream(log.incomplete_line@, log.discarding_oversized_line);
        discarded_lines_are_empty(start, bytes.drop_last());
    }
}

/// While a line is discarded nothing of it is kept.
proof fn discarded_lines_are_empty(start: Framing, bytes: Seq<u8>)
    requires
        !start.discarding,
    ensures
        start.after(bytes).discarding ==> start.after(bytes).incomplete.len() == 0,
    decreases bytes.len(),
{
    if bytes.len() > 0 {
        discarded_lines_are_empty(start, bytes.drop_last());
    }
}

/// A subscriber stays if and only if it took the event.
pub proof fn subscribers_stay_where_they_took_the_event(
    subscribers: Seq<u64>,
    outcomes: Seq<bool>,
    subscriber: u64,
)
    requires
        subscribers.len() == outcomes.len(),
    ensures
        reached(subscribers, outcomes).contains(subscriber) <==> exists|i: int|
            0 <= i < subscribers.len() && #[trigger] subscribers[i] == subscriber && outcomes[i],
        (forall|i: int| 0 <= i < outcomes.len() ==> outcomes[i]) ==> reached(subscribers, outcomes)
            == subscribers,
        reached(subscribers, outcomes).len() <= subscribers.len(),
    decreases subscribers.len(),
{
    if subscribers.len() > 0 {
        let (fewer, known) = (subscribers.drop_last(), outcomes.drop_last());
        subscribers_stay_where_they_took_the_event(fewer, known, subscriber);
        let before = reached(fewer, known);
        let last = subscribers.len() - 1;
        if reached(subscribers, outcomes).contains(subscriber) {
            if before.contains(subscriber) {
                let i = choose|i: int|
                    0 <= i < fewer.len() && #[trigger] fewer[i] == subscriber && known[i];
                assert(subscribers[i] == subscriber && outcomes[i]);
            } else {
                assert(subscribers[last] == subscriber && outcomes[last]);
            }
        }
        if exists|i: int|
            0 <= i < subscribers.len() && #[trigger] subscribers[i] == subscriber && outcomes[i] {
            let i = choose|i: int|
                0 <= i < subscribers.len() && #[trigger] subscribers[i] == subscriber
                    && outcomes[i];
            if i < last {
                assert(fewer[i] == subscriber && known[i]);
                let at = choose|at: int| 0 <= at < before.len() && before[at] == subscriber;
                assert(reached(subscribers, outcomes)[at] == subscriber);
            } else {
                assert(before.push(subscriber)[before.len() as int] == subscriber);
            }
        }
        if forall|i: int| 0 <= i < outcomes.len() ==> outcomes[i] {
            assert forall|i: int| 0 <= i < known.len() implies known[i] by {
                assert(known[i] == outcomes[i]);
            }
            assert(outcomes[last]);
            assert(fewer.push(subscribers.last()) =~= subscribers);
        }
    } else {
        assert(reached(subscribers, outcomes) =~= subscribers);
    }
}

/// The subscribers that stay keep their order: those of two groups that stay
/// are those of the first followed by those of the second.
pub proof fn subscribers_keep_their_order(
    subscribers: Seq<u64>,
    outcomes: Seq<bool>,
    later: Seq<u64>,
    known: Seq<bool>,
)
    requires
        subscribers.len() == outcomes.len(),
        later.len() == known.len(),
    ensures
        reached(subscribers + later, outcomes + known) == reached(subscribers, outcomes) + reached(
            later,
            known,
        ),
    decreases later.len(),
{
    let all = subscribers + later;
    let told = outcomes + known;
    if later.len() > 0 {
        subscribers_keep_their_order(subscribers, outcomes, later.drop_last(), known.drop_last());
        assert(all.drop_last() =~= subscribers + later.drop_last());
        assert(told.drop_last() =~= outcomes + known.drop_last());
        assert(reached(all, told) =~= reached(subscribers, outcomes) + reached(later, known));
    } else {
        assert(all =~= subscribers && told =~= outcomes);
        assert(reached(subscribers, outcomes) + reached(later, known) =~= reached(
            subscribers,
            outcomes,
        ));
    }
}

/// A listener that was stopped follows nothing and has no error; it keeps its
/// subscribers, its path and its times. One that was never started has none.
pub proof fn stopped_listeners_follow_nothing(
    listener: ConsoleLogListener,
    next: ConsoleLogListener,
    fresh: ConsoleLogListener,
)
    requires
        listener.stopped(next),
        fresh.fresh(),
    ensures
        next.status.phase is Stopped,
        next.status.current_error is None,
        !next.running,
        next.subscribers == listener.subscribers,
        next.next_subscriber == listener.next_subscriber,
        next.status.configured_path == listener.status.configured_path,
        next.status.last_activity_at == listener.status.last_activity_at,
        next.status.last_event_at == listener.status.last_event_at,
        fresh.status.phase is Stopped,
        fresh.status.current_error is None && fresh.status.configured_path is None,
        fresh.status.last_activity_at is None && fresh.status.last_event_at is None,
        fresh.subscribers@.len() == 0,
        !fresh.running,
{
}

/// A log is followed through creation, replacement and truncation. A file that
/// is missing is waited for, and nothing of what it holds once it is there is
/// skipped; another file in its place is opened and read from its start; the
/// same file is read on, after a look at whether it was cut. What cannot be
/// looked at is told, and the open log kept.
pub proof fn logs_are_followed_through_change()
    ensures
        forall|
            worker: &mut TailWorker,
            status: &mut ListenerStatus,
            inspection: Inspection,
            action: TailAction,
        |
            #[trigger] call_ensures(TailWorker::inspect, (worker, status, inspection), action) ==> {
                &&& inspection is Missing ==> action is Pause && final(worker).open_log is None
                    && !final(worker).skip_first_success && final(status).phase is WaitingForFile
                &&& inspection is NotAFile ==> action is Pause && final(worker).open_log is None
                    && final(status).phase is Failed
                &&& inspection is Unreadable ==> action is Pause && *final(worker) == *worker
                    && final(status).phase is Failed
                &&& inspection matches Inspection::File { identity, length } ==> match worker.open_log {
                    Some(log) => if log.identity == identity {
                        &&& final(worker).open_log == worker.open_log
                        &&& !(action is Open) && !(action is Pause)
                        &&& length < log.offset ==> action is Rewind
                    } else {
                        &&& action == TailAction::Open { skip_existing: worker.skip_first_success }
                        &&& final(worker).open_log is None
                    },
                    None => action == TailAction::Open { skip_existing: worker.skip_first_success },
                }
                &&& final(worker).path == worker.path
            },
        forall|
            worker: &mut TailWorker,
            status: &mut ListenerStatus,
            result: Result<Vec<u8>, String>,
            action: TailAction,
        |
            #[trigger] call_ensures(TailWorker::compared, (worker, status, result), action) ==> {
                &&& result matches Ok(bytes) ==> (action is Read <==> bytes@
                    == worker.open_log->0.checkpoint@) && (action is Rewind <==> bytes@
                    != worker.open_log->0.checkpoint@)
                &&& result is Err ==> action is Pause && final(status).phase is Failed
                &&& *final(worker) == *worker
            },
        forall|
            worker: &mut TailWorker,
            status: &mut ListenerStatus,
            result: Result<(), String>,
            action: TailAction,
        |
            #[trigger] call_ensures(TailWorker::rewound, (worker, status, result), action) ==> {
                &&& result is Ok ==> action is Read && (final(worker).open_log matches Some(log)
                    && log.offset == 0 && log.checkpoint@.len() == 0 && log.incomplete_line@.len()
                    == 0)
                &&& result is Err ==> action is Pause && *final(worker) == *worker
            },
{
}

/// Where the first attempt to open a log finds it, it is followed at once;
/// where it is missing, all of it is read once it is there; only where the
/// attempt failed is what it holds then skipped.
pub proof fn first_attempts_decide_what_is_skipped()
    ensures
        forall|
            listener: &mut ConsoleLogListener,
            path: String,
            first: FirstOpen,
            worker: TailWorker,
        |
            #[trigger] call_ensures(ConsoleLogListener::follow, (listener, path, first), worker)
                ==> {
                &&& worker.path@ == path@
                &&& worker.skip_first_success <==> first is Failed
                &&& first matches FirstOpen::Opened(log) ==> worker.open_log == Some(log)
                    && final(listener).status.phase is Listening
                &&& !(first is Opened) ==> worker.open_log is None
                    && final(listener).status.phase is WaitingForFile
                &&& final(listener).status.configured_path matches Some(kept) && kept@ == path@
                &&& final(listener).subscribers == listener.subscribers
            },
        forall|
            listener: &mut ConsoleLogListener,
            outcomes: &Vec<bool>,
            now: u64,
            delivered: bool,
        |
            #[trigger] call_ensures(ConsoleLogListener::broadcast, (listener, outcomes, now), delivered)
                ==> {
                &&& delivered <==> exists|i: int| 0 <= i < outcomes@.len() && outcomes@[i]
                &&& final(listener).status.last_event_at == if delivered {
                    Some(now)
                } else {
                    listener.status.last_event_at
                }
                &&& final(listener).status.phase == listener.status.phase
            },
{
}

} // verus!
