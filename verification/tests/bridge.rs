use deadlockshock::bridge_listener::{
    checkpoint_length, update_checkpoint, ConsoleLogListener, FileIdentity, FirstOpen, Inspection,
    ListenerPhase, ListenerStatus, OpenLog, TailAction, TailWorker,
};
use deadlockshock::bridge_record::{
    consume_bytes, parse_bridge_record, AbilityCatalog, AbilityCatalogEntry, AbilityTrigger,
    BridgeEvent, HookReady, LocalPlayerDeath, MAX_INCOMPLETE_LINE_BYTES,
};
use serde_json::Value;

const READY_RECORD: &str = "[DEADLOCK_DEATH_HOOK]{\"schema\":1,\"event\":\"hook_ready\",\"session_id\":\"abc-1\",\"client_time_ms\":1700000000000,\"poll_interval_ms\":100}";
const DEATH_RECORD: &str = "[DEADLOCK_DEATH_HOOK]{\"schema\":1,\"event\":\"local_player_death\",\"session_id\":\"abc-1\",\"client_time_ms\":1700000000123,\"sequence\":7,\"detection\":\"top_bar_local_player_dead_class\"}";

fn text(value: &Value, name: &str) -> Option<String> {
    value.get(name)?.as_str().map(str::to_owned)
}

fn number(value: &Value, name: &str) -> Option<u64> {
    value.get(name)?.as_u64()
}

fn optional<T>(value: &Value, name: &str, read: fn(&Value, &str) -> Option<T>) -> Option<Option<T>> {
    match value.get(name) {
        None | Some(Value::Null) => Some(None),
        Some(_) => read(value, name).map(Some),
    }
}

fn entry(value: &Value) -> Option<AbilityCatalogEntry> {
    Some(AbilityCatalogEntry {
        ability_slot: u32::try_from(number(value, "ability_slot")?).ok()?,
        ability_name: optional(value, "ability_name", text)?,
    })
}

fn ability(value: &Value) -> Option<AbilityTrigger> {
    Some(AbilityTrigger {
        schema: u32::try_from(number(value, "schema")?).ok()?,
        session_id: text(value, "session_id")?,
        client_time_ms: number(value, "client_time_ms")?,
        sequence: number(value, "sequence")?,
        ability_slot: u32::try_from(number(value, "ability_slot")?).ok()?,
        ability_name: optional(value, "ability_name", text)?,
        detection: text(value, "detection")?,
        charges_before: optional(value, "charges_before", number)?,
        charges_after: optional(value, "charges_after", number)?,
    })
}

fn decode(payload: &str) -> Option<BridgeEvent> {
    let value: Value = serde_json::from_str(payload).ok()?;
    match value.get("event")?.as_str()? {
        "hook_ready" => Some(BridgeEvent::HookReady(HookReady {
            schema: u32::try_from(number(&value, "schema")?).ok()?,
            session_id: text(&value, "session_id")?,
            client_time_ms: number(&value, "client_time_ms")?,
            poll_interval_ms: number(&value, "poll_interval_ms")?,
        })),
        "ability_catalog" => Some(BridgeEvent::AbilityCatalog(AbilityCatalog {
            schema: u32::try_from(number(&value, "schema")?).ok()?,
            session_id: text(&value, "session_id")?,
            client_time_ms: number(&value, "client_time_ms")?,
            abilities: value
                .get("abilities")?
                .as_array()?
                .iter()
                .map(entry)
                .collect::<Option<Vec<AbilityCatalogEntry>>>()?,
        })),
        "local_player_death" => Some(BridgeEvent::LocalPlayerDeath(LocalPlayerDeath {
            schema: u32::try_from(number(&value, "schema")?).ok()?,
            session_id: text(&value, "session_id")?,
            client_time_ms: number(&value, "client_time_ms")?,
            sequence: number(&value, "sequence")?,
            detection: text(&value, "detection")?,
        })),
        "ability_used" => ability(&value).map(BridgeEvent::AbilityUsed),
        "ability_cooldown_ready" => ability(&value).map(BridgeEvent::AbilityCooldownReady),
        _ => None,
    }
}

fn parse(record: &str) -> Option<BridgeEvent> {
    parse_bridge_record(record, decode)
}

#[test]
fn parser_accepts_exact_mod_payloads_and_console_decoration() {
    assert_eq!(
        parse(READY_RECORD),
        Some(BridgeEvent::HookReady(HookReady {
            schema: 1,
            session_id: "abc-1".to_owned(),
            client_time_ms: 1_700_000_000_000,
            poll_interval_ms: 100,
        }))
    );
    assert_eq!(
        parse(&format!("[Console] {DEATH_RECORD}")),
        Some(BridgeEvent::LocalPlayerDeath(LocalPlayerDeath {
            schema: 1,
            session_id: "abc-1".to_owned(),
            client_time_ms: 1_700_000_000_123,
            sequence: 7,
            detection: "top_bar_local_player_dead_class".to_owned(),
        }))
    );
}

#[test]
fn parser_ignores_unrelated_unknown_and_malformed_records() {
    assert_eq!(parse("ordinary console output"), None);
    assert_eq!(
        parse("[DEADLOCK_DEATH_HOOK]{\"schema\":2,\"event\":\"hook_ready\"}"),
        None
    );
    assert_eq!(
        parse("[DEADLOCK_DEATH_HOOK]{\"schema\":1,\"event\":\"future_event\"}"),
        None
    );
    assert_eq!(parse("[DEADLOCK_DEATH_HOOK]{bad"), None);
}

#[test]
fn reported_events_carry_the_name_in_their_record() {
    let common = "\"schema\":1,\"session_id\":\"s\",\"client_time_ms\":1";
    for (name, rest) in [
        ("hook_ready", "\"poll_interval_ms\":2"),
        (
            "ability_catalog",
            "\"abilities\":[{\"ability_slot\":1},{\"ability_slot\":2,\"ability_name\":\"Slash\"}]",
        ),
        ("local_player_death", "\"sequence\":3,\"detection\":\"d\""),
        (
            "ability_used",
            "\"sequence\":4,\"ability_slot\":1,\"ability_name\":null,\"detection\":\"d\"",
        ),
        (
            "ability_cooldown_ready",
            "\"sequence\":5,\"ability_slot\":1,\"detection\":\"d\",\"charges_before\":0,\"charges_after\":1",
        ),
    ] {
        let record = format!("[DEADLOCK_DEATH_HOOK]{{\"event\":\"{name}\",{common},{rest}}}");
        assert_eq!(parse(&record).expect("a known event").event_name(), name);
    }
    let mistyped = format!(
        "[DEADLOCK_DEATH_HOOK]{{\"event\":\"ability_used\",{common},\"sequence\":4,\"ability_slot\":1,\"ability_name\":7,\"detection\":\"d\"}}"
    );
    assert_eq!(parse(&mistyped), None);
}

#[test]
fn cutting_a_log_changes_neither_events_nor_the_open_line() {
    let text = format!("noise\n{READY_RECORD}\r\n{DEATH_RECORD}\nopen");
    let bytes = text.as_bytes();
    let mut whole_line = Vec::new();
    let mut whole_flag = false;
    let whole = consume_bytes(&mut whole_line, &mut whole_flag, bytes, decode);
    assert_eq!(whole.len(), 2);
    for cut in 0..=bytes.len() {
        let mut line = Vec::new();
        let mut flag = false;
        let mut events = consume_bytes(&mut line, &mut flag, &bytes[..cut], decode);
        events.extend(consume_bytes(&mut line, &mut flag, &bytes[cut..], decode));
        assert_eq!(events, whole);
        assert_eq!((&line, flag), (&whole_line, whole_flag));
    }
}

#[test]
fn parser_hands_on_what_follows_the_first_prefix() {
    let given = std::cell::RefCell::new(Vec::new());
    let record = "é [DEADLOCK_DEATH_HOOK]a[DEADLOCK_DEATH_HOOK]b";
    let event = parse_bridge_record(record, |payload| {
        given.borrow_mut().push(payload.to_owned());
        None
    });
    assert_eq!(event, None);
    assert_eq!(given.into_inner(), vec!["a[DEADLOCK_DEATH_HOOK]b".to_owned()]);
}

#[test]
fn parser_refuses_other_schemas() {
    let event = |schema: u32| {
        Some(BridgeEvent::AbilityCatalog(AbilityCatalog {
            schema,
            session_id: "s".to_owned(),
            client_time_ms: 1,
            abilities: vec![AbilityCatalogEntry {
                ability_slot: 1,
                ability_name: None,
            }],
        }))
    };
    assert_eq!(
        parse_bridge_record("[DEADLOCK_DEATH_HOOK]", |_| event(1)),
        event(1)
    );
    assert_eq!(
        parse_bridge_record("[DEADLOCK_DEATH_HOOK]", |_| event(2)),
        None
    );
}

#[test]
fn events_have_their_wire_names() {
    assert_eq!(parse(READY_RECORD).unwrap().event_name(), "hook_ready");
    assert_eq!(
        parse(DEATH_RECORD).unwrap().event_name(),
        "local_player_death"
    );
    let used = "[DEADLOCK_DEATH_HOOK]{\"schema\":1,\"event\":\"ability_used\",\"session_id\":\"s\",\"client_time_ms\":7,\"sequence\":3,\"ability_slot\":2,\"detection\":\"d\"}";
    assert_eq!(parse(used).unwrap().event_name(), "ability_used");
    assert_eq!(
        parse(&used.replace("ability_used", "ability_cooldown_ready"))
            .unwrap()
            .event_name(),
        "ability_cooldown_ready"
    );
    assert_eq!(
        BridgeEvent::AbilityCatalog(AbilityCatalog {
            schema: 1,
            session_id: String::new(),
            client_time_ms: 0,
            abilities: vec![],
        })
        .event_name(),
        "ability_catalog"
    );
}

#[test]
fn oversized_records_are_discarded_without_losing_the_next_record() {
    let mut incomplete = Vec::new();
    let mut discarding = false;
    let mut bytes = vec![b'x'; MAX_INCOMPLETE_LINE_BYTES + 1];
    bytes.push(b'\n');
    bytes.extend_from_slice(READY_RECORD.as_bytes());
    bytes.push(b'\n');

    let events = consume_bytes(&mut incomplete, &mut discarding, &bytes, decode);

    assert!(incomplete.len() <= MAX_INCOMPLETE_LINE_BYTES);
    assert!(!discarding);
    assert_eq!(
        events,
        vec![parse(READY_RECORD).expect("parse expected ready")]
    );
}

#[test]
fn lines_of_the_greatest_length_are_kept() {
    let mut record = READY_RECORD.as_bytes().to_vec();
    let mut line = vec![b' '; MAX_INCOMPLETE_LINE_BYTES - record.len()];
    line.append(&mut record);
    line.push(b'\n');
    let (mut incomplete, mut discarding) = (Vec::new(), false);
    assert_eq!(
        consume_bytes(&mut incomplete, &mut discarding, &line, decode).len(),
        1
    );
    line.insert(0, b' ');
    assert_eq!(
        consume_bytes(&mut incomplete, &mut discarding, &line, decode),
        vec![]
    );
    assert!(!discarding && incomplete.is_empty());
}

#[test]
fn chunks_do_not_change_what_is_delivered() {
    let mut log = Vec::new();
    log.extend_from_slice(b"noise\r\n");
    log.extend_from_slice(READY_RECORD.as_bytes());
    log.extend_from_slice(b"\r\n\xff\xfe\n[Console] ");
    log.extend_from_slice(DEATH_RECORD.as_bytes());
    log.extend_from_slice(b"\n\n[DEADLOCK_DEATH_HOOK]");
    let (mut incomplete, mut discarding) = (Vec::new(), false);
    let whole = consume_bytes(&mut incomplete, &mut discarding, &log, decode);
    assert_eq!(
        whole,
        vec![parse(READY_RECORD).unwrap(), parse(DEATH_RECORD).unwrap()]
    );
    assert_eq!(incomplete, b"[DEADLOCK_DEATH_HOOK]".to_vec());
    for size in [1, 2, 3, 7, 64] {
        let (mut rest, mut dropping) = (Vec::new(), false);
        let mut events = Vec::new();
        for chunk in log.chunks(size) {
            events.append(&mut consume_bytes(&mut rest, &mut dropping, chunk, decode));
        }
        assert_eq!(events, whole);
        assert_eq!(rest, incomplete);
        assert_eq!(dropping, discarding);
    }
}

#[test]
fn checkpoint_holds_the_last_bytes() {
    let stream: Vec<u8> = (0..=255_u8).collect();
    for size in [1, 5, 63, 64, 65, 200] {
        let mut checkpoint = Vec::new();
        let mut read = 0;
        for chunk in stream.chunks(size) {
            update_checkpoint(&mut checkpoint, chunk);
            read += chunk.len();
            let expected = &stream[read.saturating_sub(64)..read];
            assert_eq!(checkpoint, expected);
            assert_eq!(checkpoint_length(read as u64), expected.len());
        }
    }
}

/// A log in memory, read as the listener asks for it.
struct Log {
    bytes: Option<Vec<u8>>,
    inode: u64,
    position: usize,
    opened: Vec<u8>,
}

impl Log {
    fn new(bytes: Option<&str>) -> Self {
        Log {
            bytes: bytes.map(|text| text.as_bytes().to_vec()),
            inode: 1,
            position: 0,
            opened: Vec::new(),
        }
    }

    fn identity(&self) -> FileIdentity {
        FileIdentity {
            device: 1,
            inode: self.inode,
        }
    }

    fn append(&mut self, text: &str) {
        let bytes = self.bytes.get_or_insert_with(Vec::new);
        bytes.extend_from_slice(text.as_bytes());
    }

    fn open(&mut self, skip_existing: bool) -> Option<OpenLog> {
        self.opened = self.bytes.clone()?;
        self.position = if skip_existing { self.opened.len() } else { 0 };
        let length = checkpoint_length(self.position as u64);
        Some(OpenLog::open(
            self.identity(),
            self.position as u64,
            self.opened[self.position - length..self.position].to_vec(),
        ))
    }
}

/// One round of the listener.
fn round(
    worker: &mut TailWorker,
    status: &mut ListenerStatus,
    log: &mut Log,
    now: u64,
) -> Vec<BridgeEvent> {
    let mut events = Vec::new();
    let inspection = match &log.bytes {
        Some(bytes) => Inspection::File {
            identity: log.identity(),
            length: bytes.len() as u64,
        },
        None => Inspection::Missing,
    };
    let mut action = worker.inspect(status, inspection);
    loop {
        action = match action {
            TailAction::Pause => return events,
            TailAction::Open { skip_existing } => {
                let opened = log.open(skip_existing).ok_or_else(|| "gone".to_owned());
                worker.opened(status, opened)
            }
            TailAction::Compare { start, length } => {
                let bytes = log.bytes.as_ref().unwrap();
                let found = bytes[start as usize..start as usize + length].to_vec();
                worker.compared(status, Ok(found))
            }
            TailAction::Rewind => {
                log.position = 0;
                worker.rewound(status, Ok(()))
            }
            TailAction::Read => {
                let bytes = log.bytes.as_ref().unwrap();
                let end = bytes.len().min(log.position + 10);
                let chunk = bytes[log.position..end].to_vec();
                log.position = end;
                let (mut found, next) = worker.read(status, now, Ok(chunk), decode);
                events.append(&mut found);
                next
            }
        };
    }
}

/// A listener that follows a log, and its work.
fn follow(log: &mut Log) -> (ConsoleLogListener, TailWorker) {
    let mut listener = ConsoleLogListener::new();
    let path = "/logs/console.log".to_owned();
    assert!(listener.start(&path));
    let first = match log.open(true) {
        Some(opened) => FirstOpen::Opened(opened),
        None => FirstOpen::Missing,
    };
    let worker = listener.follow(path, first);
    assert_eq!(listener.spawned(Ok(())), Ok(()));
    (listener, worker)
}

#[test]
fn existing_history_is_skipped_and_activity_requires_new_bytes() {
    let mut log = Log::new(Some(&format!("{READY_RECORD}\n")));
    let (mut listener, mut worker) = follow(&mut log);
    listener.subscribe();
    let mut status = listener.status();
    assert_eq!(status.phase, ListenerPhase::Listening);

    assert_eq!(round(&mut worker, &mut status, &mut log, 1), vec![]);
    assert_eq!(status.last_activity_at, None);
    log.append("unrelated output\n");
    assert_eq!(round(&mut worker, &mut status, &mut log, 2), vec![]);
    assert_eq!(status.last_activity_at, Some(2));
    assert_eq!(listener.status().last_event_at, None);

    log.append(&format!("{DEATH_RECORD}\n"));
    assert_eq!(
        round(&mut worker, &mut status, &mut log, 3),
        vec![parse(DEATH_RECORD).unwrap()]
    );
    assert!(listener.broadcast(&vec![true], 3));
    assert!(listener.status().last_event_at.is_some());
    assert_eq!(status.phase, ListenerPhase::Listening);
}

#[test]
fn partial_lines_wait_for_newline_and_broadcast_to_every_subscriber() {
    let mut log = Log::new(Some(""));
    let (mut listener, mut worker) = follow(&mut log);
    let mut status = listener.status();
    let first = listener.subscribe();
    let second = listener.subscribe();
    assert_ne!(first, second);

    log.append(DEATH_RECORD);
    assert_eq!(round(&mut worker, &mut status, &mut log, 1), vec![]);
    assert_eq!(status.last_activity_at, Some(1));
    log.append("\n");
    assert_eq!(
        round(&mut worker, &mut status, &mut log, 2),
        vec![parse(DEATH_RECORD).unwrap()]
    );
    assert!(listener.broadcast(&vec![true, true], 2));
    assert_eq!(listener.status().last_event_at, Some(2));

    let late = listener.subscribe();
    assert_eq!(listener.subscribers, vec![first, second, late]);
    log.append(&format!("{READY_RECORD}\n"));
    assert_eq!(
        round(&mut worker, &mut status, &mut log, 3),
        vec![parse(READY_RECORD).unwrap()]
    );
    assert!(listener.broadcast(&vec![true, true, true], 3));
    assert_eq!(listener.subscribers, vec![first, second, late]);
    assert_eq!(listener.status().last_event_at, Some(3));
}

#[test]
fn subscribers_that_are_gone_are_dropped() {
    let mut listener = ConsoleLogListener::new();
    let first = listener.subscribe();
    listener.subscribe();
    let third = listener.subscribe();
    assert!(listener.broadcast(&vec![true, false, true], 3));
    assert_eq!(listener.subscribers, vec![first, third]);
    assert!(!listener.broadcast(&vec![false, false], 4));
    assert!(listener.subscribers.is_empty());
    assert_eq!(listener.status().last_event_at, Some(3));
}

#[test]
fn missing_file_is_consumed_from_zero_when_created() {
    let mut log = Log::new(None);
    let (listener, mut worker) = follow(&mut log);
    let mut status = listener.status();
    assert_eq!(status.phase, ListenerPhase::WaitingForFile);
    assert_eq!(round(&mut worker, &mut status, &mut log, 1), vec![]);
    assert_eq!(status.phase, ListenerPhase::WaitingForFile);

    log.append(&format!("{READY_RECORD}\n"));
    assert_eq!(
        round(&mut worker, &mut status, &mut log, 2),
        vec![parse(READY_RECORD).unwrap()]
    );
}

#[test]
fn truncation_and_replacement_are_consumed_from_zero() {
    let mut log = Log::new(Some(""));
    let (listener, mut worker) = follow(&mut log);
    let mut status = listener.status();

    log.append("padding that moves the listener offset\n");
    assert_eq!(round(&mut worker, &mut status, &mut log, 1), vec![]);
    assert_eq!(status.last_activity_at, Some(1));
    log.bytes = Some(format!("{READY_RECORD}\n").into_bytes());
    assert_eq!(
        round(&mut worker, &mut status, &mut log, 2),
        vec![parse(READY_RECORD).unwrap()]
    );

    log.bytes = Some(b"short".to_vec());
    assert_eq!(round(&mut worker, &mut status, &mut log, 3), vec![]);
    assert_eq!(log.position, 5);

    log.bytes = Some(format!("{DEATH_RECORD}\n").into_bytes());
    log.inode = 2;
    assert_eq!(
        round(&mut worker, &mut status, &mut log, 4),
        vec![parse(DEATH_RECORD).unwrap()]
    );
}

#[test]
fn a_log_that_could_not_be_opened_first_is_not_read_from_its_start() {
    let mut log = Log::new(Some(&format!("{READY_RECORD}\n")));
    let mut listener = ConsoleLogListener::new();
    let path = "/logs/console.log".to_owned();
    assert!(listener.start(&path));
    let mut worker = listener.follow(path, FirstOpen::Failed);
    let mut status = listener.status();
    assert_eq!(status.phase, ListenerPhase::WaitingForFile);
    assert_eq!(round(&mut worker, &mut status, &mut log, 1), vec![]);
    assert_eq!(status.phase, ListenerPhase::Listening);

    log.inode = 2;
    assert_eq!(
        round(&mut worker, &mut status, &mut log, 2),
        vec![parse(READY_RECORD).unwrap()]
    );
}

#[test]
fn changing_paths_joins_the_old_worker_and_tails_the_new_path() {
    let mut first = Log::new(Some(""));
    let (mut listener, _worker) = follow(&mut first);
    let second_path = "/logs/second.log".to_owned();
    assert!(listener.start(&second_path));
    assert_eq!(listener.status().phase, ListenerPhase::Stopped);

    let mut second = Log::new(Some(&format!("{READY_RECORD}\n")));
    let opened = second.open(true).unwrap();
    let mut worker = listener.follow(second_path.clone(), FirstOpen::Opened(opened));
    assert_eq!(listener.spawned(Ok(())), Ok(()));
    assert_eq!(listener.configured_path(), Some(second_path));
    let mut status = listener.status();
    assert_eq!(round(&mut worker, &mut status, &mut second, 1), vec![]);
    second.append(&format!("{DEATH_RECORD}\n"));
    assert_eq!(
        round(&mut worker, &mut status, &mut second, 2),
        vec![parse(DEATH_RECORD).unwrap()]
    );
}

#[test]
fn same_path_is_a_noop_and_stop_joins_the_worker() {
    let mut log = Log::new(Some(""));
    let (mut listener, _worker) = follow(&mut log);
    assert!(!listener.start(&"/logs/console.log".to_owned()));
    assert!(listener.is_listening());
    listener.stop();
    assert_eq!(listener.status().phase, ListenerPhase::Stopped);
    assert!(!listener.running);
    assert!(listener.start(&"/logs/console.log".to_owned()));
}

#[test]
fn failures_are_told_with_path_and_reason() {
    let mut log = Log::new(Some("abc\n"));
    let (listener, mut worker) = follow(&mut log);
    let mut status = listener.status();
    let path = "/logs/console.log";
    let error = |status: &ListenerStatus| status.current_error.clone().unwrap();

    let action = worker.inspect(&mut status, Inspection::Unreadable("denied".to_owned()));
    assert_eq!(action, TailAction::Pause);
    assert_eq!(status.phase, ListenerPhase::Failed);
    assert_eq!(error(&status), format!("could not inspect {path}: denied"));

    let found = Inspection::File {
        identity: log.identity(),
        length: 4,
    };
    let action = worker.inspect(&mut status, found);
    assert_eq!(
        action,
        TailAction::Compare {
            start: 0,
            length: 4
        }
    );
    let action = worker.compared(&mut status, Err("io".to_owned()));
    assert_eq!(action, TailAction::Pause);
    assert_eq!(
        error(&status),
        format!("could not check {path} for truncation: io")
    );
    let action = worker.rewound(&mut status, Err("seek".to_owned()));
    assert_eq!(action, TailAction::Pause);
    assert_eq!(
        error(&status),
        format!("could not check {path} for truncation: seek")
    );
    let (events, action) = worker.read(&mut status, 1, Err("read".to_owned()), decode);
    assert_eq!((events, action), (vec![], TailAction::Pause));
    assert_eq!(error(&status), format!("could not read {path}: read"));
    assert_eq!(status.last_activity_at, None);

    let action = worker.inspect(&mut status, Inspection::NotAFile);
    assert_eq!(action, TailAction::Pause);
    assert_eq!(error(&status), format!("{path} is not a file"));
    assert!(worker.open_log.is_none());

    let found = Inspection::File {
        identity: log.identity(),
        length: 4,
    };
    let action = worker.inspect(&mut status, found);
    assert_eq!(
        action,
        TailAction::Open {
            skip_existing: false
        }
    );
    let action = worker.opened(&mut status, Err("busy".to_owned()));
    assert_eq!(action, TailAction::Pause);
    assert_eq!(error(&status), format!("could not open {path}: busy"));

    let mut listener = ConsoleLogListener::default();
    assert_eq!(
        listener.spawned(Err("no threads".to_owned())),
        Err("no threads".to_owned())
    );
    assert_eq!(listener.status().phase, ListenerPhase::Failed);
    assert_eq!(
        listener.current_error(),
        Some("could not start listener thread: no threads".to_owned())
    );
}

#[test]
fn liveness_needs_listening_and_recent_activity() {
    let mut status = ListenerStatus::default();
    assert!(!status.is_listening());
    assert_eq!(status.idle_for(100), None);
    assert!(!status.is_live(100, u64::MAX));
    status.last_activity_at = Some(40);
    assert_eq!(status.idle_for(100), Some(60));
    assert_eq!(status.idle_for(10), Some(0));
    assert!(!status.is_live(100, 60));
    status.phase = ListenerPhase::Listening;
    assert!(status.is_live(100, 60));
    assert!(!status.is_live(100, 59));

    let mut listener = ConsoleLogListener::new();
    assert_eq!(ListenerPhase::default(), ListenerPhase::Stopped);
    listener.observe(ListenerPhase::Listening, None, Some(5));
    assert!(!listener.is_listening());
    listener.running = true;
    listener.observe(ListenerPhase::Listening, None, Some(5));
    assert!(listener.is_listening());
    assert_eq!(listener.idle_for(7), Some(2));
    assert!(listener.is_live(7, 2));
    assert!(!listener.is_live(8, 2));
}
