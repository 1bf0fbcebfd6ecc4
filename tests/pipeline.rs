use mikoyan::router::missing_document_route;
use mikoyan::{
    normalize_at, on_change, parse_command, route_error, seed_copy, Args, Backfill, Capture,
    CaptureStep, Command, Field, NOption, NormalizeError, ObjectId, Progress, Record, Reply,
    Route, RunFlags, SeedBatch, Value, WriteMode, WriteOp, SEED_BATCH,
};

fn text(s: &str) -> Value {
    Value::Text(s.to_string())
}

fn doc(id: u8, email: &str) -> Record {
    Record {
        fields: vec![
            Field { key: "_id".to_string(), value: Value::ObjectId(ObjectId { bytes: [id; 12] }) },
            Field { key: "email".to_string(), value: text(email) },
        ],
    }
}

fn op_id(op: &WriteOp) -> u8 {
    match op {
        WriteOp::Insert(u) | WriteOp::UpsertSet(u) | WriteOp::UpsertSetOnInsert(u) => u.id.bytes[0],
    }
}

#[test]
fn backfill_flushes_full_batches_and_drains_the_rest() {
    let mut b = Backfill::new(2, WriteMode::UpsertSetOnInsert, 3);
    let s1 = b.accept(doc(1, "a@x"), 10);
    assert!(s1.batch.is_none() && s1.route.is_none());
    let s2 = b.accept(doc(2, "b@x"), 10);
    let batch = s2.batch.unwrap();
    assert_eq!(batch.len(), 2);
    assert!(matches!(batch[0], WriteOp::UpsertSetOnInsert(_)));
    assert_eq!(op_id(&batch[0]), 1);
    assert_eq!(op_id(&batch[1]), 2);
    let s3 = b.accept(doc(3, "c@x"), 10);
    assert!(s3.batch.is_none());
    let rest = b.drain().unwrap();
    assert_eq!(rest.len(), 1);
    assert_eq!(op_id(&rest[0]), 3);
    assert!(b.drain().is_none());
}

#[test]
fn insert_only_mode_writes_inserts() {
    let mut b = Backfill::new(1, WriteMode::InsertOnly, 1);
    let batch = b.accept(doc(4, "d@x"), 1).batch.unwrap();
    assert!(matches!(batch[0], WriteOp::Insert(_)));
}

#[test]
fn backfill_routes_failures_without_writing() {
    let mut b = Backfill::new(1, WriteMode::UpsertSetOnInsert, 2);
    let step = b.accept(doc(5, ""), 1);
    assert!(step.batch.is_none());
    match step.route {
        Some(Route::Quarantine { doc }) => {
            assert_eq!(doc.fields.len(), 2);
            assert!(matches!(&doc.fields[1].value, Value::Text(s) if s.is_empty()));
        }
        other => panic!("unexpected route {:?}", other),
    }
    assert!(b.drain().is_none());
}

#[test]
fn stopped_backfill_hands_out_nothing() {
    let mut b = Backfill::new(2, WriteMode::UpsertSetOnInsert, 4);
    assert!(b.accept(doc(1, "a@x"), 1).batch.is_none());
    b.stop();
    let s = b.accept(doc(2, "b@x"), 1);
    assert!(s.batch.is_none() && s.route.is_none());
    assert!(b.drain().is_none());
    let mut again = Backfill::new(2, WriteMode::UpsertSetOnInsert, 4);
    assert!(again.accept(doc(1, "a@x"), 2).batch.is_none());
    assert_eq!(again.accept(doc(2, "b@x"), 2).batch.unwrap().len(), 2);
}

#[test]
fn progress_is_reported_at_whole_percentages() {
    let mut b = Backfill::new(1, WriteMode::UpsertSetOnInsert, 250);
    assert_eq!(b.flushed(2), None);
    assert_eq!(b.flushed(1), Some(Progress { processed: 3, total: 250 }));
    assert_eq!(b.flushed(2), None);
    assert_eq!(b.flushed(1), Some(Progress { processed: 6, total: 250 }));
    let mut empty = Backfill::new(1, WriteMode::UpsertSetOnInsert, 0);
    assert_eq!(empty.flushed(10), None);
    let p = Progress { processed: 100, total: 1000 };
    assert_eq!(p.per_second(0), 100);
    assert_eq!(p.per_second(7), 14);
}

#[test]
fn capture_overwrites_with_the_latest_snapshot() {
    match on_change(Some(doc(9, "z@x")), 77) {
        CaptureStep::Write(WriteOp::UpsertSet(u)) => {
            assert_eq!(u.id.bytes, [9; 12]);
            assert_eq!(u.last_updated_at_in_ms, 77);
        }
        other => panic!("unexpected step {:?}", other),
    }
    match on_change(None, 77) {
        CaptureStep::Route(Route::Log { tag, message }) => {
            assert_eq!(tag, "Change Stream Error");
            assert_eq!(message, "No full document");
        }
        other => panic!("unexpected step {:?}", other),
    }
    let mut c = Capture::new();
    assert!(c.next_event(Some(doc(1, "a@x")), 1).is_some());
    c.stop();
    assert!(c.next_event(Some(doc(1, "a@x")), 1).is_none());
    assert_eq!(c.applied, 1);
}

#[test]
fn router_sends_each_failure_to_its_sink() {
    let mut bad = doc(0xab, "a@x");
    bad.fields.push(Field { key: "theme".to_string(), value: Value::Int32(1) });
    let err = normalize_at(bad, 1).unwrap_err();
    match route_error(err) {
        Route::Log { tag, message } => {
            assert_eq!(tag, "abababababababababababab");
            assert_eq!(message, "unexpected type in field theme");
        }
        other => panic!("unexpected route {:?}", other),
    }
    let anonymous = Record { fields: vec![] };
    match route_error(NormalizeError::AmbiguousIdentity { doc: anonymous }) {
        Route::LogRecord { tag, doc } => {
            assert_eq!(tag, "Confused ID");
            assert!(doc.fields.is_empty());
        }
        other => panic!("unexpected route {:?}", other),
    }
    assert!(matches!(missing_document_route(), Route::Log { .. }));
}

#[test]
fn commands_toggle_their_flags() {
    assert_eq!(parse_command("  c \n"), Command::ToggleCapture);
    assert_eq!(parse_command("n"), Command::ToggleBackfill);
    assert_eq!(parse_command("cn"), Command::Unknown);
    assert_eq!(parse_command(""), Command::Unknown);
    let mut flags = RunFlags::initial(false);
    assert!(flags.capture && !flags.backfill);
    assert_eq!(flags.apply(Command::ToggleBackfill), Reply::BackfillToggled(true));
    assert!(!flags.backfill_may_scan());
    flags.capture_confirmed();
    assert!(flags.backfill_may_scan());
    assert_eq!(flags.apply(Command::ToggleCapture), Reply::CaptureToggled(false));
    assert_eq!(flags.apply(Command::Unknown), Reply::Usage);
    flags.shutdown();
    assert!(!flags.capture && !flags.backfill);
    let mut args = Args {
        logs: "logs.log".to_string(),
        uri: "u".to_string(),
        batch_size: 0,
        insert_only: false,
    };
    assert!(!args.is_valid());
    assert_eq!(args.write_mode(), WriteMode::UpsertSetOnInsert);
    args.insert_only = true;
    assert_eq!(args.write_mode(), WriteMode::InsertOnly);
}

#[test]
fn seeded_copy_is_unique_and_anonymous() {
    let mut d = doc(3, "old@x");
    d.fields.push(Field { key: "username".to_string(), value: text("old") });
    d.fields.push(Field { key: "about".to_string(), value: text("kept") });
    let r = seed_copy(d, 255);
    assert!(r.get("_id").is_none());
    assert!(matches!(r.get("email"), Some(Value::Text(s)) if s == "fcc_FF@gmail.com"));
    assert!(matches!(r.get("username"), Some(Value::Text(s)) if s == "fcc_FF"));
    assert!(matches!(r.get("unsubscribeId"), Some(Value::Text(s)) if s == "fcc_FF"));
    assert!(matches!(r.get("about"), Some(Value::Text(s)) if s == "kept"));
    let mut batch = SeedBatch::new();
    for i in 0..SEED_BATCH - 1 {
        assert!(batch.add(doc(i as u8, "x@y")).is_none());
    }
    assert_eq!(batch.add(doc(0, "x@y")).unwrap().len(), SEED_BATCH);
    assert!(batch.drain().is_none());
}

#[test]
fn stored_form_omits_undefined_fields() {
    let mut d = doc(2, "a@x");
    d.fields.push(Field { key: "newEmail".to_string(), value: Value::Null });
    d.fields.push(Field { key: "externalId".to_string(), value: text("ext") });
    let u = normalize_at(d, 42).unwrap();
    assert_eq!(u.current_challenge_id, NOption::Undefined);
    let r = u.into_record();
    assert_eq!(r.fields.len(), 57);
    assert!(r.get("currentChallengeId").is_none());
    assert!(matches!(r.get("externalId"), Some(Value::Text(s)) if s == "ext"));
    assert!(matches!(r.get("newEmail"), Some(Value::Null)));
    assert!(matches!(r.get("lastUpdatedAtInMS"), Some(Value::Int64(42))));
    assert!(matches!(r.get("_id"), Some(Value::ObjectId(id)) if id.bytes == [2; 12]));
}

fn run_backfill(source: &[(u8, &str)], now: u64) -> Vec<WriteOp> {
    let mut b = Backfill::new(2, WriteMode::UpsertSetOnInsert, source.len() as u64);
    let mut written = Vec::new();
    for (id, email) in source {
        if let Some(batch) = b.accept(doc(*id, email), now).batch {
            written.extend(batch);
        }
    }
    if let Some(batch) = b.drain() {
        written.extend(batch);
    }
    written
}

#[test]
fn rerun_writes_the_same_identities_only_on_insert() {
    let source = [(1, "a@x"), (2, ""), (3, "c@x"), (4, "d@x")];
    let first = run_backfill(&source, 100);
    let second = run_backfill(&source, 200);
    let ids = |ops: &Vec<WriteOp>| ops.iter().map(op_id).collect::<Vec<u8>>();
    assert_eq!(ids(&first), vec![1, 3, 4]);
    assert_eq!(ids(&first), ids(&second));
    assert!(second.iter().all(|op| matches!(op, WriteOp::UpsertSetOnInsert(_))));
}

#[test]
fn capture_write_overwrites_where_backfill_only_inserts() {
    let backfilled = run_backfill(&[(6, "old@x")], 1);
    assert!(matches!(backfilled[0], WriteOp::UpsertSetOnInsert(_)));
    match on_change(Some(doc(6, "new@x")), 2) {
        CaptureStep::Write(WriteOp::UpsertSet(u)) => {
            assert_eq!(u.id.bytes, [6; 12]);
            assert_eq!(u.email, "new@x");
        }
        other => panic!("unexpected step {:?}", other),
    }
}
