use demo_processor::error::LoadError;
use demo_processor::machine::{Action, Phase, Reply};
use demo_processor::normalizer::normalize_all;
use demo_processor::record::{InputRecord, SourceItem};
use demo_processor::row::TickRow;
use demo_processor::session::{InsertSession, DEFAULT_CHUNK_SIZE};
use demo_processor::value::Value;

fn rows(n: usize) -> Vec<TickRow> {
    (0..n)
        .map(|i| {
            let mut row = TickRow::defaults("m1.dem", "de_dust2");
            row.tick = i as i32;
            row
        })
        .collect()
}

/// What a store saw while a session ran against it.
struct Run {
    actions: Vec<Action>,
    inserted_ticks: Vec<i32>,
    positions: Vec<u64>,
    session: InsertSession,
}

/// Runs the session against a store that accepts every action but the one
/// at position `fail_at` of the run, which it refuses with `cause`.
fn drive(mut session: InsertSession, fail_at: Option<usize>, cause: &str) -> Run {
    let mut actions = Vec::new();
    let mut inserted_ticks = Vec::new();
    let mut positions = Vec::new();
    loop {
        let action = session.next_action();
        if action == Action::Stop {
            break;
        }
        let refused = fail_at == Some(actions.len());
        actions.push(action);
        if refused {
            session.record(Reply::Failed { cause: cause.to_string() });
        } else {
            if let Action::Insert { row } = action {
                inserted_ticks.push(session.row(row).unwrap().tick);
            }
            session.record(Reply::Done);
        }
        positions.push(session.progress().position());
        assert!(actions.len() < 10_000);
    }
    Run { actions, inserted_ticks, positions, session }
}

fn script(n: usize) -> Vec<Action> {
    let mut expected = vec![Action::Connect, Action::Prepare, Action::Begin];
    for row in 0..n {
        expected.push(Action::Insert { row });
    }
    expected.push(Action::Commit);
    expected
}

#[test]
fn accepting_store_commits_every_row() {
    for n in [0usize, 1, 2, 5, 37] {
        let run = drive(InsertSession::new(rows(n), 4), None, "");
        assert_eq!(run.actions, script(n));
        assert_eq!(run.inserted_ticks, (0..n as i32).collect::<Vec<i32>>());
        assert_eq!(run.session.phase(), Phase::Committed);
        assert_eq!(run.session.rows_committed(), n);
        assert_eq!(run.session.accepted(), n);
        assert_eq!(run.session.failure(), None);
        assert_eq!(run.session.into_result(), Some(Ok(n)));
    }
}

#[test]
fn load_of_normalized_records_commits_all_of_them() {
    let mut items = Vec::new();
    for tick in 0..6 {
        let mut r = InputRecord::new();
        r.insert("tick".to_string(), Value::Int(tick));
        if tick % 2 == 0 {
            r.insert("hp".to_string(), Value::Null);
            r.insert("name".to_string(), Value::Int(3));
        }
        items.push(SourceItem::Mapping(r));
    }
    let normalized = normalize_all(&items, "m1.dem", "de_dust2").unwrap();
    let run = drive(InsertSession::with_default_chunks(normalized), None, "");
    assert_eq!(run.inserted_ticks, vec![0, 1, 2, 3, 4, 5]);
    assert_eq!(run.session.into_result(), Some(Ok(6)));
}

#[test]
fn exactly_one_begin_and_one_commit() {
    let run = drive(InsertSession::new(rows(9), 2), None, "");
    assert_eq!(run.actions.iter().filter(|a| **a == Action::Begin).count(), 1);
    assert_eq!(run.actions.iter().filter(|a| **a == Action::Commit).count(), 1);
    assert_eq!(run.actions.iter().filter(|a| **a == Action::Connect).count(), 1);
    assert_eq!(run.actions.iter().filter(|a| **a == Action::Prepare).count(), 1);
    assert_eq!(run.actions.last(), Some(&Action::Commit));
}

#[test]
fn refused_row_commits_nothing() {
    let n = 8;
    for k in 0..n {
        let run = drive(InsertSession::new(rows(n), 3), Some(3 + k), "wrong arity");
        assert_eq!(run.session.phase(), Phase::Failed);
        assert_eq!(run.session.rows_committed(), 0);
        assert_eq!(run.session.accepted(), k);
        assert!(!run.actions.contains(&Action::Commit));
        assert_eq!(run.actions.last(), Some(&Action::Insert { row: k }));
        assert_eq!(run.inserted_ticks, (0..k as i32).collect::<Vec<i32>>());
        let expected = LoadError::Insert { row: k, cause: "wrong arity".to_string() };
        assert_eq!(run.session.failure(), Some(&expected));
        assert_eq!(run.session.into_result(), Some(Err(expected)));
    }
}

#[test]
fn connect_failure_ends_the_load() {
    let run = drive(InsertSession::new(rows(3), 2), Some(0), "no such file");
    assert_eq!(run.actions, vec![Action::Connect]);
    let expected = LoadError::Connect { cause: "no such file".to_string() };
    assert_eq!(run.session.into_result(), Some(Err(expected)));
}

#[test]
fn prepare_failure_ends_the_load() {
    let run = drive(InsertSession::new(rows(3), 2), Some(1), "no such table");
    assert_eq!(run.actions, vec![Action::Connect, Action::Prepare]);
    let expected = LoadError::Prepare { cause: "no such table".to_string() };
    assert_eq!(run.session.rows_committed(), 0);
    assert_eq!(run.session.into_result(), Some(Err(expected)));
}

#[test]
fn begin_failure_ends_the_load() {
    let run = drive(InsertSession::new(rows(3), 2), Some(2), "nested transaction");
    assert_eq!(run.actions, vec![Action::Connect, Action::Prepare, Action::Begin]);
    let expected = LoadError::Begin { cause: "nested transaction".to_string() };
    assert_eq!(run.session.into_result(), Some(Err(expected)));
}

#[test]
fn commit_failure_fails_the_whole_load() {
    let n = 5;
    let run = drive(InsertSession::new(rows(n), 2), Some(3 + n), "disk full");
    assert_eq!(run.actions, script(n));
    assert_eq!(run.session.phase(), Phase::Failed);
    assert_eq!(run.session.accepted(), n);
    assert_eq!(run.session.rows_committed(), 0);
    let expected = LoadError::Commit { cause: "disk full".to_string() };
    assert_eq!(run.session.into_result(), Some(Err(expected)));
}

#[test]
fn commit_failure_of_an_empty_load() {
    let run = drive(InsertSession::new(rows(0), 2), Some(3), "disk full");
    assert_eq!(run.actions, vec![Action::Connect, Action::Prepare, Action::Begin, Action::Commit]);
    assert_eq!(run.session.rows_committed(), 0);
    assert_eq!(
        run.session.into_result(),
        Some(Err(LoadError::Commit { cause: "disk full".to_string() }))
    );
}

#[test]
fn chunk_size_does_not_change_the_outcome() {
    let n = 25;
    let sizes = [1usize, 2, 7, 24, 25, 26, DEFAULT_CHUNK_SIZE, usize::MAX];
    let reference = drive(InsertSession::new(rows(n), 1), None, "");
    for size in sizes {
        let run = drive(InsertSession::new(rows(n), size), None, "");
        assert_eq!(run.actions, reference.actions);
        assert_eq!(run.inserted_ticks, reference.inserted_ticks);
        assert_eq!(run.positions, reference.positions);
        assert_eq!(run.session.rows_committed(), n);
    }
    let refused = drive(InsertSession::new(rows(n), 1), Some(3 + 13), "constraint");
    for size in sizes {
        let run = drive(InsertSession::new(rows(n), size), Some(3 + 13), "constraint");
        assert_eq!(run.actions, refused.actions);
        assert_eq!(run.inserted_ticks, refused.inserted_ticks);
        assert_eq!(run.session.rows_committed(), 0);
        assert_eq!(run.session.failure(), refused.session.failure());
    }
}

#[test]
fn default_chunk_size_is_ten_thousand() {
    assert_eq!(DEFAULT_CHUNK_SIZE, 10_000);
    let mut session = InsertSession::with_default_chunks(rows(3));
    for _ in 0..3 {
        session.record(Reply::Done);
    }
    assert_eq!(session.batch(), Some((0, 3)));
}

#[test]
fn chunks_are_consecutive_and_the_last_may_be_short() {
    let mut session = InsertSession::new(rows(10), 4);
    assert_eq!(session.batch(), None);
    for _ in 0..3 {
        session.record(Reply::Done);
    }
    let mut seen = Vec::new();
    while let Action::Insert { row } = session.next_action() {
        let (start, end) = session.batch().unwrap();
        assert!(start <= row && row < end);
        seen.push((start, end));
        session.record(Reply::Done);
    }
    seen.dedup();
    assert_eq!(seen, vec![(0, 4), (4, 8), (8, 10)]);
    assert_eq!(session.batch(), None);
    assert_eq!(session.next_action(), Action::Commit);
}

#[test]
fn phases_follow_the_load() {
    let mut session = InsertSession::new(rows(2), 10);
    assert_eq!(session.total(), 2);
    assert_eq!(session.phase(), Phase::Connecting);
    session.record(Reply::Done);
    assert_eq!(session.phase(), Phase::Preparing);
    session.record(Reply::Done);
    assert_eq!(session.phase(), Phase::Beginning);
    session.record(Reply::Done);
    assert_eq!(session.phase(), Phase::Inserting);
    assert!(!session.is_finished());
    session.record(Reply::Done);
    assert_eq!(session.phase(), Phase::Inserting);
    assert_eq!(session.accepted(), 1);
    assert_eq!(session.rows_committed(), 0);
    session.record(Reply::Done);
    assert_eq!(session.phase(), Phase::Committing);
    assert_eq!(session.accepted(), 2);
    assert_eq!(session.rows_committed(), 0);
    session.record(Reply::Done);
    assert_eq!(session.phase(), Phase::Committed);
    assert!(session.is_finished());
    assert_eq!(session.rows_committed(), 2);
}

#[test]
fn finished_session_stays_as_it_is() {
    let mut done = drive(InsertSession::new(rows(2), 1), None, "").session;
    done.record(Reply::Failed { cause: "late".to_string() });
    done.record(Reply::Done);
    assert_eq!(done.next_action(), Action::Stop);
    assert_eq!(done.phase(), Phase::Committed);
    assert_eq!(done.rows_committed(), 2);

    let mut failed = drive(InsertSession::new(rows(2), 1), Some(4), "bad row").session;
    failed.record(Reply::Done);
    failed.record(Reply::Failed { cause: "again".to_string() });
    assert_eq!(failed.next_action(), Action::Stop);
    assert_eq!(
        failed.failure(),
        Some(&LoadError::Insert { row: 1, cause: "bad row".to_string() })
    );
    assert_eq!(failed.rows_committed(), 0);
}

#[test]
fn unfinished_session_has_no_result() {
    let mut session = InsertSession::new(rows(2), 1);
    session.record(Reply::Done);
    assert_eq!(session.failure(), None);
    assert_eq!(session.into_result(), None);
}

#[test]
fn row_lookup_is_total() {
    let session = InsertSession::new(rows(3), 2);
    assert_eq!(session.row(0).map(|r| r.tick), Some(0));
    assert_eq!(session.row(2).map(|r| r.tick), Some(2));
    assert!(session.row(3).is_none());
    assert!(session.row(usize::MAX).is_none());
}

#[test]
fn progress_follows_each_accepted_row() {
    let run = drive(InsertSession::new(rows(4), 3), None, "");
    assert_eq!(run.positions, vec![0, 0, 0, 1, 2, 3, 4, 4]);
    let progress = run.session.progress();
    assert_eq!(progress.total(), 4);
    assert_eq!(progress.position(), 4);
    assert!(progress.is_finished());
    assert_eq!(progress.message(), "Complete");
    assert_eq!(progress.percent(), 100);
}

#[test]
fn progress_of_a_failed_load_stops_at_the_refused_row() {
    let run = drive(InsertSession::new(rows(4), 3), Some(5), "bad");
    let progress = run.session.progress();
    assert_eq!(progress.position(), 2);
    assert_eq!(progress.total(), 4);
    assert!(!progress.is_finished());
    assert_eq!(progress.percent(), 50);
}

#[test]
fn error_messages_name_the_step_and_the_cause() {
    let cause = "boom".to_string();
    assert_eq!(
        LoadError::Connect { cause: cause.clone() }.message(),
        "Failed to connect to DuckDB: boom"
    );
    assert_eq!(
        LoadError::Prepare { cause: cause.clone() }.message(),
        "Failed to prepare statement: boom"
    );
    assert_eq!(
        LoadError::Begin { cause: cause.clone() }.message(),
        "Failed to begin transaction: boom"
    );
    assert_eq!(
        LoadError::Insert { row: 3, cause: cause.clone() }.message(),
        "Failed to insert tick: boom"
    );
    assert_eq!(
        LoadError::Commit { cause: cause.clone() }.message(),
        "Failed to commit transaction: boom"
    );
    assert_eq!(
        LoadError::Malformed { index: 4 }.message(),
        "Failed to read record: not a mapping"
    );
    assert_eq!(LoadError::Commit { cause: String::new() }.message(), "Failed to commit transaction: ");
}

#[test]
fn session_for_items_holds_the_normalized_rows() {
    let mut items = Vec::new();
    for tick in [5i64, 3, 8] {
        let mut r = InputRecord::new();
        r.insert("tick".to_string(), Value::Int(tick));
        r.insert("hp".to_string(), Value::Text("full".to_string()));
        items.push(SourceItem::Mapping(r));
    }
    let session = InsertSession::for_items(&items, "m1.dem", "de_dust2").unwrap();
    assert_eq!(session.total(), 3);
    assert_eq!(session.phase(), Phase::Connecting);
    assert_eq!(session.next_action(), Action::Connect);
    assert_eq!(session.row(0).unwrap().tick, 5);
    assert_eq!(session.row(1).unwrap().tick, 3);
    assert_eq!(session.row(2).unwrap().tick, 8);
    assert_eq!(session.row(1).unwrap().hp, 100);
    assert_eq!(session.row(2).unwrap().map_name, "de_dust2");
    let run = drive(session, None, "");
    assert_eq!(run.inserted_ticks, vec![5, 3, 8]);
    assert_eq!(run.session.into_result(), Some(Ok(3)));
}

#[test]
fn item_that_is_not_a_mapping_starts_no_session() {
    let items = vec![SourceItem::NotMapping];
    let r = InsertSession::for_items(&items, "m1.dem", "de_dust2");
    assert_eq!(r.err(), Some(LoadError::Malformed { index: 0 }));

    let items = vec![
        SourceItem::Mapping(InputRecord::new()),
        SourceItem::NotMapping,
        SourceItem::Mapping(InputRecord::new()),
    ];
    let r = InsertSession::for_items(&items, "m1.dem", "de_dust2");
    assert_eq!(r.err(), Some(LoadError::Malformed { index: 1 }));
}

#[test]
fn session_for_no_items_commits_no_rows() {
    let session = InsertSession::for_items(&Vec::new(), "m1.dem", "de_dust2").unwrap();
    assert_eq!(session.progress().percent(), 100);
    let run = drive(session, None, "");
    assert_eq!(
        run.actions,
        vec![Action::Connect, Action::Prepare, Action::Begin, Action::Commit]
    );
    assert_eq!(run.session.into_result(), Some(Ok(0)));
}
