use batch_logger::{bootstrap, setup_logger, LogDB, LogRow, Severity, Stage, LOG_FILE_NAME};
use rusqlite::{Connection, OpenFlags};
use std::path::PathBuf;

/// Whether a store file can be made, or emptied, at this place.
fn cleared(file: &PathBuf) -> bool {
    match Connection::open(file) {
        Ok(connection) => connection.execute_batch("DROP TABLE IF EXISTS log").is_ok(),
        Err(_) => false,
    }
}

/// A store file of its own for one test, without a log table at the start.
fn scratch_file(name: &str) -> PathBuf {
    for attempt in 0..100 {
        let file = PathBuf::from(format!("/tmp/batch_logger_{}_{}.sqlite", name, attempt));
        if cleared(&file) {
            return file;
        }
    }
    panic!("no place for a store file");
}

/// A directory in which the store file can be made, or emptied.
fn scratch_directory() -> PathBuf {
    for place in ["/tmp", "/var/tmp", "/dev/shm"] {
        let directory = PathBuf::from(place);
        if cleared(&directory.join(LOG_FILE_NAME)) {
            return directory;
        }
    }
    panic!("no place for a store file");
}

/// A controller on the store file.
fn file_db(file: &PathBuf, threshold: usize) -> LogDB {
    bootstrap(Connection::open(file).unwrap(), threshold).unwrap()
}

/// What a second connection finds in the store file: the committed rows.
fn committed_rows(file: &PathBuf) -> Vec<(usize, String)> {
    rows_of(&Connection::open(file).unwrap())
}

fn rows_of(connection: &Connection) -> Vec<(usize, String)> {
    let mut statement = connection.prepare("SELECT type, message FROM log ORDER BY id").unwrap();
    let mut rows = statement.query(()).unwrap();
    let mut found = Vec::new();
    while let Some(row) = rows.next().unwrap() {
        found.push((row.get(0).unwrap(), row.get(1).unwrap()));
    }
    found
}

fn memory_db(threshold: usize) -> LogDB {
    bootstrap(Connection::open_in_memory().unwrap(), threshold).unwrap()
}

#[test]
fn rows_come_back_as_they_went_in() {
    let mut db = memory_db(100);
    let written = vec![
        (Severity::Error, "plain"),
        (Severity::Warn, ""),
        (Severity::Info, "naïve — 日本語 🦀"),
        (Severity::Debug, "line one\nline two\ttabbed"),
        (Severity::Trace, "quote ' and \" and ; DROP TABLE log"),
    ];
    for (severity, message) in &written {
        db.add(&LogRow::encode(*severity, message)).unwrap();
    }
    db.flush().unwrap();
    let found = rows_of(db.connection());
    assert_eq!(found.len(), written.len());
    for (index, (severity, message)) in written.iter().enumerate() {
        assert_eq!(found[index].0, severity.rank());
        assert_eq!(found[index].1, *message);
    }
}

#[test]
fn a_long_message_is_not_cut() {
    let mut db = memory_db(1);
    let message = "𝔘𝔫𝔦𝔠𝔬𝔡𝔢 ".repeat(20_000);
    db.add(&LogRow::encode(Severity::Info, &message)).unwrap();
    let found = rows_of(db.connection());
    assert_eq!(found.len(), 1);
    assert_eq!(found[0].1, message);
}

#[test]
fn twenty_five_events_at_threshold_ten() {
    let file = scratch_file("scenario");
    let mut db = file_db(&file, 10);
    for number in 0..25 {
        let committed = db.add(&LogRow::encode(Severity::Info, &number.to_string())).unwrap();
        let event = number + 1;
        assert_eq!(committed, event == 10 || event == 20);
        let expected = if event < 10 { 0 } else if event < 20 { 10 } else { 20 };
        assert_eq!(committed_rows(&file).len(), expected);
    }
    assert_eq!(db.pending_count(), 5);
    assert_eq!(committed_rows(&file).len(), 20);
    db.flush().unwrap();
    let found = committed_rows(&file);
    assert_eq!(found.len(), 25);
    for (number, row) in found.iter().enumerate() {
        assert_eq!(row.0, 3);
        assert_eq!(row.1, number.to_string());
    }
}

#[test]
fn at_threshold_one_every_event_is_durable_at_once() {
    let file = scratch_file("unbatched");
    let mut db = file_db(&file, 1);
    for number in 0..6 {
        let committed = db.add(&LogRow::encode(Severity::Warn, &number.to_string())).unwrap();
        assert!(committed);
        assert_eq!(db.pending_count(), 0);
        assert_eq!(committed_rows(&file).len(), number + 1);
    }
}

#[test]
fn a_flush_commits_and_leaves_the_counter_stale() {
    let file = scratch_file("flush");
    let mut db = file_db(&file, 10);
    for number in 0..3 {
        assert!(!db.add(&LogRow::encode(Severity::Info, &number.to_string())).unwrap());
    }
    assert_eq!(committed_rows(&file).len(), 0);
    db.flush().unwrap();
    assert_eq!(committed_rows(&file).len(), 3);
    assert_eq!(db.pending_count(), 3);
    // The next rows gather in a transaction that starts empty; the commit
    // comes when the stale counter reaches the threshold, seven rows on.
    for number in 3..9 {
        assert!(!db.add(&LogRow::encode(Severity::Info, &number.to_string())).unwrap());
        assert_eq!(committed_rows(&file).len(), 3);
    }
    assert!(db.add(&LogRow::encode(Severity::Info, "9")).unwrap());
    assert_eq!(committed_rows(&file).len(), 10);
    assert_eq!(db.pending_count(), 0);
}

#[test]
fn a_flush_with_nothing_pending_commits_too() {
    let mut db = memory_db(10);
    assert!(db.flush().is_ok());
    assert!(db.flush().is_ok());
    assert_eq!(db.pending_count(), 0);
    assert!(!db.connection().is_autocommit());
}

#[test]
fn a_transaction_is_open_from_the_first_event_on() {
    let mut db = memory_db(2);
    assert!(!db.connection().is_autocommit());
    db.add(&LogRow::encode(Severity::Info, "a")).unwrap();
    assert!(!db.connection().is_autocommit());
    db.add(&LogRow::encode(Severity::Info, "b")).unwrap();
    assert!(!db.connection().is_autocommit());
    db.flush().unwrap();
    assert!(!db.connection().is_autocommit());
}

#[test]
fn setup_twice_in_one_directory_keeps_the_rows() {
    let directory = scratch_directory();
    let file = directory.join("log.sqlite");
    assert_eq!(LOG_FILE_NAME, "log.sqlite");
    {
        let mut db = setup_logger(directory.clone(), 2).unwrap();
        assert_eq!(db.threshold(), 2);
        assert_eq!(db.pending_count(), 0);
        db.add(&LogRow::encode(Severity::Error, "first")).unwrap();
        db.add(&LogRow::encode(Severity::Warn, "second")).unwrap();
        db.add(&LogRow::encode(Severity::Info, "lost with the open transaction")).unwrap();
    }
    let reader = Connection::open_with_flags(&file, OpenFlags::SQLITE_OPEN_READ_ONLY).unwrap();
    assert_eq!(rows_of(&reader), vec![(1, "first".to_string()), (2, "second".to_string())]);
    let mut db = setup_logger(directory.clone(), 2).unwrap();
    assert_eq!(rows_of(&reader), vec![(1, "first".to_string()), (2, "second".to_string())]);
    db.add(&LogRow::encode(Severity::Debug, "third")).unwrap();
    db.flush().unwrap();
    assert_eq!(
        rows_of(&reader),
        vec![(1, "first".to_string()), (2, "second".to_string()), (4, "third".to_string())]
    );
}

#[test]
fn the_table_has_a_key_a_code_and_a_text() {
    let db = memory_db(1);
    let mut statement = db.connection().prepare("SELECT id, type, message FROM log").unwrap();
    assert_eq!(statement.column_count(), 3);
    assert!(statement.query(()).unwrap().next().unwrap().is_none());
}

#[test]
fn setup_in_a_missing_directory_fails_at_open() {
    let directory = PathBuf::from("/tmp/batch_logger_missing/not/there");
    let refusal = setup_logger(directory, 10).err().unwrap();
    assert_eq!(refusal.stage, Stage::Open);
    assert!(!refusal.detail.is_empty());
}

#[test]
fn bootstrap_of_a_read_only_store_fails_at_the_schema() {
    let file = scratch_file("readonly");
    let connection = Connection::open_with_flags(&file, OpenFlags::SQLITE_OPEN_READ_ONLY).unwrap();
    let refusal = bootstrap(connection, 10).err().unwrap();
    assert_eq!(refusal.stage, Stage::Schema);
}

#[test]
fn bootstrap_with_another_table_named_log_fails_at_prepare() {
    let connection = Connection::open_in_memory().unwrap();
    connection.execute_batch("CREATE TABLE log (line TEXT)").unwrap();
    let refusal = bootstrap(connection, 10).err().unwrap();
    assert_eq!(refusal.stage, Stage::Prepare);
}

#[test]
fn bootstrap_inside_a_transaction_fails_at_begin() {
    let connection = Connection::open_in_memory().unwrap();
    connection.execute_batch("BEGIN").unwrap();
    let refusal = bootstrap(connection, 10).err().unwrap();
    assert_eq!(refusal.stage, Stage::Begin);
}

#[test]
fn add_without_the_table_fails_at_prepare() {
    let connection = Connection::open_in_memory().unwrap();
    connection.execute_batch("BEGIN").unwrap();
    let mut db = LogDB::new(connection, 10);
    let refusal = db.add(&LogRow::encode(Severity::Info, "nowhere to go")).unwrap_err();
    assert_eq!(refusal.stage, Stage::Prepare);
    assert_eq!(db.pending_count(), 0);
}

#[test]
fn a_refused_row_is_dropped_and_not_counted() {
    let mut db = memory_db(10);
    db.add(&LogRow::encode(Severity::Info, "kept")).unwrap();
    let too_large = LogRow { severity: usize::MAX, message: "refused".to_string() };
    let refusal = db.add(&too_large).unwrap_err();
    assert_eq!(refusal.stage, Stage::Insert);
    assert_eq!(db.pending_count(), 1);
    db.add(&LogRow::encode(Severity::Info, "kept too")).unwrap();
    assert_eq!(db.pending_count(), 2);
    assert_eq!(
        rows_of(db.connection()),
        vec![(3, "kept".to_string()), (3, "kept too".to_string())]
    );
}

#[test]
fn a_refused_commit_leaves_the_counter_cleared() {
    let connection = Connection::open_in_memory().unwrap();
    connection
        .execute_batch("CREATE TABLE log (id INTEGER PRIMARY KEY, type INTEGER, message TEXT NOT NULL)")
        .unwrap();
    // No transaction is begun: the insert commits by itself, and the commit
    // that the full batch calls for finds nothing to commit.
    let mut db = LogDB::new(connection, 2);
    assert!(!db.add(&LogRow::encode(Severity::Info, "one")).unwrap());
    let refusal = db.add(&LogRow::encode(Severity::Info, "two")).unwrap_err();
    assert_eq!(refusal.stage, Stage::Commit);
    assert_eq!(db.pending_count(), 0);
    assert_eq!(rows_of(db.connection()).len(), 2);
}

#[test]
fn a_flush_without_a_transaction_fails_at_commit() {
    let mut db = LogDB::new(Connection::open_in_memory().unwrap(), 10);
    let refusal = db.flush().unwrap_err();
    assert_eq!(refusal.stage, Stage::Commit);
    assert_eq!(db.pending_count(), 0);
}

#[test]
fn the_connection_comes_back_with_its_rows() {
    let mut db = memory_db(3);
    db.add(&LogRow::encode(Severity::Info, "a")).unwrap();
    let connection = db.into_connection();
    assert_eq!(rows_of(&connection), vec![(3, "a".to_string())]);
    let mut db = LogDB::new(connection, 1);
    assert_eq!(db.threshold(), 1);
    assert_eq!(db.pending_count(), 0);
    assert!(db.add(&LogRow::encode(Severity::Info, "b")).unwrap());
    assert_eq!(rows_of(db.connection()).len(), 2);
}

#[test]
fn interleaved_producers_keep_their_own_order() {
    let mut db = memory_db(4);
    let first: Vec<String> = (0..9).map(|number| format!("first {}", number)).collect();
    let second: Vec<String> = (0..5).map(|number| format!("second {}", number)).collect();
    let third: Vec<String> = (0..7).map(|number| format!("third {}", number)).collect();
    // One order in which three producers may get the lock.
    let turns = [0, 1, 0, 0, 2, 1, 2, 2, 0, 1, 0, 2, 0, 0, 1, 2, 2, 0, 1, 0, 2];
    let mut taken = [0, 0, 0];
    for turn in turns {
        let (severity, messages) = match turn {
            0 => (Severity::Error, &first),
            1 => (Severity::Warn, &second),
            _ => (Severity::Info, &third),
        };
        db.add(&LogRow::encode(severity, &messages[taken[turn]])).unwrap();
        taken[turn] += 1;
        if taken[turn] == 3 {
            db.flush().unwrap();
        }
    }
    db.flush().unwrap();
    let found = rows_of(db.connection());
    assert_eq!(found.len(), first.len() + second.len() + third.len());
    let of = |code: usize| -> Vec<String> {
        found.iter().filter(|row| row.0 == code).map(|row| row.1.clone()).collect()
    };
    assert_eq!(of(1), first);
    assert_eq!(of(2), second);
    assert_eq!(of(3), third);
}

#[test]
fn another_threshold_keeps_the_connection_and_its_transaction() {
    let file = scratch_file("threshold");
    let mut db = file_db(&file, 10);
    for number in 0..3 {
        assert!(!db.add(&LogRow::encode(Severity::Info, &number.to_string())).unwrap());
    }
    let mut db = db.with_threshold(2);
    assert_eq!(db.threshold(), 2);
    assert_eq!(db.pending_count(), 0);
    assert!(!db.connection().is_autocommit());
    assert_eq!(committed_rows(&file).len(), 0);
    assert!(!db.add(&LogRow::encode(Severity::Info, "3")).unwrap());
    assert!(db.add(&LogRow::encode(Severity::Info, "4")).unwrap());
    let found = committed_rows(&file);
    assert_eq!(found.len(), 5);
    for (number, row) in found.iter().enumerate() {
        assert_eq!(row.1, number.to_string());
    }
}
