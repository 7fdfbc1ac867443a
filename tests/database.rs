use sqlite3::database::{connection_from_open, database_with_handle};
use sqlite3::error::{
    kind_of, ErrorKind, SqliteError, SQLITE_BUSY, SQLITE_CONSTRAINT, SQLITE_ERROR, SQLITE_LOCKED,
    SQLITE_MISUSE, SQLITE_NOMEM, SQLITE_OK,
};

#[test]
fn kinds_of_primary_codes() {
    assert_eq!(kind_of(SQLITE_OK), ErrorKind::Success);
    assert_eq!(kind_of(SQLITE_ERROR), ErrorKind::GenericFailure);
    assert_eq!(kind_of(SQLITE_BUSY), ErrorKind::Busy);
    assert_eq!(kind_of(SQLITE_LOCKED), ErrorKind::Busy);
    assert_eq!(kind_of(SQLITE_CONSTRAINT), ErrorKind::ConstraintViolation);
    assert_eq!(kind_of(SQLITE_MISUSE), ErrorKind::Misuse);
    assert_eq!(kind_of(28), ErrorKind::GenericFailure);
    assert_eq!(kind_of(14), ErrorKind::GenericFailure);
}

#[test]
fn kinds_of_extended_codes() {
    // a unique-constraint failure, and a busy-recovery status
    assert_eq!(kind_of(2067), ErrorKind::ConstraintViolation);
    assert_eq!(kind_of(261), ErrorKind::Busy);
    assert_eq!(kind_of(266), ErrorKind::GenericFailure);
    // the last input/output code, an abort during rollback, a datatype check
    assert_eq!(kind_of(10 + 36 * 256), ErrorKind::GenericFailure);
    assert_eq!(kind_of(4 + 2 * 256), ErrorKind::GenericFailure);
    assert_eq!(kind_of(19 + 12 * 256), ErrorKind::ConstraintViolation);
    assert_eq!(kind_of(6 + 2 * 256), ErrorKind::Busy);
    assert_eq!(kind_of(256), ErrorKind::Success);
    assert_eq!(kind_of(3 * 256), ErrorKind::Unknown);
}

#[test]
fn kinds_of_undefined_extended_codes() {
    assert_eq!(kind_of(9999), ErrorKind::Unknown);
    assert_eq!(kind_of(9989), ErrorKind::Unknown);
    assert_eq!(kind_of(4885), ErrorKind::Unknown);
    assert_eq!(kind_of(10 + 37 * 256), ErrorKind::Unknown);
    assert_eq!(kind_of(4 + 256), ErrorKind::Unknown);
    assert_eq!(kind_of(19 + 13 * 256), ErrorKind::Unknown);
    assert_eq!(kind_of(21 + 256), ErrorKind::Unknown);
    assert_eq!(kind_of(100 + 256), ErrorKind::Unknown);
}

#[test]
fn kinds_of_unknown_codes() {
    assert_eq!(kind_of(29), ErrorKind::Unknown);
    assert_eq!(kind_of(100), ErrorKind::Unknown);
    assert_eq!(kind_of(-1), ErrorKind::Unknown);
    assert_eq!(kind_of(i32::MIN), ErrorKind::Unknown);
    assert_eq!(kind_of(i32::MAX), ErrorKind::Unknown);
}

#[test]
fn error_from_code_has_empty_message() {
    let e = SqliteError::from_code(SQLITE_BUSY);
    assert_eq!(e.code, SQLITE_BUSY);
    assert_eq!(e.kind, ErrorKind::Busy);
    assert_eq!(e.message, "");
}

#[test]
fn error_copies_message() {
    let e = SqliteError::from_code_and_message(1, "no such table: t");
    assert_eq!(e.code, 1);
    assert_eq!(e.kind, ErrorKind::GenericFailure);
    assert_eq!(e.message, "no such table: t");
}

#[test]
fn new_connection_is_open() {
    let db = database_with_handle(42);
    assert!(db.is_open());
    assert_eq!(db.live_handle().unwrap(), 42);
}

#[test]
fn exec_success_is_ok_true() {
    let db = database_with_handle(42);
    assert_eq!(db.exec(SQLITE_OK, "").unwrap(), true);
}

#[test]
fn exec_failure_carries_code_and_message() {
    let db = database_with_handle(42);
    let e = db.exec(1, "near \"SELEC\": syntax error").unwrap_err();
    assert_eq!(e.code, 1);
    assert_eq!(e.kind, ErrorKind::GenericFailure);
    assert_eq!(e.message, "near \"SELEC\": syntax error");
}

#[test]
fn exec_unknown_status_is_an_error() {
    let db = database_with_handle(42);
    let e = db.exec(12345, "odd").unwrap_err();
    assert_eq!(e.code, 12345);
    assert_eq!(e.kind, ErrorKind::Unknown);
    assert_eq!(e.message, "odd");
}

#[test]
fn exec_constraint_violation() {
    let db = database_with_handle(42);
    let e = db.exec(2067, "UNIQUE constraint failed: t.id").unwrap_err();
    assert_eq!(e.kind, ErrorKind::ConstraintViolation);
    assert_eq!(e.code, 2067);
}

#[test]
fn prepare_failure_is_err() {
    let db = database_with_handle(42);
    let e = db.prepare(1, 0, "near \"FROM\": syntax error").unwrap_err();
    assert_eq!(e.code, 1);
    assert_eq!(e.kind, ErrorKind::GenericFailure);
    assert_eq!(e.message, "near \"FROM\": syntax error");
}

#[test]
fn prepare_without_statement_is_misuse() {
    let db = database_with_handle(42);
    let e = db.prepare(SQLITE_OK, 0, "").unwrap_err();
    assert_eq!(e.code, SQLITE_MISUSE);
    assert_eq!(e.kind, ErrorKind::Misuse);
    assert_eq!(e.message, "");
}

#[test]
fn prepared_statement_is_usable() {
    let db = database_with_handle(42);
    let st = db.prepare(SQLITE_OK, 77, "").unwrap();
    assert_eq!(st.usable_handle().unwrap(), 77);
}

#[test]
fn finalize_releases_once() {
    let db = database_with_handle(42);
    let mut st = db.prepare(SQLITE_OK, 77, "").unwrap();
    assert_eq!(st.finalize(), Some(77));
    assert_eq!(st.finalize(), None);
    assert_eq!(st.usable_handle().unwrap_err().kind, ErrorKind::Misuse);
}

#[test]
fn statement_after_finalize_is_misuse() {
    let db = database_with_handle(42);
    let mut st = db.prepare(SQLITE_OK, 77, "").unwrap();
    assert_eq!(st.finalize(), Some(77));
    let e = st.usable_handle().unwrap_err();
    assert_eq!(e.kind, ErrorKind::Misuse);
    assert_eq!(e.code, SQLITE_MISUSE);
    assert_eq!(e.message, "");
}

#[test]
fn connection_closes_after_its_statements_end() {
    let mut db = database_with_handle(42);
    {
        let mut st = db.prepare(SQLITE_OK, 77, "").unwrap();
        assert_eq!(st.finalize(), Some(77));
    }
    assert_eq!(db.close(), Some(42));
}

#[test]
fn close_twice_releases_handle_once() {
    let mut db = database_with_handle(42);
    assert_eq!(db.close(), Some(42));
    assert!(!db.is_open());
    assert_eq!(db.close(), None);
    assert!(!db.is_open());
}

#[test]
fn operations_on_closed_connection_are_misuse() {
    let mut db = database_with_handle(42);
    db.close();
    assert_eq!(db.live_handle().unwrap_err().kind, ErrorKind::Misuse);
    assert_eq!(db.exec(SQLITE_OK, "").unwrap_err().kind, ErrorKind::Misuse);
    assert_eq!(db.prepare(SQLITE_OK, 77, "").unwrap_err().kind, ErrorKind::Misuse);
    assert_eq!(db.set_busy_timeout(SQLITE_OK, "").unwrap().kind, ErrorKind::Misuse);
}

#[test]
fn open_success_gives_open_connection() {
    let (r, release) = connection_from_open(SQLITE_OK, 42, "");
    let db = r.unwrap();
    assert!(db.is_open());
    assert_eq!(db.live_handle().unwrap(), 42);
    assert_eq!(release, None);
}

#[test]
fn open_failure_releases_handle() {
    let (r, release) = connection_from_open(14, 42, "unable to open database file");
    let e = r.unwrap_err();
    assert_eq!(e.code, 14);
    assert_eq!(e.kind, ErrorKind::GenericFailure);
    assert_eq!(e.message, "unable to open database file");
    assert_eq!(release, Some(42));
}

#[test]
fn open_without_handle_is_out_of_memory() {
    let (r, release) = connection_from_open(SQLITE_NOMEM, 0, "ignored");
    let e = r.unwrap_err();
    assert_eq!(e.code, SQLITE_NOMEM);
    assert_eq!(e.message, "");
    assert_eq!(release, None);
}

#[test]
fn errmsg_is_copied_while_open() {
    let mut db = database_with_handle(42);
    assert_eq!(db.get_errmsg("not an error"), "not an error");
    db.close();
    assert_eq!(db.get_errmsg("stale"), "");
}


#[test]
fn exec_undefined_extended_status_is_unknown() {
    let db = database_with_handle(42);
    let e = db.exec(9999, "odd").unwrap_err();
    assert_eq!(e.code, 9999);
    assert_eq!(e.kind, ErrorKind::Unknown);
}

#[test]
fn nul_in_text_is_misuse() {
    let e = SqliteError::nul_in_text();
    assert_eq!(e.code, SQLITE_MISUSE);
    assert_eq!(e.kind, ErrorKind::Misuse);
    assert_eq!(e.message, "text holds a NUL byte");
}

#[test]
fn busy_timeout_accepted_or_rejected() {
    let db = database_with_handle(42);
    assert!(db.set_busy_timeout(SQLITE_OK, "").is_none());
    let e = db.set_busy_timeout(SQLITE_MISUSE, "bad parameter").unwrap();
    assert_eq!(e.kind, ErrorKind::Misuse);
    assert_eq!(e.message, "bad parameter");
}

#[test]
fn zero_busy_timeout_then_busy_fails_at_once() {
    let db = database_with_handle(42);
    assert!(db.set_busy_timeout(SQLITE_OK, "").is_none());
    let e = db.exec(SQLITE_BUSY, "database is locked").unwrap_err();
    assert_eq!(e.kind, ErrorKind::Busy);
    assert_eq!(e.code, SQLITE_BUSY);
    assert_eq!(e.message, "database is locked");
}

#[test]
fn changes_and_rowid_pass_through() {
    let db = database_with_handle(42);
    assert_eq!(db.get_changes(1), 1);
    assert_eq!(db.get_last_insert_rowid(9_000_000_000), 9_000_000_000);
}
