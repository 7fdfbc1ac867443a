//! Properties that relate the connection and statement operations.
use vstd::prelude::*;

use crate::database::{
    busy_timeout_outcome, close_spec, exec_outcome, prepare_outcome, released_by_close,
    DatabaseView,
};
use crate::error::{kind_spec, ErrorKind, SqliteError, SqliteMaybe, SqliteResult, SQLITE_BUSY, SQLITE_LOCKED, SQLITE_OK};
use crate::statement::{usable, Statement, StatementView};

verus! {

/// On an open connection, executing SQL succeeds with `Ok(true)` exactly when
/// the engine reports success; any other status, known to the engine or not,
/// gives an error that carries that status and its kind.
pub proof fn exec_ok_iff_engine_success(db: DatabaseView, code: int, msg: Seq<char>, r: SqliteResult<bool>)
    requires
        db.open,
        exec_outcome(db, code, msg, r),
    ensures
        r == Ok::<bool, SqliteError>(true) <==> code == SQLITE_OK,
        r is Err ==> r->Err_0.code == code && r->Err_0.kind == kind_spec(code),
{
}

/// Preparing never hands out a statement with a null handle, and fails
/// whenever the engine reports a failure.
pub proof fn prepare_never_yields_null(
    db: DatabaseView,
    code: int,
    stmt: int,
    msg: Seq<char>,
    r: SqliteResult<Statement>,
)
    requires
        prepare_outcome(db, code, stmt, msg, r),
    ensures
        r is Ok ==> r->Ok_0@.handle != 0 && code == SQLITE_OK,
        code != SQLITE_OK ==> r is Err,
{
}

/// A statement whose connection is closed is not usable.
pub proof fn statement_dead_after_close(st: StatementView)
    ensures
        !usable(StatementView { owner: close_spec(st.owner), ..st }),
{
}

/// A finalized statement is never usable again.
pub proof fn statement_dead_after_finalize(st: StatementView)
    ensures
        !usable(StatementView { live: false, ..st }),
{
}

/// Closing twice releases the handle once: the first close of an open
/// connection hands the handle back, the second hands back nothing and
/// changes nothing.
pub proof fn close_twice_releases_once(db: DatabaseView)
    ensures
        db.open ==> released_by_close(db) == Some(db.handle as usize),
        released_by_close(close_spec(db)) is None,
        close_spec(close_spec(db)) == close_spec(db),
{
}

/// On an open connection, when the engine accepted a busy timeout and then
/// reports a lock held elsewhere, the lock is reported at once as a busy
/// error carrying that status.
pub proof fn busy_status_fails_fast(
    db: DatabaseView,
    msg: Seq<char>,
    r: SqliteMaybe,
    code: int,
    exec_msg: Seq<char>,
    exec_r: SqliteResult<bool>,
)
    requires
        db.open,
        busy_timeout_outcome(db, SQLITE_OK as int, msg, r),
        code == SQLITE_BUSY || code == SQLITE_LOCKED,
        exec_outcome(db, code, exec_msg, exec_r),
    ensures
        r is None,
        exec_r is Err,
        exec_r->Err_0.kind == ErrorKind::Busy,
        exec_r->Err_0.code == code,
{
}

} // verus!
