//! The connection: one open engine handle, released exactly once, and the
//! decisions taken on the status codes the engine reports for it.
use vstd::prelude::*;
use vstd::string::StringExecFns;

use crate::error::{error_spec, SqliteError, SqliteMaybe, SqliteResult, SQLITE_MISUSE, SQLITE_NOMEM, SQLITE_OK};
use crate::statement::{Statement, StatementView};


verus! {

/// What a connection is: its engine handle, and whether it is still open.
pub ghost struct DatabaseView {
    pub handle: int,
    pub open: bool,
}

/// The database connection.
#[derive(Debug)]
pub struct Database {
    handle: usize,
    open: bool,
}

impl View for Database {
    type V = DatabaseView;

    closed spec fn view(&self) -> DatabaseView {
        DatabaseView {
            handle: self.handle as int,
            open: self.open,
        }
    }
}

/// The connection after it has been closed.
pub open spec fn close_spec(db: DatabaseView) -> DatabaseView {
    DatabaseView { open: false, ..db }
}

/// The handle that closing `db` hands back for release: only an open
/// connection has one.
pub open spec fn released_by_close(db: DatabaseView) -> Option<usize> {
    if db.open {
        Some(db.handle as usize)
    } else {
        None
    }
}

/// The error reported for an operation on a closed connection or on a dead
/// statement.
pub open spec fn is_misuse(e: SqliteError) -> bool {
    error_spec(e, SQLITE_MISUSE as int, Seq::empty())
}

/// The outcome of running SQL on `db` when the engine reported `code` and the
/// connection's message was `msg`.
pub open spec fn exec_outcome(db: DatabaseView, code: int, msg: Seq<char>, r: SqliteResult<bool>) -> bool {
    if !db.open {
        r is Err && is_misuse(r->Err_0)
    } else if code == SQLITE_OK {
        r == Ok::<bool, SqliteError>(true)
    } else {
        r is Err && error_spec(r->Err_0, code, msg)
    }
}

/// The outcome of preparing SQL on `db` when the engine reported `code`, the
/// compiled handle `stmt` and the connection's message `msg`. A statement is
/// handed out only with a non-null handle; SQL that compiled to nothing is
/// reported as misuse.
pub open spec fn prepare_outcome<'db>(
    db: DatabaseView,
    code: int,
    stmt: int,
    msg: Seq<char>,
    r: SqliteResult<Statement<'db>>,
) -> bool {
    if !db.open {
        r is Err && is_misuse(r->Err_0)
    } else if code != SQLITE_OK {
        r is Err && error_spec(r->Err_0, code, msg)
    } else if stmt == 0 {
        r is Err && is_misuse(r->Err_0)
    } else {
        r is Ok && r->Ok_0@ == (StatementView { handle: stmt, owner: db, live: true })
    }
}

/// The outcome of setting a busy timeout on `db` when the engine reported
/// `code` and the connection's message was `msg`.
pub open spec fn busy_timeout_outcome(db: DatabaseView, code: int, msg: Seq<char>, r: SqliteMaybe) -> bool {
    if !db.open {
        r is Some && is_misuse(r->Some_0)
    } else if code != SQLITE_OK {
        r is Some && error_spec(r->Some_0, code, msg)
    } else {
        r is None
    }
}

/// A connection wrapping `handle`, open.
pub fn database_with_handle(handle: usize) -> (db: Database)
    requires
        handle != 0,
    ensures
        db@ == (DatabaseView { handle: handle as int, open: true }),
{
    Database { handle, open: true }
}

/// The outcome of opening a database, given the status `code` the engine
/// reported, the connection handle `handle` it wrote (0 for none) and the
/// connection's error message `errmsg`. Beside the result stands the handle
/// that a failed open leaves for the engine to release.
pub fn connection_from_open(code: i32, handle: usize, errmsg: &str) -> (r: (
    SqliteResult<Database>,
    Option<usize>,
))
    ensures
        handle == 0 ==> r.0 is Err && error_spec(r.0->Err_0, SQLITE_NOMEM as int, Seq::empty())
            && r.1 is None,
        handle != 0 && code != SQLITE_OK ==> r.0 is Err && error_spec(r.0->Err_0, code as int, errmsg@)
            && r.1 == Some(handle),
        handle != 0 && code == SQLITE_OK ==> r.0 is Ok && r.0->Ok_0@ == (DatabaseView {
            handle: handle as int,
            open: true,
        }) && r.1 is None,
{
    if handle == 0 {
        (Err(SqliteError::from_code(SQLITE_NOMEM)), None)
    } else if code != SQLITE_OK {
        (Err(SqliteError::from_code_and_message(code, errmsg)), Some(handle))
    } else {
        (Ok(database_with_handle(handle)), None)
    }
}

impl Database {
    #[verifier::type_invariant]
    spec fn inv(self) -> bool {
        self.handle != 0
    }

    /// Whether the connection is still open.
    pub fn is_open(&self) -> (r: bool)
        ensures
            r == self@.open,
    {
        self.open
    }

    /// The handle to hand to the engine, or a misuse error once the
    /// connection is closed.
    pub fn live_handle(&self) -> (r: SqliteResult<usize>)
        ensures
            0 < self@.handle <= usize::MAX,
            self@.open ==> r == Ok::<usize, SqliteError>(self@.handle as usize),
            !self@.open ==> r is Err && is_misuse(r->Err_0),
    {
        proof {
            use_type_invariant(self);
        }
        if self.open {
            Ok(self.handle)
        } else {
            Err(SqliteError::from_code(SQLITE_MISUSE))
        }
    }

    /// The message of the most recent call, copied out of the engine's
    /// `engine_msg`; empty once the connection is closed.
    pub fn get_errmsg(&self, engine_msg: &str) -> (r: String)
        ensures
            self@.open ==> r@ == engine_msg@,
            !self@.open ==> r@ == Seq::<char>::empty(),
    {
        if self.open {
            String::from_str(engine_msg)
        } else {
            String::new()
        }
    }

    /// The number of rows the most recent statement modified, inserted or
    /// deleted, as the engine `reported` it.
    pub fn get_changes(&self, reported: i32) -> (r: i64)
        requires
            self@.open,
        ensures
            r == reported,
    {
        reported as i64
    }

    /// The row identifier of the most recent insert, as the engine
    /// `reported` it.
    pub fn get_last_insert_rowid(&self, reported: i64) -> (r: i64)
        requires
            self@.open,
        ensures
            r == reported,
    {
        reported
    }

    /// The result of executing SQL, given the status `code` the engine
    /// reported and the connection's error message `errmsg`: `Ok(true)` on
    /// success, the error built from both otherwise.
    pub fn exec(&self, code: i32, errmsg: &str) -> (r: SqliteResult<bool>)
        ensures
            exec_outcome(self@, code as int, errmsg@, r),
    {
        if !self.open {
            Err(SqliteError::from_code(SQLITE_MISUSE))
        } else if code == SQLITE_OK {
            Ok(true)
        } else {
            Err(SqliteError::from_code_and_message(code, errmsg))
        }
    }

    /// The result of preparing SQL, given the status `code` the engine
    /// reported, the compiled handle `stmt_handle` it wrote (0 for none) and
    /// the connection's error message `errmsg`. The statement borrows the
    /// connection: it cannot outlive it, and the connection cannot be closed
    /// while it lives.
    pub fn prepare<'db>(&'db self, code: i32, stmt_handle: usize, errmsg: &str) -> (r: SqliteResult<
        Statement<'db>,
    >)
        ensures
            prepare_outcome(self@, code as int, stmt_handle as int, errmsg@, r),
    {
        if !self.open {
            Err(SqliteError::from_code(SQLITE_MISUSE))
        } else if code != SQLITE_OK {
            Err(SqliteError::from_code_and_message(code, errmsg))
        } else if stmt_handle == 0 {
            Err(SqliteError::from_code(SQLITE_MISUSE))
        } else {
            Ok(Statement::new(self, stmt_handle))
        }
    }

    /// The result of setting a busy timeout, given the status `code` the
    /// engine reported on applying it and the connection's error message
    /// `errmsg`: `None` on success, the error built from both otherwise.
    pub fn set_busy_timeout(&self, code: i32, errmsg: &str) -> (r: SqliteMaybe)
        ensures
            busy_timeout_outcome(self@, code as int, errmsg@, r),
    {
        if !self.open {
            Some(SqliteError::from_code(SQLITE_MISUSE))
        } else if code != SQLITE_OK {
            Some(SqliteError::from_code_and_message(code, errmsg))
        } else {
            None
        }
    }

    /// Closes the connection. Returns the handle for the engine to release
    /// while the connection is open, and `None` on every later call.
    pub fn close(&mut self) -> (r: Option<usize>)
        ensures
            final(self)@ == close_spec(old(self)@),
            r == released_by_close(old(self)@),
    {
        proof {
            use_type_invariant(&*self);
        }
        if self.open {
            *self = Database { handle: self.handle, open: false };
            Some(self.handle)
        } else {
            None
        }
    }
}

} // verus!
