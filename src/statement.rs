//! A compiled statement, borrowed from the connection that prepared it: it
//! cannot outlive that connection, and the connection cannot be closed while
//! it lives. Use after finalization is reported as misuse.
use vstd::prelude::*;

use crate::database::{is_misuse, Database, DatabaseView};
use crate::error::{SqliteError, SqliteResult, SQLITE_MISUSE};

verus! {

/// What a statement is: its compiled handle, the connection that owns it, and
/// whether it is still live (not finalized).
pub ghost struct StatementView {
    pub handle: int,
    pub owner: DatabaseView,
    pub live: bool,
}

/// A compiled, not yet stepped statement.
#[derive(Debug)]
pub struct Statement<'db> {
    owner: &'db Database,
    handle: usize,
    live: bool,
}

impl<'db> View for Statement<'db> {
    type V = StatementView;

    closed spec fn view(&self) -> StatementView {
        StatementView { handle: self.handle as int, owner: self.owner@, live: self.live }
    }
}

/// Whether `st` may be used: it is live and its owner is open.
pub open spec fn usable(st: StatementView) -> bool {
    &&& st.live
    &&& st.owner.open
}

impl<'db> Statement<'db> {
    #[verifier::type_invariant]
    spec fn inv(self) -> bool {
        &&& self.handle != 0
        &&& self.owner@.open
    }

    /// Associates the compiled `handle` with the open connection `owner`.
    pub fn new(owner: &'db Database, handle: usize) -> (st: Statement<'db>)
        requires
            owner@.open,
            handle != 0,
        ensures
            st@ == (StatementView { handle: handle as int, owner: owner@, live: true }),
    {
        Statement { owner, handle, live: true }
    }

    /// The compiled handle to hand to the engine, or a misuse error once the
    /// statement is finalized. Its owner is open for as long as it lives.
    pub fn usable_handle(&self) -> (r: SqliteResult<usize>)
        ensures
            0 < self@.handle <= usize::MAX,
            self@.owner.open,
            usable(self@) ==> r == Ok::<usize, SqliteError>(self@.handle as usize),
            !usable(self@) ==> r is Err && is_misuse(r->Err_0),
    {
        proof {
            use_type_invariant(self);
        }
        if self.live {
            Ok(self.handle)
        } else {
            Err(SqliteError::from_code(SQLITE_MISUSE))
        }
    }

    /// Ends the statement. Returns the compiled handle for the engine to
    /// release on the first call, and `None` on every later one.
    pub fn finalize(&mut self) -> (r: Option<usize>)
        ensures
            final(self)@ == (StatementView { live: false, ..old(self)@ }),
            old(self)@.live ==> r == Some(old(self)@.handle as usize),
            !old(self)@.live ==> r is None,
    {
        proof {
            use_type_invariant(&*self);
        }
        if self.live {
            *self = Statement { owner: self.owner, handle: self.handle, live: false };
            Some(self.handle)
        } else {
            None
        }
    }
}

} // verus!
