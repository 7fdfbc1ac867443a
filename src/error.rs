//! Status codes reported by the storage engine, and the typed errors built
//! from them.
use vstd::prelude::*;
use vstd::string::StringExecFns;

verus! {

/// Successful result.
pub const SQLITE_OK: i32 = 0;

/// Generic error.
pub const SQLITE_ERROR: i32 = 1;

/// The engine could not allocate memory.
pub const SQLITE_NOMEM: i32 = 7;

/// The database file is locked by another connection.
pub const SQLITE_BUSY: i32 = 5;

/// A table in the database is locked.
pub const SQLITE_LOCKED: i32 = 6;

/// A constraint (uniqueness, foreign key, ...) was violated.
pub const SQLITE_CONSTRAINT: i32 = 19;

/// The library was used incorrectly.
pub const SQLITE_MISUSE: i32 = 21;

/// The highest primary error code the engine defines.
pub const SQLITE_LAST_PRIMARY: i32 = 28;

/// Coarse classification of a status code.
#[derive(PartialEq, Eq, Structural, Clone, Copy, Debug)]
pub enum ErrorKind {
    Success,
    GenericFailure,
    Busy,
    ConstraintViolation,
    Misuse,
    Unknown,
}

/// The number of extended codes the engine defines under the primary code
/// `primary`: they are `primary + 256 * e` for `e` from 1 up to that number,
/// but for the one abort code, which has `e == 2` alone.
pub open spec fn extended_count(primary: int) -> int {
    if primary == 0 {
        2
    } else if primary == 1 {
        6
    } else if primary == 4 {
        2
    } else if primary == 5 {
        3
    } else if primary == 6 {
        2
    } else if primary == 8 {
        6
    } else if primary == 10 {
        36
    } else if primary == 11 {
        3
    } else if primary == 14 {
        6
    } else if primary == 19 {
        12
    } else if primary == 23 {
        1
    } else if primary == 27 {
        3
    } else if primary == 28 {
        1
    } else {
        0
    }
}

/// Whether the engine defines `code` as an extended code of a primary code.
pub open spec fn is_extended_code(code: int) -> bool {
    let p = code % 256;
    let e = code / 256;
    &&& code >= 256
    &&& 1 <= e <= extended_count(p)
    &&& (p == 4 ==> e == 2)
}

/// The primary code that a code the engine defines stands under: itself for
/// a primary code, its least significant byte for an extended code, and
/// `None` for a code the engine does not define.
pub open spec fn primary_code(code: int) -> Option<int> {
    if SQLITE_OK <= code <= SQLITE_LAST_PRIMARY {
        Some(code)
    } else if is_extended_code(code) {
        Some(code % 256)
    } else {
        None
    }
}

/// The kind of a status code. Every code has one; a code the engine does not
/// define is `Unknown`.
pub open spec fn kind_spec(code: int) -> ErrorKind {
    match primary_code(code) {
        None => ErrorKind::Unknown,
        Some(p) => if p == SQLITE_OK {
            ErrorKind::Success
        } else if p == SQLITE_BUSY || p == SQLITE_LOCKED {
            ErrorKind::Busy
        } else if p == SQLITE_CONSTRAINT {
            ErrorKind::ConstraintViolation
        } else if p == SQLITE_MISUSE {
            ErrorKind::Misuse
        } else {
            ErrorKind::GenericFailure
        },
    }
}

/// The number of extended codes the engine defines under `primary`.
fn extended_count_of(primary: i32) -> (n: i32)
    ensures
        n == extended_count(primary as int),
{
    if primary == 0 {
        2
    } else if primary == 1 {
        6
    } else if primary == 4 {
        2
    } else if primary == 5 {
        3
    } else if primary == 6 {
        2
    } else if primary == 8 {
        6
    } else if primary == 10 {
        36
    } else if primary == 11 {
        3
    } else if primary == 14 {
        6
    } else if primary == 19 {
        12
    } else if primary == 23 {
        1
    } else if primary == 27 {
        3
    } else if primary == 28 {
        1
    } else {
        0
    }
}

/// The primary code that `code` stands under, if the engine defines `code`.
pub fn primary_of(code: i32) -> (r: Option<i32>)
    ensures
        primary_code(code as int) is None ==> r is None,
        primary_code(code as int) is Some ==> r == Some(primary_code(code as int)->Some_0 as i32),
{
    if SQLITE_OK <= code && code <= SQLITE_LAST_PRIMARY {
        Some(code)
    } else if code >= 256 {
        let p: i32 = code % 256;
        let e: i32 = code / 256;
        if 1 <= e && e <= extended_count_of(p) && (p != 4 || e == 2) {
            Some(p)
        } else {
            None
        }
    } else {
        None
    }
}

/// Classifies a status code.
pub fn kind_of(code: i32) -> (k: ErrorKind)
    ensures
        k == kind_spec(code as int),
{
    match primary_of(code) {
        None => ErrorKind::Unknown,
        Some(p) => {
            if p == SQLITE_OK {
                ErrorKind::Success
            } else if p == SQLITE_BUSY || p == SQLITE_LOCKED {
                ErrorKind::Busy
            } else if p == SQLITE_CONSTRAINT {
                ErrorKind::ConstraintViolation
            } else if p == SQLITE_MISUSE {
                ErrorKind::Misuse
            } else {
                ErrorKind::GenericFailure
            }
        },
    }
}

/// An error: the status code, its kind, and the message text captured from
/// the connection at the moment of failure (empty when none was available).
#[derive(Clone, Debug)]
pub struct SqliteError {
    pub code: i32,
    pub kind: ErrorKind,
    pub message: String,
}

pub type SqliteResult<T> = Result<T, SqliteError>;

/// `None` on success, the error otherwise.
pub type SqliteMaybe = Option<SqliteError>;

/// The error that `code` and the captured `message` make.
pub open spec fn error_spec(e: SqliteError, code: int, message: Seq<char>) -> bool {
    &&& e.code == code
    &&& e.kind == kind_spec(code)
    &&& e.message@ == message
}

impl SqliteError {
    /// An error for `code` when no connection is available to describe it.
    pub fn from_code(code: i32) -> (e: SqliteError)
        ensures
            error_spec(e, code as int, Seq::empty()),
    {
        SqliteError { code, kind: kind_of(code), message: String::new() }
    }

    /// The misuse error for text that holds a NUL byte, which the engine
    /// cannot be handed.
    pub fn nul_in_text() -> (e: SqliteError)
        ensures
            error_spec(e, SQLITE_MISUSE as int, "text holds a NUL byte"@),
    {
        SqliteError::from_code_and_message(SQLITE_MISUSE, "text holds a NUL byte")
    }

    /// An error for `code`, copying out the connection's current message.
    pub fn from_code_and_message(code: i32, message: &str) -> (e: SqliteError)
        ensures
            error_spec(e, code as int, message@),
    {
        SqliteError { code, kind: kind_of(code), message: String::from_str(message) }
    }
}

} // verus!
