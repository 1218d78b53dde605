//! Result codes of SQLite, as far as the client knows them.
//!
//! The list is that of `ResultCode` in `powersync_sqlite_nostd` 0.5.2, and so is how return codes
//! become replies. It holds the codes that SQLite defined when that crate was made. Versions of
//! SQLite since then define further extended codes, which are not in it. The list stands here because
//! that crate cannot be built without libclang, which generates its bindings.

use vstd::prelude::*;

verus! {

/// The code by which SQLite reports success.
pub const SQLITE_OK: i32 = 0;

/// The code of an operation that was given up.
pub const SQLITE_ABORT: i32 = 4;

/// The code by which a step of a statement reports that a row is ready.
pub const SQLITE_ROW: i32 = 100;

/// The code by which a step of a statement reports that there are no more rows.
pub const SQLITE_DONE: i32 = 101;

/// The code of a value that is not there. It is none of SQLite's own.
pub const SQLITE_NULL: i32 = 5000;

/// A result code of SQLite that the client knows, primary or extended.
#[derive(Clone, Copy, Debug, PartialEq, Eq, Structural)]
pub struct ResultCode {
    code: i32,
}

/// What SQLite replies to a call: the code of its success or of its failure.
pub type Reply = Result<ResultCode, ResultCode>;

/// Whether a number is a result code that the client knows.
///
/// An extended code is a primary code, which takes the low byte, and a number that tells the
/// extended codes of one primary code apart. Those in the list count from one. Of `SQLITE_ABORT` it
/// holds the second alone.
pub open spec fn is_result_code(code: int) -> bool {
    let primary = code % 256;
    let extension = code / 256;
    ||| code == SQLITE_NULL
    ||| extension == 0 && (0 <= primary <= 28 || primary == SQLITE_ROW || primary == SQLITE_DONE)
    ||| primary == SQLITE_ABORT && extension == 2
    ||| 1 <= extension <= extended_codes(primary)
}

/// How many extended codes of a primary code are in the list, with `SQLITE_ABORT` left out.
pub open spec fn extended_codes(primary: int) -> int {
    if primary == 10 {
        33
    } else if primary == 19 {
        12
    } else if primary == 8 || primary == 14 {
        6
    } else if primary == 1 || primary == 5 || primary == 11 {
        3
    } else if primary == 0 || primary == 6 || primary == 27 {
        2
    } else if primary == 23 || primary == 28 {
        1
    } else {
        0
    }
}

impl View for ResultCode {
    type V = int;

    closed spec fn view(&self) -> int {
        self.code as int
    }
}

impl ResultCode {
    #[verifier::type_invariant]
    spec fn is_known(self) -> bool {
        is_result_code(self.code as int)
    }

    /// The result code that a number is, if the client knows it.
    pub fn from_i32(code: i32) -> (result_code: Option<ResultCode>)
        ensures
            result_code is Some <==> is_result_code(code as int),
            result_code matches Some(result_code) ==> result_code@ == code,
    {
        if code < 0 {
            return None;
        }
        let primary: i32 = code % 256;
        let extension: i32 = code / 256;
        let extended: i32 = match primary {
            10 => 33,
            19 => 12,
            8 | 14 => 6,
            1 | 5 | 11 => 3,
            0 | 6 | 27 => 2,
            23 | 28 => 1,
            _ => 0,
        };
        if code == SQLITE_NULL || (extension == 0 && (primary <= 28 || primary == SQLITE_ROW
            || primary == SQLITE_DONE)) || (primary == SQLITE_ABORT && extension == 2) || (1
            <= extension && extension <= extended) {
            Some(ResultCode { code })
        } else {
            None
        }
    }

    /// The number of the result code.
    pub fn code(&self) -> (code: i32)
        ensures
            code == self@,
            is_result_code(self@),
    {
        proof {
            use_type_invariant(self);
        }
        self.code
    }
}

/// The reply that a number stands for which SQLite returned from executing a statement without
/// parameters or from binding a value. One that the client does not know counts as `SQLITE_ABORT`.
///
/// From a call that prepares or steps a statement, and from one that opens a database, the client
/// takes known codes alone: see [`convert_prepare`], [`convert_step`] and [`ResultCode::from_i32`].
pub fn convert_rc(rc: i32) -> (reply: Reply)
    ensures
        reply is Ok <==> rc == SQLITE_OK,
        reply matches Ok(code) ==> code@ == SQLITE_OK,
        reply matches Err(code) ==> code@ == if is_result_code(rc as int) {
            rc as int
        } else {
            SQLITE_ABORT as int
        },
{
    match ResultCode::from_i32(rc) {
        Some(code) => if rc == SQLITE_OK {
            Ok(code)
        } else {
            Err(code)
        },
        None => Err(ResultCode { code: SQLITE_ABORT }),
    }
}

/// The reply that a number stands for which SQLite returned from preparing a statement, if the client
/// knows it.
pub fn convert_prepare(rc: i32) -> (reply: Option<Reply>)
    ensures
        reply is Some <==> is_result_code(rc as int),
        reply matches Some(Ok(code)) ==> code@ == rc && rc == SQLITE_OK,
        reply matches Some(Err(code)) ==> code@ == rc && rc != SQLITE_OK,
{
    match ResultCode::from_i32(rc) {
        Some(code) => if rc == SQLITE_OK {
            Some(Ok(code))
        } else {
            Some(Err(code))
        },
        None => None,
    }
}

/// The reply that a number stands for which SQLite returned from a step, if the client knows it.
pub fn convert_step(rc: i32) -> (reply: Option<Reply>)
    ensures
        reply is Some <==> is_result_code(rc as int),
        reply matches Some(Ok(code)) ==> code@ == rc && (rc == SQLITE_ROW || rc == SQLITE_DONE),
        reply matches Some(Err(code)) ==> code@ == rc && rc != SQLITE_ROW && rc != SQLITE_DONE,
{
    match ResultCode::from_i32(rc) {
        Some(code) => if rc == SQLITE_ROW || rc == SQLITE_DONE {
            Some(Ok(code))
        } else {
            Some(Err(code))
        },
        None => None,
    }
}

/// The codes that the client knows, each by its number: the primary codes, then the extended codes by
/// their primary code, then the code of a value that is not there.
pub open spec fn is_listed(code: int) -> bool {
    ||| code == 0 || code == 1 || code == 2 || code == 3 || code == 4 || code == 5 || code == 6
        || code == 7 || code == 8 || code == 9 || code == 10 || code == 11 || code == 12
        || code == 13 || code == 14 || code == 15
    ||| code == 16 || code == 17 || code == 18 || code == 19 || code == 20 || code == 21
        || code == 22 || code == 23 || code == 24 || code == 25 || code == 26 || code == 27
        || code == 28 || code == 100 || code == 101
    ||| code == 256 || code == 512
    ||| code == 257 || code == 513 || code == 769
    ||| code == 516
    ||| code == 261 || code == 517 || code == 773
    ||| code == 262 || code == 518
    ||| code == 264 || code == 520 || code == 776 || code == 1032 || code == 1288 || code == 1544
    ||| code == 266 || code == 522 || code == 778 || code == 1034 || code == 1290 || code == 1546
        || code == 1802 || code == 2058 || code == 2314 || code == 2570 || code == 2826
        || code == 3082 || code == 3338 || code == 3594 || code == 3850 || code == 4106
        || code == 4362 || code == 4618 || code == 4874 || code == 5130 || code == 5386
        || code == 5642 || code == 5898 || code == 6154 || code == 6410 || code == 6666
        || code == 6922 || code == 7178 || code == 7434 || code == 7690 || code == 7946
        || code == 8202 || code == 8458
    ||| code == 267 || code == 523 || code == 779
    ||| code == 270 || code == 526 || code == 782 || code == 1038 || code == 1294 || code == 1550
    ||| code == 275 || code == 531 || code == 787 || code == 1043 || code == 1299 || code == 1555
        || code == 1811 || code == 2067 || code == 2323 || code == 2579 || code == 2835
        || code == 3091
    ||| code == 279
    ||| code == 283 || code == 539
    ||| code == 284
    ||| code == 5000
}

/// The client knows exactly the codes of the list, and no other number.
pub proof fn known_codes_are_the_listed_ones(code: int)
    ensures
        is_result_code(code) <==> is_listed(code),
{
}

/// The codes that the client tells from others are those of SQLite.
pub proof fn codes_are_those_of_sqlite()
    ensures
        SQLITE_OK == 0,
        SQLITE_ABORT == 4,
        SQLITE_ROW == 100,
        SQLITE_DONE == 101,
        SQLITE_NULL == 5000,
{
}

} // verus!
