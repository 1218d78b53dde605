//! The errors of this library.

use vstd::prelude::*;

use crate::db::result_code::ResultCode;

verus! {

/// What can go wrong in an operation of the client.
#[derive(Debug, PartialEq, Eq)]
pub enum PowerSyncError {
    /// The caller asked for something that cannot be done.
    ArgumentError { desc: String },
    /// A call into SQLite failed, and `context` says what was attempted.
    RawSqlite { code: ResultCode, context: String },
    /// A call into SQLite failed with nothing known but its code.
    Sqlite { code: ResultCode },
    /// A text was not the JSON that was expected.
    Json { message: String },
    /// An error of the environment: the connection pool, the connector or the sync service.
    Other { message: String },
}

/// The content of a [`PowerSyncError`].
#[verifier::ext_equal]
pub enum PowerSyncErrorView {
    ArgumentError { desc: Seq<char> },
    RawSqlite { code: ResultCode, context: Seq<char> },
    Sqlite { code: ResultCode },
    Json { message: Seq<char> },
    Other { message: Seq<char> },
}

impl View for PowerSyncError {
    type V = PowerSyncErrorView;

    open spec fn view(&self) -> PowerSyncErrorView {
        match *self {
            PowerSyncError::ArgumentError { desc } => PowerSyncErrorView::ArgumentError {
                desc: desc@,
            },
            PowerSyncError::RawSqlite { code, context } => PowerSyncErrorView::RawSqlite {
                code,
                context: context@,
            },
            PowerSyncError::Sqlite { code } => PowerSyncErrorView::Sqlite { code },
            PowerSyncError::Json { message } => PowerSyncErrorView::Json { message: message@ },
            PowerSyncError::Other { message } => PowerSyncErrorView::Other { message: message@ },
        }
    }
}

impl PowerSyncError {
    /// An argument error that `desc` describes.
    pub fn argument_error(desc: &str) -> (error: PowerSyncError)
        ensures
            error@ == (PowerSyncErrorView::ArgumentError { desc: desc@ }),
    {
        PowerSyncError::ArgumentError { desc: desc.to_owned() }
    }

    /// The failure `code` of SQLite, in a context that reads as `attempt` followed by `subject`.
    pub fn raw_sqlite(code: ResultCode, attempt: &str, subject: &str) -> (error: PowerSyncError)
        ensures
            error@ == (PowerSyncErrorView::RawSqlite { code, context: attempt@ + subject@ }),
    {
        let mut context = attempt.to_owned();
        context.append(subject);
        PowerSyncError::RawSqlite { code, context }
    }
}

/// The content of an error is the error: its kind, its code and its text.
pub proof fn contents_of_errors_are_faithful(code: ResultCode, text: String)
    ensures
        (PowerSyncError::ArgumentError { desc: text })@ == (PowerSyncErrorView::ArgumentError {
            desc: text@,
        }),
        (PowerSyncError::RawSqlite { code, context: text })@ == (PowerSyncErrorView::RawSqlite {
            code,
            context: text@,
        }),
        (PowerSyncError::Sqlite { code })@ == (PowerSyncErrorView::Sqlite { code }),
        (PowerSyncError::Json { message: text })@ == (PowerSyncErrorView::Json { message: text@ }),
        (PowerSyncError::Other { message: text })@ == (PowerSyncErrorView::Other { message: text@ }),
{
}

} // verus!
