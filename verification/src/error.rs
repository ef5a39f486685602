//! The error type every server operation returns, and what of it reaches
//! the client.
use vstd::prelude::*;
use crate::text::{owned, push_str};

verus! {

/// A failed server operation. `Client` errors carry a message meant for
/// the person at the form; `Internal` errors carry diagnostic context that
/// is logged and never shown.
#[derive(Debug)]
pub enum AppError {
    Client(String),
    Internal { context: &'static str, source: String },
}

pub type AppResult<T> = Result<T, AppError>;

/// What an `AppError` holds, as character sequences.
pub enum ErrorView {
    Client(Seq<char>),
    Internal(Seq<char>, Seq<char>),
}

impl View for AppError {
    type V = ErrorView;

    open spec fn view(&self) -> ErrorView {
        match self {
            AppError::Client(m) => ErrorView::Client(m@),
            AppError::Internal { context, source } => ErrorView::Internal(context@, source@),
        }
    }
}

/// The message the client sees for any internal failure.
pub open spec fn generic_failure() -> Seq<char> {
    "Request failed. Try again later."@
}

/// The message handed to the client for `e`.
pub open spec fn public_message_of(e: ErrorView) -> Seq<char> {
    match e {
        ErrorView::Client(m) => m,
        ErrorView::Internal(_, _) => generic_failure(),
    }
}

/// Whether `r` failed with the client-facing message `m`.
pub open spec fn fails_with<T>(r: AppResult<T>, m: Seq<char>) -> bool {
    r matches Err(e) && e@ == ErrorView::Client(m)
}

/// Whether `r` failed internally with the given context and source.
pub open spec fn fails_internally<T>(r: AppResult<T>, context: Seq<char>, source: Seq<char>) -> bool {
    r matches Err(e) && e@ == ErrorView::Internal(context, source)
}

impl AppError {
    /// A client-facing error with `message`.
    pub fn client(message: String) -> (e: Self)
        ensures
            e@ == ErrorView::Client(message@),
    {
        AppError::Client(message)
    }

    /// An internal error: `context` says what was attempted, `error` what
    /// went wrong (rendered with `Display`).
    pub fn internal(context: &'static str, error: impl std::fmt::Display) -> (e: Self)
        ensures
            e matches AppError::Internal { context: c, source: s } && c == context
                && vstd::string::to_string_from_display_ensures(&error, s),
    {
        AppError::Internal { context, source: error.to_string() }
    }

    /// An internal error whose source text is already rendered.
    pub fn internal_text(context: &'static str, source: String) -> (e: Self)
        ensures
            e@ == ErrorView::Internal(context@, source@),
    {
        AppError::Internal { context, source }
    }
}

/// A client-facing error whose message is the literal `m`.
pub fn client_str(m: &str) -> (e: AppError)
    ensures
        e@ == ErrorView::Client(m@),
{
    AppError::client(owned(m))
}

/// Wraps a storage failure: the same as `AppError::internal`.
pub fn d1_error(context: &'static str, error: impl std::fmt::Display) -> (e: AppError)
    ensures
        e matches AppError::Internal { context: c, source: s } && c == context
            && vstd::string::to_string_from_display_ensures(&error, s),
{
    AppError::internal(context, error)
}

/// The message a server function hands back for `error`: client messages
/// pass through, internal failures become one generic sentence.
pub fn public_message(error: &AppError) -> (m: String)
    ensures
        m@ == public_message_of(error@),
        error@ is Internal ==> m@ == generic_failure(),
{
    match error {
        AppError::Client(message) => message.clone(),
        AppError::Internal { .. } => owned("Request failed. Try again later."),
    }
}

/// The line logged for `error`: `"{context}: {source}"` for internal
/// failures, nothing for client errors.
pub fn log_line(error: &AppError) -> (line: Option<String>)
    ensures
        match error@ {
            ErrorView::Client(_) => line is None,
            ErrorView::Internal(c, s) => line matches Some(l) && l@ == c + ": "@ + s,
        },
{
    match error {
        AppError::Client(_) => None,
        AppError::Internal { context, source } => {
            let mut l = owned(context);
            push_str(&mut l, ": ");
            push_str(&mut l, source.as_str());
            Some(l)
        },
    }
}

} // verus!
