//! Application-level error type.

use vstd::prelude::*;
use vstd::string::StringExecFns;

verus! {

#[verifier::external_type_specification]
#[verifier::external_body]
pub struct ExParseFeedError(feed_rs::parser::ParseFeedError);

/// Errors that can occur anywhere in the reader; each carries the message of
/// the failure it stands for.
#[derive(Clone, Debug)]
pub enum AppError {
    /// An HTTP request failed (network error, timeout, non-2xx status, ...).
    Http(String),
    /// An RSS/Atom feed could not be parsed.
    Parse(String),
    /// A filesystem I/O operation failed.
    Io(String),
    /// JSON serialization or deserialization failed.
    Serde(String),
    /// Terminal setup or teardown failed.
    Terminal(String),
}

/// The value of an [`AppError`]: its kind and its detail message.
pub enum AppErrorView {
    Http(Seq<char>),
    Parse(Seq<char>),
    Io(Seq<char>),
    Serde(Seq<char>),
    Terminal(Seq<char>),
}

impl View for AppError {
    type V = AppErrorView;

    open spec fn view(&self) -> AppErrorView {
        match self {
            AppError::Http(m) => AppErrorView::Http(m@),
            AppError::Parse(m) => AppErrorView::Parse(m@),
            AppError::Io(m) => AppErrorView::Io(m@),
            AppError::Serde(m) => AppErrorView::Serde(m@),
            AppError::Terminal(m) => AppErrorView::Terminal(m@),
        }
    }
}

/// The human-readable message of an error: a prefix naming its kind, then
/// its detail.
pub open spec fn error_message(e: AppErrorView) -> Seq<char> {
    match e {
        AppErrorView::Http(m) => "HTTP request failed: "@ + m,
        AppErrorView::Parse(m) => "Feed parse error: "@ + m,
        AppErrorView::Io(m) => "IO error: "@ + m,
        AppErrorView::Serde(m) => "Serialization error: "@ + m,
        AppErrorView::Terminal(m) => "Terminal error: "@ + m,
    }
}

impl AppError {
    /// The human-readable message of this error.
    pub fn message(&self) -> (r: String)
        ensures
            r@ == error_message(self@),
    {
        let (prefix, detail) = match self {
            AppError::Http(m) => ("HTTP request failed: ", m),
            AppError::Parse(m) => ("Feed parse error: ", m),
            AppError::Io(m) => ("IO error: ", m),
            AppError::Serde(m) => ("Serialization error: ", m),
            AppError::Terminal(m) => ("Terminal error: ", m),
        };
        let mut r = String::from_str(prefix);
        r.append(detail.as_str());
        r
    }

    /// Converts a feed parser error by capturing its message.
    pub fn from_parse_error(e: feed_rs::parser::ParseFeedError) -> (r: AppError)
        ensures
            r matches AppError::Parse(m) && vstd::string::to_string_from_display_ensures(&e, m),
    {
        AppError::Parse(e.to_string())
    }
}

} // verus!
