//! The error type of this library and the texts it is rendered to.

use vstd::prelude::*;
use vstd::string::StringExecFns;
use crate::text::{decimal, decimal_text};

verus! {

/// Error type for this library. Most often used to represent a case where an
/// environment action caused Java to begin throwing an error
#[derive(Debug)]
pub enum Error {
    /// JNI error caused by another error, of which the rendered text is kept
    Induced(String),
    /// JNI error returned with a message and code
    General(String, i32),
    /// JNI error returned when a pointer is null
    NullPointer(String),
}

/// What an [`Error`] holds, as mathematical values.
pub enum ErrorView {
    Induced(Seq<char>),
    General(Seq<char>, int),
    NullPointer(Seq<char>),
}

impl View for Error {
    type V = ErrorView;

    open spec fn view(&self) -> ErrorView {
        match self {
            Error::Induced(source) => ErrorView::Induced(source@),
            Error::General(msg, code) => ErrorView::General(msg@, *code as int),
            Error::NullPointer(ctx) => ErrorView::NullPointer(ctx@),
        }
    }
}

impl ErrorView {
    /// The text an error is shown as.
    pub open spec fn rendered(self) -> Seq<char> {
        match self {
            ErrorView::General(msg, code) => "Error in JVM: message \""@ + msg + "\", code "@
                + decimal(code),
            ErrorView::Induced(source) => "Error occurred in JNI, source: "@ + source,
            ErrorView::NullPointer(ctx) => "Error in JNI: Pointer was null in "@ + ctx,
        }
    }
}

impl Error {
    /// Create a new error, with a message and numeric code
    pub fn new(msg: &str, code: i32) -> (e: Error)
        ensures
            e@ == ErrorView::General(msg@, code as int),
    {
        Error::General(String::from_str(msg), code)
    }

    /// Create a new null-pointer error, with a message
    pub fn new_null(ctx: &str) -> (e: Error)
        ensures
            e@ == ErrorView::NullPointer(ctx@),
    {
        Error::NullPointer(String::from_str(ctx))
    }

    /// Create a new error out of the rendered text of the error that caused it
    pub fn from(source: &str) -> (e: Error)
        ensures
            e@ == ErrorView::Induced(source@),
    {
        Error::Induced(String::from_str(source))
    }

    /// The text this error is shown as.
    pub fn to_text(&self) -> (s: String)
        ensures
            s@ == self@.rendered(),
    {
        match self {
            Error::General(msg, code) => {
                let digits = decimal_text(*code);
                let s = String::from_str("Error in JVM: message \"").concat(msg.as_str()).concat(
                    "\", code ",
                ).concat(digits.as_str());
                s
            },
            Error::Induced(source) => String::from_str("Error occurred in JNI, source: ").concat(
                source.as_str(),
            ),
            Error::NullPointer(ctx) => String::from_str("Error in JNI: Pointer was null in ").concat(
                ctx.as_str(),
            ),
        }
    }

    /// The numeric code carried by this error, if it is a [`Error::General`].
    pub fn code(&self) -> (c: Option<i32>)
        ensures
            c == match self@ {
                ErrorView::General(_, code) => Some(code as i32),
                _ => None,
            },
    {
        match self {
            Error::General(_, code) => Some(*code),
            _ => None,
        }
    }
}

} // verus!
