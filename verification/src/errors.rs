//! The error taxonomy shared by every operation of the reporter.

use vstd::prelude::*;
use vstd::string::StringExecFns;
use crate::text::{join, decimal, decimal_text};

verus! {

/// Numeric code of an `Unknown` error.
pub const GREENER_REPORTER_ERROR: i32 = 1;

/// Numeric code of an `InvalidArgument` error.
pub const GREENER_REPORTER_ERROR_INVALID_ARGUMENT: i32 = 2;

/// Numeric code of an `Ingress` error.
pub const GREENER_REPORTER_ERROR_INGRESS: i32 = 3;

/// A failure of the reporter.
///
/// `InvalidArgument` is malformed caller input, found before any request is
/// made. `Ingress` is a non-success answer of the ingestion service, with its
/// message and HTTP status code. `Unknown` is a transport or internal failure.
#[derive(Debug)]
pub enum ReporterError {
    InvalidArgument(String),
    Ingress(String, u16),
    Unknown(String),
}

/// A `ReporterError` with its message as a sequence of characters.
pub enum ErrorView {
    InvalidArgument(Seq<char>),
    Ingress(Seq<char>, u16),
    Unknown(Seq<char>),
}

impl View for ReporterError {
    type V = ErrorView;

    open spec fn view(&self) -> ErrorView {
        match *self {
            ReporterError::InvalidArgument(m) => ErrorView::InvalidArgument(m@),
            ReporterError::Ingress(m, status) => ErrorView::Ingress(m@, status),
            ReporterError::Unknown(m) => ErrorView::Unknown(m@),
        }
    }
}

/// A result with its text and its error as sequences of characters.
pub open spec fn text_result(r: Result<String, ReporterError>) -> Result<Seq<char>, ErrorView> {
    match r {
        Ok(text) => Ok(text@),
        Err(e) => Err(e@),
    }
}

/// A result with its error as sequences of characters.
pub open spec fn unit_result(r: Result<(), ReporterError>) -> Result<(), ErrorView> {
    match r {
        Ok(_) => Ok(()),
        Err(e) => Err(e@),
    }
}

impl ReporterError {
    /// The message carried by the error, whatever its kind.
    pub open spec fn spec_message(self) -> Seq<char> {
        match self {
            ReporterError::InvalidArgument(m) => m@,
            ReporterError::Ingress(m, _) => m@,
            ReporterError::Unknown(m) => m@,
        }
    }

    /// The numeric code of the error's kind.
    pub open spec fn spec_code(self) -> int {
        match self {
            ReporterError::Unknown(_) => 1,
            ReporterError::InvalidArgument(_) => 2,
            ReporterError::Ingress(_, _) => 3,
        }
    }

    /// The HTTP status of an `Ingress` error, and 0 for the other kinds.
    pub open spec fn spec_ingress_code(self) -> int {
        match self {
            ReporterError::Ingress(_, status) => status as int,
            _ => 0,
        }
    }

    /// The error in words: its kind, then its message, and for an `Ingress`
    /// error the status code between them.
    pub open spec fn spec_describe(self) -> Seq<char> {
        match self {
            ReporterError::InvalidArgument(m) => "InvalidArgument error: "@ + m@,
            ReporterError::Ingress(m, status) => "Ingress error: code="@ + decimal(status as nat)
                + ", "@ + m@,
            ReporterError::Unknown(m) => "Unknown error: "@ + m@,
        }
    }

    /// The error in words, as it is shown to a user.
    pub fn describe(&self) -> (text: String)
        ensures
            text@ == self.spec_describe(),
    {
        match self {
            ReporterError::InvalidArgument(m) => join("InvalidArgument error: ", m.as_str()),
            ReporterError::Ingress(m, status) => {
                let mut text = join("Ingress error: code=", decimal_text(*status).as_str());
                text.append(", ");
                text.append(m.as_str());
                text
            },
            ReporterError::Unknown(m) => join("Unknown error: ", m.as_str()),
        }
    }

    /// The message carried by the error.
    pub fn message(&self) -> (m: &str)
        ensures
            m@ == self.spec_message(),
    {
        match self {
            ReporterError::InvalidArgument(m) => m.as_str(),
            ReporterError::Ingress(m, _) => m.as_str(),
            ReporterError::Unknown(m) => m.as_str(),
        }
    }

    /// The numeric code of the error's kind.
    pub fn code(&self) -> (c: i32)
        ensures
            c == self.spec_code(),
            c == GREENER_REPORTER_ERROR || c == GREENER_REPORTER_ERROR_INVALID_ARGUMENT || c
                == GREENER_REPORTER_ERROR_INGRESS,
    {
        match self {
            ReporterError::Unknown(_) => GREENER_REPORTER_ERROR,
            ReporterError::InvalidArgument(_) => GREENER_REPORTER_ERROR_INVALID_ARGUMENT,
            ReporterError::Ingress(_, _) => GREENER_REPORTER_ERROR_INGRESS,
        }
    }

    /// The HTTP status of an `Ingress` error, and 0 for the other kinds.
    pub fn ingress_code(&self) -> (c: i32)
        ensures
            c == self.spec_ingress_code(),
    {
        match self {
            ReporterError::Ingress(_, status) => *status as i32,
            _ => 0,
        }
    }
}

} // verus!
