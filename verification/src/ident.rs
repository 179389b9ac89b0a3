//! Session identifiers that have to be UUIDs.
//!
//! The `uuid` crate reads the identifier and writes it back in its canonical
//! form: hyphenated, in lower case. What it makes of a text is named by
//! `uuid_parsed`; the contract of `uuid_canonical` is taken on trust.

use vstd::prelude::*;
use crate::errors::{text_result, ErrorView, ReporterError};
use crate::text::join;

verus! {

/// What `Uuid::parse_str` makes of a text: the UUID, in the form in which
/// `Uuid` is displayed, or the parser's complaint.
pub uninterp spec fn uuid_parsed(text: Seq<char>) -> Result<Seq<char>, Seq<char>>;

/// `Uuid::parse_str`, then the UUID's or the error's `to_string`.
#[verifier::external_body]
pub(crate) fn uuid_canonical(text: &str) -> (r: Result<String, String>)
    ensures
        match r {
            Ok(id) => uuid_parsed(text@) == Ok::<Seq<char>, Seq<char>>(id@),
            Err(e) => uuid_parsed(text@) == Err::<Seq<char>, Seq<char>>(e@),
        },
{
    match uuid::Uuid::parse_str(text) {
        Ok(id) => Ok(id.to_string()),
        Err(e) => Err(e.to_string()),
    }
}

/// The session identifier that a text gives, from what the UUID parser made
/// of it: the canonical form, or an invalid argument with the parser's
/// complaint.
pub open spec fn session_id_outcome(parsed: Result<Seq<char>, Seq<char>>) -> Result<
    Seq<char>,
    ErrorView,
> {
    match parsed {
        Ok(id) => Ok(id),
        Err(detail) => Err(ErrorView::InvalidArgument("Invalid session ID format: "@ + detail)),
    }
}

/// The session identifier, given what the UUID parser made of its text.
pub fn session_id_from(parsed: Result<String, String>) -> (r: Result<String, ReporterError>)
    ensures
        text_result(r) == session_id_outcome(
            match parsed {
                Ok(id) => Ok(id@),
                Err(detail) => Err(detail@),
            },
        ),
{
    match parsed {
        Ok(id) => Ok(id),
        Err(detail) => Err(
            ReporterError::InvalidArgument(join("Invalid session ID format: ", detail.as_str())),
        ),
    }
}

/// Reads a session identifier that has to be a UUID, and gives it back in its
/// canonical form.
pub fn parse_session_id(text: &str) -> (r: Result<String, ReporterError>)
    ensures
        text_result(r) == session_id_outcome(uuid_parsed(text@)),
{
    session_id_from(uuid_canonical(text))
}

} // verus!
