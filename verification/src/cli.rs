//! The command line's own exchange with the ingestion service.
//!
//! The command line sends the same two requests as the reporter, with absent
//! fields left out, and reads failures in its own words: the failure's text
//! is the `detail` member of the body, and the status code is part of the
//! message.

use vstd::prelude::*;
use vstd::string::StringExecFns;
use crate::errors::{text_result, unit_result, ErrorView, ReporterError};
use crate::ingress::{body_view, is_request, is_success, parse_body, parsed_body, parsed_view};
use crate::ingress::{session_response_of, session_url, spec_is_success, testcases_url};
use crate::ingress::{text_member, text_member_of};
use crate::ingress::{HttpReply, HttpRequest};
use crate::json::Doc;
use crate::models::{SessionRequest, TestcaseRequest, TestcasesRequest};
use crate::text::{join, decimal, decimal_text};
use crate::wire::{session_body, session_doc, testcases_body, testcases_doc, Absent};

verus! {

/// The request that creates a session. Absent fields are left out.
pub fn session_request(endpoint: &str, api_key: &str, session: &SessionRequest) -> (r: Result<
    HttpRequest,
    ReporterError,
>)
    ensures
        is_request(
            r,
            endpoint@ + "/api/v1/ingress/sessions"@,
            api_key@,
            session_doc(*session, Absent::Omitted),
        ),
{
    match session_body(session, Absent::Omitted) {
        Ok(body) => Ok(
            HttpRequest { url: session_url(endpoint), api_key: api_key.to_owned(), body },
        ),
        Err(e) => Err(e),
    }
}

/// The request that reports test results. Absent fields are left out.
pub fn testcases_request(
    endpoint: &str,
    api_key: &str,
    testcases: Vec<TestcaseRequest>,
) -> (r: Result<HttpRequest, ReporterError>)
    ensures
        is_request(
            r,
            endpoint@ + "/api/v1/ingress/testcases"@,
            api_key@,
            testcases_doc(testcases@, Absent::Omitted),
        ),
{
    let request = TestcasesRequest { testcases };
    match testcases_body(&request, Absent::Omitted) {
        Ok(body) => Ok(
            HttpRequest { url: testcases_url(endpoint), api_key: api_key.to_owned(), body },
        ),
        Err(e) => Err(e),
    }
}

/// The text of a failure: the `detail` member of a structured body, and
/// `Unknown error` for any other body.
pub open spec fn failure_detail(parsed: Result<Doc, Seq<char>>) -> Seq<char> {
    match parsed {
        Ok(doc) => match text_member(doc, "detail"@) {
            Some(detail) => detail,
            None => "Unknown error"@,
        },
        Err(_) => "Unknown error"@,
    }
}

/// The message of a failed request: what failed, the status code in
/// brackets, and the text of the failure.
pub open spec fn failure_message(
    what: Seq<char>,
    status: u16,
    parsed: Result<Doc, Seq<char>>,
) -> Seq<char> {
    what + " ("@ + decimal(status as nat) + "): "@ + failure_detail(parsed)
}

/// The result of creating a session, from the status and what the JSON parser
/// made of the body.
///
/// A status outside 200 to 299 is an `Ingress` error with that status. With a
/// status of success the result is the `id` member of the body; a body that
/// is no JSON object with a text `id` is an `Unknown` error.
pub open spec fn session_outcome(status: u16, parsed: Result<Doc, Seq<char>>) -> Result<
    Seq<char>,
    ErrorView,
> {
    if !spec_is_success(status) {
        Err(ErrorView::Ingress(failure_message("Failed session request"@, status, parsed), status))
    } else {
        match parsed {
            Ok(doc) => match text_member(doc, "id"@) {
                Some(id) => Ok(id),
                None => Err(
                    ErrorView::Unknown("Failed to parse session response: missing field `id`"@),
                ),
            },
            Err(detail) => Err(ErrorView::Unknown("Failed to parse session response: "@ + detail)),
        }
    }
}

/// The result of reporting test results, from the status and what the JSON
/// parser made of the body.
///
/// A status outside 200 to 299 is an `Ingress` error with that status. With a
/// status of success the body is ignored.
pub open spec fn testcases_outcome(status: u16, parsed: Result<Doc, Seq<char>>) -> Result<
    (),
    ErrorView,
> {
    if !spec_is_success(status) {
        Err(
            ErrorView::Ingress(
                failure_message("Failed testcases request"@, status, parsed),
                status,
            ),
        )
    } else {
        Ok(())
    }
}

/// The message of a failed request, given what the JSON parser made of the
/// body.
fn failure_message_of(
    what: &str,
    status: u16,
    parsed: &Result<serde_json::Value, String>,
) -> (message: String)
    ensures
        message@ == failure_message(what@, status, parsed_view(*parsed)),
{
    let detail = match parsed {
        Ok(value) => match text_member_of(value, "detail") {
            Some(detail) => detail,
            None => String::from_str("Unknown error"),
        },
        Err(_) => String::from_str("Unknown error"),
    };
    let mut message = join(what, " (");
    message.append(decimal_text(status).as_str());
    message.append("): ");
    message.append(detail.as_str());
    message
}

/// The result of creating a session, given the reply and what the JSON parser
/// made of its body.
pub fn session_reply_parsed(
    reply: &HttpReply,
    parsed: &Result<serde_json::Value, String>,
) -> (r: Result<String, ReporterError>)
    ensures
        text_result(r) == session_outcome(reply.status, parsed_view(*parsed)),
{
    if !is_success(reply.status) {
        Err(
            ReporterError::Ingress(
                failure_message_of("Failed session request", reply.status, parsed),
                reply.status,
            ),
        )
    } else {
        match parsed {
            Ok(value) => match session_response_of(value) {
                Some(response) => Ok(response.id),
                None => Err(
                    ReporterError::Unknown(
                        String::from_str("Failed to parse session response: missing field `id`"),
                    ),
                ),
            },
            Err(detail) => Err(
                ReporterError::Unknown(
                    join("Failed to parse session response: ", detail.as_str()),
                ),
            ),
        }
    }
}

/// The result of reporting test results, given the reply and what the JSON
/// parser made of its body.
pub fn testcases_reply_parsed(
    reply: &HttpReply,
    parsed: &Result<serde_json::Value, String>,
) -> (r: Result<(), ReporterError>)
    ensures
        unit_result(r) == testcases_outcome(reply.status, parsed_view(*parsed)),
{
    if !is_success(reply.status) {
        Err(
            ReporterError::Ingress(
                failure_message_of("Failed testcases request", reply.status, parsed),
                reply.status,
            ),
        )
    } else {
        Ok(())
    }
}

/// The result of creating a session, from what came of the transfer: the
/// service's reply, or the text of the transport's error.
pub fn create_session_result(transfer: &Result<HttpReply, String>) -> (r: Result<
    String,
    ReporterError,
>)
    ensures
        match *transfer {
            Ok(reply) => text_result(r) == session_outcome(
                reply.status,
                parsed_body(body_view(reply.body)),
            ),
            Err(detail) => text_result(r) == Err::<Seq<char>, ErrorView>(
                ErrorView::Unknown("Failed to send session request: "@ + detail@),
            ),
        },
{
    match transfer {
        Ok(reply) => {
            let parsed = parse_body(&reply.body);
            session_reply_parsed(reply, &parsed)
        },
        Err(detail) => Err(
            ReporterError::Unknown(join("Failed to send session request: ", detail.as_str())),
        ),
    }
}

/// The result of reporting test results, from what came of the transfer:
/// the service's reply, or the text of the transport's error.
pub fn create_testcases_result(transfer: &Result<HttpReply, String>) -> (r: Result<
    (),
    ReporterError,
>)
    ensures
        match *transfer {
            Ok(reply) => unit_result(r) == testcases_outcome(
                reply.status,
                parsed_body(body_view(reply.body)),
            ),
            Err(detail) => unit_result(r) == Err::<(), ErrorView>(
                ErrorView::Unknown("Failed to send testcases request: "@ + detail@),
            ),
        },
{
    match transfer {
        Ok(reply) => {
            if is_success(reply.status) {
                Ok(())
            } else {
                let parsed = parse_body(&reply.body);
                testcases_reply_parsed(reply, &parsed)
            }
        },
        Err(detail) => Err(
            ReporterError::Unknown(join("Failed to send testcases request: ", detail.as_str())),
        ),
    }
}

} // verus!
