//! The transport client's two operations, apart from the transfer itself:
//! how a request is made up, and what the service's answer means.
//!
//! The caller sends the `HttpRequest` and hands back what came of it: the
//! `HttpReply`, or the text of the transport's error. There are no retries.

use vstd::prelude::*;
use vstd::string::StringExecFns;
use crate::errors::{text_result, unit_result, ErrorView, ReporterError};
use crate::json::{json_as_str, json_get, json_model, json_parse, json_parsed, json_rendered, Doc};
use crate::models::{ErrorResponse, SessionRequest, SessionResponse, TestcaseRequest};
use crate::models::TestcasesRequest;
use crate::text::join;
use crate::wire::{body_outcome, session_body, session_doc, testcases_body, testcases_doc, Absent};

verus! {

/// A `POST` request with a JSON body, ready to be sent.
#[derive(Debug)]
pub struct HttpRequest {
    pub url: String,
    /// The value of the `X-API-Key` header.
    pub api_key: String,
    pub body: String,
}

/// What the service answered: the status code, and the text of the body or,
/// where the body could not be read, the text of that error.
#[derive(Debug)]
pub struct HttpReply {
    pub status: u16,
    pub body: Result<String, String>,
}

/// The name of the header that carries the API key.
pub fn api_key_header() -> (name: &'static str)
    ensures
        name@ == "X-API-Key"@,
{
    "X-API-Key"
}

/// Whether a status code is one of success: 200 to 299.
pub open spec fn spec_is_success(status: u16) -> bool {
    200 <= status < 300
}

/// Whether a status code is one of success: 200 to 299.
pub fn is_success(status: u16) -> (b: bool)
    ensures
        b == spec_is_success(status),
{
    200 <= status && status < 300
}

/// The address of the sessions resource below `endpoint`.
pub fn session_url(endpoint: &str) -> (url: String)
    ensures
        url@ == endpoint@ + "/api/v1/ingress/sessions"@,
{
    join(endpoint, "/api/v1/ingress/sessions")
}

/// The address of the test cases resource below `endpoint`.
pub fn testcases_url(endpoint: &str) -> (url: String)
    ensures
        url@ == endpoint@ + "/api/v1/ingress/testcases"@,
{
    join(endpoint, "/api/v1/ingress/testcases")
}

/// Whether `r` is the request to `url` with the given key and the body that
/// the serializer made of `doc`, or the error of a serializer that failed.
pub open spec fn is_request(
    r: Result<HttpRequest, ReporterError>,
    url: Seq<char>,
    api_key: Seq<char>,
    doc: Doc,
) -> bool {
    match body_outcome(json_rendered(doc)) {
        Ok(body) => {
            &&& r matches Ok(request)
            &&& r->Ok_0.url@ == url
            &&& r->Ok_0.api_key@ == api_key
            &&& r->Ok_0.body@ == body
        },
        Err(fault) => r matches Err(e) && e@ == fault,
    }
}

/// The request that creates a session. Absent fields are sent as `null`.
pub fn session_request(endpoint: &str, api_key: &str, session: &SessionRequest) -> (r: Result<
    HttpRequest,
    ReporterError,
>)
    ensures
        is_request(
            r,
            endpoint@ + "/api/v1/ingress/sessions"@,
            api_key@,
            session_doc(*session, Absent::Null),
        ),
{
    match session_body(session, Absent::Null) {
        Ok(body) => Ok(
            HttpRequest { url: session_url(endpoint), api_key: api_key.to_owned(), body },
        ),
        Err(e) => Err(e),
    }
}

/// The request that reports a batch. Absent fields are sent as `null`.
pub fn testcases_request(
    endpoint: &str,
    api_key: &str,
    testcases: Vec<TestcaseRequest>,
) -> (r: Result<HttpRequest, ReporterError>)
    ensures
        is_request(
            r,
            endpoint@ + "/api/v1/ingress/testcases"@,
            api_key@,
            testcases_doc(testcases@, Absent::Null),
        ),
{
    let request = TestcasesRequest { testcases };
    match testcases_body(&request, Absent::Null) {
        Ok(body) => Ok(
            HttpRequest { url: testcases_url(endpoint), api_key: api_key.to_owned(), body },
        ),
        Err(e) => Err(e),
    }
}

/// The member `key` of a document, where the document is an object and the
/// member is a text.
pub open spec fn text_member(doc: Doc, key: Seq<char>) -> Option<Seq<char>> {
    match doc {
        Doc::Object(members) => {
            if members.contains_key(key) {
                match members[key] {
                    Doc::Text(text) => Some(text),
                    _ => None,
                }
            } else {
                None
            }
        },
        _ => None,
    }
}

/// The member `key` of a JSON value, where the value is an object and the
/// member is a text.
pub fn text_member_of(value: &serde_json::Value, key: &str) -> (r: Option<String>)
    ensures
        match text_member(json_model(*value), key@) {
            Some(text) => r matches Some(found) && found@ == text,
            None => r is None,
        },
{
    match json_get(value, key) {
        Some(member) => match json_as_str(member) {
            Some(text) => Some(text.to_owned()),
            None => None,
        },
        None => None,
    }
}

/// The structured body of a failed request, where the document is one: an
/// object with a text member `message`.
pub fn error_response_of(value: &serde_json::Value) -> (r: Option<ErrorResponse>)
    ensures
        match text_member(json_model(*value), "message"@) {
            Some(text) => r matches Some(response) && response.message@ == text,
            None => r is None,
        },
{
    match text_member_of(value, "message") {
        Some(message) => Some(ErrorResponse { message }),
        None => None,
    }
}

/// The answer to a session request, where the document is one: an object
/// with a text member `id`.
pub fn session_response_of(value: &serde_json::Value) -> (r: Option<SessionResponse>)
    ensures
        match text_member(json_model(*value), "id"@) {
            Some(text) => r matches Some(response) && response.id@ == text,
            None => r is None,
        },
{
    match text_member_of(value, "id") {
        Some(id) => Some(SessionResponse { id }),
        None => None,
    }
}

/// The message that a failed request's body carries: the `message` member of
/// a structured body, the body as it is where it has no such structure, and
/// the empty text where the body could not be read.
pub open spec fn failure_detail(
    body: Result<Seq<char>, Seq<char>>,
    parsed: Result<Doc, Seq<char>>,
) -> Seq<char> {
    match body {
        Ok(raw) => match parsed {
            Ok(doc) => match text_member(doc, "message"@) {
                Some(message) => message,
                None => raw,
            },
            Err(_) => raw,
        },
        Err(_) => Seq::empty(),
    }
}

/// A body, or the error of reading it, as sequences of characters.
pub open spec fn body_view(body: Result<String, String>) -> Result<Seq<char>, Seq<char>> {
    match body {
        Ok(text) => Ok(text@),
        Err(detail) => Err(detail@),
    }
}

/// What the JSON parser made of a text, as a document.
pub open spec fn parsed_view(parsed: Result<serde_json::Value, String>) -> Result<Doc, Seq<char>> {
    match parsed {
        Ok(value) => Ok(json_model(value)),
        Err(detail) => Err(detail@),
    }
}

/// What the JSON parser makes of a body that was read, and a failure with
/// the reading's error where it was not.
pub open spec fn parsed_body(body: Result<Seq<char>, Seq<char>>) -> Result<Doc, Seq<char>> {
    match body {
        Ok(raw) => json_parsed(raw),
        Err(detail) => Err(detail),
    }
}

/// The message that a failed request's body carries, given what the JSON
/// parser made of the body.
pub fn failure_detail_of(
    body: &Result<String, String>,
    parsed: &Result<serde_json::Value, String>,
) -> (detail: String)
    ensures
        detail@ == failure_detail(body_view(*body), parsed_view(*parsed)),
{
    match body {
        Ok(raw) => match parsed {
            Ok(value) => match error_response_of(value) {
                Some(response) => response.message,
                None => raw.clone(),
            },
            Err(_) => raw.clone(),
        },
        Err(_) => String::new(),
    }
}

/// The body of a reply, parsed as JSON where it could be read.
pub fn parse_body(body: &Result<String, String>) -> (parsed: Result<serde_json::Value, String>)
    ensures
        parsed_view(parsed) == parsed_body(body_view(*body)),
{
    match body {
        Ok(raw) => json_parse(raw.as_str()),
        Err(detail) => Err(detail.clone()),
    }
}

/// The result of creating a session, from the status, the body and what the
/// JSON parser made of the body.
///
/// A status outside 200 to 299 is an `Ingress` error with that status and
/// the body's message. With a status of success the result is the `id`
/// member of the body; a body that is no JSON object with a text `id` is an
/// `Unknown` error.
pub open spec fn session_outcome(
    status: u16,
    body: Result<Seq<char>, Seq<char>>,
    parsed: Result<Doc, Seq<char>>,
) -> Result<Seq<char>, ErrorView> {
    if !spec_is_success(status) {
        Err(ErrorView::Ingress("failed session request: "@ + failure_detail(body, parsed), status))
    } else {
        match parsed {
            Ok(doc) => match text_member(doc, "id"@) {
                Some(id) => Ok(id),
                None => Err(
                    ErrorView::Unknown("error parsing session response: missing field `id`"@),
                ),
            },
            Err(detail) => Err(ErrorView::Unknown("error parsing session response: "@ + detail)),
        }
    }
}

/// The result of reporting a batch, from the status, the body and what the
/// JSON parser made of the body.
///
/// A status outside 200 to 299 is an `Ingress` error with that status and
/// the body's message. With a status of success the body is ignored.
pub open spec fn testcases_outcome(
    status: u16,
    body: Result<Seq<char>, Seq<char>>,
    parsed: Result<Doc, Seq<char>>,
) -> Result<(), ErrorView> {
    if !spec_is_success(status) {
        Err(ErrorView::Ingress("failed testcase request: "@ + failure_detail(body, parsed), status))
    } else {
        Ok(())
    }
}

/// The result of creating a session, given the reply and what the JSON parser
/// made of its body.
pub fn session_reply_parsed(
    reply: &HttpReply,
    parsed: &Result<serde_json::Value, String>,
) -> (r: Result<String, ReporterError>)
    ensures
        text_result(r) == session_outcome(
            reply.status,
            body_view(reply.body),
            parsed_view(*parsed),
        ),
{
    if !is_success(reply.status) {
        let detail = failure_detail_of(&reply.body, parsed);
        Err(
            ReporterError::Ingress(
                join("failed session request: ", detail.as_str()),
                reply.status,
            ),
        )
    } else {
        match parsed {
            Ok(value) => match session_response_of(value) {
                Some(response) => Ok(response.id),
                None => Err(
                    ReporterError::Unknown(
                        String::from_str("error parsing session response: missing field `id`"),
                    ),
                ),
            },
            Err(detail) => Err(
                ReporterError::Unknown(join("error parsing session response: ", detail.as_str())),
            ),
        }
    }
}

/// The result of reporting a batch, given the reply and what the JSON parser
/// made of its body.
pub fn testcases_reply_parsed(
    reply: &HttpReply,
    parsed: &Result<serde_json::Value, String>,
) -> (r: Result<(), ReporterError>)
    ensures
        unit_result(r) == testcases_outcome(
            reply.status,
            body_view(reply.body),
            parsed_view(*parsed),
        ),
{
    if !is_success(reply.status) {
        let detail = failure_detail_of(&reply.body, parsed);
        Err(
            ReporterError::Ingress(
                join("failed testcase request: ", detail.as_str()),
                reply.status,
            ),
        )
    } else {
        Ok(())
    }
}

/// The result of `create_session`, from what came of the transfer: the
/// service's reply, or the text of the transport's error.
///
/// A transfer that failed is an `Unknown` error. A reply is read as
/// `session_outcome` says.
pub fn create_session_result(transfer: &Result<HttpReply, String>) -> (r: Result<
    String,
    ReporterError,
>)
    ensures
        match *transfer {
            Ok(reply) => text_result(r) == session_outcome(
                reply.status,
                body_view(reply.body),
                parsed_body(body_view(reply.body)),
            ),
            Err(detail) => text_result(r) == Err::<Seq<char>, ErrorView>(
                ErrorView::Unknown("error sending session request: "@ + detail@),
            ),
        },
{
    match transfer {
        Ok(reply) => {
            let parsed = parse_body(&reply.body);
            session_reply_parsed(reply, &parsed)
        },
        Err(detail) => Err(
            ReporterError::Unknown(join("error sending session request: ", detail.as_str())),
        ),
    }
}

/// The result of `create_testcases`, from what came of the transfer: the
/// service's reply, or the text of the transport's error.
///
/// A transfer that failed is an `Unknown` error. A reply is read as
/// `testcases_outcome` says.
pub fn create_testcases_result(transfer: &Result<HttpReply, String>) -> (r: Result<
    (),
    ReporterError,
>)
    ensures
        match *transfer {
            Ok(reply) => unit_result(r) == testcases_outcome(
                reply.status,
                body_view(reply.body),
                parsed_body(body_view(reply.body)),
            ),
            Err(detail) => unit_result(r) == Err::<(), ErrorView>(
                ErrorView::Unknown("error sending testcase request: "@ + detail@),
            ),
        },
{
    match transfer {
        Ok(reply) => {
            if is_success(reply.status) {
                Ok(())
            } else {
                let parsed = parse_body(&reply.body);
                testcases_reply_parsed(reply, &parsed)
            }
        },
        Err(detail) => Err(
            ReporterError::Unknown(join("error sending testcase request: ", detail.as_str())),
        ),
    }
}

} // verus!
