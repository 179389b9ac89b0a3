//! Requests made from the texts that callers hand in: the arguments of the
//! command line, and the plain texts of the foreign-language interface.
//!
//! All faults of such input are invalid arguments, found before any request
//! is sent.

use vstd::prelude::*;
use crate::errors::{ErrorView, ReporterError};
use crate::ident::{parse_session_id, session_id_outcome, uuid_parsed};
use crate::json::{json_is_object, json_model, json_parse, json_parsed, Doc};
use crate::labels::{labels_parsed, parse_label_list, parse_labels, texts_of, tokens};
use crate::models::{Label, SessionRequest, TestcaseRequest, TestcaseStatus};
use crate::text::join;
use crate::wire::value_doc;

verus! {

/// Which JSON documents are taken as baggage, and in which words a fault is
/// reported.
#[derive(Debug, Clone, Copy, PartialEq, Eq, Structural)]
pub enum BaggageRule {
    /// Any JSON document.
    AnyDocument,
    /// A JSON object only.
    ObjectOnly,
}

impl BaggageRule {
    /// The words that open the message of a baggage fault.
    pub open spec fn fault_prefix(self) -> Seq<char> {
        match self {
            BaggageRule::AnyDocument => "cannot parse baggage: "@,
            BaggageRule::ObjectOnly => "Invalid baggage JSON: "@,
        }
    }

    /// The words that open the message of a baggage fault.
    pub fn prefix(&self) -> (words: &'static str)
        ensures
            words@ == self.fault_prefix(),
    {
        match self {
            BaggageRule::AnyDocument => "cannot parse baggage: ",
            BaggageRule::ObjectOnly => "Invalid baggage JSON: ",
        }
    }
}

/// The baggage that a text gives, from what the JSON parser made of it: the
/// document, or an invalid argument with the parser's complaint. Under
/// `ObjectOnly` a document that is no object is an invalid argument too.
pub open spec fn baggage_outcome(rule: BaggageRule, parsed: Result<Doc, Seq<char>>) -> Result<
    Doc,
    ErrorView,
> {
    match parsed {
        Ok(doc) => {
            if rule == BaggageRule::ObjectOnly && !(doc is Object) {
                Err(ErrorView::InvalidArgument("Invalid baggage JSON: expected a JSON object"@))
            } else {
                Ok(doc)
            }
        },
        Err(detail) => Err(ErrorView::InvalidArgument(rule.fault_prefix() + detail)),
    }
}

/// Whether `r` is the given outcome, document for document.
pub open spec fn is_baggage(r: Result<serde_json::Value, ReporterError>, outcome: Result<
    Doc,
    ErrorView,
>) -> bool {
    match r {
        Ok(value) => outcome == Ok::<Doc, ErrorView>(json_model(value)),
        Err(e) => outcome == Err::<Doc, ErrorView>(e@),
    }
}

/// Whether `r` is the given outcome for a baggage that may be absent.
pub open spec fn is_optional_baggage(
    r: Result<Option<serde_json::Value>, ReporterError>,
    outcome: Option<Result<Doc, ErrorView>>,
) -> bool {
    match r {
        Ok(None) => outcome is None,
        Ok(Some(value)) => outcome == Some(Ok::<Doc, ErrorView>(json_model(value))),
        Err(e) => outcome == Some(Err::<Doc, ErrorView>(e@)),
    }
}

/// The outcome of reading a baggage text that may be absent.
pub open spec fn optional_baggage_outcome(rule: BaggageRule, text: Option<String>) -> Option<
    Result<Doc, ErrorView>,
> {
    match text {
        Some(s) => Some(baggage_outcome(rule, json_parsed(s@))),
        None => None,
    }
}

/// The baggage, given what the JSON parser made of its text.
pub fn baggage_from(rule: BaggageRule, parsed: Result<serde_json::Value, String>) -> (r: Result<
    serde_json::Value,
    ReporterError,
>)
    ensures
        is_baggage(
            r,
            baggage_outcome(
                rule,
                match parsed {
                    Ok(value) => Ok(json_model(value)),
                    Err(detail) => Err(detail@),
                },
            ),
        ),
{
    match parsed {
        Ok(value) => {
            let refused = match rule {
                BaggageRule::ObjectOnly => !json_is_object(&value),
                BaggageRule::AnyDocument => false,
            };
            if refused {
                Err(
                    ReporterError::InvalidArgument(
                        "Invalid baggage JSON: expected a JSON object".to_owned(),
                    ),
                )
            } else {
                Ok(value)
            }
        },
        Err(detail) => Err(ReporterError::InvalidArgument(join(rule.prefix(), detail.as_str()))),
    }
}

/// Reads a baggage that may be absent from its JSON text.
pub fn read_baggage(rule: BaggageRule, text: &Option<String>) -> (r: Result<
    Option<serde_json::Value>,
    ReporterError,
>)
    ensures
        is_optional_baggage(r, optional_baggage_outcome(rule, *text)),
{
    match text {
        Some(s) => match baggage_from(rule, json_parse(s.as_str())) {
            Ok(value) => Ok(Some(value)),
            Err(e) => Err(e),
        },
        None => Ok(None),
    }
}

/// Reads the baggage argument of the command line: the text of a JSON object.
pub fn parse_baggage(baggage_str: Option<String>) -> (r: Result<
    Option<serde_json::Value>,
    ReporterError,
>)
    ensures
        is_optional_baggage(r, optional_baggage_outcome(BaggageRule::ObjectOnly, baggage_str)),
{
    read_baggage(BaggageRule::ObjectOnly, &baggage_str)
}

/// The arguments of the command that creates a session.
#[derive(Debug, Clone)]
pub struct SessionArgs {
    pub id: Option<String>,
    pub baggage: Option<String>,
    pub label: Vec<String>,
}

/// The arguments of the command that reports a test case.
#[derive(Debug, Clone)]
pub struct TestcaseArgs {
    pub session_id: String,
    pub name: String,
    pub output: Option<String>,
    pub classname: Option<String>,
    pub file: Option<String>,
    pub testsuite: Option<String>,
    pub status: String,
    pub baggage: Option<String>,
}

/// The labels of a result, or its error.
pub open spec fn labels_in(r: Result<SessionRequest, ReporterError>) -> Result<
    Option<Vec<Label>>,
    ReporterError,
> {
    match r {
        Ok(session) => Ok(session.labels),
        Err(e) => Err(e),
    }
}

/// Whether a baggage is what the outcome of reading its text says.
pub open spec fn baggage_is(baggage: Option<serde_json::Value>, outcome: Option<
    Result<Doc, ErrorView>,
>) -> bool {
    match outcome {
        Some(Ok(doc)) => value_doc(baggage) == Some(doc),
        _ => baggage is None,
    }
}

/// Whether `r` is the session request of the command line's arguments.
///
/// The baggage is read first, then the labels; the first fault is the
/// error. The request has the identifier as given and no description.
pub open spec fn session_from_args_spec(
    args: SessionArgs,
    r: Result<SessionRequest, ReporterError>,
) -> bool {
    match optional_baggage_outcome(BaggageRule::ObjectOnly, args.baggage) {
        Some(Err(fault)) => r matches Err(e) && e@ == fault,
        baggage => {
            &&& labels_parsed(texts_of(args.label@), labels_in(r))
            &&& r matches Ok(session) ==> {
                &&& session.id == args.id
                &&& session.description is None
                &&& baggage_is(session.baggage, baggage)
            }
        },
    }
}

/// The session request of the command line's arguments.
pub fn session_from_args(args: SessionArgs) -> (r: Result<SessionRequest, ReporterError>)
    ensures
        session_from_args_spec(args, r),
{
    let baggage = match parse_baggage(args.baggage) {
        Ok(baggage) => baggage,
        Err(e) => {
            return Err(e);
        },
    };
    match parse_labels(args.label) {
        Ok(labels) => Ok(SessionRequest { id: args.id, description: None, baggage, labels }),
        Err(e) => Err(e),
    }
}

/// Whether `r` is the test result of the command line's arguments.
///
/// The session identifier has to be a UUID and is sent in its canonical
/// form. It is read first, then the status, then the baggage; the first fault
/// is the error.
pub open spec fn testcase_from_args_spec(
    args: TestcaseArgs,
    r: Result<TestcaseRequest, ReporterError>,
) -> bool {
    match session_id_outcome(uuid_parsed(args.session_id@)) {
        Err(fault) => r matches Err(e) && e@ == fault,
        Ok(id) => match TestcaseStatus::named(args.status@) {
            None => r matches Err(e) && e@ == ErrorView::InvalidArgument(
                TestcaseStatus::invalid_text(args.status@),
            ),
            Some(status) => match optional_baggage_outcome(BaggageRule::ObjectOnly, args.baggage) {
                Some(Err(fault)) => r matches Err(e) && e@ == fault,
                baggage => {
                    &&& r matches Ok(testcase)
                    &&& r->Ok_0.session_id@ == id
                    &&& r->Ok_0.testcase_name == args.name
                    &&& r->Ok_0.testcase_classname == args.classname
                    &&& r->Ok_0.testcase_file == args.file
                    &&& r->Ok_0.testsuite == args.testsuite
                    &&& r->Ok_0.status == status
                    &&& r->Ok_0.output == args.output
                    &&& baggage_is(r->Ok_0.baggage, baggage)
                },
            },
        },
    }
}

/// The test result of the command line's arguments.
pub fn testcase_from_args(args: TestcaseArgs) -> (r: Result<TestcaseRequest, ReporterError>)
    ensures
        testcase_from_args_spec(args, r),
{
    let session_id = match parse_session_id(args.session_id.as_str()) {
        Ok(id) => id,
        Err(e) => {
            return Err(e);
        },
    };
    let status = match TestcaseStatus::from_str(args.status.as_str()) {
        Ok(status) => status,
        Err(e) => {
            return Err(e);
        },
    };
    let baggage = match parse_baggage(args.baggage) {
        Ok(baggage) => baggage,
        Err(e) => {
            return Err(e);
        },
    };
    Ok(
        TestcaseRequest {
            session_id,
            testcase_name: args.name,
            testcase_classname: args.classname,
            testcase_file: args.file,
            testsuite: args.testsuite,
            status,
            output: args.output,
            baggage,
        },
    )
}

/// The texts of a session as the foreign-language interface hands them in:
/// each may be absent. The baggage is the text of a JSON document, the labels
/// are one text with commas between them.
#[derive(Debug, Clone)]
pub struct SessionTexts {
    pub id: Option<String>,
    pub description: Option<String>,
    pub baggage: Option<String>,
    pub labels: Option<String>,
}

/// The texts of a test result as the foreign-language interface hands them
/// in. The baggage is the text of a JSON document.
#[derive(Debug, Clone)]
pub struct TestcaseTexts {
    pub session_id: String,
    pub testcase_name: String,
    pub testcase_classname: Option<String>,
    pub testcase_file: Option<String>,
    pub testsuite: Option<String>,
    pub status: String,
    pub output: Option<String>,
    pub baggage: Option<String>,
}

/// The label texts of a list that may be absent: none for an absent list.
pub open spec fn listed(labels: Option<String>) -> Seq<Seq<char>> {
    match labels {
        Some(list) => tokens(list@, ','),
        None => Seq::empty(),
    }
}

/// Whether `r` is the session request of the given texts.
///
/// The baggage is read first, then the labels; the first fault is the
/// error. A list without labels is as good as none.
pub open spec fn session_from_texts_spec(
    texts: SessionTexts,
    r: Result<SessionRequest, ReporterError>,
) -> bool {
    match optional_baggage_outcome(BaggageRule::AnyDocument, texts.baggage) {
        Some(Err(fault)) => r matches Err(e) && e@ == fault,
        baggage => {
            &&& labels_parsed(listed(texts.labels), labels_in(r))
            &&& r matches Ok(session) ==> {
                &&& session.id == texts.id
                &&& session.description == texts.description
                &&& baggage_is(session.baggage, baggage)
            }
        },
    }
}

/// The session request of the given texts.
pub fn session_from_texts(texts: SessionTexts) -> (r: Result<SessionRequest, ReporterError>)
    ensures
        session_from_texts_spec(texts, r),
{
    let baggage = match read_baggage(BaggageRule::AnyDocument, &texts.baggage) {
        Ok(baggage) => baggage,
        Err(e) => {
            return Err(e);
        },
    };
    let labels = match &texts.labels {
        Some(list) => match parse_label_list(list.as_str()) {
            Ok(labels) => labels,
            Err(e) => {
                return Err(e);
            },
        },
        None => None,
    };
    Ok(SessionRequest { id: texts.id, description: texts.description, baggage, labels })
}

/// The message of the error for a status text that names no status.
pub open spec fn invalid_status_text(text: Seq<char>) -> Seq<char> {
    "invalid testcase status: "@ + text
}

/// Whether `r` is the test result of the given texts.
///
/// The baggage is read first, then the status; the first fault is the
/// error.
pub open spec fn testcase_from_texts_spec(
    texts: TestcaseTexts,
    r: Result<TestcaseRequest, ReporterError>,
) -> bool {
    match optional_baggage_outcome(BaggageRule::AnyDocument, texts.baggage) {
        Some(Err(fault)) => r matches Err(e) && e@ == fault,
        baggage => match TestcaseStatus::named(texts.status@) {
            None => r matches Err(e) && e@ == ErrorView::InvalidArgument(
                invalid_status_text(texts.status@),
            ),
            Some(status) => {
                &&& r matches Ok(testcase)
                &&& r->Ok_0.session_id == texts.session_id
                &&& r->Ok_0.testcase_name == texts.testcase_name
                &&& r->Ok_0.testcase_classname == texts.testcase_classname
                &&& r->Ok_0.testcase_file == texts.testcase_file
                &&& r->Ok_0.testsuite == texts.testsuite
                &&& r->Ok_0.status == status
                &&& r->Ok_0.output == texts.output
                &&& baggage_is(r->Ok_0.baggage, baggage)
            },
        },
    }
}

/// The test result of the given texts.
pub fn testcase_from_texts(texts: TestcaseTexts) -> (r: Result<TestcaseRequest, ReporterError>)
    ensures
        testcase_from_texts_spec(texts, r),
{
    let baggage = match read_baggage(BaggageRule::AnyDocument, &texts.baggage) {
        Ok(baggage) => baggage,
        Err(e) => {
            return Err(e);
        },
    };
    let status = match TestcaseStatus::from_str(texts.status.as_str()) {
        Ok(status) => status,
        Err(_) => {
            return Err(
                ReporterError::InvalidArgument(
                    join("invalid testcase status: ", texts.status.as_str()),
                ),
            );
        },
    };
    Ok(
        TestcaseRequest {
            session_id: texts.session_id,
            testcase_name: texts.testcase_name,
            testcase_classname: texts.testcase_classname,
            testcase_file: texts.testcase_file,
            testsuite: texts.testsuite,
            status,
            output: texts.output,
            baggage,
        },
    )
}

} // verus!
