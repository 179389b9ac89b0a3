//! The JSON bodies of the two requests to the ingestion service.
//!
//! Field names on the wire are in lower camel case. An optional field that
//! is absent is written in one of two ways: the reporter writes it as an
//! explicit `null`, the command line leaves it out.

use vstd::prelude::*;
use vstd::string::StringExecFns;
use crate::errors::{text_result, ErrorView, ReporterError};
use crate::json::{json_clone, json_empty_object, json_insert, json_list, json_null, json_render};
use crate::json::{json_model, json_models, json_rendered, json_text, Doc};
use crate::models::{Label, SessionRequest, TestcaseRequest, TestcasesRequest};
use crate::text::join;

verus! {

/// How an optional field that is absent is written.
#[derive(Debug, Clone, Copy, PartialEq, Eq, Structural)]
pub enum Absent {
    /// As a member with the value `null`.
    Null,
    /// Not at all.
    Omitted,
}

/// The members of an object after an optional member was written.
pub open spec fn with_optional(
    members: Map<Seq<char>, Doc>,
    key: Seq<char>,
    value: Option<Doc>,
    absent: Absent,
) -> Map<Seq<char>, Doc> {
    match value {
        Some(doc) => members.insert(key, doc),
        None => match absent {
            Absent::Null => members.insert(key, Doc::Null),
            Absent::Omitted => members,
        },
    }
}

/// An optional text as an optional document.
pub open spec fn text_doc(value: Option<String>) -> Option<Doc> {
    match value {
        Some(text) => Some(Doc::Text(text@)),
        None => None,
    }
}

/// An optional JSON value as an optional document.
pub open spec fn value_doc(value: Option<serde_json::Value>) -> Option<Doc> {
    match value {
        Some(v) => Some(json_model(v)),
        None => None,
    }
}

/// A label on the wire: an object with its `key` and its `value`.
pub open spec fn label_doc(label: Label, absent: Absent) -> Doc {
    Doc::Object(
        with_optional(
            Map::<Seq<char>, Doc>::empty().insert("key"@, Doc::Text(label.key@)),
            "value"@,
            text_doc(label.value),
            absent,
        ),
    )
}

/// A list of labels on the wire: the list of its labels, in their order.
pub open spec fn labels_doc(labels: Seq<Label>, absent: Absent) -> Doc {
    Doc::List(Seq::new(labels.len(), |i: int| label_doc(labels[i], absent)))
}

/// Optional labels as an optional document.
pub open spec fn optional_labels_doc(labels: Option<Vec<Label>>, absent: Absent) -> Option<Doc> {
    match labels {
        Some(list) => Some(labels_doc(list@, absent)),
        None => None,
    }
}

/// A session request on the wire: an object with `id`, `description`,
/// `baggage` and `labels`.
pub open spec fn session_doc(session: SessionRequest, absent: Absent) -> Doc {
    let m0 = Map::<Seq<char>, Doc>::empty();
    let m1 = with_optional(m0, "id"@, text_doc(session.id), absent);
    let m2 = with_optional(m1, "description"@, text_doc(session.description), absent);
    let m3 = with_optional(m2, "baggage"@, value_doc(session.baggage), absent);
    let m4 = with_optional(m3, "labels"@, optional_labels_doc(session.labels, absent), absent);
    Doc::Object(m4)
}

/// A test result on the wire: an object with `sessionId`, `testcaseName`,
/// `testcaseClassname`, `testcaseFile`, `testsuite`, `status`, `output` and
/// `baggage`.
pub open spec fn testcase_doc(testcase: TestcaseRequest, absent: Absent) -> Doc {
    let m0 = Map::<Seq<char>, Doc>::empty();
    let m1 = m0.insert("sessionId"@, Doc::Text(testcase.session_id@));
    let m2 = m1.insert("testcaseName"@, Doc::Text(testcase.testcase_name@));
    let m3 = with_optional(m2, "testcaseClassname"@, text_doc(testcase.testcase_classname), absent);
    let m4 = with_optional(m3, "testcaseFile"@, text_doc(testcase.testcase_file), absent);
    let m5 = with_optional(m4, "testsuite"@, text_doc(testcase.testsuite), absent);
    let m6 = m5.insert("status"@, Doc::Text(testcase.status.wire_name()));
    let m7 = with_optional(m6, "output"@, text_doc(testcase.output), absent);
    let m8 = with_optional(m7, "baggage"@, value_doc(testcase.baggage), absent);
    Doc::Object(m8)
}

/// A batch on the wire: an envelope whose only member, `testcases`, is the
/// list of the batch's test results, in their order.
pub open spec fn testcases_doc(batch: Seq<TestcaseRequest>, absent: Absent) -> Doc {
    Doc::Object(
        Map::<Seq<char>, Doc>::empty().insert(
            "testcases"@,
            Doc::List(Seq::new(batch.len(), |i: int| testcase_doc(batch[i], absent))),
        ),
    )
}

/// The names of the optional fields of a test result on the wire.
pub open spec fn optional_testcase_keys() -> Set<Seq<char>> {
    set!["testcaseClassname"@, "testcaseFile"@, "testsuite"@, "output"@, "baggage"@]
}

/// The names of the fields of a session request on the wire, all optional.
pub open spec fn optional_session_keys() -> Set<Seq<char>> {
    set!["id"@, "description"@, "baggage"@, "labels"@]
}

/// The eight field names of a test result differ from each other.
proof fn lemma_testcase_keys_differ()
    ensures
        "sessionId"@ != "testcaseName"@,
        "sessionId"@ != "status"@,
        "testcaseName"@ != "status"@,
        forall|key: Seq<char>| #[trigger]
            optional_testcase_keys().contains(key) ==> key != "sessionId"@ && key
                != "testcaseName"@ && key != "status"@,
        "testcaseClassname"@ != "testcaseFile"@,
        "testcaseClassname"@ != "testsuite"@,
        "testcaseClassname"@ != "output"@,
        "testcaseClassname"@ != "baggage"@,
        "testcaseFile"@ != "testsuite"@,
        "testcaseFile"@ != "output"@,
        "testcaseFile"@ != "baggage"@,
        "testsuite"@ != "output"@,
        "testsuite"@ != "baggage"@,
        "output"@ != "baggage"@,
{
    reveal_strlit("sessionId");
    reveal_strlit("testcaseName");
    reveal_strlit("testcaseClassname");
    reveal_strlit("testcaseFile");
    reveal_strlit("testsuite");
    reveal_strlit("status");
    reveal_strlit("output");
    reveal_strlit("baggage");
    assert("sessionId"@.len() == 9);
    assert("testcaseName"@.len() == 12);
    assert("testcaseClassname"@.len() == 17);
    assert("testcaseFile"@.len() == 12);
    assert("testsuite"@.len() == 9);
    assert("status"@.len() == 6);
    assert("output"@.len() == 6);
    assert("baggage"@.len() == 7);
    assert("sessionId"@[0] != "testsuite"@[0]);
    assert("testcaseName"@[8] != "testcaseFile"@[8]);
    assert("status"@[0] != "output"@[0]);
}

/// The four field names of a session request differ from each other.
proof fn lemma_session_keys_differ()
    ensures
        "id"@ != "description"@,
        "id"@ != "baggage"@,
        "id"@ != "labels"@,
        "description"@ != "baggage"@,
        "description"@ != "labels"@,
        "baggage"@ != "labels"@,
{
    reveal_strlit("id");
    reveal_strlit("description");
    reveal_strlit("baggage");
    reveal_strlit("labels");
    assert("id"@.len() == 2);
    assert("description"@.len() == 11);
    assert("baggage"@.len() == 7);
    assert("labels"@.len() == 6);
}

/// A test result without any of its optional fields has two shapes on the
/// wire. Left out, none of the optional fields is a member of the object:
/// its members are `sessionId`, `testcaseName` and `status` alone. Written
/// as `null`, each optional field is a member with the value `null`.
pub proof fn lemma_absent_testcase_fields(testcase: TestcaseRequest)
    requires
        testcase.testcase_classname is None,
        testcase.testcase_file is None,
        testcase.testsuite is None,
        testcase.output is None,
        testcase.baggage is None,
    ensures
        testcase_doc(testcase, Absent::Omitted) == Doc::Object(
            map![
                "sessionId"@ => Doc::Text(testcase.session_id@),
                "testcaseName"@ => Doc::Text(testcase.testcase_name@),
                "status"@ => Doc::Text(testcase.status.wire_name()),
            ],
        ),
        forall|key: Seq<char>| #[trigger]
            optional_testcase_keys().contains(key) ==> {
                &&& !testcase_doc(testcase, Absent::Omitted)->Object_0.contains_key(key)
                &&& testcase_doc(testcase, Absent::Null)->Object_0.contains_key(key)
                &&& testcase_doc(testcase, Absent::Null)->Object_0[key] == Doc::Null
            },
        testcase_doc(testcase, Absent::Null)->Object_0.dom() == optional_testcase_keys().union(
            set!["sessionId"@, "testcaseName"@, "status"@],
        ),
{
    lemma_testcase_keys_differ();
    assert(testcase_doc(testcase, Absent::Null)->Object_0.dom() =~= optional_testcase_keys().union(
        set!["sessionId"@, "testcaseName"@, "status"@],
    ));
}

/// A session request without any of its fields has two shapes on the wire.
/// Left out, the object has no members. Written as `null`, each of the four
/// fields is a member with the value `null`, and there are no others.
pub proof fn lemma_absent_session_fields(session: SessionRequest)
    requires
        session.id is None,
        session.description is None,
        session.baggage is None,
        session.labels is None,
    ensures
        session_doc(session, Absent::Omitted) == Doc::Object(Map::<Seq<char>, Doc>::empty()),
        forall|key: Seq<char>| #[trigger]
            optional_session_keys().contains(key) ==> {
                &&& session_doc(session, Absent::Null)->Object_0.contains_key(key)
                &&& session_doc(session, Absent::Null)->Object_0[key] == Doc::Null
            },
        session_doc(session, Absent::Null)->Object_0.dom() == optional_session_keys(),
{
    lemma_session_keys_differ();
    assert(session_doc(session, Absent::Null)->Object_0.dom() =~= optional_session_keys());
}

/// A field that is present is written in the same way in both shapes: the
/// two documents of a test result with all its optional fields are the same.
pub proof fn lemma_present_testcase_fields(testcase: TestcaseRequest)
    requires
        testcase.testcase_classname is Some,
        testcase.testcase_file is Some,
        testcase.testsuite is Some,
        testcase.output is Some,
        testcase.baggage is Some,
    ensures
        testcase_doc(testcase, Absent::Omitted) == testcase_doc(testcase, Absent::Null),
{
}

/// Writes an optional member into an object.
fn insert_optional(
    object: &mut serde_json::Value,
    key: &str,
    value: Option<serde_json::Value>,
    absent: Absent,
)
    requires
        json_model(*old(object)) is Object,
    ensures
        json_model(*final(object)) == Doc::Object(
            with_optional(json_model(*old(object))->Object_0, key@, value_doc(value), absent),
        ),
{
    match value {
        Some(v) => {
            json_insert(object, String::from_str(key), v);
        },
        None => match absent {
            Absent::Null => {
                json_insert(object, String::from_str(key), json_null());
            },
            Absent::Omitted => {},
        },
    }
}

/// An optional text as an optional JSON value.
fn optional_text(value: &Option<String>) -> (v: Option<serde_json::Value>)
    ensures
        value_doc(v) == text_doc(*value),
{
    match value {
        Some(text) => Some(json_text(text.clone())),
        None => None,
    }
}

/// An optional JSON value, copied.
fn optional_value(value: &Option<serde_json::Value>) -> (v: Option<serde_json::Value>)
    ensures
        value_doc(v) == value_doc(*value),
{
    match value {
        Some(inner) => Some(json_clone(inner)),
        None => None,
    }
}

/// The JSON value of a label.
pub fn label_value(label: &Label, absent: Absent) -> (v: serde_json::Value)
    ensures
        json_model(v) == label_doc(*label, absent),
{
    let mut object = json_empty_object();
    json_insert(&mut object, String::from_str("key"), json_text(label.key.clone()));
    insert_optional(&mut object, "value", optional_text(&label.value), absent);
    object
}

/// The JSON value of a list of labels.
pub fn labels_value(labels: &Vec<Label>, absent: Absent) -> (v: serde_json::Value)
    ensures
        json_model(v) == labels_doc(labels@, absent),
{
    let mut items: Vec<serde_json::Value> = Vec::new();
    let mut i: usize = 0;
    while i < labels.len()
        invariant
            i <= labels.len(),
            items@.len() == i,
            forall|j: int|
                0 <= j < i ==> json_model(#[trigger] items@[j]) == label_doc(labels@[j], absent),
        decreases labels.len() - i,
    {
        items.push(label_value(&labels[i], absent));
        i += 1;
    }
    assert(json_models(items@) =~= Seq::new(labels@.len(), |i: int| label_doc(labels@[i], absent)));
    json_list(items)
}

/// The JSON value of a session request.
pub fn session_value(session: &SessionRequest, absent: Absent) -> (v: serde_json::Value)
    ensures
        json_model(v) == session_doc(*session, absent),
{
    let mut object = json_empty_object();
    insert_optional(&mut object, "id", optional_text(&session.id), absent);
    insert_optional(&mut object, "description", optional_text(&session.description), absent);
    insert_optional(&mut object, "baggage", optional_value(&session.baggage), absent);
    let labels = match &session.labels {
        Some(list) => Some(labels_value(list, absent)),
        None => None,
    };
    insert_optional(&mut object, "labels", labels, absent);
    object
}

/// The JSON value of a test result.
pub fn testcase_value(testcase: &TestcaseRequest, absent: Absent) -> (v: serde_json::Value)
    ensures
        json_model(v) == testcase_doc(*testcase, absent),
{
    let mut object = json_empty_object();
    json_insert(&mut object, String::from_str("sessionId"), json_text(testcase.session_id.clone()));
    json_insert(
        &mut object,
        String::from_str("testcaseName"),
        json_text(testcase.testcase_name.clone()),
    );
    insert_optional(
        &mut object,
        "testcaseClassname",
        optional_text(&testcase.testcase_classname),
        absent,
    );
    insert_optional(&mut object, "testcaseFile", optional_text(&testcase.testcase_file), absent);
    insert_optional(&mut object, "testsuite", optional_text(&testcase.testsuite), absent);
    json_insert(&mut object, String::from_str("status"), json_text(testcase.status.to_text()));
    insert_optional(&mut object, "output", optional_text(&testcase.output), absent);
    insert_optional(&mut object, "baggage", optional_value(&testcase.baggage), absent);
    object
}

/// The JSON value of a batch in its envelope.
pub fn testcases_value(request: &TestcasesRequest, absent: Absent) -> (v: serde_json::Value)
    ensures
        json_model(v) == testcases_doc(request.testcases@, absent),
{
    let batch = &request.testcases;
    let mut items: Vec<serde_json::Value> = Vec::new();
    let mut i: usize = 0;
    while i < batch.len()
        invariant
            i <= batch.len(),
            items@.len() == i,
            forall|j: int|
                0 <= j < i ==> json_model(#[trigger] items@[j]) == testcase_doc(batch@[j], absent),
        decreases batch.len() - i,
    {
        items.push(testcase_value(&batch[i], absent));
        i += 1;
    }
    assert(json_models(items@) =~= Seq::new(
        batch@.len(),
        |i: int| testcase_doc(batch@[i], absent),
    ));
    let mut object = json_empty_object();
    json_insert(&mut object, String::from_str("testcases"), json_list(items));
    object
}

/// The text of a request body, from what the serializer made of its
/// document: the text, or an `Unknown` error with the serializer's complaint.
pub open spec fn body_outcome(rendered: Result<Seq<char>, Seq<char>>) -> Result<
    Seq<char>,
    ErrorView,
> {
    match rendered {
        Ok(text) => Ok(text),
        Err(detail) => Err(ErrorView::Unknown("error encoding request: "@ + detail)),
    }
}

/// The text of a request body, given what the serializer made of its value.
pub fn body_text(rendered: Result<String, String>) -> (r: Result<String, ReporterError>)
    ensures
        text_result(r) == body_outcome(
            match rendered {
                Ok(text) => Ok(text@),
                Err(detail) => Err(detail@),
            },
        ),
{
    match rendered {
        Ok(text) => Ok(text),
        Err(detail) => Err(
            ReporterError::Unknown(join("error encoding request: ", detail.as_str())),
        ),
    }
}

/// The body of the request that creates a session.
pub fn session_body(session: &SessionRequest, absent: Absent) -> (r: Result<String, ReporterError>)
    ensures
        text_result(r) == body_outcome(json_rendered(session_doc(*session, absent))),
{
    let value = session_value(session, absent);
    body_text(json_render(&value))
}

/// The body of the request that reports a batch.
pub fn testcases_body(request: &TestcasesRequest, absent: Absent) -> (r: Result<
    String,
    ReporterError,
>)
    ensures
        text_result(r) == body_outcome(json_rendered(testcases_doc(request.testcases@, absent))),
{
    let value = testcases_value(request, absent);
    body_text(json_render(&value))
}

} // verus!
