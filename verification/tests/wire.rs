use greener_reporter::wire::body_text;
use greener_reporter::wire::label_value;
use greener_reporter::wire::labels_value;
use greener_reporter::wire::session_body;
use greener_reporter::wire::session_value;
use greener_reporter::wire::testcase_value;
use greener_reporter::wire::testcases_body;
use greener_reporter::wire::testcases_value;
use greener_reporter::wire::Absent;
use greener_reporter::Label;
use greener_reporter::ReporterError;
use greener_reporter::SessionRequest;
use greener_reporter::TestcaseRequest;
use greener_reporter::TestcaseStatus;
use greener_reporter::TestcasesRequest;
use serde_json::Value;

fn parse(text: &str) -> Value {
    serde_json::from_str(text).expect("the text is JSON")
}

fn keys(value: &Value) -> Vec<String> {
    value
        .as_object()
        .expect("the value is an object")
        .keys()
        .cloned()
        .collect()
}

fn envelope(testcases: Vec<TestcaseRequest>) -> TestcasesRequest {
    TestcasesRequest { testcases }
}

fn bare_testcase() -> TestcaseRequest {
    TestcaseRequest {
        session_id: "16af52dc-3296-4249-be93-3aaef3a85878".to_string(),
        testcase_name: "test_some_logic".to_string(),
        testcase_classname: None,
        testcase_file: None,
        testsuite: None,
        status: TestcaseStatus::Skip,
        output: None,
        baggage: None,
    }
}

fn full_testcase() -> TestcaseRequest {
    TestcaseRequest {
        session_id: "16af52dc-3296-4249-be93-3aaef3a85111".to_string(),
        testcase_name: "test_some_logic".to_string(),
        testcase_classname: Some("my_class".to_string()),
        testcase_file: Some("my_file.py".to_string()),
        testsuite: Some("some test suite".to_string()),
        status: TestcaseStatus::Pass,
        output: Some("line 1\nline \"2\"".to_string()),
        baggage: Some(parse("{\"a\":[1,2.5,true,null],\"b\":{\"c\":\"d\"}}")),
    }
}

fn empty_session() -> SessionRequest {
    SessionRequest {
        id: None,
        description: None,
        baggage: None,
        labels: None,
    }
}

#[test]
fn absent_fields_of_a_testcase_are_left_out() {
    let body = testcases_body(&envelope(vec![bare_testcase()]), Absent::Omitted).unwrap();
    assert_eq!(
        parse(&body),
        parse(
            "{\"testcases\":[{\"sessionId\":\"16af52dc-3296-4249-be93-3aaef3a85878\",\
             \"testcaseName\":\"test_some_logic\",\"status\":\"skip\"}]}"
        )
    );
    let testcase = &parse(&body)["testcases"][0];
    assert_eq!(keys(testcase), vec!["sessionId", "status", "testcaseName"]);
    assert!(testcase.get("output").is_none());
    assert!(testcase.get("baggage").is_none());
    assert!(testcase.get("testcaseClassname").is_none());
    assert!(testcase.get("testcaseFile").is_none());
    assert!(testcase.get("testsuite").is_none());
    assert!(!body.contains("null"));
}

#[test]
fn absent_fields_of_a_testcase_are_written_as_null() {
    let body = testcases_body(&envelope(vec![bare_testcase()]), Absent::Null).unwrap();
    assert_eq!(
        parse(&body),
        parse(
            "{\"testcases\":[{\"sessionId\":\"16af52dc-3296-4249-be93-3aaef3a85878\",\
             \"testcaseName\":\"test_some_logic\",\"testcaseClassname\":null,\
             \"testcaseFile\":null,\"testsuite\":null,\"status\":\"skip\",\
             \"output\":null,\"baggage\":null}]}"
        )
    );
    let testcase = &parse(&body)["testcases"][0];
    assert_eq!(keys(testcase).len(), 8);
    for key in ["testcaseClassname", "testcaseFile", "testsuite", "output", "baggage"] {
        assert_eq!(testcase.get(key), Some(&Value::Null));
    }
}

#[test]
fn present_fields_of_a_testcase_are_written_in_both_shapes() {
    let expected = parse(
        "{\"sessionId\":\"16af52dc-3296-4249-be93-3aaef3a85111\",\
         \"testcaseName\":\"test_some_logic\",\"testcaseClassname\":\"my_class\",\
         \"testcaseFile\":\"my_file.py\",\"testsuite\":\"some test suite\",\
         \"status\":\"pass\",\"output\":\"line 1\\nline \\\"2\\\"\",\
         \"baggage\":{\"a\":[1,2.5,true,null],\"b\":{\"c\":\"d\"}}}",
    );
    assert_eq!(testcase_value(&full_testcase(), Absent::Null), expected);
    assert_eq!(testcase_value(&full_testcase(), Absent::Omitted), expected);
}

#[test]
fn status_is_written_in_lower_case() {
    for (status, name) in [
        (TestcaseStatus::Pass, "pass"),
        (TestcaseStatus::Fail, "fail"),
        (TestcaseStatus::Error, "error"),
        (TestcaseStatus::Skip, "skip"),
    ] {
        let mut testcase = bare_testcase();
        testcase.status = status;
        let value = testcase_value(&testcase, Absent::Omitted);
        assert_eq!(value["status"], Value::String(name.to_string()));
    }
}

#[test]
fn batch_is_an_envelope_with_the_list_in_order() {
    let mut first = bare_testcase();
    first.testcase_name = "first".to_string();
    let mut second = bare_testcase();
    second.testcase_name = "second".to_string();
    let value = testcases_value(&envelope(vec![first, second]), Absent::Null);
    assert_eq!(keys(&value), vec!["testcases"]);
    let list = value["testcases"].as_array().unwrap();
    assert_eq!(list.len(), 2);
    assert_eq!(list[0]["testcaseName"], "first");
    assert_eq!(list[1]["testcaseName"], "second");
    let none = testcases_value(&envelope(Vec::new()), Absent::Null);
    assert_eq!(none, parse("{\"testcases\":[]}"));
}

#[test]
fn empty_session_is_all_null_or_empty() {
    let explicit = session_body(&empty_session(), Absent::Null).unwrap();
    assert_eq!(
        parse(&explicit),
        parse("{\"id\":null,\"description\":null,\"baggage\":null,\"labels\":null}")
    );
    assert_eq!(parse(&explicit).get("id"), Some(&Value::Null));
    assert_eq!(parse(&explicit).get("labels"), Some(&Value::Null));
    let omitted = session_body(&empty_session(), Absent::Omitted).unwrap();
    assert_eq!(omitted, "{}");
}

#[test]
fn session_with_everything_is_written_in_full() {
    let session = SessionRequest {
        id: Some("c209c477-d186-49a7-ab83-2ba6dcb409b4".to_string()),
        description: Some("some description".to_string()),
        baggage: Some(parse("{\"a\":\"b\"}")),
        labels: Some(vec![
            Label {
                key: "ab".to_string(),
                value: Some("2".to_string()),
            },
            Label {
                key: "cd".to_string(),
                value: None,
            },
        ]),
    };
    assert_eq!(
        session_value(&session, Absent::Null),
        parse(
            "{\"id\":\"c209c477-d186-49a7-ab83-2ba6dcb409b4\",\
             \"description\":\"some description\",\"baggage\":{\"a\":\"b\"},\
             \"labels\":[{\"key\":\"ab\",\"value\":\"2\"},{\"key\":\"cd\",\"value\":null}]}"
        )
    );
    assert_eq!(
        session_value(&session, Absent::Omitted),
        parse(
            "{\"id\":\"c209c477-d186-49a7-ab83-2ba6dcb409b4\",\
             \"description\":\"some description\",\"baggage\":{\"a\":\"b\"},\
             \"labels\":[{\"key\":\"ab\",\"value\":\"2\"},{\"key\":\"cd\"}]}"
        )
    );
}

#[test]
fn label_without_value_in_both_shapes() {
    let label = Label {
        key: "cd".to_string(),
        value: None,
    };
    assert_eq!(
        label_value(&label, Absent::Null),
        parse("{\"key\":\"cd\",\"value\":null}")
    );
    assert_eq!(label_value(&label, Absent::Omitted), parse("{\"key\":\"cd\"}"));
    assert_eq!(labels_value(&Vec::new(), Absent::Null), parse("[]"));
    assert_eq!(
        labels_value(&vec![label], Absent::Omitted),
        parse("[{\"key\":\"cd\"}]")
    );
}

#[test]
fn body_is_compact_json_with_sorted_keys() {
    let body = testcases_body(&envelope(vec![bare_testcase()]), Absent::Omitted).unwrap();
    assert_eq!(
        body,
        "{\"testcases\":[{\"sessionId\":\"16af52dc-3296-4249-be93-3aaef3a85878\",\
         \"status\":\"skip\",\"testcaseName\":\"test_some_logic\"}]}"
    );
}

#[test]
fn serializer_failure_is_an_unknown_error() {
    assert_eq!(body_text(Ok("{}".to_string())).unwrap(), "{}");
    match body_text(Err("key must be a string".to_string())) {
        Err(ReporterError::Unknown(message)) => {
            assert_eq!(message, "error encoding request: key must be a string")
        }
        other => panic!("unexpected result: {:?}", other),
    }
}
