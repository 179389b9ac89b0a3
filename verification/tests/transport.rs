use greener_reporter::batcher::BatcherMessage;
use greener_reporter::batcher::Intake;
use greener_reporter::batcher::Worker;
use greener_reporter::batcher::WorkerAction;
use greener_reporter::batcher::WorkerEvent;
use greener_reporter::ingress::api_key_header;
use greener_reporter::ingress::create_session_result;
use greener_reporter::ingress::create_testcases_result;
use greener_reporter::ingress::error_response_of;
use greener_reporter::ingress::failure_detail_of;
use greener_reporter::ingress::is_success;
use greener_reporter::ingress::parse_body;
use greener_reporter::ingress::session_reply_parsed;
use greener_reporter::ingress::session_request;
use greener_reporter::ingress::session_response_of;
use greener_reporter::ingress::session_url;
use greener_reporter::ingress::testcases_reply_parsed;
use greener_reporter::ingress::testcases_request;
use greener_reporter::ingress::testcases_url;
use greener_reporter::ingress::text_member_of;
use greener_reporter::ingress::HttpReply;
use greener_reporter::sink::ErrorSink;
use greener_reporter::ReporterError;
use greener_reporter::SessionRequest;
use greener_reporter::TestcaseRequest;
use greener_reporter::TestcaseStatus;
use serde_json::Value;

fn parse(text: &str) -> Value {
    serde_json::from_str(text).expect("the text is JSON")
}

fn reply(status: u16, body: &str) -> Result<HttpReply, String> {
    Ok(HttpReply {
        status,
        body: Ok(body.to_string()),
    })
}

fn empty_session() -> SessionRequest {
    SessionRequest {
        id: None,
        description: None,
        baggage: None,
        labels: None,
    }
}

fn record(name: &str) -> TestcaseRequest {
    TestcaseRequest {
        session_id: "16af52dc-3296-4249-be93-3aaef3a85111".to_string(),
        testcase_name: name.to_string(),
        testcase_classname: None,
        testcase_file: None,
        testsuite: None,
        status: TestcaseStatus::Fail,
        output: None,
        baggage: None,
    }
}

#[test]
fn addresses_lie_below_the_endpoint() {
    assert_eq!(
        session_url("http://127.0.0.1:8080"),
        "http://127.0.0.1:8080/api/v1/ingress/sessions"
    );
    assert_eq!(
        testcases_url("http://127.0.0.1:8080"),
        "http://127.0.0.1:8080/api/v1/ingress/testcases"
    );
    assert_eq!(api_key_header(), "X-API-Key");
}

#[test]
fn success_is_two_hundred_to_two_ninety_nine() {
    assert!(!is_success(199));
    assert!(is_success(200));
    assert!(is_success(204));
    assert!(is_success(299));
    assert!(!is_success(300));
    assert!(!is_success(400));
    assert!(!is_success(0));
}

#[test]
fn session_request_carries_url_key_and_body() {
    let request = session_request("http://host", "some-api-token", &empty_session()).unwrap();
    assert_eq!(request.url, "http://host/api/v1/ingress/sessions");
    assert_eq!(request.api_key, "some-api-token");
    assert_eq!(
        parse(&request.body),
        parse("{\"id\":null,\"description\":null,\"baggage\":null,\"labels\":null}")
    );
}

#[test]
fn testcases_request_carries_url_key_and_body() {
    let request = testcases_request("http://host", "k", vec![record("t")]).unwrap();
    assert_eq!(request.url, "http://host/api/v1/ingress/testcases");
    assert_eq!(request.api_key, "k");
    let body = parse(&request.body);
    assert_eq!(body["testcases"][0]["testcaseName"], "t");
    assert_eq!(body["testcases"][0]["status"], "fail");
    assert_eq!(body["testcases"][0].get("output"), Some(&Value::Null));
}

#[test]
fn created_session_gives_the_id_of_the_answer() {
    let request = session_request("http://host", "k", &empty_session()).unwrap();
    let payload = parse(&request.body);
    assert_eq!(payload.get("id"), Some(&Value::Null));
    let result = create_session_result(&reply(200, "{\"id\":\"S1\"}"));
    assert_eq!(result.unwrap(), "S1");
}

#[test]
fn session_answer_may_hold_more_than_the_id() {
    let result = create_session_result(&reply(201, "{\"extra\":1,\"id\":\"S2\"}"));
    assert_eq!(result.unwrap(), "S2");
}

#[test]
fn session_answer_without_id_is_unknown() {
    match create_session_result(&reply(200, "{\"name\":\"S1\"}")) {
        Err(ReporterError::Unknown(message)) => assert_eq!(
            message,
            "error parsing session response: missing field `id`"
        ),
        other => panic!("unexpected result: {:?}", other),
    }
    match create_session_result(&reply(200, "{\"id\":7}")) {
        Err(ReporterError::Unknown(message)) => assert_eq!(
            message,
            "error parsing session response: missing field `id`"
        ),
        other => panic!("unexpected result: {:?}", other),
    }
    match create_session_result(&reply(200, "not json")) {
        Err(ReporterError::Unknown(message)) => {
            assert!(message.starts_with("error parsing session response: "));
            assert!(message.len() > "error parsing session response: ".len());
        }
        other => panic!("unexpected result: {:?}", other),
    }
    let unread = Ok(HttpReply {
        status: 200,
        body: Err("connection reset".to_string()),
    });
    match create_session_result(&unread) {
        Err(ReporterError::Unknown(message)) => assert_eq!(
            message,
            "error parsing session response: connection reset"
        ),
        other => panic!("unexpected result: {:?}", other),
    }
}

#[test]
fn failed_session_carries_message_and_status() {
    let body = "{\"code\":3,\"ingressCode\":400,\"message\":\"error message\"}";
    match create_session_result(&reply(400, body)) {
        Err(ReporterError::Ingress(message, status)) => {
            assert_eq!(message, "failed session request: error message");
            assert_eq!(status, 400);
        }
        other => panic!("unexpected result: {:?}", other),
    }
}

#[test]
fn unstructured_failure_carries_the_raw_body() {
    match create_session_result(&reply(503, "Service Unavailable")) {
        Err(ReporterError::Ingress(message, status)) => {
            assert_eq!(message, "failed session request: Service Unavailable");
            assert_eq!(status, 503);
        }
        other => panic!("unexpected result: {:?}", other),
    }
    match create_session_result(&reply(500, "{\"error\":\"x\"}")) {
        Err(ReporterError::Ingress(message, 500)) => {
            assert_eq!(message, "failed session request: {\"error\":\"x\"}")
        }
        other => panic!("unexpected result: {:?}", other),
    }
    match create_testcases_result(&reply(404, "{\"message\":5}")) {
        Err(ReporterError::Ingress(message, 404)) => {
            assert_eq!(message, "failed testcase request: {\"message\":5}")
        }
        other => panic!("unexpected result: {:?}", other),
    }
}

#[test]
fn unread_failure_body_gives_an_empty_message() {
    let unread = Ok(HttpReply {
        status: 502,
        body: Err("connection reset".to_string()),
    });
    match create_testcases_result(&unread) {
        Err(ReporterError::Ingress(message, 502)) => {
            assert_eq!(message, "failed testcase request: ")
        }
        other => panic!("unexpected result: {:?}", other),
    }
}

#[test]
fn transport_failure_is_unknown() {
    match create_session_result(&Err("connection refused".to_string())) {
        Err(ReporterError::Unknown(message)) => {
            assert_eq!(message, "error sending session request: connection refused")
        }
        other => panic!("unexpected result: {:?}", other),
    }
    match create_testcases_result(&Err("connection refused".to_string())) {
        Err(ReporterError::Unknown(message)) => {
            assert_eq!(message, "error sending testcase request: connection refused")
        }
        other => panic!("unexpected result: {:?}", other),
    }
}

#[test]
fn reported_batch_succeeds_whatever_the_body() {
    assert!(create_testcases_result(&reply(200, "")).is_ok());
    assert!(create_testcases_result(&reply(200, "null")).is_ok());
    assert!(create_testcases_result(&reply(204, "not json")).is_ok());
    let unread = Ok(HttpReply {
        status: 200,
        body: Err("connection reset".to_string()),
    });
    assert!(create_testcases_result(&unread).is_ok());
}

#[test]
fn failed_flush_is_popped_once_with_message_and_status() {
    let mut intake = Intake::new();
    let mut worker = Worker::new(0);
    let mut sink = ErrorSink::new();

    let message = intake.add(record("only")).expect("the queue accepts");
    assert!(matches!(
        worker.step(WorkerEvent::Message(message), 1),
        WorkerAction::Wait
    ));
    let signal = intake.shutdown();
    let batch = match worker.step(WorkerEvent::Message(signal), 2) {
        WorkerAction::FlushAndStop(batch) => batch,
        other => panic!("unexpected action: {:?}", other),
    };
    assert_eq!(batch.len(), 1);
    let request = testcases_request("http://host", "k", batch).unwrap();
    assert_eq!(parse(&request.body)["testcases"][0]["testcaseName"], "only");

    let answer = reply(
        400,
        "{\"code\":3,\"ingressCode\":400,\"message\":\"boom\"}",
    );
    sink.record(create_testcases_result(&answer));

    match sink.pop_error() {
        Some(ReporterError::Ingress(message, status)) => {
            assert!(message.contains("boom"));
            assert_eq!(message, "failed testcase request: boom");
            assert_eq!(status, 400);
        }
        other => panic!("unexpected error: {:?}", other),
    }
    assert!(sink.pop_error().is_none());
}

#[test]
fn text_member_is_found_in_objects_only() {
    assert_eq!(
        text_member_of(&parse("{\"message\":\"m\"}"), "message"),
        Some("m".to_string())
    );
    assert_eq!(text_member_of(&parse("{\"message\":\"m\"}"), "id"), None);
    assert_eq!(text_member_of(&parse("{\"message\":null}"), "message"), None);
    assert_eq!(text_member_of(&parse("[\"message\"]"), "message"), None);
    assert_eq!(text_member_of(&parse("\"message\""), "message"), None);
}

#[test]
fn responses_are_decoded_from_documents() {
    let error = error_response_of(&parse("{\"message\":\"boom\",\"code\":3}")).unwrap();
    assert_eq!(error.message, "boom");
    assert!(error_response_of(&parse("{\"detail\":\"boom\"}")).is_none());
    let session = session_response_of(&parse("{\"id\":\"S1\"}")).unwrap();
    assert_eq!(session.id, "S1");
    assert!(session_response_of(&parse("[]")).is_none());
}

#[test]
fn results_follow_what_the_parser_made_of_the_body() {
    let answer = HttpReply {
        status: 200,
        body: Ok("ignored".to_string()),
    };
    assert_eq!(
        session_reply_parsed(&answer, &Ok(parse("{\"id\":\"S9\"}"))).unwrap(),
        "S9"
    );
    match session_reply_parsed(&answer, &Err("expected value".to_string())) {
        Err(ReporterError::Unknown(message)) => {
            assert_eq!(message, "error parsing session response: expected value")
        }
        other => panic!("unexpected result: {:?}", other),
    }
    let refused = HttpReply {
        status: 401,
        body: Ok("raw".to_string()),
    };
    match testcases_reply_parsed(&refused, &Ok(parse("{\"message\":\"denied\"}"))) {
        Err(ReporterError::Ingress(message, 401)) => {
            assert_eq!(message, "failed testcase request: denied")
        }
        other => panic!("unexpected result: {:?}", other),
    }
    assert_eq!(
        failure_detail_of(&Ok("raw".to_string()), &Err("bad".to_string())),
        "raw"
    );
    assert_eq!(
        failure_detail_of(&Err("unread".to_string()), &Err("unread".to_string())),
        ""
    );
}

#[test]
fn body_is_parsed_where_it_was_read() {
    assert_eq!(
        parse_body(&Ok("{\"a\":1}".to_string())).unwrap(),
        parse("{\"a\":1}")
    );
    assert!(parse_body(&Ok("{".to_string())).is_err());
    assert_eq!(
        parse_body(&Err("unread".to_string())).unwrap_err(),
        "unread"
    );
}
