use greener_reporter::ReporterError;
use greener_reporter::GREENER_REPORTER_ERROR;
use greener_reporter::GREENER_REPORTER_ERROR_INGRESS;
use greener_reporter::GREENER_REPORTER_ERROR_INVALID_ARGUMENT;

#[test]
fn error_codes_have_their_values() {
    assert_eq!(GREENER_REPORTER_ERROR, 1);
    assert_eq!(GREENER_REPORTER_ERROR_INVALID_ARGUMENT, 2);
    assert_eq!(GREENER_REPORTER_ERROR_INGRESS, 3);
}

#[test]
fn error_code_follows_the_kind() {
    assert_eq!(ReporterError::Unknown("u".to_string()).code(), 1);
    assert_eq!(ReporterError::InvalidArgument("i".to_string()).code(), 2);
    assert_eq!(ReporterError::Ingress("g".to_string(), 503).code(), 3);
}

#[test]
fn error_ingress_code_is_the_status_or_zero() {
    assert_eq!(ReporterError::Unknown("u".to_string()).ingress_code(), 0);
    assert_eq!(ReporterError::InvalidArgument("i".to_string()).ingress_code(), 0);
    assert_eq!(ReporterError::Ingress("g".to_string(), 503).ingress_code(), 503);
    assert_eq!(ReporterError::Ingress("g".to_string(), 65535).ingress_code(), 65535);
}

#[test]
fn error_message_is_carried() {
    assert_eq!(ReporterError::Unknown("u".to_string()).message(), "u");
    assert_eq!(ReporterError::InvalidArgument("i".to_string()).message(), "i");
    assert_eq!(ReporterError::Ingress("g".to_string(), 400).message(), "g");
}

#[test]
fn error_is_described_in_words() {
    assert_eq!(
        ReporterError::InvalidArgument("bad label".to_string()).describe(),
        "InvalidArgument error: bad label"
    );
    assert_eq!(
        ReporterError::Ingress("failed session request: boom".to_string(), 400).describe(),
        "Ingress error: code=400, failed session request: boom"
    );
    assert_eq!(
        ReporterError::Ingress("m".to_string(), 0).describe(),
        "Ingress error: code=0, m"
    );
    assert_eq!(
        ReporterError::Ingress("m".to_string(), 65535).describe(),
        "Ingress error: code=65535, m"
    );
    assert_eq!(
        ReporterError::Unknown("channel closed".to_string()).describe(),
        "Unknown error: channel closed"
    );
}
