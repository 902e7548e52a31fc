use pixelast::error::TransportError;
use pixelast::json::parse;
use pixelast::response::build_result;
use pixelast::PixelaClientError;

#[test]
fn describe_names_the_failure_of_the_transport() {
    let error = PixelaClientError::HttpClientError(TransportError {
        message: String::from("timed out"),
    });
    assert_eq!(error.describe(), "request failed: timed out");
}

#[test]
fn describe_names_the_failure_that_the_service_reported() {
    let error = PixelaClientError::RequestNotSuccess(String::from("failed message"));
    assert_eq!(error.describe(), "request is not success: failed message");
}

#[test]
fn describe_names_a_body_that_was_not_read() {
    let reader = match parse("not json body") {
        Err(error) => error,
        Ok(_) => panic!("accepted"),
    };
    let detail = reader.to_string();
    let error = PixelaClientError::ResponseParseFailed(reader);
    assert_eq!(error.describe(), format!("failed parse json: {}", detail));
}

#[test]
fn describe_names_a_body_of_another_shape() {
    let error = match build_result("{}") {
        Err(error) => error,
        Ok(_) => panic!("accepted"),
    };
    assert_eq!(error.describe(), "failed parse json: not a result envelope");
}

#[test]
fn from_keeps_the_failure_of_the_transport() {
    let error = PixelaClientError::from(TransportError {
        message: String::from("refused"),
    });
    match error {
        PixelaClientError::HttpClientError(inner) => assert_eq!(inner.message, "refused"),
        other => panic!("unexpected {:?}", other),
    }
}

#[test]
fn from_keeps_the_error_of_the_reader() {
    let reader = match parse("[") {
        Err(error) => error,
        Ok(_) => panic!("accepted"),
    };
    let detail = reader.to_string();
    match PixelaClientError::from(reader) {
        PixelaClientError::ResponseParseFailed(inner) => assert_eq!(inner.to_string(), detail),
        other => panic!("unexpected {:?}", other),
    }
}
