use fx_mistral::chat::ChatClient;
use fx_mistral::files::FileClient;
use fx_mistral::http::{is_success, HttpReply};
use fx_mistral::ocr::OcrClient;
use fx_mistral::{error_description, read_reply, MistralApiError, MistralError, ParseError};

fn answered(status: u16, body: &str) -> HttpReply {
    HttpReply::Answered { status, body: body.to_string() }
}

fn failed(wording: &str) -> HttpReply {
    HttpReply::Failed { wording: wording.to_string() }
}

const AUTH_BODY: &str = r#"{"code":401,"type":"auth","message":"bad key","object":"error"}"#;

fn auth_error() -> MistralError {
    MistralError::Api(MistralApiError {
        code: 401,
        error_type: "auth".to_string(),
        message: "bad key".to_string(),
        object: "error".to_string(),
        param: None,
        description: "Unauthorized: Check your API key.".to_string(),
    })
}

#[test]
fn error_payload_gives_an_api_error_with_a_description() {
    match MistralError::from_failure(401, AUTH_BODY) {
        MistralError::Api(payload) => {
            assert_eq!(payload.code, 401);
            assert_eq!(payload.error_type, "auth");
            assert_eq!(payload.message, "bad key");
            assert_eq!(payload.object, "error");
            assert_eq!(payload.param, None);
            assert!(!payload.description.is_empty());
            assert_eq!(payload.description, "Unauthorized: Check your API key.");
        }
        other => panic!("{:?}", other),
    }
}

#[test]
fn unparsable_body_gives_the_status() {
    assert_eq!(MistralError::from_failure(503, "Service Unavailable"), MistralError::Http(503));
    assert_eq!(MistralError::from_failure(500, ""), MistralError::Http(500));
    assert_eq!(MistralError::from_failure(404, "{\"code\":404"), MistralError::Http(404));
}

#[test]
fn json_of_another_shape_gives_the_status() {
    assert_eq!(MistralError::from_failure(400, r#"{"detail":"Not Found"}"#), MistralError::Http(400));
    assert_eq!(MistralError::from_failure(429, r#"[]"#), MistralError::Http(429));
    assert_eq!(
        MistralError::from_failure(400, r#"{"code":4294967296,"type":"t","message":"m","object":"error"}"#),
        MistralError::Http(400)
    );
}

#[test]
fn every_client_classifies_a_failure_alike() {
    assert_eq!(FileClient::upload_file_response(&answered(401, AUTH_BODY)), Err(auth_error()));
    assert_eq!(FileClient::get_signed_url_response(&answered(401, AUTH_BODY)), Err(auth_error()));
    assert_eq!(ChatClient::chat_complete_response(&answered(401, AUTH_BODY)), Err(auth_error()));
    assert_eq!(ChatClient::chat_complete_struct_response(&answered(401, AUTH_BODY)), Err(auth_error()));
    assert_eq!(OcrClient::get_ocr_results_response(&answered(401, AUTH_BODY)), Err(auth_error()));
    assert_eq!(FileClient::upload_file_response(&answered(502, "Bad Gateway")), Err(MistralError::Http(502)));
    assert_eq!(FileClient::get_signed_url_response(&answered(502, "Bad Gateway")), Err(MistralError::Http(502)));
    assert_eq!(ChatClient::chat_complete_response(&answered(502, "Bad Gateway")), Err(MistralError::Http(502)));
    assert_eq!(ChatClient::chat_complete_struct_response(&answered(502, "Bad Gateway")), Err(MistralError::Http(502)));
    assert_eq!(OcrClient::get_ocr_results_response(&answered(502, "Bad Gateway")), Err(MistralError::Http(502)));
}

#[test]
fn a_body_that_would_be_a_result_does_not_excuse_the_status() {
    let body = r#"{"url":"https://x"}"#;
    assert!(FileClient::get_signed_url_response(&answered(299, body)).is_ok());
    assert_eq!(FileClient::get_signed_url_response(&answered(300, body)), Err(MistralError::Http(300)));
    assert_eq!(FileClient::get_signed_url_response(&answered(199, body)), Err(MistralError::Http(199)));
    assert_eq!(FileClient::get_signed_url_response(&answered(0, body)), Err(MistralError::Http(0)));
}

#[test]
fn an_error_payload_in_a_successful_answer_is_no_api_error() {
    assert_eq!(
        FileClient::get_signed_url_response(&answered(200, AUTH_BODY)),
        Err(MistralError::Parse(ParseError::Shape { text: AUTH_BODY.to_string() }))
    );
}

#[test]
fn success_is_two_hundred_to_two_hundred_ninety_nine() {
    for status in [200u16, 201, 204, 250, 299] {
        assert!(is_success(status));
    }
    for status in [0u16, 100, 199, 300, 301, 400, 401, 404, 500, 999, u16::MAX] {
        assert!(!is_success(status));
    }
}

#[test]
fn transport_failure_is_a_network_error_for_every_client() {
    let reply = failed("error sending request: connection refused");
    let expected = MistralError::Network("error sending request: connection refused".to_string());
    assert_eq!(read_reply(&reply), Err(MistralError::Network(
        "error sending request: connection refused".to_string()
    )));
    assert_eq!(FileClient::upload_file_response(&reply).unwrap_err(), expected);
    assert_eq!(FileClient::get_signed_url_response(&reply).unwrap_err(), expected);
    assert_eq!(ChatClient::chat_complete_response(&reply).unwrap_err(), expected);
    assert_eq!(ChatClient::chat_complete_struct_response(&reply).unwrap_err(), expected);
    assert_eq!(OcrClient::get_ocr_results_response(&reply).unwrap_err(), expected);
    assert_eq!(read_reply(&failed("")), Err(MistralError::Network(String::new())));
}

#[test]
fn reply_is_read_up_to_the_document_of_a_successful_body() {
    assert_eq!(
        read_reply(&answered(200, " [1, 2] ")).unwrap(),
        serde_json::from_str::<serde_json::Value>("[1,2]").unwrap()
    );
    assert_eq!(read_reply(&answered(401, AUTH_BODY)), Err(auth_error()));
    match read_reply(&answered(200, "{")) {
        Err(MistralError::Parse(ParseError::Syntax { text, complaint })) => {
            assert_eq!(text, "{");
            assert_eq!(complaint, "EOF while parsing an object at line 1 column 1");
        }
        other => panic!("{:?}", other),
    }
}

#[test]
fn descriptions_come_from_the_table() {
    assert_eq!(
        error_description(2210),
        "Invalid request filter: The JSON body could not be parsed."
    );
    assert_eq!(error_description(401), "Unauthorized: Check your API key.");
    assert_eq!(
        error_description(422),
        "Unprocessable Entity: The request was well-formed but unable to be followed due to semantic errors."
    );
    for code in [0u32, 1, 400, 402, 421, 423, 2209, 2211, u32::MAX] {
        assert_eq!(error_description(code), "An unknown error occurred.");
    }
}

#[test]
fn unknown_code_still_gets_a_description() {
    let body = r#"{"code":1234,"type":"t","message":"m","object":"error","param":null}"#;
    match MistralError::from_failure(400, body) {
        MistralError::Api(payload) => {
            assert_eq!(payload.code, 1234);
            assert_eq!(payload.description, "An unknown error occurred.");
        }
        other => panic!("{:?}", other),
    }
}

#[test]
fn a_number_that_is_no_status_reads_as_the_bare_number() {
    assert_eq!(MistralError::Http(99).to_string(), "Unexpected HTTP status: 99");
    assert_eq!(MistralError::Http(1000).to_string(), "Unexpected HTTP status: 1000");
    assert_eq!(MistralError::Http(7).to_string(), "Unexpected HTTP status: 7");
    assert_eq!(MistralError::Http(0).to_string(), "Unexpected HTTP status: 0");
    assert_eq!(MistralError::Http(65535).to_string(), "Unexpected HTTP status: 65535");
}

#[test]
fn api_error_reads_the_same_whatever_its_description() {
    let error = MistralError::Api(MistralApiError {
        code: 401,
        error_type: "auth".to_string(),
        message: "bad key".to_string(),
        object: "error".to_string(),
        param: None,
        description: String::new(),
    });
    assert_eq!(error.to_string(), "Mistral API error (code 401): bad key");
}

#[test]
fn errors_read_as_sentences() {
    assert_eq!(auth_error().to_string(), "Mistral API error (code 401): bad key");
    assert_eq!(MistralError::Http(404).to_string(), "Unexpected HTTP status: 404 Not Found");
    assert_eq!(MistralError::Http(401).to_string(), "Unexpected HTTP status: 401 Unauthorized");
    assert_eq!(
        MistralError::Http(503).to_string(),
        "Unexpected HTTP status: 503 Service Unavailable"
    );
    assert_eq!(
        MistralError::Http(599).to_string(),
        "Unexpected HTTP status: 599 <unknown status code>"
    );
    assert_eq!(MistralError::Http(100).to_string(), "Unexpected HTTP status: 100 Continue");
    assert_eq!(
        MistralError::Http(999).to_string(),
        "Unexpected HTTP status: 999 <unknown status code>"
    );
    assert_eq!(
        MistralError::Network("connection refused".to_string()).to_string(),
        "Network error: connection refused"
    );
    assert_eq!(
        MistralError::Parse(ParseError::Syntax {
            text: "<html>".to_string(),
            complaint: "expected value at line 1 column 1".to_string(),
        })
        .to_string(),
        "Parse error: expected value at line 1 column 1 in: <html>"
    );
    assert_eq!(
        MistralError::Parse(ParseError::Shape { text: "[]".to_string() }).to_string(),
        "Parse error: unexpected shape in: []"
    );
    assert_eq!(
        MistralError::Parse(ParseError::NoChoices).to_string(),
        "Parse error: the response holds no choice"
    );
    assert_eq!(
        ParseError::Schema { text: "{".to_string(), complaint: "EOF".to_string() }.to_string(),
        "invalid JSON schema: EOF in: {"
    );
}
