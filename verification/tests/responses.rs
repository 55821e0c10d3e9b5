use fx_mistral::chat::{ChatClient, ChatResponse, Choice, MessageContent, Usage};
use fx_mistral::files::{FileClient, FileData, SignedUrl};
use fx_mistral::http::HttpReply;
use fx_mistral::json::{
    optional_member, optional_text_member, optional_u64_member, text_member, u32_member, u64_member,
};
use fx_mistral::ocr::{Dimensions, Image, OcrClient, OcrResponse, Page, UsageInfo};
use fx_mistral::{MistralApiError, MistralError, ParseError};
use serde_json::Value;

fn document(text: &str) -> Value {
    serde_json::from_str(text).unwrap()
}

fn answered(status: u16, body: &str) -> HttpReply {
    HttpReply::Answered { status, body: body.to_string() }
}

const CHAT_BODY: &str = r#"{
    "id": "cmpl-1",
    "object": "chat.completion",
    "created": 1739900000,
    "model": "mistral-small-latest",
    "choices": [
        {
            "index": 0,
            "message": {"role": "assistant", "tool_calls": null, "content": "```json\n{\"invoice_number\": \"12345\"}\n```"},
            "finish_reason": "stop"
        },
        {
            "index": 1,
            "message": {"role": "assistant", "tool_calls": [{"id": "t1"}], "content": "second"},
            "finish_reason": "length"
        }
    ],
    "usage": {"prompt_tokens": 11, "total_tokens": 31, "completion_tokens": 20}
}"#;

#[test]
fn chat_response_is_decoded_member_by_member() {
    let response = ChatClient::chat_complete_response(&answered(200, CHAT_BODY)).unwrap();
    assert_eq!(
        response,
        ChatResponse {
            id: "cmpl-1".to_string(),
            object: "chat.completion".to_string(),
            created: 1739900000,
            model: "mistral-small-latest".to_string(),
            choices: vec![
                Choice {
                    index: 0,
                    message: MessageContent {
                        role: "assistant".to_string(),
                        tool_calls: None,
                        content: "```json\n{\"invoice_number\": \"12345\"}\n```".to_string(),
                    },
                    finish_reason: "stop".to_string(),
                },
                Choice {
                    index: 1,
                    message: MessageContent {
                        role: "assistant".to_string(),
                        tool_calls: Some(document(r#"[{"id":"t1"}]"#)),
                        content: "second".to_string(),
                    },
                    finish_reason: "length".to_string(),
                },
            ],
            usage: Usage { prompt_tokens: 11, total_tokens: 31, completion_tokens: 20 },
        }
    );
}

#[test]
fn structured_answer_is_the_payload_of_the_first_choice() {
    let payload = ChatClient::chat_complete_struct_response(&answered(200, CHAT_BODY)).unwrap();
    assert_eq!(payload, document(r#"{"invoice_number":"12345"}"#));
}

#[test]
fn structured_answer_that_is_not_json_is_a_parse_error() {
    let body = r#"{"id":"c","object":"o","created":1,"model":"m","choices":[{"index":0,"message":{"role":"assistant","content":"I cannot read it."},"finish_reason":"stop"}],"usage":{"prompt_tokens":1,"total_tokens":2,"completion_tokens":1}}"#;
    assert!(ChatClient::chat_complete_response(&answered(200, body)).is_ok());
    match ChatClient::chat_complete_struct_response(&answered(200, body)) {
        Err(MistralError::Parse(ParseError::Syntax { text, complaint })) => {
            assert_eq!(text, "I cannot read it.");
            assert_eq!(complaint, "expected value at line 1 column 1");
        }
        other => panic!("{:?}", other),
    }
}

#[test]
fn empty_choices_surface_as_a_parse_error() {
    let body = r#"{"id":"c","object":"chat.completion","created":1,"model":"m","choices":[],"usage":{"prompt_tokens":1,"total_tokens":1,"completion_tokens":0}}"#;
    assert_eq!(
        ChatClient::chat_complete_response(&answered(200, body)),
        Err(MistralError::Parse(ParseError::NoChoices))
    );
    assert_eq!(
        ChatClient::chat_complete_struct_response(&answered(200, body)),
        Err(MistralError::Parse(ParseError::NoChoices))
    );
    let shape = ChatResponse::from_json(&document(body)).unwrap();
    assert!(shape.choices.is_empty());
}

#[test]
fn chat_response_of_another_shape_is_a_parse_error() {
    for body in [
        r#"{"id":"c","object":"o","created":1,"model":"m","usage":{"prompt_tokens":1,"total_tokens":1,"completion_tokens":0}}"#,
        r#"{"id":"c","object":"o","created":1,"model":"m","choices":{},"usage":{"prompt_tokens":1,"total_tokens":1,"completion_tokens":0}}"#,
        r#"{"id":"c","object":"o","created":-1,"model":"m","choices":[],"usage":{"prompt_tokens":1,"total_tokens":1,"completion_tokens":0}}"#,
        r#"{"id":"c","object":"o","created":1,"model":"m","choices":[{"index":0,"message":{"role":"a"},"finish_reason":"stop"}],"usage":{"prompt_tokens":1,"total_tokens":1,"completion_tokens":0}}"#,
        r#"{"id":"c","object":"o","created":1,"model":"m","choices":[],"usage":{"prompt_tokens":1,"total_tokens":4294967296,"completion_tokens":0}}"#,
        r#"{"id":"c","object":"o","created":1,"model":"m","choices":[],"usage":null}"#,
        r#"[]"#,
        r#""chat""#,
    ] {
        assert_eq!(
            ChatClient::chat_complete_response(&answered(200, body)),
            Err(MistralError::Parse(ParseError::Shape { text: body.to_string() })),
            "{}",
            body
        );
    }
}

#[test]
fn successful_answer_that_is_not_json_is_a_parse_error() {
    match ChatClient::chat_complete_response(&answered(200, "<html>")) {
        Err(MistralError::Parse(ParseError::Syntax { text, complaint })) => {
            assert_eq!(text, "<html>");
            assert_eq!(complaint, "expected value at line 1 column 1");
        }
        other => panic!("{:?}", other),
    }
}

#[test]
fn tool_calls_are_carried_as_they_came() {
    let message = MessageContent::from_json(&document(
        r#"{"role":"assistant","tool_calls":{"name":"lookup","arguments":[1,2.5,"x"]},"content":""}"#,
    ))
    .unwrap();
    assert_eq!(
        message.tool_calls,
        Some(document(r#"{"name":"lookup","arguments":[1,2.5,"x"]}"#))
    );
    let without = MessageContent::from_json(&document(r#"{"role":"assistant","content":"x"}"#)).unwrap();
    assert_eq!(without.tool_calls, None);
    assert_eq!(MessageContent::from_json(&document(r#"{"role":"assistant","content":null}"#)), None);
}

const FILE_BODY: &str = r#"{"id":"file-1","object":"file","bytes":12345,"created_at":1739900000,"filename":"uploaded_file.pdf","purpose":"ocr","sample_type":"ocr_input","num_lines":null,"source":"upload"}"#;

#[test]
fn file_data_is_decoded_member_by_member() {
    assert_eq!(
        FileClient::upload_file_response(&answered(200, FILE_BODY)),
        Ok(FileData {
            id: "file-1".to_string(),
            object: "file".to_string(),
            bytes: 12345,
            created_at: 1739900000,
            filename: "uploaded_file.pdf".to_string(),
            purpose: "ocr".to_string(),
            sample_type: "ocr_input".to_string(),
            num_lines: None,
            source: "upload".to_string(),
        })
    );
}

#[test]
fn num_lines_may_be_a_number_null_or_missing() {
    let with = FILE_BODY.replace("\"num_lines\":null", "\"num_lines\":18446744073709551615");
    assert_eq!(FileClient::upload_file_response(&answered(201, &with)).unwrap().num_lines, Some(u64::MAX));
    let without = FILE_BODY.replace("\"num_lines\":null,", "");
    assert_eq!(FileClient::upload_file_response(&answered(200, &without)).unwrap().num_lines, None);
    let wrong = FILE_BODY.replace("\"num_lines\":null", "\"num_lines\":\"3\"");
    assert_eq!(
        FileClient::upload_file_response(&answered(200, &wrong)),
        Err(MistralError::Parse(ParseError::Shape { text: wrong.clone() }))
    );
    let real = FILE_BODY.replace("\"num_lines\":null", "\"num_lines\":3.0");
    assert_eq!(
        FileClient::upload_file_response(&answered(200, &real)),
        Err(MistralError::Parse(ParseError::Shape { text: real.clone() }))
    );
}

#[test]
fn file_data_needs_every_other_member() {
    for member in ["id", "object", "bytes", "created_at", "filename", "purpose", "sample_type", "source"] {
        let mut value = document(FILE_BODY);
        value.as_object_mut().unwrap().remove(member);
        assert_eq!(FileData::from_json(&value), None, "{}", member);
        let mut value = document(FILE_BODY);
        value.as_object_mut().unwrap().insert(member.to_string(), Value::Null);
        assert_eq!(FileData::from_json(&value), None, "{}", member);
    }
    assert!(FileData::from_json(&document(FILE_BODY)).is_some());
}

#[test]
fn signed_url_is_the_url_member() {
    assert_eq!(
        FileClient::get_signed_url_response(&answered(200, r#"{"url":"https://files.example/abc?sig=1%2F2&e=24","more":1}"#)),
        Ok(SignedUrl { url: "https://files.example/abc?sig=1%2F2&e=24".to_string() })
    );
    assert_eq!(
        FileClient::get_signed_url_response(&answered(200, r#"{"URL":"https://x"}"#)),
        Err(MistralError::Parse(ParseError::Shape { text: r#"{"URL":"https://x"}"#.to_string() }))
    );
    assert_eq!(SignedUrl::from_json(&document(r#"{"url":null}"#)), None);
}

const OCR_BODY: &str = r#"{
    "pages": [
        {
            "index": 0,
            "markdown": "Rechnung\n\n| Summe | 100,00 |",
            "images": [
                {"id": "img-0.jpeg", "top_left_x": 10, "top_left_y": 20, "bottom_right_x": 110, "bottom_right_y": 220, "image_base64": null},
                {"id": "img-1.jpeg", "top_left_x": 0, "top_left_y": 0, "bottom_right_x": 1, "bottom_right_y": 2, "image_base64": "AAAA"}
            ],
            "dimensions": {"dpi": 200, "height": 2200, "width": 1700}
        },
        {
            "index": 1,
            "markdown": "",
            "images": [],
            "dimensions": {"dpi": 200, "height": 2200, "width": 1700}
        }
    ],
    "model": "mistral-ocr-latest",
    "usage_info": {"pages_processed": 2, "doc_size_bytes": 5000000000}
}"#;

#[test]
fn ocr_response_holds_one_entry_per_page() {
    let response = OcrClient::get_ocr_results_response(&answered(200, OCR_BODY)).unwrap();
    assert_eq!(
        response,
        OcrResponse {
            pages: vec![
                Page {
                    index: 0,
                    markdown: "Rechnung\n\n| Summe | 100,00 |".to_string(),
                    images: vec![
                        Image {
                            id: "img-0.jpeg".to_string(),
                            top_left_x: 10,
                            top_left_y: 20,
                            bottom_right_x: 110,
                            bottom_right_y: 220,
                            image_base64: None,
                        },
                        Image {
                            id: "img-1.jpeg".to_string(),
                            top_left_x: 0,
                            top_left_y: 0,
                            bottom_right_x: 1,
                            bottom_right_y: 2,
                            image_base64: Some("AAAA".to_string()),
                        },
                    ],
                    dimensions: Dimensions { dpi: 200, height: 2200, width: 1700 },
                },
                Page {
                    index: 1,
                    markdown: String::new(),
                    images: vec![],
                    dimensions: Dimensions { dpi: 200, height: 2200, width: 1700 },
                },
            ],
            model: "mistral-ocr-latest".to_string(),
            usage_info: UsageInfo { pages_processed: 2, doc_size_bytes: 5000000000 },
        }
    );
}

#[test]
fn one_page_of_another_shape_spoils_the_response() {
    let broken = OCR_BODY.replace("\"bottom_right_y\": 2,", "\"bottom_right_y\": -2,");
    assert_eq!(
        OcrClient::get_ocr_results_response(&answered(200, &broken)),
        Err(MistralError::Parse(ParseError::Shape { text: broken.clone() }))
    );
    let broken = OCR_BODY.replace("\"markdown\": \"\",", "");
    assert_eq!(
        OcrClient::get_ocr_results_response(&answered(200, &broken)),
        Err(MistralError::Parse(ParseError::Shape { text: broken.clone() }))
    );
    assert_eq!(Page::all_from_json(&document(r#"[{"index":0}]"#)), None);
    assert_eq!(Page::all_from_json(&document(r#"{}"#)), None);
    assert_eq!(Page::all_from_json(&document(r#"[]"#)), Some(vec![]));
    assert_eq!(Image::all_from_json(&document(r#"[1]"#)), None);
}

#[test]
fn numbers_must_fit_the_width_of_their_member() {
    assert_eq!(
        Dimensions::from_json(&document(r#"{"dpi":4294967295,"height":0,"width":1}"#)),
        Some(Dimensions { dpi: u32::MAX, height: 0, width: 1 })
    );
    assert_eq!(Dimensions::from_json(&document(r#"{"dpi":4294967296,"height":0,"width":1}"#)), None);
    assert_eq!(Dimensions::from_json(&document(r#"{"dpi":1.5,"height":0,"width":1}"#)), None);
    assert_eq!(Dimensions::from_json(&document(r#"{"dpi":"1","height":0,"width":1}"#)), None);
    assert_eq!(
        UsageInfo::from_json(&document(r#"{"pages_processed":1,"doc_size_bytes":18446744073709551615}"#)),
        Some(UsageInfo { pages_processed: 1, doc_size_bytes: u64::MAX })
    );
    assert_eq!(
        UsageInfo::from_json(&document(r#"{"pages_processed":1,"doc_size_bytes":18446744073709551616}"#)),
        None
    );
    assert_eq!(
        Usage::from_json(&document(r#"{"prompt_tokens":1,"total_tokens":3,"completion_tokens":2,"extra":true}"#)),
        Some(Usage { prompt_tokens: 1, total_tokens: 3, completion_tokens: 2 })
    );
}

#[test]
fn member_readers_tell_missing_from_wrong() {
    let value = document(r#"{"s":"text","n":7,"big":4294967296,"z":null,"a":[],"neg":-1}"#);
    assert_eq!(text_member(&value, "s"), Some("text".to_string()));
    assert_eq!(text_member(&value, "n"), None);
    assert_eq!(text_member(&value, "missing"), None);
    assert_eq!(u64_member(&value, "n"), Some(7));
    assert_eq!(u64_member(&value, "big"), Some(4294967296));
    assert_eq!(u64_member(&value, "neg"), None);
    assert_eq!(u64_member(&value, "s"), None);
    assert_eq!(u32_member(&value, "n"), Some(7));
    assert_eq!(u32_member(&value, "big"), None);
    assert_eq!(optional_text_member(&value, "s"), Some(Some("text".to_string())));
    assert_eq!(optional_text_member(&value, "z"), Some(None));
    assert_eq!(optional_text_member(&value, "missing"), Some(None));
    assert_eq!(optional_text_member(&value, "n"), None);
    assert_eq!(optional_u64_member(&value, "n"), Some(Some(7)));
    assert_eq!(optional_u64_member(&value, "z"), Some(None));
    assert_eq!(optional_u64_member(&value, "s"), None);
    assert_eq!(optional_member(&value, "z"), None);
    assert_eq!(optional_member(&value, "a"), Some(&document("[]")));
    assert_eq!(text_member(&document(r#"["s"]"#), "s"), None);
}

#[test]
fn error_payload_is_decoded_with_its_description() {
    let payload = MistralApiError::from_json(&document(
        r#"{"code":422,"type":"invalid_request","message":"no model","object":"error","param":"model"}"#,
    ))
    .unwrap();
    assert_eq!(
        payload,
        MistralApiError {
            code: 422,
            error_type: "invalid_request".to_string(),
            message: "no model".to_string(),
            object: "error".to_string(),
            param: Some("model".to_string()),
            description: "Unprocessable Entity: The request was well-formed but unable to be followed due to semantic errors.".to_string(),
        }
    );
    assert_eq!(
        MistralApiError::from_json(&document(r#"{"code":"401","type":"auth","message":"m","object":"error"}"#)),
        None
    );
    assert_eq!(
        MistralApiError::from_json(&document(r#"{"code":401,"message":"m","object":"error"}"#)),
        None
    );
    assert_eq!(
        MistralApiError::from_json(&document(r#"{"code":401,"type":"auth","message":"m","object":"error","param":5}"#)),
        None
    );
}
