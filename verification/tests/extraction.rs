use fx_mistral::chat::extract_struct_from_chat_response;
use fx_mistral::text::{characters, push_decimal, strip_code_fence, whitespace};
use fx_mistral::{MistralError, ParseError};
use serde_json::Value;

fn document(text: &str) -> Value {
    serde_json::from_str(text).unwrap()
}

#[test]
fn fence_around_json_is_taken_off() {
    assert_eq!(strip_code_fence("```json\n{\"a\": 1}\n```"), "{\"a\": 1}");
}

#[test]
fn clean_json_is_left_as_it_is() {
    assert_eq!(strip_code_fence("{\"a\": 1}"), "{\"a\": 1}");
    assert_eq!(strip_code_fence(strip_code_fence("{\"a\": 1}")), "{\"a\": 1}");
}

#[test]
fn fenced_and_clean_json_give_the_same_payload() {
    let clean = "{\"invoice_number\": \"12345\", \"total\": [1, 2.5, null], \"issuer\": {\"name\": \"Beispiel GmbH\"}}";
    let fenced = format!("```json\n{}\n```", clean);
    let from_fenced = extract_struct_from_chat_response(&fenced).unwrap();
    let from_clean = extract_struct_from_chat_response(clean).unwrap();
    assert_eq!(from_fenced, from_clean);
    assert_eq!(from_clean, document(clean));
}

#[test]
fn whitespace_around_the_fence_and_inside_it_is_trimmed() {
    assert_eq!(strip_code_fence("  \n\t```json  \r\n {\"a\":1} \n\n```\n  "), "{\"a\":1}");
    assert_eq!(strip_code_fence("\u{a0}\u{3000}x\u{2028}\u{85}"), "x");
    assert_eq!(strip_code_fence("   "), "");
    assert_eq!(strip_code_fence(""), "");
}

#[test]
fn a_fence_that_stands_twice_is_taken_off_twice() {
    assert_eq!(strip_code_fence("```json```json{}``````"), "{}");
}

#[test]
fn opening_fence_goes_before_the_closing_one() {
    assert_eq!(strip_code_fence("```json"), "");
    assert_eq!(strip_code_fence("```"), "");
    assert_eq!(strip_code_fence("```json```"), "");
    assert_eq!(strip_code_fence("``` json"), "``` json");
}

#[test]
fn only_one_end_may_be_fenced() {
    assert_eq!(strip_code_fence("```json\n[1]"), "[1]");
    assert_eq!(strip_code_fence("[1]\n```"), "[1]");
}

#[test]
fn text_inside_is_not_searched() {
    assert_eq!(
        strip_code_fence("Here it is:\n```json\n{}\n```"),
        "Here it is:\n```json\n{}"
    );
    assert_eq!(strip_code_fence("```JSON\n{}\n```"), "```JSON\n{}");
}

#[test]
fn whitespace_between_two_fences_ends_the_stripping() {
    assert_eq!(strip_code_fence("```json ```json {}"), "```json {}");
    assert_eq!(strip_code_fence("{} ``` ```"), "{} ```");
}

#[test]
fn payload_that_is_not_json_names_the_text_that_was_left() {
    match extract_struct_from_chat_response("```json\nSure! {\"a\": 1}\n```") {
        Err(MistralError::Parse(ParseError::Syntax { text, complaint })) => {
            assert_eq!(text, "Sure! {\"a\": 1}");
            assert_eq!(complaint, "expected value at line 1 column 1");
        }
        other => panic!("{:?}", other),
    }
}

#[test]
fn payload_with_text_after_the_object_is_refused() {
    match extract_struct_from_chat_response("{\"a\": 1} and so on") {
        Err(MistralError::Parse(ParseError::Syntax { text, complaint })) => {
            assert_eq!(text, "{\"a\": 1} and so on");
            assert_eq!(complaint, "trailing characters at line 1 column 10");
        }
        other => panic!("{:?}", other),
    }
}

#[test]
fn empty_completion_is_refused() {
    match extract_struct_from_chat_response(" \n ") {
        Err(MistralError::Parse(ParseError::Syntax { text, complaint })) => {
            assert_eq!(text, "");
            assert_eq!(complaint, "EOF while parsing a value at line 1 column 0");
        }
        other => panic!("{:?}", other),
    }
}

#[test]
fn payload_may_be_any_json_value() {
    assert_eq!(extract_struct_from_chat_response("```json\n[1, 2]\n```").unwrap(), document("[1,2]"));
    assert_eq!(extract_struct_from_chat_response(" null ").unwrap(), Value::Null);
}

#[test]
fn whitespace_is_the_unicode_property() {
    let spaces = [
        '\u{9}', '\u{a}', '\u{b}', '\u{c}', '\u{d}', ' ', '\u{85}', '\u{a0}', '\u{1680}',
        '\u{2000}', '\u{2005}', '\u{200a}', '\u{2028}', '\u{2029}', '\u{202f}', '\u{205f}',
        '\u{3000}',
    ];
    for c in spaces {
        assert!(whitespace(c), "{:?}", c);
    }
    for c in ['a', '`', '{', '\u{8}', '\u{e}', '\u{200b}', '\u{180e}', '\u{feff}', '\u{0}'] {
        assert!(!whitespace(c), "{:?}", c);
    }
    for code in 0u32..=0x10ffff {
        if let Some(c) = char::from_u32(code) {
            assert_eq!(whitespace(c), c.is_whitespace(), "{:?}", c);
        }
    }
}

#[test]
fn stripping_agrees_with_the_standard_trimming() {
    let samples = [
        "```json\n{\"a\":1}\n```",
        " \u{2003}```json```json x ``` ``` ",
        "```json",
        "plain",
        "``````",
        "\t```json\u{a0}é\u{3000}```\r\n",
    ];
    for sample in samples {
        let expected = sample
            .trim()
            .trim_start_matches("```json")
            .trim_end_matches("```")
            .trim();
        assert_eq!(strip_code_fence(sample), expected, "{:?}", sample);
    }
}

#[test]
fn stripping_agrees_with_the_standard_trimming_on_every_short_text() {
    let tokens = ["```json", "```", " ", "\n", "{}", "x", "`", "\u{a0}json"];
    let mut texts: Vec<String> = vec![String::new()];
    let mut checked = 0;
    for _ in 0..5 {
        let mut longer = Vec::new();
        for text in &texts {
            for token in tokens {
                longer.push(format!("{}{}", text, token));
            }
        }
        for sample in &longer {
            let expected = sample
                .trim()
                .trim_start_matches("```json")
                .trim_end_matches("```")
                .trim();
            assert_eq!(strip_code_fence(sample), expected, "{:?}", sample);
            checked += 1;
        }
        texts = longer;
    }
    assert_eq!(checked, 8 + 64 + 512 + 4096 + 32768);
}

#[test]
fn characters_are_the_scalar_values_of_the_text() {
    assert_eq!(characters("aé\u{1F600}"), vec!['a', 'é', '\u{1F600}']);
    assert_eq!(characters(""), Vec::<char>::new());
}

#[test]
fn decimal_numerals_have_no_leading_zeros() {
    for (n, expected) in [
        (0u64, "0"),
        (7, "7"),
        (10, "10"),
        (401, "401"),
        (2210, "2210"),
        (4294967295, "4294967295"),
        (18446744073709551615, "18446744073709551615"),
    ] {
        let mut out = String::from("code ");
        push_decimal(&mut out, n);
        assert_eq!(out, format!("code {}", expected));
    }
}
