use kuda::json::{find_member, same_text, string_literal, Member};
use kuda::params::{Headers, Request, Response};
use kuda::text::{push_decimal, strip_leading_slashes, strip_trailing_nul, to_upper, to_uppercase};

#[test]
fn strips_trailing_nul() {
    assert_eq!(strip_trailing_nul("abc\0\0"), "abc");
    assert_eq!(strip_trailing_nul("abc"), "abc");
    assert_eq!(strip_trailing_nul("\0abc"), "\0abc");
    assert_eq!(strip_trailing_nul("a\0c\0"), "a\0c");
    assert_eq!(strip_trailing_nul("\0\0\0"), "");
    assert_eq!(strip_trailing_nul(""), "");
    assert_eq!(strip_trailing_nul("é\0"), "é");
    assert_eq!(strip_trailing_nul("é"), "é");
}

#[test]
fn strips_leading_slashes() {
    assert_eq!(strip_leading_slashes("/v1"), "v1");
    assert_eq!(strip_leading_slashes("//v1/"), "v1/");
    assert_eq!(strip_leading_slashes("v1"), "v1");
    assert_eq!(strip_leading_slashes("/"), "");
    assert_eq!(strip_leading_slashes(""), "");
    assert_eq!(strip_leading_slashes("/é/"), "é/");
}

#[test]
fn capitals() {
    assert_eq!(to_upper('a'), 'A');
    assert_eq!(to_upper('z'), 'Z');
    assert_eq!(to_upper('A'), 'A');
    assert_eq!(to_upper('0'), '0');
    assert_eq!(to_upper('-'), '-');
    assert_eq!(to_upper('`'), '`');
    assert_eq!(to_upper('{'), '{');
    assert_eq!(to_upper('é'), 'é');
    assert_eq!(to_uppercase("9m4e2mr0ui3e8a215n4g"), "9M4E2MR0UI3E8A215N4G");
    assert_eq!(to_uppercase(""), "");
    assert_eq!(to_uppercase("aZ_-é"), "AZ_-é");
}

#[test]
fn decimals() {
    for (n, text) in [(0u64, "0"), (7, "7"), (10, "10"), (400, "400"), (65535, "65535"), (u64::MAX, "18446744073709551615")] {
        let mut line = String::from("<");
        push_decimal(&mut line, n);
        assert_eq!(line, format!("<{}", text));
    }
}

#[test]
fn json_literals() {
    assert_eq!(string_literal("BANK_LIST").unwrap(), "\"BANK_LIST\"");
    assert_eq!(string_literal("").unwrap(), "\"\"");
    assert_eq!(string_literal("a\"b\\c\n").unwrap(), "\"a\\\"b\\\\c\\n\"");
    assert_eq!(string_literal("é").unwrap(), "\"é\"");
}

#[test]
fn texts_are_compared_by_their_characters() {
    assert!(same_text("data", "data"));
    assert!(same_text("", ""));
    assert!(!same_text("data", "Data"));
    assert!(!same_text("data", "dat"));
    assert!(!same_text("", "a"));
}

#[test]
fn finds_the_first_member_of_a_name() {
    let member = |name: &str, json: &str| Member {
        name: name.to_string(),
        text: None,
        json: json.to_string(),
    };
    let members = vec![member("a", "1"), member("b", "2"), member("a", "3")];
    assert_eq!(find_member(&members, "a"), Some(&members[0]));
    assert_eq!(find_member(&members, "b"), Some(&members[1]));
    assert_eq!(find_member(&members, "c"), None);
    assert_eq!(find_member(&Vec::new(), "a"), None);
}

#[test]
fn a_request_with_a_payload() {
    let request = Request {
        service_type: "BANK_LIST".to_string(),
        request_ref: "SP-ABC123".to_string(),
        data: Some("null".to_string()),
    };
    assert_eq!(
        request.to_json().unwrap(),
        "{\"serviceType\":\"BANK_LIST\",\"requestRef\":\"SP-ABC123\",\"data\":null}"
    );
}

#[test]
fn a_request_without_payload_has_no_data() {
    let request: Request<String> = Request {
        service_type: "BANK_LIST".to_string(),
        request_ref: "SP-ABC123".to_string(),
        data: None,
    };
    assert_eq!(
        request.to_json().unwrap(),
        "{\"serviceType\":\"BANK_LIST\",\"requestRef\":\"SP-ABC123\"}"
    );
}

#[test]
fn the_texts_of_a_request_are_escaped() {
    let request = Request {
        service_type: "A\"B".to_string(),
        request_ref: "C\\D".to_string(),
        data: Some("{\"x\":1}".to_string()),
    };
    assert_eq!(
        request.to_json().unwrap(),
        "{\"serviceType\":\"A\\\"B\",\"requestRef\":\"C\\\\D\",\"data\":{\"x\":1}}"
    );
}

#[test]
fn wrappers_start_empty() {
    let request: Request<String> = Request::default();
    assert_eq!(request.service_type, "");
    assert_eq!(request.request_ref, "");
    assert_eq!(request.data, None);
    let response: Response<String> = Response::default();
    assert_eq!(response.request_reference, None);
    assert!(!response.status);
    assert_eq!(response.message, "");
    assert_eq!(response.data, None);
    assert_eq!(Headers::default(), Headers {});
}
