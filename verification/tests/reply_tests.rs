use function_url_proxy::error::{ProxyError, ERROR_STATUS};
use function_url_proxy::json::JsonValue;
use function_url_proxy::reply::{
    assemble_response, check_headers, check_status, error_response, into_response,
    reconstruct_response, respond_to_document, resolve_outcome, BackendOutcome, BackendReply,
};
use function_url_proxy::text_map::TextMap;

fn headers(pairs: &[(&str, &str)]) -> TextMap {
    TextMap::from_pairs(pairs.iter().map(|(k, v)| (k.to_string(), v.to_string())).collect())
}

fn to_document(value: &serde_json::Value) -> JsonValue {
    match value {
        serde_json::Value::Null => JsonValue::Null,
        serde_json::Value::Bool(b) => JsonValue::Bool(*b),
        serde_json::Value::Number(n) => match n.as_i64() {
            Some(i) => JsonValue::Integer(i),
            None => JsonValue::OtherNumber,
        },
        serde_json::Value::String(s) => JsonValue::Text(s.clone()),
        serde_json::Value::Array(items) => JsonValue::List(items.iter().map(to_document).collect()),
        serde_json::Value::Object(members) => JsonValue::Object(
            members.iter().map(|(k, v)| (k.clone(), to_document(v))).collect(),
        ),
    }
}

fn parse(text: &str) -> Option<JsonValue> {
    serde_json::from_str::<serde_json::Value>(text).ok().map(|v| to_document(&v))
}

fn answered(status: u16, text: &str) -> BackendOutcome {
    BackendOutcome::Answered { status, document: parse(text) }
}

fn read(text: &str) -> Result<BackendReply, ProxyError> {
    BackendReply::from_document(&parse(text).unwrap())
}

fn reply(status: i64, hs: &[(&str, &str)], body: &str, flag: Option<bool>) -> BackendReply {
    BackendReply {
        status_code: status,
        headers: headers(hs),
        body: body.to_string(),
        is_base64_encoded: flag,
    }
}

const ALL_ERRORS: [ProxyError; 7] = [
    ProxyError::InvalidHeaderEncoding,
    ProxyError::BackendUnreachable,
    ProxyError::BackendError,
    ProxyError::MalformedBackendReply,
    ProxyError::InvalidBodyEncoding,
    ProxyError::InvalidResponseHeader,
    ProxyError::InvalidStatusCode,
];

#[test]
fn not_found_reply_is_forwarded() {
    let r = reply(404, &[("Content-Type", "text/plain")], "not found", Some(false));
    let response = reconstruct_response(r).unwrap();
    assert_eq!(response.status, 404);
    assert_eq!(
        response.headers.entries(),
        &vec![("Content-Type".to_string(), "text/plain".to_string())]
    );
    assert_eq!(response.body, b"not found".to_vec());
}

#[test]
fn not_found_reply_through_the_outcome() {
    let outcome = answered(
        200,
        r#"{"statusCode":404,"headers":{"Content-Type":"text/plain"},"body":"not found","isBase64Encoded":false}"#,
    );
    let response = into_response(resolve_outcome(&outcome));
    assert_eq!(response.status, 404);
    assert_eq!(
        response.headers.entries(),
        &vec![("Content-Type".to_string(), "text/plain".to_string())]
    );
    assert_eq!(response.body, b"not found".to_vec());
}

#[test]
fn unreachable_backend_gives_a_generic_500() {
    let made = resolve_outcome(&BackendOutcome::Unreachable);
    assert_eq!(made.as_ref().err(), Some(&ProxyError::BackendUnreachable));
    let response = into_response(made);
    assert_eq!(response.status, 500);
    assert_eq!(response.headers.len(), 0);
    assert_eq!(response.body, b"Error reaching backend.".to_vec());
}

#[test]
fn backend_503_is_not_forwarded() {
    let outcome = answered(
        503,
        r#"{"statusCode":503,"headers":{"x-internal":"secret"},"body":"stack trace"}"#,
    );
    let made = resolve_outcome(&outcome);
    assert_eq!(made.as_ref().err(), Some(&ProxyError::BackendError));
    let response = into_response(made);
    assert_eq!(response.status, 500);
    assert_eq!(response.headers.len(), 0);
    assert_eq!(response.body, b"Error calling backend.".to_vec());
}

#[test]
fn server_error_range_of_the_backend_status() {
    for status in [500u16, 502, 599] {
        let outcome = answered(status, r#"{"statusCode":200,"headers":{},"body":""}"#);
        assert_eq!(resolve_outcome(&outcome).err(), Some(ProxyError::BackendError));
    }
    for status in [200u16, 404, 499, 600] {
        let outcome = answered(status, r#"{"statusCode":201,"headers":{},"body":"x"}"#);
        let response = resolve_outcome(&outcome).unwrap();
        assert_eq!(response.status, 201);
        assert_eq!(response.body, b"x".to_vec());
    }
}

#[test]
fn reply_status_of_the_500_class_is_forwarded_when_the_backend_answered_well() {
    let outcome = answered(200, r#"{"statusCode":503,"headers":{},"body":"busy"}"#);
    let response = resolve_outcome(&outcome).unwrap();
    assert_eq!(response.status, 503);
    assert_eq!(response.body, b"busy".to_vec());
}

#[test]
fn answer_that_is_no_json_is_malformed() {
    let outcome = answered(200, "<html>oops</html>");
    let made = resolve_outcome(&outcome);
    assert_eq!(made.as_ref().err(), Some(&ProxyError::MalformedBackendReply));
    let response = into_response(made);
    assert_eq!(response.status, 500);
    assert_eq!(response.body, b"Error reading backend reply.".to_vec());
}

#[test]
fn reply_document_is_read() {
    let reply = read(
        r#"{"statusCode":200,"headers":{"a":"1","b":"2"},"body":"aGk=","isBase64Encoded":true,"extra":[1,2]}"#,
    )
    .unwrap();
    assert_eq!(reply.status_code, 200);
    assert_eq!(reply.headers.len(), 2);
    assert_eq!(reply.headers.get(&"a".to_string()), Some(&"1".to_string()));
    assert_eq!(reply.headers.get(&"b".to_string()), Some(&"2".to_string()));
    assert_eq!(reply.body, "aGk=");
    assert_eq!(reply.is_base64_encoded, Some(true));
    assert_eq!(reply.body(), Ok(b"hi".to_vec()));
}

#[test]
fn reply_flag_may_be_absent_or_null() {
    let absent = read(r#"{"statusCode":200,"headers":{},"body":"aGk="}"#).unwrap();
    assert_eq!(absent.is_base64_encoded, None);
    assert_eq!(absent.body(), Ok(b"aGk=".to_vec()));
    let null = read(r#"{"statusCode":200,"headers":{},"body":"","isBase64Encoded":null}"#).unwrap();
    assert_eq!(null.is_base64_encoded, None);
}

#[test]
fn reply_document_with_missing_members_is_malformed() {
    for text in [
        r#"{"headers":{},"body":""}"#,
        r#"{"statusCode":200,"body":""}"#,
        r#"{"statusCode":200,"headers":{}}"#,
        r#"{}"#,
    ] {
        assert_eq!(read(text).err(), Some(ProxyError::MalformedBackendReply));
    }
}

#[test]
fn reply_document_with_wrong_types_is_malformed() {
    for text in [
        r#"{"statusCode":"200","headers":{},"body":""}"#,
        r#"{"statusCode":200.5,"headers":{},"body":""}"#,
        r#"{"statusCode":null,"headers":{},"body":""}"#,
        r#"{"statusCode":200,"headers":[],"body":""}"#,
        r#"{"statusCode":200,"headers":{"a":1},"body":""}"#,
        r#"{"statusCode":200,"headers":{"a":"1","b":null},"body":""}"#,
        r#"{"statusCode":200,"headers":{},"body":5}"#,
        r#"{"statusCode":200,"headers":{},"body":null}"#,
        r#"{"statusCode":200,"headers":{},"body":"","isBase64Encoded":"yes"}"#,
        r#"{"statusCode":200,"headers":{},"body":"","isBase64Encoded":1}"#,
        r#"[200,{},""]"#,
        r#""text""#,
        r#"null"#,
    ] {
        assert_eq!(read(text).err(), Some(ProxyError::MalformedBackendReply));
        let outcome = answered(200, text);
        assert_eq!(resolve_outcome(&outcome).err(), Some(ProxyError::MalformedBackendReply));
    }
}

#[test]
fn reply_document_where_a_key_is_written_twice() {
    let document = JsonValue::Object(vec![
        ("statusCode".to_string(), JsonValue::Text("first".to_string())),
        ("headers".to_string(), JsonValue::Object(Vec::new())),
        ("body".to_string(), JsonValue::Text("b".to_string())),
        ("statusCode".to_string(), JsonValue::Integer(202)),
    ]);
    let reply = BackendReply::from_document(&document).unwrap();
    assert_eq!(reply.status_code, 202);
    let response = respond_to_document(&document).unwrap();
    assert_eq!(response.status, 202);
    assert_eq!(response.body, b"b".to_vec());
}

#[test]
fn reply_status_beyond_the_range_is_an_invalid_status() {
    for text in [
        r#"{"statusCode":70000,"headers":{},"body":""}"#,
        r#"{"statusCode":-1,"headers":{},"body":""}"#,
        r#"{"statusCode":99,"headers":{},"body":""}"#,
        r#"{"statusCode":600,"headers":{},"body":""}"#,
    ] {
        let document = parse(text).unwrap();
        assert_eq!(respond_to_document(&document).err(), Some(ProxyError::InvalidStatusCode));
    }
    let huge = parse(r#"{"statusCode":18446744073709551615,"headers":{},"body":""}"#).unwrap();
    assert_eq!(respond_to_document(&huge).err(), Some(ProxyError::MalformedBackendReply));
}

#[test]
fn base64_body_is_decoded() {
    let r = reply(200, &[], "aGVsbG8=", Some(true));
    assert_eq!(r.body(), Ok(b"hello".to_vec()));
    assert_eq!(reconstruct_response(r).unwrap().body, b"hello".to_vec());
}

#[test]
fn base64_body_with_binary_content() {
    let r = reply(200, &[], "AP+ACg0AAQID/g==", Some(true));
    assert_eq!(r.body(), Ok(vec![0, 255, 128, 10, 13, 0, 1, 2, 3, 254]));
}

#[test]
fn plain_body_is_its_utf8_bytes() {
    let r = reply(200, &[], "aGVsbG8=", Some(false));
    assert_eq!(r.body(), Ok(b"aGVsbG8=".to_vec()));
    let r = reply(200, &[], "gr\u{fc}n", None);
    assert_eq!(r.body(), Ok(vec![0x67, 0x72, 0xc3, 0xbc, 0x6e]));
    let r = reply(200, &[], "", None);
    assert_eq!(r.body(), Ok(Vec::new()));
}

#[test]
fn invalid_base64_body_is_refused() {
    let r = reply(200, &[], "not base64!", Some(true));
    assert_eq!(r.body(), Err(ProxyError::InvalidBodyEncoding));
    assert_eq!(reconstruct_response(r).err(), Some(ProxyError::InvalidBodyEncoding));
    let unpadded = reply(200, &[], "aGVsbG8", Some(true));
    assert_eq!(unpadded.body(), Err(ProxyError::InvalidBodyEncoding));
}

#[test]
fn status_range() {
    assert_eq!(check_status(100), Ok(100));
    assert_eq!(check_status(200), Ok(200));
    assert_eq!(check_status(599), Ok(599));
    assert_eq!(check_status(99), Err(ProxyError::InvalidStatusCode));
    assert_eq!(check_status(600), Err(ProxyError::InvalidStatusCode));
    assert_eq!(check_status(0), Err(ProxyError::InvalidStatusCode));
    assert_eq!(check_status(999), Err(ProxyError::InvalidStatusCode));
    assert_eq!(check_status(65535), Err(ProxyError::InvalidStatusCode));
    assert_eq!(check_status(-200), Err(ProxyError::InvalidStatusCode));
    assert_eq!(check_status(65536 + 200), Err(ProxyError::InvalidStatusCode));
    assert_eq!(check_status(i64::MAX), Err(ProxyError::InvalidStatusCode));
    assert_eq!(check_status(i64::MIN), Err(ProxyError::InvalidStatusCode));
}

#[test]
fn reply_status_is_the_response_status() {
    for status in [100i64, 204, 301, 418, 599] {
        let response = reconstruct_response(reply(status, &[], "", None)).unwrap();
        assert_eq!(i64::from(response.status), status);
    }
    for status in [0i64, 99, 600, 1000, -100, 65536 + 404] {
        let made = reconstruct_response(reply(status, &[], "", None));
        assert_eq!(made.err(), Some(ProxyError::InvalidStatusCode));
    }
}

#[test]
fn header_names_are_checked() {
    assert_eq!(check_headers(&headers(&[("X-Custom_1", "v"), ("a!#$%&'*+-.^_`|~", "v")])), Ok(()));
    for name in ["", "bad name", "a:b", "caf\u{e9}", "a\"b", "a(b)", "x\n"] {
        assert_eq!(
            check_headers(&headers(&[("ok", "v"), (name, "v")])),
            Err(ProxyError::InvalidResponseHeader)
        );
    }
}

#[test]
fn header_name_length_limit() {
    let longest = "a".repeat(65535);
    assert_eq!(check_headers(&headers(&[(longest.as_str(), "v")])), Ok(()));
    let too_long = "a".repeat(65536);
    assert_eq!(
        check_headers(&headers(&[(too_long.as_str(), "v")])),
        Err(ProxyError::InvalidResponseHeader)
    );
    let long_bad = format!("{}{}", "a".repeat(100), " ");
    assert_eq!(
        check_headers(&headers(&[(long_bad.as_str(), "v")])),
        Err(ProxyError::InvalidResponseHeader)
    );
}

#[test]
fn header_values_are_checked() {
    assert_eq!(check_headers(&headers(&[("a", ""), ("b", "x\ty z"), ("c", "caf\u{e9}")])), Ok(()));
    for value in ["a\nb", "a\rb", "\u{7f}", "\u{0}", "x\u{1f}"] {
        assert_eq!(
            check_headers(&headers(&[("ok", "v"), ("name", value)])),
            Err(ProxyError::InvalidResponseHeader)
        );
    }
}

#[test]
fn malformed_header_fails_the_whole_response() {
    let r = reply(200, &[("good", "1"), ("bad name", "2")], "body", None);
    assert_eq!(reconstruct_response(r).err(), Some(ProxyError::InvalidResponseHeader));
}

#[test]
fn failures_are_reported_body_first_then_status_then_headers() {
    let r = reply(99, &[("bad name", "2")], "!!", Some(true));
    assert_eq!(reconstruct_response(r).err(), Some(ProxyError::InvalidBodyEncoding));
    let r = reply(99, &[("bad name", "2")], "", Some(true));
    assert_eq!(reconstruct_response(r).err(), Some(ProxyError::InvalidStatusCode));
    let r = reply(200, &[("bad name", "2")], "", Some(true));
    assert_eq!(reconstruct_response(r).err(), Some(ProxyError::InvalidResponseHeader));
}

#[test]
fn assemble_passes_the_body_failure_on() {
    let made = assemble_response(200, headers(&[]), Err(ProxyError::InvalidBodyEncoding));
    assert_eq!(made.err(), Some(ProxyError::InvalidBodyEncoding));
    let made = assemble_response(201, headers(&[("a", "b")]), Ok(vec![1, 2, 3])).unwrap();
    assert_eq!(made.status, 201);
    assert_eq!(made.body, vec![1, 2, 3]);
    assert_eq!(made.headers.get(&"a".to_string()), Some(&"b".to_string()));
}

#[test]
fn every_failure_is_answered_with_500_and_its_message() {
    for error in ALL_ERRORS {
        let response = error_response(error);
        assert_eq!(response.status, 500);
        assert_eq!(error.status(), ERROR_STATUS);
        assert_eq!(response.headers.len(), 0);
        assert_eq!(response.body, error.message().as_bytes().to_vec());
        assert!(!error.message().is_empty());
    }
}

#[test]
fn failure_messages() {
    assert_eq!(ProxyError::InvalidHeaderEncoding.message(), "Error reading request headers.");
    assert_eq!(ProxyError::BackendUnreachable.message(), "Error reaching backend.");
    assert_eq!(ProxyError::BackendError.message(), "Error calling backend.");
    assert_eq!(ProxyError::MalformedBackendReply.message(), "Error reading backend reply.");
    assert_eq!(ProxyError::InvalidBodyEncoding.message(), "Error decoding backend reply body.");
    assert_eq!(
        ProxyError::InvalidResponseHeader.message(),
        "Error applying backend reply headers."
    );
    assert_eq!(ProxyError::InvalidStatusCode.message(), "Error applying backend reply status.");
}
