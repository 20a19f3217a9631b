use function_url_proxy::event::{build_event, InboundRequest, Timestamp};
use function_url_proxy::json::{find_member, text_list, text_object, JsonValue};
use function_url_proxy::text_map::TextMap;

fn to_value(document: &JsonValue) -> serde_json::Value {
    match document {
        JsonValue::Null => serde_json::Value::Null,
        JsonValue::OtherNumber => panic!("a document made here holds no such number"),
        JsonValue::Bool(b) => serde_json::Value::Bool(*b),
        JsonValue::Integer(i) => serde_json::Value::from(*i),
        JsonValue::Text(s) => serde_json::Value::String(s.clone()),
        JsonValue::List(items) => serde_json::Value::Array(items.iter().map(to_value).collect()),
        JsonValue::Object(members) => serde_json::Value::Object(
            members.iter().map(|(k, v)| (k.clone(), to_value(v))).collect(),
        ),
    }
}

fn text(s: &str) -> JsonValue {
    JsonValue::Text(s.to_string())
}

#[test]
fn find_member_takes_the_last_of_a_repeated_key() {
    let members = vec![
        ("a".to_string(), JsonValue::Integer(1)),
        ("b".to_string(), JsonValue::Null),
        ("a".to_string(), JsonValue::Integer(2)),
    ];
    assert_eq!(find_member(&members, "a"), Some(&JsonValue::Integer(2)));
    assert_eq!(find_member(&members, "b"), Some(&JsonValue::Null));
    assert_eq!(find_member(&members, "c"), None);
    assert_eq!(find_member(&Vec::new(), "a"), None);
}

#[test]
fn text_object_holds_each_pair() {
    let mut map = TextMap::new();
    map.insert("k".to_string(), "v".to_string());
    map.insert("j".to_string(), "w".to_string());
    assert_eq!(
        text_object(&map),
        JsonValue::Object(vec![("k".to_string(), text("v")), ("j".to_string(), text("w"))])
    );
    assert_eq!(text_object(&TextMap::new()), JsonValue::Object(Vec::new()));
}

#[test]
fn text_list_holds_each_text() {
    let texts = vec!["a".to_string(), "".to_string()];
    assert_eq!(text_list(&texts), JsonValue::List(vec![text("a"), text("")]));
}

#[test]
fn event_document_has_the_wire_schema() {
    let request = InboundRequest {
        method: "GET".to_string(),
        path: "/hello".to_string(),
        query: Some("x=1&x=2".to_string()),
        headers: vec![("host".to_string(), b"example.com".to_vec())],
        body: Vec::new(),
    };
    let now = Timestamp::from_millis(1_735_120_800_000).unwrap();
    let event = build_event(&request, &now).unwrap();
    let document = event.to_document();
    let keys: Vec<&str> = match &document {
        JsonValue::Object(members) => members.iter().map(|(k, _)| k.as_str()).collect(),
        _ => panic!("the event document is an object"),
    };
    assert_eq!(
        keys,
        vec![
            "version",
            "routeKey",
            "rawPath",
            "rawQueryString",
            "cookies",
            "headers",
            "queryStringParameters",
            "requestContext",
            "body",
            "isBase64Encoded"
        ]
    );
    let expected = concat_all(&[
        r#"{"body":"","cookies":["cookie1=value1","cookie2=value2"],"#,
        r#""headers":{"host":"example.com"},"isBase64Encoded":true,"#,
        r#""queryStringParameters":{"x":"2"},"rawPath":"/hello","rawQueryString":"x=1&x=2","#,
        r#""requestContext":{"accountId":"anonymous","apiId":"xxxxxxxxxx","#,
        r#""domainName":"xxxxxxxxxx.lambda-url.ap-northeast-1.on.aws","domainPrefix":"xxxxxxxxxx","#,
        r#""http":{"method":"GET","path":"/hello","protocol":"HTTP/1.1","sourceIp":"1.2.3.4","#,
        r#""userAgent":"curl/7.81.0"},"requestId":"xxxxxxxx-xxxx-xxxx-xxxx-xxxxxxxxxxxx","#,
        r#""routeKey":"$default","stage":"$default","time":"25/Dec/2024:10:00:00 +0000","#,
        r#""timeEpoch":1735120800000},"routeKey":"$default","version":"2.0"}"#,
    ]);
    let expected_value: serde_json::Value = serde_json::from_str(&expected).unwrap();
    assert_eq!(to_value(&document), expected_value);
}

fn concat_all(parts: &[&str]) -> String {
    parts.concat()
}

#[test]
fn context_document_members() {
    let request = InboundRequest {
        method: "DELETE".to_string(),
        path: "/x".to_string(),
        query: None,
        headers: Vec::new(),
        body: b"payload".to_vec(),
    };
    let now = Timestamp::from_millis(0).unwrap();
    let event = build_event(&request, &now).unwrap();
    let context = event.content().request_context.to_document();
    let members = match &context {
        JsonValue::Object(members) => members,
        _ => panic!("the context document is an object"),
    };
    assert_eq!(members.len(), 10);
    assert_eq!(find_member(members, "timeEpoch"), Some(&JsonValue::Integer(0)));
    assert_eq!(find_member(members, "time"), Some(&text("01/Jan/1970:00:00:00 +0000")));
    assert_eq!(find_member(members, "stage"), Some(&text("$default")));
    let http = event.content().request_context.http.to_document();
    assert_eq!(find_member(members, "http"), Some(&http));
    assert_eq!(
        http,
        JsonValue::Object(vec![
            ("method".to_string(), text("DELETE")),
            ("path".to_string(), text("/x")),
            ("protocol".to_string(), text("HTTP/1.1")),
            ("sourceIp".to_string(), text("1.2.3.4")),
            ("userAgent".to_string(), text("curl/7.81.0")),
        ])
    );
}
