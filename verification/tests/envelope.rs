use opa_client::envelope::{encode, validate};
use opa_client::{OpaError, Output};

fn result_of(body: &str) -> String {
    match Output::decode(body.as_bytes()) {
        Ok(Output::Result { result }) => result,
        other => panic!("no result in {:?}", other),
    }
}

fn is_empty(body: &str) -> bool {
    matches!(Output::decode(body.as_bytes()), Ok(Output::Empty {}))
}

fn is_rejected(body: &[u8]) -> bool {
    matches!(Output::decode(body), Err(OpaError::Serde(_)))
}

#[test]
fn encode_wraps_the_input() {
    assert_eq!(encode("{\"user\":\"alice\"}").unwrap(), "{\"input\":{\"user\":\"alice\"}}");
    assert_eq!(encode("true").unwrap(), "{\"input\":true}");
    assert_eq!(encode("null").unwrap(), "{\"input\":null}");
    assert_eq!(encode("[1, 2]").unwrap(), "{\"input\":[1, 2]}");
    assert_eq!(encode("\"\u{e9}\"").unwrap(), "{\"input\":\"\u{e9}\"}");
}

#[test]
fn encode_agrees_with_the_serializer() {
    let mut object = serde_json::Map::new();
    object.insert("user".to_owned(), serde_json::Value::String("alice".to_owned()));
    let input = serde_json::Value::Object(object);
    let mut wrapped = serde_json::Map::new();
    wrapped.insert("input".to_owned(), input.clone());
    assert_eq!(
        encode(&serde_json::to_string(&input).unwrap()).unwrap(),
        serde_json::to_string(&serde_json::Value::Object(wrapped)).unwrap()
    );
}

#[test]
fn encode_rejects_what_is_no_json() {
    assert!(matches!(encode(""), Err(OpaError::Serde(_))));
    assert!(matches!(encode("{"), Err(OpaError::Serde(_))));
    assert!(matches!(encode("alice"), Err(OpaError::Serde(_))));
    assert!(matches!(encode("1 2"), Err(OpaError::Serde(_))));
    assert!(matches!(encode("},\"x\":{"), Err(OpaError::Serde(_))));
}

#[test]
fn validate_accepts_one_json_value() {
    assert!(validate("{}").is_ok());
    assert!(validate(" [1, {\"a\": null}] ").is_ok());
    assert!(validate("\"text\"").is_ok());
    assert!(validate("-1.5e3").is_ok());
    assert!(matches!(validate("[1,]"), Err(OpaError::Serde(_))));
    assert!(matches!(validate("{\"a\"}"), Err(OpaError::Serde(_))));
}

#[test]
fn decode_reads_the_result() {
    assert_eq!(result_of("{\"result\":true}"), "true");
    assert_eq!(result_of("{\"result\": false}"), "false");
    assert_eq!(result_of("{\"result\":null}"), "null");
    assert_eq!(result_of("{\"result\":\"text\"}"), "\"text\"");
    assert_eq!(result_of(" { \"result\" : {\"a\": [1, 2]} } "), "{\"a\": [1, 2]}");
}

#[test]
fn decode_finds_the_result_among_other_members() {
    assert_eq!(result_of("{\"decision_id\":\"x\",\"result\":1}"), "1");
    assert_eq!(result_of("{\"result\":1,\"warning\":{}}"), "1");
    assert_eq!(result_of("{\"a\":{\"result\":2},\"result\":1,\"z\":0}"), "1");
}

#[test]
fn decode_tells_the_empty_answer() {
    assert!(is_empty("{}"));
    assert!(is_empty(" { } "));
    assert!(is_empty("{\"decision_id\":\"x\"}"));
    assert!(is_empty("{\"Result\":true}"));
    assert!(is_empty("{\"results\":true}"));
    assert!(is_empty("{\"a\":{\"result\":true}}"));
}

#[test]
fn decode_rejects_what_is_no_object() {
    assert!(is_rejected(b""));
    assert!(is_rejected(b"permission denied"));
    assert!(is_rejected(b"[]"));
    assert!(is_rejected(b"[true]"));
    assert!(is_rejected(b"null"));
    assert!(is_rejected(b"true"));
    assert!(is_rejected(b"\"result\""));
    assert!(is_rejected(b"{\"result\":true"));
    assert!(is_rejected(b"{\"result\":}"));
    assert!(is_rejected(b"{\"result\":true} {}"));
    assert!(is_rejected(&[0x7b, 0x22, 0xff, 0x22, 0x3a, 0x31, 0x7d]));
}

#[test]
fn from_members_takes_the_result() {
    let pair = |key: &str, value: &str| (key.to_owned(), value.to_owned());
    assert!(matches!(Output::from_members(&vec![]), Output::Empty {}));
    assert!(matches!(Output::from_members(&vec![pair("a", "1")]), Output::Empty {}));
    match Output::from_members(&vec![pair("a", "1"), pair("result", "2"), pair("z", "3")]) {
        Output::Result { result } => assert_eq!(result, "2"),
        Output::Empty {} => panic!("result overlooked"),
    }
    match Output::from_members(&vec![pair("result", "2"), pair("result", "3")]) {
        Output::Result { result } => assert_eq!(result, "2"),
        Output::Empty {} => panic!("result overlooked"),
    }
}

#[test]
fn what_is_sent_as_result_comes_back() {
    for value in ["true", "{\"user\":\"alice\"}", "[1,2,3]", "\"a\\\"b\"", "1e3", "null"] {
        let sent = encode(value).unwrap();
        assert_eq!(sent, format!("{{\"input\":{}}}", value));
        let answer = format!("{{\"result\":{}}}", value);
        assert_eq!(result_of(&answer), value);
    }
}

#[test]
fn or_not_found_names_the_route() {
    let empty: Output<String> = Output::Empty {};
    match empty.or_not_found("No Policy found for ", "a/b") {
        Err(OpaError::NotFound(message)) => assert_eq!(message, "No Policy found for a/b"),
        other => panic!("{:?}", other),
    }
    let full = Output::Result { result: 7u8 };
    assert!(matches!(full.or_not_found("No Policy found for ", "a/b"), Ok(7)));
}
