use fortitui::fortigate::client::{
    base_url, endpoint_url, parse_response, query_url, response_from_parsed,
};
use fortitui::json::JsonValue;

fn get<'a>(v: &'a JsonValue, key: &str) -> Option<&'a JsonValue> {
    match v {
        JsonValue::Object(m) => m.iter().find(|(k, _)| k == key).map(|(_, x)| x),
        _ => None,
    }
}

fn number_text(v: &JsonValue) -> Option<String> {
    match v {
        JsonValue::Number(n) => Some(n.text.clone()),
        _ => None,
    }
}

#[test]
fn empty_200_body_is_null() {
    let v = parse_response(200, "  ", "https://fg/api/v2/monitor/x").unwrap();
    assert_eq!(v, JsonValue::Null);
}

#[test]
fn valid_200_json_is_parsed() {
    let v = parse_response(200, r#"{"results":[1,2],"status":"success"}"#, "/x").unwrap();
    let results = get(&v, "results").unwrap();
    match results {
        JsonValue::Array(a) => assert_eq!(number_text(&a[1]).as_deref(), Some("2")),
        other => panic!("not an array: {other:?}"),
    }
}

#[test]
fn invalid_200_json_is_an_error() {
    let r = parse_response(200, "not json {{{", "/x");
    assert!(r.is_err());
    assert!(r.unwrap_err().contains("invalid JSON"));
}

#[test]
fn non_json_error_body_surfaces_status_and_snippet() {
    let err = parse_response(500, "<html>oops</html>", "/bgp").unwrap_err();
    let msg = err;
    assert!(msg.contains("HTTP 500"), "msg: {msg}");
    assert!(msg.contains("<html>oops</html>"), "msg: {msg}");
}

#[test]
fn json_error_surfaces_status_and_http_status() {
    let err = parse_response(
        424,
        r#"{"status":"error","http_status":424,"error":"need count"}"#,
        "/sessions",
    )
    .unwrap_err();
    let msg = err;
    assert!(msg.contains("HTTP 424"), "msg: {msg}");
    assert!(msg.contains("need count"), "msg: {msg}");
    assert!(msg.contains("[424]"), "msg: {msg}");
}

#[test]
fn empty_error_body_has_no_snippet() {
    let err = parse_response(502, "", "/x").unwrap_err();
    assert_eq!(err, "FortiGate returned HTTP 502 (request failed) for /x");
}

#[test]
fn success_status_range_is_exactly_2xx() {
    assert!(parse_response(299, "", "/x").is_ok());
    assert!(parse_response(199, "", "/x").is_err());
    assert!(parse_response(300, "", "/x").is_err());
}

#[test]
fn white_space_only_success_body_is_null() {
    assert_eq!(parse_response(204, "\n\t ", "/x").unwrap(), JsonValue::Null);
}

#[test]
fn invalid_json_error_names_the_url() {
    let e = parse_response(200, "{", "https://fg/api/v2/monitor/y").unwrap_err();
    assert!(e.starts_with("invalid JSON from https://fg/api/v2/monitor/y: "), "{e}");
}

#[test]
fn base_url_has_host_and_port() {
    assert_eq!(base_url("10.0.0.1", 8443), "https://10.0.0.1:8443/api/v2/monitor");
    assert_eq!(base_url("fg", 443), "https://fg:443/api/v2/monitor");
}

#[test]
fn endpoint_url_appends_path() {
    assert_eq!(
        endpoint_url("https://fg:443/api/v2/monitor", "/system/status"),
        "https://fg:443/api/v2/monitor/system/status"
    );
}

#[test]
fn query_url_without_params_is_plain() {
    let u = query_url("https://fg:443/api/v2/monitor", "/router/lookup", &[]).unwrap();
    assert_eq!(u, "https://fg:443/api/v2/monitor/router/lookup");
}

#[test]
fn query_url_encodes_params() {
    let u = query_url("https://fg:8443/api/v2/monitor", "/router/lookup", &[("destination", "10.0.0.1"), ("q", "a b")]).unwrap();
    assert_eq!(u, "https://fg:8443/api/v2/monitor/router/lookup?destination=10.0.0.1&q=a+b");
}

fn number(text: &str, n: u64) -> JsonValue {
    JsonValue::Number(fortitui::json::JsonNumber {
        text: text.into(),
        as_u64: Some(n),
        as_i64: Some(n as i64),
        f64_as_u64: n,
    })
}

#[test]
fn error_text_from_a_given_parse() {
    let body = JsonValue::Object(vec![
        ("status".into(), JsonValue::Str("error".into())),
        ("message".into(), JsonValue::Str("bad request".into())),
        ("http_status".into(), number("400", 400)),
    ]);
    let e = response_from_parsed(400, "{...}", "/x", Ok(body)).unwrap_err();
    assert_eq!(e, "FortiGate returned HTTP 400 (bad request) for /x [400]");
    let long = "x".repeat(130);
    let e = response_from_parsed(503, &long, "/y", Err("expected value".into())).unwrap_err();
    assert_eq!(e, format!("FortiGate returned HTTP 503 (request failed) for /y [{}]", "x".repeat(120)));
    let e = response_from_parsed(200, "zz", "/z", Err("expected value".into())).unwrap_err();
    assert_eq!(e, "invalid JSON from /z: expected value");
    assert_eq!(response_from_parsed(201, " ", "/z", Err("unused".into())).unwrap(), JsonValue::Null);
    let status_only = JsonValue::Object(vec![("status".into(), JsonValue::Str("error".into()))]);
    let e = response_from_parsed(404, "{}", "/w", Ok(status_only)).unwrap_err();
    assert_eq!(e, "FortiGate returned HTTP 404 (error) for /w [{}]");
}

#[test]
fn integer_http_status_is_shown_as_its_digits() {
    let body = JsonValue::Object(vec![
        ("error".into(), JsonValue::Str("need count".into())),
        ("http_status".into(), number("424", 424)),
    ]);
    let e = response_from_parsed(424, "{..}", "/sessions", Ok(body)).unwrap_err();
    assert_eq!(e, "FortiGate returned HTTP 424 (need count) for /sessions [424]");
}
