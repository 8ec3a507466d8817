use rustio_admin::json_response::build_response;

const VERSION: &str = "0.1.0";

#[test]
fn ok_response_is_200_with_db_up() {
    let resp = build_response(true, VERSION);
    assert_eq!(resp.status, 200);
    let body = resp.body.as_str();
    let v: serde_json::Value = serde_json::from_str(body).expect("valid json");
    assert_eq!(v["ok"], true);
    assert_eq!(v["db"], "up");
    assert!(
        v["version"].as_str().is_some_and(|s| !s.is_empty()),
        "version field missing or empty: {body}",
    );
}

#[test]
fn down_response_is_503_with_db_down() {
    let resp = build_response(false, VERSION);
    assert_eq!(resp.status, 503);
    let v: serde_json::Value = serde_json::from_str(&resp.body).expect("valid json");
    assert_eq!(v["ok"], false);
    assert_eq!(v["db"], "down");
}

#[test]
fn response_headers_carry_json_and_no_store() {
    let resp = build_response(true, VERSION);
    let get = |name: &str| {
        resp.headers
            .iter()
            .find(|(k, _)| k.eq_ignore_ascii_case(name))
            .map(|(_, v)| *v)
            .unwrap_or("")
    };
    assert_eq!(get("content-type"), "application/json");
    assert_eq!(get("cache-control"), "no-store");
}

#[test]
fn healthz_body_is_serde_json_text() {
    assert_eq!(build_response(true, "1.2.3").body, r#"{"db":"up","ok":true,"version":"1.2.3"}"#);
    assert_eq!(build_response(false, "x\"y").body, r#"{"db":"down","ok":false,"version":"x\"y"}"#);
}
