use tts_bridge::blob::SharedBlob;
use tts_bridge::http::{handle, respond, route, Header, Response, Route};

fn header(name: &str, value: &str) -> Header {
    Header { name: name.to_string(), value: value.to_string() }
}

fn cors() -> Vec<Header> {
    vec![
        header("Access-Control-Allow-Origin", "*"),
        header("Access-Control-Allow-Methods", "GET, POST, OPTIONS"),
        header("Access-Control-Allow-Headers", "Content-Type"),
    ]
}

fn json_cors() -> Vec<Header> {
    let mut headers = vec![header("Content-Type", "application/json")];
    headers.extend(cors());
    headers
}

fn has(response: &Response, name: &str, value: &str) -> bool {
    response.headers.iter().any(|h| h.name == name && h.value == value)
}

#[test]
fn routes_of_the_bridge() {
    assert_eq!(route("POST", "/api/save"), Route::Save);
    assert_eq!(route("GET", "/api/get"), Route::Fetch);
    assert_eq!(route("OPTIONS", "/api/save"), Route::Preflight);
    assert_eq!(route("OPTIONS", "/api/get"), Route::Preflight);
    assert_eq!(route("OPTIONS", "/anything/else"), Route::Preflight);
    assert_eq!(route("OPTIONS", "*"), Route::Preflight);
    assert_eq!(route("OPTIONS", ""), Route::Preflight);
}

#[test]
fn everything_else_is_not_found() {
    assert_eq!(route("GET", "/api/save"), Route::NotFound);
    assert_eq!(route("POST", "/api/get"), Route::NotFound);
    assert_eq!(route("GET", "/"), Route::NotFound);
    assert_eq!(route("GET", "/api/get/"), Route::NotFound);
    assert_eq!(route("GET", "/api/get?x=1"), Route::NotFound);
    assert_eq!(route("GET", "/API/GET"), Route::NotFound);
    assert_eq!(route("get", "/api/get"), Route::NotFound);
    assert_eq!(route("post", "/api/save"), Route::NotFound);
    assert_eq!(route("options", "/api/save"), Route::NotFound);
    assert_eq!(route("PUT", "/api/save"), Route::NotFound);
    assert_eq!(route("DELETE", "/api/get"), Route::NotFound);
    assert_eq!(route("HEAD", "/api/get"), Route::NotFound);
    assert_eq!(route("", ""), Route::NotFound);
    assert_eq!(route("POST", "/api/sav"), Route::NotFound);
    assert_eq!(route("POST", "/api/savf"), Route::NotFound);
}

#[test]
fn save_stores_the_body_and_confirms() {
    let mut blob = SharedBlob::new();
    let response = handle(&mut blob, "POST", "/api/save", b"hello world");
    assert_eq!(response.status, 200);
    assert_eq!(response.body, "{\"status\":\"saved\"}");
    assert_eq!(response.headers, json_cors());
    assert_eq!(blob.get(), "hello world");
}

#[test]
fn fetch_before_any_save_gives_the_empty_text() {
    let mut blob = SharedBlob::new();
    let response = handle(&mut blob, "GET", "/api/get", b"");
    assert_eq!(response.status, 200);
    assert_eq!(response.body, "{\"data\":\"\"}");
    assert_eq!(response.headers, json_cors());
    assert_eq!(blob.get(), "");
}

#[test]
fn fetch_gives_the_last_save() {
    let mut blob = SharedBlob::new();
    handle(&mut blob, "POST", "/api/save", b"one");
    handle(&mut blob, "POST", "/api/save", "two: 二".as_bytes());
    let response = handle(&mut blob, "GET", "/api/get", b"ignored");
    assert_eq!(response.status, 200);
    assert_eq!(response.body, "{\"data\":\"two: 二\"}");
    assert_eq!(blob.get(), "two: 二");
}

#[test]
fn fetch_of_quotes_and_backslashes_is_valid_json() {
    let stored = "say \"hi\" \\ and\nmore\u{1}";
    let mut blob = SharedBlob::new();
    handle(&mut blob, "POST", "/api/save", stored.as_bytes());
    let response = handle(&mut blob, "GET", "/api/get", b"");
    assert_eq!(response.body, "{\"data\":\"say \\\"hi\\\" \\\\ and\\nmore\\u0001\"}");
    let parsed: serde_json::Value = serde_json::from_str(&response.body).unwrap();
    let members = parsed.as_object().unwrap();
    assert_eq!(members.len(), 1);
    assert_eq!(members.get("data").unwrap().as_str(), Some(stored));
}

#[test]
fn preflight_on_any_path() {
    for path in ["/api/save", "/api/get", "/", "/no/such/thing", "*", ""] {
        let mut blob = SharedBlob::new();
        blob.save("kept".to_string());
        let response = handle(&mut blob, "OPTIONS", path, b"body");
        assert_eq!(response.status, 200);
        assert_eq!(response.body, "");
        assert_eq!(response.headers, cors());
        assert!(has(&response, "Access-Control-Allow-Origin", "*"));
        assert!(has(&response, "Access-Control-Allow-Methods", "GET, POST, OPTIONS"));
        assert!(has(&response, "Access-Control-Allow-Headers", "Content-Type"));
        assert_eq!(blob.get(), "kept");
    }
}

#[test]
fn unmatched_request_is_404_with_origin_header() {
    let cases = [("GET", "/"), ("POST", "/api/get"), ("PUT", "/api/save"), ("GET", "/api/get/x")];
    for (method, path) in cases {
        let mut blob = SharedBlob::new();
        blob.save("kept".to_string());
        let response = handle(&mut blob, method, path, b"body");
        assert_eq!(response.status, 404);
        assert_eq!(response.body, "404 Not Found");
        assert_eq!(response.headers, vec![header("Access-Control-Allow-Origin", "*")]);
        assert!(has(&response, "Access-Control-Allow-Origin", "*"));
        assert_eq!(blob.get(), "kept");
    }
}

#[test]
fn only_a_save_changes_the_text() {
    let mut blob = SharedBlob::new();
    handle(&mut blob, "POST", "/api/save", b"value");
    handle(&mut blob, "GET", "/api/get", b"other");
    handle(&mut blob, "OPTIONS", "/api/save", b"other");
    handle(&mut blob, "POST", "/api/other", b"other");
    handle(&mut blob, "GET", "/api/save", b"other");
    assert_eq!(blob.get(), "value");
}

#[test]
fn save_of_an_empty_body_empties_the_text() {
    let mut blob = SharedBlob::new();
    handle(&mut blob, "POST", "/api/save", b"value");
    let response = handle(&mut blob, "POST", "/api/save", b"");
    assert_eq!(response.status, 200);
    assert_eq!(blob.get(), "");
}

#[test]
fn save_reads_bytes_that_are_no_utf8_with_replacement_marks() {
    let mut blob = SharedBlob::new();
    let response = handle(&mut blob, "POST", "/api/save", &[b'a', 0xff, b'b', 0xc3]);
    assert_eq!(response.status, 200);
    assert_eq!(response.body, "{\"status\":\"saved\"}");
    assert_eq!(blob.get(), "a\u{fffd}b\u{fffd}");
}

#[test]
fn respond_takes_the_body_as_text() {
    let mut blob = SharedBlob::new();
    let saved = respond(&mut blob, Route::Save, "text".to_string());
    assert_eq!(saved.status, 200);
    assert_eq!(saved.body, "{\"status\":\"saved\"}");
    assert_eq!(blob.get(), "text");
    let fetched = respond(&mut blob, Route::Fetch, "not stored".to_string());
    assert_eq!(fetched.body, "{\"data\":\"text\"}");
    let preflight = respond(&mut blob, Route::Preflight, "not stored".to_string());
    assert_eq!(preflight.body, "");
    assert_eq!(preflight.headers, cors());
    let missing = respond(&mut blob, Route::NotFound, "not stored".to_string());
    assert_eq!(missing.status, 404);
    assert_eq!(blob.get(), "text");
}

#[test]
fn fetch_body_is_what_a_json_encoder_writes() {
    let stored = "tab\tquote\" 中文 \u{0}";
    let mut blob = SharedBlob::new();
    blob.save(stored.to_string());
    let response = handle(&mut blob, "GET", "/api/get", b"");
    let mut members = serde_json::Map::new();
    members.insert("data".to_string(), serde_json::Value::String(stored.to_string()));
    let expected = serde_json::to_string(&serde_json::Value::Object(members)).unwrap();
    assert_eq!(response.body, expected);
}
