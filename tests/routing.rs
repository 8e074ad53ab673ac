use tokio_console_web::assets::Assets;
use tokio_console_web::response::{internal_error, not_found, Response};
use tokio_console_web::router::{index_html, static_handler};
use tokio_console_web::settings::{serve_settings, settings_response, WebConsoleSettings};

const INDEX: &[u8] = b"<!doctype html><title>console</title>";
const APP_JS: &[u8] = b"console.log(1);";
const STYLE_CSS: &[u8] = b"body { margin: 0 }";

fn store() -> Assets {
    let mut a = Assets::new();
    a.insert("index.html", INDEX.to_vec());
    a.insert("app.js", APP_JS.to_vec());
    a.insert("style.css", STYLE_CSS.to_vec());
    a
}

fn unset() -> WebConsoleSettings {
    WebConsoleSettings::new(None)
}

fn with_target(s: &str) -> WebConsoleSettings {
    WebConsoleSettings::new(Some(s.to_string()))
}

fn same(a: &Response, b: &Response) -> bool {
    a.status == b.status && a.content_type == b.content_type && a.body == b.body
}

#[test]
fn root_serves_entry_document() {
    let r = static_handler("/", &unset(), &store());
    assert_eq!(r.status, 200);
    assert_eq!(r.content_type, "text/html; charset=utf-8");
    assert_eq!(r.body, INDEX);
}

#[test]
fn script_asset_served_with_javascript_type() {
    let r = static_handler("/app.js", &unset(), &store());
    assert_eq!(r.status, 200);
    assert!(r.content_type.contains("javascript"));
    assert_eq!(r.body, APP_JS);
}

#[test]
fn missing_image_is_not_found() {
    let r = static_handler("/missing.png", &unset(), &store());
    assert_eq!(r.status, 404);
    assert_eq!(r.body, b"404");
    assert_eq!(r.content_type, "text/plain; charset=utf-8");
}

#[test]
fn application_route_falls_back_to_entry() {
    let r = static_handler("/dashboard/42", &unset(), &store());
    assert_eq!(r.status, 200);
    assert_eq!(r.body, INDEX);
}

#[test]
fn settings_document_for_set_target() {
    let r = static_handler("/subscriber.json", &with_target("http://127.0.0.1:9999"), &store());
    assert_eq!(r.status, 200);
    assert_eq!(r.content_type, "application/json");
    assert_eq!(r.body, br#"{"targetAddress":"http://127.0.0.1:9999"}"#);
}

#[test]
fn settings_path_without_target_is_not_found() {
    let r = static_handler("/subscriber.json", &unset(), &store());
    assert_eq!(r.status, 404);
}

#[test]
fn stored_assets_served_for_any_settings() {
    for cfg in [unset(), with_target("http://10.0.0.1:1")] {
        for (p, d) in [("style.css", STYLE_CSS), ("app.js", APP_JS), ("index.html", INDEX)] {
            let r = static_handler(p, &cfg, &store());
            assert_eq!(r.status, 200);
            assert_eq!(r.body, d);
        }
    }
}

#[test]
fn settings_body_decodes_to_target() {
    let addr = "http://h:1/\"quoted\"\\path\n";
    let r = static_handler("subscriber.json", &with_target(addr), &store());
    assert_eq!(r.status, 200);
    assert_eq!(r.content_type, "application/json");
    let v: serde_json::Value = serde_json::from_slice(&r.body).unwrap();
    let obj = v.as_object().unwrap();
    assert_eq!(obj.len(), 1);
    assert_eq!(obj.get("targetAddress").and_then(|t| t.as_str()), Some(addr));
}

#[test]
fn unset_target_serves_stored_settings_file() {
    let mut a = store();
    a.insert("subscriber.json", b"{\"static\":true}".to_vec());
    let r = static_handler("/subscriber.json", &unset(), &a);
    assert_eq!(r.status, 200);
    assert_eq!(r.body, b"{\"static\":true}");
    let set = static_handler("/subscriber.json", &with_target("x"), &a);
    assert_eq!(set.body, br#"{"targetAddress":"x"}"#);
}

#[test]
fn root_and_index_are_identical() {
    for cfg in [unset(), with_target("t")] {
        let a = static_handler("", &cfg, &store());
        let b = static_handler("index.html", &cfg, &store());
        let c = static_handler("/index.html", &cfg, &store());
        assert!(same(&a, &b));
        assert!(same(&a, &c));
        assert!(same(&a, &index_html(&store())));
    }
}

#[test]
fn undotted_missing_paths_match_root() {
    let root = static_handler("", &unset(), &store());
    for p in ["dashboard", "/tasks/7", "a/b/c", "/"] {
        let r = static_handler(p, &unset(), &store());
        assert!(same(&r, &root));
    }
}

#[test]
fn dotted_missing_paths_are_not_found() {
    for p in ["x.js", "/img/logo.svg", "/files/report.pdf", "."] {
        assert_eq!(static_handler(p, &with_target("t"), &store()).status, 404);
    }
}

#[test]
fn repeated_calls_give_identical_responses() {
    let cfg = with_target("http://127.0.0.1:9999");
    for p in ["/", "/app.js", "/nope.png", "/route", "/subscriber.json"] {
        let a = static_handler(p, &cfg, &store());
        let b = static_handler(p, &cfg, &store());
        assert!(same(&a, &b));
    }
}

#[test]
fn missing_entry_document_gives_not_found() {
    let mut a = Assets::new();
    a.insert("app.js", APP_JS.to_vec());
    assert_eq!(static_handler("/", &unset(), &a).status, 404);
    assert_eq!(static_handler("/dashboard", &unset(), &a).status, 404);
    assert_eq!(static_handler("/app.js", &unset(), &a).status, 200);
}

#[test]
fn only_one_leading_slash_is_stripped() {
    assert_eq!(static_handler("//app.js", &unset(), &store()).status, 404);
    assert_eq!(static_handler("app.js", &unset(), &store()).body, APP_JS);
}

#[test]
fn lookup_is_case_sensitive() {
    assert_eq!(static_handler("/APP.JS", &unset(), &store()).status, 404);
}

#[test]
fn unknown_extension_is_octet_stream() {
    let mut a = store();
    a.insert("LICENSE", b"MIT".to_vec());
    a.insert("data.zzqq", vec![0, 1, 2]);
    let r = static_handler("/LICENSE", &unset(), &a);
    assert_eq!(r.content_type, "application/octet-stream");
    assert_eq!(r.body, b"MIT");
    assert_eq!(static_handler("/data.zzqq", &unset(), &a).content_type, "application/octet-stream");
    assert_eq!(static_handler("/style.css", &unset(), &a).content_type, "text/css");
}

#[test]
fn insert_replaces_earlier_content() {
    let mut a = store();
    assert_eq!(a.get("app.js"), Some(APP_JS.to_vec()));
    a.insert("app.js", b"v2".to_vec());
    assert_eq!(a.get("app.js"), Some(b"v2".to_vec()));
    assert_eq!(a.get("style.css"), Some(STYLE_CSS.to_vec()));
    assert_eq!(a.get("nope"), None);
}

#[test]
fn error_responses_are_plain_text() {
    let nf = not_found();
    assert_eq!((nf.status, nf.body.as_slice()), (404, &b"404"[..]));
    let ie = internal_error();
    assert_eq!((ie.status, ie.body.as_slice()), (500, &b"500"[..]));
    assert_eq!(ie.content_type, "text/plain; charset=utf-8");
    let none = settings_response(None);
    assert!(same(&none, &ie));
}

#[test]
fn settings_response_frames_quoted_text() {
    let r = settings_response(Some("\"a\\\"b\"".to_string()));
    assert_eq!(r.status, 200);
    assert_eq!(r.body, br#"{"targetAddress":"a\"b"}"#);
}

#[test]
fn settings_json_escapes_the_address() {
    let r = serve_settings(&"a\"b".to_string());
    assert_eq!(r.body, br#"{"targetAddress":"a\"b"}"#);
}
