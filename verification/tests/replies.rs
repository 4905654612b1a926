use reedhold_host::{
    bad, error_json, error_json_from, fail, fixed_reply, flag_reply, json_reply, not_found, ok,
    ok_flag, preflight, Route,
};

fn error_text(body: &str) -> String {
    let value: blazingly_json::Value = blazingly_json::from_str(body).expect("json");
    value.get("error").and_then(|v| v.as_str()).expect("error field").to_owned()
}

#[test]
fn ok_keeps_body_and_status() {
    let reply = ok("{\"ok\":true}");
    assert_eq!(reply.status, 200);
    assert_eq!(reply.body, "{\"ok\":true}");
}

#[test]
fn bad_is_400_with_error_object() {
    let reply = bad("broken body");
    assert_eq!(reply.status, 400);
    assert_eq!(reply.body, "{\"error\":\"broken body\"}");
}

#[test]
fn fail_is_409_with_error_object() {
    let reply = fail("no unlocked session");
    assert_eq!(reply.status, 409);
    assert_eq!(reply.body, "{\"error\":\"no unlocked session\"}");
}

#[test]
fn error_json_escapes_quotes_and_controls() {
    assert_eq!(error_json("a\"b"), "{\"error\":\"a\\\"b\"}");
    assert_eq!(error_json("line\nnext"), "{\"error\":\"line\\nnext\"}");
    assert_eq!(error_json("back\\slash"), "{\"error\":\"back\\\\slash\"}");
    assert_eq!(error_json("bell\u{7}"), "{\"error\":\"bell\\u0007\"}");
}

#[test]
fn error_json_plain_messages() {
    assert_eq!(error_json("not found"), "{\"error\":\"not found\"}");
    assert_eq!(error_json(""), "{\"error\":\"\"}");
    assert_eq!(error_json("tab\there"), "{\"error\":\"tab\\there\"}");
    assert_eq!(error_json("\u{1f}"), "{\"error\":\"\\u001f\"}");
    assert_eq!(error_json("ünï ✓"), "{\"error\":\"ünï ✓\"}");
    assert_eq!(bad("x").body, error_json("x"));
    assert_eq!(fail("x").body, error_json("x"));
}

#[test]
fn error_json_round_trips() {
    for message in ["plain", "quote \" inside", "tab\tand\nnewline", "ünïcödé ✓", ""] {
        assert_eq!(error_text(&error_json(message)), message);
    }
}

#[test]
fn error_json_from_fallback() {
    assert_eq!(error_json_from(None), "{\"error\":\"encode failed\"}");
    assert_eq!(error_json_from(Some("\"x\"".to_owned())), "{\"error\":\"x\"}");
}

#[test]
fn json_reply_ok_and_err() {
    let reply = json_reply(Ok("[1,2]".to_owned()));
    assert_eq!(reply.status, 200);
    assert_eq!(reply.body, "[1,2]");
    let reply = json_reply(Err("cannot encode".to_owned()));
    assert_eq!(reply.status, 409);
    assert_eq!(error_text(&reply.body), "cannot encode");
}

#[test]
fn flag_reply_ok_and_err() {
    let reply = flag_reply(Ok(()));
    assert_eq!(reply.status, 200);
    assert_eq!(reply.body, "{\"ok\":true}");
    let reply = flag_reply(Err("reputation is not transferable".to_owned()));
    assert_eq!(reply.status, 409);
    assert!(reply.body.contains("error"));
}

#[test]
fn fixed_replies() {
    let reply = preflight();
    assert_eq!(reply.status, 204);
    assert!(reply.body.is_empty());
    let reply = not_found();
    assert_eq!(reply.status, 404);
    assert_eq!(reply.body, "{\"error\":\"not found\"}");
    assert_eq!(ok_flag().body, "{\"ok\":true}");
    let health = fixed_reply(Route::Health).expect("health");
    assert_eq!(health.status, 200);
    assert!(health.body.contains("true"));
    assert_eq!(fixed_reply(Route::NotFound).expect("404").status, 404);
    assert_eq!(fixed_reply(Route::Preflight).expect("204").status, 204);
    assert!(fixed_reply(Route::Create).is_none());
    assert!(fixed_reply(Route::AdvertisingLimits).is_none());
}
