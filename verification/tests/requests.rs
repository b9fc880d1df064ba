use meradomo_engine::{
    deregister, discover, exchange, heartbeat, publish, publish_status, register, reported,
    request_device_code, status, unpublish, Call, Method, PublishResult,
};
use serde_json::Value;

const BASE: &str = "http://127.0.0.1:8765";

fn member<'a>(call: &'a Call, name: &str) -> Option<&'a Value> {
    call.body.as_ref().unwrap().get(name)
}

fn text(s: &str) -> Value {
    Value::String(s.to_string())
}

#[test]
fn discovery_call() {
    let call = discover(BASE);
    assert_eq!(call.method, Method::Get);
    assert_eq!(call.url, "http://127.0.0.1:8765/engine/info");
    assert!(call.body.is_none());
    assert_eq!(call.timeout, 1_500_000_000);
}

#[test]
fn registration_call() {
    let call = register(BASE, "com.example.app", 42);
    assert_eq!(call.method, Method::Post);
    assert_eq!(call.url, "http://127.0.0.1:8765/engine/register");
    assert_eq!(call.body.as_ref().unwrap().len(), 2);
    assert_eq!(member(&call, "appId"), Some(&text("com.example.app")));
    assert_eq!(member(&call, "pid"), Some(&Value::from(42)));
    assert_eq!(call.timeout, 1_500_000_000);
}

#[test]
fn heartbeat_carries_what_a_registration_carries() {
    let beat = heartbeat(BASE, "com.example.app", u32::MAX);
    assert_eq!(beat.url, "http://127.0.0.1:8765/engine/heartbeat");
    assert_eq!(beat.method, Method::Post);
    assert_eq!(beat.body, register(BASE, "com.example.app", u32::MAX).body);
    assert_eq!(member(&beat, "pid"), Some(&Value::from(4294967295u64)));
}

#[test]
fn deregistration_call() {
    let call = deregister(BASE, "com.example.app");
    assert_eq!(call.method, Method::Post);
    assert_eq!(call.url, "http://127.0.0.1:8765/engine/deregister");
    assert_eq!(call.body.as_ref().unwrap().len(), 1);
    assert_eq!(member(&call, "appId"), Some(&text("com.example.app")));
}

#[test]
fn publication_without_an_app() {
    let call = publish(BASE, "music", "Music", 3000, None);
    assert_eq!(call.method, Method::Post);
    assert_eq!(call.url, "http://127.0.0.1:8765/publish");
    assert_eq!(call.body.as_ref().unwrap().len(), 3);
    assert_eq!(member(&call, "name"), Some(&text("music")));
    assert_eq!(member(&call, "label"), Some(&text("Music")));
    assert_eq!(member(&call, "localPort"), Some(&Value::from(3000)));
    assert_eq!(member(&call, "appId"), None);
}

#[test]
fn publication_with_an_app() {
    let call = publish(BASE, "music", "Music", 65535, Some("com.example.app"));
    assert_eq!(call.body.as_ref().unwrap().len(), 4);
    assert_eq!(member(&call, "appId"), Some(&text("com.example.app")));
    assert_eq!(member(&call, "localPort"), Some(&Value::from(65535)));
}

#[test]
fn publication_body_as_json() {
    let call = publish(BASE, "m\"1", "M", 1, Some("a"));
    assert_eq!(
        serde_json::to_string(&call.body.unwrap()).unwrap(),
        r#"{"appId":"a","label":"M","localPort":1,"name":"m\"1"}"#
    );
}

#[test]
fn one_address_for_a_publication() {
    let asked = publish_status(BASE, "music");
    let removed = unpublish(BASE, "music");
    assert_eq!(asked.url, "http://127.0.0.1:8765/publish/music");
    assert_eq!(asked.url, removed.url);
    assert_eq!(asked.method, Method::Get);
    assert_eq!(removed.method, Method::Delete);
    assert!(asked.body.is_none() && removed.body.is_none());
}

#[test]
fn status_call() {
    let call = status(BASE);
    assert_eq!(call.method, Method::Get);
    assert_eq!(call.url, "http://127.0.0.1:8765/status");
    assert!(call.body.is_none());
}

#[test]
fn a_failed_status_call_reports_nothing() {
    let failed = reqwest::blocking::Client::new().get("not a url").build().unwrap_err();
    assert_eq!(reported(Err(failed)), None);
    assert_eq!(reported(Ok(text("up"))), Some(text("up")));
}

#[test]
fn control_plane_calls() {
    let code = request_device_code("https://account.meradomo.com");
    assert_eq!(code.method, Method::Post);
    assert_eq!(code.url, "https://account.meradomo.com/device/code");
    assert!(code.body.is_none());
    assert_eq!(code.timeout, 10_000_000_000);
    let poll = exchange("https://account.meradomo.com", "abc123");
    assert_eq!(poll.method, Method::Get);
    assert_eq!(poll.url, "https://account.meradomo.com/device/exchange?code=abc123");
    assert!(poll.body.is_none());
    assert_eq!(poll.timeout, 10_000_000_000);
}

#[test]
fn an_empty_publish_result() {
    let result = PublishResult::default();
    assert_eq!(result.status, "");
    assert!(result.host.is_none() && result.url.is_none());
}
