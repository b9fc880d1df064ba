use meradomo_engine::{
    connect, Call, ConnectAction, ConnectError, ConnectEvent, ConnectRequest, ConnectState,
    DeviceCode, EngineAnswer, EngineConfig, EngineInfo, Exchange, Nanos, PublishResult,
};
use serde_json::Value;

const SECOND: Nanos = 1_000_000_000;

fn http_error() -> reqwest::Error {
    reqwest::blocking::Client::new().get("not a url").build().unwrap_err()
}

fn request() -> ConnectRequest<'static> {
    ConnectRequest {
        control_plane: "https://account.meradomo.com",
        app_id: "com.example.myapp",
        publish_name: "music",
        publish_label: "Music",
        local_port: 3000,
        poll_timeout: 300 * SECOND,
    }
}

fn config(token: &str) -> EngineConfig {
    let mut cfg = EngineConfig::portal(
        "node".into(), "a.mjs".into(), token.into(), "r".into(), "c".into(), "s".into(),
    );
    cfg.mgmt_port = Some(8790);
    cfg
}

fn engine(protocol: u32) -> EngineAnswer {
    EngineAnswer { status: 200, info: EngineInfo { protocol, ..Default::default() } }
}

fn go(state: ConnectState, event: ConnectEvent) -> (ConnectState, ConnectAction) {
    state.advance(&request(), 42, event).unwrap()
}

fn url(call: &Call) -> &str {
    call.url.as_str()
}

fn issued() -> ConnectEvent {
    ConnectEvent::CodeReply {
        reply: Ok(DeviceCode {
            code: "abc123".into(),
            verify_url: "https://account.meradomo.com/device/approve?code=abc123".into(),
        }),
    }
}

fn exchanged(status: &str, token: Option<&str>, host: Option<&str>, now: Nanos) -> ConnectEvent {
    ConnectEvent::ExchangeReply {
        reply: Ok(Exchange {
            status: status.into(),
            device_token: token.map(|t| t.to_string()),
            host: host.map(|h| h.to_string()),
        }),
        now,
    }
}

fn polling() -> ConnectState {
    let (state, _) = connect(&request());
    let (state, _) = go(state, issued());
    go(state, ConnectEvent::UrlOpened { now: 5 * SECOND }).0
}

fn discovering() -> ConnectState {
    let event = exchanged("approved", Some("tok-xyz"), Some("alice.meradomo.com"), 6 * SECOND);
    let (state, _) = go(polling(), event);
    let (state, _) = go(state, ConnectEvent::Persisted);
    go(state, ConnectEvent::ConfigBuilt { config: config("tok-xyz") }).0
}

fn spawning() -> ConnectState {
    go(discovering(), ConnectEvent::EngineReply { reply: Err(http_error()), now: 7 * SECOND }).0
}

fn waiting() -> ConnectState {
    go(spawning(), ConnectEvent::Spawned { attempt: Ok(()), now: 10 * SECOND }).0
}

fn publishing() -> ConnectState {
    go(waiting(), ConnectEvent::EngineReply { reply: Ok(engine(1)), now: 11 * SECOND }).0
}

#[test]
fn the_way_to_a_live_address() {
    let (state, action) = connect(&request());
    match action {
        ConnectAction::RequestCode(call) => {
            assert_eq!(url(&call), "https://account.meradomo.com/device/code");
        }
        _ => panic!("a code is asked for first"),
    }
    let (state, action) = go(state, issued());
    match action {
        ConnectAction::OpenUrl(u) => {
            assert_eq!(u, "https://account.meradomo.com/device/approve?code=abc123");
        }
        _ => panic!("the browser opens"),
    }
    let (state, action) = go(state, ConnectEvent::UrlOpened { now: 0 });
    match action {
        ConnectAction::PollExchange(call) => {
            assert_eq!(url(&call), "https://account.meradomo.com/device/exchange?code=abc123");
        }
        _ => panic!("the exchange is polled"),
    }
    let (state, action) = go(state, exchanged("pending", None, None, SECOND));
    assert!(matches!(action, ConnectAction::Sleep(2_000_000_000)));
    let (state, action) = go(state, ConnectEvent::Woke);
    match action {
        ConnectAction::PollExchange(call) => {
            assert_eq!(url(&call), "https://account.meradomo.com/device/exchange?code=abc123");
        }
        _ => panic!("the exchange is polled again"),
    }
    let event = exchanged("approved", Some("tok-xyz"), Some("alice.meradomo.com"), 3 * SECOND);
    let (state, action) = go(state, event);
    match action {
        ConnectAction::Persist { token, host } => {
            assert_eq!(token, "tok-xyz");
            assert_eq!(host, "alice.meradomo.com");
        }
        _ => panic!("the credential is stored"),
    }
    let (state, action) = go(state, ConnectEvent::Persisted);
    match action {
        ConnectAction::BuildConfig { token } => assert_eq!(token, "tok-xyz"),
        _ => panic!("the configuration is built"),
    }
    let (state, action) = go(state, ConnectEvent::ConfigBuilt { config: config("tok-xyz") });
    match action {
        ConnectAction::Discover(call) => {
            assert_eq!(url(&call), "http://127.0.0.1:8790/engine/info");
        }
        _ => panic!("an engine is looked for"),
    }
    let (state, action) =
        go(state, ConnectEvent::EngineReply { reply: Err(http_error()), now: 4 * SECOND });
    match action {
        ConnectAction::Spawn(cfg) => assert_eq!(cfg.to_args(), config("tok-xyz").to_args()),
        _ => panic!("an engine is started"),
    }
    let (state, action) = go(state, ConnectEvent::Spawned { attempt: Ok(()), now: 5 * SECOND });
    match action {
        ConnectAction::Discover(call) => {
            assert_eq!(url(&call), "http://127.0.0.1:8790/engine/info");
        }
        _ => panic!("the engine is probed"),
    }
    let (state, action) =
        go(state, ConnectEvent::EngineReply { reply: Err(http_error()), now: 6 * SECOND });
    assert!(matches!(action, ConnectAction::Sleep(200_000_000)));
    let (state, action) = go(state, ConnectEvent::Woke);
    assert!(matches!(action, ConnectAction::Discover(_)));
    let (state, action) =
        go(state, ConnectEvent::EngineReply { reply: Ok(engine(9)), now: 7 * SECOND });
    match action {
        ConnectAction::Publish(call) => {
            assert_eq!(url(&call), "http://127.0.0.1:8790/publish");
            let body = call.body.unwrap();
            assert_eq!(body.get("name"), Some(&Value::String("music".to_string())));
            assert_eq!(body.get("label"), Some(&Value::String("Music".to_string())));
            assert_eq!(body.get("localPort"), Some(&Value::from(3000)));
            assert_eq!(body.get("appId"), Some(&Value::String("com.example.myapp".to_string())));
        }
        _ => panic!("the app is published"),
    }
    let published = PublishResult { url: Some("https://music".into()), ..Default::default() };
    let (state, action) = go(state, ConnectEvent::PublishReply { reply: Ok(published) });
    match action {
        ConnectAction::Finish(Ok(connected)) => {
            assert_eq!(connected.device_token, "tok-xyz");
            assert_eq!(connected.host, "alice.meradomo.com");
            assert_eq!(connected.publish.url.as_deref(), Some("https://music"));
            assert!(!connected.attached);
        }
        _ => panic!("the onboarding is over"),
    }
    assert!(matches!(state, ConnectState::Finished));
    assert!(state.advance(&request(), 42, ConnectEvent::Woke).is_none());
}

fn registering() -> ConnectState {
    let (state, action) = go(discovering(), ConnectEvent::EngineReply { reply: Ok(engine(1)), now: 0 });
    match action {
        ConnectAction::Register(call) => {
            assert_eq!(url(&call), "http://127.0.0.1:8790/engine/register");
            let body = call.body.unwrap();
            assert_eq!(body.get("pid"), Some(&Value::from(42)));
        }
        _ => panic!("the app registers"),
    }
    state
}

#[test]
fn attaching_registers() {
    let (state, action) = go(registering(), ConnectEvent::Registered { reply: Ok(()), now: 0 });
    assert!(matches!(action, ConnectAction::Discover(_)));
    let (state, _) = go(state, ConnectEvent::EngineReply { reply: Ok(engine(1)), now: 1 });
    let published = PublishResult::default();
    let (_, action) = go(state, ConnectEvent::PublishReply { reply: Ok(published) });
    match action {
        ConnectAction::Finish(Ok(connected)) => assert!(connected.attached),
        _ => panic!("the onboarding is over"),
    }
}

#[test]
fn a_failed_registration_is_no_attachment() {
    let event = ConnectEvent::Registered { reply: Err(http_error()), now: 0 };
    let (state, action) = go(registering(), event);
    assert!(matches!(action, ConnectAction::Finish(Err(ConnectError::Http(_)))));
    assert!(matches!(state, ConnectState::Finished));
}

#[test]
fn a_server_that_is_not_an_engine_does_not_count() {
    let refused = || Ok(EngineAnswer { status: 404, info: EngineInfo { protocol: 1, ..Default::default() } });
    let (_, action) = go(discovering(), ConnectEvent::EngineReply { reply: refused(), now: 0 });
    assert!(matches!(action, ConnectAction::Spawn(_)));
    let event = ConnectEvent::EngineReply { reply: refused(), now: 11 * SECOND };
    let (_, action) = go(waiting(), event);
    assert!(matches!(action, ConnectAction::Sleep(200_000_000)));
}

#[test]
fn an_incompatible_engine_is_not_attached_to() {
    let (_, action) =
        go(discovering(), ConnectEvent::EngineReply { reply: Ok(engine(2)), now: 0 });
    assert!(matches!(action, ConnectAction::Spawn(_)));
}

#[test]
fn no_code_no_onboarding() {
    let (state, _) = connect(&request());
    let (_, action) = go(state, ConnectEvent::CodeReply { reply: Err(http_error()) });
    assert!(matches!(action, ConnectAction::Finish(Err(ConnectError::Http(_)))));
}

#[test]
fn approval_failures() {
    let (_, action) = go(polling(), exchanged("unknown", None, None, 5 * SECOND));
    assert!(matches!(action, ConnectAction::Finish(Err(ConnectError::CodeExpired))));
    let (_, action) = go(polling(), exchanged("pending", None, None, 305 * SECOND));
    assert!(matches!(action, ConnectAction::Finish(Err(ConnectError::Timeout))));
    let (_, action) = go(polling(), exchanged("pending", None, None, 305 * SECOND - 1));
    assert!(matches!(action, ConnectAction::Sleep(_)));
    let (_, action) = go(polling(), exchanged("approved", None, Some("h"), 5 * SECOND));
    assert!(matches!(action, ConnectAction::Finish(Err(ConnectError::NoCredential))));
    let event = ConnectEvent::ExchangeReply { reply: Err(http_error()), now: 0 };
    let (_, action) = go(polling(), event);
    assert!(matches!(action, ConnectAction::Finish(Err(ConnectError::Http(_)))));
}

#[test]
fn an_approval_without_a_host_has_an_empty_one() {
    let (_, action) = go(polling(), exchanged("approved", Some("t"), None, 5 * SECOND));
    match action {
        ConnectAction::Persist { token, host } => {
            assert_eq!(token, "t");
            assert_eq!(host, "");
        }
        _ => panic!("the credential is stored"),
    }
}

#[test]
fn engine_failures() {
    let attempt = Err(std::io::Error::other("no node"));
    let (_, action) = go(spawning(), ConnectEvent::Spawned { attempt, now: 0 });
    match action {
        ConnectAction::Finish(Err(ConnectError::Io(e))) => assert_eq!(e.to_string(), "no node"),
        _ => panic!("the engine did not start"),
    }
    let late = ConnectEvent::EngineReply { reply: Err(http_error()), now: 40 * SECOND };
    let (_, action) = go(waiting(), late);
    assert!(matches!(action, ConnectAction::Finish(Err(ConnectError::EngineUnreachable))));
    let (_, action) = go(publishing(), ConnectEvent::PublishReply { reply: Err(http_error()) });
    assert!(matches!(action, ConnectAction::Finish(Err(ConnectError::Http(_)))));
}

#[test]
fn events_out_of_turn_are_refused() {
    let (state, _) = connect(&request());
    assert!(state.advance(&request(), 42, ConnectEvent::Woke).is_none());
    assert!(polling().advance(&request(), 42, ConnectEvent::Persisted).is_none());
    assert!(waiting().advance(&request(), 42, issued()).is_none());
}

#[test]
fn an_unanswered_onboarding_ends() {
    let mut req = request();
    req.poll_timeout = 10 * SECOND;
    let (mut state, mut action) = connect(&req);
    let mut now: Nanos = 0;
    let mut steps: Nanos = 0;
    let mut polls = 0;
    loop {
        let event = match action {
            ConnectAction::RequestCode(_) => issued(),
            ConnectAction::OpenUrl(_) => ConnectEvent::UrlOpened { now },
            ConnectAction::PollExchange(_) => {
                polls += 1;
                exchanged("pending", None, None, now)
            }
            ConnectAction::Sleep(pause) => {
                now += pause;
                ConnectEvent::Woke
            }
            ConnectAction::Finish(Err(ConnectError::Timeout)) => break,
            _ => panic!("nothing is approved"),
        };
        (state, action) = state.advance(&req, 42, event).unwrap();
        steps += 1;
    }
    assert_eq!(polls, 6);
    assert!(steps <= 2 * (10 / 2) + 2 * 150 + 13);
    assert!(matches!(state, ConnectState::Finished));
}

#[test]
fn an_engine_that_stays_silent_is_given_up_on() {
    let mut state = waiting();
    let mut now: Nanos = 10 * SECOND;
    let mut probes = 0;
    loop {
        probes += 1;
        let (next, action) = go(state, ConnectEvent::EngineReply { reply: Err(http_error()), now });
        match action {
            ConnectAction::Sleep(pause) => {
                now += pause;
                state = go(next, ConnectEvent::Woke).0;
            }
            ConnectAction::Finish(Err(ConnectError::EngineUnreachable)) => break,
            _ => panic!("the engine is silent"),
        }
    }
    assert_eq!(probes, 151);
}
