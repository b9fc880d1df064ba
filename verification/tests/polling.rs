use meradomo_engine::clock::is_over;
use meradomo_engine::{
    poll_exchange, spawn_or_attach, wait_engine, ConnectError, EngineConfig, EngineInfo, Exchange,
    Nanos, PollStep, StartOutcome, StartStep, WaitStep,
};
use serde_json::Value;

const SECOND: Nanos = 1_000_000_000;

fn http_error() -> reqwest::Error {
    reqwest::blocking::Client::new().get("not a url").build().unwrap_err()
}

fn config() -> EngineConfig {
    EngineConfig::portal(
        "node".into(), "a.mjs".into(), "t".into(), "r".into(), "c".into(), "s".into(),
    )
}

fn replied(status: &str) -> Result<Exchange, reqwest::Error> {
    Ok(Exchange { status: status.into(), ..Default::default() })
}

#[test]
fn a_deadline_passes_at_its_moment() {
    assert!(!is_over(10, 5, 14));
    assert!(is_over(10, 5, 15));
    assert!(is_over(10, 0, 10));
    assert!(!is_over(10, 0, 9));
    assert!(!is_over(u128::MAX, u128::MAX, u128::MAX));
}

#[test]
fn an_approval_ends_polling() {
    let reply = Ok(Exchange {
        status: "approved".into(),
        device_token: Some("tok-xyz".into()),
        host: Some("alice.meradomo.com".into()),
    });
    match poll_exchange(reply, 0, 0, SECOND, 99 * SECOND) {
        PollStep::Done(Ok(ex)) => {
            assert_eq!(ex.device_token.as_deref(), Some("tok-xyz"));
            assert_eq!(ex.host.as_deref(), Some("alice.meradomo.com"));
        }
        _ => panic!("an approval was expected"),
    }
}

#[test]
fn an_unknown_code_has_expired() {
    assert!(matches!(
        poll_exchange(replied("unknown"), 0, 9 * SECOND, SECOND, 0),
        PollStep::Done(Err(ConnectError::CodeExpired))
    ));
}

#[test]
fn a_failed_exchange_ends_polling() {
    assert!(matches!(
        poll_exchange(Err(http_error()), 0, 9 * SECOND, SECOND, 0),
        PollStep::Done(Err(ConnectError::Http(_)))
    ));
}

#[test]
fn a_pending_code_is_polled_until_the_window_elapses() {
    for status in ["pending", "", "Approved"] {
        assert!(matches!(
            poll_exchange(replied(status), SECOND, 9 * SECOND, 7, 10 * SECOND - 1),
            PollStep::Sleep(7)
        ));
        assert!(matches!(
            poll_exchange(replied(status), SECOND, 9 * SECOND, 7, 10 * SECOND),
            PollStep::Done(Err(ConnectError::Timeout))
        ));
    }
}

#[test]
fn a_fresh_engine_is_probed_until_it_answers() {
    assert_eq!(wait_engine(&None, 0, SECOND, SECOND - 1), WaitStep::Sleep(200_000_000));
    assert_eq!(wait_engine(&None, 0, SECOND, SECOND), WaitStep::GiveUp);
    assert_eq!(wait_engine(&Some(EngineInfo::default()), 0, SECOND, 0), WaitStep::Ready);
}

#[test]
fn a_late_answer_still_counts() {
    assert_eq!(wait_engine(&Some(EngineInfo::default()), 0, 0, SECOND), WaitStep::Ready);
}

#[test]
fn waiting_ends_after_enough_probes() {
    let mut probes = 0u128;
    loop {
        match wait_engine(&None, 0, SECOND, probes * 200_000_000) {
            WaitStep::Sleep(_) => probes += 1,
            WaitStep::GiveUp => break,
            WaitStep::Ready => panic!("no engine answered"),
        }
    }
    assert_eq!(probes, 5);
}

#[test]
fn attach_to_a_compatible_engine() {
    let info = EngineInfo { protocol: 1, pid: 42, ..Default::default() };
    match spawn_or_attach(&config(), "com.example.app", 7, Some(info)) {
        StartStep::Attach { register, info } => {
            assert_eq!(info.pid, 42);
            assert_eq!(register.url, "http://127.0.0.1:8765/engine/register");
            let body = register.body.unwrap();
            assert_eq!(body.get("appId"), Some(&Value::String("com.example.app".to_string())));
            assert_eq!(body.get("pid"), Some(&Value::from(7)));
        }
        StartStep::Spawn => panic!("the engine is compatible"),
    }
}

#[test]
fn spawn_where_no_compatible_engine_runs() {
    let info = EngineInfo { protocol: 2, ..Default::default() };
    assert!(matches!(spawn_or_attach(&config(), "a", 7, Some(info)), StartStep::Spawn));
    assert!(matches!(spawn_or_attach(&config(), "a", 7, None), StartStep::Spawn));
}

#[test]
fn start_outcomes() {
    let spawned: StartOutcome<u32> = StartOutcome::spawned(Ok(5)).unwrap();
    assert!(!spawned.is_attached());
    assert!(matches!(spawned, StartOutcome::Spawned(5)));
    let attached: StartOutcome<u32> = StartOutcome::Attached(EngineInfo::default());
    assert!(attached.is_attached());
    let info = EngineInfo { pid: 42, ..Default::default() };
    match StartOutcome::<u32>::attached(info, Ok(())) {
        Ok(StartOutcome::Attached(info)) => assert_eq!(info.pid, 42),
        _ => panic!("the registration went through"),
    }
    assert!(StartOutcome::<u32>::attached(EngineInfo::default(), Err(http_error())).is_err());
    let failed = StartOutcome::<u32>::spawned(Err(std::io::Error::other("no node")));
    assert_eq!(failed.err().unwrap().to_string(), "no node");
}

#[test]
fn polling_ends_after_enough_replies() {
    let mut replies = 0u128;
    loop {
        match poll_exchange(replied("pending"), 0, 10 * SECOND, 2 * SECOND, replies * 2 * SECOND) {
            PollStep::Sleep(pause) => {
                assert_eq!(pause, 2 * SECOND);
                replies += 1;
            }
            PollStep::Done(result) => {
                assert!(matches!(result, Err(ConnectError::Timeout)));
                break;
            }
        }
    }
    assert_eq!(replies, 5);
}
