use meradomo_engine::{
    answers, decide_start_action, discovered, BillingInfo, EngineAnswer, EngineInfo, StartAction,
    ENGINE_PROTOCOL,
};

fn info(protocol: u32) -> EngineInfo {
    EngineInfo { protocol, ..Default::default() }
}

fn http_error() -> reqwest::Error {
    reqwest::blocking::Client::new().get("not a url").build().unwrap_err()
}

#[test]
fn attach_only_on_matching_protocol() {
    assert_eq!(decide_start_action(Some(&info(ENGINE_PROTOCOL)), ENGINE_PROTOCOL), StartAction::Attach);
    assert_eq!(decide_start_action(Some(&info(ENGINE_PROTOCOL + 1)), ENGINE_PROTOCOL), StartAction::Takeover);
    assert_eq!(decide_start_action(Some(&info(0)), ENGINE_PROTOCOL), StartAction::Takeover);
}

#[test]
fn takeover_when_no_engine_answers() {
    assert_eq!(decide_start_action(None, ENGINE_PROTOCOL), StartAction::Takeover);
}

#[test]
fn protocol_version_is_one() {
    assert_eq!(ENGINE_PROTOCOL, 1);
}

#[test]
fn needs_renewal_only_on_lapse() {
    let mk = |s: &str| EngineInfo {
        billing: Some(BillingInfo { status: s.into(), ..Default::default() }),
        ..Default::default()
    };
    assert!(mk("hold").needs_renewal());
    assert!(mk("past_due").needs_renewal());
    assert!(!mk("active").needs_renewal());
    assert!(!mk("trialing").needs_renewal());
    assert!(!mk("comp").needs_renewal());
    // No billing info at all (e.g. attached to an engine that hasn't polled) → no prompt.
    assert!(!EngineInfo::default().needs_renewal());
}

#[test]
fn renewal_ignores_entitlement_and_near_misses() {
    let mk = |s: &str, entitled: bool| EngineInfo {
        billing: Some(BillingInfo { status: s.into(), entitled, trial_ends_at: Some(123) }),
        ..Default::default()
    };
    assert!(mk("hold", true).needs_renewal());
    assert!(!mk("", false).needs_renewal());
    assert!(!mk("Hold", false).needs_renewal());
    assert!(!mk("hold ", false).needs_renewal());
}

#[test]
fn defaults_are_empty() {
    let i = EngineInfo::default();
    assert_eq!(i.engine_version, "");
    assert_eq!((i.protocol, i.pid, i.registrants), (0, 0, 0));
    assert_eq!(i.mode, "");
    assert!(!i.connected);
    assert!(i.host.is_none() && i.name.is_none() && i.first_party_app.is_none());
    assert!(i.billing.is_none());
    let b = BillingInfo::default();
    assert!(!b.entitled);
    assert_eq!(b.status, "");
    assert_eq!(b.trial_ends_at, None);
}

#[test]
fn a_failed_probe_finds_nothing() {
    assert!(discovered(Err(http_error())).is_none());
    assert_eq!(discovered(Ok(EngineAnswer { status: 200, info: info(7) })).unwrap().protocol, 7);
}

#[test]
fn an_answer_that_is_not_an_engine_finds_nothing() {
    for status in [0, 100, 199, 300, 301, 404, 500, u16::MAX] {
        assert!(!answers(status));
        assert!(discovered(Ok(EngineAnswer { status, info: info(ENGINE_PROTOCOL) })).is_none());
    }
    for status in [200, 204, 299] {
        assert!(answers(status));
        assert!(discovered(Ok(EngineAnswer { status, info: info(ENGINE_PROTOCOL) })).is_some());
    }
}
