use meradomo_engine::ConnectError;

fn http_error() -> reqwest::Error {
    reqwest::blocking::Client::new().get("not a url").build().unwrap_err()
}

#[test]
fn connect_error_messages_are_human() {
    assert!(ConnectError::Timeout.message().contains("browser"));
    assert!(ConnectError::CodeExpired.message().contains("expired"));
    assert!(ConnectError::EngineUnreachable.message().contains("engine"));
}

#[test]
fn messages_in_full() {
    assert_eq!(
        ConnectError::CodeExpired.message(),
        "the approval code expired — please try again"
    );
    assert_eq!(
        ConnectError::Timeout.message(),
        "timed out waiting for approval in the browser"
    );
    assert_eq!(ConnectError::NoCredential.message(), "approval returned no credential");
    assert_eq!(
        ConnectError::EngineUnreachable.message(),
        "the engine did not come up in time"
    );
}

#[test]
fn messages_tell_the_underlying_error() {
    let e = ConnectError::from(std::io::Error::other("no node"));
    assert!(matches!(e, ConnectError::Io(_)));
    assert_eq!(e.message(), "spawn error: no node");
    let shown = http_error().to_string();
    let e = ConnectError::from(http_error());
    assert!(matches!(e, ConnectError::Http(_)));
    assert_eq!(e.message(), format!("network error: {shown}"));
    assert_eq!(e.message_with("down"), "network error: down");
}
