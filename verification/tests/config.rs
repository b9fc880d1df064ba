use meradomo_engine::text::decimal_text;
use meradomo_engine::{EngineConfig, DEFAULT_MGMT_BASE};
use std::path::Path;

fn short() -> EngineConfig {
    EngineConfig::portal(
        "node".into(), "a.mjs".into(), "t".into(), "r".into(), "c".into(), "s".into(),
    )
}

#[test]
fn bare_config_emits_exactly_the_portal_flags() {
    let cfg = EngineConfig::portal(
        "node".into(),
        "agent.mjs".into(),
        "tok".into(),
        "relay:7000".into(),
        "http://cp:9002".into(),
        "secret".into(),
    );
    let args = cfg.to_args();
    assert_eq!(
        args,
        vec![
            "--mode", "portal",
            "--device-token", "tok",
            "--relay-addr", "relay:7000",
            "--control-plane", "http://cp:9002",
            "--local-port", "8443",
            "--mgmt-secret", "secret",
        ]
    );
}

#[test]
fn optional_flags_appear_only_when_set() {
    let mut cfg = short();
    cfg.frp_token = Some("ftok".into());
    cfg.frpc_bin = Some("/side/frpc".into());
    cfg.cert_mode = Some("acme".into());
    cfg.first_party_app = Some("com.example.app".into());
    cfg.engine_version = Some("0.4.0".into());
    let args = cfg.to_args();
    assert!(args.windows(2).any(|w| w == ["--frp-token", "ftok"]));
    assert!(args.windows(2).any(|w| w == ["--frpc-bin", "/side/frpc"]));
    assert!(args.windows(2).any(|w| w == ["--cert-mode", "acme"]));
    assert!(args.windows(2).any(|w| w == ["--first-party-app", "com.example.app"]));
    assert!(args.windows(2).any(|w| w == ["--engine-version", "0.4.0"]));
}

#[test]
fn every_flag_in_order() {
    let mut cfg = short();
    cfg.local_port = 0;
    cfg.frp_token = Some("f".into());
    cfg.frpc_bin = Some("b".into());
    cfg.cert_mode = Some("".into());
    cfg.first_party_app = Some("p".into());
    cfg.engine_version = Some("v".into());
    cfg.work_dir = Some("w".into());
    cfg.mgmt_port = Some(65535);
    assert_eq!(
        cfg.to_args(),
        vec![
            "--mode", "portal",
            "--device-token", "t",
            "--relay-addr", "r",
            "--control-plane", "c",
            "--local-port", "0",
            "--mgmt-secret", "s",
            "--frp-token", "f",
            "--frpc-bin", "b",
            "--cert-mode", "",
            "--first-party-app", "p",
            "--engine-version", "v",
            "--work-dir", "w",
            "--mgmt-port", "65535",
        ]
    );
}

#[test]
fn empty_frp_token_is_omitted() {
    let mut cfg = short();
    cfg.frp_token = Some(String::new());
    assert!(!cfg.to_args().iter().any(|a| a == "--frp-token"));
}

#[test]
fn empty_frp_token_is_the_same_as_none() {
    let mut cfg = short();
    cfg.frp_token = Some(String::new());
    assert_eq!(cfg.to_args(), short().to_args());
}

#[test]
fn mgmt_base_reflects_port() {
    let mut cfg = short();
    assert_eq!(cfg.mgmt_base(), "http://127.0.0.1:8765");
    cfg.mgmt_port = Some(8790);
    assert_eq!(cfg.mgmt_base(), "http://127.0.0.1:8790");
}

#[test]
fn default_base_is_the_base_without_a_port() {
    assert_eq!(DEFAULT_MGMT_BASE, "http://127.0.0.1:8765");
    assert_eq!(short().mgmt_base(), DEFAULT_MGMT_BASE);
}

#[test]
fn ports_give_different_bases() {
    let mut cfg = short();
    cfg.mgmt_port = Some(80);
    let low = cfg.mgmt_base();
    cfg.mgmt_port = Some(8080);
    assert_eq!(low, "http://127.0.0.1:80");
    assert_ne!(low, cfg.mgmt_base());
}

#[test]
fn different_settings_give_different_arguments() {
    let mut cfg = short();
    cfg.work_dir = Some("w".into());
    assert_ne!(cfg.to_args(), short().to_args());
    let mut other = short();
    other.frpc_bin = Some("w".into());
    assert_ne!(cfg.to_args(), other.to_args());
}

#[test]
fn portal_fills_its_fields() {
    let cfg = short();
    assert_eq!(cfg.node_bin, Path::new("node"));
    assert_eq!(cfg.agent_path, Path::new("a.mjs"));
    assert_eq!(cfg.mode, "portal");
    assert_eq!(cfg.local_port, 8443);
    assert!(cfg.frp_token.is_none() && cfg.frpc_bin.is_none() && cfg.cert_mode.is_none());
    assert!(cfg.first_party_app.is_none() && cfg.engine_version.is_none());
    assert!(cfg.work_dir.is_none() && cfg.mgmt_port.is_none());
}

#[test]
fn a_clone_is_the_same_configuration() {
    let mut cfg = short();
    cfg.frp_token = Some("f".into());
    let copy = cfg.clone();
    assert_eq!(copy.to_args(), cfg.to_args());
    assert_eq!(copy.node_bin, cfg.node_bin);
    assert_eq!(copy.agent_path, cfg.agent_path);
}

#[test]
fn commands_run_the_agent_with_its_arguments() {
    let cfg = short();
    let command = cfg.command();
    assert_eq!(command.program, Path::new("node"));
    assert_eq!(command.agent, Path::new("a.mjs"));
    assert_eq!(command.args, cfg.to_args());
    assert!(!command.quiet);
    let quiet = cfg.spawn();
    assert_eq!(quiet.program, Path::new("node"));
    assert_eq!(quiet.agent, Path::new("a.mjs"));
    assert_eq!(quiet.args, cfg.to_args());
    assert!(quiet.quiet);
}

#[test]
fn decimal_numbers() {
    assert_eq!(decimal_text(0), "0");
    assert_eq!(decimal_text(9), "9");
    assert_eq!(decimal_text(10), "10");
    assert_eq!(decimal_text(1234567890), "1234567890");
    assert_eq!(decimal_text(u64::MAX), "18446744073709551615");
}

#[test]
fn no_flag_twice_and_no_other_flag() {
    let known = [
        "--mode", "--device-token", "--relay-addr", "--control-plane", "--local-port",
        "--mgmt-secret", "--frp-token", "--frpc-bin", "--cert-mode", "--first-party-app",
        "--engine-version", "--work-dir", "--mgmt-port",
    ];
    let mut cfg = short();
    cfg.cert_mode = Some("--mode".into());
    cfg.mgmt_port = Some(1);
    let args = cfg.to_args();
    assert_eq!(args.len() % 2, 0);
    let flags: Vec<&str> = args.iter().step_by(2).map(|a| a.as_str()).collect();
    for (i, flag) in flags.iter().enumerate() {
        assert!(known.contains(flag));
        assert!(!flags[..i].contains(flag));
    }
}
