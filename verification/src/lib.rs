//! # meradomo_engine — the reusable launcher for a shared Meradomo engine
//!
//! An embedding app uses this crate to serve its local app through Meradomo
//! without a second download. It holds the rules of the whole shared-engine dance:
//!
//! 1. **discover** a Meradomo engine already running on this machine
//!    ([`discover`]) and decide whether to attach to it or start its own
//!    ([`decide_start_action`]);
//! 2. **spawn** the bundled engine ([`EngineConfig::spawn`]) or **attach** to a
//!    running one ([`spawn_or_attach`]);
//! 3. **register** itself as a live consumer so the engine's reference-counted
//!    lifecycle keeps serving while the app is open ([`register`], [`heartbeat`],
//!    [`deregister`]);
//! 4. **publish** its local app to a public address ([`publish`], [`unpublish`],
//!    [`status`]);
//! 5. **connect** a cold machine: all of the above, after the person has approved
//!    the device in the browser ([`connect`], [`ConnectState::advance`]).
//!
//! The crate performs nothing itself. It says which call to make, which command to
//! run, what to do with a reply and how long to wait; the host does it. So any host
//! — a desktop app, a CLI, a service — can drive it.
//!
//! ## The wire protocol
//!
//! All calls are plain HTTP to the management base URL; no auth for the engine
//! surface (loopback + same-user is the trust boundary). JSON bodies use
//! camelCase keys.
//!
//! | Method & path              | Body                          | Purpose |
//! |----------------------------|-------------------------------|---------|
//! | `GET  /engine/info`        | —                             | discovery |
//! | `POST /engine/register`    | `{appId, pid}`                | attach as a live consumer |
//! | `POST /engine/heartbeat`   | `{appId, pid}`                | stay attached (idempotently registers) |
//! | `POST /engine/deregister`  | `{appId}`                     | detach (last one out stops the engine) |
//! | `POST /publish`            | `{name, label, localPort, appId?}` | request a public address |
//! | `GET  /publish/:name`      | —                             | poll publish status |
//! | `DELETE /publish/:name`    | —                             | unpublish (keeps approval) |
//! | `GET  /status`             | —                             | connection state + published apps |
//!
//! A host attaches to an incumbent only when its `protocol` matches
//! [`ENGINE_PROTOCOL`]; a different number means "incompatible — start your own".

pub mod approval;
pub mod clock;
pub mod config;
pub mod conversation;
pub mod discovery;
pub mod error;
pub mod history;
pub mod onboarding;
pub mod outside;
pub mod requests;
pub mod start;
pub mod text;

pub use approval::{poll_exchange, DeviceCode, Exchange, PollStep};
pub use clock::Nanos;
pub use config::{EngineCommand, EngineConfig, DEFAULT_MGMT_BASE};
pub use discovery::{
    answers, decide_start_action, discovered, BillingInfo, EngineAnswer, EngineInfo, StartAction,
    ENGINE_PROTOCOL,
};
pub use error::ConnectError;
pub use onboarding::{
    connect, ConnectAction, ConnectEvent, ConnectRequest, ConnectState, Connected, Credential,
};
pub use requests::{
    deregister, discover, exchange, heartbeat, publish, publish_status, register, reported,
    request_device_code, status, unpublish, Call, Method, PublishResult,
};
pub use start::{spawn_or_attach, wait_engine, StartOutcome, StartStep, WaitStep};
