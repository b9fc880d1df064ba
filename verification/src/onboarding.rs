//! From a cold machine to a live public address.
//!
//! The onboarding is a conversation: [`connect`] and [`ConnectState::advance`] say
//! what to do next, the host does it and reports what came of it.
use crate::approval::{poll_exchange, poll_verdict, DeviceCode, Exchange, PollStep};
use crate::clock::Nanos;
use crate::config::EngineConfig;
use crate::discovery::{compatible, discovered, found, EngineAnswer, EngineInfo, ENGINE_PROTOCOL};
use crate::error::ConnectError;
use crate::requests::{
    device_code_call, discover, discover_call, exchange, exchange_call, publish, publish_call,
    register_call, request_device_code, Call, CallView, PublishResult,
};
use crate::start::{spawn_or_attach, wait_engine, wait_verdict, StartOutcome, StartStep, WaitStep};
use vstd::prelude::*;

verus! {

/// How long to wait between two exchange calls: 2 s.
pub const EXCHANGE_INTERVAL: Nanos = 2_000_000_000;

/// How long the engine may take to come up: 30 s.
pub const ENGINE_TIMEOUT: Nanos = 30_000_000_000;

/// What one app needs to go from a cold machine to a live public address.
pub struct ConnectRequest<'a> {
    /// Control-plane public URL (where the browser approves).
    pub control_plane: &'a str,
    /// This app's stable id (also the first-party id used for auto-approve).
    pub app_id: &'a str,
    /// The app label to publish (e.g. `"music"`).
    pub publish_name: &'a str,
    /// Human label shown for the published app.
    pub publish_label: &'a str,
    /// The app's local port to route to.
    pub local_port: u16,
    /// How long to wait for the person to finish approving in the browser.
    pub poll_timeout: Nanos,
}

/// The result of a successful onboarding.
pub struct Connected {
    pub device_token: String,
    pub host: String,
    pub publish: PublishResult,
    /// True if we attached to an engine already running; false if we spawned one.
    pub attached: bool,
}

/// What the control plane gave this device.
pub struct Credential {
    pub token: String,
    pub host: String,
}

/// Where an onboarding stands: what the host was last told to do.
pub enum ConnectState {
    /// To ask for a device code.
    AwaitingCode,
    /// To open the browser.
    Opening { code: String },
    /// To ask whether the code is approved.
    Polling { code: String, started: Nanos },
    /// To pause before asking again.
    PollPause { code: String, started: Nanos },
    /// To store the credential.
    Persisting { credential: Credential },
    /// To build the engine's configuration.
    Configuring { credential: Credential },
    /// To look for a running engine.
    Discovering { credential: Credential, config: EngineConfig },
    /// To register with the engine that runs.
    Registering { credential: Credential, base: String, info: EngineInfo },
    /// To start an engine.
    Spawning { credential: Credential, base: String },
    /// To probe whether the engine answers.
    Waiting { credential: Credential, base: String, attached: bool, started: Nanos },
    /// To pause before probing again.
    WaitPause { credential: Credential, base: String, attached: bool, started: Nanos },
    /// To publish the app.
    Publishing { credential: Credential, attached: bool },
    /// Nothing: the onboarding is over.
    Finished,
}

/// What the host is to do.
pub enum ConnectAction {
    /// Make this call for a device code.
    RequestCode(Call),
    /// Open this URL in the browser.
    OpenUrl(String),
    /// Make this call for the state of the approval.
    PollExchange(Call),
    /// Pause.
    Sleep(Nanos),
    /// Store the credential wherever the host keeps it.
    Persist { token: String, host: String },
    /// Build the engine's configuration, now that the token is known.
    BuildConfig { token: String },
    /// Make this call to see whether an engine answers.
    Discover(Call),
    /// Make this call to register.
    Register(Call),
    /// Start this configuration's engine.
    Spawn(EngineConfig),
    /// Make this call to publish the app.
    Publish(Call),
    /// Stop: this is the result.
    Finish(Result<Connected, ConnectError>),
}

/// What came of an action. `now` is a clock reading taken when it was done.
#[allow(inconsistent_fields)]
pub enum ConnectEvent {
    CodeReply { reply: Result<DeviceCode, reqwest::Error> },
    UrlOpened { now: Nanos },
    ExchangeReply { reply: Result<Exchange, reqwest::Error>, now: Nanos },
    Woke,
    Persisted,
    ConfigBuilt { config: EngineConfig },
    EngineReply { reply: Result<EngineAnswer, reqwest::Error>, now: Nanos },
    Registered { reply: Result<(), reqwest::Error>, now: Nanos },
    Spawned { attempt: Result<(), std::io::Error>, now: Nanos },
    PublishReply { reply: Result<PublishResult, reqwest::Error> },
}

/// The host name of an exchange; empty where it names none.
pub open spec fn host_text(host: Option<String>) -> Seq<char> {
    match host {
        Some(h) => h@,
        None => Seq::empty(),
    }
}

/// The credential of an approved exchange that carries `token`.
pub open spec fn credential_of(credential: Credential, token: String, host: Option<String>) -> bool {
    &&& credential.token == token
    &&& credential.host@ == host_text(host)
}

/// The call that publishes the requesting app.
pub open spec fn publish_request_call(req: ConnectRequest<'_>, base: Seq<char>) -> CallView {
    publish_call(base, req.publish_name@, req.publish_label@, req.local_port, Some(req.app_id@))
}

/// Whether the onboarding ends with `error`.
pub open spec fn fails(next: ConnectState, action: ConnectAction, error: ConnectError) -> bool {
    &&& next is Finished
    &&& action == ConnectAction::Finish(Err(error))
}

/// Whether an onboarding begins with `state` and `action`.
pub open spec fn connect_begins(
    req: ConnectRequest<'_>,
    state: ConnectState,
    action: ConnectAction,
) -> bool {
    &&& state is AwaitingCode
    &&& action matches ConnectAction::RequestCode(call) && call@ == device_code_call(
        req.control_plane@,
    )
}

impl ConnectState {
    /// Whether `event` is what came of the action that the host was told last.
    pub open spec fn awaits(self, event: ConnectEvent) -> bool {
        match self {
            ConnectState::AwaitingCode => event is CodeReply,
            ConnectState::Opening { .. } => event is UrlOpened,
            ConnectState::Polling { .. } => event is ExchangeReply,
            ConnectState::PollPause { .. } => event is Woke,
            ConnectState::Persisting { .. } => event is Persisted,
            ConnectState::Configuring { .. } => event is ConfigBuilt,
            ConnectState::Discovering { .. } => event is EngineReply,
            ConnectState::Registering { .. } => event is Registered,
            ConnectState::Spawning { .. } => event is Spawned,
            ConnectState::Waiting { .. } => event is EngineReply,
            ConnectState::WaitPause { .. } => event is Woke,
            ConnectState::Publishing { .. } => event is PublishReply,
            ConnectState::Finished => false,
        }
    }
}

/// Whether an onboarding that stands at `state` goes on, once `event` has come of
/// the last action, to stand at `next` with `action` as the next thing to do.
pub open spec fn connect_next(
    req: ConnectRequest<'_>,
    pid: u32,
    state: ConnectState,
    event: ConnectEvent,
    next: ConnectState,
    action: ConnectAction,
) -> bool {
    match (state, event) {
        (ConnectState::AwaitingCode, ConnectEvent::CodeReply { reply }) => match reply {
            Ok(issued) => {
                &&& next == ConnectState::Opening { code: issued.code }
                &&& action == ConnectAction::OpenUrl(issued.verify_url)
            },
            Err(e) => fails(next, action, ConnectError::Http(e)),
        },
        (ConnectState::Opening { code }, ConnectEvent::UrlOpened { now }) => {
            &&& next == ConnectState::Polling { code, started: now }
            &&& action matches ConnectAction::PollExchange(call) && call@ == exchange_call(
                req.control_plane@,
                code@,
            )
        },
        (
            ConnectState::Polling { code, started },
            ConnectEvent::ExchangeReply { reply, now },
        ) => match poll_verdict(reply, started, req.poll_timeout, EXCHANGE_INTERVAL, now) {
            PollStep::Sleep(pause) => {
                &&& next == ConnectState::PollPause { code, started }
                &&& action == ConnectAction::Sleep(pause)
            },
            PollStep::Done(Err(error)) => fails(next, action, error),
            PollStep::Done(Ok(approval)) => match approval.device_token {
                None => fails(next, action, ConnectError::NoCredential),
                Some(token) => {
                    &&& next matches ConnectState::Persisting { credential } && credential_of(
                        credential,
                        token,
                        approval.host,
                    ) && action == (ConnectAction::Persist {
                        token: credential.token,
                        host: credential.host,
                    })
                },
            },
        },
        (ConnectState::PollPause { code, started }, ConnectEvent::Woke) => {
            &&& next == ConnectState::Polling { code, started }
            &&& action matches ConnectAction::PollExchange(call) && call@ == exchange_call(
                req.control_plane@,
                code@,
            )
        },
        (ConnectState::Persisting { credential }, ConnectEvent::Persisted) => {
            &&& next == ConnectState::Configuring { credential }
            &&& action == ConnectAction::BuildConfig { token: credential.token }
        },
        (ConnectState::Configuring { credential }, ConnectEvent::ConfigBuilt { config }) => {
            &&& next == ConnectState::Discovering { credential, config }
            &&& action matches ConnectAction::Discover(call) && call@ == discover_call(
                config.base_text(),
            )
        },
        (
            ConnectState::Discovering { credential, config },
            ConnectEvent::EngineReply { reply, .. },
        ) => if compatible(found(reply), ENGINE_PROTOCOL) {
            &&& next matches ConnectState::Registering { credential: kept, base, info } && kept
                == credential && base@ == config.base_text() && found(reply) == Some(info)
            &&& action matches ConnectAction::Register(call) && call@ == register_call(
                config.base_text(),
                req.app_id@,
                pid,
            )
        } else {
            &&& next matches ConnectState::Spawning { credential: kept, base } && kept == credential
                && base@ == config.base_text()
            &&& action == ConnectAction::Spawn(config)
        },
        (
            ConnectState::Registering { credential, base, .. },
            ConnectEvent::Registered { reply, now },
        ) => match reply {
            Ok(_) => {
                &&& next == ConnectState::Waiting { credential, base, attached: true, started: now }
                &&& action matches ConnectAction::Discover(call) && call@ == discover_call(base@)
            },
            Err(e) => fails(next, action, ConnectError::Http(e)),
        },
        (ConnectState::Spawning { credential, base }, ConnectEvent::Spawned { attempt, now }) =>
        match attempt {
            Ok(_) => {
                &&& next == ConnectState::Waiting { credential, base, attached: false, started: now }
                &&& action matches ConnectAction::Discover(call) && call@ == discover_call(base@)
            },
            Err(e) => fails(next, action, ConnectError::Io(e)),
        },
        (
            ConnectState::Waiting { credential, base, attached, started },
            ConnectEvent::EngineReply { reply, now },
        ) => match wait_verdict(found(reply) is Some, started, ENGINE_TIMEOUT, now) {
            WaitStep::Ready => {
                &&& next == ConnectState::Publishing { credential, attached }
                &&& action matches ConnectAction::Publish(call) && call@ == publish_request_call(
                    req,
                    base@,
                )
            },
            WaitStep::GiveUp => fails(next, action, ConnectError::EngineUnreachable),
            WaitStep::Sleep(pause) => {
                &&& next == ConnectState::WaitPause { credential, base, attached, started }
                &&& action == ConnectAction::Sleep(pause)
            },
        },
        (ConnectState::WaitPause { credential, base, attached, started }, ConnectEvent::Woke) => {
            &&& next == ConnectState::Waiting { credential, base, attached, started }
            &&& action matches ConnectAction::Discover(call) && call@ == discover_call(base@)
        },
        (
            ConnectState::Publishing { credential, attached },
            ConnectEvent::PublishReply { reply },
        ) => match reply {
            Ok(publish) => {
                &&& next is Finished
                &&& action == ConnectAction::Finish(
                    Ok(
                        Connected {
                            device_token: credential.token,
                            host: credential.host,
                            publish,
                            attached,
                        },
                    ),
                )
            },
            Err(e) => fails(next, action, ConnectError::Http(e)),
        },
        _ => false,
    }
}

/// Begins the whole onboarding: request a code, send the person to the browser
/// to sign in / claim their address / start the trial, wait for the credential,
/// persist it, start (or attach to) the engine, and publish this app.
pub fn connect(req: &ConnectRequest<'_>) -> (begun: (ConnectState, ConnectAction))
    ensures
        connect_begins(*req, begun.0, begun.1),
{
    (
        ConnectState::AwaitingCode,
        ConnectAction::RequestCode(request_device_code(req.control_plane)),
    )
}

/// The end of an onboarding that failed.
fn failure(error: ConnectError) -> (end: (ConnectState, ConnectAction))
    ensures
        fails(end.0, end.1, error),
{
    (ConnectState::Finished, ConnectAction::Finish(Err(error)))
}

impl ConnectState {
    /// Goes on with what came of the last action; none where `event` is not what
    /// the onboarding awaits.
    pub fn advance(self, req: &ConnectRequest<'_>, pid: u32, event: ConnectEvent) -> (step: Option<
        (ConnectState, ConnectAction),
    >)
        ensures
            step is Some <==> self.awaits(event),
            step matches Some((next, action)) ==> connect_next(
                *req,
                pid,
                self,
                event,
                next,
                action,
            ),
    {
        match (self, event) {
            (ConnectState::AwaitingCode, ConnectEvent::CodeReply { reply }) => Some(
                match reply {
                    Ok(issued) => (
                        ConnectState::Opening { code: issued.code },
                        ConnectAction::OpenUrl(issued.verify_url),
                    ),
                    Err(e) => failure(ConnectError::from(e)),
                },
            ),
            (ConnectState::Opening { code }, ConnectEvent::UrlOpened { now }) => {
                let call = exchange(req.control_plane, code.as_str());
                Some(
                    (
                        ConnectState::Polling { code, started: now },
                        ConnectAction::PollExchange(call),
                    ),
                )
            },
            (ConnectState::Polling { code, started }, ConnectEvent::ExchangeReply { reply, now }) => {
                Some(after_exchange(req, code, started, reply, now))
            },
            (ConnectState::PollPause { code, started }, ConnectEvent::Woke) => {
                let call = exchange(req.control_plane, code.as_str());
                Some((ConnectState::Polling { code, started }, ConnectAction::PollExchange(call)))
            },
            (ConnectState::Persisting { credential }, ConnectEvent::Persisted) => {
                let token = credential.token.clone();
                Some((ConnectState::Configuring { credential }, ConnectAction::BuildConfig { token }))
            },
            (ConnectState::Configuring { credential }, ConnectEvent::ConfigBuilt { config }) => {
                let call = discover(config.mgmt_base().as_str());
                Some(
                    (
                        ConnectState::Discovering { credential, config },
                        ConnectAction::Discover(call),
                    ),
                )
            },
            (
                ConnectState::Discovering { credential, config },
                ConnectEvent::EngineReply { reply, .. },
            ) => Some(after_discovery(req, pid, credential, config, reply)),
            (
                ConnectState::Registering { credential, base, info },
                ConnectEvent::Registered { reply, now },
            ) => Some(
                match StartOutcome::<()>::attached(info, reply) {
                    Ok(outcome) => begin_waiting(credential, base, outcome.is_attached(), now),
                    Err(e) => failure(ConnectError::from(e)),
                },
            ),
            (ConnectState::Spawning { credential, base }, ConnectEvent::Spawned { attempt, now }) => Some(
                match StartOutcome::spawned(attempt) {
                    Ok(outcome) => begin_waiting(credential, base, outcome.is_attached(), now),
                    Err(e) => failure(ConnectError::from(e)),
                },
            ),
            (
                ConnectState::Waiting { credential, base, attached, started },
                ConnectEvent::EngineReply { reply, now },
            ) => Some(after_probe(req, credential, base, attached, started, reply, now)),
            (
                ConnectState::WaitPause { credential, base, attached, started },
                ConnectEvent::Woke,
            ) => Some(begin_waiting(credential, base, attached, started)),
            (
                ConnectState::Publishing { credential, attached },
                ConnectEvent::PublishReply { reply },
            ) => Some(
                match reply {
                    Ok(publish) => (
                        ConnectState::Finished,
                        ConnectAction::Finish(
                            Ok(
                                Connected {
                                    device_token: credential.token,
                                    host: credential.host,
                                    publish,
                                    attached,
                                },
                            ),
                        ),
                    ),
                    Err(e) => failure(ConnectError::from(e)),
                },
            ),
            _ => None,
        }
    }
}

/// Goes on after the control plane's word on the code.
fn after_exchange(
    req: &ConnectRequest<'_>,
    code: String,
    started: Nanos,
    reply: Result<Exchange, reqwest::Error>,
    now: Nanos,
) -> (step: (ConnectState, ConnectAction))
    ensures
        connect_next(
            *req,
            0,
            (ConnectState::Polling { code, started }),
            (ConnectEvent::ExchangeReply { reply, now }),
            step.0,
            step.1,
        ),
{
    match poll_exchange(reply, started, req.poll_timeout, EXCHANGE_INTERVAL, now) {
        PollStep::Sleep(pause) => (
            ConnectState::PollPause { code, started },
            ConnectAction::Sleep(pause),
        ),
        PollStep::Done(Err(error)) => failure(error),
        PollStep::Done(Ok(approval)) => match approval.device_token {
            None => failure(ConnectError::NoCredential),
            Some(token) => {
                let host = approval.host.unwrap_or_default();
                let action = ConnectAction::Persist { token: token.clone(), host: host.clone() };
                (ConnectState::Persisting { credential: Credential { token, host } }, action)
            },
        },
    }
}

/// Goes on after the look for a running engine.
fn after_discovery(
    req: &ConnectRequest<'_>,
    pid: u32,
    credential: Credential,
    config: EngineConfig,
    reply: Result<EngineAnswer, reqwest::Error>,
) -> (step: (ConnectState, ConnectAction))
    ensures
        connect_next(
            *req,
            pid,
            (ConnectState::Discovering { credential, config }),
            (ConnectEvent::EngineReply { reply, now: 0 }),
            step.0,
            step.1,
        ),
{
    let base = config.mgmt_base();
    match spawn_or_attach(&config, req.app_id, pid, discovered(reply)) {
        StartStep::Attach { register, info } => (
            ConnectState::Registering { credential, base, info },
            ConnectAction::Register(register),
        ),
        StartStep::Spawn => (
            ConnectState::Spawning { credential, base },
            ConnectAction::Spawn(config),
        ),
    }
}

/// Probes whether the engine answers.
fn begin_waiting(
    credential: Credential,
    base: String,
    attached: bool,
    started: Nanos,
) -> (step: (ConnectState, ConnectAction))
    ensures
        step.0 == (ConnectState::Waiting { credential, base, attached, started }),
        step.1 matches ConnectAction::Discover(call) && call@ == discover_call(base@),
{
    let call = discover(base.as_str());
    (ConnectState::Waiting { credential, base, attached, started }, ConnectAction::Discover(call))
}

/// Goes on after a probe whether the engine answers.
fn after_probe(
    req: &ConnectRequest<'_>,
    credential: Credential,
    base: String,
    attached: bool,
    started: Nanos,
    reply: Result<EngineAnswer, reqwest::Error>,
    now: Nanos,
) -> (step: (ConnectState, ConnectAction))
    ensures
        connect_next(
            *req,
            0,
            (ConnectState::Waiting { credential, base, attached, started }),
            (ConnectEvent::EngineReply { reply, now }),
            step.0,
            step.1,
        ),
{
    match wait_engine(&discovered(reply), started, ENGINE_TIMEOUT, now) {
        WaitStep::Ready => {
            let call = publish(
                base.as_str(),
                req.publish_name,
                req.publish_label,
                req.local_port,
                Some(req.app_id),
            );
            (ConnectState::Publishing { credential, attached }, ConnectAction::Publish(call))
        },
        WaitStep::GiveUp => failure(ConnectError::EngineUnreachable),
        WaitStep::Sleep(pause) => (
            ConnectState::WaitPause { credential, base, attached, started },
            ConnectAction::Sleep(pause),
        ),
    }
}

} // verus!
