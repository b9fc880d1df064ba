//! What the host is told to do after each thing that it reports: every action of
//! an onboarding in terms of what came before it.
use crate::approval::{DeviceCode, Exchange};
use crate::clock::Nanos;
use crate::config::EngineConfig;
use crate::discovery::EngineAnswer;
use crate::error::ConnectError;
use crate::history::History;
use crate::onboarding::{
    connect, ConnectAction, ConnectEvent, ConnectRequest, ConnectState, Credential,
};
use crate::outside::{json_members, MemberView};
use crate::requests::{law_publication_members, law_registrant_members, Method, PublishResult};
use crate::text::decimal;
use vstd::prelude::*;

verus! {

impl History {
    /// The onboarding so far, and one step more.
    pub open spec fn followed_by(
        self,
        event: ConnectEvent,
        next: ConnectState,
        action: ConnectAction,
    ) -> History {
        History {
            states: self.states.push(next),
            actions: self.actions.push(action),
            events: self.events.push(event),
        }
    }

    /// Whether the host was told at place `k` to store `credential`.
    spec fn stores(self, k: int, credential: Credential) -> bool {
        &&& 0 <= k < self.actions.len()
        &&& self.actions[k] == ConnectAction::Persist {
            token: credential.token,
            host: credential.host,
        }
    }

    /// Whether event `i` is a configuration whose management address is `base`.
    spec fn addresses(self, i: int, base: Seq<char>) -> bool {
        &&& 0 <= i < self.events.len()
        &&& self.events[i] matches ConnectEvent::ConfigBuilt { config } && base
            == config.base_text()
    }

    /// Whether the engine at `base` was got to serve at place `k` and time
    /// `started`, once `credential` was stored.
    spec fn serves(
        self,
        k: int,
        credential: Credential,
        base: Seq<char>,
        attached: bool,
        started: Nanos,
    ) -> bool {
        &&& 3 <= k < self.events.len()
        &&& self.stores(k - 3, credential)
        &&& self.addresses(k - 2, base)
        &&& if attached {
            self.events[k] matches ConnectEvent::Registered { reply: Ok(_), now } && now == started
        } else {
            self.events[k] matches ConnectEvent::Spawned { attempt: Ok(_), now } && now == started
        }
    }

    /// What state `n` knows of what was said before.
    spec fn knows(self, n: int) -> bool {
        match self.states[n] {
            ConnectState::AwaitingCode => n == 0 && self.actions[n] is RequestCode,
            ConnectState::Opening { code } => {
                &&& n == 1
                &&& self.issued(code)
                &&& self.actions[n] is OpenUrl
            },
            ConnectState::Polling { code, started } => {
                &&& n >= 2
                &&& self.issued(code)
                &&& self.events[1] == (ConnectEvent::UrlOpened { now: started })
                &&& self.actions[n] is PollExchange
            },
            ConnectState::PollPause { code, started } => {
                &&& n >= 2
                &&& self.issued(code)
                &&& self.events[1] == (ConnectEvent::UrlOpened { now: started })
                &&& self.actions[n] is Sleep
                &&& self.events[n - 1] is ExchangeReply
            },
            ConnectState::Persisting { credential } => self.stores(n, credential),
            ConnectState::Configuring { credential } => {
                &&& n >= 1
                &&& self.stores(n - 1, credential)
                &&& self.actions[n] is BuildConfig
            },
            ConnectState::Discovering { credential, config } => {
                &&& n >= 2
                &&& self.stores(n - 2, credential)
                &&& self.events[n - 1] == (ConnectEvent::ConfigBuilt { config })
                &&& self.actions[n] is Discover
            },
            ConnectState::Registering { credential, base, .. } => {
                &&& n >= 3
                &&& self.stores(n - 3, credential)
                &&& self.addresses(n - 2, base@)
                &&& self.actions[n] is Register
            },
            ConnectState::Spawning { credential, base } => {
                &&& n >= 3
                &&& self.stores(n - 3, credential)
                &&& self.addresses(n - 2, base@)
                &&& self.actions[n] is Spawn
            },
            ConnectState::Waiting { credential, base, attached, started } => {
                &&& n >= 1
                &&& exists|k: int|
                    k < n && #[trigger] self.serves(k, credential, base@, attached, started)
                &&& !(self.events[n - 1] is ConfigBuilt)
                &&& self.actions[n] is Discover
            },
            ConnectState::WaitPause { credential, base, attached, started } => {
                &&& n >= 1
                &&& exists|k: int|
                    k < n && #[trigger] self.serves(k, credential, base@, attached, started)
                &&& self.actions[n] is Sleep
                &&& self.events[n - 1] is EngineReply
            },
            ConnectState::Publishing { credential, attached } => {
                &&& exists|k: int, base: Seq<char>, started: Nanos|
                    k < n && #[trigger] self.serves(k, credential, base, attached, started)
                &&& self.actions[n] is Publish
            },
            ConnectState::Finished => self.actions[n] is Finish,
        }
    }
}

proof fn lemma_knows(history: History, req: ConnectRequest<'_>, pid: u32, n: int)
    requires
        history.holds(req, pid),
        0 <= n < history.states.len(),
    ensures
        history.knows(n),
    decreases n,
{
    if n > 0 {
        let m = n - 1;
        lemma_knows(history, req, pid, m);
        assert(history.step_holds(req, pid, m));
        match history.states[n] {
            ConnectState::Waiting { credential, base, attached, started } => {
                if history.states[m] is WaitPause {
                    let k = choose|k: int|
                        k < m && #[trigger] history.serves(k, credential, base@, attached, started);
                    assert(history.serves(k, credential, base@, attached, started));
                } else {
                    assert(history.serves(m, credential, base@, attached, started));
                }
            },
            ConnectState::WaitPause { credential, base, attached, started } => {
                let k = choose|k: int|
                    k < m && #[trigger] history.serves(k, credential, base@, attached, started);
                assert(history.serves(k, credential, base@, attached, started));
            },
            ConnectState::Publishing { credential, attached } => {
                if let ConnectState::Waiting { base, started, .. } = history.states[m] {
                    let k = choose|k: int|
                        k < m && #[trigger] history.serves(k, credential, base@, attached, started);
                    assert(history.serves(k, credential, base@, attached, started));
                }
            },
            _ => {},
        }
    }
}

/// An onboarding begins with a request for a device code, made of the control
/// plane that the app names; and the history of it begins there.
pub proof fn law_begins(
    req: &ConnectRequest<'_>,
    pid: u32,
    begun: (ConnectState, ConnectAction),
)
    requires
        call_ensures(connect, (req,), begun),
    ensures
        begun.1 matches ConnectAction::RequestCode(call) && call.method == Method::Post && call.url@
            == req.control_plane@ + "/device/code"@ && call.body is None && call.timeout
            == 10_000_000_000,
        (History { states: seq![begun.0], actions: seq![begun.1], events: seq![] }).holds(
            *req,
            pid,
        ),
{
}

/// Whatever step the onboarding takes, its history goes on with it: what holds of
/// every history holds of every onboarding that is carried out.
pub proof fn law_goes_on(
    history: History,
    req: &ConnectRequest<'_>,
    pid: u32,
    event: ConnectEvent,
    next: ConnectState,
    action: ConnectAction,
)
    requires
        history.holds(*req, pid),
        call_ensures(
            ConnectState::advance,
            (history.states.last(), req, pid, event),
            Some((next, action)),
        ),
    ensures
        history.followed_by(event, next, action).holds(*req, pid),
{
    let more = history.followed_by(event, next, action);
    let n = history.events.len() as int;
    assert forall|i: int| 0 <= i < more.events.len() implies #[trigger] more.step_holds(
        *req,
        pid,
        i,
    ) by {
        if i < n {
            assert(history.step_holds(*req, pid, i));
        }
    }
}

/// A host that reports what came of the action it was told is always told what to
/// do next, whatever came of it; and it is told nothing for any other report, nor
/// after the end.
pub proof fn law_answers_every_report(
    history: History,
    req: &ConnectRequest<'_>,
    pid: u32,
    event: ConnectEvent,
    step: Option<(ConnectState, ConnectAction)>,
)
    requires
        history.holds(*req, pid),
        call_ensures(ConnectState::advance, (history.states.last(), req, pid, event), step),
    ensures
        step is Some <==> match history.actions.last() {
            ConnectAction::RequestCode(_) => event is CodeReply,
            ConnectAction::OpenUrl(_) => event is UrlOpened,
            ConnectAction::PollExchange(_) => event is ExchangeReply,
            ConnectAction::Sleep(_) => event is Woke,
            ConnectAction::Persist { .. } => event is Persisted,
            ConnectAction::BuildConfig { .. } => event is ConfigBuilt,
            ConnectAction::Discover(_) => event is EngineReply,
            ConnectAction::Register(_) => event is Registered,
            ConnectAction::Spawn(_) => event is Spawned,
            ConnectAction::Publish(_) => event is PublishReply,
            ConnectAction::Finish(_) => false,
        },
{
    lemma_knows(history, *req, pid, history.states.len() - 1);
}

/// In a history too, each event is a report on the action before it.
pub proof fn law_events_report_on_actions(
    history: History,
    req: ConnectRequest<'_>,
    pid: u32,
    n: int,
)
    requires
        history.holds(req, pid),
        0 <= n < history.events.len(),
    ensures
        match history.actions[n] {
            ConnectAction::RequestCode(_) => history.events[n] is CodeReply,
            ConnectAction::OpenUrl(_) => history.events[n] is UrlOpened,
            ConnectAction::PollExchange(_) => history.events[n] is ExchangeReply,
            ConnectAction::Sleep(_) => history.events[n] is Woke,
            ConnectAction::Persist { .. } => history.events[n] is Persisted,
            ConnectAction::BuildConfig { .. } => history.events[n] is ConfigBuilt,
            ConnectAction::Discover(_) => history.events[n] is EngineReply,
            ConnectAction::Register(_) => history.events[n] is Registered,
            ConnectAction::Spawn(_) => history.events[n] is Spawned,
            ConnectAction::Publish(_) => history.events[n] is PublishReply,
            ConnectAction::Finish(_) => false,
        },
{
    lemma_knows(history, req, pid, n);
    assert(history.step_holds(req, pid, n));
}

/// Once a code is issued, the person is sent to the very URL that came with it; a
/// failed request ends the onboarding with its error.
pub proof fn law_after_code(
    history: History,
    req: ConnectRequest<'_>,
    pid: u32,
    n: int,
    reply: Result<DeviceCode, reqwest::Error>,
)
    requires
        history.holds(req, pid),
        0 <= n < history.events.len(),
        history.events[n] == (ConnectEvent::CodeReply { reply }),
    ensures
        n == 0,
        match reply {
            Ok(issued) => history.actions[n + 1] == ConnectAction::OpenUrl(issued.verify_url),
            Err(e) => history.actions[n + 1] == ConnectAction::Finish(Err(ConnectError::Http(e))),
        },
{
    lemma_knows(history, req, pid, n);
    assert(history.step_holds(req, pid, n));
}

/// Once the browser is open, the app's control plane is asked whether the issued
/// code is approved.
pub proof fn law_after_opening(
    history: History,
    req: ConnectRequest<'_>,
    pid: u32,
    n: int,
)
    requires
        history.holds(req, pid),
        0 <= n < history.events.len(),
        history.events[n] is UrlOpened,
    ensures
        n == 1,
        history.actions[n + 1] matches ConnectAction::PollExchange(call) && call.method
            == Method::Get && (history.events[0] matches ConnectEvent::CodeReply {
            reply: Ok(issued),
        } && call.url@ == req.control_plane@ + "/device/exchange?code="@ + issued.code@)
            && call.body is None && call.timeout == 10_000_000_000,
{
    lemma_knows(history, req, pid, n);
    assert(history.step_holds(req, pid, n));
}

/// An approval that carries a credential has exactly that credential stored, with
/// the host that came with it, or none. One without a credential, an unknown code
/// and a failed call end the onboarding, each with its own error. A pending code
/// ends it once the app's window has elapsed since the browser opened, and else is
/// asked for again after 2 s.
pub proof fn law_after_exchange(
    history: History,
    req: ConnectRequest<'_>,
    pid: u32,
    n: int,
    reply: Result<Exchange, reqwest::Error>,
    now: Nanos,
)
    requires
        history.holds(req, pid),
        0 <= n < history.events.len(),
        history.events[n] == (ConnectEvent::ExchangeReply { reply, now }),
    ensures
        match reply {
            Err(e) => history.actions[n + 1] == ConnectAction::Finish(Err(ConnectError::Http(e))),
            Ok(exchange) => if exchange.status@ == "approved"@ {
                match exchange.device_token {
                    None => history.actions[n + 1] == ConnectAction::Finish(
                        Err(ConnectError::NoCredential),
                    ),
                    Some(approved) => history.actions[n + 1] matches ConnectAction::Persist {
                        token,
                        host,
                    } && token == approved && host@ == (match exchange.host {
                        Some(name) => name@,
                        None => Seq::<char>::empty(),
                    }),
                }
            } else if exchange.status@ == "unknown"@ {
                history.actions[n + 1] == ConnectAction::Finish(Err(ConnectError::CodeExpired))
            } else {
                history.events[1] matches ConnectEvent::UrlOpened { now: opened }
                    && history.actions[n + 1] == if now >= opened + req.poll_timeout {
                    ConnectAction::Finish(Err(ConnectError::Timeout))
                } else {
                    ConnectAction::Sleep(2_000_000_000)
                }
            },
        },
{
    lemma_knows(history, req, pid, n);
    assert(history.step_holds(req, pid, n));
}

/// After a pause between two exchange calls, the same code is asked for again, at
/// the same control plane.
pub proof fn law_after_exchange_pause(
    history: History,
    req: ConnectRequest<'_>,
    pid: u32,
    n: int,
)
    requires
        history.holds(req, pid),
        0 < n < history.events.len(),
        history.events[n] is Woke,
        history.events[n - 1] is ExchangeReply,
    ensures
        history.actions[n + 1] matches ConnectAction::PollExchange(call) && call.method
            == Method::Get && (history.events[0] matches ConnectEvent::CodeReply {
            reply: Ok(issued),
        } && call.url@ == req.control_plane@ + "/device/exchange?code="@ + issued.code@)
            && call.body is None && call.timeout == 10_000_000_000,
{
    lemma_knows(history, req, pid, n);
    assert(history.step_holds(req, pid, n));
}

/// Once the credential is stored, the configuration is built for its token.
pub proof fn law_after_storing(
    history: History,
    req: ConnectRequest<'_>,
    pid: u32,
    n: int,
)
    requires
        history.holds(req, pid),
        0 <= n < history.events.len(),
        history.events[n] is Persisted,
    ensures
        history.actions[n] matches ConnectAction::Persist { token, .. } && history.actions[n + 1]
            == (ConnectAction::BuildConfig { token }),
{
    lemma_knows(history, req, pid, n);
    assert(history.step_holds(req, pid, n));
}

/// Once the configuration is built, its own management address is asked whether an
/// engine runs there.
pub proof fn law_after_configuring(
    history: History,
    req: ConnectRequest<'_>,
    pid: u32,
    n: int,
    config: EngineConfig,
)
    requires
        history.holds(req, pid),
        0 <= n < history.events.len(),
        history.events[n] == (ConnectEvent::ConfigBuilt { config }),
    ensures
        history.actions[n + 1] matches ConnectAction::Discover(call) && call.method == Method::Get
            && call.url@ == "http://127.0.0.1:"@ + decimal(
                match config.mgmt_port {
                    Some(port) => port as nat,
                    None => 8765,
                },
            ) + "/engine/info"@ && call.body is None && call.timeout == 1_500_000_000,
{
    lemma_knows(history, req, pid, n);
    assert(history.step_holds(req, pid, n));
}

/// An engine that answers there with success and speaks protocol 1 is registered
/// with, whatever else it says of itself; after any other reply, the engine of the
/// host's configuration is started: all of it, as the host built it.
pub proof fn law_after_discovery(
    history: History,
    req: ConnectRequest<'_>,
    pid: u32,
    n: int,
    config: EngineConfig,
    reply: Result<EngineAnswer, reqwest::Error>,
    now: Nanos,
)
    requires
        history.holds(req, pid),
        0 < n < history.events.len(),
        history.events[n - 1] == (ConnectEvent::ConfigBuilt { config }),
        history.events[n] == (ConnectEvent::EngineReply { reply, now }),
    ensures
        if reply matches Ok(answer) && 200 <= answer.status < 300 && answer.info.protocol == 1 {
            &&& history.states[n + 1] matches ConnectState::Registering { info, .. } && info
                == reply->Ok_0.info
            &&& history.actions[n + 1] matches ConnectAction::Register(call) && call.method
                == Method::Post && call.url@ == "http://127.0.0.1:"@ + decimal(
                match config.mgmt_port {
                    Some(port) => port as nat,
                    None => 8765,
                },
            ) + "/engine/register"@ && (call.body matches Some(object) && json_members(object).dom()
                == set!["appId"@, "pid"@] && json_members(object)["appId"@] == MemberView::Text(
                req.app_id@,
            ) && json_members(object)["pid"@] == MemberView::Number(pid as nat)) && call.timeout
                == 1_500_000_000
        } else {
            history.actions[n + 1] == ConnectAction::Spawn(config)
        },
{
    lemma_knows(history, req, pid, n);
    assert(history.step_holds(req, pid, n));
    law_registrant_members(req.app_id@, pid);
}

/// Only the engine that the host configured is ever started: the program, the
/// agent and every setting are those of the configuration that it built.
pub proof fn law_starts_the_configured_engine(
    history: History,
    req: ConnectRequest<'_>,
    pid: u32,
    n: int,
    started: EngineConfig,
)
    requires
        history.holds(req, pid),
        0 <= n < history.actions.len(),
        history.actions[n] == ConnectAction::Spawn(started),
    ensures
        exists|i: int| 0 <= i < n && #[trigger] history.events[i] == (ConnectEvent::ConfigBuilt {
            config: started,
        }),
        n >= 2,
        history.events[n - 2] == (ConnectEvent::ConfigBuilt { config: started }),
        history.events[n - 1] matches ConnectEvent::EngineReply { reply, .. } && !(reply matches Ok(
            answer,
        ) && 200 <= answer.status < 300 && answer.info.protocol == 1),
{
    if n > 0 {
        lemma_knows(history, req, pid, n - 1);
        assert(history.step_holds(req, pid, n - 1));
        assert(history.events[n - 2] == (ConnectEvent::ConfigBuilt { config: started }));
    }
}

/// An engine is registered with only where it has just answered with success and
/// said that it speaks protocol 1.
pub proof fn law_registers_with_a_compatible_engine(
    history: History,
    req: ConnectRequest<'_>,
    pid: u32,
    n: int,
)
    requires
        history.holds(req, pid),
        0 <= n < history.actions.len(),
        history.actions[n] is Register,
    ensures
        n >= 2,
        history.events[n - 2] is ConfigBuilt,
        history.events[n - 1] matches ConnectEvent::EngineReply { reply: Ok(answer), .. } && 200
            <= answer.status < 300 && answer.info.protocol == 1,
{
    if n > 0 {
        lemma_knows(history, req, pid, n - 1);
        assert(history.step_holds(req, pid, n - 1));
    }
}

/// Once the app is registered, the configured address is probed for the engine; a
/// failed registration ends the onboarding with its error.
pub proof fn law_after_registering(
    history: History,
    req: ConnectRequest<'_>,
    pid: u32,
    n: int,
    reply: Result<(), reqwest::Error>,
    now: Nanos,
)
    requires
        history.holds(req, pid),
        0 <= n < history.events.len(),
        history.events[n] == (ConnectEvent::Registered { reply, now }),
    ensures
        reply is Ok ==> (history.actions[n + 1] matches ConnectAction::Discover(call) && call.method
            == Method::Get && call.body is None && call.timeout == 1_500_000_000 && exists|i: int|
            #![trigger history.events[i]]
            0 <= i < n && (history.events[i] matches ConnectEvent::ConfigBuilt { config }
                && call.url@ == "http://127.0.0.1:"@ + decimal(
                match config.mgmt_port {
                    Some(port) => port as nat,
                    None => 8765,
                },
            ) + "/engine/info"@)),
        reply matches Err(e) ==> history.actions[n + 1] == ConnectAction::Finish(
            Err(ConnectError::Http(e)),
        ),
{
    lemma_knows(history, req, pid, n);
    assert(history.step_holds(req, pid, n));
    assert(history.events[n - 2] is ConfigBuilt);
}

/// Once the engine's process runs, the configured address is probed for the engine;
/// a failed start ends the onboarding with its error.
pub proof fn law_after_starting(
    history: History,
    req: ConnectRequest<'_>,
    pid: u32,
    n: int,
    attempt: Result<(), std::io::Error>,
    now: Nanos,
)
    requires
        history.holds(req, pid),
        0 <= n < history.events.len(),
        history.events[n] == (ConnectEvent::Spawned { attempt, now }),
    ensures
        attempt is Ok ==> (history.actions[n + 1] matches ConnectAction::Discover(call)
            && call.method == Method::Get && call.body is None && call.timeout == 1_500_000_000
            && exists|i: int|
            #![trigger history.events[i]]
            0 <= i < n && (history.events[i] matches ConnectEvent::ConfigBuilt { config }
                && call.url@ == "http://127.0.0.1:"@ + decimal(
                match config.mgmt_port {
                    Some(port) => port as nat,
                    None => 8765,
                },
            ) + "/engine/info"@)),
        attempt matches Err(e) ==> history.actions[n + 1] == ConnectAction::Finish(
            Err(ConnectError::Io(e)),
        ),
{
    lemma_knows(history, req, pid, n);
    assert(history.step_holds(req, pid, n));
    assert(history.events[n - 2] is ConfigBuilt);
}

/// An engine that answers a probe with success, however late, is asked to publish
/// the app: at the configured address, under the app's name, label, port and id. A
/// probe that finds none ends the onboarding once 30 s have passed since the app
/// registered or the engine started, and else is repeated after 200 ms.
pub proof fn law_after_probe(
    history: History,
    req: ConnectRequest<'_>,
    pid: u32,
    n: int,
    reply: Result<EngineAnswer, reqwest::Error>,
    now: Nanos,
)
    requires
        history.holds(req, pid),
        0 < n < history.events.len(),
        !(history.events[n - 1] is ConfigBuilt),
        history.events[n] == (ConnectEvent::EngineReply { reply, now }),
    ensures
        if reply matches Ok(answer) && 200 <= answer.status < 300 {
            history.actions[n + 1] matches ConnectAction::Publish(call) && call.method
                == Method::Post && call.timeout == 1_500_000_000 && (call.body matches Some(object)
                && json_members(object).dom() == set!["name"@, "label"@, "localPort"@, "appId"@]
                && json_members(object)["name"@] == MemberView::Text(req.publish_name@)
                && json_members(object)["label"@] == MemberView::Text(req.publish_label@)
                && json_members(object)["localPort"@] == MemberView::Number(req.local_port as nat)
                && json_members(object)["appId"@] == MemberView::Text(req.app_id@))
                && exists|i: int|
                #![trigger history.events[i]]
                0 <= i < n && (history.events[i] matches ConnectEvent::ConfigBuilt {
                    config,
                } && call.url@ == "http://127.0.0.1:"@ + decimal(
                match config.mgmt_port {
                    Some(port) => port as nat,
                    None => 8765,
                },
            ) + "/publish"@)
        } else {
            exists|k: int|
                #![trigger history.events[k]]
                0 <= k < n && (match history.events[k] {
                    ConnectEvent::Registered { reply: Ok(_), now: started } => {
                        history.actions[n + 1] == if now >= started + 30_000_000_000 {
                            ConnectAction::Finish(Err(ConnectError::EngineUnreachable))
                        } else {
                            ConnectAction::Sleep(200_000_000)
                        }
                    },
                    ConnectEvent::Spawned { attempt: Ok(_), now: started } => {
                        history.actions[n + 1] == if now >= started + 30_000_000_000 {
                            ConnectAction::Finish(Err(ConnectError::EngineUnreachable))
                        } else {
                            ConnectAction::Sleep(200_000_000)
                        }
                    },
                    _ => false,
                })
        },
{
    lemma_knows(history, req, pid, n);
    assert(history.step_holds(req, pid, n));
    if let ConnectState::Waiting { credential, base, attached, started } = history.states[n] {
        let k = choose|k: int|
            k < n && #[trigger] history.serves(k, credential, base@, attached, started);
        assert(history.events[k] is Registered || history.events[k] is Spawned);
        assert(history.events[k - 2] is ConfigBuilt);
        law_publication_members(
            req.publish_name@,
            req.publish_label@,
            req.local_port,
            Some(req.app_id@),
        );
    }
}

/// After a pause between two probes, the configured address is probed again.
pub proof fn law_after_probe_pause(
    history: History,
    req: ConnectRequest<'_>,
    pid: u32,
    n: int,
)
    requires
        history.holds(req, pid),
        0 < n < history.events.len(),
        history.events[n] is Woke,
        history.events[n - 1] is EngineReply,
    ensures
        history.actions[n + 1] matches ConnectAction::Discover(call) && call.method == Method::Get
            && call.body is None && call.timeout == 1_500_000_000 && exists|i: int|
            #![trigger history.events[i]]
            0 <= i < n && (history.events[i] matches ConnectEvent::ConfigBuilt { config }
                && call.url@ == "http://127.0.0.1:"@ + decimal(
                match config.mgmt_port {
                    Some(port) => port as nat,
                    None => 8765,
                },
            ) + "/engine/info"@),
{
    lemma_knows(history, req, pid, n);
    assert(history.step_holds(req, pid, n));
    if let ConnectState::WaitPause { credential, base, attached, started } = history.states[n] {
        let k = choose|k: int|
            k < n && #[trigger] history.serves(k, credential, base@, attached, started);
        assert(history.events[k - 2] is ConfigBuilt);
    }
}

/// A publication that the engine confirms ends the onboarding with success: it gives
/// back that publication, the token and host that the host was told to store, and
/// whether the app registered with an engine that ran or started one. A refused
/// publication ends it with its error.
pub proof fn law_after_publishing(
    history: History,
    req: ConnectRequest<'_>,
    pid: u32,
    n: int,
    reply: Result<PublishResult, reqwest::Error>,
)
    requires
        history.holds(req, pid),
        0 <= n < history.events.len(),
        history.events[n] == (ConnectEvent::PublishReply { reply }),
    ensures
        match reply {
            Err(e) => history.actions[n + 1] == ConnectAction::Finish(Err(ConnectError::Http(e))),
            Ok(publish) => history.actions[n + 1] matches ConnectAction::Finish(Ok(connected))
                && connected.publish == publish && (exists|i: int|
                0 <= i < n && #[trigger] history.actions[i] == (ConnectAction::Persist {
                    token: connected.device_token,
                    host: connected.host,
                })) && (exists|k: int|
                #![trigger history.events[k]]
                0 <= k < n && (if connected.attached {
                    history.events[k] matches ConnectEvent::Registered { reply: Ok(_), .. }
                } else {
                    history.events[k] matches ConnectEvent::Spawned { attempt: Ok(_), .. }
                })),
        },
{
    lemma_knows(history, req, pid, n);
    assert(history.step_holds(req, pid, n));
    if let ConnectState::Publishing { credential, attached } = history.states[n] {
        let (k, base, started) = choose|k: int, base: Seq<char>, started: Nanos|
            k < n && #[trigger] history.serves(k, credential, base, attached, started);
        assert(history.events[k] is Registered || history.events[k] is Spawned);
        assert(history.stores(k - 3, credential));
        assert(history.actions[k - 3] is Persist);
    }
}


} // verus!
