//! What holds of every onboarding from its beginning on.
use crate::approval::Exchange;
use crate::error::ConnectError;
use crate::onboarding::{
    connect_begins, connect_next, publish_request_call, ConnectAction, ConnectEvent,
    ConnectRequest, ConnectState, Connected, Credential, ENGINE_TIMEOUT, EXCHANGE_INTERVAL,
};
use crate::requests::{exchange_call, Method};
use crate::start::PROBE_PAUSE;
use vstd::prelude::*;

verus! {

/// An onboarding so far: `events[i]` came of `actions[i]`, and moved the
/// onboarding from `states[i]` to `states[i + 1]`.
pub struct History {
    pub states: Seq<ConnectState>,
    pub actions: Seq<ConnectAction>,
    pub events: Seq<ConnectEvent>,
}

/// How far along a state is. Only polling and waiting take more than one step.
pub open spec fn phase(state: ConnectState) -> int {
    match state {
        ConnectState::AwaitingCode => 0,
        ConnectState::Opening { .. } => 1,
        ConnectState::Polling { .. } => 2,
        ConnectState::PollPause { .. } => 2,
        ConnectState::Persisting { .. } => 3,
        ConnectState::Configuring { .. } => 4,
        ConnectState::Discovering { .. } => 5,
        ConnectState::Registering { .. } => 6,
        ConnectState::Spawning { .. } => 6,
        ConnectState::Waiting { .. } => 7,
        ConnectState::WaitPause { .. } => 7,
        ConnectState::Publishing { .. } => 8,
        ConnectState::Finished => 9,
    }
}

/// The phase that an action belongs to; pauses and probes belong to several.
pub open spec fn action_phase(action: ConnectAction) -> Option<int> {
    match action {
        ConnectAction::RequestCode(_) => Some(0),
        ConnectAction::OpenUrl(_) => Some(1),
        ConnectAction::PollExchange(_) => Some(2),
        ConnectAction::Sleep(_) => None,
        ConnectAction::Persist { .. } => Some(3),
        ConnectAction::BuildConfig { .. } => Some(4),
        ConnectAction::Discover(_) => None,
        ConnectAction::Register(_) => Some(6),
        ConnectAction::Spawn(_) => Some(6),
        ConnectAction::Publish(_) => Some(8),
        ConnectAction::Finish(_) => Some(9),
    }
}

impl History {
    /// Whether step `i` goes by the rules.
    pub open spec fn step_holds(self, req: ConnectRequest<'_>, pid: u32, i: int) -> bool {
        connect_next(
            req,
            pid,
            self.states[i],
            self.events[i],
            self.states[i + 1],
            self.actions[i + 1],
        )
    }

    /// Whether this is an onboarding of `req`: it begins and goes on by the rules.
    pub open spec fn holds(self, req: ConnectRequest<'_>, pid: u32) -> bool {
        &&& self.states.len() == self.events.len() + 1
        &&& self.actions.len() == self.events.len() + 1
        &&& connect_begins(req, self.states[0], self.actions[0])
        &&& forall|i: int| 0 <= i < self.events.len() ==> #[trigger] self.step_holds(req, pid, i)
    }

    /// Whether event `i` is an approval that gives `credential`, and the next
    /// action is to store it.
    pub open spec fn approves(self, i: int, credential: Credential) -> bool {
        &&& self.events[i] matches ConnectEvent::ExchangeReply { reply: Ok(approval), .. }
            && approval.status@ == "approved"@ && (approval.device_token matches Some(token)
            && credential.token == token) && credential.host@ == (match approval.host {
            Some(name) => name@,
            None => Seq::<char>::empty(),
        })
        &&& self.actions[i + 1] == ConnectAction::Persist {
            token: credential.token,
            host: credential.host,
        }
    }

    /// Whether event `i` is the host's configuration, whose management address is
    /// `base`.
    pub open spec fn configures(self, i: int, base: Seq<char>) -> bool {
        self.events[i] matches ConnectEvent::ConfigBuilt { config } && config.base_text() == base
    }

    /// Whether action `i` got an engine to serve: by registering with the one
    /// that runs (`attached`), or by starting one; and it went through.
    pub open spec fn starts(self, i: int, attached: bool) -> bool {
        if attached {
            &&& self.actions[i] is Register
            &&& self.events[i] matches ConnectEvent::Registered { reply: Ok(_), .. }
        } else {
            &&& self.actions[i] is Spawn
            &&& self.events[i] matches ConnectEvent::Spawned { attempt: Ok(_), .. }
        }
    }

    /// Whether the code was issued to this onboarding.
    pub open spec fn issued(self, code: String) -> bool {
        &&& self.events.len() > 0
        &&& self.events[0] matches ConnectEvent::CodeReply { reply: Ok(issued) } && issued.code
            == code
    }

    spec fn credential_known(self, n: int, credential: Credential) -> bool {
        exists|i: int| 0 <= i < n && #[trigger] self.approves(i, credential)
    }

    spec fn base_known(self, n: int, base: Seq<char>) -> bool {
        exists|i: int| 0 <= i < n && #[trigger] self.configures(i, base)
    }

    spec fn started(self, n: int, attached: bool) -> bool {
        exists|i: int| 0 <= i < n && #[trigger] self.starts(i, attached)
    }

    /// What state `n` remembers of what came before.
    spec fn remembers(self, n: int) -> bool {
        match self.states[n] {
            ConnectState::AwaitingCode => n == 0,
            ConnectState::Opening { code } => n == 1 && self.issued(code),
            ConnectState::Polling { code, .. } => self.issued(code),
            ConnectState::PollPause { code, .. } => self.issued(code),
            ConnectState::Persisting { credential } => self.credential_known(n, credential),
            ConnectState::Configuring { credential } => self.credential_known(n, credential),
            ConnectState::Discovering { credential, config } => {
                &&& self.credential_known(n, credential)
                &&& self.base_known(n, config.base_text())
            },
            ConnectState::Registering { credential, base, .. } => {
                &&& self.credential_known(n, credential)
                &&& self.base_known(n, base@)
                &&& self.actions[n] is Register
            },
            ConnectState::Spawning { credential, base } => {
                &&& self.credential_known(n, credential)
                &&& self.base_known(n, base@)
                &&& self.actions[n] is Spawn
            },
            ConnectState::Waiting { credential, base, attached, .. } => {
                &&& self.credential_known(n, credential)
                &&& self.base_known(n, base@)
                &&& self.started(n, attached)
            },
            ConnectState::WaitPause { credential, base, attached, .. } => {
                &&& self.credential_known(n, credential)
                &&& self.base_known(n, base@)
                &&& self.started(n, attached)
            },
            ConnectState::Publishing { credential, attached } => {
                &&& self.credential_known(n, credential)
                &&& self.started(n, attached)
            },
            ConnectState::Finished => true,
        }
    }
}

/// The action of every state belongs to that state's phase.
spec fn in_phase(state: ConnectState, action: ConnectAction) -> bool {
    &&& action_phase(action) matches Some(p) ==> p == phase(state)
    &&& phase(state) != 2 && phase(state) != 5 && phase(state) != 7 ==> action_phase(action) is Some
}

proof fn lemma_step(
    req: ConnectRequest<'_>,
    pid: u32,
    state: ConnectState,
    event: ConnectEvent,
    next: ConnectState,
    action: ConnectAction,
)
    requires
        connect_next(req, pid, state, event, next, action),
    ensures
        phase(next) > phase(state) || phase(next) == phase(state) && (phase(state) == 2 || phase(
            state,
        ) == 7),
        in_phase(next, action),
        !(state is Finished),
{
}

proof fn lemma_phases(history: History, req: ConnectRequest<'_>, pid: u32, i: int, j: int)
    requires
        history.holds(req, pid),
        0 <= i <= j < history.states.len(),
    ensures
        phase(history.states[i]) <= phase(history.states[j]),
        i < j && phase(history.states[i]) == phase(history.states[j]) ==> phase(history.states[i])
            == 2 || phase(history.states[i]) == 7,
        in_phase(history.states[j], history.actions[j]),
    decreases j - i,
{
    if i < j {
        lemma_phases(history, req, pid, i, j - 1);
        assert(history.step_holds(req, pid, j - 1));
        lemma_step(
            req,
            pid,
            history.states[j - 1],
            history.events[j - 1],
            history.states[j],
            history.actions[j],
        );
    } else if j > 0 {
        assert(history.step_holds(req, pid, j - 1));
        lemma_step(
            req,
            pid,
            history.states[j - 1],
            history.events[j - 1],
            history.states[j],
            history.actions[j],
        );
    }
}

proof fn lemma_remembers(history: History, req: ConnectRequest<'_>, pid: u32, n: int)
    requires
        history.holds(req, pid),
        0 <= n < history.states.len(),
    ensures
        history.remembers(n),
    decreases n,
{
    if n > 0 {
        let m = n - 1;
        lemma_remembers(history, req, pid, m);
        assert(history.step_holds(req, pid, m));
        match history.states[n] {
            ConnectState::Persisting { credential } => {
                assert(history.approves(m, credential));
            },
            ConnectState::Discovering { credential, config } => {
                assert(history.configures(m, config.base_text()));
            },
            ConnectState::Waiting { attached, .. } => {
                if !(history.states[m] is WaitPause) {
                    assert(history.starts(m, attached));
                }
            },
            _ => {},
        }
    }
}

/// The browser is opened once, the credential stored once, the configuration
/// built once, the app published once and the onboarding ended once; and only one
/// engine is registered with or started, never both.
pub proof fn law_each_thing_once(
    history: History,
    req: ConnectRequest<'_>,
    pid: u32,
    i: int,
    j: int,
)
    requires
        history.holds(req, pid),
        0 <= i < j < history.actions.len(),
    ensures
        !(history.actions[i] is OpenUrl && history.actions[j] is OpenUrl),
        !(history.actions[i] is Persist && history.actions[j] is Persist),
        !(history.actions[i] is BuildConfig && history.actions[j] is BuildConfig),
        !((history.actions[i] is Register || history.actions[i] is Spawn) && (
        history.actions[j] is Register || history.actions[j] is Spawn)),
        !(history.actions[i] is Publish && history.actions[j] is Publish),
        !(history.actions[i] is Finish && history.actions[j] is Finish),
{
    lemma_phases(history, req, pid, i, i);
    lemma_phases(history, req, pid, i, j);
}

/// The actions come in their order: code, browser, approval, credential,
/// configuration, engine, publication, end.
pub proof fn law_actions_in_order(
    history: History,
    req: ConnectRequest<'_>,
    pid: u32,
    i: int,
    j: int,
)
    requires
        history.holds(req, pid),
        0 <= i < history.actions.len(),
        0 <= j < history.actions.len(),
        action_phase(history.actions[i]) is Some,
        action_phase(history.actions[j]) is Some,
        action_phase(history.actions[i])->0 < action_phase(history.actions[j])->0,
    ensures
        i < j,
{
    lemma_phases(history, req, pid, i, i);
    lemma_phases(history, req, pid, j, j);
    if j <= i {
        lemma_phases(history, req, pid, j, i);
    }
}

/// Nothing follows the end.
pub proof fn law_nothing_after_the_end(
    history: History,
    req: ConnectRequest<'_>,
    pid: u32,
    n: int,
)
    requires
        history.holds(req, pid),
        0 <= n < history.actions.len(),
        history.actions[n] is Finish,
    ensures
        n + 1 == history.actions.len(),
        history.states[n] is Finished,
{
    lemma_phases(history, req, pid, n, n);
    if n + 1 < history.actions.len() {
        assert(history.step_holds(req, pid, n));
        lemma_step(
            req,
            pid,
            history.states[n],
            history.events[n],
            history.states[n + 1],
            history.actions[n + 1],
        );
    }
}

/// Whatever is polled for is the code that the control plane issued, and the URL
/// that is opened came with it.
pub proof fn law_only_the_issued_code(
    history: History,
    req: ConnectRequest<'_>,
    pid: u32,
    n: int,
)
    requires
        history.holds(req, pid),
        0 <= n < history.actions.len(),
    ensures
        history.actions[n] matches ConnectAction::PollExchange(call) ==> exists|code: String|
            #[trigger] history.issued(code) && call@ == exchange_call(req.control_plane@, code@)
                && call.method == Method::Get && call.url@ == req.control_plane@
                + "/device/exchange?code="@ + code@ && call.body is None,
        history.actions[n] matches ConnectAction::OpenUrl(url) ==> n == 1 && (history.events[0]
            matches ConnectEvent::CodeReply { reply: Ok(issued) } && url == issued.verify_url),
{
    lemma_remembers(history, req, pid, n);
    if n > 0 {
        assert(history.step_holds(req, pid, n - 1));
        lemma_remembers(history, req, pid, n - 1);
        match history.states[n] {
            ConnectState::Polling { code, .. } => {
                assert(history.issued(code));
            },
            _ => {},
        }
    }
}

/// A credential is stored only where an approval has just given it.
pub proof fn law_only_approved_credentials(
    history: History,
    req: ConnectRequest<'_>,
    pid: u32,
    n: int,
    token: String,
    host: String,
)
    requires
        history.holds(req, pid),
        0 <= n < history.actions.len(),
        history.actions[n] == (ConnectAction::Persist { token, host }),
    ensures
        n > 0,
        history.approves(n - 1, (Credential { token, host })),
{
    if n > 0 {
        assert(history.step_holds(req, pid, n - 1));
    }
}

/// No engine is registered with or started before the credential is stored.
pub proof fn law_credential_before_engine(
    history: History,
    req: ConnectRequest<'_>,
    pid: u32,
    n: int,
)
    requires
        history.holds(req, pid),
        0 <= n < history.actions.len(),
        history.actions[n] is Register || history.actions[n] is Spawn,
    ensures
        exists|i: int| 0 <= i < n && #[trigger] history.actions[i] is Persist,
{
    lemma_phases(history, req, pid, n, n);
    lemma_remembers(history, req, pid, n);
    let credential = match history.states[n] {
        ConnectState::Registering { credential, .. } => credential,
        ConnectState::Spawning { credential, .. } => credential,
        _ => arbitrary(),
    };
    let i = choose|i: int| 0 <= i < n && #[trigger] history.approves(i, credential);
    assert(history.actions[i + 1] is Persist);
}

/// The app is published only when the engine has just answered, at the address of
/// the configuration that the host built.
pub proof fn law_publish_to_an_answering_engine(
    history: History,
    req: ConnectRequest<'_>,
    pid: u32,
    n: int,
)
    requires
        history.holds(req, pid),
        0 <= n < history.actions.len(),
        history.actions[n] is Publish,
    ensures
        n > 0,
        history.events[n - 1] matches ConnectEvent::EngineReply { reply: Ok(answer), .. }
            && 200 <= answer.status < 300,
        exists|i: int, base: Seq<char>|
            0 <= i < n && #[trigger] history.configures(i, base)
                && history.actions[n]->Publish_0@ == publish_request_call(req, base),
{
    if n > 0 {
        assert(history.step_holds(req, pid, n - 1));
        lemma_remembers(history, req, pid, n - 1);
        match history.states[n - 1] {
            ConnectState::Waiting { base, .. } => {
                let i = choose|i: int| 0 <= i < n - 1 && #[trigger] history.configures(i, base@);
                assert(history.configures(i, base@));
            },
            _ => {},
        }
    }
}

/// An onboarding that succeeds gives back the credential that was approved and
/// stored, and the publication that the engine confirmed; and it says that it
/// attached exactly where it registered, successfully, with an engine that ran,
/// and else it started one.
pub proof fn law_success(
    history: History,
    req: ConnectRequest<'_>,
    pid: u32,
    n: int,
    connected: Connected,
)
    requires
        history.holds(req, pid),
        0 <= n < history.actions.len(),
        history.actions[n] == ConnectAction::Finish(Ok(connected)),
    ensures
        n > 0,
        exists|i: int|
            0 <= i < n && #[trigger] history.approves(
                i,
                (Credential { token: connected.device_token, host: connected.host }),
            ),
        exists|i: int| 0 <= i < n && #[trigger] history.starts(i, connected.attached),
        connected.attached ==> forall|i: int|
            0 <= i <= n ==> !(#[trigger] history.actions[i] is Spawn),
        !connected.attached ==> forall|i: int|
            0 <= i <= n ==> !(#[trigger] history.actions[i] is Register),
        history.actions[n - 1] is Publish,
        history.events[n - 1] matches ConnectEvent::PublishReply { reply: Ok(publish) } && publish
            == connected.publish,
{
    if n > 0 {
        let m = n - 1;
        assert(history.step_holds(req, pid, m));
        lemma_remembers(history, req, pid, m);
        lemma_phases(history, req, pid, m, m);
        let credential = Credential { token: connected.device_token, host: connected.host };
        assert(history.states[m] == ConnectState::Publishing {
            credential,
            attached: connected.attached,
        });
        let k = choose|i: int| 0 <= i < m && #[trigger] history.starts(i, connected.attached);
        assert(history.starts(k, connected.attached));
        assert forall|i: int| 0 <= i <= n && i != k implies !(#[trigger] history.actions[i] is Spawn
            || history.actions[i] is Register) by {
            if i < k {
                law_each_thing_once(history, req, pid, i, k);
            } else {
                law_each_thing_once(history, req, pid, k, i);
            }
        }
    }
}

/// An onboarding that fails says why: each error comes of the last event, and of
/// no other kind of event.
pub proof fn law_failure(
    history: History,
    req: ConnectRequest<'_>,
    pid: u32,
    n: int,
    error: ConnectError,
)
    requires
        history.holds(req, pid),
        0 <= n < history.actions.len(),
        history.actions[n] == ConnectAction::Finish(Err(error)),
    ensures
        n > 0,
        match error {
            ConnectError::Http(e) => {
                ||| history.events[n - 1] == (ConnectEvent::CodeReply { reply: Err(e) })
                ||| history.events[n - 1] matches ConnectEvent::ExchangeReply { reply, .. } && reply
                    == Err::<Exchange, reqwest::Error>(e)
                ||| history.events[n - 1] matches ConnectEvent::Registered { reply, .. } && reply
                    == Err::<(), reqwest::Error>(e)
                ||| history.events[n - 1] == (ConnectEvent::PublishReply { reply: Err(e) })
            },
            ConnectError::Io(e) => history.events[n - 1] matches ConnectEvent::Spawned {
                attempt,
                ..
            } && attempt == Err::<(), std::io::Error>(e),
            ConnectError::CodeExpired => history.events[n - 1] matches ConnectEvent::ExchangeReply {
                reply: Ok(approval),
                ..
            } && approval.status@ == "unknown"@,
            ConnectError::Timeout => history.events[n - 1] matches ConnectEvent::ExchangeReply {
                reply: Ok(approval),
                now,
            } && history.states[n - 1] matches ConnectState::Polling { started, .. } && now
                >= started + req.poll_timeout && approval.status@ != "approved"@ && approval.status@
                != "unknown"@,
            ConnectError::NoCredential => history.events[n
                - 1] matches ConnectEvent::ExchangeReply { reply: Ok(approval), .. }
                && approval.status@ == "approved"@ && approval.device_token is None,
            ConnectError::EngineUnreachable => history.events[n
                - 1] matches ConnectEvent::EngineReply { reply, now } && !(reply matches Ok(answer)
                && 200 <= answer.status < 300) && (history.states[n
                - 1] matches ConnectState::Waiting { started, .. } && now >= started
                + ENGINE_TIMEOUT),
        },
{
    if n > 0 {
        assert(history.step_holds(req, pid, n - 1));
    }
}

/// An onboarding has something to wait for until it is over.
pub proof fn law_goes_on_until_the_end(state: ConnectState)
    ensures
        state is Finished <==> !exists|event: ConnectEvent| #[trigger] state.awaits(event),
{
    if !(state is Finished) {
        let event = match state {
            ConnectState::AwaitingCode => ConnectEvent::CodeReply { reply: arbitrary() },
            ConnectState::Opening { .. } => ConnectEvent::UrlOpened { now: 0 },
            ConnectState::Polling { .. } => ConnectEvent::ExchangeReply {
                reply: arbitrary(),
                now: 0,
            },
            ConnectState::Persisting { .. } => ConnectEvent::Persisted,
            ConnectState::Configuring { .. } => ConnectEvent::ConfigBuilt { config: arbitrary() },
            ConnectState::Registering { .. } => ConnectEvent::Registered {
                reply: arbitrary(),
                now: 0,
            },
            ConnectState::Spawning { .. } => ConnectEvent::Spawned { attempt: arbitrary(), now: 0 },
            ConnectState::Publishing { .. } => ConnectEvent::PublishReply { reply: arbitrary() },
            ConnectState::Discovering { .. } | ConnectState::Waiting { .. } =>
            ConnectEvent::EngineReply { reply: arbitrary(), now: 0 },
            _ => ConnectEvent::Woke,
        };
        assert(state.awaits(event));
    }
}

/// The clock reading that an event carries.
pub open spec fn reading(event: ConnectEvent) -> int {
    match event {
        ConnectEvent::UrlOpened { now } => now as int,
        ConnectEvent::ExchangeReply { now, .. } => now as int,
        ConnectEvent::EngineReply { now, .. } => now as int,
        ConnectEvent::Registered { now, .. } => now as int,
        ConnectEvent::Spawned { now, .. } => now as int,
        _ => 0,
    }
}

impl History {
    /// Whether the clock of event `i` went on: a reply comes no earlier than its
    /// wait began, and after a pause the next reply comes at least that much later.
    pub open spec fn clock_goes_on(self, i: int) -> bool {
        match self.states[i] {
            ConnectState::Polling { started, .. } => if self.states[i - 1] is PollPause {
                reading(self.events[i]) >= reading(self.events[i - 2]) + EXCHANGE_INTERVAL
            } else {
                reading(self.events[i]) >= started
            },
            ConnectState::Waiting { started, .. } => if self.states[i - 1] is WaitPause {
                reading(self.events[i]) >= reading(self.events[i - 2]) + PROBE_PAUSE
            } else {
                reading(self.events[i]) >= started
            },
            _ => true,
        }
    }

    /// Whether the host's clock went on, and its pauses were pauses.
    pub open spec fn well_timed(self) -> bool {
        forall|i: int| 0 <= i < self.events.len() ==> #[trigger] self.clock_goes_on(i)
    }

    /// Whether `n` is place `2 * k` of a wait that began at place `from` and at
    /// time `started`, and for which `timeout` is not over yet.
    spec fn round(
        self,
        n: int,
        from: int,
        k: int,
        started: int,
        timeout: int,
        pause: int,
    ) -> bool {
        &&& k >= 0
        &&& n == from + 2 * k
        &&& k > 0 ==> reading(self.events[n - 2]) >= started + (k - 1) * pause
        &&& k > 0 ==> reading(self.events[n - 2]) < started + timeout
    }

    /// Whether `n` is the pause before place `2 * k` of such a wait.
    spec fn pausing(
        self,
        n: int,
        from: int,
        k: int,
        started: int,
        timeout: int,
        pause: int,
    ) -> bool {
        &&& k > 0
        &&& self.round(n + 1, from, k, started, timeout, pause)
    }

    /// How late state `n` can come.
    spec fn in_time(self, req: ConnectRequest<'_>, n: int) -> bool {
        let polled = 2 * (req.poll_timeout / EXCHANGE_INTERVAL) + 5;
        let probed = 2 * (ENGINE_TIMEOUT / PROBE_PAUSE);
        let timeout = req.poll_timeout as int;
        let interval = EXCHANGE_INTERVAL as int;
        match self.states[n] {
            ConnectState::AwaitingCode => n == 0,
            ConnectState::Opening { .. } => n == 1,
            ConnectState::Polling { started, .. } => {
                &&& exists|k: int| #[trigger]
                    self.round(n, 2, k, started as int, timeout, interval)
                &&& self.states[n - 1] is Opening <==> n == 2
                &&& self.states[n - 1] is Opening || self.states[n - 1] is PollPause
            },
            ConnectState::PollPause { started, .. } => {
                &&& self.states[n - 1] is Polling
                &&& exists|k: int| #[trigger]
                    self.pausing(n, 2, k, started as int, timeout, interval)
            },
            ConnectState::Persisting { .. } => n <= polled,
            ConnectState::Configuring { .. } => n <= polled + 1,
            ConnectState::Discovering { .. } => n <= polled + 2,
            ConnectState::Registering { .. } => n <= polled + 3,
            ConnectState::Spawning { .. } => n <= polled + 3,
            ConnectState::Waiting { started, .. } => {
                exists|from: int, k: int| #[trigger]
                    self.round(
                        n,
                        from,
                        k,
                        started as int,
                        ENGINE_TIMEOUT as int,
                        PROBE_PAUSE as int,
                    ) && from <= polled + 4 && (self.states[n - 1] is WaitPause <==> k > 0)
            },
            ConnectState::WaitPause { started, .. } => {
                &&& self.states[n - 1] is Waiting
                &&& exists|from: int, k: int| #[trigger]
                    self.pausing(
                        n,
                        from,
                        k,
                        started as int,
                        ENGINE_TIMEOUT as int,
                        PROBE_PAUSE as int,
                    ) && from <= polled + 4
            },
            ConnectState::Publishing { .. } => n <= polled + probed + 7,
            ConnectState::Finished => n <= polled + probed + 8,
        }
    }
}

proof fn lemma_rounds(
    history: History,
    n: int,
    from: int,
    k: int,
    started: int,
    timeout: int,
    pause: int,
)
    requires
        history.round(n, from, k, started, timeout, pause),
        pause > 0,
        timeout >= 0,
    ensures
        k <= timeout / pause + 1,
        n <= from + 2 * (timeout / pause) + 2,
{
    if k > 0 {
        assert(k - 1 <= timeout / pause) by (nonlinear_arith)
            requires
                (k - 1) * pause < timeout,
                pause > 0,
                k > 0,
        ;
    } else {
        assert(timeout / pause >= 0) by (nonlinear_arith)
            requires
                timeout >= 0,
                pause > 0,
        ;
    }
}

proof fn lemma_in_time(history: History, req: ConnectRequest<'_>, pid: u32, n: int)
    requires
        history.holds(req, pid),
        history.well_timed(),
        0 <= n < history.states.len(),
    ensures
        history.in_time(req, n),
    decreases n,
{
    let timeout = req.poll_timeout as int;
    let interval = EXCHANGE_INTERVAL as int;
    let patience = ENGINE_TIMEOUT as int;
    let pause = PROBE_PAUSE as int;
    if n > 0 {
        let m = n - 1;
        lemma_in_time(history, req, pid, m);
        assert(history.step_holds(req, pid, m));
        assert(history.clock_goes_on(m));
        match history.states[m] {
            ConnectState::Opening { .. } => {
                if let ConnectState::Polling { started, .. } = history.states[n] {
                    assert(history.round(n, 2, 0, started as int, timeout, interval));
                }
            },
            ConnectState::Polling { started, .. } => {
                let k = choose|k: int| #[trigger]
                    history.round(m, 2, k, started as int, timeout, interval);
                lemma_rounds(history, m, 2, k, started as int, timeout, interval);
                if history.states[n] is PollPause {
                    assert((k - 1) * interval + interval == k * interval) by (nonlinear_arith);
                    assert(history.states[n]->PollPause_started == started);
                    assert(history.pausing(n, 2, k + 1, started as int, timeout, interval));
                }
            },
            ConnectState::PollPause { started, .. } => {
                let k = choose|k: int| #[trigger]
                    history.pausing(m, 2, k, started as int, timeout, interval);
                assert(history.states[n]->Polling_started == started);
                assert(history.round(n, 2, k, started as int, timeout, interval));
            },
            ConnectState::Registering { .. } | ConnectState::Spawning { .. } => {
                if let ConnectState::Waiting { started, .. } = history.states[n] {
                    assert(history.round(n, n, 0, started as int, patience, pause));
                }
            },
            ConnectState::Waiting { started, .. } => {
                let polled = 2 * (req.poll_timeout / EXCHANGE_INTERVAL) + 5;
                let (from, k) = choose|from: int, k: int| #[trigger]
                    history.round(m, from, k, started as int, patience, pause) && from <= polled
                        + 4 && (history.states[m - 1] is WaitPause <==> k > 0);
                lemma_rounds(history, m, from, k, started as int, patience, pause);
                if history.states[n] is WaitPause {
                    assert((k - 1) * pause + pause == k * pause) by (nonlinear_arith);
                    assert(history.states[n]->WaitPause_started == started);
                    assert(history.pausing(n, from, k + 1, started as int, patience, pause));
                }
            },
            ConnectState::WaitPause { started, .. } => {
                let polled = 2 * (req.poll_timeout / EXCHANGE_INTERVAL) + 5;
                let (from, k) = choose|from: int, k: int| #[trigger]
                    history.pausing(m, from, k, started as int, patience, pause) && from <= polled
                        + 4;
                assert(history.states[n]->Waiting_started == started);
                assert(history.round(n, from, k, started as int, patience, pause));
            },
            _ => {},
        }
    }
}

/// An onboarding ends: on a clock that goes on, it takes no more steps than the
/// approval window and the engine's patience allow.
pub proof fn law_onboarding_ends(history: History, req: ConnectRequest<'_>, pid: u32)
    requires
        history.holds(req, pid),
        history.well_timed(),
    ensures
        history.events.len() <= 2 * (req.poll_timeout / EXCHANGE_INTERVAL) + 2 * (ENGINE_TIMEOUT
            / PROBE_PAUSE) + 13,
{
    let n = history.events.len() as int;
    lemma_in_time(history, req, pid, n);
    let timeout = req.poll_timeout as int;
    match history.states[n] {
        ConnectState::Polling { started, .. } => {
            let k = choose|k: int| #[trigger]
                history.round(n, 2, k, started as int, timeout, EXCHANGE_INTERVAL as int);
            lemma_rounds(history, n, 2, k, started as int, timeout, EXCHANGE_INTERVAL as int);
        },
        ConnectState::PollPause { started, .. } => {
            let k = choose|k: int| #[trigger]
                history.pausing(n, 2, k, started as int, timeout, EXCHANGE_INTERVAL as int);
            lemma_rounds(history, n + 1, 2, k, started as int, timeout, EXCHANGE_INTERVAL as int);
        },
        ConnectState::Waiting { started, .. } => {
            let polled = 2 * (req.poll_timeout / EXCHANGE_INTERVAL) + 5;
            let (from, k) = choose|from: int, k: int| #[trigger]
                history.round(
                    n,
                    from,
                    k,
                    started as int,
                    ENGINE_TIMEOUT as int,
                    PROBE_PAUSE as int,
                ) && from <= polled + 4 && (history.states[n - 1] is WaitPause <==> k > 0);
            lemma_rounds(
                history,
                n,
                from,
                k,
                started as int,
                ENGINE_TIMEOUT as int,
                PROBE_PAUSE as int,
            );
        },
        ConnectState::WaitPause { started, .. } => {
            let polled = 2 * (req.poll_timeout / EXCHANGE_INTERVAL) + 5;
            let (from, k) = choose|from: int, k: int| #[trigger]
                history.pausing(
                    n,
                    from,
                    k,
                    started as int,
                    ENGINE_TIMEOUT as int,
                    PROBE_PAUSE as int,
                ) && from <= polled + 4;
            lemma_rounds(
                history,
                n + 1,
                from,
                k,
                started as int,
                ENGINE_TIMEOUT as int,
                PROBE_PAUSE as int,
            );
        },
        _ => {},
    }
}

} // verus!
