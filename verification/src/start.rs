//! Getting exactly one engine to serve: attach to the one that runs, or start one.
use crate::clock::{is_over, lemma_paced, over, paced, Nanos};
use crate::config::EngineConfig;
use crate::discovery::{compatible, decide_start_action, EngineInfo, StartAction, ENGINE_PROTOCOL};
use crate::outside::{json_members, MemberView};
use crate::requests::{law_registrant_members, register, register_call, Call, Method};
use crate::text::decimal;
use vstd::prelude::*;

verus! {

/// How long to pause between two probes for a fresh engine: 200 ms.
pub const PROBE_PAUSE: Nanos = 200_000_000;

/// The result of getting an engine to serve; `C` is the host's handle on a
/// process that it started.
pub enum StartOutcome<C> {
    /// A compatible engine was already running; we registered against it.
    Attached(EngineInfo),
    /// No compatible engine — we spawned our own.
    Spawned(C),
}

impl<C> StartOutcome<C> {
    /// Whether the engine was already running.
    pub fn is_attached(&self) -> (yes: bool)
        ensures
            yes == (self is Attached),
    {
        matches!(self, StartOutcome::Attached(_))
    }

    /// The outcome of attaching to the engine that `info` describes, given what
    /// came of registering with it: attached only where that went through.
    pub fn attached(info: EngineInfo, reply: Result<(), reqwest::Error>) -> (outcome: Result<
        Self,
        reqwest::Error,
    >)
        ensures
            outcome == match reply {
                Ok(_) => Ok(StartOutcome::<C>::Attached(info)),
                Err(e) => Err(e),
            },
    {
        match reply {
            Ok(_) => Ok(StartOutcome::Attached(info)),
            Err(e) => Err(e),
        }
    }

    /// The outcome of an attempt to start a process.
    pub fn spawned(attempt: Result<C, std::io::Error>) -> (outcome: Result<Self, std::io::Error>)
        ensures
            outcome == match attempt {
                Ok(child) => Ok(StartOutcome::Spawned(child)),
                Err(e) => Err(e),
            },
    {
        match attempt {
            Ok(child) => Ok(StartOutcome::Spawned(child)),
            Err(e) => Err(e),
        }
    }
}

/// What to do once discovery has answered.
pub enum StartStep {
    /// Register by this call with the engine described;
    /// [`StartOutcome::attached`] says what comes of it.
    Attach { register: Call, info: EngineInfo },
    /// Start the configuration's engine; [`StartOutcome::spawned`] says what
    /// comes of it.
    Spawn,
}

/// Given what discovery found at the configuration's own management address,
/// either **attach** to it (registering `app_id`) or **spawn** a new engine from
/// `cfg`. This is the one decision an embedding app makes to guarantee exactly one
/// engine is serving on this machine.
pub fn spawn_or_attach(
    cfg: &EngineConfig,
    app_id: &str,
    pid: u32,
    found: Option<EngineInfo>,
) -> (step: StartStep)
    ensures
        match step {
            StartStep::Attach { register, info } => {
                &&& compatible(found, ENGINE_PROTOCOL)
                &&& found == Some(info)
                &&& register@ == register_call(cfg.base_text(), app_id@, pid)
            },
            StartStep::Spawn => !compatible(found, ENGINE_PROTOCOL),
        },
        step is Attach <==> (found matches Some(i) && i.protocol == ENGINE_PROTOCOL),
{
    let base = cfg.mgmt_base();
    if let Some(info) = found {
        if decide_start_action(Some(&info), ENGINE_PROTOCOL) == StartAction::Attach {
            return StartStep::Attach { register: register(base.as_str(), app_id, pid), info };
        }
    }
    StartStep::Spawn
}

/// What to do after a probe for a fresh engine.
#[derive(Debug, Clone, Copy, PartialEq, Eq, Structural)]
pub enum WaitStep {
    /// The engine answers.
    Ready,
    /// The engine did not answer in time.
    GiveUp,
    /// Wait so long, then probe again.
    Sleep(Nanos),
}

/// What to do after a probe that did (`answered`) or did not find the engine and
/// came back at `now`, where waiting began at `started`.
pub open spec fn wait_verdict(
    answered: bool,
    started: Nanos,
    timeout: Nanos,
    now: Nanos,
) -> WaitStep {
    if answered {
        WaitStep::Ready
    } else if over(started as int, timeout as int, now as int) {
        WaitStep::GiveUp
    } else {
        WaitStep::Sleep(PROBE_PAUSE)
    }
}

/// One round of probing `GET /engine/info` until the engine answers or the
/// deadline passes — a freshly spawned engine needs a moment to bind its
/// management port and learn its identity before it can accept a publish.
pub fn wait_engine(
    found: &Option<EngineInfo>,
    started: Nanos,
    timeout: Nanos,
    now: Nanos,
) -> (step: WaitStep)
    ensures
        step == wait_verdict(found is Some, started, timeout, now),
{
    if found.is_some() {
        WaitStep::Ready
    } else if is_over(started, timeout, now) {
        WaitStep::GiveUp
    } else {
        WaitStep::Sleep(PROBE_PAUSE)
    }
}

/// Whether a probe found the engine, and when it came back.
pub struct Probe {
    pub answered: bool,
    pub now: Nanos,
}

/// The result of waiting with `probes` one after the other: whether the engine
/// answered in time; none while the waiting still goes on.
pub open spec fn wait_outcome(probes: Seq<Probe>, started: Nanos, timeout: Nanos) -> Option<bool>
    decreases probes.len(),
{
    if probes.len() == 0 {
        None
    } else {
        match wait_verdict(probes[0].answered, started, timeout, probes[0].now) {
            WaitStep::Ready => Some(true),
            WaitStep::GiveUp => Some(false),
            WaitStep::Sleep(_) => wait_outcome(probes.skip(1), started, timeout),
        }
    }
}

/// Waiting ends at the first probe that finds the engine or comes back when the
/// time is up, and succeeds exactly where that probe found it: even a wait of no
/// time probes once, and a late answer still counts.
pub proof fn law_first_decisive_probe_ends_waiting(
    probes: Seq<Probe>,
    started: Nanos,
    timeout: Nanos,
    n: int,
)
    requires
        0 <= n < probes.len(),
        forall|i: int|
            0 <= i < n ==> !(#[trigger] probes[i].answered) && probes[i].now < started + timeout,
    ensures
        probes[n].answered || probes[n].now >= started + timeout ==> wait_outcome(
            probes,
            started,
            timeout,
        ) == Some(probes[n].answered),
        !probes[n].answered && probes[n].now < started + timeout && n + 1 == probes.len()
            ==> wait_outcome(probes, started, timeout) is None,
    decreases probes.len(),
{
    let rest = probes.skip(1);
    if n > 0 {
        assert(!probes[0].answered);
        assert forall|i: int| 0 <= i < n - 1 implies !(#[trigger] rest[i].answered) && rest[i].now
            < started + timeout by {
            assert(!probes[i + 1].answered);
        }
        law_first_decisive_probe_ends_waiting(rest, started, timeout, n - 1);
    } else if probes.len() == 1 {
        assert(wait_outcome(rest, started, timeout) is None);
    }
}

/// Waiting whose probes come a pause apart ends: after more than
/// `timeout / PROBE_PAUSE + 1` of them there is a result.
pub proof fn law_waiting_ends(probes: Seq<Probe>, started: Nanos, timeout: Nanos)
    requires
        probes.len() > timeout / PROBE_PAUSE + 1,
        paced(probes.map_values(|p: Probe| p.now as int), started as int, PROBE_PAUSE as int),
    ensures
        wait_outcome(probes, started, timeout) is Some,
{
    let times = probes.map_values(|p: Probe| p.now as int);
    let n = probes.len() - 1;
    lemma_paced(times, started as int, PROBE_PAUSE as int, n);
    assert(times[n] == probes[n].now);
    lemma_waiting_decided(probes, started, timeout, n);
}

proof fn lemma_waiting_decided(probes: Seq<Probe>, started: Nanos, timeout: Nanos, n: int)
    requires
        0 <= n < probes.len(),
        probes[n].now >= started + timeout,
    ensures
        wait_outcome(probes, started, timeout) is Some,
    decreases n,
{
    if n > 0 {
        lemma_waiting_decided(probes.skip(1), started, timeout, n - 1);
    }
}

/// A host attaches exactly where an engine was found that speaks protocol 1,
/// whatever else that engine says of itself, and else starts its own: so an engine
/// that can be shared is never started a second time. The registration goes to
/// the configuration's own address and names this app and this process.
pub proof fn law_attach_or_spawn(
    cfg: &EngineConfig,
    app_id: &str,
    pid: u32,
    found: Option<EngineInfo>,
    step: StartStep,
)
    requires
        call_ensures(spawn_or_attach, (cfg, app_id, pid, found), step),
    ensures
        step is Attach <==> (found matches Some(i) && i.protocol == 1),
        step is Spawn <==> (found matches Some(i) ==> i.protocol != 1),
        step matches StartStep::Attach { register, info } ==> {
            &&& found == Some(info)
            &&& register.method == Method::Post
            &&& register.url@ == "http://127.0.0.1:"@ + decimal(
                match cfg.mgmt_port {
                    Some(port) => port as nat,
                    None => 8765,
                },
            ) + "/engine/register"@
            &&& register.body matches Some(object) && json_members(object).dom() == set![
                "appId"@,
                "pid"@,
            ] && json_members(object)["appId"@] == MemberView::Text(app_id@) && json_members(
                object,
            )["pid"@] == MemberView::Number(pid as nat)
            &&& register.timeout == 1_500_000_000
        },
{
    law_registrant_members(app_id@, pid);
}

/// An attachment stands exactly where the registration went through, and then to
/// the engine that was found; a failed registration comes back as it is.
pub proof fn law_attached_where_registered<C>(
    info: EngineInfo,
    reply: Result<(), reqwest::Error>,
    outcome: Result<StartOutcome<C>, reqwest::Error>,
)
    requires
        call_ensures(StartOutcome::<C>::attached, (info, reply), outcome),
    ensures
        outcome is Ok <==> reply is Ok,
        outcome matches Ok(o) ==> o == StartOutcome::<C>::Attached(info),
        reply matches Err(e) ==> outcome == Err::<StartOutcome<C>, reqwest::Error>(e),
{
}

/// An engine counts as started exactly where its process started, and then with
/// the host's handle on it; a failed attempt comes back as it is.
pub proof fn law_spawned_where_started<C>(
    attempt: Result<C, std::io::Error>,
    outcome: Result<StartOutcome<C>, std::io::Error>,
)
    requires
        call_ensures(StartOutcome::<C>::spawned, (attempt,), outcome),
    ensures
        outcome is Ok <==> attempt is Ok,
        attempt matches Ok(child) ==> outcome == Ok::<StartOutcome<C>, std::io::Error>(
            StartOutcome::Spawned(child),
        ),
        attempt matches Err(e) ==> outcome == Err::<StartOutcome<C>, std::io::Error>(e),
{
}

/// An outcome says that the engine was already running exactly where the host
/// attached.
pub proof fn law_is_attached<C>(outcome: &StartOutcome<C>, yes: bool)
    requires
        call_ensures(StartOutcome::<C>::is_attached, (outcome,), yes),
    ensures
        yes <==> outcome is Attached,
        yes <==> !(outcome is Spawned),
{
}

/// A probe that found the engine ends the waiting with success, however late; one
/// that did not ends it once the time has passed; else it is repeated after 200 ms.
pub proof fn law_wait_step(
    found: &Option<EngineInfo>,
    started: Nanos,
    timeout: Nanos,
    now: Nanos,
    step: WaitStep,
)
    requires
        call_ensures(wait_engine, (found, started, timeout, now), step),
    ensures
        step == WaitStep::Ready <==> found is Some,
        step == WaitStep::GiveUp <==> found is None && now >= started + timeout,
        step == WaitStep::Sleep(200_000_000) <==> found is None && now < started + timeout,
        wait_verdict(found is Some, started, timeout, now) == step,
{
}


} // verus!
