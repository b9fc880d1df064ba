//! What a running engine says of itself, and whether to attach to it.
use crate::text::reads;
use vstd::prelude::*;

verus! {

/// Wire protocol version this crate speaks. It must match the engine's own;
/// both change together on any breaking change.
pub const ENGINE_PROTOCOL: u32 = 1;

/// The account's billing standing, surfaced so an embed can show a clear
/// "renew to keep serving" state instead of a silent route-down.
#[derive(Debug, Clone)]
pub struct BillingInfo {
    pub entitled: bool,
    /// "comp" | "active" | "trialing" | "past_due" | "hold"
    pub status: String,
    pub trial_ends_at: Option<i64>,
}

/// The `GET /engine/info` discovery shape.
#[derive(Debug, Clone)]
pub struct EngineInfo {
    pub engine_version: String,
    pub protocol: u32,
    pub pid: u32,
    pub mode: String,
    pub connected: bool,
    pub host: Option<String>,
    pub name: Option<String>,
    pub first_party_app: Option<String>,
    pub registrants: u32,
    pub billing: Option<BillingInfo>,
}

/// What a launching app should do when it finds the port already held.
#[derive(Debug, Clone, Copy, PartialEq, Eq, Structural)]
pub enum StartAction {
    /// A healthy, protocol-compatible engine is running — attach to it.
    Attach,
    /// No/failed answer or an incompatible protocol — start your own engine.
    Takeover,
}

impl Default for BillingInfo {
    fn default() -> (info: Self)
        ensures
            !info.entitled,
            info.status@ == Seq::<char>::empty(),
            info.trial_ends_at is None,
    {
        BillingInfo { entitled: false, status: String::new(), trial_ends_at: None }
    }
}

impl Default for EngineInfo {
    fn default() -> (info: Self)
        ensures
            info.engine_version@ == Seq::<char>::empty(),
            info.protocol == 0,
            info.pid == 0,
            info.mode@ == Seq::<char>::empty(),
            !info.connected,
            info.host is None,
            info.name is None,
            info.first_party_app is None,
            info.registrants == 0,
            info.billing is None,
    {
        EngineInfo {
            engine_version: String::new(),
            protocol: 0,
            pid: 0,
            mode: String::new(),
            connected: false,
            host: None,
            name: None,
            first_party_app: None,
            registrants: 0,
            billing: None,
        }
    }
}

/// Whether a billing status says that the subscription has lapsed.
pub open spec fn lapsed(status: Seq<char>) -> bool {
    status == "hold"@ || status == "past_due"@
}

impl EngineInfo {
    /// True when the subscription has lapsed and the person must renew to keep
    /// serving. An embed maps this to a plain "renew to keep serving" prompt.
    pub fn needs_renewal(&self) -> (yes: bool)
        ensures
            yes == (self.billing matches Some(billing) && lapsed(billing.status@)),
            yes == (self.billing matches Some(billing) && (billing.status@ == "hold"@
                || billing.status@ == "past_due"@)),
    {
        match &self.billing {
            Some(billing) => reads(&billing.status, "hold") || reads(&billing.status, "past_due"),
            None => false,
        }
    }
}

/// What a server answered to `GET /engine/info`: the HTTP status, and what its
/// body decodes to.
#[derive(Debug, Clone)]
pub struct EngineAnswer {
    pub status: u16,
    pub info: EngineInfo,
}

/// Whether an answer with this HTTP status says what was asked for: an engine
/// answers discovery with success, any other server refuses it.
pub fn answers(status: u16) -> (yes: bool)
    ensures
        yes == (200 <= status < 300),
{
    200 <= status && status < 300
}

/// The engine that a probe found: one whose request went through, whose reply
/// was decoded, and whose status says that it was an engine that answered.
pub open spec fn found(reply: Result<EngineAnswer, reqwest::Error>) -> Option<EngineInfo> {
    match reply {
        Ok(answer) => if 200 <= answer.status < 300 {
            Some(answer.info)
        } else {
            None
        },
        Err(_) => None,
    }
}

/// The discovery result of a probe's reply: none if nothing answers, the answer
/// is not an engine, or the request fails.
pub fn discovered(reply: Result<EngineAnswer, reqwest::Error>) -> (info: Option<EngineInfo>)
    ensures
        info == found(reply),
        match reply {
            Ok(answer) if 200 <= answer.status < 300 => info == Some(answer.info),
            _ => info is None,
        },
{
    match reply {
        Ok(answer) => if answers(answer.status) {
            Some(answer.info)
        } else {
            None
        },
        Err(_) => None,
    }
}

/// Whether `info` is an engine that speaks `protocol`.
pub open spec fn compatible(info: Option<EngineInfo>, protocol: u32) -> bool {
    info matches Some(i) && i.protocol == protocol
}

/// Decide attach-vs-takeover from a discovery result: a compatible engine →
/// attach; anything else → takeover.
pub fn decide_start_action(info: Option<&EngineInfo>, protocol: u32) -> (action: StartAction)
    ensures
        action == if info matches Some(i) && i.protocol == protocol {
            StartAction::Attach
        } else {
            StartAction::Takeover
        },
{
    match info {
        Some(i) if i.protocol == protocol => StartAction::Attach,
        _ => StartAction::Takeover,
    }
}

/// What a probe finds is what the engine said of itself, every field of it, where
/// the engine answered with success; a refusal and a failed call find nothing.
pub proof fn law_discovery_reports_the_engine(
    reply: Result<EngineAnswer, reqwest::Error>,
    info: Option<EngineInfo>,
)
    requires
        call_ensures(discovered, (reply,), info),
    ensures
        match reply {
            Ok(answer) => {
                &&& 200 <= answer.status < 300 ==> info == Some(answer.info)
                &&& !(200 <= answer.status < 300) ==> info is None
            },
            Err(_) => info is None,
        },
        found(reply) == info,
{
}

/// An engine is found exactly where the reply is an answer with success, and then
/// as it describes itself.
pub proof fn law_found_is_the_answer(reply: Result<EngineAnswer, reqwest::Error>)
    ensures
        found(reply) is Some <==> (reply matches Ok(answer) && 200 <= answer.status < 300),
        found(reply) is Some ==> found(reply) == Some(reply->Ok_0.info),
{
}

/// An answer counts exactly where its HTTP status says success.
pub proof fn law_success_statuses(status: u16, yes: bool)
    requires
        call_ensures(answers, (status,), yes),
    ensures
        yes <==> status / 100 == 2,
{
}

/// The person is asked to renew exactly where the engine reports a billing status
/// of `hold` or `past_due`, whatever else it reports.
pub proof fn law_renewal_on_lapse_only(info: &EngineInfo, yes: bool)
    requires
        call_ensures(EngineInfo::needs_renewal, (info,), yes),
    ensures
        yes <==> (info.billing matches Some(billing) && (billing.status@ == "hold"@
            || billing.status@ == "past_due"@)),
{
}

/// Two engines that report the same billing status are treated alike.
pub proof fn law_renewal_goes_by_the_status(
    a: &EngineInfo,
    b: &EngineInfo,
    a_needs: bool,
    b_needs: bool,
)
    requires
        call_ensures(EngineInfo::needs_renewal, (a,), a_needs),
        call_ensures(EngineInfo::needs_renewal, (b,), b_needs),
        a.billing is Some <==> b.billing is Some,
        a.billing is Some ==> a.billing->0.status@ == b.billing->0.status@,
    ensures
        a_needs == b_needs,
{
}

/// A lapse that the engine reports reaches the person: nothing between the
/// engine's answer and the prompt drops it or makes one up.
pub proof fn law_reported_lapse_prompts(answer: EngineAnswer, info: EngineInfo, yes: bool)
    requires
        call_ensures(discovered, (Ok(answer),), Some(info)),
        call_ensures(EngineInfo::needs_renewal, (&info,), yes),
    ensures
        yes <==> (answer.info.billing matches Some(billing) && (billing.status@ == "hold"@
            || billing.status@ == "past_due"@)),
{
}

/// An engine is attached to exactly where it runs and speaks the protocol,
/// whatever else it says of itself.
pub proof fn law_attach_on_matching_protocol_only(
    info: Option<&EngineInfo>,
    protocol: u32,
    action: StartAction,
)
    requires
        call_ensures(decide_start_action, (info, protocol), action),
    ensures
        action == StartAction::Attach <==> (info matches Some(i) && i.protocol == protocol),
        action == StartAction::Takeover <==> (info matches Some(i) ==> i.protocol != protocol),
{
}

/// An engine is compatible with this crate exactly where it speaks protocol 1.
pub proof fn law_compatible_engines(info: EngineInfo)
    ensures
        compatible(Some(info), ENGINE_PROTOCOL) <==> info.protocol == 1,
        !compatible(None, ENGINE_PROTOCOL),
{
}

/// A billing standing that is not reported is empty: not entitled, without a
/// status and without a trial.
pub proof fn law_default_billing(info: BillingInfo)
    requires
        call_ensures(<BillingInfo as Default>::default, (), info),
    ensures
        !info.entitled,
        info.status@.len() == 0,
        info.trial_ends_at is None,
{
}

/// An engine that says nothing of itself is one of no version, protocol, process
/// or mode: not connected, without names, registrants or billing.
pub proof fn law_default_engine(info: EngineInfo)
    requires
        call_ensures(<EngineInfo as Default>::default, (), info),
    ensures
        info.engine_version@.len() == 0,
        info.protocol == 0,
        info.pid == 0,
        info.mode@.len() == 0,
        !info.connected,
        info.host is None,
        info.name is None,
        info.first_party_app is None,
        info.registrants == 0,
        info.billing is None,
{
}


} // verus!
