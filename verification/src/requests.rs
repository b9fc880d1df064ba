//! The HTTP calls to the engine's management endpoint and to the control plane.
//!
//! Each function gives the call to make; making it is up to the host.
use crate::clock::Nanos;
use crate::outside::{json_members, new_object, no_members, set_member, Member, MemberView, Members};
use crate::text::join;
use vstd::prelude::*;

verus! {

/// How long a call to the engine may take: 1.5 s.
pub const CALL_TIMEOUT: Nanos = 1_500_000_000;

/// How long a call to the control plane may take: 10 s.
pub const CONTROL_TIMEOUT: Nanos = 10_000_000_000;

/// The method of a call.
#[derive(Debug, Clone, Copy, PartialEq, Eq, Structural)]
pub enum Method {
    Get,
    Post,
    Delete,
}

/// An HTTP call.
#[derive(Debug)]
pub struct Call {
    pub method: Method,
    pub url: String,
    /// The JSON object to send, if any.
    pub body: Option<serde_json::Map<String, serde_json::Value>>,
    pub timeout: Nanos,
}

/// What a call says.
pub struct CallView {
    pub method: Method,
    pub url: Seq<char>,
    pub body: Option<Members>,
    pub timeout: Nanos,
}

impl View for Call {
    type V = CallView;

    open spec fn view(&self) -> CallView {
        CallView {
            method: self.method,
            url: self.url@,
            body: match self.body {
                Some(object) => Some(json_members(object)),
                None => None,
            },
            timeout: self.timeout,
        }
    }
}

/// The `POST /publish` / `GET /publish/:name` result.
#[derive(Debug, Clone)]
pub struct PublishResult {
    pub status: String,
    pub host: Option<String>,
    pub url: Option<String>,
}

impl Default for PublishResult {
    fn default() -> (result: Self)
        ensures
            result.status@ == Seq::<char>::empty(),
            result.host is None,
            result.url is None,
    {
        PublishResult { status: String::new(), host: None, url: None }
    }
}

/// A call without a body.
pub open spec fn plain_call(method: Method, url: Seq<char>, timeout: Nanos) -> CallView {
    CallView { method, url, body: None, timeout }
}

/// A call that posts the object of `members` to the engine.
pub open spec fn posting(url: Seq<char>, members: Members) -> CallView {
    CallView { method: Method::Post, url, body: Some(members), timeout: CALL_TIMEOUT }
}

/// The body `{appId, pid}`.
pub open spec fn registrant(app_id: Seq<char>, pid: u32) -> Members {
    no_members().insert("appId"@, MemberView::Text(app_id)).insert(
        "pid"@,
        MemberView::Number(pid as nat),
    )
}

/// The body `{name, label, localPort, appId?}`.
pub open spec fn publication(
    name: Seq<char>,
    label: Seq<char>,
    local_port: u16,
    app_id: Option<Seq<char>>,
) -> Members {
    let members = no_members().insert("name"@, MemberView::Text(name)).insert(
        "label"@,
        MemberView::Text(label),
    ).insert("localPort"@, MemberView::Number(local_port as nat));
    match app_id {
        Some(id) => members.insert("appId"@, MemberView::Text(id)),
        None => members,
    }
}

/// `GET /engine/info`.
pub open spec fn discover_call(mgmt_base: Seq<char>) -> CallView {
    plain_call(Method::Get, mgmt_base + "/engine/info"@, CALL_TIMEOUT)
}

/// `POST /engine/register {appId, pid}`.
pub open spec fn register_call(mgmt_base: Seq<char>, app_id: Seq<char>, pid: u32) -> CallView {
    posting(mgmt_base + "/engine/register"@, registrant(app_id, pid))
}

/// `POST /engine/heartbeat {appId, pid}`.
pub open spec fn heartbeat_call(mgmt_base: Seq<char>, app_id: Seq<char>, pid: u32) -> CallView {
    posting(mgmt_base + "/engine/heartbeat"@, registrant(app_id, pid))
}

/// `POST /engine/deregister {appId}`.
pub open spec fn deregister_call(mgmt_base: Seq<char>, app_id: Seq<char>) -> CallView {
    posting(
        mgmt_base + "/engine/deregister"@,
        no_members().insert("appId"@, MemberView::Text(app_id)),
    )
}

/// `POST /publish {name, label, localPort, appId?}`.
pub open spec fn publish_call(
    mgmt_base: Seq<char>,
    name: Seq<char>,
    label: Seq<char>,
    local_port: u16,
    app_id: Option<Seq<char>>,
) -> CallView {
    posting(mgmt_base + "/publish"@, publication(name, label, local_port, app_id))
}

/// `GET /publish/:name`.
pub open spec fn publish_status_call(mgmt_base: Seq<char>, name: Seq<char>) -> CallView {
    plain_call(Method::Get, mgmt_base + "/publish/"@ + name, CALL_TIMEOUT)
}

/// `DELETE /publish/:name`.
pub open spec fn unpublish_call(mgmt_base: Seq<char>, name: Seq<char>) -> CallView {
    plain_call(Method::Delete, mgmt_base + "/publish/"@ + name, CALL_TIMEOUT)
}

/// `GET /status`.
pub open spec fn status_call(mgmt_base: Seq<char>) -> CallView {
    plain_call(Method::Get, mgmt_base + "/status"@, CALL_TIMEOUT)
}

/// `POST /device/code`.
pub open spec fn device_code_call(control_plane: Seq<char>) -> CallView {
    plain_call(Method::Post, control_plane + "/device/code"@, CONTROL_TIMEOUT)
}

/// `GET /device/exchange?code=..`.
pub open spec fn exchange_call(control_plane: Seq<char>, code: Seq<char>) -> CallView {
    plain_call(Method::Get, control_plane + "/device/exchange?code="@ + code, CONTROL_TIMEOUT)
}

/// Probe for a Meradomo engine on `mgmt_base`.
pub fn discover(mgmt_base: &str) -> (call: Call)
    ensures
        call@ == discover_call(mgmt_base@),
{
    Call {
        method: Method::Get,
        url: join(mgmt_base, "/engine/info"),
        body: None,
        timeout: CALL_TIMEOUT,
    }
}

/// Posts `{appId, pid}`.
fn post_registrant(url: String, app_id: &str, pid: u32) -> (call: Call)
    ensures
        call@ == posting(url@, registrant(app_id@, pid)),
{
    let mut body = new_object();
    set_member(&mut body, "appId", Member::Text(app_id.to_owned()));
    set_member(&mut body, "pid", Member::Number(pid));
    Call { method: Method::Post, url, body: Some(body), timeout: CALL_TIMEOUT }
}

/// Attach this app to the engine so its lifecycle counts us as alive.
pub fn register(mgmt_base: &str, app_id: &str, pid: u32) -> (call: Call)
    ensures
        call@ == register_call(mgmt_base@, app_id@, pid),
{
    post_registrant(join(mgmt_base, "/engine/register"), app_id, pid)
}

/// Keep this app's registration fresh (idempotently registers if unknown).
pub fn heartbeat(mgmt_base: &str, app_id: &str, pid: u32) -> (call: Call)
    ensures
        call@ == heartbeat_call(mgmt_base@, app_id@, pid),
{
    post_registrant(join(mgmt_base, "/engine/heartbeat"), app_id, pid)
}

/// Detach this app. When it was the last registrant the engine stops serving
/// after its grace window.
pub fn deregister(mgmt_base: &str, app_id: &str) -> (call: Call)
    ensures
        call@ == deregister_call(mgmt_base@, app_id@),
{
    let mut body = new_object();
    set_member(&mut body, "appId", Member::Text(app_id.to_owned()));
    Call {
        method: Method::Post,
        url: join(mgmt_base, "/engine/deregister"),
        body: Some(body),
        timeout: CALL_TIMEOUT,
    }
}

/// Request a public address for a local app. When `app_id` matches the engine's
/// configured first-party app the route goes live immediately; otherwise it is
/// `pending` until the owner approves it.
pub fn publish(
    mgmt_base: &str,
    name: &str,
    label: &str,
    local_port: u16,
    app_id: Option<&str>,
) -> (call: Call)
    ensures
        call@ == publish_call(
            mgmt_base@,
            name@,
            label@,
            local_port,
            match app_id {
                Some(id) => Some(id@),
                None => None,
            },
        ),
{
    let mut body = new_object();
    set_member(&mut body, "name", Member::Text(name.to_owned()));
    set_member(&mut body, "label", Member::Text(label.to_owned()));
    set_member(&mut body, "localPort", Member::Number(local_port as u32));
    if let Some(id) = app_id {
        set_member(&mut body, "appId", Member::Text(id.to_owned()));
    }
    Call {
        method: Method::Post,
        url: join(mgmt_base, "/publish"),
        body: Some(body),
        timeout: CALL_TIMEOUT,
    }
}

/// Poll the current publish status of a named app.
pub fn publish_status(mgmt_base: &str, name: &str) -> (call: Call)
    ensures
        call@ == publish_status_call(mgmt_base@, name@),
{
    let route = join(mgmt_base, "/publish/");
    Call {
        method: Method::Get,
        url: join(route.as_str(), name),
        body: None,
        timeout: CALL_TIMEOUT,
    }
}

/// Remove a live route but keep the owner's approval on record.
pub fn unpublish(mgmt_base: &str, name: &str) -> (call: Call)
    ensures
        call@ == unpublish_call(mgmt_base@, name@),
{
    let route = join(mgmt_base, "/publish/");
    Call {
        method: Method::Delete,
        url: join(route.as_str(), name),
        body: None,
        timeout: CALL_TIMEOUT,
    }
}

/// The engine's `GET /status` (connection state + published apps).
pub fn status(mgmt_base: &str) -> (call: Call)
    ensures
        call@ == status_call(mgmt_base@),
{
    Call {
        method: Method::Get,
        url: join(mgmt_base, "/status"),
        body: None,
        timeout: CALL_TIMEOUT,
    }
}

/// The engine's status, where the call for it went through; else none.
pub fn reported(reply: Result<serde_json::Value, reqwest::Error>) -> (report: Option<
    serde_json::Value,
>)
    ensures
        report == match reply {
            Ok(value) => Some(value),
            Err(_) => None,
        },
{
    reply.ok()
}

/// Ask the control plane for a device code and the browser approval URL.
pub fn request_device_code(control_plane: &str) -> (call: Call)
    ensures
        call@ == device_code_call(control_plane@),
{
    Call {
        method: Method::Post,
        url: join(control_plane, "/device/code"),
        body: None,
        timeout: CONTROL_TIMEOUT,
    }
}

/// Ask the control plane whether the person has approved `code` yet.
pub fn exchange(control_plane: &str, code: &str) -> (call: Call)
    ensures
        call@ == exchange_call(control_plane@, code@),
        call.method == Method::Get,
        call.url@ == control_plane@ + "/device/exchange?code="@ + code@,
        call.body is None,
{
    let query = join(control_plane, "/device/exchange?code=");
    Call {
        method: Method::Get,
        url: join(query.as_str(), code),
        body: None,
        timeout: CONTROL_TIMEOUT,
    }
}

/// A heartbeat carries what a registration carries, so that an engine which does
/// not know the app can register it from either.
pub proof fn law_heartbeat_can_register(mgmt_base: Seq<char>, app_id: Seq<char>, pid: u32)
    ensures
        heartbeat_call(mgmt_base, app_id, pid).body == register_call(mgmt_base, app_id, pid).body,
        heartbeat_call(mgmt_base, app_id, pid).method == register_call(
            mgmt_base,
            app_id,
            pid,
        ).method,
{
}

/// A publication's status is asked for, and its route removed, at one address.
pub proof fn law_publication_address(mgmt_base: Seq<char>, name: Seq<char>)
    ensures
        publish_status_call(mgmt_base, name).url == unpublish_call(mgmt_base, name).url,
        publish_status_call(mgmt_base, name).method != unpublish_call(mgmt_base, name).method,
{
}

/// A publication says its name, label and port, and names an app exactly where
/// one is given.
pub proof fn law_publication_members(
    name: Seq<char>,
    label: Seq<char>,
    local_port: u16,
    app_id: Option<Seq<char>>,
)
    ensures
        ({
            let members = publication(name, label, local_port, app_id);
            &&& members.dom() == if app_id is Some {
                set!["name"@, "label"@, "localPort"@, "appId"@]
            } else {
                set!["name"@, "label"@, "localPort"@]
            }
            &&& members["name"@] == MemberView::Text(name)
            &&& members["label"@] == MemberView::Text(label)
            &&& members["localPort"@] == MemberView::Number(local_port as nat)
            &&& app_id matches Some(id) ==> members["appId"@] == MemberView::Text(id)
        }),
{
    reveal_strlit("name");
    reveal_strlit("label");
    reveal_strlit("localPort");
    reveal_strlit("appId");
    assert("name"@.len() == 4);
    assert("localPort"@.len() == 9);
    assert("label"@[0] != "appId"@[0]);
    let members = publication(name, label, local_port, app_id);
    if app_id is Some {
        assert(members.dom() =~= set!["name"@, "label"@, "localPort"@, "appId"@]);
    } else {
        assert(members.dom() =~= set!["name"@, "label"@, "localPort"@]);
    }
}

/// A registration says the app's id and its process, and nothing else.
pub proof fn law_registrant_members(app_id: Seq<char>, pid: u32)
    ensures
        registrant(app_id, pid).dom() == set!["appId"@, "pid"@],
        registrant(app_id, pid)["appId"@] == MemberView::Text(app_id),
        registrant(app_id, pid)["pid"@] == MemberView::Number(pid as nat),
{
    reveal_strlit("pid");
    reveal_strlit("appId");
    assert("pid"@.len() == 3);
    assert(registrant(app_id, pid).dom() =~= set!["appId"@, "pid"@]);
}

/// What a call says is what its fields hold.
pub proof fn law_call_says_its_fields(call: Call)
    ensures
        call@.method == call.method,
        call@.url == call.url@,
        call@.timeout == call.timeout,
        call.body is None <==> call@.body is None,
        call.body matches Some(object) ==> call@.body == Some(json_members(object)),
{
}

/// Discovery asks the engine at the given address for `/engine/info`, and waits
/// 1.5 s at most.
pub proof fn law_discover(mgmt_base: &str, call: Call)
    requires
        call_ensures(discover, (mgmt_base,), call),
    ensures
        call.method == Method::Get,
        call.url@ == mgmt_base@ + "/engine/info"@,
        call.body is None,
        call.timeout == 1_500_000_000,
{
}

/// A registration goes to the engine at the given address, and tells it this app
/// and this process and nothing else.
pub proof fn law_register(mgmt_base: &str, app_id: &str, pid: u32, call: Call)
    requires
        call_ensures(register, (mgmt_base, app_id, pid), call),
    ensures
        call.method == Method::Post,
        call.url@ == mgmt_base@ + "/engine/register"@,
        call.body matches Some(object) && json_members(object).dom() == set!["appId"@, "pid"@]
            && json_members(object)["appId"@] == MemberView::Text(app_id@)
            && json_members(object)["pid"@] == MemberView::Number(pid as nat),
        call.timeout == 1_500_000_000,
{
    law_registrant_members(app_id@, pid);
}

/// A heartbeat goes to the engine at the given address, and tells it this app and
/// this process and nothing else.
pub proof fn law_heartbeat(mgmt_base: &str, app_id: &str, pid: u32, call: Call)
    requires
        call_ensures(heartbeat, (mgmt_base, app_id, pid), call),
    ensures
        call.method == Method::Post,
        call.url@ == mgmt_base@ + "/engine/heartbeat"@,
        call.body matches Some(object) && json_members(object).dom() == set!["appId"@, "pid"@]
            && json_members(object)["appId"@] == MemberView::Text(app_id@)
            && json_members(object)["pid"@] == MemberView::Number(pid as nat),
        call.timeout == 1_500_000_000,
{
    law_registrant_members(app_id@, pid);
}

/// A detachment goes to the engine at the given address, and tells it this app and
/// nothing else.
pub proof fn law_deregister(mgmt_base: &str, app_id: &str, call: Call)
    requires
        call_ensures(deregister, (mgmt_base, app_id), call),
    ensures
        call.method == Method::Post,
        call.url@ == mgmt_base@ + "/engine/deregister"@,
        call.body matches Some(object) && json_members(object).dom() == set!["appId"@]
            && json_members(object)["appId"@] == MemberView::Text(app_id@),
        call.timeout == 1_500_000_000,
{
    assert(json_members(call.body->0).dom() =~= set!["appId"@]);
}

/// A request to publish goes to the engine at the given address, and tells it the
/// name, the label and the port as given, the app where one is given, and nothing
/// else.
pub proof fn law_publish(
    mgmt_base: &str,
    name: &str,
    label: &str,
    local_port: u16,
    app_id: Option<&str>,
    call: Call,
)
    requires
        call_ensures(publish, (mgmt_base, name, label, local_port, app_id), call),
    ensures
        call.method == Method::Post,
        call.url@ == mgmt_base@ + "/publish"@,
        call.body matches Some(object) && json_members(object)["name"@] == MemberView::Text(name@)
            && json_members(object)["label"@] == MemberView::Text(label@) && json_members(
            object,
        )["localPort"@] == MemberView::Number(local_port as nat) && (match app_id {
            Some(id) => {
                &&& json_members(object).dom() == set!["name"@, "label"@, "localPort"@, "appId"@]
                &&& json_members(object)["appId"@] == MemberView::Text(id@)
            },
            None => json_members(object).dom() == set!["name"@, "label"@, "localPort"@],
        }),
        call.timeout == 1_500_000_000,
{
    law_publication_members(
        name@,
        label@,
        local_port,
        match app_id {
            Some(id) => Some(id@),
            None => None,
        },
    );
}

/// A publication's status is asked of the engine at the given address, by the
/// publication's whole name.
pub proof fn law_publish_status(mgmt_base: &str, name: &str, call: Call)
    requires
        call_ensures(publish_status, (mgmt_base, name), call),
    ensures
        call.method == Method::Get,
        call.url@ == mgmt_base@ + "/publish/"@ + name@,
        call.body is None,
        call.timeout == 1_500_000_000,
{
}

/// A route is removed at the engine at the given address, by the publication's
/// whole name.
pub proof fn law_unpublish(mgmt_base: &str, name: &str, call: Call)
    requires
        call_ensures(unpublish, (mgmt_base, name), call),
    ensures
        call.method == Method::Delete,
        call.url@ == mgmt_base@ + "/publish/"@ + name@,
        call.body is None,
        call.timeout == 1_500_000_000,
{
}

/// The engine at the given address is asked for its own `/status`.
pub proof fn law_status(mgmt_base: &str, call: Call)
    requires
        call_ensures(status, (mgmt_base,), call),
    ensures
        call.method == Method::Get,
        call.url@ == mgmt_base@ + "/status"@,
        call.body is None,
        call.timeout == 1_500_000_000,
{
}

/// The status that is reported is the one that the engine sent, unchanged; a call
/// that failed reports none.
pub proof fn law_report_is_the_reply(
    reply: Result<serde_json::Value, reqwest::Error>,
    report: Option<serde_json::Value>,
)
    requires
        call_ensures(reported, (reply,), report),
    ensures
        report is Some <==> reply is Ok,
        reply matches Ok(value) ==> report == Some(value),
{
}

/// A device code is asked of the control plane that was given, and of no other,
/// waiting 10 s at most.
pub proof fn law_request_device_code(control_plane: &str, call: Call)
    requires
        call_ensures(request_device_code, (control_plane,), call),
    ensures
        call.method == Method::Post,
        call.url@ == control_plane@ + "/device/code"@,
        call.body is None,
        call.timeout == 10_000_000_000,
{
}

/// A code's approval is asked of the control plane that was given, and of no
/// other, by the whole code, waiting 10 s at most.
pub proof fn law_exchange(control_plane: &str, code: &str, call: Call)
    requires
        call_ensures(exchange, (control_plane, code), call),
    ensures
        call.method == Method::Get,
        call.url@ == control_plane@ + "/device/exchange?code="@ + code@,
        call.body is None,
        call.timeout == 10_000_000_000,
{
}

/// One control plane is asked for different codes at different addresses, and one
/// code is asked of different control planes at different addresses.
pub proof fn law_exchange_names_its_code(
    control_plane: &str,
    other_plane: &str,
    code: &str,
    other_code: &str,
    call: Call,
    other: Call,
)
    requires
        call_ensures(exchange, (control_plane, code), call),
        call_ensures(exchange, (other_plane, other_code), other),
        call.url@ == other.url@,
    ensures
        control_plane@ == other_plane@ <==> code@ == other_code@,
{
    let query = "/device/exchange?code="@;
    let n = control_plane@.len() as int;
    let m = n + query.len();
    assert(call.url@.take(n) =~= control_plane@);
    assert(call.url@.skip(m) =~= code@);
    assert(other.url@.take(other_plane@.len() as int) =~= other_plane@);
    assert(other.url@.skip((other_plane@.len() + query.len()) as int) =~= other_code@);
    assert(call.url@.len() == n + query.len() + code@.len());
    assert(other.url@.len() == other_plane@.len() + query.len() + other_code@.len());
}

/// A publication that is not reported has no status, host or URL.
pub proof fn law_default_publication(result: PublishResult)
    requires
        call_ensures(<PublishResult as Default>::default, (), result),
    ensures
        result.status@.len() == 0,
        result.host is None,
        result.url is None,
{
}


} // verus!
