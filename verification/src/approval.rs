//! Waiting for the person to approve this device in the browser.
use crate::clock::{is_over, lemma_paced, over, paced, Nanos};
use crate::error::ConnectError;
use crate::text::reads;
use vstd::prelude::*;

verus! {

/// `POST /device/code` result: the one-time code and the URL the person approves
/// at in a browser.
#[derive(Debug, Clone)]
pub struct DeviceCode {
    pub code: String,
    pub verify_url: String,
}

/// `GET /device/exchange` result.
#[derive(Debug, Clone)]
pub struct Exchange {
    /// "pending" | "approved" | "unknown"
    pub status: String,
    pub device_token: Option<String>,
    pub host: Option<String>,
}

impl Default for Exchange {
    fn default() -> (exchange: Self)
        ensures
            exchange.status@ == Seq::<char>::empty(),
            exchange.device_token is None,
            exchange.host is None,
    {
        Exchange { status: String::new(), device_token: None, host: None }
    }
}

/// What to do after a reply to an exchange call.
pub enum PollStep {
    /// Stop polling, with this result.
    Done(Result<Exchange, ConnectError>),
    /// Wait so long, then ask again.
    Sleep(Nanos),
}

/// What to do after `reply` came in at `now`, where polling began at `started`:
/// a failed call, an approval and an unknown code end the polling; while the code
/// is pending it ends once `timeout` has passed, and else goes on after `interval`.
pub open spec fn poll_verdict(
    reply: Result<Exchange, reqwest::Error>,
    started: Nanos,
    timeout: Nanos,
    interval: Nanos,
    now: Nanos,
) -> PollStep {
    match reply {
        Err(e) => PollStep::Done(Err(ConnectError::Http(e))),
        Ok(exchange) => if exchange.status@ == "approved"@ {
            PollStep::Done(Ok(exchange))
        } else if exchange.status@ == "unknown"@ {
            PollStep::Done(Err(ConnectError::CodeExpired))
        } else if over(started as int, timeout as int, now as int) {
            PollStep::Done(Err(ConnectError::Timeout))
        } else {
            PollStep::Sleep(interval)
        },
    }
}

/// One round of polling `GET /device/exchange` until the person finishes
/// approving in the browser (sign-in → name-claim → trial), or the window elapses.
pub fn poll_exchange(
    reply: Result<Exchange, reqwest::Error>,
    started: Nanos,
    timeout: Nanos,
    interval: Nanos,
    now: Nanos,
) -> (step: PollStep)
    ensures
        step == poll_verdict(reply, started, timeout, interval, now),
{
    let exchange = match reply {
        Ok(exchange) => exchange,
        Err(e) => {
            return PollStep::Done(Err(ConnectError::from(e)));
        },
    };
    if reads(&exchange.status, "approved") {
        PollStep::Done(Ok(exchange))
    } else if reads(&exchange.status, "unknown") {
        PollStep::Done(Err(ConnectError::CodeExpired))
    } else if is_over(started, timeout, now) {
        PollStep::Done(Err(ConnectError::Timeout))
    } else {
        PollStep::Sleep(interval)
    }
}

/// A reply to an exchange call and when it came in.
pub struct PollReply {
    pub reply: Result<Exchange, reqwest::Error>,
    pub now: Nanos,
}

impl PollReply {
    /// What to do after this reply.
    pub open spec fn verdict(self, started: Nanos, timeout: Nanos, interval: Nanos) -> PollStep {
        poll_verdict(self.reply, started, timeout, interval, self.now)
    }
}

/// The result of polling that gets `replies` one after the other; none while it
/// still goes on.
pub open spec fn poll_outcome(
    replies: Seq<PollReply>,
    started: Nanos,
    timeout: Nanos,
    interval: Nanos,
) -> Option<Result<Exchange, ConnectError>>
    decreases replies.len(),
{
    if replies.len() == 0 {
        None
    } else {
        match replies[0].verdict(started, timeout, interval) {
            PollStep::Done(result) => Some(result),
            PollStep::Sleep(_) => poll_outcome(replies.skip(1), started, timeout, interval),
        }
    }
}

/// Whether a reply leaves the code pending: the call went through and the status
/// is neither `approved` nor `unknown`.
pub open spec fn pending(reply: Result<Exchange, reqwest::Error>) -> bool {
    reply matches Ok(exchange) && exchange.status@ != "approved"@ && exchange.status@
        != "unknown"@
}

/// Polling ends at the first reply that is not pending or that comes when the
/// window has elapsed, with the result of that reply; it goes on while every
/// reply is pending and in time.
pub proof fn law_first_decisive_reply_ends_polling(
    replies: Seq<PollReply>,
    started: Nanos,
    timeout: Nanos,
    interval: Nanos,
    n: int,
)
    requires
        0 <= n < replies.len(),
        forall|i: int|
            0 <= i < n ==> pending(#[trigger] replies[i].reply) && replies[i].now < started
                + timeout,
    ensures
        !pending(replies[n].reply) || replies[n].now >= started + timeout ==> poll_outcome(
            replies,
            started,
            timeout,
            interval,
        ) == Some(
            match replies[n].reply {
                Err(e) => Err(ConnectError::Http(e)),
                Ok(exchange) => if exchange.status@ == "approved"@ {
                    Ok(exchange)
                } else if exchange.status@ == "unknown"@ {
                    Err(ConnectError::CodeExpired)
                } else {
                    Err(ConnectError::Timeout)
                },
            },
        ),
        pending(replies[n].reply) && replies[n].now < started + timeout && n + 1
            == replies.len() ==> poll_outcome(replies, started, timeout, interval) is None,
    decreases replies.len(),
{
    let rest = replies.skip(1);
    if n > 0 {
        assert(pending(replies[0].reply));
        assert forall|i: int| 0 <= i < n - 1 implies pending(#[trigger] rest[i].reply)
            && rest[i].now < started + timeout by {
            assert(pending(replies[i + 1].reply));
        }
        law_first_decisive_reply_ends_polling(rest, started, timeout, interval, n - 1);
    } else if replies.len() == 1 {
        assert(poll_outcome(rest, started, timeout, interval) is None);
    }
}

/// Polling that succeeds does so with an approval that the control plane gave.
pub proof fn law_polling_success_is_an_approval(
    replies: Seq<PollReply>,
    started: Nanos,
    timeout: Nanos,
    interval: Nanos,
)
    ensures
        poll_outcome(replies, started, timeout, interval) matches Some(Ok(exchange))
            ==> exchange.status@ == "approved"@ && exists|i: int|
            0 <= i < replies.len() && #[trigger] replies[i].reply == Ok::<Exchange, reqwest::Error>(
                exchange,
            ),
    decreases replies.len(),
{
    if let Some(Ok(exchange)) = poll_outcome(replies, started, timeout, interval) {
        match replies[0].verdict(started, timeout, interval) {
            PollStep::Done(_) => {
                assert(replies[0].reply == Ok::<Exchange, reqwest::Error>(exchange));
            },
            PollStep::Sleep(_) => {
                let rest = replies.skip(1);
                law_polling_success_is_an_approval(rest, started, timeout, interval);
                let i = choose|i: int|
                    0 <= i < rest.len() && #[trigger] rest[i].reply == Ok::<
                        Exchange,
                        reqwest::Error,
                    >(exchange);
                assert(replies[i + 1].reply == rest[i].reply);
            },
        }
    }
}

/// Polling whose replies come an interval apart ends: after more than
/// `timeout / interval + 1` of them there is a result.
pub proof fn law_polling_ends(
    replies: Seq<PollReply>,
    started: Nanos,
    timeout: Nanos,
    interval: Nanos,
)
    requires
        interval > 0,
        replies.len() > timeout / interval + 1,
        paced(
            replies.map_values(|r: PollReply| r.now as int),
            started as int,
            interval as int,
        ),
    ensures
        poll_outcome(replies, started, timeout, interval) is Some,
{
    let times = replies.map_values(|r: PollReply| r.now as int);
    let n = replies.len() - 1;
    lemma_paced(times, started as int, interval as int, n);
    let q: int = (timeout / interval) as int;
    assert(n * interval >= timeout) by (nonlinear_arith)
        requires
            n >= q + 1,
            interval > 0,
            q == timeout as int / interval as int,
    ;
    assert(times[n] == replies[n].now);
    lemma_polling_decided(replies, started, timeout, interval, n);
}

proof fn lemma_polling_decided(
    replies: Seq<PollReply>,
    started: Nanos,
    timeout: Nanos,
    interval: Nanos,
    n: int,
)
    requires
        0 <= n < replies.len(),
        replies[n].now >= started + timeout,
    ensures
        poll_outcome(replies, started, timeout, interval) is Some,
    decreases n,
{
    if n > 0 {
        lemma_polling_decided(replies.skip(1), started, timeout, interval, n - 1);
    }
}

/// A failed call ends the polling with its error, an approval with the approval
/// as it came, an unknown code with its expiry; a pending code ends it once the
/// window has elapsed, and else is asked for again after the interval.
pub proof fn law_poll_step(
    reply: Result<Exchange, reqwest::Error>,
    started: Nanos,
    timeout: Nanos,
    interval: Nanos,
    now: Nanos,
    step: PollStep,
)
    requires
        call_ensures(poll_exchange, (reply, started, timeout, interval, now), step),
    ensures
        match reply {
            Err(e) => step == PollStep::Done(Err(ConnectError::Http(e))),
            Ok(exchange) => {
                &&& exchange.status@ == "approved"@ ==> step == PollStep::Done(Ok(exchange))
                &&& exchange.status@ == "unknown"@ ==> step == PollStep::Done(
                    Err(ConnectError::CodeExpired),
                )
                &&& exchange.status@ != "approved"@ && exchange.status@ != "unknown"@ ==> step
                    == if now >= started + timeout {
                    PollStep::Done(Err(ConnectError::Timeout))
                } else {
                    PollStep::Sleep(interval)
                }
            },
        },
        poll_verdict(reply, started, timeout, interval, now) == step,
{
    reveal_strlit("approved");
    reveal_strlit("unknown");
    assert("approved"@.len() == 8);
    assert("unknown"@.len() == 7);
}

/// An exchange that is not reported has no status, credential or host.
pub proof fn law_default_exchange(exchange: Exchange)
    requires
        call_ensures(<Exchange as Default>::default, (), exchange),
    ensures
        exchange.status@.len() == 0,
        exchange.device_token is None,
        exchange.host is None,
{
}


} // verus!
