//! Per-call plans: deadline, retry permission and correlation tag of one
//! top-level invocation, and the settings of the shared channel.

use vstd::prelude::*;
use crate::ids::{new_uuid_text, UUID_TEXT_LEN};
use crate::operations::{retry_permitted, retry_permitted_spec, RemoteOperation};
use crate::timeouts::RpcTimeouts;

verus! {

/// The metadata key under which the correlation id travels.
pub open spec fn correlation_key() -> Seq<char> {
    "x-correlation-id"@
}

/// The metadata key under which the correlation id travels.
pub fn correlation_key_text() -> (r: String)
    ensures
        r@ == correlation_key(),
{
    "x-correlation-id".to_owned()
}

/// Metadata entries seen as pairs of texts.
pub open spec fn entries_view(entries: Seq<(String, String)>) -> Seq<(Seq<char>, Seq<char>)> {
    entries.map_values(|e: (String, String)| (e.0@, e.1@))
}

/// The entries whose key is not `key`, in their order.
pub open spec fn without_key(entries: Seq<(Seq<char>, Seq<char>)>, key: Seq<char>) -> Seq<(Seq<char>, Seq<char>)>
    decreases entries.len(),
{
    if entries.len() == 0 {
        entries
    } else {
        let rest = without_key(entries.drop_last(), key);
        if entries.last().0 == key {
            rest
        } else {
            rest.push(entries.last())
        }
    }
}

/// Attaches `id` to outgoing metadata under the correlation key, replacing
/// any earlier value under that key and keeping the other entries in order.
pub fn tag_metadata(entries: &mut Vec<(String, String)>, id: String)
    ensures
        entries_view(final(entries)@) == without_key(entries_view(old(entries)@), correlation_key()).push(
            (correlation_key(), id@),
        ),
{
    let key = correlation_key_text();
    let ghost given = entries_view(entries@);
    let mut i: usize = 0;
    let ghost mut j: int = 0;
    while i < entries.len()
        invariant
            key@ == correlation_key(),
            0 <= j <= given.len(),
            i <= entries.len(),
            entries_view(entries@) == without_key(given.subrange(0, j), key@) + given.subrange(j, given.len() as int),
            i == without_key(given.subrange(0, j), key@).len(),
        decreases entries.len() - i,
    {
        let ghost kept = without_key(given.subrange(0, j), key@);
        assert(given.subrange(0, j + 1).drop_last() =~= given.subrange(0, j));
        assert(entries_view(entries@)[i as int] == given[j]);
        assert(given.subrange(0, j + 1).last() == given[j]);
        let ghost before = entries_view(entries@);
        if entries[i].0 == key {
            let _ = entries.remove(i);
            proof {
                assert(given[j].0 == key@);
                assert(without_key(given.subrange(0, j + 1), key@) == kept);
                assert(entries_view(entries@) =~= before.remove(i as int));
                assert(before =~= kept + given.subrange(j, given.len() as int));
                assert(entries_view(entries@) =~= without_key(given.subrange(0, j + 1), key@)
                    + given.subrange(j + 1, given.len() as int));
            }
        } else {
            i = i + 1;
            proof {
                assert(given[j].0 != key@);
                assert(without_key(given.subrange(0, j + 1), key@) == kept.push(given[j]));
                assert(entries_view(entries@) =~= without_key(given.subrange(0, j + 1), key@)
                    + given.subrange(j + 1, given.len() as int));
            }
        }
        proof {
            j = j + 1;
        }
    }
    proof {
        assert(given.subrange(j, given.len() as int).len() == 0);
        assert(given.subrange(0, given.len() as int) =~= given);
        assert(j == given.len());
    }
    let ghost before = entries_view(entries@);
    entries.push((key, id));
    proof {
        assert(entries_view(entries@) =~= before.push((correlation_key(), id@)));
        assert(before =~= without_key(given, correlation_key()));
    }
}

/// What stays fixed across the attempts of one top-level invocation.
#[derive(Clone, Debug)]
pub struct CallPlan {
    pub operation: RemoteOperation,
    /// Deadline of every attempt, in milliseconds: the full budget of the
    /// operation's class.
    pub timeout_ms: u64,
    /// Whether transient failures may be retried.
    pub retry_allowed: bool,
    /// The correlation id shared by every attempt.
    pub correlation_id: String,
}

/// The plan of `operation` under `timeouts`, tagged `id`; `key_supplied` says
/// whether the caller supplied a stable identifier for a keyed creation.
pub open spec fn plan_spec(
    plan: CallPlan,
    operation: RemoteOperation,
    timeouts: RpcTimeouts,
    key_supplied: bool,
) -> bool {
    &&& plan.operation == operation
    &&& plan.timeout_ms == timeouts.budget_spec(operation.class_spec())
    &&& plan.retry_allowed == retry_permitted_spec(operation.idempotency_spec(), key_supplied)
}

impl CallPlan {
    /// The plan of one invocation under a given correlation id.
    pub fn with_correlation_id(
        operation: RemoteOperation,
        timeouts: &RpcTimeouts,
        key_supplied: bool,
        correlation_id: String,
    ) -> (r: CallPlan)
        ensures
            plan_spec(r, operation, *timeouts, key_supplied),
            r.correlation_id == correlation_id,
    {
        CallPlan {
            operation,
            timeout_ms: timeouts.budget_for(operation.class()),
            retry_allowed: retry_permitted(operation.idempotency(), key_supplied),
            correlation_id,
        }
    }

    /// The plan of a new top-level invocation, with a freshly generated
    /// correlation id.
    pub fn new(operation: RemoteOperation, timeouts: &RpcTimeouts, key_supplied: bool) -> (r: CallPlan)
        ensures
            plan_spec(r, operation, *timeouts, key_supplied),
            r.correlation_id@.len() == UUID_TEXT_LEN,
    {
        let id = new_uuid_text();
        CallPlan::with_correlation_id(operation, timeouts, key_supplied, id)
    }

    /// The metadata of one attempt: the plan's correlation id under the
    /// correlation key. Every attempt of the plan carries the same id.
    pub fn attempt_metadata(&self) -> (r: Vec<(String, String)>)
        ensures
            entries_view(r@) == seq![(correlation_key(), self.correlation_id@)],
    {
        let mut entries: Vec<(String, String)> = Vec::new();
        tag_metadata(&mut entries, self.correlation_id.clone());
        proof {
            assert(entries_view(Seq::<(String, String)>::empty()) =~= Seq::empty());
            assert(without_key(Seq::empty(), correlation_key()) =~= Seq::empty());
            assert(Seq::<(Seq<char>, Seq<char>)>::empty().push((correlation_key(), self.correlation_id@))
                =~= seq![(correlation_key(), self.correlation_id@)]);
        }
        entries
    }
}

/// Settings of the shared channel; durations in milliseconds.
#[derive(Clone, Copy, Debug, PartialEq, Eq, Structural)]
pub struct ChannelSettings {
    /// Default deadline of a call on the channel.
    pub request_timeout_ms: u64,
    /// Bound on the transport handshake.
    pub connect_timeout_ms: u64,
    /// Interval of TCP keep-alive probes.
    pub tcp_keepalive_ms: u64,
    /// Interval of HTTP/2 pings.
    pub http2_keepalive_interval_ms: u64,
    /// Whether pings continue while no call is in flight.
    pub keep_alive_while_idle: bool,
}

/// Bound on the transport handshake of an eager connect.
pub const CONNECT_TIMEOUT_MS: u64 = 10_000;
/// Interval of TCP keep-alive probes.
pub const TCP_KEEPALIVE_MS: u64 = 60_000;
/// Interval of HTTP/2 keep-alive pings.
pub const HTTP2_KEEPALIVE_INTERVAL_MS: u64 = 30_000;

/// The settings of the channel for the given budgets: the longest of the
/// chat, streaming and resource budgets as default deadline, a short connect
/// bound, and keep-alive probing even while idle.
pub fn channel_settings(timeouts: &RpcTimeouts) -> (r: ChannelSettings)
    ensures
        r.request_timeout_ms == timeouts.channel_timeout_spec(),
        r.connect_timeout_ms == CONNECT_TIMEOUT_MS,
        r.tcp_keepalive_ms == TCP_KEEPALIVE_MS,
        r.http2_keepalive_interval_ms == HTTP2_KEEPALIVE_INTERVAL_MS,
        r.keep_alive_while_idle,
{
    ChannelSettings {
        request_timeout_ms: timeouts.channel_timeout(),
        connect_timeout_ms: CONNECT_TIMEOUT_MS,
        tcp_keepalive_ms: TCP_KEEPALIVE_MS,
        http2_keepalive_interval_ms: HTTP2_KEEPALIVE_INTERVAL_MS,
        keep_alive_while_idle: true,
    }
}

/// How the channel was, or is to be, established.
#[derive(Clone, Copy, Debug, PartialEq, Eq, Structural)]
pub enum ConnectMode {
    /// Handshake completed before the gateway started serving.
    Eager,
    /// Handshake deferred to the first call; the gateway runs degraded.
    Lazy,
}

/// The bootstrap policy: prefer an eager connect, and fall back to a lazy one
/// when it fails, so that the gateway still serves unrelated requests.
pub fn bootstrap_mode(eager_connected: bool) -> (r: ConnectMode)
    ensures
        r == (if eager_connected { ConnectMode::Eager } else { ConnectMode::Lazy }),
{
    if eager_connected {
        ConnectMode::Eager
    } else {
        ConnectMode::Lazy
    }
}

} // verus!
