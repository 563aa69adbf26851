//! Deadline budgets per operation class.

use vstd::prelude::*;

verus! {

/// Milliseconds in one second; every duration of this crate is in milliseconds.
pub const MILLIS_PER_SECOND: u64 = 1000;

/// The class of a remote operation. It decides the deadline of every attempt.
#[derive(Clone, Copy, Debug, PartialEq, Eq, Structural)]
pub enum OperationClass {
    /// A chat request answered in one response.
    Interactive,
    /// A server-streamed chat response.
    Streaming,
    /// Resource ingestion and resource bookkeeping.
    Bulk,
    /// Liveness and readiness probes.
    Health,
}

/// Deadline budget of each operation class, in milliseconds.
#[derive(Clone, Copy, Debug)]
pub struct RpcTimeouts {
    /// Budget of interactive chat calls.
    pub chat: u64,
    /// Budget of streaming calls.
    pub stream: u64,
    /// Budget of resource calls.
    pub resource: u64,
    /// Budget of health probes.
    pub health: u64,
}

/// The larger of two budgets.
pub open spec fn max_u64(a: u64, b: u64) -> u64 {
    if a >= b {
        a
    } else {
        b
    }
}

impl RpcTimeouts {
    /// The budget that a call of class `class` gets.
    pub open spec fn budget_spec(self, class: OperationClass) -> u64 {
        match class {
            OperationClass::Interactive => self.chat,
            OperationClass::Streaming => self.stream,
            OperationClass::Bulk => self.resource,
            OperationClass::Health => self.health,
        }
    }

    /// The default deadline of the shared channel: the longest budget among
    /// chat, streaming and resource calls.
    pub open spec fn channel_timeout_spec(self) -> u64 {
        max_u64(max_u64(self.chat, self.stream), self.resource)
    }

    /// Deadline budget, in milliseconds, of a call of the given class.
    pub fn budget_for(&self, class: OperationClass) -> (r: u64)
        ensures
            r == self.budget_spec(class),
    {
        match class {
            OperationClass::Interactive => self.chat,
            OperationClass::Streaming => self.stream,
            OperationClass::Bulk => self.resource,
            OperationClass::Health => self.health,
        }
    }

    /// Default deadline of the shared channel, in milliseconds.
    pub fn channel_timeout(&self) -> (r: u64)
        ensures
            r == self.channel_timeout_spec(),
            r >= self.chat && r >= self.stream && r >= self.resource,
            r == self.chat || r == self.stream || r == self.resource,
    {
        let mut m = self.chat;
        if self.stream > m {
            m = self.stream;
        }
        if self.resource > m {
            m = self.resource;
        }
        m
    }
}

impl Default for RpcTimeouts {
    /// Twenty minutes for chat, five for streams, fifty for resources and five
    /// seconds for health probes.
    fn default() -> (r: Self)
        ensures
            r.chat == 1200 * MILLIS_PER_SECOND,
            r.stream == 300 * MILLIS_PER_SECOND,
            r.resource == 3000 * MILLIS_PER_SECOND,
            r.health == 5 * MILLIS_PER_SECOND,
    {
        RpcTimeouts {
            chat: 1200 * MILLIS_PER_SECOND,
            stream: 300 * MILLIS_PER_SECOND,
            resource: 3000 * MILLIS_PER_SECOND,
            health: 5 * MILLIS_PER_SECOND,
        }
    }
}

} // verus!
