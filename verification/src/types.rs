//! Domain types shared by the update-client machine, the packet relayer and
//! the batch layer: time, client records, headers, events and errors.

use vstd::prelude::*;

verus! {

/// A point on a chain's clock, in nanoseconds since the chain's epoch.
#[derive(Clone, Copy, PartialEq, Eq, Structural, Debug)]
pub struct Timestamp {
    pub nanoseconds: u64,
}

/// A span of time, in nanoseconds.
#[derive(Clone, Copy, PartialEq, Eq, Structural, Debug)]
pub struct Duration {
    pub nanoseconds: u64,
}

/// `a + b`, saturating at the largest representable value.
pub open spec fn saturating_add(a: u64, b: u64) -> u64 {
    if a + b <= u64::MAX {
        (a + b) as u64
    } else {
        u64::MAX
    }
}

impl Timestamp {
    /// The time `duration` after `self`; saturates at the end of representable
    /// time, so a saturated deadline can never be exceeded.
    pub fn add_duration(&self, duration: &Duration) -> (r: Timestamp)
        ensures
            r.nanoseconds == saturating_add(self.nanoseconds, duration.nanoseconds),
    {
        match self.nanoseconds.checked_add(duration.nanoseconds) {
            Some(n) => Timestamp { nanoseconds: n },
            None => Timestamp { nanoseconds: u64::MAX },
        }
    }

    /// Strictly-later comparison of two clock readings.
    pub fn after(&self, other: &Timestamp) -> (r: bool)
        ensures
            r == (self.nanoseconds > other.nanoseconds),
    {
        self.nanoseconds > other.nanoseconds
    }
}

/// Per-counterparty-chain client record: consensus parameters relevant to this
/// layer are the client's type tag, its one-way `frozen` flag and the trusting
/// period that bounds how stale the client may become before updates are
/// refused.
#[derive(Clone, Copy, PartialEq, Eq, Structural, Debug)]
pub struct ClientState {
    pub client_type: u64,
    pub frozen: bool,
    pub trusting_period: Duration,
}

/// A trusted snapshot of the counterparty chain at one height; the timestamp
/// is what the trusting-period check reads.
#[derive(Clone, Copy, PartialEq, Eq, Structural, Debug)]
pub struct ConsensusState {
    pub timestamp: Timestamp,
}

/// Untrusted evidence submitted to update a client: a target height and the
/// timestamp the header claims for it. Consumed by one update call.
#[derive(Clone, Copy, PartialEq, Eq, Structural, Debug)]
pub struct ClientHeader {
    pub height: u64,
    pub timestamp: Timestamp,
}

/// An update-client request: which client to update and the header offered as
/// evidence.
#[derive(Clone, Copy, PartialEq, Eq, Structural, Debug)]
pub struct UpdateClientMessage {
    pub client_id: u64,
    pub header: ClientHeader,
}

/// Emitted after a client update persists both new states.
#[derive(Clone, Copy, PartialEq, Eq, Structural, Debug)]
pub struct UpdateClientEvent {
    pub client_id: u64,
    pub client_type: u64,
    pub header_height: u64,
}

/// Emitted when verification finds the submitted evidence inconsistent with
/// prior trusted state and freezes the client.
#[derive(Clone, Copy, PartialEq, Eq, Structural, Debug)]
pub struct MisbehaviourEvent {
    pub client_id: u64,
    pub client_type: u64,
    pub header_height: u64,
}

/// Output artifact of one successful update-client invocation.
#[derive(Clone, Copy, PartialEq, Eq, Structural, Debug)]
pub enum Event {
    UpdateClient(UpdateClientEvent),
    Misbehaviour(MisbehaviourEvent),
}

/// Opaque failure reported by a header-verification capability; this layer
/// propagates it without classifying it further.
#[derive(Clone, Copy, PartialEq, Eq, Structural, Debug)]
pub struct VerificationError {
    pub code: u64,
}

} // verus!
