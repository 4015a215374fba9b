//! Capability interfaces a chain integration must satisfy: reading and
//! writing client and consensus state, reading the host clock, verifying a
//! header, and emitting events. The update-client machine operates only
//! through these contracts.

use vstd::prelude::*;

use crate::types::ClientHeader;
use crate::types::ClientState;
use crate::types::ConsensusState;
use crate::types::Event;
use crate::types::MisbehaviourEvent;
use crate::types::Timestamp;
use crate::types::UpdateClientEvent;
use crate::types::VerificationError;

verus! {

/// Mathematical model of one client's stored data: its client state, the
/// consensus snapshots indexed by height, and the height of the latest
/// snapshot (`None` while no snapshot has been recorded).
#[verifier::ext_equal]
pub struct ClientRecord {
    pub state: ClientState,
    pub consensus: Map<u64, ConsensusState>,
    pub latest_height: Option<u64>,
}

/// Mathematical model of everything the capability interfaces expose: the
/// per-client records, the host clock reading, and the events emitted so far.
#[verifier::ext_equal]
pub struct StoreView {
    pub clients: Map<u64, ClientRecord>,
    pub host_time: Timestamp,
    pub events: Seq<Event>,
}

/// The stored client state for `client_id`, if that client exists.
pub open spec fn client_state_of(s: StoreView, client_id: u64) -> Option<ClientState> {
    if s.clients.dom().contains(client_id) {
        Some(s.clients[client_id].state)
    } else {
        None
    }
}

/// The latest consensus snapshot recorded for `client_id`, if any.
pub open spec fn latest_consensus_of(s: StoreView, client_id: u64) -> Option<ConsensusState> {
    if s.clients.dom().contains(client_id) {
        match s.clients[client_id].latest_height {
            Some(h) => Some(s.clients[client_id].consensus[h]),
            None => None,
        }
    } else {
        None
    }
}

/// `rec` after recording `cons` at `height`: the snapshot map gains the entry
/// and the latest height advances if `height` is not below it.
pub open spec fn record_with_consensus(
    rec: ClientRecord,
    height: u64,
    cons: ConsensusState,
) -> ClientRecord {
    ClientRecord {
        consensus: rec.consensus.insert(height, cons),
        latest_height: Some(
            match rec.latest_height {
                Some(h) => if height >= h {
                    height
                } else {
                    h
                },
                None => height,
            },
        ),
        ..rec
    }
}

/// The store after writing `state` as the client state of `client_id`; a
/// client seen for the first time starts with no consensus snapshots.
pub open spec fn with_client_state(s: StoreView, client_id: u64, state: ClientState) -> StoreView {
    let rec = if s.clients.dom().contains(client_id) {
        s.clients[client_id]
    } else {
        ClientRecord { state, consensus: Map::empty(), latest_height: None }
    };
    StoreView { clients: s.clients.insert(client_id, ClientRecord { state, ..rec }), ..s }
}

/// The store after recording `cons` at `height` for the existing client
/// `client_id`.
pub open spec fn with_consensus_state(
    s: StoreView,
    client_id: u64,
    height: u64,
    cons: ConsensusState,
) -> StoreView {
    StoreView {
        clients: s.clients.insert(
            client_id,
            record_with_consensus(s.clients[client_id], height, cons),
        ),
        ..s
    }
}

/// The store after appending `event` to the emitted-event log.
pub open spec fn with_event(s: StoreView, event: Event) -> StoreView {
    StoreView { events: s.events.push(event), ..s }
}

/// Event-construction capability: how a chain context builds the two domain
/// events the update-client machine emits.
pub trait AfoEventContext {
    /// Builds the event recording a successful client update.
    fn inject_update_client_event(client_id: u64, client_type: u64, header_height: u64) -> (e:
        Event)
        ensures
            e == Event::UpdateClient(UpdateClientEvent { client_id, client_type, header_height }),
    ;

    /// Builds the event recording detected misbehaviour.
    fn inject_misbehavior_event(client_id: u64, client_type: u64, header_height: u64) -> (e: Event)
        ensures
            e == Event::Misbehaviour(MisbehaviourEvent { client_id, client_type, header_height }),
    ;
}

/// Full chain-context capability set: client store access, host clock, header
/// verification and event emission, each pinned to the context's `store()`
/// model. The store is logically single-writer per client id; an
/// implementation must serialize concurrent updates of one client.
pub trait AfoChainContext: AfoEventContext + Sized {
    /// The mathematical model of this context's observable state.
    spec fn store(&self) -> StoreView;

    /// The implementation's internal well-formedness; every operation
    /// requires and preserves it.
    spec fn inv(&self) -> bool;

    /// Reads the client state of `client_id`, if that client exists.
    fn get_any_client_state(&self, client_id: u64) -> (r: Option<ClientState>)
        requires
            self.inv(),
        ensures
            r == client_state_of(self.store(), client_id),
    ;

    /// Reads the latest consensus snapshot recorded for `client_id`.
    fn get_latest_any_consensus_state(&self, client_id: u64) -> (r: Option<ConsensusState>)
        requires
            self.inv(),
        ensures
            r == latest_consensus_of(self.store(), client_id),
    ;

    /// Reads the host chain's current time.
    fn host_timestamp(&self) -> (t: Timestamp)
        requires
            self.inv(),
        ensures
            t == self.store().host_time,
    ;

    /// Verifies `header` against the current client state and answers the
    /// candidate new client and consensus states, or a verification error.
    /// What is accepted is the implementation's consensus algorithm; this
    /// layer assumes nothing about the outcome, only that verification
    /// reads and does not write.
    fn check_client_header_and_update_state(
        &self,
        client_id: u64,
        client_state: &ClientState,
        header: &ClientHeader,
    ) -> (r: Result<(ClientState, ConsensusState), VerificationError>)
        requires
            self.inv(),
    ;

    /// Writes `client_state` as the client state of `client_id`, changing
    /// nothing else.
    fn set_any_client_state(&mut self, client_id: u64, client_state: &ClientState)
        requires
            old(self).inv(),
        ensures
            final(self).inv(),
            final(self).store() == with_client_state(
                old(self).store(),
                client_id,
                *client_state,
            ),
    ;

    /// Records `consensus_state` at `height` for the existing client
    /// `client_id`, changing nothing else.
    fn set_any_consensus_state(
        &mut self,
        client_id: u64,
        height: u64,
        consensus_state: &ConsensusState,
    )
        requires
            old(self).inv(),
            old(self).store().clients.dom().contains(client_id),
        ensures
            final(self).inv(),
            final(self).store() == with_consensus_state(
                old(self).store(),
                client_id,
                height,
                *consensus_state,
            ),
    ;

    /// Appends `event` to the emitted-event log, changing nothing else.
    /// Fire-and-forget: emission has no failure path in this model.
    fn emit_event(&mut self, event: &Event)
        requires
            old(self).inv(),
        ensures
            final(self).inv(),
            final(self).store() == with_event(old(self).store(), *event),
    ;
}

} // verus!
