//! An in-memory chain context: a reference implementation of the capability
//! interfaces backed by hash maps. It serves as the store behind tests and
//! as the model implementation that keeps the capability contracts honest.
//!
//! Its header-verification rule is a deliberately small light client: a
//! header for an already-recorded height whose timestamp disagrees with the
//! recorded snapshot is equivocation and freezes the client; a header whose
//! timestamp does not advance past the latest snapshot is rejected; anything
//! else is accepted.

use std::collections::HashMap;
use vstd::map::*;
use vstd::prelude::*;

use crate::context::with_client_state;
use crate::context::with_consensus_state;
use crate::context::with_event;
use crate::context::AfoChainContext;
use crate::context::AfoEventContext;
use crate::context::ClientRecord;
use crate::context::StoreView;
use crate::types::ClientHeader;
use crate::types::ClientState;
use crate::types::ConsensusState;
use crate::types::Duration;
use crate::types::Event;
use crate::types::MisbehaviourEvent;
use crate::types::Timestamp;
use crate::types::UpdateClientEvent;
use crate::types::VerificationError;

verus! {

broadcast use vstd::std_specs::hash::group_hash_axioms;

/// Verification failure: the client id handed to the verifier is unknown.
pub const VERIFY_ERR_UNKNOWN_CLIENT: u64 = 1;

/// Verification failure: the header's timestamp does not advance past the
/// latest recorded snapshot.
pub const VERIFY_ERR_NON_MONOTONIC: u64 = 2;

/// One client's stored data: client state, consensus snapshots by height,
/// and the height of the latest snapshot, if any.
struct ClientEntry {
    state: ClientState,
    consensus: HashMap<u64, ConsensusState>,
    latest_height: Option<u64>,
}

impl ClientEntry {
    /// The mathematical record this entry holds.
    spec fn record(&self) -> ClientRecord {
        ClientRecord {
            state: self.state,
            consensus: self.consensus@,
            latest_height: self.latest_height,
        }
    }

    /// The latest-height pointer refers to a recorded snapshot.
    spec fn wf(&self) -> bool {
        match self.latest_height {
            Some(h) => self.consensus@.contains_key(h),
            None => true,
        }
    }
}

/// The in-memory chain context.
pub struct InMemoryChainContext {
    clients: HashMap<u64, ClientEntry>,
    host_time: Timestamp,
    events: Vec<Event>,
}

/// Exact verdict of the in-memory light client on `header`, judged against
/// what `s` records for `client_id`: equivocation at a recorded height
/// answers a frozen client state and withholds nothing else; a timestamp
/// that does not advance past the latest snapshot is rejected; any other
/// header is accepted with a snapshot carrying its timestamp.
pub open spec fn verify_header_spec(
    s: StoreView,
    client_id: u64,
    client_state: ClientState,
    header: ClientHeader,
) -> Result<(ClientState, ConsensusState), VerificationError> {
    if !s.clients.dom().contains(client_id) {
        Err(VerificationError { code: VERIFY_ERR_UNKNOWN_CLIENT })
    } else {
        let rec = s.clients[client_id];
        if rec.consensus.dom().contains(header.height) && rec.consensus[header.height].timestamp
            != header.timestamp {
            Ok(
                (
                    ClientState { frozen: true, ..client_state },
                    ConsensusState { timestamp: header.timestamp },
                ),
            )
        } else if match rec.latest_height {
            Some(h) => header.timestamp.nanoseconds <= rec.consensus[h].timestamp.nanoseconds,
            None => false,
        } {
            Err(VerificationError { code: VERIFY_ERR_NON_MONOTONIC })
        } else {
            Ok((client_state, ConsensusState { timestamp: header.timestamp }))
        }
    }
}

impl InMemoryChainContext {
    /// An empty context whose host clock reads `host_time`.
    pub fn new(host_time: Timestamp) -> (r: Self)
        ensures
            r.inv(),
            r.store() == (StoreView {
                clients: Map::<u64, ClientRecord>::empty(),
                host_time,
                events: Seq::<Event>::empty(),
            }),
    {
        let r = InMemoryChainContext { clients: HashMap::new(), host_time, events: Vec::new() };
        proof {
            assert(r.store().clients =~= Map::<u64, ClientRecord>::empty());
        }
        r
    }

    /// Moves the host clock to `host_time`, changing nothing else.
    pub fn set_host_timestamp(&mut self, host_time: Timestamp)
        requires
            old(self).inv(),
        ensures
            final(self).inv(),
            final(self).store() == (StoreView { host_time, ..old(self).store() }),
    {
        self.host_time = host_time;
    }

    /// Read access to the events emitted so far, oldest first.
    pub fn events(&self) -> (r: &Vec<Event>)
        ensures
            r@ == self.store().events,
    {
        &self.events
    }

    /// Reads the consensus snapshot recorded for `client_id` at `height`, if
    /// any.
    pub fn get_any_consensus_state(&self, client_id: u64, height: u64) -> (r: Option<
        ConsensusState,
    >)
        requires
            self.inv(),
        ensures
            r == (if self.store().clients.dom().contains(client_id)
                && self.store().clients[client_id].consensus.dom().contains(height) {
                Some(self.store().clients[client_id].consensus[height])
            } else {
                None::<ConsensusState>
            }),
    {
        match self.clients.get(&client_id) {
            Some(entry) => match entry.consensus.get(&height) {
                Some(cons) => Some(*cons),
                None => None,
            },
            None => None,
        }
    }

    /// The in-memory light client's header verification, pinned to
    /// `verify_header_spec`.
    pub fn verify_header(
        &self,
        client_id: u64,
        client_state: &ClientState,
        header: &ClientHeader,
    ) -> (r: Result<(ClientState, ConsensusState), VerificationError>)
        requires
            self.inv(),
        ensures
            r == verify_header_spec(self.store(), client_id, *client_state, *header),
    {
        let entry = match self.clients.get(&client_id) {
            Some(entry) => entry,
            None => {
                return Err(VerificationError { code: VERIFY_ERR_UNKNOWN_CLIENT });
            },
        };

        // Equivocation: a second, different consensus claimed for a height
        // that already has a recorded snapshot freezes the client.
        let equivocation = match entry.consensus.get(&header.height) {
            Some(existing) => existing.timestamp.nanoseconds != header.timestamp.nanoseconds,
            None => false,
        };
        if equivocation {
            return Ok(
                (
                    ClientState { frozen: true, ..*client_state },
                    ConsensusState { timestamp: header.timestamp },
                ),
            );
        }

        // Liveness: a fresh header must advance past the latest snapshot.
        let monotonic = match entry.latest_height {
            Some(h) => match entry.consensus.get(&h) {
                Some(latest) => header.timestamp.nanoseconds > latest.timestamp.nanoseconds,
                None => {
                    assert(false);
                    true
                },
            },
            None => true,
        };
        if !monotonic {
            return Err(VerificationError { code: VERIFY_ERR_NON_MONOTONIC });
        }

        Ok((*client_state, ConsensusState { timestamp: header.timestamp }))
    }
}

impl AfoEventContext for InMemoryChainContext {
    fn inject_update_client_event(client_id: u64, client_type: u64, header_height: u64) -> Event {
        Event::UpdateClient(UpdateClientEvent { client_id, client_type, header_height })
    }

    fn inject_misbehavior_event(client_id: u64, client_type: u64, header_height: u64) -> Event {
        Event::Misbehaviour(MisbehaviourEvent { client_id, client_type, header_height })
    }
}

impl AfoChainContext for InMemoryChainContext {
    closed spec fn store(&self) -> StoreView {
        StoreView {
            clients: Map::new(
                |id: u64| self.clients@.contains_key(id),
                |id: u64| self.clients@[id].record(),
            ),
            host_time: self.host_time,
            events: self.events@,
        }
    }

    closed spec fn inv(&self) -> bool {
        forall|id: u64| self.clients@.contains_key(id) ==> (#[trigger] self.clients@[id]).wf()
    }

    fn get_any_client_state(&self, client_id: u64) -> (r: Option<ClientState>) {
        match self.clients.get(&client_id) {
            Some(entry) => Some(entry.state),
            None => None,
        }
    }

    fn get_latest_any_consensus_state(&self, client_id: u64) -> (r: Option<ConsensusState>) {
        match self.clients.get(&client_id) {
            Some(entry) => match entry.latest_height {
                Some(h) => match entry.consensus.get(&h) {
                    Some(cons) => Some(*cons),
                    None => {
                        assert(false);
                        None
                    },
                },
                None => None,
            },
            None => None,
        }
    }

    fn host_timestamp(&self) -> (t: Timestamp) {
        self.host_time
    }

    fn check_client_header_and_update_state(
        &self,
        client_id: u64,
        client_state: &ClientState,
        header: &ClientHeader,
    ) -> (r: Result<(ClientState, ConsensusState), VerificationError>) {
        self.verify_header(client_id, client_state, header)
    }

    fn set_any_client_state(&mut self, client_id: u64, client_state: &ClientState) {
        let new_entry = match self.clients.get(&client_id) {
            Some(entry) => ClientEntry {
                state: *client_state,
                consensus: entry.consensus.clone(),
                latest_height: entry.latest_height,
            },
            None => ClientEntry {
                state: *client_state,
                consensus: HashMap::new(),
                latest_height: None,
            },
        };
        self.clients.insert(client_id, new_entry);
        proof {
            let lhs = self.store().clients;
            let rhs = with_client_state(old(self).store(), client_id, *client_state).clients;
            assert_maps_equal!(lhs, rhs);
        }
    }

    fn set_any_consensus_state(
        &mut self,
        client_id: u64,
        height: u64,
        consensus_state: &ConsensusState,
    ) {
        let (state, mut consensus, old_latest) = match self.clients.get(&client_id) {
            Some(entry) => (entry.state, entry.consensus.clone(), entry.latest_height),
            None => {
                assert(false);
                (
                    ClientState {
                        client_type: 0,
                        frozen: false,
                        trusting_period: Duration { nanoseconds: 0 },
                    },
                    HashMap::new(),
                    None,
                )
            },
        };
        consensus.insert(height, *consensus_state);
        let latest_height = Some(
            match old_latest {
                Some(h) => if height >= h {
                    height
                } else {
                    h
                },
                None => height,
            },
        );
        self.clients.insert(client_id, ClientEntry { state, consensus, latest_height });
        proof {
            let lhs = self.store().clients;
            let rhs = with_consensus_state(
                old(self).store(),
                client_id,
                height,
                *consensus_state,
            ).clients;
            assert_maps_equal!(lhs, rhs);
        }
    }

    fn emit_event(&mut self, event: &Event) {
        self.events.push(*event);
        proof {
            let lhs = self.store().clients;
            let rhs = with_event(old(self).store(), *event).clients;
            assert_maps_equal!(lhs, rhs);
        }
    }
}

} // verus!
