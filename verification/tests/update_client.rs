use ibc_relayer_core::context::AfoChainContext;
use ibc_relayer_core::store::InMemoryChainContext;
use ibc_relayer_core::store::VERIFY_ERR_NON_MONOTONIC;
use ibc_relayer_core::types::ClientHeader;
use ibc_relayer_core::types::ClientState;
use ibc_relayer_core::types::ConsensusState;
use ibc_relayer_core::types::Duration;
use ibc_relayer_core::types::Event;
use ibc_relayer_core::types::MisbehaviourEvent;
use ibc_relayer_core::types::Timestamp;
use ibc_relayer_core::types::UpdateClientEvent;
use ibc_relayer_core::types::UpdateClientMessage;
use ibc_relayer_core::types::VerificationError;
use ibc_relayer_core::update_client::BaseUpdateClientMessageHandler;
use ibc_relayer_core::update_client::Error;

const SECOND: u64 = 1_000_000_000;

fn ts(seconds: u64) -> Timestamp {
    Timestamp { nanoseconds: seconds * SECOND }
}

fn client(trusting_seconds: u64, frozen: bool) -> ClientState {
    ClientState {
        client_type: 7,
        frozen,
        trusting_period: Duration { nanoseconds: trusting_seconds * SECOND },
    }
}

/// A context with one client (id 1) whose latest consensus state sits at
/// `height` with timestamp `last_updated`.
fn context_with_client(
    state: ClientState,
    height: u64,
    last_updated: Timestamp,
    host_time: Timestamp,
) -> InMemoryChainContext {
    let mut ctx = InMemoryChainContext::new(host_time);
    ctx.set_any_client_state(1, &state);
    ctx.set_any_consensus_state(1, height, &ConsensusState { timestamp: last_updated });
    ctx
}

fn update_msg(height: u64, timestamp: Timestamp) -> UpdateClientMessage {
    UpdateClientMessage { client_id: 1, header: ClientHeader { height, timestamp } }
}

#[test]
fn frozen_client_is_rejected_without_effects() {
    let mut ctx = context_with_client(client(100, true), 5, ts(10), ts(20));
    let r = BaseUpdateClientMessageHandler::handle_update_client_message(
        &mut ctx,
        &update_msg(6, ts(15)),
    );
    assert_eq!(r, Err(Error::ClientIsFrozen));
    assert_eq!(ctx.get_any_client_state(1), Some(client(100, true)));
    assert_eq!(
        ctx.get_any_consensus_state(1, 5),
        Some(ConsensusState { timestamp: ts(10) })
    );
    assert_eq!(ctx.get_any_consensus_state(1, 6), None);
    assert!(ctx.events().is_empty());
}

#[test]
fn unknown_client_is_rejected() {
    let mut ctx = InMemoryChainContext::new(ts(20));
    let r = BaseUpdateClientMessageHandler::handle_update_client_message(
        &mut ctx,
        &update_msg(6, ts(15)),
    );
    assert_eq!(r, Err(Error::ClientNotFound));
    assert!(ctx.events().is_empty());
}

#[test]
fn client_without_consensus_state_is_rejected() {
    let mut ctx = InMemoryChainContext::new(ts(20));
    ctx.set_any_client_state(1, &client(100, false));
    let r = BaseUpdateClientMessageHandler::handle_update_client_message(
        &mut ctx,
        &update_msg(6, ts(15)),
    );
    assert_eq!(r, Err(Error::ConsensusStateNotFound));
    assert!(ctx.events().is_empty());
}

#[test]
fn update_within_trusting_period_succeeds() {
    // trusting period 100 s, last update at T0, host clock at T0 + 50 s
    let t0: u64 = 1_000;
    let mut ctx = context_with_client(client(100, false), 5, ts(t0), ts(t0 + 50));
    let r = BaseUpdateClientMessageHandler::handle_update_client_message(
        &mut ctx,
        &update_msg(6, ts(t0 + 40)),
    );
    assert_eq!(r, Ok(()));
    assert_eq!(
        ctx.get_any_consensus_state(1, 6),
        Some(ConsensusState { timestamp: ts(t0 + 40) })
    );
}

#[test]
fn update_past_trusting_period_is_rejected() {
    // same client, host clock at T0 + 150 s: past the 100 s trusting period
    let t0: u64 = 1_000;
    let mut ctx = context_with_client(client(100, false), 5, ts(t0), ts(t0 + 150));
    let r = BaseUpdateClientMessageHandler::handle_update_client_message(
        &mut ctx,
        &update_msg(6, ts(t0 + 140)),
    );
    assert_eq!(r, Err(Error::ClientIsExpired));
    assert_eq!(ctx.get_any_consensus_state(1, 6), None);
    assert!(ctx.events().is_empty());
}

#[test]
fn expiry_boundary_is_inclusive() {
    // host clock exactly at last_updated + trusting_period: still allowed;
    // one nanosecond past: rejected
    let mut ctx = context_with_client(client(100, false), 5, ts(10), ts(110));
    let r = BaseUpdateClientMessageHandler::handle_update_client_message(
        &mut ctx,
        &update_msg(6, ts(50)),
    );
    assert_eq!(r, Ok(()));

    let late = Timestamp { nanoseconds: 110 * SECOND + 1 };
    let mut ctx2 = context_with_client(client(100, false), 5, ts(10), late);
    let r2 = BaseUpdateClientMessageHandler::handle_update_client_message(
        &mut ctx2,
        &update_msg(6, ts(50)),
    );
    assert_eq!(r2, Err(Error::ClientIsExpired));
}

#[test]
fn happy_path_persists_both_states_and_emits_update_event() {
    let mut ctx = context_with_client(client(100, false), 5, ts(10), ts(20));
    let r = BaseUpdateClientMessageHandler::handle_update_client_message(
        &mut ctx,
        &update_msg(6, ts(15)),
    );
    assert_eq!(r, Ok(()));
    assert_eq!(ctx.get_any_client_state(1), Some(client(100, false)));
    assert_eq!(
        ctx.get_any_consensus_state(1, 6),
        Some(ConsensusState { timestamp: ts(15) })
    );
    assert_eq!(
        ctx.events().as_slice(),
        &[Event::UpdateClient(UpdateClientEvent {
            client_id: 1,
            client_type: 7,
            header_height: 6,
        })]
    );
}

#[test]
fn misbehaviour_freezes_client_and_suppresses_consensus_write() {
    // a second, different consensus claimed for height 5 is equivocation
    let mut ctx = context_with_client(client(100, false), 5, ts(10), ts(20));
    let r = BaseUpdateClientMessageHandler::handle_update_client_message(
        &mut ctx,
        &update_msg(5, ts(12)),
    );
    assert_eq!(r, Ok(()));
    // the client state write happened and froze the client
    assert_eq!(ctx.get_any_client_state(1), Some(client(100, true)));
    // the consensus write was suppressed: height 5 still holds the old snapshot
    assert_eq!(
        ctx.get_any_consensus_state(1, 5),
        Some(ConsensusState { timestamp: ts(10) })
    );
    // exactly one misbehaviour event
    assert_eq!(
        ctx.events().as_slice(),
        &[Event::Misbehaviour(MisbehaviourEvent {
            client_id: 1,
            client_type: 7,
            header_height: 5,
        })]
    );
}

#[test]
fn frozen_flag_is_sticky_after_misbehaviour() {
    let mut ctx = context_with_client(client(100, false), 5, ts(10), ts(20));
    let r1 = BaseUpdateClientMessageHandler::handle_update_client_message(
        &mut ctx,
        &update_msg(5, ts(12)),
    );
    assert_eq!(r1, Ok(()));
    // every further attempt fails fast, with no new events or writes
    let r2 = BaseUpdateClientMessageHandler::handle_update_client_message(
        &mut ctx,
        &update_msg(6, ts(15)),
    );
    assert_eq!(r2, Err(Error::ClientIsFrozen));
    assert_eq!(ctx.get_any_consensus_state(1, 6), None);
    assert_eq!(ctx.events().len(), 1);
}

#[test]
fn verification_error_is_propagated_without_effects() {
    // a header whose timestamp does not advance past the latest snapshot
    let mut ctx = context_with_client(client(100, false), 5, ts(10), ts(20));
    let r = BaseUpdateClientMessageHandler::handle_update_client_message(
        &mut ctx,
        &update_msg(6, ts(10)),
    );
    assert_eq!(
        r,
        Err(Error::Verification(VerificationError {
            code: VERIFY_ERR_NON_MONOTONIC
        }))
    );
    assert_eq!(ctx.get_any_consensus_state(1, 6), None);
    assert_eq!(ctx.get_any_client_state(1), Some(client(100, false)));
    assert!(ctx.events().is_empty());
}

#[test]
fn saturated_deadline_never_expires() {
    // a trusting period so long that the deadline saturates: no host clock
    // reading can pass it
    let state = ClientState {
        client_type: 7,
        frozen: false,
        trusting_period: Duration { nanoseconds: u64::MAX },
    };
    let host = Timestamp { nanoseconds: u64::MAX };
    let mut ctx = context_with_client(state, 5, ts(10), host);
    let r = BaseUpdateClientMessageHandler::handle_update_client_message(
        &mut ctx,
        &update_msg(6, Timestamp { nanoseconds: u64::MAX }),
    );
    assert_eq!(r, Ok(()));
}
