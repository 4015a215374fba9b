//! The update-client state machine: validates a submitted header against the
//! locally held client and consensus state, applies the verified update, and
//! emits the matching event. A client is `Active` or `Frozen`; the only
//! transition is `Active -> Frozen`, taken when verification reports
//! misbehaviour, and it is one-way.

use vstd::prelude::*;

use crate::context::client_state_of;
use crate::context::latest_consensus_of;
use crate::context::with_client_state;
use crate::context::with_consensus_state;
use crate::context::with_event;
use crate::context::AfoChainContext;
use crate::context::StoreView;
use crate::types::saturating_add;
use crate::types::ClientHeader;
use crate::types::ClientState;
use crate::types::ConsensusState;
use crate::types::Event;
use crate::types::MisbehaviourEvent;
use crate::types::UpdateClientEvent;
use crate::types::UpdateClientMessage;
use crate::types::VerificationError;

verus! {

/// How an update-client invocation can fail. The first two are terminal
/// classification errors: retrying changes nothing until external state
/// changes. The missing-state errors report an unknown client. A
/// verification error is propagated from the verification capability as is.
#[derive(Clone, Copy, PartialEq, Eq, Structural, Debug)]
pub enum Error {
    ClientIsFrozen,
    ClientIsExpired,
    ClientNotFound,
    ConsensusStateNotFound,
    Verification(VerificationError),
}

/// The client exists and its stored state is frozen.
pub open spec fn client_frozen_in(s: StoreView, client_id: u64) -> bool {
    client_state_of(s, client_id) matches Some(cs) && cs.frozen
}

/// The client exists, has a consensus snapshot, and the host clock has passed
/// `last_updated_time + trusting_period`: the client can no longer be trusted
/// to evaluate new headers.
pub open spec fn client_expired_in(s: StoreView, client_id: u64) -> bool {
    &&& client_state_of(s, client_id) matches Some(cs)
    &&& latest_consensus_of(s, client_id) matches Some(cons)
    &&& s.host_time.nanoseconds > saturating_add(
        cons.timestamp.nanoseconds,
        cs.trusting_period.nanoseconds,
    )
}

/// What holds after a verified update was applied: the new client state is
/// written unconditionally; if it is frozen, the consensus write is
/// suppressed and exactly one misbehaviour event emitted, else the new
/// consensus snapshot is recorded at the header height and exactly one
/// update event emitted.
pub open spec fn update_applied(pre: StoreView, post: StoreView, m: UpdateClientMessage) -> bool {
    let id = m.client_id;
    &&& post.clients.dom().contains(id)
    &&& {
        let new_state = post.clients[id].state;
        if new_state.frozen {
            post == with_event(
                with_client_state(pre, id, new_state),
                Event::Misbehaviour(
                    MisbehaviourEvent {
                        client_id: id,
                        client_type: new_state.client_type,
                        header_height: m.header.height,
                    },
                ),
            )
        } else {
            &&& post.clients[id].consensus.dom().contains(m.header.height)
            &&& post == with_event(
                with_consensus_state(
                    with_client_state(pre, id, new_state),
                    id,
                    m.header.height,
                    post.clients[id].consensus[m.header.height],
                ),
                Event::UpdateClient(
                    UpdateClientEvent {
                        client_id: id,
                        client_type: new_state.client_type,
                        header_height: m.header.height,
                    },
                ),
            )
        }
    }
}

/// Complete description of one `handle_update_client_message` call: a case
/// split on the read-only guards, each failing case leaving the store
/// untouched, and the success case applying the update as `update_applied`
/// says. Guards are checked in order: unknown client, frozen client, missing
/// consensus state, expiry; only then is verification consulted.
pub open spec fn update_client_outcome(
    pre: StoreView,
    post: StoreView,
    m: UpdateClientMessage,
    r: Result<(), Error>,
) -> bool {
    let id = m.client_id;
    match client_state_of(pre, id) {
        None => r == Err::<(), Error>(Error::ClientNotFound) && post == pre,
        Some(current) => if current.frozen {
            r == Err::<(), Error>(Error::ClientIsFrozen) && post == pre
        } else {
            match latest_consensus_of(pre, id) {
                None => r == Err::<(), Error>(Error::ConsensusStateNotFound) && post == pre,
                Some(_) => if client_expired_in(pre, id) {
                    r == Err::<(), Error>(Error::ClientIsExpired) && post == pre
                } else {
                    match r {
                        Err(e) => (e matches Error::Verification(_)) && post == pre,
                        Ok(()) => update_applied(pre, post, m),
                    }
                },
            }
        },
    }
}

/// The message handler that drives a client update through the capability
/// interfaces.
pub struct BaseUpdateClientMessageHandler;

impl BaseUpdateClientMessageHandler {
    /// Applies an already-verified update: exactly what the store looks like
    /// afterwards, for every possible verification result handed in.
    ///
    /// The new client state is persisted unconditionally. A frozen result is
    /// misbehaviour: the consensus write is suppressed — the new snapshot is
    /// untrustworthy and must not become a basis for future verification —
    /// and one misbehaviour event is emitted. Otherwise the new snapshot is
    /// persisted at the header height and one update event is emitted.
    pub fn apply_client_update<Context: AfoChainContext>(
        context: &mut Context,
        client_id: u64,
        header: &ClientHeader,
        new_client_state: &ClientState,
        new_consensus_state: &ConsensusState,
    )
        requires
            old(context).inv(),
        ensures
            final(context).inv(),
            final(context).store() == (if new_client_state.frozen {
                with_event(
                    with_client_state(old(context).store(), client_id, *new_client_state),
                    Event::Misbehaviour(
                        MisbehaviourEvent {
                            client_id,
                            client_type: new_client_state.client_type,
                            header_height: header.height,
                        },
                    ),
                )
            } else {
                with_event(
                    with_consensus_state(
                        with_client_state(old(context).store(), client_id, *new_client_state),
                        client_id,
                        header.height,
                        *new_consensus_state,
                    ),
                    Event::UpdateClient(
                        UpdateClientEvent {
                            client_id,
                            client_type: new_client_state.client_type,
                            header_height: header.height,
                        },
                    ),
                )
            }),
    {
        context.set_any_client_state(client_id, new_client_state);

        if new_client_state.frozen {
            let event = Context::inject_misbehavior_event(
                client_id,
                new_client_state.client_type,
                header.height,
            );
            context.emit_event(&event);
        } else {
            context.set_any_consensus_state(client_id, header.height, new_consensus_state);
            let event = Context::inject_update_client_event(
                client_id,
                new_client_state.client_type,
                header.height,
            );
            context.emit_event(&event);
        }
    }

    /// Validates and applies one update-client message.
    ///
    /// Read-only guards run first: an unknown, frozen or expired client
    /// aborts with the matching error and no effect. Then the verification
    /// capability judges the header; its error is propagated with no effect.
    /// On success the new client state is persisted unconditionally; the new
    /// consensus state is persisted only when the result is not frozen, and
    /// exactly one event — misbehaviour or update — is emitted.
    pub fn handle_update_client_message<Context: AfoChainContext>(
        context: &mut Context,
        message: &UpdateClientMessage,
    ) -> (r: Result<(), Error>)
        requires
            old(context).inv(),
        ensures
            final(context).inv(),
            update_client_outcome(old(context).store(), final(context).store(), *message, r),
    {
        let client_id = message.client_id;
        let new_client_header = &message.header;

        let current_client_state = match context.get_any_client_state(client_id) {
            Some(s) => s,
            None => {
                return Err(Error::ClientNotFound);
            },
        };

        if current_client_state.frozen {
            return Err(Error::ClientIsFrozen);
        }

        let current_time = context.host_timestamp();

        let latest_consensus_state = match context.get_latest_any_consensus_state(client_id) {
            Some(s) => s,
            None => {
                return Err(Error::ConsensusStateNotFound);
            },
        };

        let last_updated_time = latest_consensus_state.timestamp;
        let trusting_period = current_client_state.trusting_period;
        let latest_allowed_update_time = last_updated_time.add_duration(&trusting_period);

        if current_time.after(&latest_allowed_update_time) {
            return Err(Error::ClientIsExpired);
        }

        let (new_client_state, new_consensus_state) = match context
            .check_client_header_and_update_state(
            client_id,
            &current_client_state,
            new_client_header,
        ) {
            Ok(pair) => pair,
            Err(e) => {
                return Err(Error::Verification(e));
            },
        };

        Self::apply_client_update(
            context,
            client_id,
            new_client_header,
            &new_client_state,
            &new_consensus_state,
        );

        Ok(())
    }
}

/// Frozen is sticky: an update attempt against a frozen client fails with
/// `ClientIsFrozen` and leaves the whole store — client states, consensus
/// states and the event log — identical.
pub proof fn lemma_frozen_client_is_sticky(
    pre: StoreView,
    post: StoreView,
    m: UpdateClientMessage,
    r: Result<(), Error>,
)
    requires
        update_client_outcome(pre, post, m, r),
        client_frozen_in(pre, m.client_id),
    ensures
        r == Err::<(), Error>(Error::ClientIsFrozen),
        post == pre,
{
}

/// Expiry gate: when the host clock reads exactly one past
/// `last_updated_time + trusting_period`, an update attempt against a
/// non-frozen client fails with `ClientIsExpired` and leaves the store
/// identical, before any verification result could matter.
pub proof fn lemma_expiry_gate(
    pre: StoreView,
    post: StoreView,
    m: UpdateClientMessage,
    r: Result<(), Error>,
    current: ClientState,
    latest: ConsensusState,
)
    requires
        update_client_outcome(pre, post, m, r),
        client_state_of(pre, m.client_id) == Some(current),
        !current.frozen,
        latest_consensus_of(pre, m.client_id) == Some(latest),
        pre.host_time.nanoseconds == latest.timestamp.nanoseconds
            + current.trusting_period.nanoseconds + 1,
    ensures
        r == Err::<(), Error>(Error::ClientIsExpired),
        post == pre,
{
}

/// Once frozen, forever frozen: no update-client call — for this client or
/// for any other — leaves a frozen client unfrozen. Together with
/// `lemma_frozen_client_is_sticky` this makes the `Active -> Frozen`
/// transition one-way.
pub proof fn lemma_freeze_is_permanent(
    pre: StoreView,
    post: StoreView,
    m: UpdateClientMessage,
    r: Result<(), Error>,
    client_id: u64,
)
    requires
        update_client_outcome(pre, post, m, r),
        client_frozen_in(pre, client_id),
    ensures
        client_frozen_in(post, client_id),
{
}

/// The event log only grows: a failed update-client call emits nothing, a
/// successful one emits exactly one event, and what was emitted before is
/// never altered.
pub proof fn lemma_one_event_per_successful_update(
    pre: StoreView,
    post: StoreView,
    m: UpdateClientMessage,
    r: Result<(), Error>,
)
    requires
        update_client_outcome(pre, post, m, r),
    ensures
        r is Err ==> post.events == pre.events,
        r is Ok ==> post.events.len() == pre.events.len() + 1,
        forall|i: int| 0 <= i < pre.events.len() ==> post.events[i] == pre.events[i],
{
}

/// Misbehaviour suppresses the consensus write: when an accepted update
/// froze the client, every client's consensus snapshots are exactly what
/// they were, and exactly one event — a misbehaviour event for this client
/// and header height — was emitted.
pub proof fn lemma_misbehaviour_suppresses_consensus_write(
    pre: StoreView,
    post: StoreView,
    m: UpdateClientMessage,
    r: Result<(), Error>,
)
    requires
        update_client_outcome(pre, post, m, r),
        r == Ok::<(), Error>(()),
        post.clients[m.client_id].state.frozen,
    ensures
        pre.clients.dom().contains(m.client_id),
        post.clients[m.client_id].consensus == pre.clients[m.client_id].consensus,
        post.clients[m.client_id].latest_height == pre.clients[m.client_id].latest_height,
        forall|k: u64|
            k != m.client_id ==> (#[trigger] post.clients.dom().contains(k)
                <==> pre.clients.dom().contains(k)),
        forall|k: u64|
            k != m.client_id && pre.clients.dom().contains(k) ==> #[trigger] post.clients[k]
                == pre.clients[k],
        post.events == pre.events.push(
            Event::Misbehaviour(
                MisbehaviourEvent {
                    client_id: m.client_id,
                    client_type: post.clients[m.client_id].state.client_type,
                    header_height: m.header.height,
                },
            ),
        ),
{
}

/// Happy path: when an accepted update did not freeze the client, the new
/// client state and the new consensus snapshot at the header height are both
/// persisted, no other client is touched, and exactly one update event was
/// emitted.
pub proof fn lemma_happy_path(
    pre: StoreView,
    post: StoreView,
    m: UpdateClientMessage,
    r: Result<(), Error>,
)
    requires
        update_client_outcome(pre, post, m, r),
        r == Ok::<(), Error>(()),
        !post.clients[m.client_id].state.frozen,
    ensures
        pre.clients.dom().contains(m.client_id),
        post.clients.dom().contains(m.client_id),
        post.clients[m.client_id].consensus.dom().contains(m.header.height),
        post.clients[m.client_id].consensus.remove(m.header.height)
            == pre.clients[m.client_id].consensus.remove(m.header.height),
        forall|k: u64|
            k != m.client_id ==> (#[trigger] post.clients.dom().contains(k)
                <==> pre.clients.dom().contains(k)),
        forall|k: u64|
            k != m.client_id && pre.clients.dom().contains(k) ==> #[trigger] post.clients[k]
                == pre.clients[k],
        post.events == pre.events.push(
            Event::UpdateClient(
                UpdateClientEvent {
                    client_id: m.client_id,
                    client_type: post.clients[m.client_id].state.client_type,
                    header_height: m.header.height,
                },
            ),
        ),
{
}

} // verus!
