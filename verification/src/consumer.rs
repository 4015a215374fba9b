//! The consumer side of the submission layer: applying one received batch
//! to a chain context, message by message, and shaping the batch's reply —
//! the events each message produced, or the first rejection, mapped to its
//! submission code. The surrounding loop (locks, the thread, the sleep)
//! stays outside; every decision here is verified.
//!
//! Packet messages are destined for the counterparty chain; submitting them
//! is transport work with no effect on the local store, so they contribute
//! an empty event list.

use vstd::assert_seqs_equal;
use vstd::prelude::*;

use crate::batch::events_view;
use crate::batch::outcome_view;
use crate::batch::BatchOutcome;
use crate::batch::BatchOutcomeView;
use crate::batch::SubmissionError;
use crate::context::AfoChainContext;
use crate::context::StoreView;
use crate::relay::IbcMessage;
use crate::types::saturating_add;
use crate::types::Event;
use crate::update_client::update_client_outcome;
use crate::update_client::BaseUpdateClientMessageHandler;
use crate::update_client::Error;

verus! {

/// The submission code a rejected message reports for each update-client
/// error.
pub open spec fn submission_code_of(e: Error) -> u64 {
    match e {
        Error::ClientIsFrozen => 1,
        Error::ClientIsExpired => 2,
        Error::ClientNotFound => 3,
        Error::ConsensusStateNotFound => 4,
        Error::Verification(v) => saturating_add(100, v.code),
    }
}

/// Forgets the events of a per-message result, keeping only how it ended.
pub open spec fn unit_of(r: Result<Seq<Event>, Error>) -> Result<(), Error> {
    match r {
        Ok(_) => Ok(()),
        Err(e) => Err(e),
    }
}

/// Mathematical image of a per-message result.
pub open spec fn events_result_view(r: Result<Vec<Event>, Error>) -> Result<Seq<Event>, Error> {
    match r {
        Ok(v) => Ok(v@),
        Err(e) => Err(e),
    }
}

/// What applying one message to the store comes to: an update-client
/// message runs the update-client machine and, on success, hands back
/// exactly the events that call appended; a packet message leaves the local
/// store untouched and produces no events.
pub open spec fn message_applied(
    pre: StoreView,
    post: StoreView,
    m: IbcMessage,
    r: Result<Seq<Event>, Error>,
) -> bool {
    match m {
        IbcMessage::UpdateClient(update) => {
            &&& update_client_outcome(pre, post, update, unit_of(r))
            &&& (r matches Ok(events) ==> post.events == pre.events + events)
        },
        _ => {
            &&& r == Ok::<Seq<Event>, Error>(Seq::empty())
            &&& post == pre
        },
    }
}

/// What applying a whole batch comes to: the messages are applied front to
/// back; on success the reply lists each message's events in order; the
/// first rejected message stops the batch, and the reply is its submission
/// code. Messages already applied keep their effects — the rejection is
/// reported, not rolled back, as with per-message submission.
pub open spec fn batch_applied(
    pre: StoreView,
    post: StoreView,
    messages: Seq<IbcMessage>,
    r: BatchOutcomeView,
) -> bool
    decreases messages.len(),
{
    if messages.len() == 0 {
        &&& post == pre
        &&& r == Ok::<Seq<Seq<Event>>, SubmissionError>(Seq::empty())
    } else {
        exists|mid: StoreView, first: Result<Seq<Event>, Error>|
            {
                &&& #[trigger] message_applied(pre, mid, messages[0], first)
                &&& match first {
                    Err(e) => {
                        &&& r == Err::<Seq<Seq<Event>>, SubmissionError>(
                            SubmissionError { code: submission_code_of(e) },
                        )
                        &&& post == mid
                    },
                    Ok(events) => match r {
                        Ok(per_message) => {
                            &&& per_message.len() >= 1
                            &&& per_message[0] == events
                            &&& batch_applied(
                                mid,
                                post,
                                messages.drop_first(),
                                Ok(per_message.drop_first()),
                            )
                        },
                        Err(rejection) => batch_applied(
                            mid,
                            post,
                            messages.drop_first(),
                            Err(rejection),
                        ),
                    },
                }
            }
    }
}

/// The submission error a rejected update-client message reports.
pub fn submission_error_of(e: &Error) -> (s: SubmissionError)
    ensures
        s.code == submission_code_of(*e),
{
    match e {
        Error::ClientIsFrozen => SubmissionError { code: 1 },
        Error::ClientIsExpired => SubmissionError { code: 2 },
        Error::ClientNotFound => SubmissionError { code: 3 },
        Error::ConsensusStateNotFound => SubmissionError { code: 4 },
        Error::Verification(v) => SubmissionError {
            code: match 100u64.checked_add(v.code) {
                Some(c) => c,
                None => u64::MAX,
            },
        },
    }
}

/// Applies one outbound message to the chain context and answers the events
/// it produced, or the update-client error that rejected it.
pub fn apply_message<Context: AfoChainContext>(context: &mut Context, message: &IbcMessage) -> (r:
    Result<Vec<Event>, Error>)
    requires
        old(context).inv(),
    ensures
        final(context).inv(),
        message_applied(
            old(context).store(),
            final(context).store(),
            *message,
            events_result_view(r),
        ),
{
    match message {
        IbcMessage::UpdateClient(update) => {
            match BaseUpdateClientMessageHandler::handle_update_client_message(context, update) {
                Ok(()) => {
                    // reconstruct the one event this call appended: its kind
                    // and type tag are read off the persisted client state
                    let new_state = match context.get_any_client_state(update.client_id) {
                        Some(s) => s,
                        None => {
                            assert(false);
                            return Err(Error::ClientNotFound);
                        },
                    };
                    let event = if new_state.frozen {
                        Context::inject_misbehavior_event(
                            update.client_id,
                            new_state.client_type,
                            update.header.height,
                        )
                    } else {
                        Context::inject_update_client_event(
                            update.client_id,
                            new_state.client_type,
                            update.header.height,
                        )
                    };
                    let mut events = Vec::new();
                    events.push(event);
                    proof {
                        assert_seqs_equal!(
                            context.store().events,
                            old(context).store().events + events@
                        );
                    }
                    Ok(events)
                },
                Err(e) => Err(e),
            }
        },
        _ => Ok(Vec::new()),
    }
}

/// Applies the messages from position `i` on and shapes their part of the
/// reply.
fn apply_batch_from<Context: AfoChainContext>(
    context: &mut Context,
    messages: &Vec<IbcMessage>,
    i: usize,
) -> (r: BatchOutcome)
    requires
        old(context).inv(),
        i <= messages.len(),
    ensures
        final(context).inv(),
        batch_applied(
            old(context).store(),
            final(context).store(),
            messages@.skip(i as int),
            outcome_view(r),
        ),
    decreases messages.len() - i,
{
    let ghost pre = old(context).store();
    let ghost rest_seq = messages@.skip(i as int);

    if i == messages.len() {
        let r: BatchOutcome = Ok(Vec::new());
        proof {
            assert(rest_seq =~= Seq::<IbcMessage>::empty());
            assert(outcome_view(r) matches Ok(per) && per =~= Seq::<Seq<Event>>::empty());
        }
        return r;
    }

    let first = apply_message(context, &messages[i]);
    let ghost mid = context.store();
    proof {
        assert(rest_seq[0] == messages@[i as int]);
    }

    match first {
        Err(e) => {
            let rejection = submission_error_of(&e);
            proof {
                assert(message_applied(pre, mid, rest_seq[0], Err::<Seq<Event>, Error>(e)));
            }
            Err(rejection)
        },
        Ok(events) => {
            let ghost first_events = events@;
            match apply_batch_from(context, messages, i + 1) {
                Ok(mut per_message) => {
                    let ghost tail_view = events_view(per_message);
                    per_message.insert(0, events);
                    proof {
                        assert(message_applied(
                            pre,
                            mid,
                            rest_seq[0],
                            Ok::<Seq<Event>, Error>(first_events),
                        ));
                        assert(rest_seq.drop_first() =~= messages@.skip(i as int + 1));
                        let per = events_view(per_message);
                        assert(per[0] == first_events);
                        assert_seqs_equal!(per.drop_first(), tail_view);
                    }
                    Ok(per_message)
                },
                Err(rejection) => {
                    proof {
                        assert(message_applied(
                            pre,
                            mid,
                            rest_seq[0],
                            Ok::<Seq<Event>, Error>(first_events),
                        ));
                        assert(rest_seq.drop_first() =~= messages@.skip(i as int + 1));
                    }
                    Err(rejection)
                },
            }
        },
    }
}

/// Applies one received batch to the chain context: each message's events
/// on success, the first rejection's submission code otherwise.
pub fn apply_message_batch<Context: AfoChainContext>(
    context: &mut Context,
    messages: &Vec<IbcMessage>,
) -> (r: BatchOutcome)
    requires
        old(context).inv(),
    ensures
        final(context).inv(),
        batch_applied(old(context).store(), final(context).store(), messages@, outcome_view(r)),
{
    let r = apply_batch_from(context, messages, 0);
    proof {
        assert(messages@.skip(0) =~= messages@);
    }
    r
}

} // verus!
