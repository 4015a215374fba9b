//! The packet relayer: one operation per (phase, ordering). Each operation is
//! a pure decision from the queried facts — destination height and time,
//! receipt and commitment proofs — to the message to submit, or to a distinct
//! error saying why no message may be submitted yet. Proof queries and
//! submission stay behind the capability layer; what is decided here is only
//! which message correct inputs justify.

use vstd::prelude::*;

use crate::types::Timestamp;
use crate::types::UpdateClientMessage;

verus! {

/// A cross-chain data transfer: channel and port on each side, a sequence
/// number (the ordering key on ordered channels), and its timeout deadline.
/// A zero timeout height or timeout timestamp means no deadline of that kind.
#[derive(Clone, Copy, PartialEq, Eq, Structural, Debug)]
pub struct Packet {
    pub source_port: u64,
    pub source_channel: u64,
    pub destination_port: u64,
    pub destination_channel: u64,
    pub sequence: u64,
    pub timeout_height: u64,
    pub timeout_timestamp: Timestamp,
}

/// An outbound protocol message, as handed to the batch layer for submission.
#[derive(Clone, Copy, PartialEq, Eq, Structural, Debug)]
pub enum IbcMessage {
    UpdateClient(UpdateClientMessage),
    RecvPacket { packet: Packet, proof_height: u64 },
    TimeoutUnorderedPacket { packet: Packet, proof_height: u64 },
    TimeoutOrderedPacket { packet: Packet, proof_height: u64, next_sequence_receive: u64 },
}

/// Why a relay operation produced no message. `TimeoutNotElapsed` is the
/// timeout-ineligibility case: the packet has not yet timed out, which must
/// not be mistaken for a permanent failure.
#[derive(Clone, Copy, PartialEq, Eq, Structural, Debug)]
pub enum RelayError {
    TimeoutNotElapsed,
    PacketAlreadyReceived,
    PacketNotNextSequence,
    TimeoutElapsed,
}

/// The packet's deadline has passed at a chain observed at `height` and
/// `time`: its timeout height has been reached, or its timeout timestamp has
/// been reached, whichever deadlines the packet carries.
pub open spec fn timed_out_at(packet: Packet, height: u64, time: Timestamp) -> bool {
    ||| (packet.timeout_height != 0 && height >= packet.timeout_height)
    ||| (packet.timeout_timestamp.nanoseconds != 0 && time.nanoseconds
        >= packet.timeout_timestamp.nanoseconds)
}

/// Exact outcome of `relay_packet`: nothing to do for a closed-out packet,
/// a distinct error for one whose deadline already passed, and otherwise the
/// receive-packet message carrying the packet and its proof height.
pub open spec fn relay_packet_outcome(
    proof_height: u64,
    packet: Packet,
    destination_height: u64,
    destination_timestamp: Timestamp,
    commitment_present: bool,
) -> Result<Option<IbcMessage>, RelayError> {
    if !commitment_present {
        Ok(None)
    } else if timed_out_at(packet, destination_height, destination_timestamp) {
        Err(RelayError::TimeoutElapsed)
    } else {
        Ok(Some(IbcMessage::RecvPacket { packet, proof_height }))
    }
}

/// Exact outcome of `relay_timeout_unordered_packet`.
pub open spec fn relay_timeout_unordered_outcome(
    destination_height: u64,
    destination_timestamp: Timestamp,
    packet: Packet,
    packet_received: bool,
    commitment_present: bool,
) -> Result<Option<IbcMessage>, RelayError> {
    if !commitment_present {
        Ok(None)
    } else if packet_received {
        Err(RelayError::PacketAlreadyReceived)
    } else if !timed_out_at(packet, destination_height, destination_timestamp) {
        Err(RelayError::TimeoutNotElapsed)
    } else {
        Ok(Some(IbcMessage::TimeoutUnorderedPacket { packet, proof_height: destination_height }))
    }
}

/// Exact outcome of `relay_timeout_ordered_packet`.
pub open spec fn relay_timeout_ordered_outcome(
    destination_height: u64,
    destination_timestamp: Timestamp,
    packet: Packet,
    next_sequence_receive: u64,
    commitment_present: bool,
) -> Result<Option<IbcMessage>, RelayError> {
    if !commitment_present {
        Ok(None)
    } else if packet.sequence < next_sequence_receive {
        Err(RelayError::PacketAlreadyReceived)
    } else if packet.sequence > next_sequence_receive {
        Err(RelayError::PacketNotNextSequence)
    } else if !timed_out_at(packet, destination_height, destination_timestamp) {
        Err(RelayError::TimeoutNotElapsed)
    } else {
        Ok(
            Some(
                IbcMessage::TimeoutOrderedPacket {
                    packet,
                    proof_height: destination_height,
                    next_sequence_receive,
                },
            ),
        )
    }
}

/// Whether `packet`'s deadline has passed on a chain observed at `height`
/// and `time`.
pub fn packet_has_timed_out(packet: &Packet, height: u64, time: Timestamp) -> (r: bool)
    ensures
        r == timed_out_at(*packet, height, time),
{
    (packet.timeout_height != 0 && height >= packet.timeout_height) || (
    packet.timeout_timestamp.nanoseconds != 0 && time.nanoseconds
        >= packet.timeout_timestamp.nanoseconds)
}

/// Delivers a pending packet: decides the receive-packet message to submit
/// to the destination chain, with its proof at `proof_height`.
///
/// `destination_height` and `destination_timestamp` are the latest observed
/// destination-chain height and time; `commitment_present` is whether the
/// source chain still holds the packet's commitment. A packet with no
/// commitment is already closed out (relayed or timed out): nothing is
/// emitted for it. A packet whose deadline has passed must take the timeout
/// path instead. Submission failures are the submission layer's to report;
/// they are not classified here.
pub fn relay_packet(
    proof_height: u64,
    packet: &Packet,
    destination_height: u64,
    destination_timestamp: Timestamp,
    commitment_present: bool,
) -> (r: Result<Option<IbcMessage>, RelayError>)
    ensures
        r == relay_packet_outcome(
            proof_height,
            *packet,
            destination_height,
            destination_timestamp,
            commitment_present,
        ),
{
    if !commitment_present {
        Ok(None)
    } else if packet_has_timed_out(packet, destination_height, destination_timestamp) {
        Err(RelayError::TimeoutElapsed)
    } else {
        Ok(Some(IbcMessage::RecvPacket { packet: *packet, proof_height }))
    }
}

/// Timeout relay for an unordered channel: given a destination observation
/// at `destination_height` where the packet has provably not been received
/// (`packet_received == false`) and the packet's deadline has elapsed,
/// decides the timeout message that closes out the packet on the source
/// chain. No ordering with other packets is required.
///
/// A packet whose source commitment is already gone is closed: no message is
/// emitted, so correct inputs can never produce a second timeout message for
/// the same packet. A received packet cannot time out, and before the
/// deadline the distinct `TimeoutNotElapsed` error is returned.
pub fn relay_timeout_unordered_packet(
    destination_height: u64,
    destination_timestamp: Timestamp,
    packet: &Packet,
    packet_received: bool,
    commitment_present: bool,
) -> (r: Result<Option<IbcMessage>, RelayError>)
    ensures
        r == relay_timeout_unordered_outcome(
            destination_height,
            destination_timestamp,
            *packet,
            packet_received,
            commitment_present,
        ),
{
    if !commitment_present {
        Ok(None)
    } else if packet_received {
        Err(RelayError::PacketAlreadyReceived)
    } else if !packet_has_timed_out(packet, destination_height, destination_timestamp) {
        Err(RelayError::TimeoutNotElapsed)
    } else {
        Ok(
            Some(
                IbcMessage::TimeoutUnorderedPacket {
                    packet: *packet,
                    proof_height: destination_height,
                },
            ),
        )
    }
}

/// Timeout relay for an ordered channel: additionally requires proof that
/// the packet is the destination's next expected sequence
/// (`next_sequence_receive`), because an ordered channel closes at the first
/// unrecoverable timeout and may not skip ahead. A timeout at sequence `n`
/// logically times out all later buffered packets as well; acting on that is
/// deliberately left to the caller, which dispatches per channel metadata —
/// nothing is cascaded here.
pub fn relay_timeout_ordered_packet(
    destination_height: u64,
    destination_timestamp: Timestamp,
    packet: &Packet,
    next_sequence_receive: u64,
    commitment_present: bool,
) -> (r: Result<Option<IbcMessage>, RelayError>)
    ensures
        r == relay_timeout_ordered_outcome(
            destination_height,
            destination_timestamp,
            *packet,
            next_sequence_receive,
            commitment_present,
        ),
{
    if !commitment_present {
        Ok(None)
    } else if packet.sequence < next_sequence_receive {
        Err(RelayError::PacketAlreadyReceived)
    } else if packet.sequence > next_sequence_receive {
        Err(RelayError::PacketNotNextSequence)
    } else if !packet_has_timed_out(packet, destination_height, destination_timestamp) {
        Err(RelayError::TimeoutNotElapsed)
    } else {
        Ok(
            Some(
                IbcMessage::TimeoutOrderedPacket {
                    packet: *packet,
                    proof_height: destination_height,
                    next_sequence_receive,
                },
            ),
        )
    }
}

/// A closed-out packet is final: once its source commitment is gone, neither
/// relay path emits a message for it again — the exactly-once outcome a
/// packet must have even under retries.
pub proof fn lemma_closed_packet_is_never_relaid_again(
    proof_height: u64,
    packet: Packet,
    destination_height: u64,
    destination_timestamp: Timestamp,
    packet_received: bool,
    next_sequence_receive: u64,
)
    ensures
        relay_packet_outcome(proof_height, packet, destination_height, destination_timestamp, false)
            == Ok::<Option<IbcMessage>, RelayError>(None),
        relay_timeout_unordered_outcome(
            destination_height,
            destination_timestamp,
            packet,
            packet_received,
            false,
        ) == Ok::<Option<IbcMessage>, RelayError>(None),
        relay_timeout_ordered_outcome(
            destination_height,
            destination_timestamp,
            packet,
            next_sequence_receive,
            false,
        ) == Ok::<Option<IbcMessage>, RelayError>(None),
{
}

} // verus!
