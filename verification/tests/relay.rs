use ibc_relayer_core::channel::Channel;
use ibc_relayer_core::channel::ChannelEnd;
use ibc_relayer_core::channel::ChannelOrdering;
use ibc_relayer_core::channel::DefaultChannelPorts;
use ibc_relayer_core::channel::TestCaseWithChannelPorts;
use ibc_relayer_core::relay::packet_has_timed_out;
use ibc_relayer_core::relay::relay_packet;
use ibc_relayer_core::relay::relay_timeout_ordered_packet;
use ibc_relayer_core::relay::relay_timeout_unordered_packet;
use ibc_relayer_core::relay::IbcMessage;
use ibc_relayer_core::relay::Packet;
use ibc_relayer_core::relay::RelayError;
use ibc_relayer_core::types::Timestamp;

fn ts(n: u64) -> Timestamp {
    Timestamp { nanoseconds: n }
}

fn packet(sequence: u64, timeout_height: u64, timeout_ns: u64) -> Packet {
    Packet {
        source_port: 1,
        source_channel: 2,
        destination_port: 3,
        destination_channel: 4,
        sequence,
        timeout_height,
        timeout_timestamp: ts(timeout_ns),
    }
}

#[test]
fn timeout_is_reached_at_the_deadline_height() {
    let p = packet(1, 100, 0);
    assert!(!packet_has_timed_out(&p, 99, ts(0)));
    assert!(packet_has_timed_out(&p, 100, ts(0)));
    assert!(packet_has_timed_out(&p, 101, ts(0)));
}

#[test]
fn timeout_is_reached_at_the_deadline_timestamp() {
    let p = packet(1, 0, 500);
    assert!(!packet_has_timed_out(&p, 1_000, ts(499)));
    assert!(packet_has_timed_out(&p, 1_000, ts(500)));
}

#[test]
fn packet_without_deadlines_never_times_out() {
    let p = packet(1, 0, 0);
    assert!(!packet_has_timed_out(&p, u64::MAX, ts(u64::MAX)));
}

#[test]
fn relay_packet_builds_receive_message() {
    let p = packet(1, 100, 0);
    assert_eq!(
        relay_packet(42, &p, 50, ts(0), true),
        Ok(Some(IbcMessage::RecvPacket { packet: p, proof_height: 42 }))
    );
}

#[test]
fn relay_packet_refuses_expired_packet() {
    let p = packet(1, 100, 0);
    assert_eq!(
        relay_packet(42, &p, 100, ts(0), true),
        Err(RelayError::TimeoutElapsed)
    );
}

#[test]
fn relay_packet_does_nothing_for_closed_packet() {
    let p = packet(1, 100, 0);
    assert_eq!(relay_packet(42, &p, 50, ts(0), false), Ok(None));
}

#[test]
fn unordered_timeout_relay_succeeds_after_deadline() {
    let p = packet(1, 100, 0);
    assert_eq!(
        relay_timeout_unordered_packet(120, ts(0), &p, false, true),
        Ok(Some(IbcMessage::TimeoutUnorderedPacket { packet: p, proof_height: 120 }))
    );
}

#[test]
fn unordered_timeout_relay_is_ineligible_before_deadline() {
    let p = packet(1, 100, 0);
    assert_eq!(
        relay_timeout_unordered_packet(99, ts(0), &p, false, true),
        Err(RelayError::TimeoutNotElapsed)
    );
}

#[test]
fn unordered_timeout_relay_refuses_received_packet() {
    let p = packet(1, 100, 0);
    assert_eq!(
        relay_timeout_unordered_packet(120, ts(0), &p, true, true),
        Err(RelayError::PacketAlreadyReceived)
    );
}

#[test]
fn unordered_timeout_relay_emits_no_second_message_for_closed_packet() {
    let p = packet(1, 100, 0);
    // first attempt, with the commitment still present: the timeout message
    let first = relay_timeout_unordered_packet(120, ts(0), &p, false, true);
    assert_eq!(
        first,
        Ok(Some(IbcMessage::TimeoutUnorderedPacket { packet: p, proof_height: 120 }))
    );
    // the store then clears the commitment; a retry with correct inputs
    // must not produce another timeout message
    let second = relay_timeout_unordered_packet(125, ts(0), &p, false, false);
    assert_eq!(second, Ok(None));
}

#[test]
fn ordered_timeout_relay_requires_next_expected_sequence() {
    let p = packet(5, 100, 0);
    // destination already moved past this sequence
    assert_eq!(
        relay_timeout_ordered_packet(120, ts(0), &p, 6, true),
        Err(RelayError::PacketAlreadyReceived)
    );
    // earlier sequences still pending: may not skip ahead
    assert_eq!(
        relay_timeout_ordered_packet(120, ts(0), &p, 4, true),
        Err(RelayError::PacketNotNextSequence)
    );
    // exactly the next expected sequence, after the deadline
    assert_eq!(
        relay_timeout_ordered_packet(120, ts(0), &p, 5, true),
        Ok(Some(IbcMessage::TimeoutOrderedPacket {
            packet: p,
            proof_height: 120,
            next_sequence_receive: 5,
        }))
    );
}

#[test]
fn ordered_timeout_relay_is_ineligible_before_deadline() {
    let p = packet(5, 100, 0);
    assert_eq!(
        relay_timeout_ordered_packet(99, ts(0), &p, 5, true),
        Err(RelayError::TimeoutNotElapsed)
    );
}

#[test]
fn flipping_a_channel_swaps_its_sides() {
    let ch = Channel {
        ordering: ChannelOrdering::Ordered,
        side_a: ChannelEnd { port_id: 1, channel_id: 11 },
        side_b: ChannelEnd { port_id: 2, channel_id: 22 },
    };
    let flipped = ch.flip();
    assert_eq!(flipped.side_a, ChannelEnd { port_id: 2, channel_id: 22 });
    assert_eq!(flipped.side_b, ChannelEnd { port_id: 1, channel_id: 11 });
    assert_eq!(flipped.ordering, ChannelOrdering::Ordered);
    assert_eq!(flipped.flip(), ch);
}

#[test]
fn default_channel_ports_are_the_transfer_port() {
    let ports = DefaultChannelPorts;
    assert_eq!(ports.channel_port_a(), "transfer");
    assert_eq!(ports.channel_port_b(), "transfer");
}
