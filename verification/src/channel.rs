//! Channels: the logical conduits packets travel over, and the port
//! configuration hook test cases implement.

use vstd::prelude::*;

verus! {

broadcast use vstd::string::group_string_axioms;

/// Whether packet delivery order must match send order. Fixed at channel
/// creation; it selects which timeout-relay variant is legal for the
/// channel.
#[derive(Clone, Copy, PartialEq, Eq, Structural, Debug)]
pub enum ChannelOrdering {
    Ordered,
    Unordered,
}

/// One side of a channel: the (port, channel-id) pair on that chain.
#[derive(Clone, Copy, PartialEq, Eq, Structural, Debug)]
pub struct ChannelEnd {
    pub port_id: u64,
    pub channel_id: u64,
}

/// A channel between two chains, side `a` and side `b`, with its ordering
/// mode.
#[derive(Clone, Copy, PartialEq, Eq, Structural, Debug)]
pub struct Channel {
    pub ordering: ChannelOrdering,
    pub side_a: ChannelEnd,
    pub side_b: ChannelEnd,
}

impl Channel {
    /// The same channel seen from the other chain: the two sides swap, the
    /// ordering mode stays.
    pub fn flip(self) -> (r: Channel)
        ensures
            r.side_a == self.side_b,
            r.side_b == self.side_a,
            r.ordering == self.ordering,
    {
        Channel { ordering: self.ordering, side_a: self.side_b, side_b: self.side_a }
    }
}

/// Port configuration for a two-chain test case; the token-transfer port is
/// the default on both sides, and a case that overrides a port overrides its
/// spec alongside it.
pub trait TestCaseWithChannelPorts {
    /// The port this case opens on chain A.
    open spec fn spec_channel_port_a(&self) -> Seq<char> {
        "transfer"@
    }

    /// The port this case opens on chain B.
    open spec fn spec_channel_port_b(&self) -> Seq<char> {
        "transfer"@
    }

    /// The port to open on chain A.
    fn channel_port_a(&self) -> (r: String)
        ensures
            r@ == self.spec_channel_port_a(),
    ;

    /// The port to open on chain B.
    fn channel_port_b(&self) -> (r: String)
        ensures
            r@ == self.spec_channel_port_b(),
    ;
}

/// The port configuration used when a test case overrides nothing: the
/// token-transfer port on both sides.
pub struct DefaultChannelPorts;

impl TestCaseWithChannelPorts for DefaultChannelPorts {
    fn channel_port_a(&self) -> String {
        "transfer".to_string()
    }

    fn channel_port_b(&self) -> String {
        "transfer".to_string()
    }
}

} // verus!
