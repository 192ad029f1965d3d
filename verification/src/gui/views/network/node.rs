//! The tab that shows the integrated node.

use vstd::prelude::*;
use crate::gui::views::network::container::NetworkTabType;

verus! {

/// The tab that shows the integrated node.
#[derive(Default)]
pub struct NetworkNode;

impl NetworkNode {
    /// The kind of the tab.
    pub fn get_type(&self) -> (kind: NetworkTabType)
        ensures
            kind == NetworkTabType::Node,
    {
        NetworkTabType::Node
    }

    /// Which corners of the box of the peer at `index`, of `len` peers that
    /// are listed for a node with `peer_count` peers, are rounded: the upper
    /// ones of the first box and the lower ones of the last, and all of them
    /// where the node has a single peer.
    pub open spec fn spec_peer_rounding(peer_count: int, index: int, len: int) -> (bool, bool) {
        if peer_count == 1 {
            (true, true)
        } else if index == 0 {
            (true, false)
        } else if index == len - 1 {
            (false, true)
        } else {
            (false, false)
        }
    }

    /// Which corners of the box of the peer at `index` are rounded, the upper
    /// ones first.
    pub fn peer_rounding(peer_count: u32, index: usize, len: usize) -> (rounding: [bool; 2])
        requires
            index < len,
        ensures
            (rounding[0], rounding[1]) == Self::spec_peer_rounding(
                peer_count as int,
                index as int,
                len as int,
            ),
    {
        if peer_count == 1 {
            [true, true]
        } else if index == 0 {
            [true, false]
        } else if index == len - 1 {
            [false, true]
        } else {
            [false, false]
        }
    }
}

} // verus!
