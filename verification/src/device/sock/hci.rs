//! Plain data of HCI sockets.
use vstd::prelude::*;
use super::sys::hci_filter;

verus! {

/// Address of an HCI socket: the index of a local adapter.
#[derive(Clone, Copy, Debug, PartialEq, Eq, Structural, PartialOrd, Ord, Hash)]
pub struct SocketAddr {
    pub dev_id: u16,
}

impl Default for SocketAddr {
    fn default() -> (r: Self)
        ensures
            r.dev_id == 0,
    {
        SocketAddr { dev_id: 0 }
    }
}

impl SocketAddr {
    pub fn new(dev_id: u16) -> (r: Self)
        ensures
            r.dev_id == dev_id,
    {
        SocketAddr { dev_id }
    }

    /// The first local adapter.
    pub fn any_raw() -> (r: Self)
        ensures
            r.dev_id == 0,
    {
        SocketAddr { dev_id: 0 }
    }
}

/// Which packets an HCI socket receives: packet types and events (bit
/// masks) and a command opcode.
#[derive(Clone, Copy, Debug, PartialEq, Eq, PartialOrd, Ord, Hash)]
pub struct Filter {
    pub type_mask: u32,
    pub event_mask: [u32; 2],
    pub opcode: u16,
}

impl From<Filter> for hci_filter {
    fn from(f: Filter) -> (r: Self) {
        hci_filter { type_mask: f.type_mask, event_mask: f.event_mask, opcode: f.opcode }
    }
}

impl vstd::std_specs::convert::FromSpecImpl<Filter> for hci_filter {
    open spec fn obeys_from_spec() -> bool {
        true
    }

    open spec fn from_spec(f: Filter) -> Self {
        hci_filter { type_mask: f.type_mask, event_mask: f.event_mask, opcode: f.opcode }
    }
}

} // verus!
