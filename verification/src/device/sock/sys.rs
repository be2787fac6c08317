//! Kernel structures and values of Bluetooth sockets, as plain data.
#![allow(non_camel_case_types)]
use vstd::prelude::*;
use crate::addr::Address;

verus! {

/// Address type: classic Bluetooth (BR/EDR).
pub const BDADDR_BREDR: u8 = 0x00;
/// Address type: Bluetooth Low Energy, public.
pub const BDADDR_LE_PUBLIC: u8 = 0x01;
/// Address type: Bluetooth Low Energy, random.
pub const BDADDR_LE_RANDOM: u8 = 0x02;

/// Security levels of the `BT_SECURITY` option.
pub const BT_SECURITY_SDP: u8 = 0;
pub const BT_SECURITY_LOW: u8 = 1;
pub const BT_SECURITY_MEDIUM: u8 = 2;
pub const BT_SECURITY_HIGH: u8 = 3;
pub const BT_SECURITY_FIPS: u8 = 4;

/// Values of the `BT_POWER` option.
pub const BT_POWER_FORCE_ACTIVE_OFF: u8 = 0;
pub const BT_POWER_FORCE_ACTIVE_ON: u8 = 1;

/// Event filter of an HCI socket.
#[derive(Clone, Copy, Debug, PartialEq, Eq)]
pub struct hci_filter {
    pub type_mask: u32,
    pub event_mask: [u32; 2],
    pub opcode: u16,
}

/// Value of the `BT_SECURITY` option.
#[derive(Clone, Copy, Debug, PartialEq, Eq, Structural)]
pub struct bt_security {
    pub level: u8,
    pub key_size: u8,
}

/// Value of the `BT_POWER` option.
#[derive(Clone, Copy, Debug, PartialEq, Eq, Structural)]
pub struct bt_power {
    pub force_active: u8,
}

impl bt_power {
    /// The option value that forces the link active, or not.
    pub fn forced_active(active: bool) -> (r: Self)
        ensures
            r.force_active == (if active { BT_POWER_FORCE_ACTIVE_ON } else { BT_POWER_FORCE_ACTIVE_OFF }),
    {
        bt_power {
            force_active: if active { BT_POWER_FORCE_ACTIVE_ON } else { BT_POWER_FORCE_ACTIVE_OFF },
        }
    }

    /// Whether the option value forces the link active.
    pub fn is_forced_active(&self) -> (r: bool)
        ensures
            r == (self.force_active == BT_POWER_FORCE_ACTIVE_ON),
    {
        self.force_active == BT_POWER_FORCE_ACTIVE_ON
    }
}

/// A Bluetooth address as the kernel stores it: least significant byte
/// first.
#[derive(Clone, Copy, Debug)]
pub struct bdaddr_t {
    pub b: [u8; 6],
}

impl Default for bdaddr_t {
    fn default() -> (r: Self)
        ensures
            r.b@ == seq![0u8, 0u8, 0u8, 0u8, 0u8, 0u8],
    {
        let r = bdaddr_t { b: [0u8; 6] };
        assert(r.b@ =~= seq![0u8, 0u8, 0u8, 0u8, 0u8, 0u8]);
        r
    }
}

/// The bytes of `a` in reverse order.
pub open spec fn spec_reversed(a: [u8; 6]) -> Seq<u8> {
    seq![a[5], a[4], a[3], a[2], a[1], a[0]]
}

impl From<Address> for bdaddr_t {
    fn from(addr: Address) -> (r: Self) {
        let a = addr.0;
        bdaddr_t { b: [a[5], a[4], a[3], a[2], a[1], a[0]] }
    }
}

impl vstd::std_specs::convert::FromSpecImpl<Address> for bdaddr_t {
    open spec fn obeys_from_spec() -> bool {
        true
    }

    open spec fn from_spec(addr: Address) -> Self {
        bdaddr_t { b: [addr.0[5], addr.0[4], addr.0[3], addr.0[2], addr.0[1], addr.0[0]] }
    }
}

impl From<bdaddr_t> for Address {
    fn from(addr: bdaddr_t) -> (r: Self) {
        let b = addr.b;
        Address([b[5], b[4], b[3], b[2], b[1], b[0]])
    }
}

impl vstd::std_specs::convert::FromSpecImpl<bdaddr_t> for Address {
    open spec fn obeys_from_spec() -> bool {
        true
    }

    open spec fn from_spec(addr: bdaddr_t) -> Self {
        Address([addr.b[5], addr.b[4], addr.b[3], addr.b[2], addr.b[1], addr.b[0]])
    }
}

/// Options of a classic Bluetooth (BR/EDR) L2CAP socket.
#[derive(Clone, Copy, Debug, PartialEq, Eq, Structural)]
pub struct l2cap_options {
    /// Outgoing MTU.
    pub omtu: u16,
    /// Incoming MTU.
    pub imtu: u16,
    pub flush_to: u16,
    pub mode: u8,
    pub fcs: u8,
    /// Most transmissions.
    pub max_tx: u8,
    /// Transmission window.
    pub txwin_size: u16,
}

impl Default for l2cap_options {
    fn default() -> (r: Self)
        ensures
            r == (l2cap_options {
                omtu: 0,
                imtu: 672,
                flush_to: 65535,
                mode: 0,
                fcs: 0x01,
                max_tx: 3,
                txwin_size: 63,
            }),
    {
        l2cap_options { omtu: 0, imtu: 672, flush_to: 65535, mode: 0, fcs: 0x01, max_tx: 3, txwin_size: 63 }
    }
}

/// Connection information of an L2CAP socket.
#[derive(Clone, Copy, Debug, PartialEq, Eq)]
pub struct l2cap_conninfo {
    /// HCI handle of the connection.
    pub hci_handle: u16,
    /// Device class.
    pub dev_class: [u8; 3],
}

/// Converting an address to the kernel's form and back gives it back.
pub proof fn law_bdaddr_roundtrip(addr: Address, k: bdaddr_t)
    requires
        k.b@ == spec_reversed(addr.0),
    ensures
        spec_reversed(k.b) == addr.0@,
{
    assert(spec_reversed(k.b) =~= addr.0@);
}

} // verus!
