//! Plain data of L2CAP sockets: addresses, security and flow control.
use vstd::prelude::*;
use crate::addr::Address;
use super::AddressType;
use super::sys::{
    bt_security, BT_SECURITY_FIPS, BT_SECURITY_HIGH, BT_SECURITY_LOW, BT_SECURITY_MEDIUM,
    BT_SECURITY_SDP,
};

verus! {

/// First protocol service multiplexor (PSM) that classic Bluetooth lets
/// unprivileged programs listen on.
pub const PSM_BR_EDR_DYN_START: u16 = 0x1001;

/// First PSM that Bluetooth Low Energy lets unprivileged programs listen on.
pub const PSM_LE_DYN_START: u16 = 0x80;

/// Highest PSM of Bluetooth Low Energy.
pub const PSM_LE_MAX: u16 = 0xff;

/// Address of an L2CAP socket.
#[derive(Clone, Copy, Debug, PartialEq, Eq, PartialOrd, Ord, Hash)]
pub struct SocketAddr {
    /// Device address; the wildcard address binds to any local adapter.
    pub addr: Address,
    pub addr_type: AddressType,
    /// Protocol service multiplexor; 0 when listening lets the kernel pick.
    pub psm: u16,
    /// Connection identifier, 0 in practice.
    pub cid: u16,
}

/// Whether `a` is the wildcard address.
pub open spec fn spec_is_any(a: Address) -> bool {
    a.0@ == seq![0u8, 0u8, 0u8, 0u8, 0u8, 0u8]
}

impl Default for SocketAddr {
    fn default() -> (r: Self)
        ensures
            spec_is_any(r.addr),
            r.addr_type == AddressType::LePublic,
            r.psm == 0,
            r.cid == 0,
    {
        SocketAddr { addr: Address::any(), addr_type: AddressType::default(), psm: 0, cid: 0 }
    }
}

impl SocketAddr {
    pub fn new(addr: Address, addr_type: AddressType, psm: u16) -> (r: Self)
        ensures
            r.addr == addr,
            r.addr_type == addr_type,
            r.psm == psm,
            r.cid == 0,
    {
        SocketAddr { addr, addr_type, psm, cid: 0 }
    }

    /// Binds to any local adapter over classic Bluetooth, with a PSM that
    /// the kernel picks.
    pub fn any_br_edr() -> (r: Self)
        ensures
            spec_is_any(r.addr),
            r.addr_type == AddressType::BrEdr,
            r.psm == 0,
            r.cid == 0,
    {
        SocketAddr { addr: Address::any(), addr_type: AddressType::BrEdr, psm: 0, cid: 0 }
    }

    /// Binds to any public local adapter address over Bluetooth Low
    /// Energy, with a PSM that the kernel picks.
    pub fn any_le() -> (r: Self)
        ensures
            spec_is_any(r.addr),
            r.addr_type == AddressType::LePublic,
            r.psm == 0,
            r.cid == 0,
    {
        SocketAddr { addr: Address::any(), addr_type: AddressType::LePublic, psm: 0, cid: 0 }
    }
}

/// The local address to bind before connecting to `addr`: any adapter,
/// over the same kind of Bluetooth as `addr`.
pub fn any_bind_addr(addr: &SocketAddr) -> (r: SocketAddr)
    ensures
        spec_is_any(r.addr),
        r.addr_type == (if addr.addr_type == AddressType::BrEdr {
            AddressType::BrEdr
        } else {
            AddressType::LePublic
        }),
        r.psm == 0,
        r.cid == 0,
{
    match addr.addr_type {
        AddressType::BrEdr => SocketAddr::any_br_edr(),
        AddressType::LePublic | AddressType::LeRandom => SocketAddr::any_le(),
    }
}

/// Security level of an L2CAP socket.
#[derive(Clone, Copy, Debug, PartialEq, Eq, Structural, PartialOrd, Ord, Hash)]
pub enum SecurityLevel {
    /// Insecure.
    Sdp,
    /// Authentication is requested.
    Low,
    Medium,
    High,
    Fips,
}

impl SecurityLevel {
    /// The kernel's value of the level.
    pub open spec fn spec_to_u8(self) -> u8 {
        match self {
            SecurityLevel::Sdp => BT_SECURITY_SDP,
            SecurityLevel::Low => BT_SECURITY_LOW,
            SecurityLevel::Medium => BT_SECURITY_MEDIUM,
            SecurityLevel::High => BT_SECURITY_HIGH,
            SecurityLevel::Fips => BT_SECURITY_FIPS,
        }
    }

    /// The level of a kernel value, if it names one.
    pub open spec fn spec_from_u8(v: u8) -> Option<Self> {
        if v == BT_SECURITY_SDP {
            Some(SecurityLevel::Sdp)
        } else if v == BT_SECURITY_LOW {
            Some(SecurityLevel::Low)
        } else if v == BT_SECURITY_MEDIUM {
            Some(SecurityLevel::Medium)
        } else if v == BT_SECURITY_HIGH {
            Some(SecurityLevel::High)
        } else if v == BT_SECURITY_FIPS {
            Some(SecurityLevel::Fips)
        } else {
            None
        }
    }

    pub fn to_u8(&self) -> (r: u8)
        ensures
            r == self.spec_to_u8(),
    {
        match self {
            SecurityLevel::Sdp => BT_SECURITY_SDP,
            SecurityLevel::Low => BT_SECURITY_LOW,
            SecurityLevel::Medium => BT_SECURITY_MEDIUM,
            SecurityLevel::High => BT_SECURITY_HIGH,
            SecurityLevel::Fips => BT_SECURITY_FIPS,
        }
    }

    pub fn from_u8(v: u8) -> (r: Option<Self>)
        ensures
            r == Self::spec_from_u8(v),
    {
        if v == BT_SECURITY_SDP {
            Some(SecurityLevel::Sdp)
        } else if v == BT_SECURITY_LOW {
            Some(SecurityLevel::Low)
        } else if v == BT_SECURITY_MEDIUM {
            Some(SecurityLevel::Medium)
        } else if v == BT_SECURITY_HIGH {
            Some(SecurityLevel::High)
        } else if v == BT_SECURITY_FIPS {
            Some(SecurityLevel::Fips)
        } else {
            None
        }
    }
}

/// Security of an L2CAP socket.
#[derive(Clone, Copy, Debug, PartialEq, Eq, Structural, PartialOrd, Ord, Hash)]
pub struct Security {
    pub level: SecurityLevel,
    pub key_size: u8,
}

impl From<Security> for bt_security {
    fn from(s: Security) -> (r: Self) {
        bt_security { level: s.level.to_u8(), key_size: s.key_size }
    }
}

impl vstd::std_specs::convert::FromSpecImpl<Security> for bt_security {
    open spec fn obeys_from_spec() -> bool {
        true
    }

    open spec fn from_spec(s: Security) -> Self {
        bt_security { level: s.level.spec_to_u8(), key_size: s.key_size }
    }
}

impl Security {
    /// The security of an option value read from the kernel; `None` when
    /// its level is unknown.
    pub fn from_sys(value: bt_security) -> (r: Option<Self>)
        ensures
            match SecurityLevel::spec_from_u8(value.level) {
                Some(level) => r == Some(Security { level, key_size: value.key_size }),
                None => r is None,
            },
    {
        match SecurityLevel::from_u8(value.level) {
            Some(level) => Some(Security { level, key_size: value.key_size }),
            None => None,
        }
    }

    /// Reading back the option value of a security gives the security:
    /// its level is known, and with the key size it makes `s` again.
    pub proof fn law_sys_roundtrip(s: Security)
        ensures
            SecurityLevel::spec_from_u8(s.level.spec_to_u8()) == Some(s.level),
            (Security {
                level: SecurityLevel::spec_from_u8(s.level.spec_to_u8())->0,
                key_size: s.key_size,
            }) == s,
    {
    }
}

/// Flow control mode of an L2CAP socket.
#[derive(Clone, Copy, Debug, PartialEq, Eq, Structural, PartialOrd, Ord, Hash)]
pub enum FlowControl {
    /// LE flow control.
    Le,
    /// Extended flow control.
    Extended,
}

impl FlowControl {
    /// The kernel's value of the mode.
    pub open spec fn spec_to_u8(self) -> u8 {
        match self {
            FlowControl::Le => 0x03,
            FlowControl::Extended => 0x04,
        }
    }

    pub fn to_u8(&self) -> (r: u8)
        ensures
            r == self.spec_to_u8(),
    {
        match self {
            FlowControl::Le => 0x03,
            FlowControl::Extended => 0x04,
        }
    }

    pub fn from_u8(v: u8) -> (r: Option<Self>)
        ensures
            v == 0x03 ==> r == Some(FlowControl::Le),
            v == 0x04 ==> r == Some(FlowControl::Extended),
            v != 0x03 && v != 0x04 ==> r is None,
    {
        if v == 0x03 {
            Some(FlowControl::Le)
        } else if v == 0x04 {
            Some(FlowControl::Extended)
        } else {
            None
        }
    }
}

} // verus!
