//! Plain data of Bluetooth sockets.
pub mod hci;
pub mod l2cap;
pub mod sys;

use vstd::prelude::*;

verus! {

/// Type of a Bluetooth device address.
#[derive(Clone, Copy, Debug, PartialEq, Eq, Structural, PartialOrd, Ord, Hash)]
pub enum AddressType {
    /// Classic Bluetooth (BR/EDR).
    BrEdr,
    /// Bluetooth Low Energy, public address.
    LePublic,
    /// Bluetooth Low Energy, random address.
    LeRandom,
}

impl Default for AddressType {
    fn default() -> (r: Self)
        ensures
            r == AddressType::LePublic,
    {
        AddressType::LePublic
    }
}

impl AddressType {
    /// The value that the kernel uses for the type.
    pub open spec fn spec_to_u8(self) -> u8 {
        match self {
            AddressType::BrEdr => sys::BDADDR_BREDR,
            AddressType::LePublic => sys::BDADDR_LE_PUBLIC,
            AddressType::LeRandom => sys::BDADDR_LE_RANDOM,
        }
    }

    /// The type of a kernel value, if it names one.
    pub open spec fn spec_from_u8(v: u8) -> Option<Self> {
        if v == sys::BDADDR_BREDR {
            Some(AddressType::BrEdr)
        } else if v == sys::BDADDR_LE_PUBLIC {
            Some(AddressType::LePublic)
        } else if v == sys::BDADDR_LE_RANDOM {
            Some(AddressType::LeRandom)
        } else {
            None
        }
    }

    pub fn to_u8(&self) -> (r: u8)
        ensures
            r == self.spec_to_u8(),
    {
        match self {
            AddressType::BrEdr => sys::BDADDR_BREDR,
            AddressType::LePublic => sys::BDADDR_LE_PUBLIC,
            AddressType::LeRandom => sys::BDADDR_LE_RANDOM,
        }
    }

    pub fn from_u8(v: u8) -> (r: Option<Self>)
        ensures
            r == Self::spec_from_u8(v),
    {
        if v == sys::BDADDR_BREDR {
            Some(AddressType::BrEdr)
        } else if v == sys::BDADDR_LE_PUBLIC {
            Some(AddressType::LePublic)
        } else if v == sys::BDADDR_LE_RANDOM {
            Some(AddressType::LeRandom)
        } else {
            None
        }
    }

    /// Reading back the value of a type gives the type.
    pub proof fn law_u8_roundtrip(t: AddressType)
        ensures
            Self::spec_from_u8(t.spec_to_u8()) == Some(t),
    {
    }
}

} // verus!
