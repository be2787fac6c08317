//! Bluetooth short UUIDs: 16- and 32-bit values standing for UUIDs built
//! on the Bluetooth base UUID.
use vstd::prelude::*;
use uuid::Uuid;

verus! {

/// `uuid::Uuid`, carried opaquely.
#[verifier::external_type_specification]
#[verifier::external_body]
pub struct ExUuid(Uuid);

/// The 128-bit value of a UUID: its sixteen bytes, most significant first.
pub uninterp spec fn uuid_u128(id: Uuid) -> u128;

/// `Uuid::as_u128`: the UUID's bytes packed into a `u128`.
#[verifier::external_body]
fn uuid_as_u128(id: &Uuid) -> (r: u128)
    ensures
        r == uuid_u128(*id),
{
    id.as_u128()
}

/// `Uuid::from_u128`: the UUID whose bytes are those of `v`, most
/// significant first, so that `as_u128` gives `v` back.
#[verifier::external_body]
fn uuid_from_u128(v: u128) -> (r: Uuid)
    ensures
        uuid_u128(r) == v,
{
    Uuid::from_u128(v)
}

/// The Bluetooth base UUID, `00000000-0000-1000-8000-00805F9B34FB`.
pub const BASE_UUID: u128 = 0x00000000_0000_1000_8000_00805f9b34fb;

/// Bits that a 32-bit short UUID leaves as in the base UUID.
pub const BASE_MASK_32: u128 = 0x00000000_ffff_ffff_ffff_ffffffffffff;

/// Bits that a 16-bit short UUID leaves as in the base UUID.
pub const BASE_MASK_16: u128 = 0xffff0000_ffff_ffff_ffff_ffffffffffff;

/// The 32-bit short form of a UUID value: its top 32 bits, when the rest
/// is the base UUID's.
pub open spec fn spec_short_u32(value: u128) -> Option<u32> {
    if value & BASE_MASK_32 == BASE_UUID {
        Some((value >> 96u128) as u32)
    } else {
        None
    }
}

/// The 16-bit short form of a UUID value: bits 96 to 111, when the top 16
/// bits are zero and the rest is the base UUID's.
pub open spec fn spec_short_u16(value: u128) -> Option<u16> {
    if value & BASE_MASK_16 == BASE_UUID {
        Some((value >> 96u128) as u16)
    } else {
        None
    }
}

/// The UUID value of a 32-bit short form.
pub open spec fn spec_long_u32(v: u32) -> u128 {
    BASE_UUID | ((v as u128) << 96u128)
}

/// The UUID value of a 16-bit short form.
pub open spec fn spec_long_u16(v: u16) -> u128 {
    BASE_UUID | ((v as u128) << 96u128)
}

/// Conversion of UUIDs to and from Bluetooth short UUIDs.
pub trait UuidExt {
    /// 32-bit short form of a Bluetooth UUID.
    fn as_u32(&self) -> Option<u32>;

    /// 16-bit short form of a Bluetooth UUID.
    fn as_u16(&self) -> Option<u16>;

    /// Long form of a 32-bit short Bluetooth UUID.
    fn from_u32(v: u32) -> Uuid;

    /// Long form of a 16-bit short Bluetooth UUID.
    fn from_u16(v: u16) -> Uuid;
}

impl UuidExt for Uuid {
    fn as_u32(&self) -> (r: Option<u32>)
        ensures
            r == spec_short_u32(uuid_u128(*self)),
    {
        let value = uuid_as_u128(self);
        if value & BASE_MASK_32 == BASE_UUID {
            Some((value >> 96u128) as u32)
        } else {
            None
        }
    }

    fn as_u16(&self) -> (r: Option<u16>)
        ensures
            r == spec_short_u16(uuid_u128(*self)),
    {
        let value = uuid_as_u128(self);
        if value & BASE_MASK_16 == BASE_UUID {
            Some((value >> 96u128) as u16)
        } else {
            None
        }
    }

    fn from_u32(v: u32) -> (r: Uuid)
        ensures
            uuid_u128(r) == spec_long_u32(v),
    {
        uuid_from_u128(BASE_UUID | ((v as u128) << 96u128))
    }

    fn from_u16(v: u16) -> (r: Uuid)
        ensures
            uuid_u128(r) == spec_long_u16(v),
    {
        uuid_from_u128(BASE_UUID | ((v as u128) << 96u128))
    }
}

/// A 32-bit short form survives the trip through its long form.
pub proof fn law_short_u32_roundtrip(v: u32)
    ensures
        spec_short_u32(spec_long_u32(v)) == Some(v),
{
    let long = spec_long_u32(v);
    assert(long & BASE_MASK_32 == BASE_UUID && (long >> 96u128) as u32 == v) by (bit_vector)
        requires
            long == 0x00000000_0000_1000_8000_00805f9b34fbu128 | ((v as u128) << 96u128),
            BASE_MASK_32 == 0x00000000_ffff_ffff_ffff_ffffffffffffu128,
            BASE_UUID == 0x00000000_0000_1000_8000_00805f9b34fbu128,
    ;
}

/// A 16-bit short form survives the trip through its long form.
pub proof fn law_short_u16_roundtrip(v: u16)
    ensures
        spec_short_u16(spec_long_u16(v)) == Some(v),
{
    let long = spec_long_u16(v);
    assert(long & BASE_MASK_16 == BASE_UUID && (long >> 96u128) as u16 == v) by (bit_vector)
        requires
            long == 0x00000000_0000_1000_8000_00805f9b34fbu128 | ((v as u128) << 96u128),
            BASE_MASK_16 == 0xffff0000_ffff_ffff_ffff_ffffffffffffu128,
            BASE_UUID == 0x00000000_0000_1000_8000_00805f9b34fbu128,
    ;
}

/// A UUID with a 32-bit short form is the long form of it.
pub proof fn law_long_u32_of_short(value: u128)
    requires
        spec_short_u32(value) is Some,
    ensures
        spec_long_u32(spec_short_u32(value)->0) == value,
{
    let s = (value >> 96u128) as u32;
    assert(0x00000000_0000_1000_8000_00805f9b34fbu128 | ((s as u128) << 96u128) == value) by (bit_vector)
        requires
            value & 0x00000000_ffff_ffff_ffff_ffffffffffffu128 == 0x00000000_0000_1000_8000_00805f9b34fbu128,
            s == (value >> 96u128) as u32,
    ;
}

/// The 16-bit short forms are the 32-bit ones below 2^16: both name the
/// same UUIDs.
pub proof fn law_short_u16_is_u32(v: u16)
    ensures
        spec_long_u16(v) == spec_long_u32(v as u32),
        spec_short_u32(spec_long_u16(v)) == Some(v as u32),
{
    law_short_u32_roundtrip(v as u32);
}

} // verus!
