use vstd::prelude::*;

verus! {

/// Raw axis value that corresponds to one unit of gyro input.
pub const DEFAULT_SENSITIVITY: i32 = 3000;

/// The signed 16-bit value whose two's-complement bits are `raw`.
pub open spec fn spec_signed16(raw: u16) -> int {
    if raw >= 0x8000 {
        raw - 0x10000
    } else {
        raw as int
    }
}

/// Integer division rounded toward zero, as Rust's `/` on signed integers.
pub open spec fn spec_div_trunc(a: int, d: int) -> int
    recommends
        d > 0,
{
    if a >= 0 {
        a / d
    } else {
        -((-a) / d)
    }
}

/// Gyro reading for `units` of stick input: `units * 57.3 / 0.07` rounded
/// toward zero, i.e. `units * 5730 / 7`.
pub open spec fn spec_gyro(units: int) -> int {
    spec_div_trunc(units * 5730, 7)
}

/// The little-endian two's-complement bytes of a 16-bit signed value.
pub open spec fn spec_le16_lo(g: int) -> u8 {
    ((if g < 0 { g + 0x10000 } else { g }) % 256) as u8
}

pub open spec fn spec_le16_hi(g: int) -> u8 {
    ((if g < 0 { g + 0x10000 } else { g }) as nat / 256) as u8
}

/// The 36 bytes of six-axis data: three identical samples of twelve bytes,
/// each holding accelerometer x/y/z (zero) and gyro x (zero), y and z.
pub open spec fn spec_imu_buf(gyro_y: int, gyro_z: int) -> Seq<u8> {
    Seq::new(
        36,
        |i: int|
            if i % 12 == 8 {
                spec_le16_lo(gyro_y)
            } else if i % 12 == 9 {
                spec_le16_hi(gyro_y)
            } else if i % 12 == 10 {
                spec_le16_lo(gyro_z)
            } else if i % 12 == 11 {
                spec_le16_hi(gyro_z)
            } else {
                0u8
            },
    )
}

/// Six-axis sensor state; horizontal and vertical stick input drive the
/// gyro's z and y axes.
#[derive(Clone, Copy, Debug)]
pub struct ImuState {
    x: i32,
    y: i32,
}

impl ImuState {
    #[verifier::type_invariant]
    closed spec fn in_range(self) -> bool {
        -0x8000 <= self.x <= 0x7FFF && -0x8000 <= self.y <= 0x7FFF
    }

    pub closed spec fn spec_x(&self) -> int {
        self.x as int
    }

    pub closed spec fn spec_y(&self) -> int {
        self.y as int
    }

    pub fn new() -> (r: Self)
        ensures
            r.spec_x() == 0,
            r.spec_y() == 0,
    {
        ImuState { x: 0, y: 0 }
    }

    /// Sets the horizontal input from its two's-complement bits.
    pub fn set_horizontal(&mut self, x: u16)
        ensures
            final(self).spec_x() == spec_signed16(x),
            final(self).spec_y() == old(self).spec_y(),
    {
        proof {
            use_type_invariant(&*self);
        }
        self.x = signed16(x);
    }

    /// Sets the vertical input from its two's-complement bits.
    pub fn set_vertical(&mut self, y: u16)
        ensures
            final(self).spec_y() == spec_signed16(y),
            final(self).spec_x() == old(self).spec_x(),
    {
        proof {
            use_type_invariant(&*self);
        }
        self.y = signed16(y);
    }

    /// The six-axis report bytes: gyro y from the vertical input, gyro z from
    /// the negated horizontal input, each first divided by the sensitivity.
    pub fn to_buf(&self) -> (r: [u8; 36])
        ensures
            r@ == spec_imu_buf(
                spec_gyro(spec_div_trunc(self.spec_y(), DEFAULT_SENSITIVITY as int)),
                spec_gyro(-spec_div_trunc(self.spec_x(), DEFAULT_SENSITIVITY as int)),
            ),
    {
        proof {
            use_type_invariant(self);
        }
        let ky = div_trunc_sensitivity(self.y);
        let kz = div_trunc_sensitivity(self.x);
        let gyro_y = gyro(ky);
        let gyro_z = gyro(-kz);
        let (y_lo, y_hi) = le16_bytes(gyro_y);
        let (z_lo, z_hi) = le16_bytes(gyro_z);
        let mut buf = [0u8; 36];
        let mut round: usize = 0;
        while round < 3
            invariant
                round <= 3,
                buf@.len() == 36,
                forall|i: int|
                    0 <= i < 36 ==> #[trigger] buf@[i] == if i < 12 * round {
                        spec_imu_buf(gyro_y as int, gyro_z as int)[i]
                    } else {
                        0u8
                    },
                y_lo == spec_le16_lo(gyro_y as int),
                y_hi == spec_le16_hi(gyro_y as int),
                z_lo == spec_le16_lo(gyro_z as int),
                z_hi == spec_le16_hi(gyro_z as int),
            decreases 3 - round,
        {
            let base = 12 * round;
            buf[base + 8] = y_lo;
            buf[base + 9] = y_hi;
            buf[base + 10] = z_lo;
            buf[base + 11] = z_hi;
            round = round + 1;
        }
        assert(buf@ =~= spec_imu_buf(gyro_y as int, gyro_z as int));
        buf
    }
}

fn signed16(raw: u16) -> (r: i32)
    ensures
        r as int == spec_signed16(raw),
        -0x8000 <= r <= 0x7FFF,
{
    if raw & 0x8000 != 0 {
        assert(raw & 0x8000 != 0 ==> raw >= 0x8000) by (bit_vector);
        let flipped = raw ^ 0xFFFF;
        assert(raw >= 0x8000 ==> raw ^ 0xFFFF == 0xFFFF - raw) by (bit_vector);
        (flipped as i32) * -1 - 1
    } else {
        assert(raw & 0x8000 == 0 ==> raw < 0x8000) by (bit_vector);
        raw as i32
    }
}

fn div_trunc_sensitivity(a: i32) -> (r: i32)
    requires
        -0x8000 <= a <= 0x7FFF,
    ensures
        r as int == spec_div_trunc(a as int, DEFAULT_SENSITIVITY as int),
        -11 <= r <= 11,
{
    if a >= 0 {
        a / DEFAULT_SENSITIVITY
    } else {
        -((-a) / DEFAULT_SENSITIVITY)
    }
}

fn gyro(k: i32) -> (r: i32)
    requires
        -11 <= k <= 11,
    ensures
        r as int == spec_gyro(k as int),
        -0x8000 <= r <= 0x7FFF,
{
    if k >= 0 {
        (k * 5730) / 7
    } else {
        -(((-k) * 5730) / 7)
    }
}

fn le16_bytes(g: i32) -> (r: (u8, u8))
    requires
        -0x8000 <= g <= 0x7FFF,
    ensures
        r.0 == spec_le16_lo(g as int),
        r.1 == spec_le16_hi(g as int),
{
    let u: u32 = if g < 0 { (g + 0x10000) as u32 } else { g as u32 };
    ((u % 256) as u8, (u / 256) as u8)
}

/// The gyro reading of `units` is `units * 5730 / 7` rounded toward zero:
/// for non-negative units the largest value whose seven-fold does not
/// pass `units * 5730`, and negating the input negates the reading.
pub proof fn law_gyro_rounds_toward_zero(units: int)
    ensures
        units >= 0 ==> 0 <= units * 5730 - 7 * spec_gyro(units) < 7,
        spec_gyro(-units) == -spec_gyro(units),
{
    let p = units * 5730;
    assert(-units * 5730 == -p) by (nonlinear_arith)
        requires
            p == units * 5730,
    ;
    if units >= 0 {
        assert(0 <= p - 7 * (p / 7) < 7) by (nonlinear_arith)
            requires
                p >= 0,
        ;
    }
}

/// Six-axis bytes hold three identical twelve-byte samples; in each, the
/// accelerometer and gyro x bytes (0..8) are zero, and bytes 8..10 and
/// 10..12 read back, as little-endian signed 16-bit values, as gyro y and
/// gyro z.
pub proof fn law_imu_bytes(gyro_y: int, gyro_z: int)
    requires
        -0x8000 <= gyro_y < 0x8000,
        -0x8000 <= gyro_z < 0x8000,
    ensures
        ({
            let b = spec_imu_buf(gyro_y, gyro_z);
            &&& b.len() == 36
            &&& b.subrange(0, 12) == b.subrange(12, 24) && b.subrange(12, 24) == b.subrange(24, 36)
            &&& forall|k: int| 0 <= k < 8 ==> #[trigger] b[k] == 0u8
            &&& spec_signed16((b[8] + 256 * b[9]) as u16) == gyro_y
            &&& spec_signed16((b[10] + 256 * b[11]) as u16) == gyro_z
        }),
{
    let b = spec_imu_buf(gyro_y, gyro_z);
    assert(b.subrange(0, 12) =~= b.subrange(12, 24));
    assert(b.subrange(12, 24) =~= b.subrange(24, 36));
    let uy: int = if gyro_y < 0 { gyro_y + 0x10000 } else { gyro_y };
    let uz: int = if gyro_z < 0 { gyro_z + 0x10000 } else { gyro_z };
    assert(uy % 256 + 256 * (uy / 256) == uy);
    assert(uz % 256 + 256 * (uz / 256) == uz);
}

} // verus!
