use vstd::prelude::*;
use crate::controller::state::StateError;

verus! {

/// Largest value (exclusive) of a 12-bit stick axis.
pub const AXIS_LIMIT: u16 = 0x1000;

/// Settings for a new [`StickState`].
#[derive(Debug)]
pub struct StickStateConfig {
    pub horizontal: Option<u16>,
    pub vertical: Option<u16>,
    pub calibration: Option<StickCalibration>,
}

impl Default for StickStateConfig {
    fn default() -> (r: Self)
        ensures
            r.horizontal is None,
            r.vertical is None,
            r.calibration is None,
    {
        StickStateConfig { horizontal: None, vertical: None, calibration: None }
    }
}

/// Calibration of one analog stick, in raw 12-bit axis units.
#[derive(Clone, Copy, Debug, PartialEq, Eq, Structural)]
pub struct StickCalibration {
    pub h_center: u16,
    pub v_center: u16,
    pub h_max_above_center: u16,
    pub v_max_above_center: u16,
    pub h_max_below_center: u16,
    pub v_max_below_center: u16,
}

/// Low 12-bit value packed as `lo` plus the low nibble of `hi` above it.
pub open spec fn spec_low12(lo: u8, hi: u8) -> u16 {
    ((hi % 16) as u16 * 256 + lo as u16) as u16
}

/// High 12-bit value packed as the high nibble of `lo` plus `hi` above it.
pub open spec fn spec_high12(lo: u8, hi: u8) -> u16 {
    (hi as u16 * 16 + lo as u16 / 16) as u16
}

fn low12(lo: u16, hi: u16) -> (r: u16)
    requires
        lo < 256,
        hi < 256,
    ensures
        r == spec_low12(lo as u8, hi as u8),
{
    let r = ((hi << 8) & 0xF00) | lo;
    assert(lo < 256 && hi < 256 ==> ((hi << 8) & 0xF00) | lo == (hi % 16) * 256 + lo)
        by (bit_vector);
    r
}

fn high12(lo: u16, hi: u16) -> (r: u16)
    requires
        lo < 256,
        hi < 256,
    ensures
        r == spec_high12(lo as u8, hi as u8),
{
    let r = (hi << 4) | (lo >> 4);
    assert(lo < 256 && hi < 256 ==> (hi << 4) | (lo >> 4) == hi * 16 + lo / 16)
        by (bit_vector);
    r
}

/// Widens each byte to `u16`.
pub fn to_u16_bytes(bytes: &[u8]) -> (r: Vec<u16>)
    ensures
        r@.len() == bytes@.len(),
        forall|i: int| 0 <= i < bytes@.len() ==> r@[i] == bytes@[i] as u16,
{
    let mut out: Vec<u16> = Vec::new();
    let mut i: usize = 0;
    while i < bytes.len()
        invariant
            i <= bytes@.len(),
            out@.len() == i,
            forall|j: int| 0 <= j < i ==> out@[j] == bytes@[j] as u16,
        decreases bytes@.len() - i,
    {
        out.push(bytes[i] as u16);
        i = i + 1;
    }
    out
}

impl StickCalibration {
    pub fn new(
        h_center: u16,
        v_center: u16,
        h_max_above_center: u16,
        v_max_above_center: u16,
        h_max_below_center: u16,
        v_max_below_center: u16,
    ) -> (r: Self)
        ensures
            r == (StickCalibration {
                h_center,
                v_center,
                h_max_above_center,
                v_max_above_center,
                h_max_below_center,
                v_max_below_center,
            }),
    {
        StickCalibration {
            h_center,
            v_center,
            h_max_above_center,
            v_max_above_center,
            h_max_below_center,
            v_max_below_center,
        }
    }

    /// Left-stick layout of the nine calibration bytes: maxima above center,
    /// then center, then maxima below center; each pair packs 12-bit values.
    pub open spec fn spec_left(b: Seq<u8>) -> StickCalibration {
        StickCalibration {
            h_max_above_center: spec_low12(b[0], b[1]),
            v_max_above_center: spec_high12(b[1], b[2]),
            h_center: spec_low12(b[3], b[4]),
            v_center: spec_high12(b[4], b[5]),
            h_max_below_center: spec_low12(b[6], b[7]),
            v_max_below_center: spec_high12(b[7], b[8]),
        }
    }

    /// Right-stick layout of the nine calibration bytes: center, then maxima
    /// below center, then maxima above center.
    pub open spec fn spec_right(b: Seq<u8>) -> StickCalibration {
        StickCalibration {
            h_center: spec_low12(b[0], b[1]),
            v_center: spec_high12(b[1], b[2]),
            h_max_below_center: spec_low12(b[3], b[4]),
            v_max_below_center: spec_high12(b[4], b[5]),
            h_max_above_center: spec_low12(b[6], b[7]),
            v_max_above_center: spec_high12(b[7], b[8]),
        }
    }

    pub fn with_left_stick_bytes(bytes: &[u8]) -> (r: Option<Self>)
        ensures
            bytes@.len() < 9 ==> r is None,
            bytes@.len() >= 9 ==> r == Some(Self::spec_left(bytes@)),
    {
        let b = to_u16_bytes(bytes);
        if b.len() < 9 {
            return None;
        }
        let h_max_above_center = low12(b[0], b[1]);
        let v_max_above_center = high12(b[1], b[2]);
        let h_center = low12(b[3], b[4]);
        let v_center = high12(b[4], b[5]);
        let h_max_below_center = low12(b[6], b[7]);
        let v_max_below_center = high12(b[7], b[8]);
        Some(StickCalibration::new(
            h_center,
            v_center,
            h_max_above_center,
            v_max_above_center,
            h_max_below_center,
            v_max_below_center,
        ))
    }

    pub fn with_right_stick_bytes(bytes: &[u8]) -> (r: Option<Self>)
        ensures
            bytes@.len() < 9 ==> r is None,
            bytes@.len() >= 9 ==> r == Some(Self::spec_right(bytes@)),
    {
        let b = to_u16_bytes(bytes);
        if b.len() < 9 {
            return None;
        }
        let h_center = low12(b[0], b[1]);
        let v_center = high12(b[1], b[2]);
        let h_max_below_center = low12(b[3], b[4]);
        let v_max_below_center = high12(b[4], b[5]);
        let h_max_above_center = low12(b[6], b[7]);
        let v_max_above_center = high12(b[7], b[8]);
        Some(StickCalibration::new(
            h_center,
            v_center,
            h_max_above_center,
            v_max_above_center,
            h_max_below_center,
            v_max_below_center,
        ))
    }
}

/// Position of one analog stick, with its optional calibration.
#[derive(Clone, Copy, Debug)]
pub struct StickState {
    h_stick: u16,
    v_stick: u16,
    stick_cal: Option<StickCalibration>,
}

/// The three report bytes of a stick position: 12-bit horizontal then 12-bit vertical.
pub open spec fn spec_stick_bytes(h: u16, v: u16) -> Seq<u8> {
    seq![(h % 256) as u8, ((h / 256) as u8) | (((v % 16) * 16) as u8), (v / 16) as u8]
}

/// Whether `r` around the center stays within `u16` on both axes, in the
/// order in which [`StickState::is_center`] evaluates the bounds.
pub open spec fn spec_center_bounds_fit(c: StickCalibration, h: u16, v: u16, r: u16) -> bool {
    &&& r <= c.h_center
    &&& c.h_center - r <= h ==> {
        &&& c.h_center + r <= u16::MAX
        &&& h <= c.h_center + r ==> {
            &&& r <= c.v_center
            &&& c.v_center - r <= v ==> c.v_center + r <= u16::MAX
        }
    }
}

impl Default for StickState {
    fn default() -> (r: Self)
        ensures
            r.spec_horizontal() == 0,
            r.spec_vertical() == 0,
            r.spec_calibration() is None,
    {
        StickState { h_stick: 0, v_stick: 0, stick_cal: None }
    }
}

impl StickState {
    pub closed spec fn spec_horizontal(&self) -> u16 {
        self.h_stick
    }

    pub closed spec fn spec_vertical(&self) -> u16 {
        self.v_stick
    }

    pub closed spec fn spec_calibration(&self) -> Option<StickCalibration> {
        self.stick_cal
    }

    pub fn new() -> (r: Self)
        ensures
            r.spec_horizontal() == 0,
            r.spec_vertical() == 0,
            r.spec_calibration() is None,
    {
        StickState { h_stick: 0, v_stick: 0, stick_cal: None }
    }

    pub fn with_config(config: StickStateConfig) -> (r: Result<Self, StateError>)
        ensures
            r is Err <==> (config.horizontal matches Some(h) && h >= AXIS_LIMIT)
                || (config.vertical matches Some(v) && v >= AXIS_LIMIT),
            r is Err ==> r == Err::<Self, StateError>(StateError::InvalidRange),
            r matches Ok(s) ==> {
                &&& s.spec_horizontal() == (match config.horizontal { Some(h) => h, None => 0u16 })
                &&& s.spec_vertical() == (match config.vertical { Some(v) => v, None => 0u16 })
                &&& s.spec_calibration() == config.calibration
            },
    {
        let horizontal = match config.horizontal {
            Some(horizontal) => {
                if horizontal >= AXIS_LIMIT {
                    return Err(StateError::InvalidRange);
                } else {
                    horizontal
                }
            },
            None => 0,
        };
        let vertical = match config.vertical {
            Some(vertical) => {
                if vertical >= AXIS_LIMIT {
                    return Err(StateError::InvalidRange);
                } else {
                    vertical
                }
            },
            None => 0,
        };
        Ok(StickState { h_stick: horizontal, v_stick: vertical, stick_cal: config.calibration })
    }

    /// Reads a position from its three report bytes.
    pub fn with_raw(bytes: [u8; 3], calibration: Option<StickCalibration>) -> (r: Result<
        Self,
        StateError,
    >)
        ensures
            r matches Ok(s) && s.spec_horizontal() == spec_low12(bytes[0], bytes[1])
                && s.spec_vertical() == spec_high12(bytes[1], bytes[2])
                && s.spec_calibration() == calibration,
    {
        let stick_h = low12(bytes[0] as u16, bytes[1] as u16);
        let stick_v = high12(bytes[1] as u16, bytes[2] as u16);
        Self::with_config(
            StickStateConfig { horizontal: Some(stick_h), vertical: Some(stick_v), calibration },
        )
    }

    pub fn horizontal(&self) -> (r: u16)
        ensures
            r == self.spec_horizontal(),
    {
        self.h_stick
    }

    pub fn set_horizontal(&mut self, horizontal: u16) -> (r: Result<(), StateError>)
        ensures
            horizontal >= AXIS_LIMIT ==> r == Err::<(), StateError>(StateError::InvalidRange)
                && *final(self) == *old(self),
            horizontal < AXIS_LIMIT ==> r is Ok && final(self).spec_horizontal() == horizontal
                && final(self).spec_vertical() == old(self).spec_vertical()
                && final(self).spec_calibration() == old(self).spec_calibration(),
    {
        if horizontal >= AXIS_LIMIT {
            return Err(StateError::InvalidRange);
        }
        self.h_stick = horizontal;
        Ok(())
    }

    pub fn vertical(&self) -> (r: u16)
        ensures
            r == self.spec_vertical(),
    {
        self.v_stick
    }

    pub fn set_vertical(&mut self, vertical: u16) -> (r: Result<(), StateError>)
        ensures
            vertical >= AXIS_LIMIT ==> r == Err::<(), StateError>(StateError::InvalidRange)
                && *final(self) == *old(self),
            vertical < AXIS_LIMIT ==> r is Ok && final(self).spec_vertical() == vertical
                && final(self).spec_horizontal() == old(self).spec_horizontal()
                && final(self).spec_calibration() == old(self).spec_calibration(),
    {
        if vertical >= AXIS_LIMIT {
            return Err(StateError::InvalidRange);
        }
        self.v_stick = vertical;
        Ok(())
    }

    /// Moves the horizontal axis `step` units off center: above center when
    /// `above` holds, else below; the step is taken from the calibration by
    /// the caller.
    pub fn offset_horizontal(&mut self, above: bool, step: u16) -> (r: Result<(), StateError>)
        requires
            old(self).spec_calibration() matches Some(c) ==> (if above {
                c.h_center + step <= u16::MAX
            } else {
                step <= c.h_center
            }),
        ensures
            old(self).spec_calibration() is None ==> r == Err::<(), StateError>(
                StateError::NoCalibrationDataAvailable,
            ) && *final(self) == *old(self),
            old(self).spec_calibration() matches Some(c) ==> r is Ok
                && final(self).spec_horizontal() == (if above {
                    c.h_center + step
                } else {
                    c.h_center - step
                })
                && final(self).spec_vertical() == old(self).spec_vertical()
                && final(self).spec_calibration() == old(self).spec_calibration(),
    {
        let Some(cal) = self.stick_cal else {
            return Err(StateError::NoCalibrationDataAvailable);
        };
        self.h_stick = if above { cal.h_center + step } else { cal.h_center - step };
        Ok(())
    }

    /// Moves the vertical axis `step` units off center: above center when
    /// `above` holds, else below.
    pub fn offset_vertical(&mut self, above: bool, step: u16) -> (r: Result<(), StateError>)
        requires
            old(self).spec_calibration() matches Some(c) ==> (if above {
                c.v_center + step <= u16::MAX
            } else {
                step <= c.v_center
            }),
        ensures
            old(self).spec_calibration() is None ==> r == Err::<(), StateError>(
                StateError::NoCalibrationDataAvailable,
            ) && *final(self) == *old(self),
            old(self).spec_calibration() matches Some(c) ==> r is Ok
                && final(self).spec_vertical() == (if above {
                    c.v_center + step
                } else {
                    c.v_center - step
                })
                && final(self).spec_horizontal() == old(self).spec_horizontal()
                && final(self).spec_calibration() == old(self).spec_calibration(),
    {
        let Some(cal) = self.stick_cal else {
            return Err(StateError::NoCalibrationDataAvailable);
        };
        self.v_stick = if above { cal.v_center + step } else { cal.v_center - step };
        Ok(())
    }

    /// Whether the stick lies within `radius` (default 0) of the calibrated center.
    pub fn is_center(&self, radius: Option<u16>) -> (r: Result<bool, StateError>)
        requires
            self.spec_calibration() matches Some(c) ==> spec_center_bounds_fit(
                c,
                self.spec_horizontal(),
                self.spec_vertical(),
                match radius { Some(x) => x, None => 0u16 },
            ),
        ensures
            self.spec_calibration() is None ==> r == Err::<bool, StateError>(
                StateError::NoCalibrationDataAvailable,
            ),
            self.spec_calibration() matches Some(c) ==> ({
                let rad = match radius { Some(x) => x as int, None => 0int };
                let h = self.spec_horizontal() as int;
                let v = self.spec_vertical() as int;
                r == Ok::<bool, StateError>(
                    c.h_center - rad <= h && h <= c.h_center + rad && c.v_center - rad <= v && v
                        <= c.v_center + rad,
                )
            }),
    {
        let Some(cal) = self.stick_cal else {
            return Err(StateError::NoCalibrationDataAvailable);
        };
        let radius = match radius {
            Some(x) => x,
            None => 0,
        };
        Ok((cal.h_center - radius <= self.h_stick) && (self.h_stick <= cal.h_center + radius) && (
        cal.v_center - radius <= self.v_stick) && (self.v_stick <= cal.v_center + radius))
    }

    pub fn reset_to_center(&mut self) -> (r: Result<(), StateError>)
        ensures
            old(self).spec_calibration() is None ==> r == Err::<(), StateError>(
                StateError::NoCalibrationDataAvailable,
            ) && *final(self) == *old(self),
            old(self).spec_calibration() matches Some(c) ==> r is Ok
                && final(self).spec_horizontal() == c.h_center
                && final(self).spec_vertical() == c.v_center
                && final(self).spec_calibration() == old(self).spec_calibration(),
    {
        let Some(cal) = self.stick_cal else {
            return Err(StateError::NoCalibrationDataAvailable);
        };
        self.h_stick = cal.h_center;
        self.v_stick = cal.v_center;
        Ok(())
    }

    pub fn set_up(&mut self) -> (r: Result<(), StateError>)
        requires
            old(self).spec_calibration() matches Some(c) ==> c.v_center + c.v_max_above_center
                <= u16::MAX,
        ensures
            old(self).spec_calibration() is None ==> r == Err::<(), StateError>(
                StateError::NoCalibrationDataAvailable,
            ) && *final(self) == *old(self),
            old(self).spec_calibration() matches Some(c) ==> r is Ok
                && final(self).spec_horizontal() == c.h_center
                && final(self).spec_vertical() == c.v_center + c.v_max_above_center
                && final(self).spec_calibration() == old(self).spec_calibration(),
    {
        let Some(cal) = self.stick_cal else {
            return Err(StateError::NoCalibrationDataAvailable);
        };
        self.h_stick = cal.h_center;
        self.v_stick = cal.v_center + cal.v_max_above_center;
        Ok(())
    }

    pub fn set_down(&mut self) -> (r: Result<(), StateError>)
        requires
            old(self).spec_calibration() matches Some(c) ==> c.v_max_below_center <= c.v_center,
        ensures
            old(self).spec_calibration() is None ==> r == Err::<(), StateError>(
                StateError::NoCalibrationDataAvailable,
            ) && *final(self) == *old(self),
            old(self).spec_calibration() matches Some(c) ==> r is Ok
                && final(self).spec_horizontal() == c.h_center
                && final(self).spec_vertical() == c.v_center - c.v_max_below_center
                && final(self).spec_calibration() == old(self).spec_calibration(),
    {
        let Some(cal) = self.stick_cal else {
            return Err(StateError::NoCalibrationDataAvailable);
        };
        self.h_stick = cal.h_center;
        self.v_stick = cal.v_center - cal.v_max_below_center;
        Ok(())
    }

    pub fn set_right(&mut self) -> (r: Result<(), StateError>)
        requires
            old(self).spec_calibration() matches Some(c) ==> c.h_center + c.h_max_above_center
                <= u16::MAX,
        ensures
            old(self).spec_calibration() is None ==> r == Err::<(), StateError>(
                StateError::NoCalibrationDataAvailable,
            ) && *final(self) == *old(self),
            old(self).spec_calibration() matches Some(c) ==> r is Ok
                && final(self).spec_horizontal() == c.h_center + c.h_max_above_center
                && final(self).spec_vertical() == c.v_center
                && final(self).spec_calibration() == old(self).spec_calibration(),
    {
        let Some(cal) = self.stick_cal else {
            return Err(StateError::NoCalibrationDataAvailable);
        };
        self.h_stick = cal.h_center + cal.h_max_above_center;
        self.v_stick = cal.v_center;
        Ok(())
    }

    pub fn set_left(&mut self) -> (r: Result<(), StateError>)
        requires
            old(self).spec_calibration() matches Some(c) ==> c.h_max_below_center <= c.h_center,
        ensures
            old(self).spec_calibration() is None ==> r == Err::<(), StateError>(
                StateError::NoCalibrationDataAvailable,
            ) && *final(self) == *old(self),
            old(self).spec_calibration() matches Some(c) ==> r is Ok
                && final(self).spec_horizontal() == c.h_center - c.h_max_below_center
                && final(self).spec_vertical() == c.v_center
                && final(self).spec_calibration() == old(self).spec_calibration(),
    {
        let Some(cal) = self.stick_cal else {
            return Err(StateError::NoCalibrationDataAvailable);
        };
        self.h_stick = cal.h_center - cal.h_max_below_center;
        self.v_stick = cal.v_center;
        Ok(())
    }

    pub fn calibration(&self) -> (r: Result<&StickCalibration, StateError>)
        ensures
            self.spec_calibration() is None ==> r == Err::<&StickCalibration, StateError>(
                StateError::NoCalibrationDataAvailable,
            ),
            self.spec_calibration() matches Some(c) ==> r matches Ok(x) && *x == c,
    {
        match &self.stick_cal {
            Some(cal) => Ok(cal),
            None => Err(StateError::NoCalibrationDataAvailable),
        }
    }

    pub fn set_calibration(&mut self, calibration: StickCalibration) -> (r: Result<(), StateError>)
        ensures
            r is Ok,
            final(self).spec_calibration() == Some(calibration),
            final(self).spec_horizontal() == old(self).spec_horizontal(),
            final(self).spec_vertical() == old(self).spec_vertical(),
    {
        self.stick_cal = Some(calibration);
        Ok(())
    }

    /// The three report bytes of the position.
    pub fn to_buf(&self) -> (r: [u8; 3])
        ensures
            r@ == spec_stick_bytes(self.spec_horizontal(), self.spec_vertical()),
    {
        let h = self.h_stick;
        let v = self.v_stick;
        let byte_1 = (h & 0xFF) as u8;
        let byte_2 = ((h >> 8) as u8) | (((v & 0xF) as u8) << 4);
        let byte_3 = (v >> 4) as u8;
        assert((h & 0xFF) as u8 == (h % 256) as u8) by (bit_vector);
        assert(((h >> 8) as u8) | (((v & 0xF) as u8) << 4) == ((h / 256) as u8) | (((v % 16) * 16)
            as u8)) by (bit_vector);
        assert((v >> 4) as u8 == (v / 16) as u8) by (bit_vector);
        let r = [byte_1, byte_2, byte_3];
        assert(r@ =~= spec_stick_bytes(h, v));
        r
    }
}

/// Bytes holding a low and a high nibble: `a | c * 16` with both below 16.
proof fn lemma_nibbles(a: u8, c: u8)
    requires
        a < 16,
        c < 16,
    ensures
        (a | ((c * 16) as u8)) % 16 == a,
        (a | ((c * 16) as u8)) / 16 == c,
{
    assert((a | ((c * 16) as u8)) % 16 == a && (a | ((c * 16) as u8)) / 16 == c) by (bit_vector)
        requires
            a < 16u8,
            c < 16u8,
    ;
}

/// A byte is its low nibble and its high nibble.
proof fn lemma_split_nibbles(b: u8)
    ensures
        ((b % 16) as u8) | (((b / 16) * 16) as u8) == b,
{
    assert(((b % 16) as u8) | (((b / 16) * 16) as u8) == b) by (bit_vector);
}

/// The report bytes of a position within the axis range read back as
/// that position.
pub proof fn law_stick_bytes_read_back(h: u16, v: u16)
    requires
        h < AXIS_LIMIT,
        v < AXIS_LIMIT,
    ensures
        ({
            let b = spec_stick_bytes(h, v);
            spec_low12(b[0], b[1]) == h && spec_high12(b[1], b[2]) == v
        }),
{
    let a = (h / 256) as u8;
    let c = (v % 16) as u8;
    lemma_nibbles(a, c);
    let b = spec_stick_bytes(h, v);
    assert(b[1] == (a | ((c * 16) as u8)));
}

/// Any three report bytes are the bytes of the position they read as.
pub proof fn law_stick_position_written_back(b0: u8, b1: u8, b2: u8)
    ensures
        spec_stick_bytes(spec_low12(b0, b1), spec_high12(b1, b2)) == seq![b0, b1, b2],
{
    let h = spec_low12(b0, b1);
    let v = spec_high12(b1, b2);
    assert(h / 256 == b1 % 16);
    assert(v % 16 == b1 / 16);
    lemma_split_nibbles(b1);
    assert(spec_stick_bytes(h, v) =~= seq![b0, b1, b2]);
}

/// How nine calibration bytes read: each three bytes pack one pair of
/// 12-bit values as a stick position does. The right layout holds center,
/// maxima below center, maxima above center; the left layout is the right
/// one rotated, holding maxima above center, center, maxima below center.
pub proof fn law_calibration_layouts(b: Seq<u8>)
    requires
        b.len() == 9,
    ensures
        ({
            let r = StickCalibration::spec_right(b);
            &&& spec_stick_bytes(r.h_center, r.v_center) == b.subrange(0, 3)
            &&& spec_stick_bytes(r.h_max_below_center, r.v_max_below_center) == b.subrange(3, 6)
            &&& spec_stick_bytes(r.h_max_above_center, r.v_max_above_center) == b.subrange(6, 9)
        }),
        ({
            let l = StickCalibration::spec_left(b);
            &&& spec_stick_bytes(l.h_max_above_center, l.v_max_above_center) == b.subrange(0, 3)
            &&& spec_stick_bytes(l.h_center, l.v_center) == b.subrange(3, 6)
            &&& spec_stick_bytes(l.h_max_below_center, l.v_max_below_center) == b.subrange(6, 9)
        }),
        StickCalibration::spec_left(b) == StickCalibration::spec_right(b.subrange(3, 9) + b.subrange(0, 3)),
{
    law_stick_position_written_back(b[0], b[1], b[2]);
    law_stick_position_written_back(b[3], b[4], b[5]);
    law_stick_position_written_back(b[6], b[7], b[8]);
    assert(b.subrange(0, 3) =~= seq![b[0], b[1], b[2]]);
    assert(b.subrange(3, 6) =~= seq![b[3], b[4], b[5]]);
    assert(b.subrange(6, 9) =~= seq![b[6], b[7], b[8]]);
    let rot = b.subrange(3, 9) + b.subrange(0, 3);
    assert(rot[0] == b[3] && rot[1] == b[4] && rot[2] == b[5] && rot[3] == b[6] && rot[4] == b[7]
        && rot[5] == b[8] && rot[6] == b[0] && rot[7] == b[1] && rot[8] == b[2]);
}

} // verus!
