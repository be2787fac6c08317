use vstd::prelude::*;
use crate::controller::state::stick::StickCalibration;

verus! {

/// Calibration of the left stick, read from the nine calibration bytes.
pub struct LeftStickCalibration {
    stick_calibration: StickCalibration,
}

impl LeftStickCalibration {
    pub closed spec fn spec_calibration(&self) -> StickCalibration {
        self.stick_calibration
    }

    /// Reads the left-stick layout; the first nine bytes must be present.
    pub fn from_bytes(bytes: &[u8]) -> (r: Self)
        requires
            bytes@.len() >= 9,
        ensures
            r.spec_calibration() == StickCalibration::spec_left(bytes@),
    {
        match StickCalibration::with_left_stick_bytes(bytes) {
            Some(c) => LeftStickCalibration { stick_calibration: c },
            None => vstd::pervasive::unreached(),
        }
    }

    pub fn stick_calibration(&self) -> (r: StickCalibration)
        ensures
            r == self.spec_calibration(),
    {
        self.stick_calibration
    }
}

} // verus!
