use vstd::prelude::*;
use crate::controller::ControllerType;
use crate::controller::spi_flash::{SpiFlash, spec_with_factory_calibration, spec_l_stick_factory, spec_r_stick_factory, law_factory_calibration_reads_back, law_fresh_memory_has_no_user_calibration, spec_user_calibration, L_STICK_USER_OFFSET, R_STICK_USER_OFFSET, L_STICK_FACTORY_OFFSET, R_STICK_FACTORY_OFFSET, SPI_FLASH_SIZE};
use button::ButtonState;
use imu::ImuState;
use stick::{StickCalibration, StickState, StickStateConfig};

pub mod button;
pub mod imu;
pub mod stick;

verus! {

/// Errors raised by controller state updates.
#[derive(Clone, Copy, Debug, PartialEq, Eq, Structural)]
pub enum StateError {
    /// Invalid value range has been entered.
    InvalidRange,
    /// Invalid scale has been entered.
    InvalidScale,
    /// There is no calibration data available.
    NoCalibrationDataAvailable,
    /// The button is not available for the controller of choice.
    ButtonNotAvailable,
}

/// Settings for a new [`ControllerState`].
#[derive(Debug)]
pub struct ControllerStateConfig {
    pub controller: ControllerType,
    pub spi_flash: Option<SpiFlash>,
}

impl Default for ControllerStateConfig {
    fn default() -> (r: Self)
        ensures
            r.controller == ControllerType::ProController,
            r.spi_flash is None,
    {
        ControllerStateConfig { controller: ControllerType::ProController, spi_flash: None }
    }
}

/// The nine calibration bytes in use for a stick: the user calibration at
/// `user_marker` where present, else the factory one at `factory_offset`.
pub open spec fn spec_active_calibration(
    data: Seq<u8>,
    user_marker: int,
    factory_offset: int,
) -> Seq<u8> {
    match spec_user_calibration(data, user_marker) {
        Some(s) => s,
        None => data.subrange(factory_offset, factory_offset + 9),
    }
}

/// Calibration of the left stick that a flash memory holds.
pub open spec fn spec_l_calibration(data: Seq<u8>) -> StickCalibration {
    StickCalibration::spec_left(
        spec_active_calibration(data, L_STICK_USER_OFFSET as int, L_STICK_FACTORY_OFFSET as int),
    )
}

/// Calibration of the right stick that a flash memory holds.
pub open spec fn spec_r_calibration(data: Seq<u8>) -> StickCalibration {
    StickCalibration::spec_right(
        spec_active_calibration(data, R_STICK_USER_OFFSET as int, R_STICK_FACTORY_OFFSET as int),
    )
}

/// The whole input state of a controller.
#[derive(Clone, Copy, Debug)]
pub struct ControllerState {
    controller: ControllerType,
    button_state: ButtonState,
    l_stick_state: StickState,
    r_stick_state: StickState,
    imu_state: ImuState,
}

/// Whether `s` is a stick centered on calibration `c`.
pub open spec fn spec_centered_on(s: StickState, c: StickCalibration) -> bool {
    &&& s.spec_calibration() == Some(c)
    &&& s.spec_horizontal() == c.h_center
    &&& s.spec_vertical() == c.v_center
}

/// Whether `s` is a stick at 0/0 without calibration.
pub open spec fn spec_uncalibrated_origin(s: StickState) -> bool {
    &&& s.spec_calibration() is None
    &&& s.spec_horizontal() == 0
    &&& s.spec_vertical() == 0
}

impl ControllerState {
    pub closed spec fn spec_controller(&self) -> ControllerType {
        self.controller
    }

    pub closed spec fn spec_button_state(&self) -> ButtonState {
        self.button_state
    }

    pub closed spec fn spec_l_stick_state(&self) -> StickState {
        self.l_stick_state
    }

    pub closed spec fn spec_r_stick_state(&self) -> StickState {
        self.r_stick_state
    }

    pub closed spec fn spec_imu_state(&self) -> ImuState {
        self.imu_state
    }

    /// A Pro Controller with no buttons pressed, uncalibrated sticks at 0/0
    /// and a still gyro.
    pub fn new() -> (r: Self)
        ensures
            r.spec_controller() == ControllerType::ProController,
            r.spec_button_state().spec_controller() == ControllerType::ProController,
            r.spec_button_state().spec_bytes() == seq![0u8, 0u8, 0u8],
            spec_uncalibrated_origin(r.spec_l_stick_state()),
            spec_uncalibrated_origin(r.spec_r_stick_state()),
            r.spec_imu_state().spec_x() == 0,
            r.spec_imu_state().spec_y() == 0,
    {
        match Self::with_config(ControllerStateConfig::default()) {
            Ok(s) => s,
            Err(_) => vstd::pervasive::unreached(),
        }
    }

    /// A state for the configured controller with no buttons pressed and a
    /// still gyro. With a flash memory both sticks take its calibration (user
    /// calibration before factory calibration) and rest at their centers;
    /// without one they are uncalibrated at 0/0.
    pub fn with_config(config: ControllerStateConfig) -> (r: Result<Self, StateError>)
        ensures
            r matches Ok(s) && {
                &&& s.spec_controller() == config.controller
                &&& s.spec_button_state().spec_controller() == config.controller
                &&& s.spec_button_state().spec_bytes() == seq![0u8, 0u8, 0u8]
                &&& s.spec_imu_state().spec_x() == 0
                &&& s.spec_imu_state().spec_y() == 0
                &&& match config.spi_flash {
                    Some(f) => {
                        &&& spec_centered_on(s.spec_l_stick_state(), spec_l_calibration(f.spec_data()))
                        &&& spec_centered_on(s.spec_r_stick_state(), spec_r_calibration(f.spec_data()))
                    },
                    None => {
                        &&& spec_uncalibrated_origin(s.spec_l_stick_state())
                        &&& spec_uncalibrated_origin(s.spec_r_stick_state())
                    },
                }
            },
    {
        match config.spi_flash {
            Some(spi_flash) => {
                let l_bytes = match spi_flash.user_l_stick_calibration() {
                    Some(calibration_data) => calibration_data,
                    None => spi_flash.factory_l_stick_calibration(),
                };
                let Some(l_calibration) = StickCalibration::with_left_stick_bytes(l_bytes) else {
                    return Err(StateError::NoCalibrationDataAvailable);
                };
                let mut l_stick_state = StickState::with_config(
                    StickStateConfig { horizontal: None, vertical: None, calibration: Some(l_calibration) },
                )?;
                l_stick_state.reset_to_center()?;
                let r_bytes = match spi_flash.user_r_stick_calibration() {
                    Some(calibration_data) => calibration_data,
                    None => spi_flash.factory_r_stick_calibration(),
                };
                let Some(r_calibration) = StickCalibration::with_right_stick_bytes(r_bytes) else {
                    return Err(StateError::NoCalibrationDataAvailable);
                };
                let mut r_stick_state = StickState::with_config(
                    StickStateConfig { horizontal: None, vertical: None, calibration: Some(r_calibration) },
                )?;
                r_stick_state.reset_to_center()?;
                Ok(ControllerState {
                    controller: config.controller,
                    button_state: ButtonState::with_controller(config.controller),
                    l_stick_state,
                    r_stick_state,
                    imu_state: ImuState::new(),
                })
            },
            None => Ok(ControllerState {
                controller: config.controller,
                button_state: ButtonState::with_controller(config.controller),
                l_stick_state: StickState::new(),
                r_stick_state: StickState::new(),
                imu_state: ImuState::new(),
            }),
        }
    }

    pub fn controller(&self) -> (r: ControllerType)
        ensures
            r == self.spec_controller(),
    {
        self.controller
    }

    pub fn button_state(&self) -> (r: &ButtonState)
        ensures
            *r == self.spec_button_state(),
    {
        &self.button_state
    }

    pub fn button_state_mut(&mut self) -> (r: &mut ButtonState)
        ensures
            *r == old(self).spec_button_state(),
            final(self).spec_button_state() == *final(r),
            final(self).spec_controller() == old(self).spec_controller(),
            final(self).spec_l_stick_state() == old(self).spec_l_stick_state(),
            final(self).spec_r_stick_state() == old(self).spec_r_stick_state(),
            final(self).spec_imu_state() == old(self).spec_imu_state(),
    {
        &mut self.button_state
    }

    pub fn l_stick_state(&self) -> (r: &StickState)
        ensures
            *r == self.spec_l_stick_state(),
    {
        &self.l_stick_state
    }

    pub fn l_stick_state_mut(&mut self) -> (r: &mut StickState)
        ensures
            *r == old(self).spec_l_stick_state(),
            final(self).spec_l_stick_state() == *final(r),
            final(self).spec_controller() == old(self).spec_controller(),
            final(self).spec_button_state() == old(self).spec_button_state(),
            final(self).spec_r_stick_state() == old(self).spec_r_stick_state(),
            final(self).spec_imu_state() == old(self).spec_imu_state(),
    {
        &mut self.l_stick_state
    }

    pub fn r_stick_state(&self) -> (r: &StickState)
        ensures
            *r == self.spec_r_stick_state(),
    {
        &self.r_stick_state
    }

    pub fn r_stick_state_mut(&mut self) -> (r: &mut StickState)
        ensures
            *r == old(self).spec_r_stick_state(),
            final(self).spec_r_stick_state() == *final(r),
            final(self).spec_controller() == old(self).spec_controller(),
            final(self).spec_button_state() == old(self).spec_button_state(),
            final(self).spec_l_stick_state() == old(self).spec_l_stick_state(),
            final(self).spec_imu_state() == old(self).spec_imu_state(),
    {
        &mut self.r_stick_state
    }

    pub fn imu_state(&self) -> (r: &ImuState)
        ensures
            *r == self.spec_imu_state(),
    {
        &self.imu_state
    }

    pub fn imu_state_mut(&mut self) -> (r: &mut ImuState)
        ensures
            *r == old(self).spec_imu_state(),
            final(self).spec_imu_state() == *final(r),
            final(self).spec_controller() == old(self).spec_controller(),
            final(self).spec_button_state() == old(self).spec_button_state(),
            final(self).spec_l_stick_state() == old(self).spec_l_stick_state(),
            final(self).spec_r_stick_state() == old(self).spec_r_stick_state(),
    {
        &mut self.imu_state
    }
}

/// A fresh flash memory calibrates both sticks alike: centered at 0x800 on
/// both axes with a reach of 0x700 above and below, so a controller state
/// made from it starts with both sticks at 0x800/0x800.
pub proof fn law_fresh_flash_calibration(size: nat)
    requires
        size >= SPI_FLASH_SIZE,
    ensures
        ({
            let data = spec_with_factory_calibration(Seq::new(size, |i: int| 0xFFu8));
            let expected = StickCalibration {
                h_center: 0x800,
                v_center: 0x800,
                h_max_above_center: 0x700,
                v_max_above_center: 0x700,
                h_max_below_center: 0x700,
                v_max_below_center: 0x700,
            };
            spec_l_calibration(data) == expected && spec_r_calibration(data) == expected
        }),
{
    let fresh = Seq::new(size, |i: int| 0xFFu8);
    law_factory_calibration_reads_back(fresh);
    law_fresh_memory_has_no_user_calibration(size);
    let data = spec_with_factory_calibration(fresh);
    let lb = data.subrange(L_STICK_FACTORY_OFFSET as int, L_STICK_FACTORY_OFFSET + 9);
    let rb = data.subrange(R_STICK_FACTORY_OFFSET as int, R_STICK_FACTORY_OFFSET + 9);
    assert(lb == spec_l_stick_factory());
    assert(rb == spec_r_stick_factory());
    assert(lb[0] == 0 && lb[1] == 0x07 && lb[2] == 0x70 && lb[3] == 0 && lb[4] == 0x08 && lb[5] == 0x80
        && lb[6] == 0 && lb[7] == 0x07 && lb[8] == 0x70);
    assert(rb[0] == 0 && rb[1] == 0x08 && rb[2] == 0x80 && rb[3] == 0 && rb[4] == 0x07 && rb[5] == 0x70
        && rb[6] == 0 && rb[7] == 0x07 && rb[8] == 0x70);
}

} // verus!
