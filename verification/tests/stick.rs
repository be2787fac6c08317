use nxzr::controller::calibration::LeftStickCalibration;
use nxzr::controller::spi_flash::{SpiFlash, SpiFlashConfig};
use nxzr::controller::state::stick::{StickCalibration, StickState, StickStateConfig};
use nxzr::controller::state::{ControllerState, ControllerStateConfig, StateError};
use nxzr::controller::ControllerType;

#[test]
fn stick_calibration() {
    let spi_flash = SpiFlash::new();
    let l_cal =
        StickCalibration::with_left_stick_bytes(&spi_flash.factory_l_stick_calibration()).unwrap();
    let stick_state = StickState::with_config(StickStateConfig {
        calibration: Some(l_cal),
        ..Default::default()
    });
    println!("{:?}", &stick_state);
}

#[test]
fn factory_calibrations_unpack_to_centered_sticks() {
    let spi_flash = SpiFlash::new();
    let l = StickCalibration::with_left_stick_bytes(spi_flash.factory_l_stick_calibration()).unwrap();
    assert_eq!(l, StickCalibration::new(0x800, 0x800, 0x700, 0x700, 0x700, 0x700));
    let r = StickCalibration::with_right_stick_bytes(spi_flash.factory_r_stick_calibration()).unwrap();
    assert_eq!(r, StickCalibration::new(0x800, 0x800, 0x700, 0x700, 0x700, 0x700));
    assert!(spi_flash.user_l_stick_calibration().is_none());
    assert!(spi_flash.user_r_stick_calibration().is_none());
    assert_eq!(StickCalibration::with_left_stick_bytes(&[0u8; 8]), None);
}

#[test]
fn left_calibration_from_bytes() {
    let cal = LeftStickCalibration::from_bytes(&[0x00, 0x07, 0x70, 0x00, 0x08, 0x80, 0x00, 0x07, 0x70]);
    assert_eq!(
        cal.stick_calibration(),
        StickCalibration::new(0x800, 0x800, 0x700, 0x700, 0x700, 0x700)
    );
}

#[test]
fn user_calibration_takes_precedence() {
    let mut buf = vec![0xFFu8; 0x80000];
    buf[0x8010] = 0xB2;
    buf[0x8011] = 0xA1;
    let user = [0x00, 0x06, 0x60, 0x00, 0x09, 0x90, 0x00, 0x05, 0x50];
    buf[0x8012..0x801B].copy_from_slice(&user);
    let flash = SpiFlash::with_config(SpiFlashConfig {
        buffer: Some(bytes::BytesMut::from(&buf[..])),
        reset: true,
        ..Default::default()
    })
    .unwrap();
    assert_eq!(flash.user_l_stick_calibration(), Some(&user[..]));
    let state = ControllerState::with_config(ControllerStateConfig {
        controller: ControllerType::ProController,
        spi_flash: Some(flash),
    })
    .unwrap();
    assert_eq!(state.l_stick_state().horizontal(), 0x900);
    assert_eq!(state.l_stick_state().vertical(), 0x900);
    assert_eq!(state.r_stick_state().horizontal(), 0x800);
}

#[test]
fn flash_of_wrong_size_is_refused() {
    let flash = SpiFlash::with_config(SpiFlashConfig {
        buffer: Some(bytes::BytesMut::from(&[0u8; 16][..])),
        ..Default::default()
    });
    assert!(flash.is_none());
}

#[test]
fn axis_values_are_twelve_bits() {
    let state = StickState::with_config(StickStateConfig {
        horizontal: Some(0x1000),
        ..Default::default()
    });
    assert_eq!(state.unwrap_err(), StateError::InvalidRange);
    let mut state = StickState::new();
    assert_eq!(state.set_vertical(0xFFF), Ok(()));
    assert_eq!(state.set_horizontal(0x1234), Err(StateError::InvalidRange));
    assert_eq!(state.horizontal(), 0);
}

#[test]
fn stick_bytes_roundtrip() {
    let state = StickState::with_config(StickStateConfig {
        horizontal: Some(0x123),
        vertical: Some(0xABC),
        calibration: None,
    })
    .unwrap();
    let buf = state.to_buf();
    assert_eq!(buf, [0x23, 0xC1, 0xAB]);
    let back = StickState::with_raw(buf, None).unwrap();
    assert_eq!(back.horizontal(), 0x123);
    assert_eq!(back.vertical(), 0xABC);
}

#[test]
fn directions_follow_the_calibration() {
    let cal = StickCalibration::new(0x800, 0x800, 0x700, 0x600, 0x500, 0x400);
    let mut state = StickState::with_config(StickStateConfig {
        calibration: Some(cal),
        ..Default::default()
    })
    .unwrap();
    assert_eq!(state.is_center(None), Ok(false));
    state.reset_to_center().unwrap();
    assert_eq!(state.is_center(None), Ok(true));
    state.set_up().unwrap();
    assert_eq!(state.vertical(), 0x800 + 0x600);
    assert_eq!(state.horizontal(), 0x800);
    state.set_left().unwrap();
    assert_eq!(state.horizontal(), 0x800 - 0x500);
    assert_eq!(state.vertical(), 0x800);
    assert_eq!(state.is_center(Some(0x4FF)), Ok(false));
    assert_eq!(state.is_center(Some(0x500)), Ok(true));
    state.reset_to_center().unwrap();
    state.set_down().unwrap();
    state.set_right().unwrap();
    assert_eq!((state.horizontal(), state.vertical()), (0x800 + 0x700, 0x800));
    let mut bare = StickState::new();
    assert_eq!(bare.set_up(), Err(StateError::NoCalibrationDataAvailable));
    assert_eq!(bare.is_center(None), Err(StateError::NoCalibrationDataAvailable));
}

#[test]
fn new_controller_state_is_centered() {
    let state = ControllerState::with_config(ControllerStateConfig {
        controller: ControllerType::JoyConL,
        spi_flash: Some(SpiFlash::new()),
    })
    .unwrap();
    assert_eq!(state.controller(), ControllerType::JoyConL);
    assert_eq!(state.l_stick_state().to_buf(), [0x00, 0x08, 0x80]);
    assert_eq!(state.r_stick_state().to_buf(), [0x00, 0x08, 0x80]);
    assert_eq!(state.button_state().as_bytes(), &[0, 0, 0]);
}
