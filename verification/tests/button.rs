use nxzr::controller::state::button::{ButtonKey, ButtonState, ParseError};
use nxzr::controller::state::StateError;
use nxzr::controller::ControllerType;

#[test]
fn convert_string_to_button_key() {
    let button = ButtonKey::from_str("s");
    assert!(button.is_err(), "invalid string should fail conversion");
    let button = ButtonKey::from_str("Capture").unwrap();
    assert_eq!(button, ButtonKey::Capture);
}

#[test]
fn test_convert_button_key_to_string() {
    let button = ButtonKey::Capture;
    println!("{}", button.to_string());
    assert_eq!(button.to_string(), "Capture");
}

#[test]
fn every_button_name_parses_back() {
    let all = ButtonKey::available_buttons(ControllerType::ProController);
    for key in all {
        let name = key.to_string();
        assert_eq!(ButtonKey::from_str(name.as_str()), Ok(key));
    }
    assert_eq!(ButtonKey::from_str("Sl"), Ok(ButtonKey::Sl));
    assert_eq!(ButtonKey::from_str("sl"), Err(ParseError::VariantNotFound));
    assert_eq!(ButtonKey::from_str(""), Err(ParseError::VariantNotFound));
}

#[test]
fn available_buttons_per_controller() {
    assert_eq!(ButtonKey::available_buttons(ControllerType::ProController).len(), 18);
    assert_eq!(ButtonKey::available_buttons(ControllerType::JoyConR).len(), 11);
    assert_eq!(ButtonKey::available_buttons(ControllerType::JoyConL).len(), 11);
    assert!(ButtonKey::can_use_button(ControllerType::JoyConR, ButtonKey::Sr));
    assert!(!ButtonKey::can_use_button(ControllerType::ProController, ButtonKey::Sr));
    assert!(!ButtonKey::can_use_button(ControllerType::JoyConL, ButtonKey::A));
}

#[test]
fn set_button_reads_back_and_sets_its_bit() {
    let mut state = ButtonState::with_controller(ControllerType::ProController);
    assert_eq!(state.as_bytes(), &[0, 0, 0]);
    state.set_button(ButtonKey::A, true).unwrap();
    assert!(state.is_button_set(ButtonKey::A));
    assert_eq!(state.as_bytes(), &[0x08, 0, 0]);
    state.set_button(ButtonKey::Home, true).unwrap();
    assert_eq!(state.as_bytes(), &[0x08, 0x10, 0]);
    state.set_button(ButtonKey::Zl, true).unwrap();
    assert_eq!(state.as_bytes(), &[0x08, 0x10, 0x80]);
    state.set_button(ButtonKey::A, false).unwrap();
    assert!(!state.is_button_set(ButtonKey::A));
    assert_eq!(state.as_bytes(), &[0, 0x10, 0x80]);
}

#[test]
fn side_buttons_sit_in_the_byte_of_their_joycon() {
    let mut right = ButtonState::with_controller(ControllerType::JoyConR);
    right.set_button(ButtonKey::Sr, true).unwrap();
    assert_eq!(right.as_bytes(), &[0x10, 0, 0]);
    let mut left = ButtonState::with_controller(ControllerType::JoyConL);
    left.set_button(ButtonKey::Sl, true).unwrap();
    assert_eq!(left.as_bytes(), &[0, 0, 0x20]);
}

#[test]
fn unavailable_button_is_refused() {
    let mut state = ButtonState::with_controller(ControllerType::JoyConL);
    assert_eq!(state.set_button(ButtonKey::A, true), Err(StateError::ButtonNotAvailable));
    assert_eq!(state.toggle_button(ButtonKey::X), Err(StateError::ButtonNotAvailable));
    assert_eq!(state.as_bytes(), &[0, 0, 0]);
    assert!(!state.is_button_set(ButtonKey::A));
}

#[test]
fn toggle_twice_restores_and_clear_releases_all() {
    let mut state = ButtonState::with_controller(ControllerType::ProController);
    state.set_button(ButtonKey::B, true).unwrap();
    let before = *state.as_bytes();
    state.toggle_button(ButtonKey::Minus).unwrap();
    assert!(state.is_button_set(ButtonKey::Minus));
    state.toggle_button(ButtonKey::Minus).unwrap();
    assert_eq!(*state.as_bytes(), before);
    state.clear();
    assert_eq!(state.as_bytes(), &[0, 0, 0]);
    assert!(!state.is_button_set(ButtonKey::B));
}

#[test]
fn controller_type_names() {
    assert_eq!(ControllerType::ProController.name(), "Pro Controller");
    assert_eq!(ControllerType::JoyConL.name(), "Joy-Con (L)");
    assert_eq!(ControllerType::JoyConR.to_string(), "JoyConR");
    assert_eq!(ControllerType::from_str("JoyConL").unwrap(), ControllerType::JoyConL);
    assert!(ControllerType::from_str("Joy-Con (L)").is_err());
    assert_eq!(ControllerType::from_id(0x03), Some(ControllerType::ProController));
    assert_eq!(ControllerType::from_id(0x04), None);
    assert_eq!(ControllerType::JoyConR.id(), 0x02);
    assert_eq!(ControllerType::ProController.close_pairing_masks(), 0x000C1000);
    assert_eq!(
        ControllerType::JoyConR.close_pairing_menu_seq(),
        vec![ButtonKey::Down, ButtonKey::Left]
    );
}
