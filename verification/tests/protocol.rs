use nxzr::addr::Address;
use nxzr::controller::interval::Seconds;
use nxzr::controller::protocol::{
    ControllerProtocolConfig, ControllerProtocolError, Event, LogType, ProtocolState,
};
use nxzr::controller::report::input::InputReport;
use nxzr::controller::report::output::OutputReport;
use nxzr::controller::report::subcommand::Subcommand;
use nxzr::controller::state::button::ButtonKey;
use nxzr::controller::ControllerType;

const CT: ControllerType = ControllerType::ProController;

fn request(subcommand: u8, data: &[u8]) -> Vec<u8> {
    let mut raw = vec![0u8; 50];
    raw[0] = 0xA2;
    raw[1] = 0x01;
    raw[11] = subcommand;
    raw[12..12 + data.len()].copy_from_slice(data);
    raw
}

fn pairing_state() -> ProtocolState {
    ProtocolState::from_config(&ControllerProtocolConfig::default())
}

fn dev() -> Address {
    Address::new([0x94, 0x59, 0xCB, 1, 2, 3])
}

#[test]
fn new_pairing_and_reconnecting_states() {
    let st = pairing_state();
    assert!(st.is_pairing);
    assert_eq!(st.send_interval, Seconds::Fraction { num: 1, den: 15 });
    assert_eq!(st.report_mode, None);
    let re = ProtocolState::with_controller(ControllerType::JoyConL, true);
    assert!(!re.is_pairing);
    assert_eq!(re.send_interval, Seconds::Infinite);
    assert_eq!(re.controller_state.controller(), ControllerType::JoyConL);
}

#[test]
fn device_info_request_is_answered() {
    let mut st = pairing_state();
    let raw = request(0x02, &[]);
    assert!(st.read_defined(CT, &raw));
    let reply = st.process_read(CT, dev(), &raw, 7);
    assert!(matches!(reply.events.as_slice(), [Event::Log(LogType::SubcommandReceived(Subcommand::RequestDeviceInfo))]));
    let report = reply.result.unwrap().unwrap();
    let b = report.as_bytes();
    assert_eq!(b[1], 0x21);
    assert_eq!(b[2], 7);
    assert_eq!(&b[14..16], &[0x82, 0x02]);
    assert_eq!(&b[18..26], &[0x03, 0x02, 0x94, 0x59, 0xCB, 1, 2, 3]);
    assert!(!reply.writer_ready);
}

#[test]
fn spi_flash_read_returns_the_factory_calibration() {
    let mut st = pairing_state();
    let raw = request(0x10, &[0x3D, 0x60, 0x00, 0x00, 0x09]);
    let reply = st.process_read(CT, dev(), &raw, 0);
    let report = reply.result.unwrap().unwrap();
    let b = report.as_bytes();
    assert_eq!(&b[14..21], &[0x90, 0x10, 0x3D, 0x60, 0x00, 0x00, 0x09]);
    assert_eq!(&b[21..30], &[0x00, 0x07, 0x70, 0x00, 0x08, 0x80, 0x00, 0x07, 0x70]);
}

#[test]
fn spi_flash_read_past_the_memory_is_not_defined() {
    let st = pairing_state();
    let raw = request(0x10, &[0xFF, 0xFF, 0x07, 0x00, 0x09]);
    assert!(!st.read_defined(CT, &raw));
    assert!(st.read_defined(CT, &request(0x10, &[0xF7, 0xFF, 0x07, 0x00, 0x09])));
}

#[test]
fn report_mode_while_pairing_keeps_fifteen_hertz() {
    let mut st = pairing_state();
    let reply = st.process_read(CT, dev(), &request(0x03, &[0x30]), 0);
    assert!(reply.wake_writer);
    assert_eq!(st.report_mode, Some(0x30));
    assert_eq!(st.send_interval, Seconds::Fraction { num: 1, den: 15 });
    let report = reply.result.unwrap().unwrap();
    assert_eq!(&report.as_bytes()[14..16], &[0x80, 0x03]);
    let again = st.process_read(CT, dev(), &request(0x03, &[0x30]), 0);
    assert!(matches!(again.events[1], Event::Warning(ControllerProtocolError::DuplicatedReportModeSet)));
}

#[test]
fn player_lights_make_the_writer_ready() {
    let mut st = pairing_state();
    let reply = st.process_read(CT, dev(), &request(0x30, &[0x01]), 0);
    assert!(reply.writer_ready);
    assert_eq!(&reply.result.unwrap().unwrap().as_bytes()[14..16], &[0x80, 0x30]);
}

#[test]
fn other_reports_are_ignored_or_warned_about() {
    let mut st = pairing_state();
    let mut rumble = request(0x00, &[]);
    rumble[1] = 0x10;
    let reply = st.process_read(CT, dev(), &rumble, 0);
    assert!(reply.events.is_empty());
    assert!(matches!(reply.result, Ok(None)));
    let reply = st.process_read(CT, dev(), &[0xA2, 0x01], 0);
    assert!(matches!(reply.events.as_slice(), [Event::Warning(ControllerProtocolError::OutputReportParseFailed)]));
    let mut odd = request(0x00, &[]);
    odd[1] = 0x42;
    let reply = st.process_read(CT, dev(), &odd, 0);
    assert!(matches!(reply.events.as_slice(), [Event::Warning(ControllerProtocolError::OutputReportIdParseFailed)]));
    let mut mcu = request(0x00, &[]);
    mcu[1] = 0x11;
    let reply = st.process_read(CT, dev(), &mcu, 0);
    match reply.events.as_slice() {
        [Event::Warning(ControllerProtocolError::NotImplemented(m))] => assert_eq!(
            m,
            "attempting to request subcommand: RequestIrNfcMcu, which is not implemented, ignoring."
        ),
        other => panic!("unexpected events: {:?}", other),
    }
    let reply = st.process_read(CT, dev(), &request(0x99, &[]), 0);
    assert!(matches!(reply.events.as_slice(), [Event::Warning(ControllerProtocolError::NotImplemented(_))]));
}

#[test]
fn pairing_ends_when_a_closing_button_is_pressed() {
    let mut st = pairing_state();
    let report = st.generate_input_report(CT, Some(0x30), 0).unwrap();
    let (events, ended) = st.before_write(CT, &report, false);
    assert!(!ended);
    assert!(events.is_empty());
    assert!(st.is_pairing);
    st.controller_state.button_state_mut().set_button(ButtonKey::Home, true).unwrap();
    let report = st.generate_input_report(CT, Some(0x30), 1).unwrap();
    let (events, ended) = st.before_write(CT, &report, true);
    assert!(ended);
    assert!(!st.is_pairing);
    assert_eq!(st.send_interval, Seconds::Infinite);
    assert!(matches!(events.last(), Some(Event::Warning(ControllerProtocolError::WriteWhilePaused))));
    assert!(events.iter().any(|e| matches!(e, Event::Log(LogType::PairingEnded))));
    let (_, ended_again) = st.before_write(CT, &report, false);
    assert!(!ended_again);
}

#[test]
fn generated_reports_follow_the_mode() {
    let mut st = pairing_state();
    assert!(matches!(
        st.generate_input_report(CT, None, 0),
        Err(ControllerProtocolError::NoInputReportModeSupplied)
    ));
    assert!(matches!(
        st.generate_input_report(CT, Some(0x55), 0),
        Err(ControllerProtocolError::UnknownInputReportMode)
    ));
    assert!(matches!(
        st.generate_input_report(ControllerType::JoyConL, Some(0x30), 0),
        Err(ControllerProtocolError::Invariant(_))
    ));
    let events = st.set_report_mode(Some(0x31));
    assert!(events.is_empty());
    let report: InputReport = st.generate_input_report(CT, None, 0x105).unwrap();
    let b = report.as_bytes();
    assert_eq!((b[1], b[2], b[3]), (0x31, 0x05, 0x8E));
    assert_eq!(&b[7..13], &[0x00, 0x08, 0x80, 0x00, 0x08, 0x80]);
    assert_eq!(b[13], 0x80);
    assert_eq!(b[14], 0x00);
    assert_eq!(b[50], 0xFF);
    assert_eq!(report.as_buf().len(), 363);
}

#[test]
fn send_interval_follows_the_report_mode_after_pairing() {
    let mut st = ProtocolState::with_controller(CT, true);
    st.set_report_mode(Some(0x3F));
    assert_eq!(st.send_interval, Seconds::Fraction { num: 1, den: 1 });
    st.set_report_mode(Some(0x30));
    assert_eq!(st.send_interval, Seconds::Fraction { num: 1, den: 15 });
    let events = st.set_report_mode(Some(0x21));
    assert_eq!(events.len(), 1);
    assert_eq!(st.send_interval, Seconds::Infinite);
    let events = st.set_report_mode(Some(0x44));
    match events.as_slice() {
        [Event::Warning(ControllerProtocolError::Invariant(m))] => {
            assert_eq!(m, "unknown interval for report mode \"Some(68)\", assuming it as 15hz.")
        }
        other => panic!("unexpected events: {:?}", other),
    }
    assert_eq!(st.send_interval, Seconds::Fraction { num: 1, den: 15 });
}

#[test]
fn reply_reports_carry_the_standard_id() {
    let mut st = pairing_state();
    let out = OutputReport::with_raw(&request(0x40, &[0x01])).unwrap();
    assert!(st.reply_defined(CT, &out));
    let reply = st.reply_to_subcommand(CT, dev(), &out, 3);
    let rep = reply.result.unwrap().unwrap();
    assert_eq!(&rep.as_bytes()[..4], &[0xA1, 0x21, 0x03, 0x8E]);
    assert_eq!(&rep.as_bytes()[14..16], &[0x80, 0x40]);
}

#[test]
fn a_written_spi_read_request_is_answered_with_flash_bytes() {
    let mut request = OutputReport::new();
    request.sub_0x10_spi_flash_read(0x6046, 9).unwrap();
    let mut st = pairing_state();
    let raw = request.data().to_vec();
    assert!(st.read_defined(CT, &raw));
    let reply = st.process_read(CT, dev(), &raw, 0);
    let report = reply.result.unwrap().unwrap();
    let b = report.as_bytes();
    assert_eq!(&b[14..21], &[0x90, 0x10, 0x46, 0x60, 0x00, 0x00, 0x09]);
    assert_eq!(&b[21..30], &[0x00, 0x08, 0x80, 0x00, 0x07, 0x70, 0x00, 0x07, 0x70]);
}
