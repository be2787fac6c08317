use bytes::BytesMut;
use nxzr::controller::report::input::{InputReport, InputReportId, TriggerButtonsElapsedTimeCommand};
use nxzr::controller::report::output::{OutputReport, OutputReportId};
use nxzr::controller::report::subcommand::Subcommand;
use nxzr::controller::report::ReportError;
use nxzr::controller::ControllerType;

fn raw_output(id: u8, subcommand: u8, data: &[u8]) -> Vec<u8> {
    let mut raw = vec![0u8; 50];
    raw[0] = 0xA2;
    raw[1] = id;
    raw[11] = subcommand;
    raw[12..12 + data.len()].copy_from_slice(data);
    raw
}

#[test]
fn output_report_parsing_errors() {
    assert_eq!(OutputReport::with_raw(&[0xA2; 10]).unwrap_err(), ReportError::TooShort);
    assert_eq!(OutputReport::with_raw(&[0xA1; 11]).unwrap_err(), ReportError::Malformed);
    let report = OutputReport::with_raw(&[0xA2, 0x01, 0, 0, 0, 0, 0, 0, 0, 0, 0]).unwrap();
    assert_eq!(report.output_report_id(), Some(OutputReportId::SubCommand));
    assert_eq!(report.subcommand(), Some(Subcommand::Empty));
    assert_eq!(report.subcommand_data().unwrap_err(), ReportError::NoDataAvailable);
}

#[test]
fn output_report_fields() {
    let raw = raw_output(0x01, 0x10, &[0x3D, 0x60, 0, 0, 9]);
    let report = OutputReport::with_raw(&raw).unwrap();
    assert_eq!(report.subcommand(), Some(Subcommand::SpiFlashRead));
    assert_eq!(&report.subcommand_data().unwrap()[..5], &[0x3D, 0x60, 0, 0, 9]);
    assert_eq!(report.rumble_data(), &[0u8; 8]);
    let unknown = OutputReport::with_raw(&raw_output(0x05, 0x77, &[])).unwrap();
    assert_eq!(unknown.output_report_id(), None);
    assert_eq!(unknown.subcommand(), None);
}

#[test]
fn output_report_timer_wraps_at_sixteen() {
    let mut report = OutputReport::new();
    report.set_timer(0x13);
    assert_eq!(report.timer(), 0x03);
    report.set_output_report_id(OutputReportId::RumbleOnly);
    assert_eq!(report.data()[1], 0x10);
}

#[test]
fn output_report_spi_flash_read_request() {
    let mut report = OutputReport::new();
    report.set_subcommand(Subcommand::SpiFlashRead);
    report.sub_0x10_spi_flash_read(0x0000_603D, 0x09).unwrap();
    assert_eq!(report.data()[11], 0x10);
    assert_eq!(&report.data()[12..17], &[0x3D, 0x60, 0x00, 0x00, 0x09]);
    assert_eq!(report.sub_0x10_spi_flash_read(0, 0x1E).unwrap_err(), ReportError::OutOfBounds);
}

#[test]
fn subcommand_bytes() {
    assert_eq!(Subcommand::from_byte(0x48), Some(Subcommand::EnableVibration));
    assert_eq!(Subcommand::from_byte(0x05), None);
    assert_eq!(Subcommand::SetPlayerLights.to_byte(), Some(0x30));
    assert_eq!(Subcommand::Empty.to_byte(), None);
    assert_eq!(Subcommand::SpiFlashRead.to_string(), "SpiFlashRead");
    assert_eq!(InputReportId::from_byte(0x30), Some(InputReportId::Imu));
    assert_eq!(InputReportId::from_byte(0x34), None);
    assert_eq!(InputReportId::Standard.to_byte(), 0x21);
}

#[test]
fn input_report_fields() {
    let mut report = InputReport::new();
    assert_eq!(report.as_bytes().len(), 363);
    assert_eq!(report.as_buf().len(), 51);
    report.set_input_report_id(InputReportId::Imu);
    assert_eq!(report.input_report_id(), Some(InputReportId::Imu));
    assert_eq!(report.as_buf().len(), 50);
    report.set_input_report_id(InputReportId::NfcIrMcu);
    assert_eq!(report.as_buf().len(), 363);
    report.set_timer(0x1FF);
    report.set_misc();
    report.set_button(&[0x08, 0x10, 0x80]);
    report.set_analog_stick(Some([0x00, 0x08, 0x80]), None);
    report.set_vibrator_input();
    let buf = report.as_bytes();
    assert_eq!(buf[0], 0xA1);
    assert_eq!(buf[2], 0xFF);
    assert_eq!(buf[3], 0x8E);
    assert_eq!(&buf[4..7], &[0x08, 0x10, 0x80]);
    assert_eq!(report.stick_data(), &[0x00, 0x08, 0x80, 0, 0, 0]);
    assert_eq!(report.as_bytes()[13], 0x80);
}

#[test]
fn input_report_with_raw() {
    assert_eq!(
        InputReport::with_raw(BytesMut::from(&[0xA1u8; 49][..])).unwrap_err(),
        ReportError::TooShort
    );
    assert_eq!(
        InputReport::with_raw(BytesMut::from(&[0xA2u8; 50][..])).unwrap_err(),
        ReportError::Malformed
    );
    let report = InputReport::with_raw(BytesMut::from(&[0xA1u8; 50][..])).unwrap();
    assert_eq!(report.as_bytes().len(), 50);
}

#[test]
fn device_info_reply() {
    let mut report = InputReport::new();
    report.set_ack(0x82);
    report
        .sub_0x02_device_info([1, 2, 3, 4, 5, 6], None, ControllerType::JoyConR)
        .unwrap();
    let b = report.as_bytes();
    assert_eq!(report.ack(), 0x82);
    assert_eq!(report.response_subcommand(), Some(Subcommand::RequestDeviceInfo));
    assert_eq!(&b[14..28], &[0x82, 0x02, 0x04, 0x00, 0x02, 0x02, 1, 2, 3, 4, 5, 6, 0x01, 0x00]);
}

#[test]
fn spi_flash_read_reply() {
    let mut report = InputReport::new();
    report.sub_0x10_spi_flash_read(0x603D, 3, &[7, 8, 9]).unwrap();
    assert_eq!(&report.as_bytes()[15..24], &[0x10, 0x3D, 0x60, 0x00, 0x00, 3, 7, 8, 9]);
    assert_eq!(
        report.sub_0x10_spi_flash_read(0, 2, &[1]).unwrap_err(),
        ReportError::OutOfBounds
    );
    assert_eq!(
        report.sub_0x10_spi_flash_read(0, 0x1E, &[0u8; 0x1E]).unwrap_err(),
        ReportError::OutOfBounds
    );
}

#[test]
fn trigger_elapsed_time_reply() {
    let mut report = InputReport::new();
    report
        .sub_0x04_trigger_buttons_elapsed_time(&[
            TriggerButtonsElapsedTimeCommand::LeftTrigger(3000),
            TriggerButtonsElapsedTimeCommand::Home(10 * 0x1234),
        ])
        .unwrap();
    let b = report.as_bytes();
    assert_eq!(&b[16..18], &[0x2C, 0x01]);
    assert_eq!(&b[28..30], &[0x34, 0x12]);
    let mut too_long = InputReport::new();
    assert_eq!(
        too_long
            .sub_0x04_trigger_buttons_elapsed_time(&[
                TriggerButtonsElapsedTimeCommand::RightTrigger(10 * 0xFFFF + 1),
            ])
            .unwrap_err(),
        ReportError::Invariant
    );
}

#[test]
fn response_subcommand_must_be_a_real_one() {
    let mut report = InputReport::new();
    assert_eq!(report.set_response_subcommand(Subcommand::Empty).unwrap_err(), ReportError::Invariant);
    report.set_response_subcommand(Subcommand::SetShipmentState).unwrap();
    assert_eq!(report.response_subcommand(), Some(Subcommand::SetShipmentState));
}

#[test]
fn output_reports_keep_header_and_length() {
    let mut report = OutputReport::with_raw(&raw_output(0x10, 0, &[])).unwrap();
    let n0 = report.data().len();
    report.set_output_report_id(OutputReportId::SubCommand);
    report.set_timer(7);
    report.set_subcommand(Subcommand::SetPlayerLights);
    report.set_subcommand_data(&[1, 2, 3]);
    report.sub_0x10_spi_flash_read(0x10, 4).unwrap();
    let copy = report.clone();
    assert_eq!(copy.data(), report.data());
    assert_eq!(report.data()[0], 0xA2);
    assert_eq!(report.data().len(), n0);
    assert!(n0 >= 11);
}
