use vstd::prelude::*;
use std::io::ErrorKind;
use std::time::Duration;
use crate::addr::Address;
use crate::bytes_spec::{spec_splice, spec_le32, spec_le32_value};
use crate::controller::ControllerType;
use crate::controller::{spec_u32_be, u32_from_be_bytes};
use crate::controller::interval::{Seconds, SendInterval, spec_fifteenth, spec_interval_for};
use crate::controller::report::ReportError;
use crate::controller::report::input::{
    lemma_single_trigger, spec_elapsed_written,
    InputReport, InputReportId, TriggerButtonsElapsedTimeCommand, spec_apply_trigger_commands,
    spec_sent_len, INPUT_REPORT_FULL_LEN, INPUT_REPORT_MIN_LEN, SUBCOMMAND_OFFSET,
};
use crate::controller::report::output::{OutputReport, OutputReportId, OUTPUT_REPORT_MIN_LEN};
use crate::controller::report::subcommand::Subcommand;
use crate::controller::spi_flash::{SpiFlash, spec_with_factory_calibration, SPI_FLASH_SIZE};
use crate::controller::state::{ControllerState, ControllerStateConfig, StateError, spec_centered_on, spec_l_calibration, spec_r_calibration};
use crate::controller::state::stick::spec_stick_bytes;
use crate::controller::state::button::{ButtonKey, ButtonState, spec_bit, spec_button_slot};
use crate::text::{spec_decimal, push_decimal};

verus! {

/// `std::io::ErrorKind`, carried opaquely in transport errors.
#[verifier::external_type_specification]
#[verifier::external_body]
pub struct ExIoErrorKind(ErrorKind);

/// `ErrorKind::clone`: `ErrorKind` is `Copy`, so a clone equals the value cloned.
pub assume_specification[ <ErrorKind as Clone>::clone ](kind: &ErrorKind) -> (r: ErrorKind)
    ensures
        r == *kind,
;

/// `Duration::clone`: `Duration` is `Copy`, so a clone equals the value cloned.
pub assume_specification[ <Duration as Clone>::clone ](d: &Duration) -> (r: Duration)
    ensures
        r == *d,
;

/// Failures of lower layers met by the protocol.
#[derive(Clone, Copy, Debug)]
pub enum ControllerProtocolInternalError {
    Report(ReportError),
    State(StateError),
}

/// Errors and warnings of the controller protocol.
#[derive(Clone, Debug)]
pub enum ControllerProtocolError {
    /// Failed to parse an output report from the raw buffer.
    OutputReportParseFailed,
    /// Failed to parse the id of an output report.
    OutputReportIdParseFailed,
    /// No input report mode is supplied.
    NoInputReportModeSupplied,
    /// Failed to create an input report from given data.
    InputReportCreationFailed,
    /// An unknown report mode is used for generating an input report.
    UnknownInputReportMode,
    /// A write took longer than the send interval, by this much.
    LaggedWrites(Duration),
    /// A write was triggered while paused.
    WriteWhilePaused,
    /// A report mode was set that equals the previous one.
    DuplicatedReportModeSet,
    /// The transport failed.
    Transport { kind: ErrorKind, message: String },
    NotImplemented(String),
    Invariant(String),
    Internal(ControllerProtocolInternalError),
}

impl From<ReportError> for ControllerProtocolError {
    fn from(err: ReportError) -> (r: Self) {
        ControllerProtocolError::Internal(ControllerProtocolInternalError::Report(err))
    }
}

impl vstd::std_specs::convert::FromSpecImpl<ReportError> for ControllerProtocolError {
    open spec fn obeys_from_spec() -> bool {
        true
    }

    open spec fn from_spec(err: ReportError) -> Self {
        ControllerProtocolError::Internal(ControllerProtocolInternalError::Report(err))
    }
}

impl From<StateError> for ControllerProtocolError {
    fn from(err: StateError) -> (r: Self) {
        ControllerProtocolError::Internal(ControllerProtocolInternalError::State(err))
    }
}

impl vstd::std_specs::convert::FromSpecImpl<StateError> for ControllerProtocolError {
    open spec fn obeys_from_spec() -> bool {
        true
    }

    open spec fn from_spec(err: StateError) -> Self {
        ControllerProtocolError::Internal(ControllerProtocolInternalError::State(err))
    }
}

/// Informational events of the protocol.
#[derive(Clone, Copy, Debug, PartialEq, Eq, Structural)]
pub enum LogType {
    PairingEnded,
    SubcommandReceived(Subcommand),
}

/// What the protocol reports to its listeners.
#[derive(Clone, Debug)]
pub enum Event {
    Log(LogType),
    Warning(ControllerProtocolError),
}

/// An error with its messages as character sequences.
pub ghost enum ProtocolErrorView {
    OutputReportParseFailed,
    OutputReportIdParseFailed,
    NoInputReportModeSupplied,
    InputReportCreationFailed,
    UnknownInputReportMode,
    LaggedWrites(Duration),
    WriteWhilePaused,
    DuplicatedReportModeSet,
    Transport { kind: ErrorKind, message: Seq<char> },
    NotImplemented(Seq<char>),
    Invariant(Seq<char>),
    Internal(ControllerProtocolInternalError),
}

/// An event with its messages as character sequences.
pub ghost enum EventView {
    Log(LogType),
    Warning(ProtocolErrorView),
}

impl View for ControllerProtocolError {
    type V = ProtocolErrorView;

    open spec fn view(&self) -> ProtocolErrorView {
        match self {
            ControllerProtocolError::OutputReportParseFailed => ProtocolErrorView::OutputReportParseFailed,
            ControllerProtocolError::OutputReportIdParseFailed => ProtocolErrorView::OutputReportIdParseFailed,
            ControllerProtocolError::NoInputReportModeSupplied => ProtocolErrorView::NoInputReportModeSupplied,
            ControllerProtocolError::InputReportCreationFailed => ProtocolErrorView::InputReportCreationFailed,
            ControllerProtocolError::UnknownInputReportMode => ProtocolErrorView::UnknownInputReportMode,
            ControllerProtocolError::LaggedWrites(d) => ProtocolErrorView::LaggedWrites(*d),
            ControllerProtocolError::WriteWhilePaused => ProtocolErrorView::WriteWhilePaused,
            ControllerProtocolError::DuplicatedReportModeSet => ProtocolErrorView::DuplicatedReportModeSet,
            ControllerProtocolError::Transport { kind, message } => ProtocolErrorView::Transport {
                kind: *kind,
                message: message@,
            },
            ControllerProtocolError::NotImplemented(m) => ProtocolErrorView::NotImplemented(m@),
            ControllerProtocolError::Invariant(m) => ProtocolErrorView::Invariant(m@),
            ControllerProtocolError::Internal(e) => ProtocolErrorView::Internal(*e),
        }
    }
}

impl View for Event {
    type V = EventView;

    open spec fn view(&self) -> EventView {
        match self {
            Event::Log(l) => EventView::Log(*l),
            Event::Warning(e) => EventView::Warning(e@),
        }
    }
}

/// The views of a list of events.
pub open spec fn spec_events(events: Seq<Event>) -> Seq<EventView> {
    events.map_values(|e: Event| e@)
}

/// Warning for setting the standard report mode, which only replies use.
pub open spec fn spec_standard_mode_warning() -> EventView {
    EventView::Warning(
        ProtocolErrorView::Invariant(
            "unexpectedly setting report mode for standard input reports."@,
        ),
    )
}

/// Warning for a report mode without a known send interval.
pub open spec fn spec_unknown_interval_warning(mode: u8) -> EventView {
    EventView::Warning(
        ProtocolErrorView::Invariant(
            "unknown interval for report mode \"Some("@ + spec_decimal(mode)
                + ")\", assuming it as 15hz."@,
        ),
    )
}

/// Warning for a subcommand that the protocol does not answer.
pub open spec fn spec_unsupported_warning(s: Subcommand) -> EventView {
    EventView::Warning(
        ProtocolErrorView::NotImplemented(
            "unsupported subcommand: \""@ + s.spec_name() + "\", ignoring."@,
        ),
    )
}

/// Warning for an NFC/IR MCU state command other than resume or suspend.
pub open spec fn spec_nfc_state_warning(command: u8) -> EventView {
    EventView::Warning(
        ProtocolErrorView::NotImplemented(
            "command \""@ + spec_decimal(command)
                + "\" for Subcommand NFC IR is not implemented."@,
        ),
    )
}

/// Warning for an output report whose subcommand byte is unknown.
pub open spec fn spec_unknown_subcommand_warning() -> EventView {
    EventView::Warning(ProtocolErrorView::NotImplemented("Unknown subcommand received."@))
}

/// Error for a controller state of another controller type than the protocol's.
pub open spec fn spec_controller_mismatch_error() -> ProtocolErrorView {
    ProtocolErrorView::Invariant(
        "supplied controller type in `ControllerState` does not match with one that's passed on `Protocol` init."@,
    )
}

/// The state that the protocol keeps between reports.
#[derive(Clone, Debug)]
pub struct ProtocolState {
    /// Whether the host is still pairing with the controller.
    pub is_pairing: bool,
    /// Pace of the input reports.
    pub send_interval: Seconds,
    /// The input report mode that the host requested.
    pub report_mode: Option<u8>,
    /// The emulated controller's inputs.
    pub controller_state: ControllerState,
    /// The emulated SPI flash memory, if any.
    pub spi_flash: Option<SpiFlash>,
}

/// `mode`, or `current` when no mode is given.
pub open spec fn spec_resolve_mode(mode: Option<u8>, current: Option<u8>) -> Option<u8> {
    match mode {
        Some(_) => mode,
        None => current,
    }
}

/// The send interval after asking for `arg` (or, without one, for the
/// pace of `report_mode`), with the warnings raised.
pub open spec fn spec_interval_step(report_mode: Option<u8>, arg: Option<Seconds>) -> (
    Seconds,
    Seq<EventView>,
) {
    match arg {
        Some(i) => (i, Seq::empty()),
        None => match spec_interval_for(report_mode) {
            Some(i) => (i, Seq::empty()),
            None => (spec_fifteenth(), seq![spec_unknown_interval_warning(report_mode.unwrap())]),
        },
    }
}

/// Report mode change: the mode is kept when none is given; while pairing
/// the pace stays at 15 Hz, else it follows the mode.
pub open spec fn spec_set_report_mode(st: ProtocolState, mode: Option<u8>) -> (
    ProtocolState,
    Seq<EventView>,
) {
    let warn = if mode == Some(0x21u8) {
        seq![spec_standard_mode_warning()]
    } else {
        Seq::empty()
    };
    let rm = spec_resolve_mode(mode, st.report_mode);
    let arg = if st.is_pairing {
        Some(spec_fifteenth())
    } else {
        None
    };
    let (si, ev) = spec_interval_step(rm, arg);
    (ProtocolState { report_mode: rm, send_interval: si, ..st }, warn + ev)
}

/// Whether button bytes `b` press a button of `mask`: the bytes are read
/// big-endian after a zero byte.
pub open spec fn spec_presses_close_button(b: Seq<u8>, mask: u32) -> bool {
    spec_u32_be(0, b[4], b[5], b[6]) & mask != 0
}

/// State and events before writing a report with bytes `sent`: pairing ends
/// when a closing button is pressed, which resets the report mode's pace;
/// writing while paused is warned about. The flag tells whether pairing ended.
pub open spec fn spec_before_write(
    st: ProtocolState,
    controller_type: ControllerType,
    sent: Seq<u8>,
    paused: bool,
) -> (ProtocolState, Seq<EventView>, bool) {
    let ended = st.is_pairing && spec_presses_close_button(
        sent,
        controller_type.spec_close_pairing_masks(),
    );
    let (st2, ev) = if ended {
        let (s, e) = spec_set_report_mode(ProtocolState { is_pairing: false, ..st }, None);
        (s, e.push(EventView::Log(LogType::PairingEnded)))
    } else {
        (st, Seq::empty())
    };
    let ev2 = if paused {
        ev.push(EventView::Warning(ProtocolErrorView::WriteWhilePaused))
    } else {
        ev
    };
    (st2, ev2, ended)
}

/// Whether two states agree on everything but the pacing fields.
pub open spec fn spec_same_inputs(a: ProtocolState, b: ProtocolState) -> bool {
    &&& a.controller_state == b.controller_state
    &&& a.spi_flash == b.spi_flash
}

/// The text of an unknown-interval warning.
fn unknown_interval_message(mode: u8) -> (r: String)
    ensures
        spec_unknown_interval_warning(mode) == EventView::Warning(ProtocolErrorView::Invariant(r@)),
{
    let mut m = "unknown interval for report mode \"Some(".to_owned();
    push_decimal(&mut m, mode);
    m.append(")\", assuming it as 15hz.");
    m
}

impl ProtocolState {
    /// State at connection: a new pairing paces reports at 15 Hz, a
    /// reconnection sends none until a report mode is set.
    pub fn new(controller_state: ControllerState, spi_flash: Option<SpiFlash>, reconnect: bool) -> (r: Self)
        ensures
            r.is_pairing == !reconnect,
            r.send_interval == (if reconnect { Seconds::Infinite } else { spec_fifteenth() }),
            r.report_mode is None,
            r.controller_state == controller_state,
            r.spi_flash == spi_flash,
    {
        let send_interval = if reconnect {
            match SendInterval::new(None).to_byte() {
                Some(i) => i,
                None => vstd::pervasive::unreached(),
            }
        } else {
            SendInterval::default_byte()
        };
        ProtocolState {
            is_pairing: !reconnect,
            send_interval,
            report_mode: None,
            controller_state,
            spi_flash,
        }
    }

    /// State of a protocol for `controller_type`: a fresh SPI flash memory
    /// and a controller state calibrated from it.
    pub fn with_controller(controller_type: ControllerType, reconnect: bool) -> (r: Self)
        ensures
            r.is_pairing == !reconnect,
            r.send_interval == (if reconnect { Seconds::Infinite } else { spec_fifteenth() }),
            r.report_mode is None,
            r.spi_flash matches Some(f) && f.spec_data() == spec_with_factory_calibration(
                Seq::new(SPI_FLASH_SIZE as nat, |i: int| 0xFFu8),
            ),
            r.controller_state.spec_controller() == controller_type,
            r.controller_state.spec_button_state().spec_controller() == controller_type,
            r.controller_state.spec_button_state().spec_bytes() == seq![0u8, 0u8, 0u8],
            r.spi_flash matches Some(f) && spec_centered_on(
                r.controller_state.spec_l_stick_state(),
                spec_l_calibration(f.spec_data()),
            ) && spec_centered_on(
                r.controller_state.spec_r_stick_state(),
                spec_r_calibration(f.spec_data()),
            ),
    {
        let spi_flash = SpiFlash::new();
        let copy = spi_flash.clone();
        let controller_state = match ControllerState::with_config(
            ControllerStateConfig { controller: controller_type, spi_flash: Some(copy) },
        ) {
            Ok(s) => s,
            Err(_) => vstd::pervasive::unreached(),
        };
        Self::new(controller_state, Some(spi_flash), reconnect)
    }

    /// Sets the send interval to `interval`, or, without one, to the pace
    /// of the current report mode (15 Hz with a warning for unknown modes).
    pub fn set_send_interval(&mut self, interval: Option<Seconds>) -> (events: Vec<Event>)
        ensures
            final(self).send_interval == spec_interval_step(old(self).report_mode, interval).0,
            spec_events(events@) == spec_interval_step(old(self).report_mode, interval).1,
            final(self).report_mode == old(self).report_mode,
            final(self).is_pairing == old(self).is_pairing,
            spec_same_inputs(*final(self), *old(self)),
    {
        let mut events: Vec<Event> = Vec::new();
        match interval {
            Some(i) => {
                self.send_interval = i;
            },
            None => {
                match SendInterval::new(self.report_mode).to_byte() {
                    Some(i) => {
                        self.send_interval = i;
                    },
                    None => {
                        let mode = match self.report_mode {
                            Some(m) => m,
                            None => vstd::pervasive::unreached(),
                        };
                        events.push(
                            Event::Warning(ControllerProtocolError::Invariant(
                                unknown_interval_message(mode),
                            )),
                        );
                        self.send_interval = SendInterval::default_byte();
                    },
                }
            },
        }
        assert(spec_events(events@) =~= spec_interval_step(old(self).report_mode, interval).1);
        events
    }

    /// Sets the report mode (keeping the current one when `None`), then the
    /// pace: 15 Hz while pairing, else the mode's pace.
    pub fn set_report_mode(&mut self, mode: Option<u8>) -> (events: Vec<Event>)
        ensures
            *final(self) == spec_set_report_mode(*old(self), mode).0,
            spec_events(events@) == spec_set_report_mode(*old(self), mode).1,
    {
        let mut events: Vec<Event> = Vec::new();
        if mode == Some(0x21u8) {
            events.push(
                Event::Warning(ControllerProtocolError::Invariant(
                    "unexpectedly setting report mode for standard input reports.".to_owned(),
                )),
            );
        }
        let ghost warn = spec_events(events@);
        let resolved = match mode {
            Some(_) => mode,
            None => self.report_mode,
        };
        self.report_mode = resolved;
        let arg = if self.is_pairing {
            Some(SendInterval::default_byte())
        } else {
            None
        };
        let mut more = self.set_send_interval(arg);
        let ghost more_view = spec_events(more@);
        events.append(&mut more);
        assert(spec_events(events@) =~= warn + more_view);
        events
    }

    /// Bookkeeping before writing `report`: ends pairing when a closing
    /// button is pressed and warns about writes while paused. Tells whether
    /// pairing ended, after which the writer is woken.
    pub fn before_write(
        &mut self,
        controller_type: ControllerType,
        report: &InputReport,
        paused: bool,
    ) -> (r: (Vec<Event>, bool))
        requires
            report.spec_data().len() >= INPUT_REPORT_MIN_LEN,
            report.spec_data().len() >= spec_sent_len(
                InputReportId::spec_from_byte(report.spec_data()[1]),
            ),
        ensures
            ({
                let (st, ev, ended) = spec_before_write(
                    *old(self),
                    controller_type,
                    report.spec_data(),
                    paused,
                );
                &&& *final(self) == st
                &&& spec_events(r.0@) == ev
                &&& r.1 == ended
            }),
    {
        let sent = report.as_buf();
        let mask = controller_type.close_pairing_masks();
        let word = u32_from_be_bytes(0, sent[4], sent[5], sent[6]);
        let ended = self.is_pairing && (word & mask) != 0;
        let mut events: Vec<Event> = Vec::new();
        if ended {
            self.is_pairing = false;
            events = self.set_report_mode(None);
            events.push(Event::Log(LogType::PairingEnded));
        }
        if paused {
            events.push(Event::Warning(ControllerProtocolError::WriteWhilePaused));
        }
        proof {
            let (st, ev, e) = spec_before_write(*old(self), controller_type, report.spec_data(), paused);
            assert(spec_events(events@) =~= ev);
        }
        (events, ended)
    }
}

} // verus!

verus! {

/// The bytes of an input report generated for identifier `id` (not the
/// default one): header, id, timer modulo 256, battery/connection byte,
/// buttons, both sticks, vibrator byte; full modes zero the six-axis area,
/// and the NFC/IR mode fills its data with `0xFF`.
pub open spec fn spec_generated_report(cs: ControllerState, id: InputReportId, timer: u64) -> Seq<u8> {
    let base = Seq::new(
        INPUT_REPORT_FULL_LEN as nat,
        |i: int| if i == 0 { 0xA1u8 } else { 0u8 },
    );
    let b1 = base.update(1, id.spec_byte()).update(2, (timer % 0x100) as u8).update(3, 0x8Eu8);
    let b2 = spec_splice(b1, 4, cs.spec_button_state().spec_bytes());
    let l = cs.spec_l_stick_state();
    let r = cs.spec_r_stick_state();
    let b3 = spec_splice(
        spec_splice(b2, 7, spec_stick_bytes(l.spec_horizontal(), l.spec_vertical())),
        10,
        spec_stick_bytes(r.spec_horizontal(), r.spec_vertical()),
    );
    let b4 = b3.update(13, 0x80u8);
    match id {
        InputReportId::NfcIrMcu => spec_splice(
            spec_splice(b4, 14, Seq::new(36, |i: int| 0u8)),
            50,
            Seq::new(313, |i: int| 0xFFu8),
        ),
        InputReportId::Imu | InputReportId::Unknown1 | InputReportId::Unknown2 => spec_splice(
            b4,
            14,
            Seq::new(36, |i: int| 0u8),
        ),
        _ => b4,
    }
}

/// Report generation for `mode` (or the current report mode): the controller
/// state must belong to the protocol's controller type, a mode must be known
/// and name an input report.
pub open spec fn spec_generate(
    st: ProtocolState,
    controller_type: ControllerType,
    mode: Option<u8>,
    timer: u64,
) -> Result<Seq<u8>, ProtocolErrorView> {
    let rm = spec_resolve_mode(mode, st.report_mode);
    if controller_type != st.controller_state.spec_controller() {
        Err(spec_controller_mismatch_error())
    } else {
        match rm {
            None => Err(ProtocolErrorView::NoInputReportModeSupplied),
            Some(m) => match InputReportId::spec_from_byte(m) {
                None => Err(ProtocolErrorView::UnknownInputReportMode),
                Some(id) => Ok(spec_generated_report(st.controller_state, id, timer)),
            },
        }
    }
}

/// Generation stops with a panic for the default (0x3F) report, whose
/// filling never succeeds.
pub open spec fn spec_generate_defined(
    st: ProtocolState,
    controller_type: ControllerType,
    mode: Option<u8>,
) -> bool {
    !(controller_type == st.controller_state.spec_controller() && spec_resolve_mode(
        mode,
        st.report_mode,
    ) == Some(0x3Fu8))
}

impl ProtocolState {
    /// Builds the input report for `mode` (or the current report mode) from
    /// the controller state, with `timer` as the report timer.
    pub fn generate_input_report(
        &self,
        controller_type: ControllerType,
        mode: Option<u8>,
        timer: u64,
    ) -> (r: Result<InputReport, ControllerProtocolError>)
        requires
            spec_generate_defined(*self, controller_type, mode),
        ensures
            match spec_generate(*self, controller_type, mode, timer) {
                Ok(b) => r matches Ok(rep) && rep.spec_data() == b,
                Err(e) => r matches Err(x) && x@ == e,
            },
    {
        let mode = match mode {
            Some(_) => mode,
            None => self.report_mode,
        };
        if controller_type != self.controller_state.controller() {
            return Err(
                ControllerProtocolError::Invariant(
                    "supplied controller type in `ControllerState` does not match with one that's passed on `Protocol` init.".to_owned(),
                ),
            );
        }
        let Some(mode) = mode else {
            return Err(ControllerProtocolError::NoInputReportModeSupplied);
        };
        let mut report = InputReport::new();
        let Some(id) = InputReportId::from_byte(mode) else {
            return Err(ControllerProtocolError::UnknownInputReportMode);
        };
        report.set_input_report_id(id);
        report.set_timer(timer);
        report.set_misc();
        report.set_button(self.controller_state.button_state().as_bytes());
        report.set_analog_stick(
            Some(self.controller_state.l_stick_state().to_buf()),
            Some(self.controller_state.r_stick_state().to_buf()),
        );
        report.set_vibrator_input();
        match id {
            InputReportId::NfcIrMcu => {
                report.set_6axis_data();
                let fill = [0xFFu8; 313];
                assert(fill@ =~= Seq::new(313, |i: int| 0xFFu8));
                let _ = report.set_ir_nfc_data(fill.as_slice());
            },
            InputReportId::Imu | InputReportId::Unknown1 | InputReportId::Unknown2 => {
                report.set_6axis_data();
            },
            _ => {},
        }
        Ok(report)
    }
}

} // verus!

verus! {

/// The answer bytes written for NFC/IR MCU configuration.
pub open spec fn spec_nfc_ir_mcu_config_reply() -> Seq<u8> {
    seq![0x01u8, 0x00, 0xFF, 0x00, 0x08, 0x00, 0x1B, 0x01]
        + Seq::new(25, |i: int| 0u8)
        + seq![0xC8u8]
}

/// Elapsed times reported while pairing: the side triggers for a Joy-Con,
/// the shoulder triggers for a Pro Controller, three seconds each.
pub open spec fn spec_pairing_trigger_commands(ct: ControllerType) -> Seq<TriggerButtonsElapsedTimeCommand> {
    match ct {
        ControllerType::ProController => seq![
            TriggerButtonsElapsedTimeCommand::LeftTrigger(3000),
            TriggerButtonsElapsedTimeCommand::RightTrigger(3000),
        ],
        _ => seq![
            TriggerButtonsElapsedTimeCommand::SLeftTrigger(3000),
            TriggerButtonsElapsedTimeCommand::SRightTrigger(3000),
        ],
    }
}

/// What answering one subcommand does.
pub ghost struct CommandOutcome {
    pub state: ProtocolState,
    pub result: Result<Seq<u8>, ProtocolErrorView>,
    pub events: Seq<EventView>,
    pub writer_ready: bool,
    pub wake_writer: bool,
}

/// Offset requested by SPI flash read data: four little-endian bytes.
pub open spec fn spec_spi_offset(data: Seq<u8>) -> nat {
    spec_le32_value(data)
}

/// Whether answering `sub` with subcommand data `data` stays within the
/// data and the flash memory; outside them, answering would index out of range.
pub open spec fn spec_command_defined(st: ProtocolState, sub: Subcommand, data: Seq<u8>) -> bool {
    match sub {
        Subcommand::SetInputReportMode | Subcommand::SetNfcIrMcuState
        | Subcommand::EnableVibration => data.len() >= 1,
        Subcommand::SpiFlashRead => data.len() >= 5 && (st.spi_flash matches Some(f)
            ==> spec_spi_offset(data) + data[4] <= f.spec_data().len()),
        _ => true,
    }
}

/// The answer to subcommand `sub` with data `data`, written into the reply
/// bytes `b`: an acknowledgement byte, the subcommand answered and its data.
pub open spec fn spec_command(
    st: ProtocolState,
    ct: ControllerType,
    dev: Address,
    sub: Subcommand,
    data: Seq<u8>,
    b: Seq<u8>,
) -> CommandOutcome {
    let plain = |ack: u8, id: u8|
        CommandOutcome {
            state: st,
            result: Ok(b.update(14, ack).update(15, id)),
            events: Seq::empty(),
            writer_ready: false,
            wake_writer: false,
        };
    match sub {
        Subcommand::RequestDeviceInfo => CommandOutcome {
            state: st,
            result: Ok(
                spec_splice(
                    b.update(14, 0x82u8).update(15, 0x02u8),
                    SUBCOMMAND_OFFSET as int,
                    InputReport::spec_device_info(dev.0, None, ct),
                ),
            ),
            events: Seq::empty(),
            writer_ready: false,
            wake_writer: false,
        },
        Subcommand::SetInputReportMode => {
            let mode = data[0];
            let dup = if st.report_mode == Some(mode) {
                seq![EventView::Warning(ProtocolErrorView::DuplicatedReportModeSet)]
            } else {
                Seq::empty()
            };
            let (st2, ev) = spec_set_report_mode(st, Some(mode));
            CommandOutcome {
                state: st2,
                result: Ok(b.update(14, 0x80u8).update(15, 0x03u8)),
                events: dup + ev,
                writer_ready: false,
                wake_writer: true,
            }
        },
        Subcommand::TriggerButtonsElapsedTime => CommandOutcome {
            state: st,
            result: Ok(
                spec_apply_trigger_commands(
                    b.update(14, 0x83u8).update(15, 0x04u8),
                    spec_pairing_trigger_commands(ct),
                ).0,
            ),
            events: Seq::empty(),
            writer_ready: false,
            wake_writer: false,
        },
        Subcommand::SetShipmentState => plain(0x80u8, 0x08u8),
        Subcommand::SpiFlashRead => {
            let offset = spec_spi_offset(data);
            let size = data[4];
            let read = match st.spi_flash {
                Some(f) => f.spec_data().subrange(offset as int, offset + size),
                None => Seq::new(size as nat, |i: int| 0u8),
            };
            CommandOutcome {
                state: st,
                result: if size > 0x1D {
                    Err(ProtocolErrorView::Internal(
                        ControllerProtocolInternalError::Report(ReportError::OutOfBounds),
                    ))
                } else {
                    Ok(
                        spec_splice(
                            b.update(14, 0x90u8).update(15, 0x10u8),
                            SUBCOMMAND_OFFSET as int,
                            spec_le32(offset).push(size) + read,
                        ),
                    )
                },
                events: Seq::empty(),
                writer_ready: false,
                wake_writer: false,
            }
        },
        Subcommand::SetNfcIrMcuConfig => CommandOutcome {
            state: st,
            result: Ok(
                spec_splice(
                    b.update(14, 0xA0u8).update(15, 0x21u8),
                    SUBCOMMAND_OFFSET as int,
                    spec_nfc_ir_mcu_config_reply(),
                ),
            ),
            events: Seq::empty(),
            writer_ready: false,
            wake_writer: false,
        },
        Subcommand::SetNfcIrMcuState => {
            let command = data[0];
            if command == 0 || command == 1 {
                plain(0x80u8, 0x22u8)
            } else {
                CommandOutcome {
                    state: st,
                    result: Ok(b),
                    events: seq![spec_nfc_state_warning(command)],
                    writer_ready: false,
                    wake_writer: false,
                }
            }
        },
        Subcommand::SetPlayerLights => CommandOutcome {
            writer_ready: true,
            ..plain(0x80u8, 0x30u8)
        },
        Subcommand::Enable6AxisSensor => plain(0x80u8, 0x40u8),
        Subcommand::EnableVibration => {
            let arg = if data[0] == 1 {
                Some(spec_fifteenth())
            } else {
                None
            };
            let (si, ev) = spec_interval_step(st.report_mode, arg);
            CommandOutcome {
                state: ProtocolState { send_interval: si, ..st },
                result: Ok(b.update(14, 0x80u8).update(15, 0x48u8)),
                events: ev,
                writer_ready: false,
                wake_writer: false,
            }
        },
        _ => CommandOutcome {
            state: st,
            result: Ok(b),
            events: Seq::empty(),
            writer_ready: false,
            wake_writer: false,
        },
    }
}

/// What answering an output report does.
pub ghost struct ReplyOutcome {
    pub state: ProtocolState,
    pub events: Seq<EventView>,
    /// The reply to write, if any.
    pub result: Result<Option<Seq<u8>>, ProtocolErrorView>,
    pub writer_ready: bool,
    pub wake_writer: bool,
}

/// Whether a subcommand gets an answer.
pub open spec fn spec_is_answered(s: Subcommand) -> bool {
    !(s is SetHciState || s is Empty)
}

/// The answer to the subcommand of output report `out`: an unknown
/// subcommand byte is warned about; otherwise the subcommand is logged, the
/// report must carry subcommand data, a standard (0x21) report is generated
/// and the subcommand is answered into it, unless it is unsupported.
pub open spec fn spec_reply(
    st: ProtocolState,
    ct: ControllerType,
    dev: Address,
    out: Seq<u8>,
    timer: u64,
) -> ReplyOutcome {
    let sub = if out.len() < 12 {
        Some(Subcommand::Empty)
    } else {
        Subcommand::spec_from_byte(out[11])
    };
    let none = ReplyOutcome {
        state: st,
        events: Seq::empty(),
        result: Ok(None),
        writer_ready: false,
        wake_writer: false,
    };
    match sub {
        None => ReplyOutcome { events: seq![spec_unknown_subcommand_warning()], ..none },
        Some(s) => {
            let ev0 = seq![EventView::Log(LogType::SubcommandReceived(s))];
            if out.len() < 12 {
                ReplyOutcome {
                    events: ev0,
                    result: Err(
                        ProtocolErrorView::Internal(
                            ControllerProtocolInternalError::Report(ReportError::NoDataAvailable),
                        ),
                    ),
                    ..none
                }
            } else {
                match spec_generate(st, ct, Some(0x21u8), timer) {
                    Err(e) => ReplyOutcome { events: ev0, result: Err(e), ..none },
                    Ok(b) => if !spec_is_answered(s) {
                        ReplyOutcome { events: ev0.push(spec_unsupported_warning(s)), ..none }
                    } else {
                        let c = spec_command(st, ct, dev, s, out.subrange(12, out.len() as int), b);
                        ReplyOutcome {
                            state: c.state,
                            events: ev0 + c.events,
                            result: match c.result {
                                Ok(bytes) => Ok(Some(bytes)),
                                Err(e) => Err(e),
                            },
                            writer_ready: c.writer_ready,
                            wake_writer: c.wake_writer,
                        }
                    },
                }
            }
        },
    }
}

/// Whether answering `out` stays within the data it indexes.
pub open spec fn spec_reply_defined(st: ProtocolState, ct: ControllerType, out: Seq<u8>) -> bool {
    out.len() >= 12 && ct == st.controller_state.spec_controller() ==> match Subcommand::spec_from_byte(out[11]) {
        Some(s) => spec_command_defined(st, s, out.subrange(12, out.len() as int)),
        None => true,
    }
}

/// The answer to one output report.
pub struct SubcommandReply {
    /// Events raised while answering.
    pub events: Vec<Event>,
    /// The reply to write, if any.
    pub result: Result<Option<InputReport>, ControllerProtocolError>,
    /// Whether the writer may start sending regular reports.
    pub writer_ready: bool,
    /// Whether the report mode was set, which wakes the writer.
    pub wake_writer: bool,
}

fn nfc_state_message(command: u8) -> (r: String)
    ensures
        spec_nfc_state_warning(command) == EventView::Warning(ProtocolErrorView::NotImplemented(r@)),
{
    let mut m = "command \"".to_owned();
    push_decimal(&mut m, command);
    m.append("\" for Subcommand NFC IR is not implemented.");
    m
}

fn unsupported_message(s: Subcommand) -> (r: String)
    ensures
        spec_unsupported_warning(s) == EventView::Warning(ProtocolErrorView::NotImplemented(r@)),
{
    let mut m = "unsupported subcommand: \"".to_owned();
    let name = s.to_string();
    m.append(name.as_str());
    m.append("\", ignoring.");
    m
}

impl ProtocolState {
    /// Answers subcommand `sub` with data `data` into `report`.
    fn answer_command(
        &mut self,
        ct: ControllerType,
        dev: Address,
        sub: Subcommand,
        data: &[u8],
        report: &mut InputReport,
    ) -> (r: (Vec<Event>, Result<(), ControllerProtocolError>, bool, bool))
        requires
            old(report).spec_data().len() == INPUT_REPORT_FULL_LEN,
            spec_command_defined(*old(self), sub, data@),
            spec_is_answered(sub),
        ensures
            ({
                let c = spec_command(*old(self), ct, dev, sub, data@, old(report).spec_data());
                &&& *final(self) == c.state
                &&& spec_events(r.0@) == c.events
                &&& match c.result {
                    Ok(bytes) => r.1 is Ok && final(report).spec_data() == bytes,
                    Err(e) => r.1 matches Err(x) && x@ == e,
                }
                &&& r.2 == c.writer_ready
                &&& r.3 == c.wake_writer
            }),
    {
        let ghost b = report.spec_data();
        let mut events: Vec<Event> = Vec::new();
        assert(spec_events(events@) =~= Seq::<EventView>::empty());
        match sub {
            Subcommand::RequestDeviceInfo => {
                report.set_ack(0x82);
                let _ = report.sub_0x02_device_info(dev.0, None, ct);
                (events, Ok(()), false, false)
            },
            Subcommand::SetInputReportMode => {
                let mode = data[0];
                if self.report_mode == Some(mode) {
                    events.push(Event::Warning(ControllerProtocolError::DuplicatedReportModeSet));
                }
                let ghost dup = spec_events(events@);
                let mut more = self.set_report_mode(Some(mode));
                let ghost more_view = spec_events(more@);
                events.append(&mut more);
                assert(spec_events(events@) =~= dup + more_view);
                report.set_ack(0x80);
                let _ = report.set_response_subcommand(Subcommand::SetInputReportMode);
                (events, Ok(()), false, true)
            },
            Subcommand::TriggerButtonsElapsedTime => {
                report.set_ack(0x83);
                let _ = report.set_response_subcommand(Subcommand::TriggerButtonsElapsedTime);
                let ghost before = report.spec_data();
                let commands = match ct {
                    ControllerType::ProController => [
                        TriggerButtonsElapsedTimeCommand::LeftTrigger(3000),
                        TriggerButtonsElapsedTimeCommand::RightTrigger(3000),
                    ],
                    _ => [
                        TriggerButtonsElapsedTimeCommand::SLeftTrigger(3000),
                        TriggerButtonsElapsedTimeCommand::SRightTrigger(3000),
                    ],
                };
                assert(commands@ =~= spec_pairing_trigger_commands(ct));
                proof {
                    lemma_pairing_triggers_fit(before, ct);
                }
                let _ = report.sub_0x04_trigger_buttons_elapsed_time(commands.as_slice());
                (events, Ok(()), false, false)
            },
            Subcommand::SetShipmentState => {
                report.set_ack(0x80);
                let _ = report.set_response_subcommand(Subcommand::SetShipmentState);
                (events, Ok(()), false, false)
            },
            Subcommand::SpiFlashRead => {
                report.set_ack(0x90);
                let offset: u64 = (data[0] as u64) + (data[1] as u64) * 0x100 + (data[2] as u64)
                    * 0x10000 + (data[3] as u64) * 0x1000000;
                let size = data[4];
                let res = match &self.spi_flash {
                    Some(flash) => {
                        let all = flash.data();
                        let n = all.len();
                        assert(offset + size <= n);
                        let read = vstd::slice::slice_subrange(
                            all,
                            offset as usize,
                            (offset + size as u64) as usize,
                        );
                        report.sub_0x10_spi_flash_read(offset, size, read)
                    },
                    None => {
                        let zeros: Vec<u8> = vec![0u8; size as usize];
                        assert(zeros@ =~= Seq::new(size as nat, |i: int| 0u8));
                        report.sub_0x10_spi_flash_read(offset, size, zeros.as_slice())
                    },
                };
                match res {
                    Ok(()) => (events, Ok(()), false, false),
                    Err(e) => (events, Err(ControllerProtocolError::from(e)), false, false),
                }
            },
            Subcommand::SetNfcIrMcuConfig => {
                report.set_ack(0xA0);
                let _ = report.set_response_subcommand(Subcommand::SetNfcIrMcuConfig);
                let config: [u8; 34] = [
                    0x01, 0x00, 0xFF, 0x00, 0x08, 0x00, 0x1B, 0x01, 0x00, 0x00, 0x00, 0x00, 0x00,
                    0x00, 0x00, 0x00, 0x00, 0x00, 0x00, 0x00, 0x00, 0x00, 0x00, 0x00, 0x00, 0x00,
                    0x00, 0x00, 0x00, 0x00, 0x00, 0x00, 0x00, 0xC8,
                ];
                assert(config@ =~= spec_nfc_ir_mcu_config_reply());
                report.put(SUBCOMMAND_OFFSET, config.as_slice());
                (events, Ok(()), false, false)
            },
            Subcommand::SetNfcIrMcuState => {
                let command = data[0];
                if command == 0x01 || command == 0x00 {
                    report.set_ack(0x80);
                    let _ = report.set_response_subcommand(Subcommand::SetNfcIrMcuState);
                } else {
                    events.push(
                        Event::Warning(ControllerProtocolError::NotImplemented(
                            nfc_state_message(command),
                        )),
                    );
                    assert(spec_events(events@) =~= seq![spec_nfc_state_warning(command)]);
                }
                (events, Ok(()), false, false)
            },
            Subcommand::SetPlayerLights => {
                report.set_ack(0x80);
                let _ = report.set_response_subcommand(Subcommand::SetPlayerLights);
                (events, Ok(()), true, false)
            },
            Subcommand::Enable6AxisSensor => {
                report.set_ack(0x80);
                let _ = report.set_response_subcommand(Subcommand::Enable6AxisSensor);
                (events, Ok(()), false, false)
            },
            Subcommand::EnableVibration => {
                let command = data[0];
                let arg = if command == 0x01 {
                    Some(SendInterval::default_byte())
                } else {
                    None
                };
                let events = self.set_send_interval(arg);
                report.set_ack(0x80);
                let _ = report.set_response_subcommand(Subcommand::EnableVibration);
                (events, Ok(()), false, false)
            },
            _ => (events, Ok(()), false, false),
        }
    }

    /// Answers the subcommand of an output report from the host. Returns the
    /// events raised and the reply to write; `timer` stamps the reply.
    pub fn reply_to_subcommand(
        &mut self,
        controller_type: ControllerType,
        dev_addr: Address,
        output_report: &OutputReport,
        timer: u64,
    ) -> (r: SubcommandReply)
        requires
            spec_reply_defined(*old(self), controller_type, output_report.spec_data()),
        ensures
            ({
                let o = spec_reply(
                    *old(self),
                    controller_type,
                    dev_addr,
                    output_report.spec_data(),
                    timer,
                );
                &&& *final(self) == o.state
                &&& spec_events(r.events@) == o.events
                &&& match o.result {
                    Ok(None) => r.result matches Ok(None),
                    Ok(Some(bytes)) => r.result matches Ok(Some(rep)) && rep.spec_data() == bytes,
                    Err(e) => r.result matches Err(x) && x@ == e,
                }
                &&& r.writer_ready == o.writer_ready
                &&& r.wake_writer == o.wake_writer
            }),
    {
        let mut events: Vec<Event> = Vec::new();
        let Some(sub) = output_report.subcommand() else {
            events.push(
                Event::Warning(ControllerProtocolError::NotImplemented(
                    "Unknown subcommand received.".to_owned(),
                )),
            );
            assert(spec_events(events@) =~= seq![spec_unknown_subcommand_warning()]);
            return SubcommandReply { events, result: Ok(None), writer_ready: false, wake_writer: false };
        };
        events.push(Event::Log(LogType::SubcommandReceived(sub)));
        let ghost ev0 = spec_events(events@);
        assert(ev0 =~= seq![EventView::Log(LogType::SubcommandReceived(sub))]);
        let data = match output_report.subcommand_data() {
            Ok(d) => d,
            Err(e) => {
                return SubcommandReply {
                    events,
                    result: Err(ControllerProtocolError::from(e)),
                    writer_ready: false,
                    wake_writer: false,
                };
            },
        };
        let mut report = match self.generate_input_report(controller_type, Some(0x21), timer) {
            Ok(rep) => rep,
            Err(e) => {
                return SubcommandReply { events, result: Err(e), writer_ready: false, wake_writer: false };
            },
        };
        match sub {
            Subcommand::SetHciState | Subcommand::Empty => {
                events.push(
                    Event::Warning(ControllerProtocolError::NotImplemented(unsupported_message(sub))),
                );
                assert(spec_events(events@) =~= ev0.push(spec_unsupported_warning(sub)));
                return SubcommandReply { events, result: Ok(None), writer_ready: false, wake_writer: false };
            },
            _ => {},
        }
        proof {
            lemma_generated_len(self.controller_state, InputReportId::Standard, timer);
        }
        let (mut more, res, writer_ready, wake_writer) = self.answer_command(
            controller_type,
            dev_addr,
            sub,
            data,
            &mut report,
        );
        let ghost more_view = spec_events(more@);
        events.append(&mut more);
        assert(spec_events(events@) =~= ev0 + more_view);
        match res {
            Ok(()) => SubcommandReply { events, result: Ok(Some(report)), writer_ready, wake_writer },
            Err(e) => SubcommandReply { events, result: Err(e), writer_ready, wake_writer },
        }
    }
}

/// Generated reports have the full length.
proof fn lemma_generated_len(cs: ControllerState, id: InputReportId, timer: u64)
    ensures
        spec_generated_report(cs, id, timer).len() == INPUT_REPORT_FULL_LEN,
{
    ButtonState::lemma_bytes_len(cs.spec_button_state());
    let base = Seq::new(
        INPUT_REPORT_FULL_LEN as nat,
        |i: int| if i == 0 { 0xA1u8 } else { 0u8 },
    );
    let b1 = base.update(1, id.spec_byte()).update(2, (timer % 0x100) as u8).update(3, 0x8Eu8);
    assert(b1.len() == 363);
    let b2 = spec_splice(b1, 4, cs.spec_button_state().spec_bytes());
    assert(b2.len() == 363);
    let l = cs.spec_l_stick_state();
    let r = cs.spec_r_stick_state();
    let b3a = spec_splice(b2, 7, spec_stick_bytes(l.spec_horizontal(), l.spec_vertical()));
    assert(b3a.len() == 363);
    let b3 = spec_splice(b3a, 10, spec_stick_bytes(r.spec_horizontal(), r.spec_vertical()));
    assert(b3.len() == 363);
    let b4 = b3.update(13, 0x80u8);
    let z = spec_splice(b4, 14, Seq::new(36, |i: int| 0u8));
    assert(z.len() == 363);
    assert(spec_splice(z, 50, Seq::new(313, |i: int| 0xFFu8)).len() == 363);
}

/// The pairing trigger times fit the reply, so writing them cannot fail.
proof fn lemma_pairing_triggers_fit(b: Seq<u8>, ct: ControllerType)
    ensures
        spec_apply_trigger_commands(b, spec_pairing_trigger_commands(ct)).1,
{
    let cmds = spec_pairing_trigger_commands(ct);
    assert(cmds.drop_last().drop_last() =~= Seq::<TriggerButtonsElapsedTimeCommand>::empty());
    assert(spec_apply_trigger_commands(b, cmds.drop_last().drop_last()).1);
    assert(spec_apply_trigger_commands(b, cmds.drop_last()).1);
}

} // verus!

verus! {

/// Settings of a controller protocol.
#[derive(Clone, Copy, Debug)]
pub struct ControllerProtocolConfig {
    pub controller_type: ControllerType,
    pub dev_address: Address,
    pub reconnect: bool,
}

impl Default for ControllerProtocolConfig {
    fn default() -> (r: Self)
        ensures
            r.controller_type == ControllerType::ProController,
            r.dev_address.0@ == seq![0u8, 0u8, 0u8, 0u8, 0u8, 0u8],
            !r.reconnect,
    {
        ControllerProtocolConfig {
            controller_type: ControllerType::ProController,
            dev_address: Address::any(),
            reconnect: false,
        }
    }
}

impl ProtocolState {
    /// The state a protocol starts from under `config`: that of
    /// `with_controller` for its controller type and reconnection flag.
    pub fn from_config(config: &ControllerProtocolConfig) -> (r: Self)
        ensures
            r.is_pairing == !config.reconnect,
            r.send_interval == (if config.reconnect { Seconds::Infinite } else { spec_fifteenth() }),
            r.report_mode is None,
            r.spi_flash matches Some(f) && f.spec_data() == spec_with_factory_calibration(
                Seq::new(SPI_FLASH_SIZE as nat, |i: int| 0xFFu8),
            ),
            r.controller_state.spec_controller() == config.controller_type,
            r.controller_state.spec_button_state().spec_controller() == config.controller_type,
            r.controller_state.spec_button_state().spec_bytes() == seq![0u8, 0u8, 0u8],
            r.spi_flash matches Some(f) && spec_centered_on(
                r.controller_state.spec_l_stick_state(),
                spec_l_calibration(f.spec_data()),
            ) && spec_centered_on(
                r.controller_state.spec_r_stick_state(),
                spec_r_calibration(f.spec_data()),
            ),
    {
        Self::with_controller(config.controller_type, config.reconnect)
    }
}

} // verus!

verus! {

/// Warning for a request to the NFC/IR MCU, which is not answered.
pub open spec fn spec_ir_nfc_request_warning() -> EventView {
    EventView::Warning(
        ProtocolErrorView::NotImplemented(
            "attempting to request subcommand: RequestIrNfcMcu, which is not implemented, ignoring."@,
        ),
    )
}

/// What a buffer read from the host asks of the protocol.
pub ghost enum ReadStep {
    /// Answer the subcommand of the report with these bytes.
    Reply(Seq<u8>),
    /// Nothing: the report carries rumble data only.
    Ignore,
    /// Raise this event and read on.
    Warn(EventView),
}

/// Sorting a buffer read from the host: one that is no output report, or
/// whose id is unknown, is warned about; subcommand reports are answered;
/// rumble reports are ignored; NFC/IR MCU requests are warned about.
pub open spec fn spec_read_step(raw: Seq<u8>) -> ReadStep {
    if raw.len() < OUTPUT_REPORT_MIN_LEN || raw[0] != 0xA2 {
        ReadStep::Warn(EventView::Warning(ProtocolErrorView::OutputReportParseFailed))
    } else {
        match OutputReportId::spec_from_byte(raw[1]) {
            None => ReadStep::Warn(EventView::Warning(ProtocolErrorView::OutputReportIdParseFailed)),
            Some(OutputReportId::SubCommand) => ReadStep::Reply(raw),
            Some(OutputReportId::RumbleOnly) => ReadStep::Ignore,
            Some(OutputReportId::RequestIrNfcMcu) => ReadStep::Warn(spec_ir_nfc_request_warning()),
        }
    }
}

/// Whether processing `raw` stays within the data that answering indexes.
pub open spec fn spec_read_defined(st: ProtocolState, ct: ControllerType, raw: Seq<u8>) -> bool {
    spec_read_step(raw) matches ReadStep::Reply(b) ==> spec_reply_defined(st, ct, b)
}

impl ProtocolState {
    /// Whether `reply_to_subcommand` is defined on `out`: a reply to an
    /// SPI flash read stays within the flash memory, and the subcommands
    /// that read data have some.
    pub fn reply_defined(&self, controller_type: ControllerType, out: &OutputReport) -> (r: bool)
        ensures
            r == spec_reply_defined(*self, controller_type, out.spec_data()),
    {
        let bytes = out.data();
        if bytes.len() < 12 || controller_type != self.controller_state.controller() {
            return true;
        }
        let data = vstd::slice::slice_subrange(bytes, 12, bytes.len());
        match Subcommand::from_byte(bytes[11]) {
            Some(Subcommand::SetInputReportMode)
            | Some(Subcommand::SetNfcIrMcuState)
            | Some(Subcommand::EnableVibration) => data.len() >= 1,
            Some(Subcommand::SpiFlashRead) => {
                if data.len() < 5 {
                    return false;
                }
                let offset: u64 = (data[0] as u64) + (data[1] as u64) * 0x100 + (data[2] as u64)
                    * 0x10000 + (data[3] as u64) * 0x1000000;
                proof {
                    assert(offset == spec_spi_offset(data@)) by {
                        assert(spec_le32_value(data@) == data@[0] + data@[1] * 0x100 + data@[2]
                            * 0x10000 + data@[3] * 0x1000000);
                    }
                }
                match &self.spi_flash {
                    Some(flash) => offset + (data[4] as u64) <= flash.data().len() as u64,
                    None => true,
                }
            },
            _ => true,
        }
    }

    /// Whether `process_read` is defined on `raw`.
    pub fn read_defined(&self, controller_type: ControllerType, raw: &[u8]) -> (r: bool)
        ensures
            r == spec_read_defined(*self, controller_type, raw@),
    {
        match OutputReport::with_raw(raw) {
            Ok(report) => match report.output_report_id() {
                Some(OutputReportId::SubCommand) => self.reply_defined(controller_type, &report),
                _ => true,
            },
            Err(_) => true,
        }
    }

    /// Processes a buffer read from the host: warns about what is no
    /// output report or has an unknown id, answers a subcommand report as
    /// `reply_to_subcommand` does, ignores rumble, and warns about NFC/IR
    /// MCU requests.
    pub fn process_read(
        &mut self,
        controller_type: ControllerType,
        dev_addr: Address,
        raw: &[u8],
        timer: u64,
    ) -> (r: SubcommandReply)
        requires
            spec_read_defined(*old(self), controller_type, raw@),
        ensures
            match spec_read_step(raw@) {
                ReadStep::Reply(b) => {
                    let o = spec_reply(*old(self), controller_type, dev_addr, b, timer);
                    &&& *final(self) == o.state
                    &&& spec_events(r.events@) == o.events
                    &&& match o.result {
                        Ok(None) => r.result matches Ok(None),
                        Ok(Some(bytes)) => r.result matches Ok(Some(rep)) && rep.spec_data() == bytes,
                        Err(e) => r.result matches Err(x) && x@ == e,
                    }
                    &&& r.writer_ready == o.writer_ready
                    &&& r.wake_writer == o.wake_writer
                },
                ReadStep::Ignore => {
                    &&& *final(self) == *old(self)
                    &&& r.events@.len() == 0
                    &&& r.result matches Ok(None)
                    &&& !r.writer_ready
                    &&& !r.wake_writer
                },
                ReadStep::Warn(e) => {
                    &&& *final(self) == *old(self)
                    &&& spec_events(r.events@) == seq![e]
                    &&& r.result matches Ok(None)
                    &&& !r.writer_ready
                    &&& !r.wake_writer
                },
            },
    {
        let mut events: Vec<Event> = Vec::new();
        let report = match OutputReport::with_raw(raw) {
            Ok(rep) => rep,
            Err(_) => {
                events.push(Event::Warning(ControllerProtocolError::OutputReportParseFailed));
                assert(spec_events(events@) =~= seq![
                    EventView::Warning(ProtocolErrorView::OutputReportParseFailed),
                ]);
                return SubcommandReply { events, result: Ok(None), writer_ready: false, wake_writer: false };
            },
        };
        match report.output_report_id() {
            Some(OutputReportId::SubCommand) => {
                self.reply_to_subcommand(controller_type, dev_addr, &report, timer)
            },
            Some(OutputReportId::RumbleOnly) => {
                SubcommandReply { events, result: Ok(None), writer_ready: false, wake_writer: false }
            },
            Some(OutputReportId::RequestIrNfcMcu) => {
                events.push(
                    Event::Warning(ControllerProtocolError::NotImplemented(
                        "attempting to request subcommand: RequestIrNfcMcu, which is not implemented, ignoring.".to_owned(),
                    )),
                );
                assert(spec_events(events@) =~= seq![spec_ir_nfc_request_warning()]);
                SubcommandReply { events, result: Ok(None), writer_ready: false, wake_writer: false }
            },
            None => {
                events.push(Event::Warning(ControllerProtocolError::OutputReportIdParseFailed));
                assert(spec_events(events@) =~= seq![
                    EventView::Warning(ProtocolErrorView::OutputReportIdParseFailed),
                ]);
                SubcommandReply { events, result: Ok(None), writer_ready: false, wake_writer: false }
            },
        }
    }
}

} // verus!

verus! {

/// Pairing ends exactly when the host is pairing and the report sent
/// presses a closing button of the controller; once ended it stays ended,
/// and a write outside pairing changes no state.
pub proof fn law_pairing_ends_on_close_button(
    st: ProtocolState,
    controller_type: ControllerType,
    sent: Seq<u8>,
    paused: bool,
)
    ensures
        ({
            let (st2, ev, ended) = spec_before_write(st, controller_type, sent, paused);
            &&& ended == (st.is_pairing && spec_presses_close_button(
                sent,
                controller_type.spec_close_pairing_masks(),
            ))
            &&& st2.is_pairing == (st.is_pairing && !ended)
            &&& !st.is_pairing ==> st2 == st
            &&& spec_same_inputs(st2, st)
        }),
{
}

/// Setting no report mode keeps the current one; setting one takes it.
/// While pairing, reports are paced at 15 Hz whatever the mode.
pub proof fn law_report_mode_setting(st: ProtocolState, mode: Option<u8>)
    ensures
        ({
            let (st2, ev) = spec_set_report_mode(st, mode);
            &&& st2.report_mode == (match mode {
                Some(m) => Some(m),
                None => st.report_mode,
            })
            &&& st.is_pairing ==> st2.send_interval == spec_fifteenth()
            &&& st2.is_pairing == st.is_pairing
            &&& spec_same_inputs(st2, st)
        }),
{
}

} // verus!

verus! {

/// An SPI flash read request that `OutputReport::sub_0x10_spi_flash_read`
/// writes into report bytes `b` is read by the protocol as a subcommand
/// report asking for the same offset and size.
pub proof fn law_spi_read_request_read_back(b: Seq<u8>, offset: u32, size: u8)
    requires
        b.len() >= 17,
    ensures
        ({
            let req = spec_splice(
                b.update(1, 0x01u8).update(11, 0x10u8),
                12,
                spec_le32(offset as nat).push(size),
            );
            let data = req.subrange(12, req.len() as int);
            &&& req.len() == b.len()
            &&& OutputReportId::spec_from_byte(req[1]) == Some(OutputReportId::SubCommand)
            &&& Subcommand::spec_from_byte(req[11]) == Some(Subcommand::SpiFlashRead)
            &&& spec_spi_offset(data) == offset
            &&& data[4] == size
        }),
{
    let req = spec_splice(
        b.update(1, 0x01u8).update(11, 0x10u8),
        12,
        spec_le32(offset as nat).push(size),
    );
    let data = req.subrange(12, req.len() as int);
    assert(data.subrange(0, 5) =~= spec_le32(offset as nat).push(size));
    assert(data[0] == spec_le32(offset as nat)[0]);
    assert(data[1] == spec_le32(offset as nat)[1]);
    assert(data[2] == spec_le32(offset as nat)[2]);
    assert(data[3] == spec_le32(offset as nat)[3]);
    crate::bytes_spec::lemma_le32_roundtrip(offset as nat);
}

/// The answer to an SPI flash read of at most 0x1D bytes acknowledges it
/// and carries the offset and size asked for, followed by the bytes of the
/// flash memory at that offset.
pub proof fn law_spi_read_answers_flash_bytes(
    st: ProtocolState,
    ct: ControllerType,
    dev: Address,
    data: Seq<u8>,
    b: Seq<u8>,
)
    requires
        b.len() == INPUT_REPORT_FULL_LEN,
        spec_command_defined(st, Subcommand::SpiFlashRead, data),
        data[4] <= 0x1D,
        st.spi_flash is Some,
    ensures
        ({
            let offset = spec_spi_offset(data);
            let size = data[4] as int;
            let f = st.spi_flash->0;
            match spec_command(st, ct, dev, Subcommand::SpiFlashRead, data, b).result {
                Ok(r) => {
                    &&& r.len() == b.len()
                    &&& r[14] == 0x90 && r[15] == 0x10
                    &&& r.subrange(16, 20) == spec_le32(offset)
                    &&& r[20] == data[4]
                    &&& r.subrange(21, 21 + size) == f.spec_data().subrange(offset as int, offset + size)
                },
                Err(_) => false,
            }
        }),
{
    let offset = spec_spi_offset(data);
    let size = data[4] as int;
    let f = st.spi_flash->0;
    let read = f.spec_data().subrange(offset as int, offset + size);
    let head = b.update(14, 0x90u8).update(15, 0x10u8);
    let src = spec_le32(offset).push(data[4]) + read;
    let r = spec_splice(head, SUBCOMMAND_OFFSET as int, src);
    assert(r.subrange(16, 20) =~= spec_le32(offset));
    assert(r.subrange(21, 21 + size) =~= read);
}

/// Outside pairing, setting a full report mode (0x30 or 0x31) paces the
/// reports at 1/15 s without a warning, and setting 0x21 stops periodic
/// sending.
pub proof fn law_full_modes_paced_after_pairing(st: ProtocolState, mode: u8)
    requires
        !st.is_pairing,
    ensures
        ({
            let (st2, ev) = spec_set_report_mode(st, Some(mode));
            &&& (mode == 0x30 || mode == 0x31) ==> st2.send_interval == Seconds::Fraction {
                num: 1,
                den: 15,
            } && ev.len() == 0
            &&& mode == 0x21 ==> st2.send_interval == Seconds::Infinite
        }),
{
    crate::controller::interval::law_report_mode_paces(mode);
}

/// Suspending (0x00) or resuming (0x01) the NFC/IR MCU is acknowledged:
/// the reply carries ack 0x80 for subcommand 0x22 and nothing is raised.
/// Any other command byte gets no acknowledgement and one warning.
pub proof fn law_nfc_ir_mcu_state_answer(
    st: ProtocolState,
    ct: ControllerType,
    dev: Address,
    data: Seq<u8>,
    b: Seq<u8>,
)
    requires
        data.len() >= 1,
        b.len() == INPUT_REPORT_FULL_LEN,
    ensures
        ({
            let c = spec_command(st, ct, dev, Subcommand::SetNfcIrMcuState, data, b);
            &&& c.state == st
            &&& (data[0] == 0x00 || data[0] == 0x01) ==> {
                &&& c.result == Ok::<Seq<u8>, ProtocolErrorView>(b.update(14, 0x80u8).update(15, 0x22u8))
                &&& c.events.len() == 0
            }
            &&& !(data[0] == 0x00 || data[0] == 0x01) ==> {
                &&& c.result == Ok::<Seq<u8>, ProtocolErrorView>(b)
                &&& c.events.len() == 1
                &&& c.events[0] is Warning
            }
        }),
{
}

/// An output report asking to suspend or resume the NFC/IR MCU (subcommand
/// 0x22, command byte 0x00 or 0x01) is answered by a standard report that
/// acknowledges it, and only its receipt is logged.
pub proof fn law_nfc_ir_mcu_state_reply(
    st: ProtocolState,
    dev: Address,
    out: Seq<u8>,
    timer: u64,
)
    requires
        out.len() >= 13,
        out[11] == 0x22,
        out[12] == 0x00 || out[12] == 0x01,
    ensures
        ({
            let o = spec_reply(st, st.controller_state.spec_controller(), dev, out, timer);
            &&& o.events == seq![EventView::Log(LogType::SubcommandReceived(Subcommand::SetNfcIrMcuState))]
            &&& o.result matches Ok(Some(r)) && r[1] == 0x21 && r[14] == 0x80 && r[15] == 0x22
            &&& o.state == st
        }),
{
    let ct = st.controller_state.spec_controller();
    lemma_generated_len(st.controller_state, InputReportId::Standard, timer);
    assert(InputReportId::spec_from_byte(0x21u8) == Some(InputReportId::Standard));
    let data = out.subrange(12, out.len() as int);
    assert(data[0] == out[12]);
    let b = spec_generated_report(st.controller_state, InputReportId::Standard, timer);
    assert(b[1] == 0x21);
    assert(seq![EventView::Log(LogType::SubcommandReceived(Subcommand::SetNfcIrMcuState))] + Seq::<EventView>::empty()
        =~= seq![EventView::Log(LogType::SubcommandReceived(Subcommand::SetNfcIrMcuState))]);
}

/// The elapsed times written while pairing: 3000 ms (bytes 0x2C 0x01) for
/// L and R on a Pro Controller, for SL and SR on a Joy-Con.
proof fn lemma_pairing_trigger_bytes(b: Seq<u8>, ct: ControllerType)
    requires
        b.len() == INPUT_REPORT_FULL_LEN,
    ensures
        spec_apply_trigger_commands(b, spec_pairing_trigger_commands(ct)).0 == if ct is ProController {
            spec_elapsed_written(spec_elapsed_written(b, 16, 3000), 18, 3000)
        } else {
            spec_elapsed_written(spec_elapsed_written(b, 24, 3000), 26, 3000)
        },
{
    let cmds = spec_pairing_trigger_commands(ct);
    assert(cmds.drop_last() =~= seq![cmds[0]]);
    lemma_single_trigger(b, cmds[0]);
    let first = spec_apply_trigger_commands(b, cmds.drop_last()).0;
    assert(first.len() == b.len());
}

/// The reply to each answered subcommand acknowledges it in bytes 14 and
/// 15: the ack byte of the subcommand (0x82 for device info, 0x83 for
/// trigger times, 0x90 for SPI flash reads, 0xA0 for NFC/IR MCU
/// configuration, 0x80 otherwise) followed by the subcommand's own byte;
/// the bytes before them are those of the generated report.
pub proof fn law_command_acknowledgement(
    st: ProtocolState,
    ct: ControllerType,
    dev: Address,
    sub: Subcommand,
    data: Seq<u8>,
    b: Seq<u8>,
)
    requires
        b.len() == INPUT_REPORT_FULL_LEN,
        spec_command_defined(st, sub, data),
        spec_is_answered(sub),
        sub is SetNfcIrMcuState ==> (data[0] == 0x00 || data[0] == 0x01),
        sub is SpiFlashRead ==> data[4] <= 0x1D,
    ensures
        ({
            let c = spec_command(st, ct, dev, sub, data, b);
            let ack: u8 = match sub {
                Subcommand::RequestDeviceInfo => 0x82u8,
                Subcommand::TriggerButtonsElapsedTime => 0x83u8,
                Subcommand::SpiFlashRead => 0x90u8,
                Subcommand::SetNfcIrMcuConfig => 0xA0u8,
                _ => 0x80u8,
            };
            c.result matches Ok(r) && r.len() == b.len() && r[14] == ack && Some(r[15])
                == sub.spec_byte() && r.subrange(0, 14) == b.subrange(0, 14)
        }),
{
    let c = spec_command(st, ct, dev, sub, data, b);
    if sub is TriggerButtonsElapsedTime {
        lemma_pairing_trigger_bytes(b.update(14, 0x83u8).update(15, 0x04u8), ct);
    }
    match c.result {
        Ok(r) => {
            assert(r.subrange(0, 14) =~= b.subrange(0, 14));
        },
        Err(_) => {},
    }
}

/// Answering device info writes, after the acknowledgement, firmware
/// version 4.0, the controller's id (1 for a left Joy-Con, 2 for a right
/// one, 3 for a Pro Controller), 0x02, the device address and 0x01 0x00.
pub proof fn law_device_info_reply(st: ProtocolState, ct: ControllerType, dev: Address, data: Seq<u8>, b: Seq<u8>)
    requires
        b.len() == INPUT_REPORT_FULL_LEN,
    ensures
        ({
            let id: u8 = match ct {
                ControllerType::JoyConL => 1u8,
                ControllerType::JoyConR => 2u8,
                ControllerType::ProController => 3u8,
            };
            spec_command(st, ct, dev, Subcommand::RequestDeviceInfo, data, b).result matches Ok(r)
                && r.subrange(16, 28) == seq![0x04u8, 0x00u8, id, 0x02u8] + dev.0@ + seq![0x01u8, 0x00u8]
        }),
{
    let c = spec_command(st, ct, dev, Subcommand::RequestDeviceInfo, data, b);
    match c.result {
        Ok(r) => {
            assert(r.subrange(16, 28) =~= InputReport::spec_device_info(dev.0, None, ct));
        },
        Err(_) => {},
    }
}

/// While pairing, trigger times are answered with 3000 ms (0x2C 0x01) for
/// L and R on a Pro Controller (bytes 16..20) and for SL and SR on a
/// Joy-Con (bytes 24..28).
pub proof fn law_pairing_trigger_reply(st: ProtocolState, ct: ControllerType, dev: Address, data: Seq<u8>, b: Seq<u8>)
    requires
        b.len() == INPUT_REPORT_FULL_LEN,
    ensures
        spec_command(st, ct, dev, Subcommand::TriggerButtonsElapsedTime, data, b).result matches Ok(r)
            && if ct is ProController {
            r.subrange(16, 20) == seq![0x2Cu8, 0x01u8, 0x2Cu8, 0x01u8] && r.subrange(24, 28) == b.subrange(24, 28)
        } else {
            r.subrange(24, 28) == seq![0x2Cu8, 0x01u8, 0x2Cu8, 0x01u8] && r.subrange(16, 20) == b.subrange(16, 20)
        },
{
    let h = b.update(14, 0x83u8).update(15, 0x04u8);
    lemma_pairing_trigger_bytes(h, ct);
    let c = spec_command(st, ct, dev, Subcommand::TriggerButtonsElapsedTime, data, b);
    match c.result {
        Ok(r) => {
            if ct is ProController {
                assert(r.subrange(16, 20) =~= seq![0x2Cu8, 0x01u8, 0x2Cu8, 0x01u8]);
                assert(r.subrange(24, 28) =~= b.subrange(24, 28));
            } else {
                assert(r.subrange(24, 28) =~= seq![0x2Cu8, 0x01u8, 0x2Cu8, 0x01u8]);
                assert(r.subrange(16, 20) =~= b.subrange(16, 20));
            }
        },
        Err(_) => {},
    }
}

/// A generated input report holds, in order: the `0xA1` header, its id
/// byte, the timer modulo 256, the battery/connection byte 0x8E, the three
/// button bytes, the left stick's three bytes, the right stick's three
/// bytes and the vibrator byte 0x80; full modes clear the six-axis area
/// (bytes 14..50), and the NFC/IR mode fills the rest with 0xFF.
pub proof fn law_generated_report_layout(cs: ControllerState, id: InputReportId, timer: u64)
    requires
        !(id is Default),
    ensures
        ({
            let r = spec_generated_report(cs, id, timer);
            let l = cs.spec_l_stick_state();
            let rs = cs.spec_r_stick_state();
            &&& r.len() == INPUT_REPORT_FULL_LEN
            &&& r[0] == 0xA1 && r[1] == id.spec_byte() && r[2] == (timer % 256) as u8 && r[3] == 0x8E
            &&& r.subrange(4, 7) == cs.spec_button_state().spec_bytes()
            &&& r.subrange(7, 10) == spec_stick_bytes(l.spec_horizontal(), l.spec_vertical())
            &&& r.subrange(10, 13) == spec_stick_bytes(rs.spec_horizontal(), rs.spec_vertical())
            &&& r[13] == 0x80
            &&& !(id is Standard) ==> (forall|k: int| 14 <= k < 50 ==> #[trigger] r[k] == 0u8)
            &&& id is NfcIrMcu ==> (forall|k: int| 50 <= k < 363 ==> #[trigger] r[k] == 0xFFu8)
        }),
{
    lemma_generated_len(cs, id, timer);
    ButtonState::lemma_bytes_len(cs.spec_button_state());
    let r = spec_generated_report(cs, id, timer);
    assert(r.subrange(4, 7) =~= cs.spec_button_state().spec_bytes());
    let l = cs.spec_l_stick_state();
    let rs = cs.spec_r_stick_state();
    assert(r.subrange(7, 10) =~= spec_stick_bytes(l.spec_horizontal(), l.spec_vertical()));
    assert(r.subrange(10, 13) =~= spec_stick_bytes(rs.spec_horizontal(), rs.spec_vertical()));
}

/// Whether button bytes `bb` press one of `keys` of `ct` (its bit is set).
pub open spec fn spec_presses_any(ct: ControllerType, bb: Seq<u8>, keys: Seq<ButtonKey>) -> bool {
    exists|j: int|
        0 <= j < keys.len() && #[trigger] spec_bit(
            bb[spec_button_slot(ct, keys[j]).0],
            spec_button_slot(ct, keys[j]).1,
        )
}

/// A report ends pairing exactly when its button bytes press one of the
/// controller's close-pairing menu buttons (A, B or Home on a Pro
/// Controller; X, A or Home on a left Joy-Con; Down or Left on a right one).
pub proof fn law_close_buttons_are_the_menu_buttons(ct: ControllerType, b: Seq<u8>)
    requires
        b.len() >= 7,
    ensures
        spec_presses_close_button(b, ct.spec_close_pairing_masks()) <==> spec_presses_any(
            ct,
            b.subrange(4, 7),
            ct.spec_close_pairing_menu_seq(),
        ),
{
    let bb = b.subrange(4, 7);
    let (x, y, z) = (b[4], b[5], b[6]);
    assert(bb[0] == x && bb[1] == y && bb[2] == z);
    let keys = ct.spec_close_pairing_menu_seq();
    let w = spec_u32_be(0, x, y, z);
    assert(w == (x as u32 * 0x10000 + y as u32 * 0x100 + z as u32) as u32);
    match ct {
        ControllerType::ProController => {
            assert((w & 0x000C1000u32 != 0) == (spec_bit(x, 3) || spec_bit(x, 2) || spec_bit(y, 4)))
                by (bit_vector)
                requires
                    w == (x as u32 * 0x10000 + y as u32 * 0x100 + z as u32) as u32,
            ;
            assert(keys[0] == ButtonKey::A && keys[1] == ButtonKey::B && keys[2] == ButtonKey::Home);
            if spec_presses_any(ct, bb, keys) {
                let j = choose|j: int|
                    0 <= j < keys.len() && #[trigger] spec_bit(
                        bb[spec_button_slot(ct, keys[j]).0],
                        spec_button_slot(ct, keys[j]).1,
                    );
                assert(j == 0 || j == 1 || j == 2);
            }
            if spec_bit(x, 3) {
                assert(spec_bit(bb[spec_button_slot(ct, keys[0]).0], spec_button_slot(ct, keys[0]).1));
            }
            if spec_bit(x, 2) {
                assert(spec_bit(bb[spec_button_slot(ct, keys[1]).0], spec_button_slot(ct, keys[1]).1));
            }
            if spec_bit(y, 4) {
                assert(spec_bit(bb[spec_button_slot(ct, keys[2]).0], spec_button_slot(ct, keys[2]).1));
            }
        },
        ControllerType::JoyConL => {
            assert((w & 0x000A1000u32 != 0) == (spec_bit(x, 1) || spec_bit(x, 3) || spec_bit(y, 4)))
                by (bit_vector)
                requires
                    w == (x as u32 * 0x10000 + y as u32 * 0x100 + z as u32) as u32,
            ;
            assert(keys[0] == ButtonKey::X && keys[1] == ButtonKey::A && keys[2] == ButtonKey::Home);
            if spec_presses_any(ct, bb, keys) {
                let j = choose|j: int|
                    0 <= j < keys.len() && #[trigger] spec_bit(
                        bb[spec_button_slot(ct, keys[j]).0],
                        spec_button_slot(ct, keys[j]).1,
                    );
                assert(j == 0 || j == 1 || j == 2);
            }
            if spec_bit(x, 1) {
                assert(spec_bit(bb[spec_button_slot(ct, keys[0]).0], spec_button_slot(ct, keys[0]).1));
            }
            if spec_bit(x, 3) {
                assert(spec_bit(bb[spec_button_slot(ct, keys[1]).0], spec_button_slot(ct, keys[1]).1));
            }
            if spec_bit(y, 4) {
                assert(spec_bit(bb[spec_button_slot(ct, keys[2]).0], spec_button_slot(ct, keys[2]).1));
            }
        },
        ControllerType::JoyConR => {
            assert((w & 0x00000009u32 != 0) == (spec_bit(z, 0) || spec_bit(z, 3))) by (bit_vector)
                requires
                    w == (x as u32 * 0x10000 + y as u32 * 0x100 + z as u32) as u32,
            ;
            assert(keys[0] == ButtonKey::Down && keys[1] == ButtonKey::Left);
            if spec_presses_any(ct, bb, keys) {
                let j = choose|j: int|
                    0 <= j < keys.len() && #[trigger] spec_bit(
                        bb[spec_button_slot(ct, keys[j]).0],
                        spec_button_slot(ct, keys[j]).1,
                    );
                assert(j == 0 || j == 1);
            }
            if spec_bit(z, 0) {
                assert(spec_bit(bb[spec_button_slot(ct, keys[0]).0], spec_button_slot(ct, keys[0]).1));
            }
            if spec_bit(z, 3) {
                assert(spec_bit(bb[spec_button_slot(ct, keys[1]).0], spec_button_slot(ct, keys[1]).1));
            }
        },
    }
}

/// What answering a subcommand changes: only player lights make the
/// writer ready, only a report mode wakes the writer; setting the report
/// mode takes the requested mode and warns first when it is the current
/// one; enabling vibration with 0x01 paces reports at 1/15 s; no other
/// subcommand changes the protocol's state.
pub proof fn law_command_effects(
    st: ProtocolState,
    ct: ControllerType,
    dev: Address,
    sub: Subcommand,
    data: Seq<u8>,
    b: Seq<u8>,
)
    requires
        b.len() == INPUT_REPORT_FULL_LEN,
        spec_command_defined(st, sub, data),
        spec_is_answered(sub),
    ensures
        ({
            let c = spec_command(st, ct, dev, sub, data, b);
            &&& c.writer_ready <==> sub is SetPlayerLights
            &&& c.wake_writer <==> sub is SetInputReportMode
            &&& sub is SetInputReportMode ==> {
                &&& c.state.report_mode == Some(data[0])
                &&& c.state.is_pairing == st.is_pairing
                &&& (st.report_mode == Some(data[0]) <==> (c.events.len() >= 1 && c.events[0]
                    == EventView::Warning(ProtocolErrorView::DuplicatedReportModeSet)))
            }
            &&& sub is EnableVibration ==> {
                &&& c.state.report_mode == st.report_mode
                &&& data[0] == 0x01 ==> c.state.send_interval == Seconds::Fraction { num: 1, den: 15 }
            }
            &&& !(sub is SetInputReportMode || sub is EnableVibration) ==> c.state == st
            &&& spec_same_inputs(c.state, st)
        }),
{
    if sub is SetInputReportMode {
        let (st2, ev) = spec_set_report_mode(st, Some(data[0]));
        if st.report_mode != Some(data[0]) {
            if data[0] == 0x21 {
                assert(ev[0] == spec_standard_mode_warning());
            }
        }
    }
}

} // verus!
