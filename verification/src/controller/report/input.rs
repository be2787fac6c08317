use vstd::prelude::*;
use bytes::BytesMut;
use crate::buffer::{bytes_mut_contents, bytes_filled, bytes_len, bytes_get, bytes_set, bytes_range, bytes_clone};
use crate::bytes_spec::{spec_splice, spec_le32};
use crate::controller::ControllerType;
use super::ReportError;
use super::subcommand::Subcommand;

verus! {

/// Input report identifiers: the byte after the `0xA1` header.
#[derive(Clone, Copy, Debug, PartialEq, Eq, Structural, PartialOrd, Ord, Hash)]
pub enum InputReportId {
    /// 0x3F: default input reports.
    Default,
    /// 0x21: standard input reports carrying subcommand replies.
    Standard,
    /// 0x30: standard full mode with six-axis data.
    Imu,
    /// 0x31: standard full mode with NFC/IR data besides six-axis data.
    NfcIrMcu,
    /// 0x32: unidentified; handled as a standard full report.
    Unknown1,
    /// 0x33: unidentified; handled as a standard full report.
    Unknown2,
}

impl InputReportId {
    pub open spec fn spec_byte(self) -> u8 {
        match self {
            InputReportId::Default => 0x3F,
            InputReportId::Standard => 0x21,
            InputReportId::Imu => 0x30,
            InputReportId::NfcIrMcu => 0x31,
            InputReportId::Unknown1 => 0x32,
            InputReportId::Unknown2 => 0x33,
        }
    }

    pub open spec fn spec_from_byte(byte: u8) -> Option<Self> {
        if byte == 0x3F {
            Some(InputReportId::Default)
        } else if byte == 0x21 {
            Some(InputReportId::Standard)
        } else if byte == 0x30 {
            Some(InputReportId::Imu)
        } else if byte == 0x31 {
            Some(InputReportId::NfcIrMcu)
        } else if byte == 0x32 {
            Some(InputReportId::Unknown1)
        } else if byte == 0x33 {
            Some(InputReportId::Unknown2)
        } else {
            None
        }
    }

    pub fn from_byte(byte: u8) -> (r: Option<Self>)
        ensures
            r == Self::spec_from_byte(byte),
    {
        match byte {
            0x3F => Some(InputReportId::Default),
            0x21 => Some(InputReportId::Standard),
            0x30 => Some(InputReportId::Imu),
            0x31 => Some(InputReportId::NfcIrMcu),
            0x32 => Some(InputReportId::Unknown1),
            0x33 => Some(InputReportId::Unknown2),
            _ => None,
        }
    }

    pub fn to_byte(&self) -> (r: u8)
        ensures
            r == self.spec_byte(),
    {
        match self {
            InputReportId::Default => 0x3F,
            InputReportId::Standard => 0x21,
            InputReportId::Imu => 0x30,
            InputReportId::NfcIrMcu => 0x31,
            InputReportId::Unknown1 => 0x32,
            InputReportId::Unknown2 => 0x33,
        }
    }
}

/// Elapsed press time, in milliseconds, reported for a trigger button.
#[derive(Clone, Copy, Debug, PartialEq, Eq, Structural, PartialOrd, Ord, Hash)]
pub enum TriggerButtonsElapsedTimeCommand {
    LeftTrigger(u32),
    RightTrigger(u32),
    ZLeftTrigger(u32),
    ZRightTrigger(u32),
    SLeftTrigger(u32),
    SRightTrigger(u32),
    Home(u32),
}

/// Longest elapsed time that a trigger reply can hold, in milliseconds.
pub const MAX_ELAPSED_MS: u32 = 10 * 0xFFFF;

impl TriggerButtonsElapsedTimeCommand {
    /// Offset of the command's two bytes within the subcommand reply data.
    pub open spec fn spec_offset(self) -> int {
        match self {
            TriggerButtonsElapsedTimeCommand::LeftTrigger(_) => 0,
            TriggerButtonsElapsedTimeCommand::RightTrigger(_) => 2,
            TriggerButtonsElapsedTimeCommand::ZLeftTrigger(_) => 4,
            TriggerButtonsElapsedTimeCommand::ZRightTrigger(_) => 6,
            TriggerButtonsElapsedTimeCommand::SLeftTrigger(_) => 8,
            TriggerButtonsElapsedTimeCommand::SRightTrigger(_) => 10,
            TriggerButtonsElapsedTimeCommand::Home(_) => 12,
        }
    }

    pub open spec fn spec_ms(self) -> u32 {
        match self {
            TriggerButtonsElapsedTimeCommand::LeftTrigger(ms) => ms,
            TriggerButtonsElapsedTimeCommand::RightTrigger(ms) => ms,
            TriggerButtonsElapsedTimeCommand::ZLeftTrigger(ms) => ms,
            TriggerButtonsElapsedTimeCommand::ZRightTrigger(ms) => ms,
            TriggerButtonsElapsedTimeCommand::SLeftTrigger(ms) => ms,
            TriggerButtonsElapsedTimeCommand::SRightTrigger(ms) => ms,
            TriggerButtonsElapsedTimeCommand::Home(ms) => ms,
        }
    }

    fn offset_and_ms(&self) -> (r: (usize, u32))
        ensures
            r.0 as int == self.spec_offset(),
            r.1 == self.spec_ms(),
            r.0 <= 12,
    {
        match *self {
            TriggerButtonsElapsedTimeCommand::LeftTrigger(ms) => (0, ms),
            TriggerButtonsElapsedTimeCommand::RightTrigger(ms) => (2, ms),
            TriggerButtonsElapsedTimeCommand::ZLeftTrigger(ms) => (4, ms),
            TriggerButtonsElapsedTimeCommand::ZRightTrigger(ms) => (6, ms),
            TriggerButtonsElapsedTimeCommand::SLeftTrigger(ms) => (8, ms),
            TriggerButtonsElapsedTimeCommand::SRightTrigger(ms) => (10, ms),
            TriggerButtonsElapsedTimeCommand::Home(ms) => (12, ms),
        }
    }
}

/// Shortest input report accepted: the standard input report.
pub const INPUT_REPORT_MIN_LEN: usize = 50;

/// Size of the largest input report (NFC/IR mode).
pub const INPUT_REPORT_FULL_LEN: usize = 363;

/// Where subcommand reply data starts.
pub const SUBCOMMAND_OFFSET: usize = 16;

/// `buf` after the elapsed-time commands `cmds`, applied in order, each
/// writing `ms / 10` as two little-endian bytes at its offset after the
/// subcommand reply start; processing stops at the first command beyond
/// [`MAX_ELAPSED_MS`]. The flag tells whether every command was in range.
pub open spec fn spec_apply_trigger_commands(
    buf: Seq<u8>,
    cmds: Seq<TriggerButtonsElapsedTimeCommand>,
) -> (Seq<u8>, bool)
    decreases cmds.len(),
{
    if cmds.len() == 0 {
        (buf, true)
    } else {
        let (prev, ok) = spec_apply_trigger_commands(buf, cmds.drop_last());
        let c = cmds.last();
        if !ok {
            (prev, false)
        } else if c.spec_ms() > MAX_ELAPSED_MS {
            (prev, false)
        } else {
            let value = (c.spec_ms() / 10) as u16;
            let at = SUBCOMMAND_OFFSET + c.spec_offset();
            (prev.update(at, (value % 256) as u8).update(at + 1, (value / 256) as u8), true)
        }
    }
}

/// How many leading bytes a report of identifier `id` sends.
pub open spec fn spec_sent_len(id: Option<InputReportId>) -> int {
    match id {
        Some(InputReportId::Imu) => 50,
        Some(InputReportId::NfcIrMcu) | Some(InputReportId::Unknown1) | Some(
            InputReportId::Unknown2,
        ) => 363,
        _ => 51,
    }
}

/// A message from the controller to the host. Layout: `0xA1` header, report
/// id, timer, battery/connection byte, three button bytes, six stick bytes,
/// vibrator byte, then ack and subcommand reply or six-axis data, then
/// NFC/IR data from byte 50.
#[derive(Debug)]
pub struct InputReport {
    buf: BytesMut,
}

impl Clone for InputReport {
    fn clone(&self) -> (r: Self)
        ensures
            r.spec_data() == self.spec_data(),
    {
        InputReport { buf: bytes_clone(&self.buf) }
    }
}

impl InputReport {
    /// The report's bytes.
    pub closed spec fn spec_data(&self) -> Seq<u8> {
        bytes_mut_contents(self.buf)
    }

    /// A blank report of the full size: the header, then zeros.
    pub fn new() -> (r: Self)
        ensures
            r.spec_data() == Seq::new(
                INPUT_REPORT_FULL_LEN as nat,
                |i: int| if i == 0 { 0xA1u8 } else { 0u8 },
            ),
    {
        let mut buf = bytes_filled(INPUT_REPORT_FULL_LEN, 0x00);
        bytes_set(&mut buf, 0, 0xA1);
        let r = InputReport { buf };
        assert(r.spec_data() =~= Seq::new(
            INPUT_REPORT_FULL_LEN as nat,
            |i: int| if i == 0 { 0xA1u8 } else { 0u8 },
        ));
        r
    }

    /// Takes a report from raw bytes: at least the standard report length,
    /// starting with the `0xA1` header.
    pub fn with_raw(data: BytesMut) -> (r: Result<Self, ReportError>)
        ensures
            bytes_mut_contents(data).len() < INPUT_REPORT_MIN_LEN ==> r == Err::<
                Self,
                ReportError,
            >(ReportError::TooShort),
            bytes_mut_contents(data).len() >= INPUT_REPORT_MIN_LEN && bytes_mut_contents(data)[0]
                != 0xA1 ==> r == Err::<Self, ReportError>(ReportError::Malformed),
            bytes_mut_contents(data).len() >= INPUT_REPORT_MIN_LEN && bytes_mut_contents(data)[0]
                == 0xA1 ==> (r matches Ok(rep) && rep.spec_data() == bytes_mut_contents(data)),
    {
        if bytes_len(&data) < INPUT_REPORT_MIN_LEN {
            return Err(ReportError::TooShort);
        }
        if bytes_get(&data, 0) != 0xA1 {
            return Err(ReportError::Malformed);
        }
        Ok(InputReport { buf: data })
    }

    /// Writes `src` into the report from index `at`.
    pub(crate) fn put(&mut self, at: usize, src: &[u8])
        requires
            at + src@.len() <= old(self).spec_data().len(),
        ensures
            final(self).spec_data() == spec_splice(old(self).spec_data(), at as int, src@),
    {
        let ghost orig = self.spec_data();
        let n = bytes_len(&self.buf);
        let mut i: usize = 0;
        while i < src.len()
            invariant
                n == orig.len(),
                at + src@.len() <= orig.len(),
                i <= src@.len(),
                self.spec_data().len() == orig.len(),
                forall|k: int|
                    0 <= k < orig.len() ==> #[trigger] self.spec_data()[k] == if at <= k < at
                        + i {
                        src@[k - at]
                    } else {
                        orig[k]
                    },
            decreases src@.len() - i,
        {
            bytes_set(&mut self.buf, at + i, src[i]);
            i = i + 1;
        }
        assert(self.spec_data() =~= spec_splice(orig, at as int, src@));
    }

    /// Sets the bytes from `start` up to `end` to zero.
    fn zero(&mut self, start: usize, end: usize)
        requires
            start <= end <= old(self).spec_data().len(),
        ensures
            final(self).spec_data().len() == old(self).spec_data().len(),
            forall|k: int|
                0 <= k < old(self).spec_data().len() ==> #[trigger] final(self).spec_data()[k]
                    == if start <= k < end {
                    0u8
                } else {
                    old(self).spec_data()[k]
                },
    {
        let ghost orig = self.spec_data();
        let mut i: usize = start;
        while i < end
            invariant
                start <= i <= end <= orig.len(),
                self.spec_data().len() == orig.len(),
                forall|k: int|
                    0 <= k < orig.len() ==> #[trigger] self.spec_data()[k] == if start <= k < i {
                        0u8
                    } else {
                        orig[k]
                    },
            decreases end - i,
        {
            bytes_set(&mut self.buf, i, 0);
            i = i + 1;
        }
    }

    /// Zeroes the subcommand reply area of a 0x21 report.
    pub fn clear_subcommand(&mut self)
        requires
            old(self).spec_data().len() >= 51,
        ensures
            final(self).spec_data() == spec_splice(
                old(self).spec_data(),
                14,
                Seq::new(37, |i: int| 0u8),
            ),
    {
        self.zero(14, 51);
        assert(self.spec_data() =~= spec_splice(
            old(self).spec_data(),
            14,
            Seq::new(37, |i: int| 0u8),
        ));
    }

    pub fn stick_data(&self) -> (r: &[u8])
        requires
            self.spec_data().len() >= INPUT_REPORT_MIN_LEN,
        ensures
            r@ == self.spec_data().subrange(7, 13),
    {
        bytes_range(&self.buf, 7, 13)
    }

    pub fn subcommand_reply_data(&self) -> (r: &[u8])
        requires
            self.spec_data().len() >= 51,
        ensures
            r@ == self.spec_data().subrange(16, 51),
    {
        bytes_range(&self.buf, 16, 51)
    }

    pub fn input_report_id(&self) -> (r: Option<InputReportId>)
        requires
            self.spec_data().len() >= INPUT_REPORT_MIN_LEN,
        ensures
            r == InputReportId::spec_from_byte(self.spec_data()[1]),
    {
        InputReportId::from_byte(bytes_get(&self.buf, 1))
    }

    pub fn set_input_report_id(&mut self, id: InputReportId)
        requires
            old(self).spec_data().len() >= INPUT_REPORT_MIN_LEN,
        ensures
            final(self).spec_data() == old(self).spec_data().update(1, id.spec_byte()),
    {
        bytes_set(&mut self.buf, 1, id.to_byte());
    }

    /// Sets the timer to `timer` modulo 256.
    pub fn set_timer(&mut self, timer: u64)
        requires
            old(self).spec_data().len() >= INPUT_REPORT_MIN_LEN,
        ensures
            final(self).spec_data() == old(self).spec_data().update(2, (timer % 0x100) as u8),
    {
        bytes_set(&mut self.buf, 2, (timer % 0x100) as u8);
    }

    /// Sets battery level and connection info.
    pub fn set_misc(&mut self)
        requires
            old(self).spec_data().len() >= INPUT_REPORT_MIN_LEN,
        ensures
            final(self).spec_data() == old(self).spec_data().update(3, 0x8Eu8),
    {
        bytes_set(&mut self.buf, 3, 0x8E);
    }

    pub fn set_button(&mut self, button_status: &[u8; 3])
        requires
            old(self).spec_data().len() >= INPUT_REPORT_MIN_LEN,
        ensures
            final(self).spec_data() == spec_splice(old(self).spec_data(), 4, button_status@),
    {
        self.put(4, button_status.as_slice());
    }

    /// Sets both sticks; a missing stick is written as zeros.
    pub fn set_analog_stick(
        &mut self,
        left_stick_status: Option<[u8; 3]>,
        right_stick_status: Option<[u8; 3]>,
    )
        requires
            old(self).spec_data().len() >= INPUT_REPORT_MIN_LEN,
        ensures
            final(self).spec_data() == spec_splice(
                spec_splice(
                    old(self).spec_data(),
                    7,
                    match left_stick_status { Some(b) => b@, None => seq![0u8, 0u8, 0u8] },
                ),
                10,
                match right_stick_status { Some(b) => b@, None => seq![0u8, 0u8, 0u8] },
            ),
    {
        match left_stick_status {
            Some(bytes) => self.set_left_analog_stick(bytes),
            None => {
                let z: [u8; 3] = [0, 0, 0];
                assert(z@ =~= seq![0u8, 0u8, 0u8]);
                self.set_left_analog_stick(z)
            },
        }
        match right_stick_status {
            Some(bytes) => self.set_right_analog_stick(bytes),
            None => {
                let z: [u8; 3] = [0, 0, 0];
                assert(z@ =~= seq![0u8, 0u8, 0u8]);
                self.set_right_analog_stick(z)
            },
        }
    }

    pub fn set_left_analog_stick(&mut self, stick_status: [u8; 3])
        requires
            old(self).spec_data().len() >= INPUT_REPORT_MIN_LEN,
        ensures
            final(self).spec_data() == spec_splice(old(self).spec_data(), 7, stick_status@),
    {
        self.put(7, stick_status.as_slice());
    }

    pub fn set_right_analog_stick(&mut self, stick_status: [u8; 3])
        requires
            old(self).spec_data().len() >= INPUT_REPORT_MIN_LEN,
        ensures
            final(self).spec_data() == spec_splice(old(self).spec_data(), 10, stick_status@),
    {
        self.put(10, stick_status.as_slice());
    }

    pub fn set_vibrator_input(&mut self)
        requires
            old(self).spec_data().len() >= INPUT_REPORT_MIN_LEN,
        ensures
            final(self).spec_data() == old(self).spec_data().update(13, 0x80u8),
    {
        bytes_set(&mut self.buf, 13, 0x80);
    }

    pub fn ack(&self) -> (r: u8)
        requires
            self.spec_data().len() >= INPUT_REPORT_MIN_LEN,
        ensures
            r == self.spec_data()[14],
    {
        bytes_get(&self.buf, 14)
    }

    pub fn set_ack(&mut self, ack: u8)
        requires
            old(self).spec_data().len() >= INPUT_REPORT_MIN_LEN,
        ensures
            final(self).spec_data() == old(self).spec_data().update(14, ack),
    {
        bytes_set(&mut self.buf, 14, ack);
    }

    /// Zeroes the six-axis data area.
    pub fn set_6axis_data(&mut self)
        requires
            old(self).spec_data().len() >= INPUT_REPORT_MIN_LEN,
        ensures
            final(self).spec_data() == spec_splice(
                old(self).spec_data(),
                14,
                Seq::new(36, |i: int| 0u8),
            ),
    {
        self.zero(14, 50);
        assert(self.spec_data() =~= spec_splice(
            old(self).spec_data(),
            14,
            Seq::new(36, |i: int| 0u8),
        ));
    }

    /// Writes NFC/IR data from byte 50; more than 313 bytes are refused.
    /// Tells whether the data has the full 313 bytes.
    pub fn set_ir_nfc_data(&mut self, data: &[u8]) -> (r: Result<bool, ReportError>)
        requires
            data@.len() <= 313 ==> 50 + data@.len() <= old(self).spec_data().len(),
        ensures
            data@.len() > 313 ==> r == Err::<bool, ReportError>(ReportError::OutOfBounds)
                && final(self).spec_data() == old(self).spec_data(),
            data@.len() <= 313 ==> r == Ok::<bool, ReportError>(data@.len() == 313)
                && final(self).spec_data() == spec_splice(old(self).spec_data(), 50, data@),
    {
        if data.len() > 313 {
            return Err(ReportError::OutOfBounds);
        }
        self.put(50, data);
        Ok(data.len() == 313)
    }

    pub fn response_subcommand(&self) -> (r: Option<Subcommand>)
        requires
            self.spec_data().len() >= INPUT_REPORT_MIN_LEN,
        ensures
            r == Subcommand::spec_from_byte(self.spec_data()[15]),
    {
        Subcommand::from_byte(bytes_get(&self.buf, 15))
    }

    /// Writes the byte of the subcommand being answered; `Empty` has no byte
    /// and is refused.
    pub fn set_response_subcommand(&mut self, id: Subcommand) -> (r: Result<(), ReportError>)
        requires
            old(self).spec_data().len() >= INPUT_REPORT_MIN_LEN,
        ensures
            match id.spec_byte() {
                Some(b) => r is Ok && final(self).spec_data() == old(self).spec_data().update(
                    15,
                    b,
                ),
                None => r == Err::<(), ReportError>(ReportError::Invariant)
                    && final(self).spec_data() == old(self).spec_data(),
            },
    {
        match id.to_byte() {
            Some(b) => {
                bytes_set(&mut self.buf, 15, b);
                Ok(())
            },
            None => Err(ReportError::Invariant),
        }
    }

    /// Device info reply: firmware version (default 4.0), controller id,
    /// `0x02`, the MAC address, `0x01`, and `0x00` for the colors.
    pub open spec fn spec_device_info(
        mac_addr: [u8; 6],
        fm_version: Option<[u8; 2]>,
        controller_type: ControllerType,
    ) -> Seq<u8> {
        (match fm_version { Some(v) => v@, None => seq![0x04u8, 0x00u8] }) + seq![
            controller_type.spec_id(),
            0x02u8,
        ] + mac_addr@ + seq![0x01u8, 0x00u8]
    }

    pub fn sub_0x02_device_info(
        &mut self,
        mac_addr: [u8; 6],
        fm_version: Option<[u8; 2]>,
        controller_type: ControllerType,
    ) -> (r: Result<(), ReportError>)
        requires
            old(self).spec_data().len() >= INPUT_REPORT_MIN_LEN,
        ensures
            r is Ok,
            final(self).spec_data() == spec_splice(
                old(self).spec_data().update(15, 0x02u8),
                SUBCOMMAND_OFFSET as int,
                Self::spec_device_info(mac_addr, fm_version, controller_type),
            ),
    {
        let version = match fm_version {
            Some(v) => v,
            None => [0x04, 0x00],
        };
        self.set_response_subcommand(Subcommand::RequestDeviceInfo)?;
        let ghost before = self.spec_data();
        self.put(SUBCOMMAND_OFFSET, version.as_slice());
        bytes_set(&mut self.buf, SUBCOMMAND_OFFSET + 2, controller_type.id());
        bytes_set(&mut self.buf, SUBCOMMAND_OFFSET + 3, 0x02);
        self.put(SUBCOMMAND_OFFSET + 4, mac_addr.as_slice());
        bytes_set(&mut self.buf, SUBCOMMAND_OFFSET + 10, 0x01);
        bytes_set(&mut self.buf, SUBCOMMAND_OFFSET + 11, 0x00);
        assert(self.spec_data() =~= spec_splice(
            before,
            SUBCOMMAND_OFFSET as int,
            Self::spec_device_info(mac_addr, Some(version), controller_type),
        ));
        assert(Self::spec_device_info(mac_addr, Some(version), controller_type)
            =~= Self::spec_device_info(mac_addr, fm_version, controller_type));
        Ok(())
    }

    /// SPI flash read reply: the offset (low 32 bits, little-endian), the
    /// size, then the data read. More than 0x1D bytes, or data of another
    /// length than `size`, are refused.
    pub fn sub_0x10_spi_flash_read(&mut self, offset: u64, size: u8, data: &[u8]) -> (r: Result<
        (),
        ReportError,
    >)
        requires
            old(self).spec_data().len() >= INPUT_REPORT_MIN_LEN,
        ensures
            (size > 0x1D || data@.len() != size) ==> r == Err::<(), ReportError>(
                ReportError::OutOfBounds,
            ) && final(self).spec_data() == old(self).spec_data(),
            !(size > 0x1D || data@.len() != size) ==> r is Ok && final(self).spec_data()
                == spec_splice(
                old(self).spec_data().update(15, 0x10u8),
                SUBCOMMAND_OFFSET as int,
                spec_le32(offset as nat).push(size) + data@,
            ),
    {
        if size > 0x1D || data.len() != size as usize {
            return Err(ReportError::OutOfBounds);
        }
        self.set_response_subcommand(Subcommand::SpiFlashRead)?;
        let ghost before = self.spec_data();
        let b0 = (offset % 0x100) as u8;
        let b1 = ((offset / 0x100) % 0x100) as u8;
        let b2 = ((offset / 0x10000) % 0x100) as u8;
        let b3 = ((offset / 0x1000000) % 0x100) as u8;
        bytes_set(&mut self.buf, SUBCOMMAND_OFFSET, b0);
        bytes_set(&mut self.buf, SUBCOMMAND_OFFSET + 1, b1);
        bytes_set(&mut self.buf, SUBCOMMAND_OFFSET + 2, b2);
        bytes_set(&mut self.buf, SUBCOMMAND_OFFSET + 3, b3);
        bytes_set(&mut self.buf, 20, size);
        self.put(21, data);
        assert(self.spec_data() =~= spec_splice(
            before,
            SUBCOMMAND_OFFSET as int,
            spec_le32(offset as nat).push(size) + data@,
        ));
        Ok(())
    }

    /// Writes elapsed press times into the reply, command by command; a
    /// command beyond [`MAX_ELAPSED_MS`] stops the writing with an error.
    pub fn sub_0x04_trigger_buttons_elapsed_time(
        &mut self,
        commands: &[TriggerButtonsElapsedTimeCommand],
    ) -> (r: Result<(), ReportError>)
        requires
            old(self).spec_data().len() >= INPUT_REPORT_MIN_LEN,
        ensures
            final(self).spec_data() == spec_apply_trigger_commands(
                old(self).spec_data(),
                commands@,
            ).0,
            spec_apply_trigger_commands(old(self).spec_data(), commands@).1 ==> r is Ok,
            !spec_apply_trigger_commands(old(self).spec_data(), commands@).1 ==> r
                == Err::<(), ReportError>(ReportError::Invariant),
    {
        let ghost orig = self.spec_data();
        let mut i: usize = 0;
        while i < commands.len()
            invariant
                i <= commands@.len(),
                orig == old(self).spec_data(),
                orig.len() >= INPUT_REPORT_MIN_LEN,
                spec_apply_trigger_commands(orig, commands@.take(i as int)).1,
                self.spec_data() == spec_apply_trigger_commands(orig, commands@.take(i as int)).0,
                self.spec_data().len() == orig.len(),
            decreases commands@.len() - i,
        {
            let ghost prefix = commands@.take(i as int);
            assert(commands@.take(i + 1).drop_last() =~= prefix);
            let (off, ms) = commands[i].offset_and_ms();
            if ms > MAX_ELAPSED_MS {
                proof {
                    assert(commands@[i as int].spec_ms() == ms);
                    assert(commands@.take(i + 1 - 1) =~= commands@.take(i as int));
                    lemma_trigger_stops(orig, commands@, (i + 1) as int);
                    assert(spec_apply_trigger_commands(orig, commands@).1 == false);
                }
                return Err(ReportError::Invariant);
            }
            let value = (ms / 10) as u16;
            bytes_set(&mut self.buf, SUBCOMMAND_OFFSET + off, (value & 0xFF) as u8);
            bytes_set(&mut self.buf, SUBCOMMAND_OFFSET + off + 1, ((value & 0xFF00) >> 8) as u8);
            assert((value & 0xFF) as u8 == (value % 256) as u8) by (bit_vector);
            assert(((value & 0xFF00) >> 8) as u8 == (value / 256) as u8) by (bit_vector);
            i = i + 1;
        }
        assert(commands@.take(commands@.len() as int) =~= commands@);
        Ok(())
    }

    /// The bytes sent for the report: 51 bytes for default, standard and
    /// unknown identifiers, 50 for IMU reports and all 363 for NFC/IR and
    /// the unidentified full modes.
    pub fn as_buf(&self) -> (r: &[u8])
        requires
            self.spec_data().len() >= INPUT_REPORT_MIN_LEN,
            self.spec_data().len() >= spec_sent_len(
                InputReportId::spec_from_byte(self.spec_data()[1]),
            ),
        ensures
            r@ == self.spec_data().subrange(
                0,
                spec_sent_len(InputReportId::spec_from_byte(self.spec_data()[1])),
            ),
    {
        let Some(id) = self.input_report_id() else {
            return bytes_range(&self.buf, 0, 51);
        };
        match id {
            InputReportId::Default | InputReportId::Standard => bytes_range(&self.buf, 0, 51),
            InputReportId::Imu => bytes_range(&self.buf, 0, 50),
            InputReportId::NfcIrMcu | InputReportId::Unknown1 | InputReportId::Unknown2 => {
                bytes_range(&self.buf, 0, INPUT_REPORT_FULL_LEN)
            },
        }
    }

    /// All bytes of the report.
    pub fn as_bytes(&self) -> (r: &[u8])
        ensures
            r@ == self.spec_data(),
    {
        let n = bytes_len(&self.buf);
        let r = bytes_range(&self.buf, 0, n);
        assert(r@ =~= self.spec_data());
        r
    }
}

impl AsRef<[u8]> for InputReport {
    fn as_ref(&self) -> (r: &[u8])
        ensures
            r@ == self.spec_data(),
    {
        self.as_bytes()
    }
}

/// Once a command is out of range, later commands change nothing.
proof fn lemma_trigger_stops(buf: Seq<u8>, cmds: Seq<TriggerButtonsElapsedTimeCommand>, n: int)
    requires
        1 <= n <= cmds.len(),
        spec_apply_trigger_commands(buf, cmds.take(n - 1)).1,
        cmds[n - 1].spec_ms() > MAX_ELAPSED_MS,
    ensures
        spec_apply_trigger_commands(buf, cmds)
            == (spec_apply_trigger_commands(buf, cmds.take(n - 1)).0, false),
    decreases cmds.len() - n,
{
    assert(cmds.take(n).drop_last() =~= cmds.take(n - 1));
    if n == cmds.len() {
        assert(cmds.take(n) =~= cmds);
    } else {
        lemma_trigger_stays_failed(buf, cmds, n);
    }
}

proof fn lemma_trigger_stays_failed(buf: Seq<u8>, cmds: Seq<TriggerButtonsElapsedTimeCommand>, n: int)
    requires
        1 <= n <= cmds.len(),
        !spec_apply_trigger_commands(buf, cmds.take(n)).1,
    ensures
        spec_apply_trigger_commands(buf, cmds) == spec_apply_trigger_commands(buf, cmds.take(n)),
    decreases cmds.len() - n,
{
    if n == cmds.len() {
        assert(cmds.take(n) =~= cmds);
    } else {
        assert(cmds.take(n + 1).drop_last() =~= cmds.take(n));
        lemma_trigger_stays_failed(buf, cmds, n + 1);
    }
}

impl InputReportId {
    /// The byte of an identifier reads back as that identifier, and a byte
    /// that names an identifier is its byte.
    pub proof fn law_byte_roundtrip(id: InputReportId, b: u8)
        ensures
            Self::spec_from_byte(id.spec_byte()) == Some(id),
            Self::spec_from_byte(b) matches Some(x) ==> x.spec_byte() == b,
    {
    }
}

/// `buf` with the elapsed time `ms`, in tens of milliseconds, written as
/// two little-endian bytes at index `at`.
pub open spec fn spec_elapsed_written(buf: Seq<u8>, at: int, ms: u32) -> Seq<u8> {
    buf.update(at, ((ms / 10) % 256) as u8).update(at + 1, ((ms / 10) / 256) as u8)
}

/// Applying one command alone.
pub(crate) proof fn lemma_single_trigger(buf: Seq<u8>, c: TriggerButtonsElapsedTimeCommand)
    ensures
        spec_apply_trigger_commands(buf, seq![c]) == if c.spec_ms() > MAX_ELAPSED_MS {
            (buf, false)
        } else {
            (spec_elapsed_written(buf, SUBCOMMAND_OFFSET + c.spec_offset(), c.spec_ms()), true)
        },
{
    let s = seq![c];
    assert(s.drop_last() =~= Seq::<TriggerButtonsElapsedTimeCommand>::empty());
    assert(s.last() == c);
    assert(spec_apply_trigger_commands(buf, s.drop_last()) == (buf, true));
}

/// Each trigger's elapsed time lands at its fixed place after the reply
/// start (byte 16): L at +0, R at +2, ZL at +4, ZR at +6, SL at +8, SR at
/// +10, Home at +12; a time beyond the limit is refused and writes nothing.
pub proof fn law_trigger_places(buf: Seq<u8>, ms: u32)
    requires
        buf.len() >= INPUT_REPORT_MIN_LEN,
    ensures
        ms <= MAX_ELAPSED_MS ==> {
            &&& spec_apply_trigger_commands(buf, seq![TriggerButtonsElapsedTimeCommand::LeftTrigger(ms)])
                == (spec_elapsed_written(buf, 16, ms), true)
            &&& spec_apply_trigger_commands(buf, seq![TriggerButtonsElapsedTimeCommand::RightTrigger(ms)])
                == (spec_elapsed_written(buf, 18, ms), true)
            &&& spec_apply_trigger_commands(buf, seq![TriggerButtonsElapsedTimeCommand::ZLeftTrigger(ms)])
                == (spec_elapsed_written(buf, 20, ms), true)
            &&& spec_apply_trigger_commands(buf, seq![TriggerButtonsElapsedTimeCommand::ZRightTrigger(ms)])
                == (spec_elapsed_written(buf, 22, ms), true)
            &&& spec_apply_trigger_commands(buf, seq![TriggerButtonsElapsedTimeCommand::SLeftTrigger(ms)])
                == (spec_elapsed_written(buf, 24, ms), true)
            &&& spec_apply_trigger_commands(buf, seq![TriggerButtonsElapsedTimeCommand::SRightTrigger(ms)])
                == (spec_elapsed_written(buf, 26, ms), true)
            &&& spec_apply_trigger_commands(buf, seq![TriggerButtonsElapsedTimeCommand::Home(ms)])
                == (spec_elapsed_written(buf, 28, ms), true)
        },
        ms > MAX_ELAPSED_MS ==> spec_apply_trigger_commands(
            buf,
            seq![TriggerButtonsElapsedTimeCommand::RightTrigger(ms)],
        ) == (buf, false),
{
    lemma_single_trigger(buf, TriggerButtonsElapsedTimeCommand::LeftTrigger(ms));
    lemma_single_trigger(buf, TriggerButtonsElapsedTimeCommand::RightTrigger(ms));
    lemma_single_trigger(buf, TriggerButtonsElapsedTimeCommand::ZLeftTrigger(ms));
    lemma_single_trigger(buf, TriggerButtonsElapsedTimeCommand::ZRightTrigger(ms));
    lemma_single_trigger(buf, TriggerButtonsElapsedTimeCommand::SLeftTrigger(ms));
    lemma_single_trigger(buf, TriggerButtonsElapsedTimeCommand::SRightTrigger(ms));
    lemma_single_trigger(buf, TriggerButtonsElapsedTimeCommand::Home(ms));
}

impl InputReportId {
    /// The input report ids of the Switch's protocol: 0x3F default, 0x21
    /// standard, 0x30 six-axis, 0x31 NFC/IR, 0x32 and 0x33; nothing else.
    pub proof fn law_protocol_codes(b: u8)
        ensures
            Self::spec_from_byte(0x3F) == Some(InputReportId::Default),
            Self::spec_from_byte(0x21) == Some(InputReportId::Standard),
            Self::spec_from_byte(0x30) == Some(InputReportId::Imu),
            Self::spec_from_byte(0x31) == Some(InputReportId::NfcIrMcu),
            Self::spec_from_byte(0x32) == Some(InputReportId::Unknown1),
            Self::spec_from_byte(0x33) == Some(InputReportId::Unknown2),
            !(b == 0x3F || b == 0x21 || b == 0x30 || b == 0x31 || b == 0x32 || b == 0x33) ==> Self::spec_from_byte(b) is None,
    {
    }
}

/// How much of a report is sent: the 50 bytes of a six-axis report, the
/// whole 363 bytes of the NFC/IR and the two unidentified full modes, and
/// 51 bytes otherwise (standard, default or unknown id).
pub proof fn law_sent_lengths(id: Option<InputReportId>)
    ensures
        spec_sent_len(Some(InputReportId::Imu)) == 50,
        spec_sent_len(Some(InputReportId::NfcIrMcu)) == INPUT_REPORT_FULL_LEN,
        spec_sent_len(Some(InputReportId::Unknown1)) == INPUT_REPORT_FULL_LEN,
        spec_sent_len(Some(InputReportId::Unknown2)) == INPUT_REPORT_FULL_LEN,
        spec_sent_len(Some(InputReportId::Standard)) == 51,
        spec_sent_len(Some(InputReportId::Default)) == 51,
        spec_sent_len(None) == 51,
{
}

} // verus!
