use vstd::prelude::*;
use crate::bytes_spec::{spec_splice, spec_le32};

verus! {

/// Errors of the checked report interface.
#[derive(Clone, Copy, Debug, PartialEq, Eq, Structural, PartialOrd, Ord, Hash)]
pub enum ReportError {
    TooShortDataLength,
    Malformed,
    UnsupportedReportId,
    UnsupportedSubcommand,
    OutOfRange,
    Invariant,
}

pub type ReportResult<T> = Result<T, ReportError>;

/// A message from the controller to the host, checked on construction.
#[derive(Clone, Debug)]
pub struct InputReport {
    data: Vec<u8>,
}

impl InputReport {
    pub closed spec fn spec_data(&self) -> Seq<u8> {
        self.data@
    }

    /// A blank report of 363 bytes: the `0xA1` header, then zeros.
    pub fn new() -> (r: Self)
        ensures
            r.spec_data() == Seq::new(363, |i: int| if i == 0 { 0xA1u8 } else { 0u8 }),
    {
        let mut data: Vec<u8> = vec![0u8; 363];
        data.set(0, 0xA1);
        assert(data@ =~= Seq::new(363, |i: int| if i == 0 { 0xA1u8 } else { 0u8 }));
        InputReport { data }
    }

    /// Reads a report of at least the standard length of 50 bytes.
    pub fn with_data(data: &[u8]) -> (r: ReportResult<Self>)
        ensures
            data@.len() < 50 ==> r == Err::<Self, ReportError>(ReportError::TooShortDataLength),
            data@.len() >= 50 && data@[0] != 0xA1 ==> r == Err::<Self, ReportError>(
                ReportError::Malformed,
            ),
            data@.len() >= 50 && data@[0] == 0xA1 ==> (r matches Ok(rep) && rep.spec_data()
                == data@),
    {
        Self::with_data_and_length(data, 50)
    }

    /// Reads a report of at least `length` bytes (and never fewer than 50)
    /// starting with the `0xA1` header.
    pub fn with_data_and_length(data: &[u8], length: usize) -> (r: ReportResult<Self>)
        ensures
            ({
                let min = if length > 50 { length as int } else { 50 };
                &&& data@.len() < min ==> r == Err::<Self, ReportError>(
                    ReportError::TooShortDataLength,
                )
                &&& data@.len() >= min && data@[0] != 0xA1 ==> r == Err::<Self, ReportError>(
                    ReportError::Malformed,
                )
                &&& data@.len() >= min && data@[0] == 0xA1 ==> (r matches Ok(rep)
                    && rep.spec_data() == data@)
            }),
    {
        let min_len = if length > 50 { length } else { 50 };
        if data.len() < min_len {
            return Err(ReportError::TooShortDataLength);
        }
        if data[0] != 0xA1 {
            return Err(ReportError::Malformed);
        }
        Ok(InputReport { data: vstd::slice::slice_to_vec(data) })
    }

    /// Zeroes the subcommand reply area.
    pub fn clear_subcommand(&mut self) -> (r: ReportResult<()>)
        requires
            old(self).spec_data().len() >= 51,
        ensures
            r is Ok,
            final(self).spec_data() == spec_splice(
                old(self).spec_data(),
                14,
                Seq::new(37, |i: int| 0u8),
            ),
    {
        let ghost orig = self.data@;
        let mut i: usize = 14;
        while i < 51
            invariant
                14 <= i <= 51,
                orig.len() >= 51,
                self.data@.len() == orig.len(),
                forall|k: int|
                    0 <= k < orig.len() ==> #[trigger] self.data@[k] == if 14 <= k < i {
                        0u8
                    } else {
                        orig[k]
                    },
            decreases 51 - i,
        {
            self.data.set(i, 0);
            i = i + 1;
        }
        assert(self.data@ =~= spec_splice(orig, 14, Seq::new(37, |i: int| 0u8)));
        Ok(())
    }

    pub fn stick_data(&self) -> (r: &[u8])
        requires
            self.spec_data().len() >= 13,
        ensures
            r@ == self.spec_data().subrange(7, 13),
    {
        vstd::slice::slice_subrange(self.data.as_slice(), 7, 13)
    }

    pub fn as_bytes(&self) -> (r: &[u8])
        ensures
            r@ == self.spec_data(),
    {
        self.data.as_slice()
    }
}

/// Subcommands, with `Unknown` standing for unrecognized bytes.
#[derive(Clone, Copy, Debug, PartialEq, Eq, Structural, PartialOrd, Ord, Hash)]
pub enum Subcommand {
    Unknown,
    RequestDeviceInfo,
    SetInputReportMode,
    TriggerButtonsElapsedTime,
    SetShipmentState,
    SpiFlashRead,
    SetNfcIrMcuConfig,
    SetNfcIrMcuState,
    SetPlayerLights,
    Enable6AxisSensor,
    EnableVibration,
}

impl Default for Subcommand {
    fn default() -> (r: Self)
        ensures
            r == Subcommand::Unknown,
    {
        Subcommand::Unknown
    }
}

impl Subcommand {
    pub open spec fn spec_from_byte(byte: u8) -> Self {
        if byte == 0x02 {
            Subcommand::RequestDeviceInfo
        } else if byte == 0x03 {
            Subcommand::SetInputReportMode
        } else if byte == 0x04 {
            Subcommand::TriggerButtonsElapsedTime
        } else if byte == 0x08 {
            Subcommand::SetShipmentState
        } else if byte == 0x10 {
            Subcommand::SpiFlashRead
        } else if byte == 0x21 {
            Subcommand::SetNfcIrMcuConfig
        } else if byte == 0x22 {
            Subcommand::SetNfcIrMcuState
        } else if byte == 0x30 {
            Subcommand::SetPlayerLights
        } else if byte == 0x40 {
            Subcommand::Enable6AxisSensor
        } else if byte == 0x48 {
            Subcommand::EnableVibration
        } else {
            Subcommand::Unknown
        }
    }

    /// The wire byte; `Unknown` has none.
    pub open spec fn spec_byte(self) -> Option<u8> {
        match self {
            Subcommand::RequestDeviceInfo => Some(0x02u8),
            Subcommand::SetInputReportMode => Some(0x03u8),
            Subcommand::TriggerButtonsElapsedTime => Some(0x04u8),
            Subcommand::SetShipmentState => Some(0x08u8),
            Subcommand::SpiFlashRead => Some(0x10u8),
            Subcommand::SetNfcIrMcuConfig => Some(0x21u8),
            Subcommand::SetNfcIrMcuState => Some(0x22u8),
            Subcommand::SetPlayerLights => Some(0x30u8),
            Subcommand::Enable6AxisSensor => Some(0x40u8),
            Subcommand::EnableVibration => Some(0x48u8),
            Subcommand::Unknown => None,
        }
    }

    pub fn from_byte(byte: u8) -> (r: Self)
        ensures
            r == Self::spec_from_byte(byte),
    {
        match byte {
            0x02 => Subcommand::RequestDeviceInfo,
            0x03 => Subcommand::SetInputReportMode,
            0x04 => Subcommand::TriggerButtonsElapsedTime,
            0x08 => Subcommand::SetShipmentState,
            0x10 => Subcommand::SpiFlashRead,
            0x21 => Subcommand::SetNfcIrMcuConfig,
            0x22 => Subcommand::SetNfcIrMcuState,
            0x30 => Subcommand::SetPlayerLights,
            0x40 => Subcommand::Enable6AxisSensor,
            0x48 => Subcommand::EnableVibration,
            _ => Subcommand::Unknown,
        }
    }

    /// The wire byte; converting `Unknown` is not possible.
    pub fn to_byte(&self) -> (r: u8)
        requires
            !(*self is Unknown),
        ensures
            Some(r) == self.spec_byte(),
    {
        match self.try_to_byte() {
            Some(b) => b,
            None => vstd::pervasive::unreached(),
        }
    }

    pub fn try_to_byte(&self) -> (r: Option<u8>)
        ensures
            r == self.spec_byte(),
    {
        match self {
            Subcommand::RequestDeviceInfo => Some(0x02),
            Subcommand::SetInputReportMode => Some(0x03),
            Subcommand::TriggerButtonsElapsedTime => Some(0x04),
            Subcommand::SetShipmentState => Some(0x08),
            Subcommand::SpiFlashRead => Some(0x10),
            Subcommand::SetNfcIrMcuConfig => Some(0x21),
            Subcommand::SetNfcIrMcuState => Some(0x22),
            Subcommand::SetPlayerLights => Some(0x30),
            Subcommand::Enable6AxisSensor => Some(0x40),
            Subcommand::EnableVibration => Some(0x48),
            Subcommand::Unknown => None,
        }
    }
}

/// Output report identifiers, with `Unknown` standing for unrecognized bytes.
#[derive(Clone, Copy, Debug, PartialEq, Eq, Structural, PartialOrd, Ord, Hash)]
pub enum OutputReportId {
    Unknown,
    SubCommand,
    RumbleOnly,
    RequestIrNfcMcu,
}

impl OutputReportId {
    pub open spec fn spec_from_byte(byte: u8) -> Self {
        if byte == 0x01 {
            OutputReportId::SubCommand
        } else if byte == 0x10 {
            OutputReportId::RumbleOnly
        } else if byte == 0x11 {
            OutputReportId::RequestIrNfcMcu
        } else {
            OutputReportId::Unknown
        }
    }

    pub open spec fn spec_byte(self) -> Option<u8> {
        match self {
            OutputReportId::SubCommand => Some(0x01u8),
            OutputReportId::RumbleOnly => Some(0x10u8),
            OutputReportId::RequestIrNfcMcu => Some(0x11u8),
            OutputReportId::Unknown => None,
        }
    }

    pub fn from_byte(byte: u8) -> (r: Self)
        ensures
            r == Self::spec_from_byte(byte),
    {
        match byte {
            0x01 => OutputReportId::SubCommand,
            0x10 => OutputReportId::RumbleOnly,
            0x11 => OutputReportId::RequestIrNfcMcu,
            _ => OutputReportId::Unknown,
        }
    }

    /// The wire byte; converting `Unknown` is not possible.
    pub fn to_byte(&self) -> (r: u8)
        requires
            !(*self is Unknown),
        ensures
            Some(r) == self.spec_byte(),
    {
        match self.try_to_byte() {
            Some(b) => b,
            None => vstd::pervasive::unreached(),
        }
    }

    pub fn try_to_byte(&self) -> (r: Option<u8>)
        ensures
            r == self.spec_byte(),
    {
        match self {
            OutputReportId::SubCommand => Some(0x01),
            OutputReportId::RumbleOnly => Some(0x10),
            OutputReportId::RequestIrNfcMcu => Some(0x11),
            OutputReportId::Unknown => None,
        }
    }
}

/// A message from the host to the controller, checked on construction.
#[derive(Clone, Debug)]
pub struct OutputReport {
    data: Vec<u8>,
}

impl OutputReport {
    pub closed spec fn spec_data(&self) -> Seq<u8> {
        self.data@
    }

    /// A blank report of 50 bytes: the `0xA2` header, then zeros.
    pub fn new() -> (r: Self)
        ensures
            r.spec_data() == Seq::new(50, |i: int| if i == 0 { 0xA2u8 } else { 0u8 }),
    {
        let mut data: Vec<u8> = vec![0u8; 50];
        data.set(0, 0xA2);
        assert(data@ =~= Seq::new(50, |i: int| if i == 0 { 0xA2u8 } else { 0u8 }));
        OutputReport { data }
    }

    /// Reads a report of at least 12 bytes.
    pub fn with_data(data: &[u8]) -> (r: ReportResult<Self>)
        ensures
            data@.len() < 12 ==> r == Err::<Self, ReportError>(ReportError::TooShortDataLength),
            data@.len() >= 12 && data@[0] != 0xA2 ==> r == Err::<Self, ReportError>(
                ReportError::Malformed,
            ),
            data@.len() >= 12 && data@[0] == 0xA2 ==> (r matches Ok(rep) && rep.spec_data()
                == data@),
    {
        Self::with_data_and_length(data, 12)
    }

    /// Reads a report of at least `length` bytes (and never fewer than 12)
    /// starting with the `0xA2` header.
    pub fn with_data_and_length(data: &[u8], length: usize) -> (r: ReportResult<Self>)
        ensures
            ({
                let min = if length > 12 { length as int } else { 12 };
                &&& data@.len() < min ==> r == Err::<Self, ReportError>(
                    ReportError::TooShortDataLength,
                )
                &&& data@.len() >= min && data@[0] != 0xA2 ==> r == Err::<Self, ReportError>(
                    ReportError::Malformed,
                )
                &&& data@.len() >= min && data@[0] == 0xA2 ==> (r matches Ok(rep)
                    && rep.spec_data() == data@)
            }),
    {
        let min_len = if length > 12 { length } else { 12 };
        if data.len() < min_len {
            return Err(ReportError::TooShortDataLength);
        }
        if data[0] != 0xA2 {
            return Err(ReportError::Malformed);
        }
        Ok(OutputReport { data: vstd::slice::slice_to_vec(data) })
    }

    pub fn output_report_id(&self) -> (r: OutputReportId)
        requires
            self.spec_data().len() >= 12,
        ensures
            r == OutputReportId::spec_from_byte(self.spec_data()[1]),
    {
        OutputReportId::from_byte(self.data[1])
    }

    /// Writes the id byte; `Unknown` is refused.
    pub fn set_output_report_id(&mut self, id: OutputReportId) -> (r: ReportResult<()>)
        requires
            old(self).spec_data().len() >= 12,
        ensures
            match id.spec_byte() {
                Some(b) => r is Ok && final(self).spec_data() == old(self).spec_data().update(1, b),
                None => r == Err::<(), ReportError>(ReportError::UnsupportedReportId)
                    && final(self).spec_data() == old(self).spec_data(),
            },
    {
        match id.try_to_byte() {
            Some(byte) => {
                self.data.set(1, byte);
                Ok(())
            },
            None => Err(ReportError::UnsupportedReportId),
        }
    }

    pub fn timer(&self) -> (r: u8)
        requires
            self.spec_data().len() >= 12,
        ensures
            r == self.spec_data()[2],
    {
        self.data[2]
    }

    /// Sets the timer to `timer` modulo 16.
    pub fn set_timer(&mut self, timer: u64) -> (r: ReportResult<()>)
        requires
            old(self).spec_data().len() >= 12,
        ensures
            r is Ok,
            final(self).spec_data() == old(self).spec_data().update(2, (timer % 0x10) as u8),
    {
        self.data.set(2, (timer % 0x10) as u8);
        Ok(())
    }

    pub fn rumble_data(&self) -> (r: &[u8])
        requires
            self.spec_data().len() >= 12,
        ensures
            r@ == self.spec_data().subrange(3, 11),
    {
        vstd::slice::slice_subrange(self.data.as_slice(), 3, 11)
    }

    pub fn subcommand(&self) -> (r: Subcommand)
        requires
            self.spec_data().len() >= 12,
        ensures
            r == Subcommand::spec_from_byte(self.spec_data()[11]),
    {
        Subcommand::from_byte(self.data[11])
    }

    /// Writes the subcommand byte; `Unknown` is refused.
    pub fn set_subcommand(&mut self, subcommand: Subcommand) -> (r: ReportResult<()>)
        requires
            old(self).spec_data().len() >= 12,
        ensures
            match subcommand.spec_byte() {
                Some(b) => r is Ok && final(self).spec_data() == old(self).spec_data().update(
                    11,
                    b,
                ),
                None => r == Err::<(), ReportError>(ReportError::UnsupportedSubcommand)
                    && final(self).spec_data() == old(self).spec_data(),
            },
    {
        match subcommand.try_to_byte() {
            Some(byte) => {
                self.data.set(11, byte);
                Ok(())
            },
            None => Err(ReportError::UnsupportedSubcommand),
        }
    }

    /// The bytes after the subcommand byte; at least one must exist.
    pub fn subcommand_data(&self) -> (r: ReportResult<&[u8]>)
        ensures
            self.spec_data().len() < 13 ==> r == Err::<&[u8], ReportError>(
                ReportError::TooShortDataLength,
            ),
            self.spec_data().len() >= 13 ==> (r matches Ok(d) && d@ == self.spec_data().subrange(
                12,
                self.spec_data().len() as int,
            )),
    {
        let n = self.data.len();
        if n < 13 {
            return Err(ReportError::TooShortDataLength);
        }
        Ok(vstd::slice::slice_subrange(self.data.as_slice(), 12, n))
    }

    /// Overwrites the bytes after the subcommand byte with `data`.
    pub fn set_subcommand_data(&mut self, data: &[u8]) -> (r: ReportResult<()>)
        requires
            12 + data@.len() <= old(self).spec_data().len(),
        ensures
            r is Ok,
            final(self).spec_data() == spec_splice(old(self).spec_data(), 12, data@),
    {
        let ghost orig = self.data@;
        let n = self.data.len();
        let mut i: usize = 0;
        while i < data.len()
            invariant
                n == orig.len(),
                12 + data@.len() <= orig.len(),
                i <= data@.len(),
                self.data@.len() == orig.len(),
                forall|k: int|
                    0 <= k < orig.len() ==> #[trigger] self.data@[k] == if 12 <= k < 12 + i {
                        data@[k - 12]
                    } else {
                        orig[k]
                    },
            decreases data@.len() - i,
        {
            self.data.set(12 + i, data[i]);
            i = i + 1;
        }
        assert(self.data@ =~= spec_splice(orig, 12, data@));
        Ok(())
    }

    /// Turns the report into a SPI flash read request for `size` bytes at
    /// `offset`; requests beyond 0x1D bytes or past the flash are refused.
    pub fn sub_0x10_spi_flash_read(&mut self, offset: u32, size: u8) -> (r: ReportResult<()>)
        requires
            old(self).spec_data().len() >= 17,
            size <= 0x1D ==> size + offset <= u32::MAX,
        ensures
            (size > 0x1D || size + offset > 0x80000) ==> r == Err::<(), ReportError>(
                ReportError::OutOfRange,
            ) && final(self).spec_data() == old(self).spec_data(),
            !(size > 0x1D || size + offset > 0x80000) ==> r is Ok && final(self).spec_data()
                == spec_splice(
                old(self).spec_data().update(1, 0x01u8).update(11, 0x10u8),
                12,
                spec_le32(offset as nat).push(size),
            ),
    {
        if size > 0x1D || (size as u32) + offset > 0x80000 {
            return Err(ReportError::OutOfRange);
        }
        let _ = self.set_output_report_id(OutputReportId::SubCommand);
        let _ = self.set_subcommand(Subcommand::SpiFlashRead);
        let ghost before = self.data@;
        self.data.set(12, (offset % 0x100) as u8);
        self.data.set(13, ((offset / 0x100) % 0x100) as u8);
        self.data.set(14, ((offset / 0x10000) % 0x100) as u8);
        self.data.set(15, ((offset / 0x1000000) % 0x100) as u8);
        self.data.set(16, size);
        assert(self.data@ =~= spec_splice(before, 12, spec_le32(offset as nat).push(size)));
        Ok(())
    }

    pub fn as_bytes(&self) -> (r: &[u8])
        ensures
            r@ == self.spec_data(),
    {
        self.data.as_slice()
    }
}

impl Subcommand {
    /// The wire byte of a known subcommand reads back as that subcommand.
    pub proof fn law_byte_roundtrip(s: Subcommand)
        ensures
            s.spec_byte() matches Some(b) ==> Self::spec_from_byte(b) == s,
    {
    }

    /// A byte that names a subcommand is that subcommand's wire byte.
    pub proof fn law_from_byte_roundtrip(b: u8)
        ensures
            Self::spec_from_byte(b) != Subcommand::Unknown ==> Self::spec_from_byte(b).spec_byte() == Some(b),
    {
    }
}

impl OutputReportId {
    /// The byte of a known identifier reads back as that identifier.
    pub proof fn law_byte_roundtrip(id: OutputReportId)
        ensures
            id.spec_byte() matches Some(b) ==> Self::spec_from_byte(b) == id,
    {
    }
}

impl Subcommand {
    /// The subcommand codes of the Switch's protocol: 0x02 device info,
    /// 0x03 input report mode, 0x04 trigger times, 0x08 shipment state, 0x10
    /// SPI flash read, 0x21 NFC/IR MCU configuration, 0x22 NFC/IR MCU
    /// state, 0x30 player lights, 0x40 six-axis sensor, 0x48 vibration;
    /// every other byte reads as `Unknown`.
    pub proof fn law_protocol_codes(b: u8)
        ensures
            Self::spec_from_byte(0x02) == Subcommand::RequestDeviceInfo,
            Self::spec_from_byte(0x03) == Subcommand::SetInputReportMode,
            Self::spec_from_byte(0x04) == Subcommand::TriggerButtonsElapsedTime,
            Self::spec_from_byte(0x08) == Subcommand::SetShipmentState,
            Self::spec_from_byte(0x10) == Subcommand::SpiFlashRead,
            Self::spec_from_byte(0x21) == Subcommand::SetNfcIrMcuConfig,
            Self::spec_from_byte(0x22) == Subcommand::SetNfcIrMcuState,
            Self::spec_from_byte(0x30) == Subcommand::SetPlayerLights,
            Self::spec_from_byte(0x40) == Subcommand::Enable6AxisSensor,
            Self::spec_from_byte(0x48) == Subcommand::EnableVibration,
            !(b == 0x02 || b == 0x03 || b == 0x04 || b == 0x08 || b == 0x10 || b == 0x21 || b == 0x22
                || b == 0x30 || b == 0x40 || b == 0x48) ==> Self::spec_from_byte(b) == Subcommand::Unknown,
    {
    }
}

} // verus!
