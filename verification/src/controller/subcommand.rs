use vstd::prelude::*;

verus! {

/// Subcommands that the host sends, as first read from raw output data.
#[derive(Clone, Copy, Debug, PartialEq, Eq, Structural, PartialOrd, Ord, Hash)]
pub enum Subcommand {
    Unknown,
    RequestDeviceInfo,
    SetInputReportMode,
    TriggerButtonsElapsedTime,
    SetShipmentState,
    SpiFlashRead,
    SetNfcIrMcuConfig,
    SetNfcIrMcuState,
    SetPlayerLights,
    Enable6AxisSensor,
    EnableVibration,
}

impl Default for Subcommand {
    fn default() -> (r: Self)
        ensures
            r == Subcommand::Unknown,
    {
        Subcommand::Unknown
    }
}

impl Subcommand {
    /// The subcommand that a wire byte names; other bytes read as `Unknown`.
    pub open spec fn spec_from_byte(byte: u8) -> Self {
        if byte == 0x02 {
            Subcommand::RequestDeviceInfo
        } else if byte == 0x03 {
            Subcommand::SetInputReportMode
        } else if byte == 0x04 {
            Subcommand::TriggerButtonsElapsedTime
        } else if byte == 0x08 {
            Subcommand::SetShipmentState
        } else if byte == 0x10 {
            Subcommand::SpiFlashRead
        } else if byte == 0x21 {
            Subcommand::SetNfcIrMcuConfig
        } else if byte == 0x22 {
            Subcommand::SetNfcIrMcuState
        } else if byte == 0x30 {
            Subcommand::SetPlayerLights
        } else if byte == 0x40 {
            Subcommand::Enable6AxisSensor
        } else if byte == 0x48 {
            Subcommand::EnableVibration
        } else {
            Subcommand::Unknown
        }
    }

    /// The wire byte of each known subcommand.
    pub open spec fn spec_byte(self) -> u8 {
        match self {
            Subcommand::RequestDeviceInfo => 0x02,
            Subcommand::SetInputReportMode => 0x03,
            Subcommand::TriggerButtonsElapsedTime => 0x04,
            Subcommand::SetShipmentState => 0x08,
            Subcommand::SpiFlashRead => 0x10,
            Subcommand::SetNfcIrMcuConfig => 0x21,
            Subcommand::SetNfcIrMcuState => 0x22,
            Subcommand::SetPlayerLights => 0x30,
            Subcommand::Enable6AxisSensor => 0x40,
            Subcommand::EnableVibration => 0x48,
            Subcommand::Unknown => 0,
        }
    }

    pub fn from_byte(byte: u8) -> (r: Self)
        ensures
            r == Self::spec_from_byte(byte),
    {
        match byte {
            0x02 => Subcommand::RequestDeviceInfo,
            0x03 => Subcommand::SetInputReportMode,
            0x04 => Subcommand::TriggerButtonsElapsedTime,
            0x08 => Subcommand::SetShipmentState,
            0x10 => Subcommand::SpiFlashRead,
            0x21 => Subcommand::SetNfcIrMcuConfig,
            0x22 => Subcommand::SetNfcIrMcuState,
            0x30 => Subcommand::SetPlayerLights,
            0x40 => Subcommand::Enable6AxisSensor,
            0x48 => Subcommand::EnableVibration,
            _ => Subcommand::Unknown,
        }
    }

    /// The wire byte; `Unknown` has none and cannot be converted.
    pub fn to_byte(&self) -> (r: u8)
        requires
            !(*self is Unknown),
        ensures
            r == self.spec_byte(),
    {
        match self {
            Subcommand::RequestDeviceInfo => 0x02,
            Subcommand::SetInputReportMode => 0x03,
            Subcommand::TriggerButtonsElapsedTime => 0x04,
            Subcommand::SetShipmentState => 0x08,
            Subcommand::SpiFlashRead => 0x10,
            Subcommand::SetNfcIrMcuConfig => 0x21,
            Subcommand::SetNfcIrMcuState => 0x22,
            Subcommand::SetPlayerLights => 0x30,
            Subcommand::Enable6AxisSensor => 0x40,
            Subcommand::EnableVibration => 0x48,
            Subcommand::Unknown => 0,
        }
    }
}

/// How raw host data was classified.
#[derive(Clone, Copy, Debug, PartialEq, Eq, Structural, PartialOrd, Ord, Hash)]
pub enum SwitchResponseKind {
    NotInitialized,
    NoData,
    Malformed,
    TooShort,
    UnknownSubcommand,
    Subcommand(Subcommand),
}

/// Raw host data split into its report header and subcommand part.
#[derive(Clone, Debug)]
pub struct SwitchResponse {
    pub kind: SwitchResponseKind,
    pub payload: Option<Vec<u8>>,
    pub subcommand: Option<Vec<u8>>,
    pub subcommand_id: Option<u8>,
}

impl SwitchResponse {
    /// Whether `r` is a response of kind `kind` without any parts.
    pub open spec fn spec_bare(r: SwitchResponse, kind: SwitchResponseKind) -> bool {
        &&& r.kind == kind
        &&& r.payload is None
        &&& r.subcommand is None
        &&& r.subcommand_id is None
    }

    /// Reads host data against the standard minimum length of 50 bytes.
    pub fn from_data(data: Option<Vec<u8>>) -> (r: Self)
        ensures
            match data {
                None => Self::spec_bare(r, SwitchResponseKind::NoData),
                Some(d) => Self::spec_classify(r, d@, 50),
            },
    {
        Self::from_data_with_length(data, None)
    }

    /// The classification of data `d` against the minimum length `min`:
    /// shorter than 13 or `min` bytes is too short; data must start with the
    /// `0xA2` output report header; the first 11 bytes are the payload and
    /// the rest the subcommand, whose first byte names it.
    pub open spec fn spec_classify(r: SwitchResponse, d: Seq<u8>, min: int) -> bool {
        if d.len() < 13 || d.len() < min {
            Self::spec_bare(r, SwitchResponseKind::TooShort)
        } else if d[0] != 0xA2 {
            Self::spec_bare(r, SwitchResponseKind::Malformed)
        } else {
            &&& r.kind == SwitchResponseKind::Subcommand(Subcommand::spec_from_byte(d[11]))
            &&& r.payload matches Some(p) && p@ == d.subrange(0, 11)
            &&& r.subcommand matches Some(s) && s@ == d.subrange(11, d.len() as int)
            &&& r.subcommand_id == Some(d[11])
        }
    }

    pub fn from_data_with_length(data: Option<Vec<u8>>, length: Option<usize>) -> (r: Self)
        ensures
            match data {
                None => Self::spec_bare(r, SwitchResponseKind::NoData),
                Some(d) => Self::spec_classify(
                    r,
                    d@,
                    match length { Some(l) => l as int, None => 50 },
                ),
            },
    {
        let Some(d) = data else {
            return SwitchResponse {
                kind: SwitchResponseKind::NoData,
                payload: None,
                subcommand: None,
                subcommand_id: None,
            };
        };
        let min = match length {
            Some(l) => l,
            None => 50,
        };
        if d.len() < 13 || d.len() < min {
            return SwitchResponse {
                kind: SwitchResponseKind::TooShort,
                payload: None,
                subcommand: None,
                subcommand_id: None,
            };
        }
        if d[0] != 0xA2 {
            return SwitchResponse {
                kind: SwitchResponseKind::Malformed,
                payload: None,
                subcommand: None,
                subcommand_id: None,
            };
        }
        let payload = vstd::slice::slice_to_vec(vstd::slice::slice_subrange(d.as_slice(), 0, 11));
        let subcommand = vstd::slice::slice_to_vec(
            vstd::slice::slice_subrange(d.as_slice(), 11, d.len()),
        );
        let subcommand_id = subcommand[0];
        SwitchResponse {
            kind: SwitchResponseKind::Subcommand(Subcommand::from_byte(subcommand_id)),
            payload: Some(payload),
            subcommand: Some(subcommand),
            subcommand_id: Some(subcommand_id),
        }
    }
}

impl Subcommand {
    /// The wire byte of a known subcommand reads back as that subcommand.
    pub proof fn law_byte_roundtrip(s: Subcommand)
        ensures
            s != Subcommand::Unknown ==> Self::spec_from_byte(s.spec_byte()) == s,
    {
    }

    /// A byte that names a subcommand is that subcommand's wire byte.
    pub proof fn law_from_byte_roundtrip(b: u8)
        ensures
            Self::spec_from_byte(b) != Subcommand::Unknown ==> Self::spec_from_byte(b).spec_byte() == b,
    {
    }
}

impl Subcommand {
    /// The subcommand codes of the Switch's protocol: 0x02 device info,
    /// 0x03 input report mode, 0x04 trigger times, 0x08 shipment state, 0x10
    /// SPI flash read, 0x21 NFC/IR MCU configuration, 0x22 NFC/IR MCU
    /// state, 0x30 player lights, 0x40 six-axis sensor, 0x48 vibration;
    /// every other byte reads as `Unknown`.
    pub proof fn law_protocol_codes(b: u8)
        ensures
            Self::spec_from_byte(0x02) == Subcommand::RequestDeviceInfo,
            Self::spec_from_byte(0x03) == Subcommand::SetInputReportMode,
            Self::spec_from_byte(0x04) == Subcommand::TriggerButtonsElapsedTime,
            Self::spec_from_byte(0x08) == Subcommand::SetShipmentState,
            Self::spec_from_byte(0x10) == Subcommand::SpiFlashRead,
            Self::spec_from_byte(0x21) == Subcommand::SetNfcIrMcuConfig,
            Self::spec_from_byte(0x22) == Subcommand::SetNfcIrMcuState,
            Self::spec_from_byte(0x30) == Subcommand::SetPlayerLights,
            Self::spec_from_byte(0x40) == Subcommand::Enable6AxisSensor,
            Self::spec_from_byte(0x48) == Subcommand::EnableVibration,
            !(b == 0x02 || b == 0x03 || b == 0x04 || b == 0x08 || b == 0x10 || b == 0x21 || b == 0x22
                || b == 0x30 || b == 0x40 || b == 0x48) ==> Self::spec_from_byte(b) == Subcommand::Unknown,
    {
    }
}

impl SwitchResponse {
    /// A classified subcommand response splits the data: the payload and
    /// the subcommand part together are the data, and the subcommand id is
    /// the first byte of the subcommand part.
    pub proof fn law_classified_split(r: SwitchResponse, d: Seq<u8>, min: int)
        requires
            Self::spec_classify(r, d, min),
            r.kind is Subcommand,
        ensures
            r.payload matches Some(p) && r.subcommand matches Some(s) && p@ + s@ == d && p@.len() == 11
                && r.subcommand_id == Some(s@[0]) && r.kind == SwitchResponseKind::Subcommand(
                Subcommand::spec_from_byte(s@[0]),
            ),
    {
        let p = r.payload->0;
        let s = r.subcommand->0;
        assert(p@ + s@ =~= d);
    }
}

} // verus!
