use vstd::prelude::*;

verus! {

/// Subcommands that the host sends in output reports.
#[derive(Clone, Copy, Debug, PartialEq, Eq, Structural, PartialOrd, Ord, Hash)]
pub enum Subcommand {
    RequestDeviceInfo,
    SetInputReportMode,
    TriggerButtonsElapsedTime,
    SetHciState,
    SetShipmentState,
    SpiFlashRead,
    SetNfcIrMcuConfig,
    SetNfcIrMcuState,
    SetPlayerLights,
    Enable6AxisSensor,
    EnableVibration,
    /// Stands for a report too short to carry a subcommand.
    Empty,
}

impl Subcommand {
    /// The wire byte of each subcommand; `Empty` has none.
    pub open spec fn spec_byte(self) -> Option<u8> {
        match self {
            Subcommand::RequestDeviceInfo => Some(0x02u8),
            Subcommand::SetInputReportMode => Some(0x03u8),
            Subcommand::TriggerButtonsElapsedTime => Some(0x04u8),
            Subcommand::SetHciState => Some(0x06u8),
            Subcommand::SetShipmentState => Some(0x08u8),
            Subcommand::SpiFlashRead => Some(0x10u8),
            Subcommand::SetNfcIrMcuConfig => Some(0x21u8),
            Subcommand::SetNfcIrMcuState => Some(0x22u8),
            Subcommand::SetPlayerLights => Some(0x30u8),
            Subcommand::Enable6AxisSensor => Some(0x40u8),
            Subcommand::EnableVibration => Some(0x48u8),
            Subcommand::Empty => None,
        }
    }

    /// The subcommand that a wire byte names, if any.
    pub open spec fn spec_from_byte(byte: u8) -> Option<Self> {
        if byte == 0x02 {
            Some(Subcommand::RequestDeviceInfo)
        } else if byte == 0x03 {
            Some(Subcommand::SetInputReportMode)
        } else if byte == 0x04 {
            Some(Subcommand::TriggerButtonsElapsedTime)
        } else if byte == 0x06 {
            Some(Subcommand::SetHciState)
        } else if byte == 0x08 {
            Some(Subcommand::SetShipmentState)
        } else if byte == 0x10 {
            Some(Subcommand::SpiFlashRead)
        } else if byte == 0x21 {
            Some(Subcommand::SetNfcIrMcuConfig)
        } else if byte == 0x22 {
            Some(Subcommand::SetNfcIrMcuState)
        } else if byte == 0x30 {
            Some(Subcommand::SetPlayerLights)
        } else if byte == 0x40 {
            Some(Subcommand::Enable6AxisSensor)
        } else if byte == 0x48 {
            Some(Subcommand::EnableVibration)
        } else {
            None
        }
    }

    /// The variant's name, as the subcommand is written in messages.
    pub open spec fn spec_name(self) -> Seq<char> {
        match self {
            Subcommand::RequestDeviceInfo => "RequestDeviceInfo"@,
            Subcommand::SetInputReportMode => "SetInputReportMode"@,
            Subcommand::TriggerButtonsElapsedTime => "TriggerButtonsElapsedTime"@,
            Subcommand::SetHciState => "SetHciState"@,
            Subcommand::SetShipmentState => "SetShipmentState"@,
            Subcommand::SpiFlashRead => "SpiFlashRead"@,
            Subcommand::SetNfcIrMcuConfig => "SetNfcIrMcuConfig"@,
            Subcommand::SetNfcIrMcuState => "SetNfcIrMcuState"@,
            Subcommand::SetPlayerLights => "SetPlayerLights"@,
            Subcommand::Enable6AxisSensor => "Enable6AxisSensor"@,
            Subcommand::EnableVibration => "EnableVibration"@,
            Subcommand::Empty => "Empty"@,
        }
    }

    /// The variant's name as text.
    pub fn to_string(&self) -> (r: String)
        ensures
            r@ == self.spec_name(),
    {
        match self {
            Subcommand::RequestDeviceInfo => "RequestDeviceInfo".to_owned(),
            Subcommand::SetInputReportMode => "SetInputReportMode".to_owned(),
            Subcommand::TriggerButtonsElapsedTime => "TriggerButtonsElapsedTime".to_owned(),
            Subcommand::SetHciState => "SetHciState".to_owned(),
            Subcommand::SetShipmentState => "SetShipmentState".to_owned(),
            Subcommand::SpiFlashRead => "SpiFlashRead".to_owned(),
            Subcommand::SetNfcIrMcuConfig => "SetNfcIrMcuConfig".to_owned(),
            Subcommand::SetNfcIrMcuState => "SetNfcIrMcuState".to_owned(),
            Subcommand::SetPlayerLights => "SetPlayerLights".to_owned(),
            Subcommand::Enable6AxisSensor => "Enable6AxisSensor".to_owned(),
            Subcommand::EnableVibration => "EnableVibration".to_owned(),
            Subcommand::Empty => "Empty".to_owned(),
        }
    }

    pub fn from_byte(byte: u8) -> (r: Option<Self>)
        ensures
            r == Self::spec_from_byte(byte),
    {
        match byte {
            0x02 => Some(Subcommand::RequestDeviceInfo),
            0x03 => Some(Subcommand::SetInputReportMode),
            0x04 => Some(Subcommand::TriggerButtonsElapsedTime),
            0x06 => Some(Subcommand::SetHciState),
            0x08 => Some(Subcommand::SetShipmentState),
            0x10 => Some(Subcommand::SpiFlashRead),
            0x21 => Some(Subcommand::SetNfcIrMcuConfig),
            0x22 => Some(Subcommand::SetNfcIrMcuState),
            0x30 => Some(Subcommand::SetPlayerLights),
            0x40 => Some(Subcommand::Enable6AxisSensor),
            0x48 => Some(Subcommand::EnableVibration),
            _ => None,
        }
    }

    pub fn to_byte(&self) -> (r: Option<u8>)
        ensures
            r == self.spec_byte(),
    {
        match self {
            Subcommand::RequestDeviceInfo => Some(0x02),
            Subcommand::SetInputReportMode => Some(0x03),
            Subcommand::TriggerButtonsElapsedTime => Some(0x04),
            Subcommand::SetHciState => Some(0x06),
            Subcommand::SetShipmentState => Some(0x08),
            Subcommand::SpiFlashRead => Some(0x10),
            Subcommand::SetNfcIrMcuConfig => Some(0x21),
            Subcommand::SetNfcIrMcuState => Some(0x22),
            Subcommand::SetPlayerLights => Some(0x30),
            Subcommand::Enable6AxisSensor => Some(0x40),
            Subcommand::EnableVibration => Some(0x48),
            Subcommand::Empty => None,
        }
    }
}

impl Subcommand {
    /// The wire byte of a subcommand reads back as that subcommand.
    pub proof fn law_byte_roundtrip(s: Subcommand)
        ensures
            s.spec_byte() matches Some(b) ==> Self::spec_from_byte(b) == Some(s),
    {
    }

    /// A byte that names a subcommand is that subcommand's wire byte.
    pub proof fn law_from_byte_roundtrip(b: u8)
        ensures
            Self::spec_from_byte(b) matches Some(s) ==> s.spec_byte() == Some(b),
    {
    }
}

impl Subcommand {
    /// The subcommand codes of the Switch's protocol: 0x02 device info,
    /// 0x03 input report mode, 0x04 trigger times, 0x06 HCI state, 0x08
    /// shipment state, 0x10 SPI flash read, 0x21 NFC/IR MCU configuration,
    /// 0x22 NFC/IR MCU state, 0x30 player lights, 0x40 six-axis sensor, 0x48
    /// vibration; each code names one subcommand.
    pub proof fn law_protocol_codes(b: u8)
        ensures
            Self::spec_from_byte(0x02) == Some(Subcommand::RequestDeviceInfo),
            Self::spec_from_byte(0x03) == Some(Subcommand::SetInputReportMode),
            Self::spec_from_byte(0x04) == Some(Subcommand::TriggerButtonsElapsedTime),
            Self::spec_from_byte(0x06) == Some(Subcommand::SetHciState),
            Self::spec_from_byte(0x08) == Some(Subcommand::SetShipmentState),
            Self::spec_from_byte(0x10) == Some(Subcommand::SpiFlashRead),
            Self::spec_from_byte(0x21) == Some(Subcommand::SetNfcIrMcuConfig),
            Self::spec_from_byte(0x22) == Some(Subcommand::SetNfcIrMcuState),
            Self::spec_from_byte(0x30) == Some(Subcommand::SetPlayerLights),
            Self::spec_from_byte(0x40) == Some(Subcommand::Enable6AxisSensor),
            Self::spec_from_byte(0x48) == Some(Subcommand::EnableVibration),
            !(b == 0x02 || b == 0x03 || b == 0x04 || b == 0x06 || b == 0x08 || b == 0x10 || b == 0x21
                || b == 0x22 || b == 0x30 || b == 0x40 || b == 0x48) ==> Self::spec_from_byte(b) is None,
            Subcommand::Empty.spec_byte() is None,
    {
    }
}

} // verus!
