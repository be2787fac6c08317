use vstd::prelude::*;
use crate::controller::state::button::ButtonKey;

pub mod calibration;
pub mod checked_report;
pub mod etc;
pub mod info;
pub mod interval;
pub mod protocol;
pub mod report;
pub mod spi_flash;
pub mod state;
pub mod subcommand;

verus! {

/// The kind of controller being emulated.
#[derive(Clone, Copy, Debug, PartialEq, Eq, Structural, PartialOrd, Ord, Hash)]
pub enum ControllerType {
    JoyConL,
    JoyConR,
    ProController,
}

impl Default for ControllerType {
    fn default() -> (r: Self)
        ensures
            r == ControllerType::ProController,
    {
        ControllerType::ProController
    }
}

impl ControllerType {
    /// Identifier byte that the host uses for each controller kind.
    pub open spec fn spec_id(self) -> u8 {
        match self {
            ControllerType::JoyConL => 0x01,
            ControllerType::JoyConR => 0x02,
            ControllerType::ProController => 0x03,
        }
    }

    /// The variant's name, as written and read.
    pub open spec fn spec_variant_name(self) -> Seq<char> {
        match self {
            ControllerType::JoyConL => seq!['J', 'o', 'y', 'C', 'o', 'n', 'L'],
            ControllerType::JoyConR => seq!['J', 'o', 'y', 'C', 'o', 'n', 'R'],
            ControllerType::ProController => seq![
                'P', 'r', 'o', 'C', 'o', 'n', 't', 'r', 'o', 'l', 'l', 'e', 'r',
            ],
        }
    }

    /// Product name that the controller announces.
    pub open spec fn spec_name(self) -> Seq<char> {
        match self {
            ControllerType::JoyConL => seq!['J', 'o', 'y', '-', 'C', 'o', 'n', ' ', '(', 'L', ')'],
            ControllerType::JoyConR => seq!['J', 'o', 'y', '-', 'C', 'o', 'n', ' ', '(', 'R', ')'],
            ControllerType::ProController => seq![
                'P', 'r', 'o', ' ', 'C', 'o', 'n', 't', 'r', 'o', 'l', 'l', 'e', 'r',
            ],
        }
    }

    /// Button bits (big-endian over a zero byte and the three button bytes)
    /// whose press ends pairing.
    pub open spec fn spec_close_pairing_masks(self) -> u32 {
        match self {
            ControllerType::JoyConL => 0x000A1000,
            ControllerType::JoyConR => 0x00000009,
            ControllerType::ProController => 0x000C1000,
        }
    }

    pub open spec fn spec_close_pairing_menu_seq(self) -> Seq<ButtonKey> {
        match self {
            ControllerType::JoyConL => seq![ButtonKey::X, ButtonKey::A, ButtonKey::Home],
            ControllerType::JoyConR => seq![ButtonKey::Down, ButtonKey::Left],
            ControllerType::ProController => seq![ButtonKey::A, ButtonKey::B, ButtonKey::Home],
        }
    }

    pub fn from_id(id: u8) -> (r: Option<Self>)
        ensures
            r matches Some(t) ==> t.spec_id() == id,
            r is None <==> !(id == 0x01 || id == 0x02 || id == 0x03),
    {
        match id {
            0x01 => Some(ControllerType::JoyConL),
            0x02 => Some(ControllerType::JoyConR),
            0x03 => Some(ControllerType::ProController),
            _ => None,
        }
    }

    pub fn id(&self) -> (r: u8)
        ensures
            r == self.spec_id(),
    {
        match self {
            ControllerType::JoyConL => 0x01,
            ControllerType::JoyConR => 0x02,
            ControllerType::ProController => 0x03,
        }
    }

    pub fn name(&self) -> (r: String)
        ensures
            r@ == self.spec_name(),
    {
        match self {
            ControllerType::JoyConL => {
                let s = "Joy-Con (L)";
                proof { reveal_strlit("Joy-Con (L)"); }
                s.to_owned()
            },
            ControllerType::JoyConR => {
                let s = "Joy-Con (R)";
                proof { reveal_strlit("Joy-Con (R)"); }
                s.to_owned()
            },
            ControllerType::ProController => {
                let s = "Pro Controller";
                proof { reveal_strlit("Pro Controller"); }
                s.to_owned()
            },
        }
    }

    /// The variant's name as text, e.g. `"JoyConL"`.
    pub fn to_string(&self) -> (r: String)
        ensures
            r@ == self.spec_variant_name(),
    {
        match self {
            ControllerType::JoyConL => {
                let s = "JoyConL";
                proof { reveal_strlit("JoyConL"); }
                s.to_owned()
            },
            ControllerType::JoyConR => {
                let s = "JoyConR";
                proof { reveal_strlit("JoyConR"); }
                s.to_owned()
            },
            ControllerType::ProController => {
                let s = "ProController";
                proof { reveal_strlit("ProController"); }
                s.to_owned()
            },
        }
    }

    /// Reads a controller type from its variant name.
    pub fn from_str(s: &str) -> (r: Result<Self, state::button::ParseError>)
        ensures
            r matches Ok(t) ==> t.spec_variant_name() == s@,
            r is Err <==> (forall|t: ControllerType| t.spec_variant_name() != s@),
    {
        let l = "JoyConL";
        let rr = "JoyConR";
        let p = "ProController";
        proof {
            reveal_strlit("JoyConL");
            reveal_strlit("JoyConR");
            reveal_strlit("ProController");
            assert(l@ =~= ControllerType::JoyConL.spec_variant_name());
            assert(rr@ =~= ControllerType::JoyConR.spec_variant_name());
            assert(p@ =~= ControllerType::ProController.spec_variant_name());
        }
        if crate::text::str_equal(s, l) {
            Ok(ControllerType::JoyConL)
        } else if crate::text::str_equal(s, rr) {
            Ok(ControllerType::JoyConR)
        } else if crate::text::str_equal(s, p) {
            Ok(ControllerType::ProController)
        } else {
            assert forall|t: ControllerType| t.spec_variant_name() != s@ by {
                match t {
                    ControllerType::JoyConL => {},
                    ControllerType::JoyConR => {},
                    ControllerType::ProController => {},
                }
            }
            Err(state::button::ParseError::VariantNotFound)
        }
    }

    pub fn connection_info(&self) -> (r: u8)
        ensures
            r == (if *self is ProController { 0x00u8 } else { 0x0Eu8 }),
    {
        match self {
            ControllerType::ProController => 0x00,
            _ => 0x0E,
        }
    }

    pub fn device_info_color(&self) -> (r: u8)
        ensures
            r == (if *self is ProController { 0x02u8 } else { 0x01u8 }),
    {
        match self {
            ControllerType::ProController => 0x02,
            _ => 0x01,
        }
    }

    pub fn close_pairing_masks(&self) -> (r: u32)
        ensures
            r == self.spec_close_pairing_masks(),
    {
        match self {
            ControllerType::JoyConL => u32_from_be_bytes(0x00, 0x0A, 0x10, 0x00),
            ControllerType::JoyConR => u32_from_be_bytes(0x00, 0x00, 0x00, 0x09),
            ControllerType::ProController => u32_from_be_bytes(0x00, 0x0C, 0x10, 0x00),
        }
    }

    pub fn close_pairing_menu_seq(&self) -> (r: Vec<ButtonKey>)
        ensures
            r@ == self.spec_close_pairing_menu_seq(),
    {
        match self {
            ControllerType::JoyConL => vec![ButtonKey::X, ButtonKey::A, ButtonKey::Home],
            ControllerType::JoyConR => vec![ButtonKey::Down, ButtonKey::Left],
            ControllerType::ProController => vec![ButtonKey::A, ButtonKey::B, ButtonKey::Home],
        }
    }
}

/// The big-endian value of four bytes.
pub open spec fn spec_u32_be(b0: u8, b1: u8, b2: u8, b3: u8) -> u32 {
    (b0 as u32 * 0x1000000 + b1 as u32 * 0x10000 + b2 as u32 * 0x100 + b3 as u32) as u32
}

/// Reads four bytes as a big-endian `u32`.
pub fn u32_from_be_bytes(b0: u8, b1: u8, b2: u8, b3: u8) -> (r: u32)
    ensures
        r == spec_u32_be(b0, b1, b2, b3),
{
    (b0 as u32) * 0x1000000 + (b1 as u32) * 0x10000 + (b2 as u32) * 0x100 + (b3 as u32)
}

impl ControllerType {
    /// The controller ids of the Switch's protocol (1 for a left Joy-Con, 2
    /// for a right one, 3 for a Pro Controller) and the buttons of each
    /// controller's close-pairing menu: X, A, Home on a left Joy-Con; Down,
    /// Left on a right one; A, B, Home on a Pro Controller.
    pub proof fn law_protocol_tables()
        ensures
            ControllerType::JoyConL.spec_id() == 1,
            ControllerType::JoyConR.spec_id() == 2,
            ControllerType::ProController.spec_id() == 3,
            ControllerType::JoyConL.spec_close_pairing_menu_seq() == seq![
                ButtonKey::X,
                ButtonKey::A,
                ButtonKey::Home,
            ],
            ControllerType::JoyConR.spec_close_pairing_menu_seq() == seq![ButtonKey::Down, ButtonKey::Left],
            ControllerType::ProController.spec_close_pairing_menu_seq() == seq![
                ButtonKey::A,
                ButtonKey::B,
                ButtonKey::Home,
            ],
    {
    }

    /// The identifier names one controller type, so reading back the
    /// identifier of a type gives that type.
    pub proof fn law_id_identifies(a: ControllerType, b: ControllerType)
        ensures
            a.spec_id() == b.spec_id() ==> a == b,
    {
    }

    /// The variant name names one controller type, so parsing the text of
    /// a type gives that type.
    pub proof fn law_variant_name_identifies(a: ControllerType, b: ControllerType)
        ensures
            a.spec_variant_name() == b.spec_variant_name() ==> a == b,
    {
        if a.spec_variant_name() == b.spec_variant_name() {
            assert(a.spec_variant_name()[0] == b.spec_variant_name()[0]);
            assert(a.spec_variant_name()[6] == b.spec_variant_name()[6]);
        }
    }
}

} // verus!
