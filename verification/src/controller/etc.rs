use vstd::prelude::*;
use crate::controller::interval::Seconds;

verus! {

/// The delay between sent reports for an input report mode, at 60 Hz in
/// the full modes.
pub struct SendDelay(Option<u8>);

/// Delay for each report mode: none while no mode is set or for subcommand
/// replies only (0x21), one second for default reports (0x3F), 60 Hz for the
/// full modes (0x30, 0x31); other modes are unknown.
pub open spec fn spec_delay_for(mode: Option<u8>) -> Option<Seconds> {
    match mode {
        None => Some(Seconds::Infinite),
        Some(m) => if m == 0x3F {
            Some(Seconds::Fraction { num: 1, den: 1 })
        } else if m == 0x21 {
            Some(Seconds::Infinite)
        } else if m == 0x30 || m == 0x31 {
            Some(Seconds::Fraction { num: 1, den: 60 })
        } else {
            None
        },
    }
}

impl SendDelay {
    pub closed spec fn spec_mode(&self) -> Option<u8> {
        self.0
    }

    pub fn new(mode: Option<u8>) -> (r: Self)
        ensures
            r.spec_mode() == mode,
    {
        SendDelay(mode)
    }

    /// The delay for the mode; unknown modes yield `None`.
    pub fn to_byte(&self) -> (r: Option<Seconds>)
        ensures
            r == spec_delay_for(self.spec_mode()),
    {
        let Some(mode) = self.0 else {
            return Some(Seconds::Infinite);
        };
        match mode {
            0x3F => Some(Seconds::Fraction { num: 1, den: 1 }),
            0x21 => Some(Seconds::Infinite),
            0x30 => Some(Seconds::Fraction { num: 1, den: 60 }),
            0x31 => Some(Seconds::Fraction { num: 1, den: 60 }),
            _ => None,
        }
    }
}

/// The delay of each report mode: the full modes 0x30 and 0x31 alike at
/// 1/60 s, default reports (0x3F) at 1 s, no mode and 0x21 without periodic
/// sending; other modes have none.
pub proof fn law_report_mode_delays(m: u8)
    ensures
        spec_delay_for(Some(0x31u8)) == spec_delay_for(Some(0x30u8)),
        spec_delay_for(Some(0x30u8)) == Some(Seconds::Fraction { num: 1, den: 60 }),
        spec_delay_for(Some(0x3Fu8)) == Some(Seconds::Fraction { num: 1, den: 1 }),
        spec_delay_for(None) == Some(Seconds::Infinite),
        spec_delay_for(Some(0x21u8)) == Some(Seconds::Infinite),
        !(m == 0x30 || m == 0x31 || m == 0x3F || m == 0x21) ==> spec_delay_for(Some(m)) is None,
{
}

} // verus!
