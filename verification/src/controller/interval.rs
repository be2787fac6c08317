use vstd::prelude::*;

verus! {

/// A span of time between reports, in seconds: a fraction, or never.
#[derive(Clone, Copy, Debug, PartialEq, Eq, Structural)]
pub enum Seconds {
    /// `num / den` seconds.
    Fraction { num: u32, den: u32 },
    /// No periodic sending.
    Infinite,
}

/// One fifteenth of a second, the pace used while pairing.
pub open spec fn spec_fifteenth() -> Seconds {
    Seconds::Fraction { num: 1, den: 15 }
}

/// The pace at which input reports are written for an input report mode.
#[derive(Clone, Copy, Debug)]
pub struct SendInterval(pub Option<u8>);

/// Pace for each report mode: none while no mode is set or for subcommand
/// replies only (0x21), one second for default reports (0x3F), 15 Hz for
/// the full modes (0x30, 0x31); other modes are unknown.
pub open spec fn spec_interval_for(mode: Option<u8>) -> Option<Seconds> {
    match mode {
        None => Some(Seconds::Infinite),
        Some(m) => if m == 0x3F {
            Some(Seconds::Fraction { num: 1, den: 1 })
        } else if m == 0x21 {
            Some(Seconds::Infinite)
        } else if m == 0x30 || m == 0x31 {
            Some(spec_fifteenth())
        } else {
            None
        },
    }
}

impl SendInterval {
    pub fn new(mode: Option<u8>) -> (r: Self)
        ensures
            r.0 == mode,
    {
        SendInterval(mode)
    }

    /// The pace for the mode; unknown modes are left to the caller, who
    /// falls back to [`SendInterval::default_byte`].
    pub fn to_byte(&self) -> (r: Option<Seconds>)
        ensures
            r == spec_interval_for(self.0),
    {
        let Some(mode) = self.0 else {
            return Some(Seconds::Infinite);
        };
        match mode {
            0x3F => Some(Seconds::Fraction { num: 1, den: 1 }),
            0x21 => Some(Seconds::Infinite),
            0x30 => Some(Seconds::Fraction { num: 1, den: 15 }),
            0x31 => Some(Seconds::Fraction { num: 1, den: 15 }),
            _ => None,
        }
    }

    /// The default pace, 15 Hz.
    pub fn default_byte() -> (r: Seconds)
        ensures
            r == spec_fifteenth(),
    {
        Seconds::Fraction { num: 1, den: 15 }
    }
}

/// The pace of each report mode: the full modes 0x30 and 0x31 alike at
/// 1/15 s, default reports (0x3F) at 1 s, no mode and subcommand replies
/// only (0x21) without periodic sending; other modes have no pace.
pub proof fn law_report_mode_paces(m: u8)
    ensures
        spec_interval_for(Some(0x31u8)) == spec_interval_for(Some(0x30u8)),
        spec_interval_for(Some(0x30u8)) == Some(Seconds::Fraction { num: 1, den: 15 }),
        spec_interval_for(Some(0x3Fu8)) == Some(Seconds::Fraction { num: 1, den: 1 }),
        spec_interval_for(None) == Some(Seconds::Infinite),
        spec_interval_for(Some(0x21u8)) == Some(Seconds::Infinite),
        !(m == 0x30 || m == 0x31 || m == 0x3F || m == 0x21) ==> spec_interval_for(Some(m)) is None,
{
}

} // verus!
