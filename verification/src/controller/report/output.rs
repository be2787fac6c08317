use vstd::prelude::*;
use crate::bytes_spec::{spec_splice, spec_le32};
use super::ReportError;
use super::subcommand::Subcommand;

verus! {

/// Output report identifiers: the byte after the `0xA2` header.
#[derive(Clone, Copy, Debug, PartialEq, Eq, Structural, PartialOrd, Ord, Hash)]
pub enum OutputReportId {
    SubCommand,
    RumbleOnly,
    RequestIrNfcMcu,
}

impl OutputReportId {
    pub open spec fn spec_byte(self) -> u8 {
        match self {
            OutputReportId::SubCommand => 0x01,
            OutputReportId::RumbleOnly => 0x10,
            OutputReportId::RequestIrNfcMcu => 0x11,
        }
    }

    pub open spec fn spec_from_byte(byte: u8) -> Option<Self> {
        if byte == 0x01 {
            Some(OutputReportId::SubCommand)
        } else if byte == 0x10 {
            Some(OutputReportId::RumbleOnly)
        } else if byte == 0x11 {
            Some(OutputReportId::RequestIrNfcMcu)
        } else {
            None
        }
    }

    pub fn from_byte(byte: u8) -> (r: Option<Self>)
        ensures
            r == Self::spec_from_byte(byte),
    {
        match byte {
            0x01 => Some(OutputReportId::SubCommand),
            0x10 => Some(OutputReportId::RumbleOnly),
            0x11 => Some(OutputReportId::RequestIrNfcMcu),
            _ => None,
        }
    }

    pub fn to_byte(&self) -> (r: u8)
        ensures
            r == self.spec_byte(),
    {
        match self {
            OutputReportId::SubCommand => 0x01,
            OutputReportId::RumbleOnly => 0x10,
            OutputReportId::RequestIrNfcMcu => 0x11,
        }
    }
}

/// Shortest output report accepted: header, id, timer and rumble data.
pub const OUTPUT_REPORT_MIN_LEN: usize = 11;

/// Index of the subcommand byte.
pub const OUTPUT_SUBCOMMAND_INDEX: usize = 11;

/// A message from the host to the controller. Layout: `0xA2` header, report
/// id, timer, eight bytes of rumble data, subcommand, subcommand data.
#[derive(Debug)]
pub struct OutputReport {
    buf: Vec<u8>,
}

impl Clone for OutputReport {
    fn clone(&self) -> (r: Self)
        ensures
            r.spec_data() == self.spec_data(),
    {
        proof {
            use_type_invariant(self);
        }
        let buf = self.buf.clone();
        assert(buf@ =~= self.buf@);
        OutputReport { buf }
    }
}

impl OutputReport {
    /// Every output report starts with the `0xA2` header and holds at least
    /// the minimum length.
    #[verifier::type_invariant]
    spec fn well_formed(self) -> bool {
        self.buf@.len() >= OUTPUT_REPORT_MIN_LEN && self.buf@[0] == 0xA2
    }

    /// The report's bytes.
    pub closed spec fn spec_data(&self) -> Seq<u8> {
        self.buf@
    }

    /// Takes the bytes out, leaving a blank header in their place until
    /// they are put back.
    fn take_buf(&mut self) -> (r: Vec<u8>)
        ensures
            r@ == old(self).spec_data(),
            r@.len() >= OUTPUT_REPORT_MIN_LEN,
            r@[0] == 0xA2,
    {
        proof {
            use_type_invariant(&*self);
        }
        let mut buf: Vec<u8> = vec![0xA2u8; OUTPUT_REPORT_MIN_LEN];
        std::mem::swap(&mut buf, &mut self.buf);
        buf
    }

    /// The subcommand that the report carries.
    pub open spec fn spec_subcommand(&self) -> Option<Subcommand> {
        if self.spec_data().len() < 12 {
            Some(Subcommand::Empty)
        } else {
            Subcommand::spec_from_byte(self.spec_data()[11])
        }
    }

    /// A blank report of 50 bytes: the header, then zeros.
    pub fn new() -> (r: Self)
        ensures
            r.spec_data() == Seq::new(50, |i: int| if i == 0 { 0xA2u8 } else { 0u8 }),
    {
        let mut buf: Vec<u8> = vec![0u8; 50];
        buf.set(0, 0xA2);
        assert(buf@ =~= Seq::new(50, |i: int| if i == 0 { 0xA2u8 } else { 0u8 }));
        OutputReport { buf }
    }

    /// Reads a report from raw bytes: at least the minimum length, starting
    /// with the `0xA2` header.
    pub fn with_raw(data: &[u8]) -> (r: Result<Self, ReportError>)
        ensures
            data@.len() < OUTPUT_REPORT_MIN_LEN ==> r == Err::<Self, ReportError>(
                ReportError::TooShort,
            ),
            data@.len() >= OUTPUT_REPORT_MIN_LEN && data@[0] != 0xA2 ==> r == Err::<
                Self,
                ReportError,
            >(ReportError::Malformed),
            data@.len() >= OUTPUT_REPORT_MIN_LEN && data@[0] == 0xA2 ==> (r matches Ok(rep)
                && rep.spec_data() == data@),
    {
        if data.len() < OUTPUT_REPORT_MIN_LEN {
            return Err(ReportError::TooShort);
        }
        if data[0] != 0xA2 {
            return Err(ReportError::Malformed);
        }
        Ok(OutputReport { buf: vstd::slice::slice_to_vec(data) })
    }

    pub fn output_report_id(&self) -> (r: Option<OutputReportId>)
        ensures
            r == OutputReportId::spec_from_byte(self.spec_data()[1]),
    {
        proof {
            use_type_invariant(self);
        }
        OutputReportId::from_byte(self.buf[1])
    }

    pub fn set_output_report_id(&mut self, id: OutputReportId)
        ensures
            final(self).spec_data() == old(self).spec_data().update(1, id.spec_byte()),
    {
        let mut buf = self.take_buf();
        buf.set(1, id.to_byte());
        self.buf = buf;
    }

    pub fn timer(&self) -> (r: u8)
        ensures
            r == self.spec_data()[2],
    {
        proof {
            use_type_invariant(self);
        }
        self.buf[2]
    }

    /// Sets the timer to `timer` modulo 16.
    pub fn set_timer(&mut self, timer: u64)
        ensures
            final(self).spec_data() == old(self).spec_data().update(2, (timer % 0x10) as u8),
    {
        let mut buf = self.take_buf();
        buf.set(2, (timer % 0x10) as u8);
        self.buf = buf;
    }

    pub fn rumble_data(&self) -> (r: &[u8])
        ensures
            r@ == self.spec_data().subrange(3, 11),
    {
        proof {
            use_type_invariant(self);
        }
        vstd::slice::slice_subrange(self.buf.as_slice(), 3, 11)
    }

    /// The subcommand byte's meaning; a report without one reads as `Empty`.
    pub fn subcommand(&self) -> (r: Option<Subcommand>)
        ensures
            r == self.spec_subcommand(),
    {
        if self.buf.len() < 12 {
            Some(Subcommand::Empty)
        } else {
            Subcommand::from_byte(self.buf[11])
        }
    }

    /// Writes the subcommand byte; `Empty` has no byte and cannot be written.
    pub fn set_subcommand(&mut self, subcommand: Subcommand)
        requires
            old(self).spec_data().len() >= 12,
            subcommand.spec_byte() is Some,
        ensures
            final(self).spec_data() == old(self).spec_data().update(
                11,
                subcommand.spec_byte().unwrap(),
            ),
    {
        match subcommand.to_byte() {
            Some(byte) => {
                let mut buf = self.take_buf();
                buf.set(OUTPUT_SUBCOMMAND_INDEX, byte);
                self.buf = buf;
            },
            None => {},
        }
    }

    /// The bytes after the subcommand byte.
    pub fn subcommand_data(&self) -> (r: Result<&[u8], ReportError>)
        ensures
            self.spec_data().len() < 12 ==> r == Err::<&[u8], ReportError>(
                ReportError::NoDataAvailable,
            ),
            self.spec_data().len() >= 12 ==> (r matches Ok(d) && d@ == self.spec_data().subrange(
                12,
                self.spec_data().len() as int,
            )),
    {
        let n = self.buf.len();
        if n < 12 {
            return Err(ReportError::NoDataAvailable);
        }
        Ok(vstd::slice::slice_subrange(self.buf.as_slice(), 12, n))
    }

    pub fn set_subcommand_data(&mut self, data: &[u8])
        requires
            12 + data@.len() <= old(self).spec_data().len(),
        ensures
            final(self).spec_data() == spec_splice(old(self).spec_data(), 12, data@),
    {
        let mut buf = self.take_buf();
        let ghost orig = buf@;
        let n = buf.len();
        let mut i: usize = 0;
        while i < data.len()
            invariant
                n == orig.len(),
                12 + data@.len() <= orig.len(),
                i <= data@.len(),
                buf@.len() == orig.len(),
                forall|k: int|
                    0 <= k < orig.len() ==> #[trigger] buf@[k] == if 12 <= k < 12 + i {
                        data@[k - 12]
                    } else {
                        orig[k]
                    },
            decreases data@.len() - i,
        {
            buf.set(12 + i, data[i]);
            i = i + 1;
        }
        assert(buf@ =~= spec_splice(orig, 12, data@));
        self.buf = buf;
    }

    /// Turns the report into a SPI flash read request for `size` bytes at
    /// `offset`: id `SubCommand`, subcommand `SpiFlashRead`, the offset in
    /// little-endian order, then the size. Requests beyond 0x1D bytes or past
    /// the end of the flash are refused.
    pub fn sub_0x10_spi_flash_read(&mut self, offset: u32, size: u8) -> (r: Result<
        (),
        ReportError,
    >)
        requires
            old(self).spec_data().len() >= 17,
            size <= 0x1D ==> size + offset <= u32::MAX,
        ensures
            (size > 0x1D || size + offset > 0x80000) ==> r == Err::<(), ReportError>(
                ReportError::OutOfBounds,
            ) && final(self).spec_data() == old(self).spec_data(),
            !(size > 0x1D || size + offset > 0x80000) ==> r is Ok && final(self).spec_data()
                == spec_splice(
                old(self).spec_data().update(1, 0x01u8).update(11, 0x10u8),
                12,
                spec_le32(offset as nat).push(size),
            ),
    {
        if size > 0x1D || (size as u32) + offset > 0x80000 {
            return Err(ReportError::OutOfBounds);
        }
        self.set_output_report_id(OutputReportId::SubCommand);
        self.set_subcommand(Subcommand::SpiFlashRead);
        let mut buf = self.take_buf();
        let ghost before = buf@;
        let mut cur_offset = offset;
        let mut i: usize = 12;
        while i < 16
            invariant
                12 <= i <= 16,
                before.len() >= 17,
                buf@.len() == before.len(),
                cur_offset as nat == offset as nat / pow256(i - 12),
                forall|k: int|
                    0 <= k < before.len() ==> #[trigger] buf@[k] == if 12 <= k < i {
                        spec_le32(offset as nat)[k - 12]
                    } else {
                        before[k]
                    },
            decreases 16 - i,
        {
            proof {
                lemma_le32_digit(offset as nat, (i - 12) as nat);
            }
            buf.set(i, (cur_offset % 0x100) as u8);
            cur_offset = cur_offset / 0x100;
            proof {
                vstd::arithmetic::div_mod::lemma_div_denominator(
                    offset as int,
                    pow256((i - 12) as int) as int,
                    0x100,
                );
            }
            i = i + 1;
        }
        buf.set(16, size);
        assert(buf@ =~= spec_splice(before, 12, spec_le32(offset as nat).push(size)));
        self.buf = buf;
        Ok(())
    }

    /// The report's bytes. Whatever built and changed the report since,
    /// they start with the `0xA2` header and hold at least the minimum
    /// length (the setters keep the length).
    pub fn data(&self) -> (r: &[u8])
        ensures
            r@ == self.spec_data(),
            r@.len() >= OUTPUT_REPORT_MIN_LEN,
            r@[0] == 0xA2,
    {
        proof {
            use_type_invariant(self);
        }
        self.buf.as_slice()
    }
}

/// `256^n` for the byte positions of a 32-bit value.
pub open spec fn pow256(n: int) -> nat {
    if n <= 0 {
        1
    } else if n == 1 {
        0x100
    } else if n == 2 {
        0x10000
    } else if n == 3 {
        0x1000000
    } else {
        0x1_0000_0000
    }
}

proof fn lemma_le32_digit(v: nat, n: nat)
    requires
        n < 4,
    ensures
        spec_le32(v)[n as int] == ((v / pow256(n as int)) % 0x100) as u8,
        pow256(n as int) * 0x100 == pow256(n as int + 1),
{
}

impl OutputReportId {
    /// The byte of an identifier reads back as that identifier, and a byte
    /// that names an identifier is its byte.
    pub proof fn law_byte_roundtrip(id: OutputReportId, b: u8)
        ensures
            Self::spec_from_byte(id.spec_byte()) == Some(id),
            Self::spec_from_byte(b) matches Some(x) ==> x.spec_byte() == b,
    {
    }
}

impl OutputReportId {
    /// The output report ids of the Switch's protocol: 0x01 subcommand,
    /// 0x10 rumble only, 0x11 NFC/IR MCU request; nothing else.
    pub proof fn law_protocol_codes(b: u8)
        ensures
            Self::spec_from_byte(0x01) == Some(OutputReportId::SubCommand),
            Self::spec_from_byte(0x10) == Some(OutputReportId::RumbleOnly),
            Self::spec_from_byte(0x11) == Some(OutputReportId::RequestIrNfcMcu),
            !(b == 0x01 || b == 0x10 || b == 0x11) ==> Self::spec_from_byte(b) is None,
    {
    }
}

} // verus!
