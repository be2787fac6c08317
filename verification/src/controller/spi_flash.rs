use vstd::prelude::*;
use bytes::BytesMut;
use crate::buffer::{bytes_mut_contents, bytes_filled, bytes_len, bytes_get, bytes_set, bytes_range, bytes_clone};

verus! {

/// Size of the controller's SPI flash memory.
pub const SPI_FLASH_SIZE: usize = 0x80000;

/// Where the factory calibration of the left stick starts.
pub const L_STICK_FACTORY_OFFSET: usize = 0x603D;

/// Where the factory calibration of the right stick starts.
pub const R_STICK_FACTORY_OFFSET: usize = 0x6046;

/// Where the marker of the user calibration of the left stick starts.
pub const L_STICK_USER_OFFSET: usize = 0x8010;

/// Where the marker of the user calibration of the right stick starts.
pub const R_STICK_USER_OFFSET: usize = 0x801B;

/// Factory calibration written for the left stick.
pub open spec fn spec_l_stick_factory() -> Seq<u8> {
    seq![0x00u8, 0x07, 0x70, 0x00, 0x08, 0x80, 0x00, 0x07, 0x70]
}

/// Factory calibration written for the right stick.
pub open spec fn spec_r_stick_factory() -> Seq<u8> {
    seq![0x00u8, 0x08, 0x80, 0x00, 0x07, 0x70, 0x00, 0x07, 0x70]
}

/// `data` with both factory stick calibrations written in.
pub open spec fn spec_with_factory_calibration(data: Seq<u8>) -> Seq<u8> {
    Seq::new(
        data.len(),
        |i: int|
            if L_STICK_FACTORY_OFFSET <= i < L_STICK_FACTORY_OFFSET + 9 {
                spec_l_stick_factory()[i - L_STICK_FACTORY_OFFSET]
            } else if R_STICK_FACTORY_OFFSET <= i < R_STICK_FACTORY_OFFSET + 9 {
                spec_r_stick_factory()[i - R_STICK_FACTORY_OFFSET]
            } else {
                data[i]
            },
    )
}

/// The nine user calibration bytes at `marker + 2` when the two bytes at
/// `marker` are the magic `0xB2 0xA1`.
pub open spec fn spec_user_calibration(data: Seq<u8>, marker: int) -> Option<Seq<u8>> {
    if data[marker] == 0xB2 && data[marker + 1] == 0xA1 {
        Some(data.subrange(marker + 2, marker + 11))
    } else {
        None
    }
}

/// Settings for a new [`SpiFlash`].
#[derive(Debug)]
pub struct SpiFlashConfig {
    pub buffer: Option<BytesMut>,
    pub size: Option<usize>,
    pub reset: bool,
}

impl Default for SpiFlashConfig {
    fn default() -> (r: Self)
        ensures
            r.buffer is None,
            r.size is None,
            !r.reset,
    {
        SpiFlashConfig { buffer: None, size: None, reset: false }
    }
}

/// Contents of the controller's SPI flash memory.
#[derive(Debug)]
pub struct SpiFlash {
    buf: BytesMut,
}

impl Clone for SpiFlash {
    fn clone(&self) -> (r: Self)
        ensures
            r.spec_data() == self.spec_data(),
    {
        proof {
            use_type_invariant(self);
        }
        SpiFlash { buf: bytes_clone(&self.buf) }
    }
}

/// The size that a configuration asks for: at least the flash size.
pub open spec fn spec_config_size(size: Option<usize>) -> usize {
    match size {
        Some(s) => if s > SPI_FLASH_SIZE { s } else { SPI_FLASH_SIZE },
        None => SPI_FLASH_SIZE,
    }
}

impl SpiFlash {
    #[verifier::type_invariant]
    closed spec fn at_least_flash_size(self) -> bool {
        bytes_mut_contents(self.buf).len() >= SPI_FLASH_SIZE
    }

    /// The memory's bytes.
    pub closed spec fn spec_data(&self) -> Seq<u8> {
        bytes_mut_contents(self.buf)
    }

    /// An erased memory (all `0xFF`) holding the factory stick calibrations.
    pub fn new() -> (r: Self)
        ensures
            r.spec_data() == spec_with_factory_calibration(
                Seq::new(SPI_FLASH_SIZE as nat, |i: int| 0xFFu8),
            ),
    {
        let r = Self::with_config(SpiFlashConfig::default());
        match r {
            Some(f) => f,
            None => vstd::pervasive::unreached(),
        }
    }

    /// A memory of the requested size (at least the flash size). A supplied
    /// buffer must have exactly that size and keeps its bytes unless `reset`
    /// is set; a fresh buffer is erased. Reset or fresh memory receives the
    /// factory stick calibrations.
    pub fn with_config(config: SpiFlashConfig) -> (r: Option<Self>)
        requires
            config.buffer is None ==> spec_config_size(config.size) <= isize::MAX,
        ensures
            ({
                let size = spec_config_size(config.size);
                match config.buffer {
                    Some(b) => if bytes_mut_contents(b).len() != size {
                        r is None
                    } else {
                        r matches Some(f) && f.spec_data() == if config.reset {
                            spec_with_factory_calibration(bytes_mut_contents(b))
                        } else {
                            bytes_mut_contents(b)
                        }
                    },
                    None => r matches Some(f) && f.spec_data() == spec_with_factory_calibration(
                        Seq::new(size as nat, |i: int| 0xFFu8),
                    ),
                }
            }),
    {
        let size = match config.size {
            Some(size) => if size > SPI_FLASH_SIZE { size } else { SPI_FLASH_SIZE },
            None => SPI_FLASH_SIZE,
        };
        let mut should_reset = false;
        let mut buf = match config.buffer {
            Some(buf) => {
                if bytes_len(&buf) != size {
                    return None;
                }
                if config.reset {
                    should_reset = true;
                }
                buf
            },
            None => {
                should_reset = true;
                bytes_filled(size, 0xFF)
            },
        };
        if should_reset {
            write_factory_calibration(&mut buf);
        }
        Some(SpiFlash { buf })
    }

    pub fn factory_l_stick_calibration(&self) -> (r: &[u8])
        ensures
            self.spec_data().len() >= SPI_FLASH_SIZE,
            r@ == self.spec_data().subrange(
                L_STICK_FACTORY_OFFSET as int,
                L_STICK_FACTORY_OFFSET + 9,
            ),
    {
        proof {
            use_type_invariant(self);
        }
        bytes_range(&self.buf, L_STICK_FACTORY_OFFSET, L_STICK_FACTORY_OFFSET + 9)
    }

    pub fn factory_r_stick_calibration(&self) -> (r: &[u8])
        ensures
            self.spec_data().len() >= SPI_FLASH_SIZE,
            r@ == self.spec_data().subrange(
                R_STICK_FACTORY_OFFSET as int,
                R_STICK_FACTORY_OFFSET + 9,
            ),
    {
        proof {
            use_type_invariant(self);
        }
        bytes_range(&self.buf, R_STICK_FACTORY_OFFSET, R_STICK_FACTORY_OFFSET + 9)
    }

    fn user_calibration(&self, marker: usize) -> (r: Option<&[u8]>)
        requires
            marker + 11 <= SPI_FLASH_SIZE,
        ensures
            self.spec_data().len() >= SPI_FLASH_SIZE,
            match spec_user_calibration(self.spec_data(), marker as int) {
                Some(s) => r matches Some(x) && x@ == s,
                None => r is None,
            },
    {
        proof {
            use_type_invariant(self);
        }
        let cal1 = bytes_get(&self.buf, marker);
        let cal2 = bytes_get(&self.buf, marker + 1);
        if cal1 == 0xB2 && cal2 == 0xA1 {
            Some(bytes_range(&self.buf, marker + 2, marker + 11))
        } else {
            None
        }
    }

    pub fn user_l_stick_calibration(&self) -> (r: Option<&[u8]>)
        ensures
            self.spec_data().len() >= SPI_FLASH_SIZE,
            match spec_user_calibration(self.spec_data(), L_STICK_USER_OFFSET as int) {
                Some(s) => r matches Some(x) && x@ == s,
                None => r is None,
            },
    {
        proof {
            use_type_invariant(self);
        }
        self.user_calibration(L_STICK_USER_OFFSET)
    }

    pub fn user_r_stick_calibration(&self) -> (r: Option<&[u8]>)
        ensures
            self.spec_data().len() >= SPI_FLASH_SIZE,
            match spec_user_calibration(self.spec_data(), R_STICK_USER_OFFSET as int) {
                Some(s) => r matches Some(x) && x@ == s,
                None => r is None,
            },
    {
        proof {
            use_type_invariant(self);
        }
        self.user_calibration(R_STICK_USER_OFFSET)
    }

    pub fn data(&self) -> (r: &[u8])
        ensures
            self.spec_data().len() >= SPI_FLASH_SIZE,
            r@ == self.spec_data(),
    {
        proof {
            use_type_invariant(self);
        }
        let n = bytes_len(&self.buf);
        let r = bytes_range(&self.buf, 0, n);
        assert(r@ =~= self.spec_data());
        r
    }
}

fn write_factory_calibration(buf: &mut BytesMut)
    requires
        bytes_mut_contents(*old(buf)).len() >= SPI_FLASH_SIZE,
    ensures
        bytes_mut_contents(*final(buf)) == spec_with_factory_calibration(
            bytes_mut_contents(*old(buf)),
        ),
{
    let l: [u8; 9] = [0x00, 0x07, 0x70, 0x00, 0x08, 0x80, 0x00, 0x07, 0x70];
    let r: [u8; 9] = [0x00, 0x08, 0x80, 0x00, 0x07, 0x70, 0x00, 0x07, 0x70];
    assert(l@ =~= spec_l_stick_factory());
    assert(r@ =~= spec_r_stick_factory());
    let ghost orig = bytes_mut_contents(*buf);
    let mut i: usize = 0;
    while i < 9
        invariant
            i <= 9,
            orig == bytes_mut_contents(*old(buf)),
            orig.len() >= SPI_FLASH_SIZE,
            l@ == spec_l_stick_factory(),
            r@ == spec_r_stick_factory(),
            bytes_mut_contents(*buf).len() == orig.len(),
            forall|k: int|
                0 <= k < orig.len() ==> #[trigger] bytes_mut_contents(*buf)[k] == if (
                L_STICK_FACTORY_OFFSET <= k < L_STICK_FACTORY_OFFSET + i) {
                    spec_l_stick_factory()[k - L_STICK_FACTORY_OFFSET]
                } else if R_STICK_FACTORY_OFFSET <= k < R_STICK_FACTORY_OFFSET + i {
                    spec_r_stick_factory()[k - R_STICK_FACTORY_OFFSET]
                } else {
                    orig[k]
                },
        decreases 9 - i,
    {
        bytes_set(buf, L_STICK_FACTORY_OFFSET + i, l[i]);
        bytes_set(buf, R_STICK_FACTORY_OFFSET + i, r[i]);
        i = i + 1;
    }
    assert(bytes_mut_contents(*buf) =~= spec_with_factory_calibration(orig));
}

/// The factory calibrations written into a memory read back as written,
/// and every other byte stays as it was.
pub proof fn law_factory_calibration_reads_back(data: Seq<u8>)
    requires
        data.len() >= SPI_FLASH_SIZE,
    ensures
        spec_with_factory_calibration(data).len() == data.len(),
        spec_with_factory_calibration(data).subrange(
            L_STICK_FACTORY_OFFSET as int,
            L_STICK_FACTORY_OFFSET + 9,
        ) == spec_l_stick_factory(),
        spec_with_factory_calibration(data).subrange(
            R_STICK_FACTORY_OFFSET as int,
            R_STICK_FACTORY_OFFSET + 9,
        ) == spec_r_stick_factory(),
        forall|i: int|
            0 <= i < data.len() && !(L_STICK_FACTORY_OFFSET <= i < L_STICK_FACTORY_OFFSET + 9) && !(
            R_STICK_FACTORY_OFFSET <= i < R_STICK_FACTORY_OFFSET + 9) ==> #[trigger] spec_with_factory_calibration(
                data,
            )[i] == data[i],
{
    let w = spec_with_factory_calibration(data);
    assert(w.subrange(L_STICK_FACTORY_OFFSET as int, L_STICK_FACTORY_OFFSET + 9) =~= spec_l_stick_factory());
    assert(w.subrange(R_STICK_FACTORY_OFFSET as int, R_STICK_FACTORY_OFFSET + 9) =~= spec_r_stick_factory());
}

/// An erased memory with the factory calibrations holds no user
/// calibration for either stick.
pub proof fn law_fresh_memory_has_no_user_calibration(size: nat)
    requires
        size >= SPI_FLASH_SIZE,
    ensures
        spec_user_calibration(
            spec_with_factory_calibration(Seq::new(size, |i: int| 0xFFu8)),
            L_STICK_USER_OFFSET as int,
        ) is None,
        spec_user_calibration(
            spec_with_factory_calibration(Seq::new(size, |i: int| 0xFFu8)),
            R_STICK_USER_OFFSET as int,
        ) is None,
{
    let w = spec_with_factory_calibration(Seq::new(size, |i: int| 0xFFu8));
    assert(w[L_STICK_USER_OFFSET as int] == 0xFF);
    assert(w[R_STICK_USER_OFFSET as int] == 0xFF);
}

} // verus!
