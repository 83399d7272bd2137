//! The display driver: a four-digit buffer of segment masks and the device
//! boundary it flushes through.
//!
//! The driver owns its buffer exclusively.  Mutations address digits through
//! [`Digit`], so out-of-range writes cannot be expressed; [`PHat::set_str`]
//! runs the dot-folding encode over the whole buffer.  The bus transaction
//! itself lives behind [`Device`]: [`PHat::flush`] serialises the buffer to
//! the fixed eight-byte wire layout, hands it over, and passes any transport
//! failure through unchanged, leaving the buffer as it was.

use crate::digit::Digit;
use crate::error::TransportError;
use crate::fonts;
use crate::fonts::mask::PERIOD;
use crate::period;
use crate::BUF_SIZE;
use crate::CHAR_TOTAL;
use vstd::prelude::*;
use vstd::string::StringSliceAdditionalSpecFns;

verus! {

/// The buffer state every driver starts from: all segments off.
pub open spec fn zero_buf() -> Seq<u16> {
    Seq::new(CHAR_TOTAL as nat, |_i: int| 0u16)
}

/// The buffer after a dot-folding encode of the byte sequence `s` over the
/// prior buffer state `buf`: the folded masks fill the buffer from the left,
/// and positions past the end of the folded stream keep their prior value.
pub open spec fn encode_into(buf: Seq<u16>, s: Seq<u8>) -> Seq<u16> {
    let f = period::fold_masked(fonts::glyphs_of(s), PERIOD);
    Seq::new(
        buf.len(),
        |i: int|
            if i < f.len() {
                f[i]
            } else {
                buf[i]
            },
    )
}

/// The low segment-row byte of a mask.
pub open spec fn lo_byte(m: u16) -> u8 {
    (m & 0xff) as u8
}

/// The high segment-row byte of a mask.
pub open spec fn hi_byte(m: u16) -> u8 {
    (m >> 8) as u8
}

/// The exact wire layout of a buffer: two bytes per digit, low byte first,
/// digit 0 first.
pub open spec fn wire_bytes(buf: Seq<u16>) -> Seq<u8> {
    Seq::new(
        buf.len() * 2,
        |i: int|
            if i % 2 == 0 {
                lo_byte(buf[i / 2])
            } else {
                hi_byte(buf[i / 2])
            },
    )
}

/// The device-writer boundary: whatever performs the bus transaction.
///
/// The core promises nothing about the transaction itself — the collaborator
/// owns retries, timeouts and the register protocol.  It only receives the
/// raw buffer bytes and reports success or a transport failure.
pub trait Device {
    /// Writes the raw display buffer to the device's display RAM.
    fn write_dbuf(&mut self, bytes: &[u8; BUF_SIZE]) -> Result<(), TransportError>;
}

/// A device that records what is written to it, for tests and examples: the
/// in-memory stand-in for a bus.
#[derive(Debug)]
pub struct MockDevice {
    /// The bytes of the most recent successful write.
    pub written: Vec<u8>,
    /// When set, every write fails with a transport error.
    pub fail: bool,
}

impl MockDevice {
    /// A device that accepts every write.
    pub fn new() -> (r: MockDevice)
        ensures
            r.written@ == Seq::<u8>::empty(),
            !r.fail,
    {
        MockDevice { written: Vec::new(), fail: false }
    }

    /// A device that rejects every write with a transport error.
    pub fn broken() -> (r: MockDevice)
        ensures
            r.written@ == Seq::<u8>::empty(),
            r.fail,
    {
        MockDevice { written: Vec::new(), fail: true }
    }
}

impl Device for MockDevice {
    fn write_dbuf(&mut self, bytes: &[u8; BUF_SIZE]) -> (r: Result<(), TransportError>)
        ensures
            old(self).fail ==> r == Err::<(), TransportError>(TransportError) && *final(self)
                == *old(self),
            !old(self).fail ==> r == Ok::<(), TransportError>(()) && final(self).written@
                == bytes@ && !final(self).fail,
    {
        if self.fail {
            Err(TransportError)
        } else {
            let mut copy: Vec<u8> = Vec::new();
            let mut i: usize = 0;
            while i < BUF_SIZE
                invariant
                    i <= BUF_SIZE,
                    copy@ == bytes@.take(i as int),
                decreases BUF_SIZE - i,
            {
                copy.push(bytes[i]);
                proof {
                    assert(bytes@.take(i as int + 1) =~= bytes@.take(i as int).push(
                        bytes@[i as int],
                    ));
                }
                i = i + 1;
            }
            proof {
                assert(bytes@.take(BUF_SIZE as int) =~= bytes@);
            }
            self.written = copy;
            Ok(())
        }
    }
}

/// The driver: exclusive owner of the display buffer and of its bus handle.
pub struct PHat<D: Device> {
    cbuf: [u16; CHAR_TOTAL],
    device: D,
}

impl<D: Device> PHat<D> {
    /// The per-digit segment masks of the display buffer.
    pub closed spec fn buf(&self) -> Seq<u16> {
        self.cbuf@
    }

    /// The device the driver flushes through.
    pub closed spec fn dev(&self) -> D {
        self.device
    }

    /// A driver over `device` with a zeroed display buffer.
    pub fn new(device: D) -> (r: PHat<D>)
        ensures
            r.buf() == zero_buf(),
            r.dev() == device,
    {
        let r = PHat { cbuf: [0u16; CHAR_TOTAL], device };
        proof {
            assert(r.cbuf@ =~= zero_buf());
        }
        r
    }

    /// A copy of the display buffer, one mask per digit.
    pub fn cbuf(&self) -> (r: [u16; CHAR_TOTAL])
        ensures
            r@ == self.buf(),
    {
        self.cbuf
    }

    /// Replaces the whole display buffer.
    pub fn set_cbuf(&mut self, src: &[u16; CHAR_TOTAL])
        ensures
            final(self).buf() == src@,
            final(self).dev() == old(self).dev(),
    {
        self.cbuf = *src;
    }

    /// Writes one segment mask at a digit position, leaving the rest of the
    /// buffer untouched.
    pub fn set_mask(&mut self, position: Digit, mask: u16)
        ensures
            final(self).buf() == old(self).buf().update(position.idx(), mask),
            final(self).dev() == old(self).dev(),
    {
        let i = position.to_index();
        self.cbuf[i] = mask;
    }

    /// Writes the glyph of a single character at a digit position,
    /// bypassing dot folding.
    pub fn set_char(&mut self, position: Digit, c: u8)
        ensures
            final(self).buf() == old(self).buf().update(position.idx(), fonts::glyph_mask(c)),
            final(self).dev() == old(self).dev(),
    {
        let i = position.to_index();
        self.cbuf[i] = fonts::ascii(c);
    }

    /// Sets or clears the decimal point of a digit position, leaving every
    /// other segment of that position untouched.
    pub fn set_dot(&mut self, position: Digit, dot: bool)
        ensures
            final(self).buf() == old(self).buf().update(
                position.idx(),
                if dot {
                    old(self).buf()[position.idx()] | PERIOD
                } else {
                    old(self).buf()[position.idx()] & !PERIOD
                },
            ),
            final(self).buf()[position.idx()] & !PERIOD == old(self).buf()[position.idx()]
                & !PERIOD,
            final(self).dev() == old(self).dev(),
    {
        let i = position.to_index();
        if dot {
            self.cbuf[i] = self.cbuf[i] | PERIOD;
        } else {
            self.cbuf[i] = self.cbuf[i] & !PERIOD;
        }
        proof {
            lemma_dot_preserves_segments(old(self).cbuf@[position.idx()]);
        }
    }

    /// Toggles the decimal point of a digit position, leaving every other
    /// segment of that position untouched.
    pub fn toggle_dot(&mut self, position: Digit)
        ensures
            final(self).buf() == old(self).buf().update(
                position.idx(),
                old(self).buf()[position.idx()] ^ PERIOD,
            ),
            final(self).buf()[position.idx()] & !PERIOD == old(self).buf()[position.idx()]
                & !PERIOD,
            final(self).dev() == old(self).dev(),
    {
        let i = position.to_index();
        self.cbuf[i] = self.cbuf[i] ^ PERIOD;
        proof {
            lemma_dot_preserves_segments(old(self).cbuf@[position.idx()]);
        }
    }

    /// Runs the dot-folding encode of a string's bytes into the buffer:
    /// folded masks fill the display from the left, and positions past the
    /// end of the input keep their prior contents.
    pub fn set_str(&mut self, s: &str)
        ensures
            final(self).buf() == encode_into(old(self).buf(), s.spec_bytes()),
            final(self).dev() == old(self).dev(),
    {
        let bytes = s.as_bytes();
        let folded = period::period_iter(bytes);
        let mut i: usize = 0;
        while i < CHAR_TOTAL && i < folded.len()
            invariant
                i <= CHAR_TOTAL,
                i <= folded@.len(),
                folded@ == period::fold_masked(fonts::glyphs_of(s.spec_bytes()), PERIOD),
                self.cbuf@.len() == CHAR_TOTAL,
                forall|j: int| 0 <= j < i ==> self.cbuf@[j] == folded@[j],
                forall|j: int| i <= j < CHAR_TOTAL ==> self.cbuf@[j] == old(self).cbuf@[j],
                self.device == old(self).device,
            decreases CHAR_TOTAL - i,
        {
            self.cbuf[i] = folded[i];
            i = i + 1;
        }
        proof {
            assert(self.cbuf@ =~= encode_into(old(self).cbuf@, s.spec_bytes()));
        }
    }

    /// Zeroes every position of the display buffer.
    pub fn clear(&mut self)
        ensures
            final(self).buf() == zero_buf(),
            final(self).dev() == old(self).dev(),
    {
        self.cbuf = [0u16; CHAR_TOTAL];
        proof {
            assert(self.cbuf@ =~= zero_buf());
        }
    }

    /// The exact wire layout of the buffer: two bytes per digit, low byte
    /// first, digit 0 first.
    pub fn raw_bytes(&self) -> (r: [u8; BUF_SIZE])
        ensures
            r@ == wire_bytes(self.buf()),
    {
        let mut out: [u8; BUF_SIZE] = [0u8; BUF_SIZE];
        let mut i: usize = 0;
        while i < CHAR_TOTAL
            invariant
                i <= CHAR_TOTAL,
                out@.len() == BUF_SIZE,
                self.cbuf@.len() == CHAR_TOTAL,
                forall|j: int| 0 <= j < 2 * i ==> out@[j] == wire_bytes(self.buf())[j],
            decreases CHAR_TOTAL - i,
        {
            let m = self.cbuf[i];
            out[2 * i] = (m & 0xff) as u8;
            out[2 * i + 1] = (m >> 8) as u8;
            i = i + 1;
        }
        proof {
            assert(out@ =~= wire_bytes(self.buf()));
        }
        out
    }

    /// Serialises the buffer and writes it to the device.  A failure is the
    /// collaborator's to report and the caller's to handle: it passes
    /// through unchanged, the buffer keeps its contents either way, and the
    /// caller may simply flush again.
    pub fn flush(&mut self) -> (r: Result<(), TransportError>)
        ensures
            final(self).buf() == old(self).buf(),
    {
        let bytes = self.raw_bytes();
        self.device.write_dbuf(&bytes)
    }

    /// Encodes a string into the buffer and flushes it to the device.
    pub fn print(&mut self, s: &str) -> (r: Result<(), TransportError>)
        ensures
            final(self).buf() == encode_into(old(self).buf(), s.spec_bytes()),
    {
        self.set_str(s);
        self.flush()
    }

    /// Destroys the driver and hands its device back.
    pub fn take_device(self) -> (r: D)
        ensures
            r == self.dev(),
    {
        self.device
    }
}

/// Folding a dot into a mask, clearing it, or toggling it never disturbs the
/// other segments of the mask: the decimal point owns its bit alone.
pub proof fn lemma_dot_preserves_segments(m: u16)
    ensures
        (m | PERIOD) & !PERIOD == m & !PERIOD,
        (m & !PERIOD) & !PERIOD == m & !PERIOD,
        (m ^ PERIOD) & !PERIOD == m & !PERIOD,
{
    assert((m | 0x4000) & !0x4000u16 == m & !0x4000u16) by (bit_vector);
    assert((m & !0x4000u16) & !0x4000u16 == m & !0x4000u16) by (bit_vector);
    assert((m ^ 0x4000) & !0x4000u16 == m & !0x4000u16) by (bit_vector);
}

/// Encoding a character sequence into a freshly cleared buffer gives the
/// same contents every time: the outcome depends on the input alone, so
/// encoding twice from a clean slate cannot disagree with itself.
pub proof fn lemma_encode_repeatable(s: Seq<u8>, first: Seq<u16>, second: Seq<u16>)
    requires
        first == encode_into(zero_buf(), s),
        second == encode_into(zero_buf(), s),
    ensures
        first == second,
{
}

/// Dot-free input truncates cleanly: on the four-digit buffer, input at
/// least as wide as the display fills it exactly as its display-width prefix
/// does — the discarded tail cannot reach back into the buffer.
pub proof fn lemma_encode_truncates(buf: Seq<u16>, s: Seq<u8>)
    requires
        buf.len() == CHAR_TOTAL,
        s.len() >= CHAR_TOTAL,
        forall|i: int| 0 <= i < s.len() ==> s[i] != 0x2e,
    ensures
        encode_into(buf, s) == encode_into(buf, s.take(CHAR_TOTAL as int)),
{
    let g = fonts::glyphs_of(s);
    let p = s.take(CHAR_TOTAL as int);
    let gp = fonts::glyphs_of(p);
    assert forall|i: int| 0 <= i < g.len() implies g[i] != PERIOD by {
        fonts::lemma_only_dot_is_period(s[i]);
    }
    assert forall|i: int| 0 <= i < gp.len() implies gp[i] != PERIOD by {
        assert(p[i] == s[i]);
        fonts::lemma_only_dot_is_period(s[i]);
    }
    period::lemma_fold_no_mask_identity(g, PERIOD);
    period::lemma_fold_no_mask_identity(gp, PERIOD);
    assert(encode_into(buf, s) =~= encode_into(buf, p));
}

} // verus!
