//! Fields of the header of a Mega Drive ROM image, and its checksum.
//!
//! The header occupies bytes 0x100 to 0x200; the checksum covers the
//! big-endian 16-bit words from 0x200 to the end of the image.
use vstd::prelude::*;

use crate::rom_fmt::Format;

verus! {

use vstd::string::StringSliceAdditionalSpecFns;

pub struct Rom {
    pub data: Vec<u8>,
    pub format: Format,
}

/// Big-endian 16-bit value at `i`.
pub open spec fn be16(s: Seq<u8>, i: int) -> int {
    s[i] * 0x100 + s[i + 1]
}

/// Big-endian 32-bit value at `i`.
pub open spec fn be32(s: Seq<u8>, i: int) -> int {
    s[i] * 0x1000000 + s[i + 1] * 0x10000 + s[i + 2] * 0x100 + s[i + 3]
}

/// Sum of the first `n` big-endian words after the header.
pub open spec fn body_sum(s: Seq<u8>, n: nat) -> int
    decreases n,
{
    if n == 0 {
        0
    } else {
        body_sum(s, (n - 1) as nat) + be16(s, 0x200 + 2 * (n - 1))
    }
}

/// Number of words after the header.
pub open spec fn body_words(s: Seq<u8>) -> nat {
    if s.len() <= 0x200 {
        0
    } else {
        ((s.len() - 0x200) / 2) as nat
    }
}

/// `r` is the text held by `bytes` when they are UTF-8, and `None` when not.
pub open spec fn text_of(r: Option<&str>, bytes: Seq<u8>) -> bool {
    &&& r is Some <==> vstd::utf8::valid_utf8(bytes)
    &&& r matches Some(t) ==> t.spec_bytes() == bytes
}

/// Relies on std::str::from_utf8: `Ok` exactly for valid UTF-8, and then a
/// string over the same bytes.
#[verifier::external_body]
fn utf8_text(b: &[u8]) -> (r: Option<&str>)
    ensures
        text_of(r, b@),
{
    std::str::from_utf8(b).ok()
}

impl Rom {
    fn field(&self, lo: usize, hi: usize) -> (r: Option<&str>)
        requires
            lo <= hi <= self.data@.len(),
        ensures
            text_of(r, self.data@.subrange(lo as int, hi as int)),
    {
        utf8_text(vstd::slice::slice_subrange(self.data.as_slice(), lo, hi))
    }

    pub fn console(&self) -> (r: Option<&str>)
        requires
            self.data@.len() >= 0x110,
        ensures
            text_of(r, self.data@.subrange(0x100, 0x110)),
    {
        self.field(0x100, 0x110)
    }

    pub fn copyright(&self) -> (r: Option<&str>)
        requires
            self.data@.len() >= 0x120,
        ensures
            text_of(r, self.data@.subrange(0x110, 0x120)),
    {
        self.field(0x110, 0x120)
    }

    pub fn title(&self) -> (r: Option<&str>)
        requires
            self.data@.len() >= 0x150,
        ensures
            text_of(r, self.data@.subrange(0x120, 0x150)),
    {
        self.field(0x120, 0x150)
    }

    pub fn name_overseas(&self) -> (r: Option<&str>)
        requires
            self.data@.len() >= 0x180,
        ensures
            text_of(r, self.data@.subrange(0x150, 0x180)),
    {
        self.field(0x150, 0x180)
    }

    pub fn product_type(&self) -> (r: Option<&str>)
        requires
            self.data@.len() >= 0x182,
        ensures
            text_of(r, self.data@.subrange(0x180, 0x182)),
    {
        self.field(0x180, 0x182)
    }

    pub fn product_code(&self) -> (r: Option<&str>)
        requires
            self.data@.len() >= 0x18e,
        ensures
            text_of(r, self.data@.subrange(0x182, 0x18e)),
    {
        self.field(0x182, 0x18e)
    }

    /// The checksum recorded in the header.
    pub fn checksum(&self) -> (r: u16)
        requires
            self.data@.len() >= 0x190,
        ensures
            r == be16(self.data@, 0x18e),
    {
        (self.data[0x18e] as u16) * 0x100 + self.data[0x18f] as u16
    }

    fn read_be32(&self, at: usize) -> (r: usize)
        requires
            at + 4 <= self.data@.len(),
        ensures
            r == be32(self.data@, at as int),
    {
        let n = self.data.len();
        assert(at + 4 <= n);
        let v: u32 = (self.data[at] as u32) * 0x1000000 + (self.data[at + 1] as u32) * 0x10000
            + (self.data[at + 2] as u32) * 0x100 + self.data[at + 3] as u32;
        v as usize
    }

    /// ROM start address.
    pub fn start(&self) -> (r: usize)
        requires
            self.data@.len() >= 0x1a4,
        ensures
            r == be32(self.data@, 0x1a0),
    {
        self.read_be32(0x1a0)
    }

    /// ROM end address.
    pub fn end(&self) -> (r: usize)
        requires
            self.data@.len() >= 0x1a8,
        ensures
            r == be32(self.data@, 0x1a4),
    {
        self.read_be32(0x1a4)
    }

    /// RAM start address.
    pub fn ram_start(&self) -> (r: usize)
        requires
            self.data@.len() >= 0x1ac,
        ensures
            r == be32(self.data@, 0x1a8),
    {
        self.read_be32(0x1a8)
    }

    /// RAM end address.
    pub fn ram_end(&self) -> (r: usize)
        requires
            self.data@.len() >= 0x1b0,
        ensures
            r == be32(self.data@, 0x1ac),
    {
        self.read_be32(0x1ac)
    }

    /// True iff the words after the header sum, modulo 0x10000, to the
    /// recorded checksum.
    pub fn valid_checksum(&self) -> (r: bool)
        requires
            self.data@.len() >= 0x190,
            self.data@.len() <= 0x200 || self.data@.len() % 2 == 0,
        ensures
            r == (body_sum(self.data@, body_words(self.data@)) % 0x10000 == be16(self.data@, 0x18e)),
    {
        let n = self.data.len();
        let words: usize = if n > 0x200 {
            (n - 0x200) / 2
        } else {
            0
        };
        let mut sum: u16 = 0;
        let mut k: usize = 0;
        while k < words
            invariant
                n == self.data@.len(),
                words == body_words(self.data@),
                n <= 0x200 || n % 2 == 0,
                k <= words,
                sum == body_sum(self.data@, k as nat) % 0x10000,
            decreases words - k,
        {
            let i = 0x200 + 2 * k;
            let w: u16 = (self.data[i] as u16) * 0x100 + self.data[i + 1] as u16;
            proof {
                let total = sum + w;
                vstd::arithmetic::div_mod::lemma_add_mod_noop(
                    body_sum(self.data@, k as nat),
                    w as int,
                    0x10000,
                );
                vstd::arithmetic::div_mod::lemma_small_mod(w as nat, 0x10000);
                if total >= 0x10000 {
                    assert(total % 0x10000 == total - 0x10000) by (nonlinear_arith)
                        requires
                            0x10000 <= total < 0x20000,
                    ;
                } else {
                    vstd::arithmetic::div_mod::lemma_small_mod(total as nat, 0x10000);
                }
            }
            sum = sum.wrapping_add(w);
            k += 1;
        }
        sum == self.checksum()
    }
}

} // verus!
