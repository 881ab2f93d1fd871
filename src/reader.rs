//! The byte cursor the decoder reads with, and the meaning of its reads:
//! little-endian words, IEEE-754 bits and length-prefixed Shift_JIS strings.
use vstd::prelude::*;

use crate::error::ParseError;

verus! {

/// True when the `n` bytes starting at `p` lie inside `d`.
pub open spec fn fits(d: Seq<u8>, p: int, n: int) -> bool {
    0 <= p && 0 <= n && p + n <= d.len()
}

/// The little-endian 16-bit word at `p`.
pub open spec fn u16_at(d: Seq<u8>, p: int) -> u16 {
    (d[p] as int + d[p + 1] as int * 0x100) as u16
}

/// The little-endian 32-bit word at `p`.
pub open spec fn u32_at(d: Seq<u8>, p: int) -> u32 {
    (d[p] as int + d[p + 1] as int * 0x100 + d[p + 2] as int * 0x1_0000 + d[p + 3] as int
        * 0x100_0000) as u32
}

/// The little-endian 64-bit word at `p`: the bits of an IEEE-754 double.
pub open spec fn u64_at(d: Seq<u8>, p: int) -> u64 {
    (u32_at(d, p) as int + u32_at(d, p + 4) as int * 0x1_0000_0000) as u64
}

/// The eight bytes every drawing file starts with: ASCII `JwwData.`.
pub open spec fn signature() -> Seq<u8> {
    seq![0x4Au8, 0x77u8, 0x77u8, 0x44u8, 0x61u8, 0x74u8, 0x61u8, 0x2Eu8]
}

/// True when the eight bytes at `p` are the signature.
pub open spec fn signature_at(d: Seq<u8>, p: int) -> bool {
    fits(d, p, 8) && d.subrange(p, p + 8) == signature()
}

/// What Shift_JIS decoding (with BOM sniffing and replacement of malformed
/// sequences) makes of a byte string.
pub uninterp spec fn shift_jis_text(b: Seq<u8>) -> Seq<char>;

/// `s` without its last character when that character is NUL.
pub open spec fn without_trailing_nul(s: Seq<char>) -> Seq<char> {
    if s.len() > 0 && s.last() == '\0' {
        s.drop_last()
    } else {
        s
    }
}

/// The length prefix of a string at `p`: a byte below `0xFF`; else `0xFF`
/// and a word below `0xFFFF`; else `0xFF`, `0xFFFF` and a 32-bit length.
/// Gives the length and the offset of the first payload byte.
pub open spec fn string_header_at(d: Seq<u8>, p: int) -> Option<(int, int)> {
    if !fits(d, p, 1) {
        None
    } else if d[p] < 0xFF {
        Some((d[p] as int, p + 1))
    } else if !fits(d, p + 1, 2) {
        None
    } else if u16_at(d, p + 1) < 0xFFFF {
        Some((u16_at(d, p + 1) as int, p + 3))
    } else if !fits(d, p + 3, 4) {
        None
    } else {
        Some((u32_at(d, p + 3) as int, p + 7))
    }
}

/// The length-prefixed Shift_JIS string at `p`, with one trailing NUL
/// removed, and the offset after it; `None` when the input ends first.
pub open spec fn string_at(d: Seq<u8>, p: int) -> Option<(Seq<char>, int)> {
    match string_header_at(d, p) {
        None => None,
        Some((n, q)) => if !fits(d, q, n) {
            None
        } else if n == 0 {
            Some((Seq::empty(), q))
        } else {
            Some((without_trailing_nul(shift_jis_text(d.subrange(q, q + n))), q + n))
        },
    }
}

/// Relies on `encoding_rs::Encoding::decode` with `SHIFT_JIS`: the text
/// depends on the bytes alone (a BOM, if any, picks the encoding).
#[verifier::external_body]
fn decode_shift_jis(b: &[u8]) -> (r: String)
    ensures
        r@ == shift_jis_text(b@),
{
    let (text, _, _) = encoding_rs::SHIFT_JIS.decode(b);
    text.into_owned()
}

/// Drops one trailing NUL from `s`, if it has one: what a decoded string
/// goes through before it is returned.
pub fn trim_trailing_nul(s: String) -> (r: String)
    ensures
        r@ == without_trailing_nul(s@),
{
    let n = s.as_str().unicode_len();
    if n > 0 && s.as_str().get_char(n - 1) == '\0' {
        String::from_str(s.as_str().substring_char(0, n - 1))
    } else {
        s
    }
}

/// A cursor over a byte buffer: typed little-endian reads that advance the
/// offset, or fail with [`ParseError::Io`] when too few bytes remain.
pub struct Reader<'a> {
    inner: &'a [u8],
    bytes_read: usize,
}

impl<'a> Reader<'a> {
    /// The whole buffer the cursor reads from.
    pub closed spec fn data(&self) -> Seq<u8> {
        self.inner@
    }

    /// The offset of the next read.
    pub closed spec fn pos(&self) -> int {
        self.bytes_read as int
    }

    /// The offset is never negative.
    pub proof fn lemma_pos_nonneg(&self)
        ensures
            self.pos() >= 0,
    {
    }

    /// A cursor at the start of `inner`.
    pub fn new(inner: &'a [u8]) -> (r: Self)
        ensures
            r.data() == inner@,
            r.pos() == 0,
    {
        Reader { inner, bytes_read: 0 }
    }

    /// Reads one byte.
    pub fn read_byte(&mut self) -> (r: Result<u8, ParseError>)
        ensures
            final(self).data() == old(self).data(),
            fits(old(self).data(), old(self).pos(), 1) ==> r == Ok::<u8, ParseError>(
                old(self).data()[old(self).pos()],
            ) && final(self).pos() == old(self).pos() + 1,
            !fits(old(self).data(), old(self).pos(), 1) ==> r == Err::<u8, ParseError>(
                ParseError::Io,
            ) && final(self).pos() == old(self).pos(),
    {
        if self.bytes_read < self.inner.len() {
            let b = self.inner[self.bytes_read];
            self.bytes_read = self.bytes_read + 1;
            Ok(b)
        } else {
            Err(ParseError::Io)
        }
    }

    /// Reads and checks the eight-byte signature `JwwData.`.
    pub fn read_signature(&mut self) -> (r: Result<(), ParseError>)
        ensures
            final(self).data() == old(self).data(),
            signature_at(old(self).data(), old(self).pos()) ==> r is Ok && final(self).pos()
                == old(self).pos() + 8,
            fits(old(self).data(), old(self).pos(), 8) && !signature_at(
                old(self).data(),
                old(self).pos(),
            ) ==> r == Err::<(), ParseError>(ParseError::InvalidSignature) && final(self).pos()
                == old(self).pos() + 8,
            !fits(old(self).data(), old(self).pos(), 8) ==> r == Err::<(), ParseError>(
                ParseError::Io,
            ) && final(self).pos() == old(self).pos(),
    {
        let sig = self.read_exact(8)?;
        if sig[0] == 0x4A && sig[1] == 0x77 && sig[2] == 0x77 && sig[3] == 0x44 && sig[4] == 0x61
            && sig[5] == 0x74 && sig[6] == 0x61 && sig[7] == 0x2E {
            assert(sig@ =~= signature());
            Ok(())
        } else {
            assert(sig@ != signature()) by {
                if sig@ == signature() {
                    assert(sig@[0] == 0x4A && sig@[7] == 0x2E);
                }
            }
            Err(ParseError::InvalidSignature)
        }
    }

    /// Reads a little-endian 32-bit word.
    pub fn read_dword(&mut self) -> (r: Result<u32, ParseError>)
        ensures
            final(self).data() == old(self).data(),
            fits(old(self).data(), old(self).pos(), 4) ==> r == Ok::<u32, ParseError>(
                u32_at(old(self).data(), old(self).pos()),
            ) && final(self).pos() == old(self).pos() + 4,
            !fits(old(self).data(), old(self).pos(), 4) ==> r == Err::<u32, ParseError>(
                ParseError::Io,
            ) && final(self).pos() == old(self).pos(),
    {
        let len = self.inner.len();
        if self.bytes_read <= len && len - self.bytes_read >= 4 {
            let p = self.bytes_read;
            let v = self.inner[p] as u32 + self.inner[p + 1] as u32 * 0x100 + self.inner[p + 2] as u32
                * 0x1_0000 + self.inner[p + 3] as u32 * 0x100_0000;
            self.bytes_read = p + 4;
            Ok(v)
        } else {
            Err(ParseError::Io)
        }
    }

    /// Reads a little-endian 16-bit word.
    pub fn read_word(&mut self) -> (r: Result<u16, ParseError>)
        ensures
            final(self).data() == old(self).data(),
            fits(old(self).data(), old(self).pos(), 2) ==> r == Ok::<u16, ParseError>(
                u16_at(old(self).data(), old(self).pos()),
            ) && final(self).pos() == old(self).pos() + 2,
            !fits(old(self).data(), old(self).pos(), 2) ==> r == Err::<u16, ParseError>(
                ParseError::Io,
            ) && final(self).pos() == old(self).pos(),
    {
        let len = self.inner.len();
        if self.bytes_read <= len && len - self.bytes_read >= 2 {
            let p = self.bytes_read;
            let v = self.inner[p] as u16 + self.inner[p + 1] as u16 * 0x100;
            self.bytes_read = p + 2;
            Ok(v)
        } else {
            Err(ParseError::Io)
        }
    }

    /// Reads a little-endian double and returns its IEEE-754 bits
    /// (`f64::from_bits` gives the number).
    pub fn read_double(&mut self) -> (r: Result<u64, ParseError>)
        ensures
            final(self).data() == old(self).data(),
            fits(old(self).data(), old(self).pos(), 8) ==> r == Ok::<u64, ParseError>(
                u64_at(old(self).data(), old(self).pos()),
            ) && final(self).pos() == old(self).pos() + 8,
            !fits(old(self).data(), old(self).pos(), 8) ==> r == Err::<u64, ParseError>(
                ParseError::Io,
            ) && final(self).pos() == old(self).pos(),
    {
        let len = self.inner.len();
        if self.bytes_read <= len && len - self.bytes_read >= 8 {
            let lo = self.read_dword()?;
            let hi = self.read_dword()?;
            Ok(lo as u64 + hi as u64 * 0x1_0000_0000)
        } else {
            Err(ParseError::Io)
        }
    }

    /// Reads a length-prefixed Shift_JIS string (see [`string_at`]).
    pub fn read_cstring(&mut self) -> (r: Result<String, ParseError>)
        ensures
            final(self).data() == old(self).data(),
            match string_at(old(self).data(), old(self).pos()) {
                Some((s, q)) => r is Ok && r->Ok_0@ == s && final(self).pos() == q,
                None => r == Err::<String, ParseError>(ParseError::Io),
            },
    {
        let len_byte = self.read_byte()?;
        let length: u32 = if len_byte < 0xFF {
            len_byte as u32
        } else {
            let len_word = self.read_word()?;
            if len_word < 0xFFFF {
                len_word as u32
            } else {
                self.read_dword()?
            }
        };
        if length == 0 {
            return Ok(String::new());
        }
        let buf = self.read_exact(length as usize)?;
        let text = decode_shift_jis(buf.as_slice());
        Ok(trim_trailing_nul(text))
    }

    /// Skips `n` bytes.
    pub fn skip(&mut self, n: usize) -> (r: Result<(), ParseError>)
        ensures
            final(self).data() == old(self).data(),
            fits(old(self).data(), old(self).pos(), n as int) ==> r is Ok && final(self).pos()
                == old(self).pos() + n,
            !fits(old(self).data(), old(self).pos(), n as int) ==> r == Err::<(), ParseError>(
                ParseError::Io,
            ) && final(self).pos() == old(self).pos(),
    {
        let len = self.inner.len();
        if self.bytes_read <= len && len - self.bytes_read >= n {
            self.bytes_read = self.bytes_read + n;
            Ok(())
        } else {
            Err(ParseError::Io)
        }
    }

    /// Reads exactly `n` bytes. The length is checked against what remains
    /// before anything is allocated.
    pub fn read_exact(&mut self, n: usize) -> (r: Result<Vec<u8>, ParseError>)
        ensures
            final(self).data() == old(self).data(),
            fits(old(self).data(), old(self).pos(), n as int) ==> r is Ok && r->Ok_0@
                == old(self).data().subrange(old(self).pos(), old(self).pos() + n)
                && final(self).pos() == old(self).pos() + n,
            !fits(old(self).data(), old(self).pos(), n as int) ==> r == Err::<
                Vec<u8>,
                ParseError,
            >(ParseError::Io) && final(self).pos() == old(self).pos(),
    {
        let len = self.inner.len();
        if self.bytes_read <= len && len - self.bytes_read >= n {
            let start = self.bytes_read;
            let mut out: Vec<u8> = Vec::with_capacity(n);
            let mut i: usize = 0;
            while i < n
                invariant
                    start + n <= len,
                    len == self.inner@.len(),
                    i <= n,
                    out@ == self.inner@.subrange(start as int, start + i),
                decreases n - i,
            {
                out.push(self.inner[start + i]);
                i = i + 1;
                assert(out@ =~= self.inner@.subrange(start as int, start + i));
            }
            self.bytes_read = start + n;
            Ok(out)
        } else {
            Err(ParseError::Io)
        }
    }

    /// How many bytes have been read or skipped so far.
    pub fn bytes_read(&self) -> (r: u64)
        ensures
            r == self.pos(),
    {
        self.bytes_read as u64
    }

    /// Gives up the cursor and returns the bytes it had not read yet.
    pub fn into_inner(self) -> (r: &'a [u8])
        ensures
            self.pos() <= self.data().len() ==> r@ == self.data().subrange(
                self.pos(),
                self.data().len() as int,
            ),
            self.pos() > self.data().len() ==> r@.len() == 0,
    {
        let len = self.inner.len();
        if self.bytes_read <= len {
            &self.inner[self.bytes_read..len]
        } else {
            &self.inner[len..len]
        }
    }
}

} // verus!
