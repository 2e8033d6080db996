//! The scalar string codec: UTF-16LE text as the guest runtime lays it out.
//!
//! Content is a sequence of 16-bit code units, written little-endian, two
//! bytes each. The guest allocator reserves, for a string of `n` units, the
//! next power of two above `header + 2 * n` bytes; the codec emits the
//! content followed by the zero fill up to that block size, but not the
//! header itself, which whatever places the object in heap memory writes.
//! The same header-size constant drives both calculations.

use vstd::prelude::*;

use crate::base::AscType;
use crate::encoding::dec_elems;
use crate::encoding::enc_elems;
use crate::encoding::encode_elems;
use crate::encoding::decode_elems;
use crate::encoding::lemma_dec_enc_elems;
use crate::encoding::lemma_enc_elems_len;
use crate::errors::AscError;
use crate::pow2::lemma_next_pow2_props;
use crate::pow2::next_pow2;
use crate::pow2::next_power_of_two_u64;
use crate::version::ApiVersion;

verus! {

/// Byte size of the guest-side object header that precedes string content
/// in guest memory. The codec does not emit it, but the capacity rounding
/// accounts for it.
pub const STRING_HEADER_SIZE: u64 = 20;

/// The total block size the guest allocator reserves for a string of `n`
/// code units: header plus content, rounded up to the next power of two.
pub open spec fn spec_block_size(n: nat) -> nat {
    next_pow2((STRING_HEADER_SIZE + 2 * n) as nat)
}

/// How many bytes encoding a string of `n` code units emits: the reserved
/// block minus the header that the placer, not the codec, writes.
pub open spec fn spec_enc_len(n: nat) -> nat {
    (spec_block_size(n) - STRING_HEADER_SIZE) as nat
}

/// The one message the string codec's generic decode failure carries, as
/// a character sequence: it names the truncated trailing unit.
pub open spec fn malformed_message() -> Seq<char> {
    "Attempted to read past end of string content bytes chunk"@
}

/// The `String` holding `malformed_message()`. A value with that text
/// exists (the decoder builds one), and two `String`s with one text are
/// interchangeable wherever the contracts compare them, so which one this
/// names does not matter.
pub open spec fn malformed_message_string() -> String {
    choose|s: String| s@ == malformed_message()
}

/// A guest string: a count of UTF-16 code units (not bytes) and the unit
/// sequence itself, kept verbatim — malformed surrogate pairs pass through
/// unchanged.
pub struct AscString {
    /// In number of UTF-16 code units (2 bytes each); not part of the
    /// emitted layout. `wf` ties it to the content length.
    pub byte_length: u32,
    /// The sequence of UTF-16LE code units that form the string.
    pub content: Vec<u16>,
}

impl AscString {
    /// The stored unit count.
    pub open spec fn spec_byte_length(self) -> u32 {
        self.byte_length
    }

    /// Validates the size invariant and stores the content verbatim:
    /// succeeds exactly when the content's byte size fits a `u32`.
    pub fn new(content: &[u16]) -> (r: Result<AscString, AscError>)
        ensures
            2 * content@.len() <= u32::MAX ==> (r matches Ok(s) && s.wf() && s.content@
                == content@ && s.spec_byte_length() == content@.len()),
            2 * content@.len() > u32::MAX ==> r == Err::<AscString, AscError>(
                AscError::SizeNotFit,
            ),
    {
        if content.len() > 2147483647usize {
            return Err(AscError::SizeNotFit);
        }
        Ok(AscString {
            byte_length: content.len() as u32,
            content: vstd::slice::slice_to_vec(content),
        })
    }
}

impl AscType for AscString {
    type Model = Seq<u16>;

    open spec fn model(&self) -> Seq<u16> {
        self.content@
    }

    open spec fn wf(&self) -> bool {
        self.spec_byte_length() == self.content@.len() && 2 * self.content@.len() <= u32::MAX
    }

    open spec fn enc(&self) -> Seq<u8> {
        enc_elems::<u16>(self.content@) + Seq::new(
            (spec_block_size(self.content@.len()) - (STRING_HEADER_SIZE + 2
                * self.content@.len())) as nat,
            |i: int| 0u8,
        )
    }

    open spec fn enc_fits(&self) -> bool {
        spec_enc_len(self.content@.len()) <= usize::MAX
    }

    open spec fn dec(b: Seq<u8>, v: ApiVersion) -> Result<Seq<u16>, AscError> {
        if b.len() % 2 == 1 {
            Err(AscError::Plain(malformed_message_string()))
        } else {
            match dec_elems::<u16>(b, (b.len() / 2) as nat) {
                Ok(units) => if 2 * units.len() > u32::MAX {
                    Err(AscError::SizeNotFit)
                } else {
                    Ok(units)
                },
                Err(e) => Err(e),
            }
        }
    }

    open spec fn spec_content_len(&self, b: Seq<u8>) -> nat {
        (2 * self.spec_byte_length()) as nat
    }

    fn to_asc_bytes(&self) -> (r: Result<Vec<u8>, AscError>) {
        let n = self.content.len();
        proof {
            assert(usize::MAX >= u32::MAX);
            assert(self.content@.len() * 2 <= u32::MAX);
        }
        let mut out = encode_elems::<u16>(self.content.as_slice());
        let total: u64 = STRING_HEADER_SIZE + 2 * (n as u64);
        let cap: u64 = next_power_of_two_u64(total);
        proof {
            lemma_next_pow2_props(total as nat);
        }
        let extra: u64 = cap - total;
        let mut j: u64 = 0;
        proof {
            assert(out@ + Seq::new(0, |i: int| 0u8) =~= out@);
        }
        while j < extra
            invariant
                j <= extra,
                out@ == enc_elems::<u16>(self.content@) + Seq::new(j as nat, |i: int| 0u8),
            decreases extra - j,
        {
            out.push(0u8);
            proof {
                assert(Seq::new((j + 1) as nat, |i: int| 0u8) =~= Seq::new(
                    j as nat,
                    |i: int| 0u8,
                ).push(0u8));
                assert(out@ =~= enc_elems::<u16>(self.content@) + Seq::new(
                    (j + 1) as nat,
                    |i: int| 0u8,
                ));
            }
            j = j + 1;
        }
        proof {
            assert(out@ == self.enc());
        }
        Ok(out)
    }

    fn from_asc_bytes(bytes: &[u8], api_version: &ApiVersion) -> (r: Result<AscString, AscError>) {
        if bytes.len() % 2 == 1 {
            let msg = "Attempted to read past end of string content bytes chunk".to_owned();
            proof {
                reveal_strlit("Attempted to read past end of string content bytes chunk");
                assert(msg@ == malformed_message());
                assert(exists|s: String| s@ == malformed_message()) by {
                    assert(msg@ == malformed_message());
                }
                assert(malformed_message_string()@ == malformed_message());
            }
            return Err(AscError::Plain(msg));
        }
        let count = bytes.len() / 2;
        proof {
            assert(bytes@.len() == count * 2);
        }
        let units = match decode_elems::<u16>(bytes, count) {
            Ok(u) => u,
            Err(e) => {
                return Err(e);
            },
        };
        AscString::new(units.as_slice())
    }

    fn content_len(&self, asc_bytes: &[u8]) -> (r: usize) {
        proof {
            assert(usize::MAX >= u32::MAX);
        }
        (self.byte_length as usize) * 2
    }
}

/// Padding law: the header size plus the emitted byte count is exactly the
/// content-plus-header size rounded up to the next power of two. For an
/// empty string that block is `next_pow2(header)`; the emitted bytes are
/// the block minus the header.
pub proof fn lemma_string_padding(s: AscString)
    requires
        s.wf(),
    ensures
        STRING_HEADER_SIZE + s.enc().len() == spec_block_size(s.content@.len()),
        s.enc().len() == spec_enc_len(s.content@.len()),
        spec_block_size(s.content@.len()) == next_pow2(
            (STRING_HEADER_SIZE + 2 * s.content@.len()) as nat,
        ),
{
    let n = s.content@.len();
    lemma_enc_elems_len::<u16>(s.content@);
    lemma_next_pow2_props((STRING_HEADER_SIZE + 2 * n) as nat);
}

/// On any target whose `usize` reaches 2^34, every well-formed string's
/// encoding fits in a vector: the reserved block is below twice the
/// largest header-plus-content size, which the size invariant bounds.
pub proof fn lemma_enc_fits(s: AscString)
    requires
        s.wf(),
        usize::MAX >= 0x4_0000_0000,
    ensures
        s.enc_fits(),
{
    let n = s.content@.len();
    lemma_next_pow2_props((STRING_HEADER_SIZE + 2 * n) as nat);
    assert(spec_block_size(n) < 2 * (STRING_HEADER_SIZE + 2 * n));
}

/// The block and emitted sizes the layout fixes at the two ends the
/// padding law names: an empty string's block is the header alone rounded
/// up, 32 bytes; a ten-unit string's block is 64 bytes; the codec emits
/// those blocks minus the 20-byte header.
pub proof fn lemma_padding_values()
    ensures
        spec_block_size(0) == 32,
        spec_block_size(10) == 64,
        spec_enc_len(0) == 12,
        spec_enc_len(10) == 44,
{
    reveal_with_fuel(next_pow2, 8);
}

/// Malformed decode: a byte sequence of odd length — a truncated trailing
/// unit — always fails, with the generic decode failure carrying the one
/// fixed message and no other error; no input is ever read past its end.
pub proof fn lemma_malformed_decode(b: Seq<u8>, v: ApiVersion)
    requires
        b.len() % 2 == 1,
    ensures
        AscString::dec(b, v) == Err::<Seq<u16>, AscError>(
            AscError::Plain(malformed_message_string()),
        ),
{
}

/// The declared version plays no part in the string layout: decoding is a
/// pure function of the bytes alone, so decodes of the same input agree —
/// the same content on success, the same error on failure — under any two
/// versions.
pub proof fn lemma_string_decode_version_independent(b: Seq<u8>, v1: ApiVersion, v2: ApiVersion)
    ensures
        AscString::dec(b, v1) == AscString::dec(b, v2),
{
}

/// Round trip: decoding the content portion of an encoded string — the
/// first `2 * unit_count` bytes, which `content_len` delimits, before the
/// zero fill — yields the same unit sequence, under every version.
pub proof fn lemma_string_round_trip(s: AscString, v: ApiVersion)
    requires
        s.wf(),
    ensures
        AscString::dec(s.enc().take(2 * s.content@.len() as int), v) == Ok::<Seq<u16>, AscError>(
            s.content@,
        ),
{
    let n = s.content@.len();
    lemma_enc_elems_len::<u16>(s.content@);
    assert(s.enc().take(2 * n as int) =~= enc_elems::<u16>(s.content@));
    lemma_dec_enc_elems::<u16>(s.content@);
    assert((2 * n as int) % 2 == 0);
}

} // verus!
