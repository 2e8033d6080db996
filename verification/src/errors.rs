//! The closed error taxonomy shared by every codec in the crate.
//!
//! Every failure is returned as a value of one of these enums, never raised
//! as a panic; the verified functions of the crate do not panic.

use vstd::prelude::*;

verus! {

/// Failure when an arbitrary-precision integer is converted into a bounded
/// native type.
#[derive(Debug)]
pub enum BigIntOutOfRangeError {
    /// The value is negative and the target type cannot hold a sign.
    Negative,
    /// The value's magnitude does not fit the target type.
    Overflow,
}

/// num_bigint's error for a big integer that could not be parsed from text.
/// The value is carried through unchanged and is opaque to this crate.
#[verifier::external_type_specification]
#[verifier::external_body]
pub struct ExParseBigIntError(num_bigint::ParseBigIntError);

/// Failures surfaced by arbitrary-precision number handling. Only the
/// failure modes live here; the arithmetic itself is an external
/// collaborator.
#[derive(Debug)]
pub enum BigNumberErr {
    /// A textual number could not be parsed at all.
    Parser,
    /// A conversion lost sign or magnitude information.
    OutOfRange(BigIntOutOfRangeError),
    /// The number exceeds every representable range.
    NumberTooBig,
    /// The underlying parse error, kept verbatim.
    ParseError(num_bigint::ParseBigIntError),
}

/// One failure kind for every way marshaling can go wrong. All are
/// non-fatal: a failed operation aborts only itself and never leaves a
/// partial write behind.
#[derive(Debug)]
pub enum AscError {
    /// An encoded content's byte size would exceed the maximum
    /// representable size field.
    SizeNotFit,
    /// A numeric value exceeds the representable range; carries the
    /// offending magnitude.
    Overflow(u32),
    /// Generic decode failure, such as a truncated trailing byte in a
    /// multi-byte unit.
    Plain(String),
    /// A decoded boolean-tagged byte is neither 0 nor 1; carries the byte.
    IncorrectBool(usize),
    /// A decoded byte length disagrees with the length implied by a header
    /// field.
    SizeNotMatch,
    /// A nested, pointer-following decode exceeded the configured depth
    /// bound.
    MaxRecursion,
    /// Arbitrary-precision number handling failed.
    BigNumberOutOfRange(BigNumberErr),
    /// The heap capability reported an out-of-bounds access.
    HeapAccessFault,
}

/// Equality on taxonomy errors: the kind and every structured payload
/// must match, and a generic decode failure's message must carry the same
/// text (a `String` is its character sequence; the heap allocation behind
/// it has no identity of its own).
pub open spec fn err_like(a: AscError, b: AscError) -> bool {
    match (a, b) {
        (AscError::Plain(x), AscError::Plain(y)) => x@ == y@,
        _ => a == b,
    }
}

impl From<BigIntOutOfRangeError> for BigNumberErr {
    fn from(e: BigIntOutOfRangeError) -> (r: BigNumberErr) {
        BigNumberErr::OutOfRange(e)
    }
}

impl vstd::std_specs::convert::FromSpecImpl<BigIntOutOfRangeError> for BigNumberErr {
    open spec fn obeys_from_spec() -> bool {
        true
    }

    open spec fn from_spec(e: BigIntOutOfRangeError) -> BigNumberErr {
        BigNumberErr::OutOfRange(e)
    }
}

impl From<num_bigint::ParseBigIntError> for BigNumberErr {
    fn from(e: num_bigint::ParseBigIntError) -> (r: BigNumberErr) {
        BigNumberErr::ParseError(e)
    }
}

impl vstd::std_specs::convert::FromSpecImpl<num_bigint::ParseBigIntError> for BigNumberErr {
    open spec fn obeys_from_spec() -> bool {
        true
    }

    open spec fn from_spec(e: num_bigint::ParseBigIntError) -> BigNumberErr {
        BigNumberErr::ParseError(e)
    }
}

impl From<BigNumberErr> for AscError {
    fn from(e: BigNumberErr) -> (r: AscError) {
        AscError::BigNumberOutOfRange(e)
    }
}

impl vstd::std_specs::convert::FromSpecImpl<BigNumberErr> for AscError {
    open spec fn obeys_from_spec() -> bool {
        true
    }

    open spec fn from_spec(e: BigNumberErr) -> AscError {
        AscError::BigNumberOutOfRange(e)
    }
}

} // verus!
