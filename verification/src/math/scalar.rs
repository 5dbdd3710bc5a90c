use vstd::prelude::*;
use vstd::std_specs::cmp::PartialEqSpecImpl;

verus! {

/// A single-precision number, held as its IEEE-754 bit pattern.
///
/// The crate moves scalars around and compares them, nothing more.
/// Arithmetic on them is the business of whoever produced them. Two scalars
/// compare equal with `==` when they are the same number: a zero equals a
/// zero of either sign, and what is not a number equals nothing, not even
/// itself.
#[derive(Debug, Clone, Copy)]
pub struct Scalar {
    pub bits: u32,
}

/// The bit pattern of minus one.
pub const NEGATIVE_ONE_BITS: u32 = 0xbf80_0000;

/// The bits of a pattern that are not its sign.
pub const MAGNITUDE_BITS: u32 = 0x7fff_ffff;

/// The bit pattern of infinity: every bit of the exponent, and no other.
pub const INFINITY_BITS: u32 = 0x7f80_0000;

/// The bits of a pattern that are its fraction.
pub const FRACTION_BITS: u32 = 0x007f_ffff;

/// The bit pattern of zero.
pub const ZERO_BITS: u32 = 0x0000_0000;

/// The bit pattern of one.
pub const ONE_BITS: u32 = 0x3f80_0000;

impl Scalar {
    /// Whether the bit pattern stands for no number: beyond its sign it is
    /// greater than that of infinity.
    pub open spec fn spec_is_nan(self) -> bool {
        self.bits & MAGNITUDE_BITS > INFINITY_BITS
    }

    /// Whether the bit pattern is that of zero, with either sign.
    pub open spec fn spec_is_zero(self) -> bool {
        self.bits & MAGNITUDE_BITS == 0
    }

    /// Whether two scalars are the same number: both are numbers, and their
    /// patterns are equal or both are zeros.
    pub open spec fn same_number(self, other: Scalar) -> bool {
        &&& !self.spec_is_nan()
        &&& !other.spec_is_nan()
        &&& (self.bits == other.bits || (self.spec_is_zero() && other.spec_is_zero()))
    }

    /// Whether the bit pattern stands for no number.
    #[verifier::when_used_as_spec(spec_is_nan)]
    pub fn is_nan(self) -> (nan: bool)
        ensures
            nan == self.spec_is_nan(),
    {
        self.bits & MAGNITUDE_BITS > INFINITY_BITS
    }

    /// Whether the scalar is zero, with either sign.
    #[verifier::when_used_as_spec(spec_is_zero)]
    pub fn is_zero(self) -> (zero: bool)
        ensures
            zero == self.spec_is_zero(),
    {
        self.bits & MAGNITUDE_BITS == 0
    }

    /// The scalar zero, as a specification value.
    pub open spec fn spec_zero() -> Scalar {
        Scalar { bits: ZERO_BITS }
    }

    /// The scalar one, as a specification value.
    pub open spec fn spec_one() -> Scalar {
        Scalar { bits: ONE_BITS }
    }

    /// The scalar minus one, as a specification value.
    pub open spec fn spec_negative_one() -> Scalar {
        Scalar { bits: NEGATIVE_ONE_BITS }
    }

    /// The scalar with the given bit pattern.
    pub fn from_bits(bits: u32) -> (s: Scalar)
        ensures
            s.bits == bits,
    {
        Scalar { bits }
    }

    /// The bit pattern of this scalar.
    pub fn to_bits(self) -> (bits: u32)
        ensures
            bits == self.bits,
    {
        self.bits
    }

    /// The scalar zero.
    #[verifier::when_used_as_spec(spec_zero)]
    pub fn zero() -> (s: Scalar)
        ensures
            s == Scalar::spec_zero(),
    {
        Scalar { bits: ZERO_BITS }
    }

    /// The scalar one.
    #[verifier::when_used_as_spec(spec_one)]
    pub fn one() -> (s: Scalar)
        ensures
            s == Scalar::spec_one(),
    {
        Scalar { bits: ONE_BITS }
    }

    /// The scalar minus one.
    #[verifier::when_used_as_spec(spec_negative_one)]
    pub fn negative_one() -> (s: Scalar)
        ensures
            s == Scalar::spec_negative_one(),
    {
        Scalar { bits: NEGATIVE_ONE_BITS }
    }
}

impl PartialEq for Scalar {
    /// Whether the two scalars are the same number.
    fn eq(&self, other: &Scalar) -> (r: bool) {
        !self.is_nan() && !other.is_nan() && (self.bits == other.bits || (self.is_zero()
            && other.is_zero()))
    }
}

impl PartialEqSpecImpl for Scalar {
    open spec fn obeys_eq_spec() -> bool {
        true
    }

    open spec fn eq_spec(&self, other: &Scalar) -> bool {
        self.same_number(*other)
    }
}

/// A bit pattern stands for no number exactly if every bit of its exponent
/// is set and some bit of its fraction is.
pub proof fn lemma_nan_pattern(s: Scalar)
    ensures
        s.spec_is_nan() <==> (s.bits & INFINITY_BITS == INFINITY_BITS && s.bits & FRACTION_BITS
            != 0),
{
    let bits = s.bits;
    assert((bits & 0x7fff_ffffu32 > 0x7f80_0000u32) <==> (bits & 0x7f80_0000u32 == 0x7f80_0000u32
        && bits & 0x007f_ffffu32 != 0)) by (bit_vector);
}

/// Being the same number is symmetric and transitive, and a scalar is the
/// same number as itself exactly if it is a number. The two zeros are the
/// same number, and they are the only two patterns that are the same number
/// without being the same pattern.
pub proof fn lemma_same_number(a: Scalar, b: Scalar, c: Scalar)
    ensures
        a.same_number(b) == b.same_number(a),
        a.same_number(b) && b.same_number(c) ==> a.same_number(c),
        a.same_number(a) == !a.spec_is_nan(),
        a.bits == 0 && b.bits == 0x8000_0000 ==> a.same_number(b),
        a.same_number(b) && a.bits != b.bits ==> (a.bits == 0 && b.bits == 0x8000_0000) || (a.bits
            == 0x8000_0000 && b.bits == 0),
        Scalar::spec_zero().same_number(Scalar::spec_zero()),
        Scalar::spec_one().same_number(Scalar::spec_one()),
        !Scalar::spec_zero().same_number(Scalar::spec_one()),
{
    assert(0u32 & 0x7fff_ffffu32 == 0) by (bit_vector);
    assert(0x8000_0000u32 & 0x7fff_ffffu32 == 0) by (bit_vector);
    assert(0x3f80_0000u32 & 0x7fff_ffffu32 == 0x3f80_0000u32) by (bit_vector);
    let x = a.bits;
    let y = b.bits;
    assert(x & 0x7fff_ffffu32 == 0 ==> x == 0 || x == 0x8000_0000u32) by (bit_vector);
    assert(y & 0x7fff_ffffu32 == 0 ==> y == 0 || y == 0x8000_0000u32) by (bit_vector);
}

} // verus!
