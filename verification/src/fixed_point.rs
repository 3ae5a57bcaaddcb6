use fixed::types::I80F48;
use vstd::prelude::*;

verus! {

/// The bits of one unit: `I80F48` keeps 48 fractional bits.
pub open spec fn fixed_one() -> int {
    0x1_0000_0000_0000
}

/// An `I80F48` value held by its raw bits, as a bank account stores it:
/// the number it stands for is `value / 2^48`.
#[derive(Clone, Copy, Debug, PartialEq, Eq, Structural)]
pub struct WrappedI80F48 {
    pub value: i128,
}

/// The whole part of a fixed-point value, rounded towards minus infinity.
pub open spec fn whole_part(bits: int) -> int {
    bits / fixed_one()
}

/// `I80F48::from_num` on a `u64`: every `u64` fits, so the result is the
/// integer itself, that is its bits are the integer shifted by the 48
/// fractional bits.
#[verifier::external_body]
pub(crate) fn fixed_from_u64(n: u64) -> (r: WrappedI80F48)
    ensures
        r.value == n * fixed_one(),
{
    WrappedI80F48 { value: I80F48::from_num(n).to_bits() }
}

/// `I80F48::int`: masks off the fractional bits, which rounds towards
/// minus infinity.
#[verifier::external_body]
pub(crate) fn fixed_int(v: WrappedI80F48) -> (r: WrappedI80F48)
    ensures
        r.value == whole_part(v.value as int) * fixed_one(),
{
    WrappedI80F48 { value: I80F48::from_bits(v.value).int().to_bits() }
}

/// `I80F48` subtraction, which subtracts the bits; the caller keeps the
/// difference in range, where the operator would panic or wrap.
#[verifier::external_body]
pub(crate) fn fixed_sub(a: WrappedI80F48, b: WrappedI80F48) -> (r: WrappedI80F48)
    requires
        i128::MIN <= a.value - b.value <= i128::MAX,
    ensures
        r.value == a.value - b.value,
{
    WrappedI80F48 { value: (I80F48::from_bits(a.value) - I80F48::from_bits(b.value)).to_bits() }
}

/// `std::cmp::min` on two `I80F48` values, which are ordered by their bits;
/// on a tie the first argument comes back.
#[verifier::external_body]
pub(crate) fn fixed_min(a: WrappedI80F48, b: WrappedI80F48) -> (r: WrappedI80F48)
    ensures
        r == (if a.value <= b.value { a } else { b }),
{
    WrappedI80F48 {
        value: std::cmp::min(I80F48::from_bits(a.value), I80F48::from_bits(b.value)).to_bits(),
    }
}

/// `std::cmp::max` on two `I80F48` values, which are ordered by their bits;
/// on a tie the second argument comes back.
#[verifier::external_body]
pub(crate) fn fixed_max(a: WrappedI80F48, b: WrappedI80F48) -> (r: WrappedI80F48)
    ensures
        r == (if a.value <= b.value { b } else { a }),
{
    WrappedI80F48 {
        value: std::cmp::max(I80F48::from_bits(a.value), I80F48::from_bits(b.value)).to_bits(),
    }
}

/// `I80F48 > I80F48`, which compares the bits.
#[verifier::external_body]
pub(crate) fn fixed_gt(a: WrappedI80F48, b: WrappedI80F48) -> (r: bool)
    ensures
        r == (a.value > b.value),
{
    I80F48::from_bits(a.value) > I80F48::from_bits(b.value)
}

/// `I80F48::to_num::<u64>`: drops the fractional bits, rounding towards
/// minus infinity; the caller keeps the whole part within `u64`, where the
/// conversion would panic or wrap.
#[verifier::external_body]
pub(crate) fn fixed_to_u64(v: WrappedI80F48) -> (r: u64)
    requires
        0 <= whole_part(v.value as int) <= u64::MAX,
    ensures
        r == whole_part(v.value as int),
{
    I80F48::from_bits(v.value).to_num::<u64>()
}

} // verus!
