//! Arithmetic and bitwise operators on sizes. Each takes a size or a raw
//! count on the right and works on the counts; sums, differences, products
//! and shift distances wrap around, so that no operator fails but division
//! and remainder by zero, which are not defined.

use crate::size_t::Size;
use crate::word::lemma_pointer_width;
use vstd::prelude::*;
use vstd::std_specs::convert::FromSpec;
use vstd::std_specs::ops::{
    AddSpec, BitAndSpec, BitOrSpec, BitXorSpec, DivSpec, MulSpec, NotSpec, RemSpec, ShlSpec,
    ShrSpec, SubSpec,
};
use vstd::wrapping::usize_specs;

verus! {

/// The count that the integer `n` wraps to: `n` modulo the number of values
/// that a count can take. Arithmetic on sizes wraps around in this way, as
/// the wrapping operations of the underlying count do; it never fails.
pub open spec fn wrap(n: int) -> usize {
    (n % (usize::MAX + 1)) as usize
}

/// The distance by which a shift by `rhs` moves the bits: `rhs` modulo the
/// width of a count.
pub open spec fn shift_distance(rhs: usize) -> u32 {
    (rhs as int % usize::BITS as int) as u32
}

/// Where wrapping leaves a number as it is, and where it moves it by one
/// whole range of counts: a number in the range of a count is unchanged, one
/// that is less than a range below it comes up by a range, one that is less
/// than a range above it comes down by a range.
pub proof fn lemma_wrap(n: int)
    ensures
        0 <= n <= usize::MAX ==> wrap(n) == n,
        -(usize::MAX + 1) <= n < 0 ==> wrap(n) == n + (usize::MAX + 1),
        usize::MAX < n <= 2 * usize::MAX + 1 ==> wrap(n) == n - (usize::MAX + 1),
{
    lemma_pointer_width();
    if usize::BITS == 32 {
        assert(wrap(n) == (n % 0x1_0000_0000) as usize);
    } else {
        assert(wrap(n) == (n % 0x1_0000_0000_0000_0000) as usize);
    }
}

/// A distance that is less than the width of a count is not changed by
/// wrapping.
pub proof fn lemma_short_distance(rhs: usize)
    ensures
        rhs < usize::BITS ==> shift_distance(rhs) == rhs,
        shift_distance(rhs) < usize::BITS,
{
    lemma_pointer_width();
}

proof fn lemma_wrapping_add(x: usize, y: usize)
    ensures
        usize_specs::wrapping_add(x, y) == wrap(x + y),
{
    lemma_wrap(x + y);
}

proof fn lemma_wrapping_sub(x: usize, y: usize)
    ensures
        usize_specs::wrapping_sub(x, y) == wrap(x - y),
{
    lemma_wrap(x - y);
}

proof fn lemma_wrapping_mul(x: usize, y: usize)
    ensures
        usize_specs::wrapping_mul(x, y) == wrap(x * y),
{
    assert(x as nat * y as nat == x * y) by (nonlinear_arith);
}

proof fn lemma_truncated_distance(rhs: usize)
    by (bit_vector)
    ensures
        (rhs as u32) % usize::BITS == rhs % (usize::BITS as usize),
{
}

proof fn lemma_shift_distance(rhs: usize)
    ensures
        (rhs as u32) % usize::BITS == shift_distance(rhs),
{
    lemma_truncated_distance(rhs);
}

proof fn lemma_complement_bits(x: usize)
    by (bit_vector)
    ensures
        usize::BITS == 32 ==> !x == 0xffff_ffff - x,
        usize::BITS == 64 ==> !x == 0xffff_ffff_ffff_ffff - x,
{
}

impl std::ops::Add<usize> for Size {
    type Output = Size;

    /// The sum of a size and a raw count, wrapped around at the largest
    /// count.
    fn add(self, rhs: usize) -> (r: Size)
        ensures
            r@ == wrap(self@ + rhs),
    {
        let lhs: usize = usize::from(self);
        proof {
            lemma_wrapping_add(lhs, rhs);
        }
        Size::from(lhs.wrapping_add(rhs))
    }
}

impl vstd::std_specs::ops::AddSpecImpl<usize> for Size {
    open spec fn obeys_add_spec() -> bool {
        true
    }

    open spec fn add_req(self, rhs: usize) -> bool {
        true
    }

    open spec fn add_spec(self, rhs: usize) -> Size {
        Size::with_count(wrap(self@ + rhs))
    }
}

impl std::ops::Add<Size> for Size {
    type Output = Size;

    /// The sum of a size and another size, wrapped around at the largest
    /// count.
    fn add(self, rhs: Size) -> (r: Size)
        ensures
            r@ == wrap(self@ + rhs@),
    {
        let lhs: usize = usize::from(self);
        let rhs: usize = usize::from(rhs);
        proof {
            lemma_wrapping_add(lhs, rhs);
        }
        Size::from(lhs.wrapping_add(rhs))
    }
}

impl vstd::std_specs::ops::AddSpecImpl<Size> for Size {
    open spec fn obeys_add_spec() -> bool {
        true
    }

    open spec fn add_req(self, rhs: Size) -> bool {
        true
    }

    open spec fn add_spec(self, rhs: Size) -> Size {
        Size::with_count(wrap(self@ + rhs@))
    }
}

impl std::ops::Sub<usize> for Size {
    type Output = Size;

    /// The difference of a size and a raw count, wrapped around below zero.
    fn sub(self, rhs: usize) -> (r: Size)
        ensures
            r@ == wrap(self@ - rhs),
    {
        let lhs: usize = usize::from(self);
        proof {
            lemma_wrapping_sub(lhs, rhs);
        }
        Size::from(lhs.wrapping_sub(rhs))
    }
}

impl vstd::std_specs::ops::SubSpecImpl<usize> for Size {
    open spec fn obeys_sub_spec() -> bool {
        true
    }

    open spec fn sub_req(self, rhs: usize) -> bool {
        true
    }

    open spec fn sub_spec(self, rhs: usize) -> Size {
        Size::with_count(wrap(self@ - rhs))
    }
}

impl std::ops::Sub<Size> for Size {
    type Output = Size;

    /// The difference of a size and another size, wrapped around below zero.
    fn sub(self, rhs: Size) -> (r: Size)
        ensures
            r@ == wrap(self@ - rhs@),
    {
        let lhs: usize = usize::from(self);
        let rhs: usize = usize::from(rhs);
        proof {
            lemma_wrapping_sub(lhs, rhs);
        }
        Size::from(lhs.wrapping_sub(rhs))
    }
}

impl vstd::std_specs::ops::SubSpecImpl<Size> for Size {
    open spec fn obeys_sub_spec() -> bool {
        true
    }

    open spec fn sub_req(self, rhs: Size) -> bool {
        true
    }

    open spec fn sub_spec(self, rhs: Size) -> Size {
        Size::with_count(wrap(self@ - rhs@))
    }
}

impl std::ops::Mul<usize> for Size {
    type Output = Size;

    /// The product of a size and a raw count, wrapped around at the largest
    /// count.
    fn mul(self, rhs: usize) -> (r: Size)
        ensures
            r@ == wrap(self@ * rhs),
    {
        let lhs: usize = usize::from(self);
        proof {
            lemma_wrapping_mul(lhs, rhs);
        }
        Size::from(lhs.wrapping_mul(rhs))
    }
}

impl vstd::std_specs::ops::MulSpecImpl<usize> for Size {
    open spec fn obeys_mul_spec() -> bool {
        true
    }

    open spec fn mul_req(self, rhs: usize) -> bool {
        true
    }

    open spec fn mul_spec(self, rhs: usize) -> Size {
        Size::with_count(wrap(self@ * rhs))
    }
}

impl std::ops::Mul<Size> for Size {
    type Output = Size;

    /// The product of a size and another size, wrapped around at the largest
    /// count.
    fn mul(self, rhs: Size) -> (r: Size)
        ensures
            r@ == wrap(self@ * rhs@),
    {
        let lhs: usize = usize::from(self);
        let rhs: usize = usize::from(rhs);
        proof {
            lemma_wrapping_mul(lhs, rhs);
        }
        Size::from(lhs.wrapping_mul(rhs))
    }
}

impl vstd::std_specs::ops::MulSpecImpl<Size> for Size {
    open spec fn obeys_mul_spec() -> bool {
        true
    }

    open spec fn mul_req(self, rhs: Size) -> bool {
        true
    }

    open spec fn mul_spec(self, rhs: Size) -> Size {
        Size::with_count(wrap(self@ * rhs@))
    }
}

impl std::ops::Div<usize> for Size {
    type Output = Size;

    /// The quotient of a size by a raw count, rounded down. The divisor is
    /// not zero.
    fn div(self, rhs: usize) -> (r: Size)
        ensures
            r@ == self@ / rhs,
    {
        let lhs: usize = usize::from(self);
        Size::from(lhs / rhs)
    }
}

impl vstd::std_specs::ops::DivSpecImpl<usize> for Size {
    open spec fn obeys_div_spec() -> bool {
        true
    }

    open spec fn div_req(self, rhs: usize) -> bool {
        rhs != 0
    }

    open spec fn div_spec(self, rhs: usize) -> Size {
        Size::with_count(self@ / rhs)
    }
}

impl std::ops::Div<Size> for Size {
    type Output = Size;

    /// The quotient of a size by another size, rounded down. The divisor is
    /// not zero.
    fn div(self, rhs: Size) -> (r: Size)
        ensures
            r@ == self@ / rhs@,
    {
        let lhs: usize = usize::from(self);
        let rhs: usize = usize::from(rhs);
        Size::from(lhs / rhs)
    }
}

impl vstd::std_specs::ops::DivSpecImpl<Size> for Size {
    open spec fn obeys_div_spec() -> bool {
        true
    }

    open spec fn div_req(self, rhs: Size) -> bool {
        rhs@ != 0
    }

    open spec fn div_spec(self, rhs: Size) -> Size {
        Size::with_count(self@ / rhs@)
    }
}

impl std::ops::BitAnd<usize> for Size {
    type Output = Size;

    /// The bits that are set in both a size and a raw count.
    fn bitand(self, rhs: usize) -> (r: Size)
        ensures
            r@ == self@ & rhs,
    {
        let lhs: usize = usize::from(self);
        Size::from(lhs & rhs)
    }
}

impl vstd::std_specs::ops::BitAndSpecImpl<usize> for Size {
    open spec fn obeys_bitand_spec() -> bool {
        true
    }

    open spec fn bitand_req(self, rhs: usize) -> bool {
        true
    }

    open spec fn bitand_spec(self, rhs: usize) -> Size {
        Size::with_count(self@ & rhs)
    }
}

impl std::ops::BitAnd<Size> for Size {
    type Output = Size;

    /// The bits that are set in both a size and another size.
    fn bitand(self, rhs: Size) -> (r: Size)
        ensures
            r@ == self@ & rhs@,
    {
        let lhs: usize = usize::from(self);
        let rhs: usize = usize::from(rhs);
        Size::from(lhs & rhs)
    }
}

impl vstd::std_specs::ops::BitAndSpecImpl<Size> for Size {
    open spec fn obeys_bitand_spec() -> bool {
        true
    }

    open spec fn bitand_req(self, rhs: Size) -> bool {
        true
    }

    open spec fn bitand_spec(self, rhs: Size) -> Size {
        Size::with_count(self@ & rhs@)
    }
}

impl std::ops::BitOr<usize> for Size {
    type Output = Size;

    /// The bits that are set in a size or in a raw count.
    fn bitor(self, rhs: usize) -> (r: Size)
        ensures
            r@ == self@ | rhs,
    {
        let lhs: usize = usize::from(self);
        Size::from(lhs | rhs)
    }
}

impl vstd::std_specs::ops::BitOrSpecImpl<usize> for Size {
    open spec fn obeys_bitor_spec() -> bool {
        true
    }

    open spec fn bitor_req(self, rhs: usize) -> bool {
        true
    }

    open spec fn bitor_spec(self, rhs: usize) -> Size {
        Size::with_count(self@ | rhs)
    }
}

impl std::ops::BitOr<Size> for Size {
    type Output = Size;

    /// The bits that are set in a size or in another size.
    fn bitor(self, rhs: Size) -> (r: Size)
        ensures
            r@ == self@ | rhs@,
    {
        let lhs: usize = usize::from(self);
        let rhs: usize = usize::from(rhs);
        Size::from(lhs | rhs)
    }
}

impl vstd::std_specs::ops::BitOrSpecImpl<Size> for Size {
    open spec fn obeys_bitor_spec() -> bool {
        true
    }

    open spec fn bitor_req(self, rhs: Size) -> bool {
        true
    }

    open spec fn bitor_spec(self, rhs: Size) -> Size {
        Size::with_count(self@ | rhs@)
    }
}

impl std::ops::BitXor<usize> for Size {
    type Output = Size;

    /// The bits that are set in exactly one of a size and a raw count.
    fn bitxor(self, rhs: usize) -> (r: Size)
        ensures
            r@ == self@ ^ rhs,
    {
        let lhs: usize = usize::from(self);
        Size::from(lhs ^ rhs)
    }
}

impl vstd::std_specs::ops::BitXorSpecImpl<usize> for Size {
    open spec fn obeys_bitxor_spec() -> bool {
        true
    }

    open spec fn bitxor_req(self, rhs: usize) -> bool {
        true
    }

    open spec fn bitxor_spec(self, rhs: usize) -> Size {
        Size::with_count(self@ ^ rhs)
    }
}

impl std::ops::BitXor<Size> for Size {
    type Output = Size;

    /// The bits that are set in exactly one of a size and another size.
    fn bitxor(self, rhs: Size) -> (r: Size)
        ensures
            r@ == self@ ^ rhs@,
    {
        let lhs: usize = usize::from(self);
        let rhs: usize = usize::from(rhs);
        Size::from(lhs ^ rhs)
    }
}

impl vstd::std_specs::ops::BitXorSpecImpl<Size> for Size {
    open spec fn obeys_bitxor_spec() -> bool {
        true
    }

    open spec fn bitxor_req(self, rhs: Size) -> bool {
        true
    }

    open spec fn bitxor_spec(self, rhs: Size) -> Size {
        Size::with_count(self@ ^ rhs@)
    }
}

impl std::ops::Rem<usize> for Size {
    type Output = Size;

    /// The remainder of a size divided by a raw count. The divisor is not
    /// zero.
    fn rem(self, rhs: usize) -> (r: Size)
        ensures
            r@ == self@ % rhs,
    {
        let lhs: usize = usize::from(self);
        Size::from(lhs % rhs)
    }
}

impl vstd::std_specs::ops::RemSpecImpl<usize> for Size {
    open spec fn obeys_rem_spec() -> bool {
        true
    }

    open spec fn rem_req(self, rhs: usize) -> bool {
        rhs != 0
    }

    open spec fn rem_spec(self, rhs: usize) -> Size {
        Size::with_count(self@ % rhs)
    }
}

impl std::ops::Rem<Size> for Size {
    type Output = Size;

    /// The remainder of a size divided by another size. The divisor is not
    /// zero.
    fn rem(self, rhs: Size) -> (r: Size)
        ensures
            r@ == self@ % rhs@,
    {
        let lhs: usize = usize::from(self);
        let rhs: usize = usize::from(rhs);
        Size::from(lhs % rhs)
    }
}

impl vstd::std_specs::ops::RemSpecImpl<Size> for Size {
    open spec fn obeys_rem_spec() -> bool {
        true
    }

    open spec fn rem_req(self, rhs: Size) -> bool {
        rhs@ != 0
    }

    open spec fn rem_spec(self, rhs: Size) -> Size {
        Size::with_count(self@ % rhs@)
    }
}

impl std::ops::Shl<usize> for Size {
    type Output = Size;

    /// The bits of a size moved left by a raw count; the distance wraps
    /// around at the width of a count, and bits moved past the top are
    /// dropped.
    fn shl(self, rhs: usize) -> (r: Size)
        ensures
            r@ == self@ << shift_distance(rhs),
    {
        let lhs: usize = usize::from(self);
        proof {
            lemma_shift_distance(rhs);
        }
        Size::from(lhs.wrapping_shl(#[verifier::truncate] (rhs as u32)))
    }
}

impl vstd::std_specs::ops::ShlSpecImpl<usize> for Size {
    open spec fn obeys_shl_spec() -> bool {
        true
    }

    open spec fn shl_req(self, rhs: usize) -> bool {
        true
    }

    open spec fn shl_spec(self, rhs: usize) -> Size {
        Size::with_count(self@ << shift_distance(rhs))
    }
}

impl std::ops::Shl<Size> for Size {
    type Output = Size;

    /// The bits of a size moved left by another size; the distance wraps
    /// around at the width of a count, and bits moved past the top are
    /// dropped.
    fn shl(self, rhs: Size) -> (r: Size)
        ensures
            r@ == self@ << shift_distance(rhs@),
    {
        let lhs: usize = usize::from(self);
        let rhs: usize = usize::from(rhs);
        proof {
            lemma_shift_distance(rhs);
        }
        Size::from(lhs.wrapping_shl(#[verifier::truncate] (rhs as u32)))
    }
}

impl vstd::std_specs::ops::ShlSpecImpl<Size> for Size {
    open spec fn obeys_shl_spec() -> bool {
        true
    }

    open spec fn shl_req(self, rhs: Size) -> bool {
        true
    }

    open spec fn shl_spec(self, rhs: Size) -> Size {
        Size::with_count(self@ << shift_distance(rhs@))
    }
}

impl std::ops::Shr<usize> for Size {
    type Output = Size;

    /// The bits of a size moved right by a raw count; the distance wraps
    /// around at the width of a count, and bits moved past the bottom are
    /// dropped.
    fn shr(self, rhs: usize) -> (r: Size)
        ensures
            r@ == self@ >> shift_distance(rhs),
    {
        let lhs: usize = usize::from(self);
        proof {
            lemma_shift_distance(rhs);
        }
        Size::from(lhs.wrapping_shr(#[verifier::truncate] (rhs as u32)))
    }
}

impl vstd::std_specs::ops::ShrSpecImpl<usize> for Size {
    open spec fn obeys_shr_spec() -> bool {
        true
    }

    open spec fn shr_req(self, rhs: usize) -> bool {
        true
    }

    open spec fn shr_spec(self, rhs: usize) -> Size {
        Size::with_count(self@ >> shift_distance(rhs))
    }
}

impl std::ops::Shr<Size> for Size {
    type Output = Size;

    /// The bits of a size moved right by another size; the distance wraps
    /// around at the width of a count, and bits moved past the bottom are
    /// dropped.
    fn shr(self, rhs: Size) -> (r: Size)
        ensures
            r@ == self@ >> shift_distance(rhs@),
    {
        let lhs: usize = usize::from(self);
        let rhs: usize = usize::from(rhs);
        proof {
            lemma_shift_distance(rhs);
        }
        Size::from(lhs.wrapping_shr(#[verifier::truncate] (rhs as u32)))
    }
}

impl vstd::std_specs::ops::ShrSpecImpl<Size> for Size {
    open spec fn obeys_shr_spec() -> bool {
        true
    }

    open spec fn shr_req(self, rhs: Size) -> bool {
        true
    }

    open spec fn shr_spec(self, rhs: Size) -> Size {
        Size::with_count(self@ >> shift_distance(rhs@))
    }
}

impl std::ops::Not for Size {
    type Output = Size;

    /// The complement of a size: every bit of the count turned over, which is
    /// the distance from the count to the largest count.
    fn not(self) -> (r: Size)
        ensures
            r@ == usize::MAX - self@,
    {
        let n: usize = usize::from(self);
        proof {
            lemma_complement_bits(n);
            lemma_pointer_width();
        }
        Size::from(!n)
    }
}

impl vstd::std_specs::ops::NotSpecImpl for Size {
    open spec fn obeys_not_spec() -> bool {
        true
    }

    open spec fn not_req(self) -> bool {
        true
    }

    open spec fn not_spec(self) -> Size {
        Size::with_count(!self@)
    }
}

/// The sum of two sizes is the wrapping sum of their counts, taken as a size.
/// With a raw count on the right the result is the same as with the size of
/// that count.
pub proof fn lemma_add_by_counts(a: Size, b: Size, c: usize)
    ensures
        ({
            let x = usize::from_spec(a);
            let y = usize::from_spec(b);
            a.add_spec(b) == Size::from_spec(usize_specs::wrapping_add(x, y))
        }),
        a.add_spec(c) == a.add_spec(Size::from_spec(c)),
{
    lemma_wrapping_add(a@, b@);
    Size::lemma_count(c);
}

/// The difference of two sizes is the wrapping difference of their counts,
/// taken as a size. With a raw count on the right the result is the same as
/// with the size of that count.
pub proof fn lemma_sub_by_counts(a: Size, b: Size, c: usize)
    ensures
        ({
            let x = usize::from_spec(a);
            let y = usize::from_spec(b);
            a.sub_spec(b) == Size::from_spec(usize_specs::wrapping_sub(x, y))
        }),
        a.sub_spec(c) == a.sub_spec(Size::from_spec(c)),
{
    lemma_wrapping_sub(a@, b@);
    Size::lemma_count(c);
}

/// The product of two sizes is the wrapping product of their counts, taken as
/// a size. With a raw count on the right the result is the same as with the
/// size of that count.
pub proof fn lemma_mul_by_counts(a: Size, b: Size, c: usize)
    ensures
        ({
            let x = usize::from_spec(a);
            let y = usize::from_spec(b);
            a.mul_spec(b) == Size::from_spec(usize_specs::wrapping_mul(x, y))
        }),
        a.mul_spec(c) == a.mul_spec(Size::from_spec(c)),
{
    lemma_wrapping_mul(a@, b@);
    Size::lemma_count(c);
}

/// The quotient of two sizes is the quotient of their counts, taken as a
/// size. With a raw count on the right the result is the same as with the
/// size of that count.
pub proof fn lemma_div_by_counts(a: Size, b: Size, c: usize)
    ensures
        ({
            let x = usize::from_spec(a);
            let y = usize::from_spec(b);
            a.div_spec(b) == Size::from_spec(x / y)
        }),
        a.div_spec(c) == a.div_spec(Size::from_spec(c)),
{
    Size::lemma_count(c);
}

/// The bitwise and of two sizes is the bitwise and of their counts, taken as
/// a size. With a raw count on the right the result is the same as with the
/// size of that count.
pub proof fn lemma_bitand_by_counts(a: Size, b: Size, c: usize)
    ensures
        ({
            let x = usize::from_spec(a);
            let y = usize::from_spec(b);
            a.bitand_spec(b) == Size::from_spec(x & y)
        }),
        a.bitand_spec(c) == a.bitand_spec(Size::from_spec(c)),
{
    Size::lemma_count(c);
}

/// The bitwise or of two sizes is the bitwise or of their counts, taken as a
/// size. With a raw count on the right the result is the same as with the
/// size of that count.
pub proof fn lemma_bitor_by_counts(a: Size, b: Size, c: usize)
    ensures
        ({
            let x = usize::from_spec(a);
            let y = usize::from_spec(b);
            a.bitor_spec(b) == Size::from_spec(x | y)
        }),
        a.bitor_spec(c) == a.bitor_spec(Size::from_spec(c)),
{
    Size::lemma_count(c);
}

/// The bitwise exclusive or of two sizes is the bitwise exclusive or of their
/// counts, taken as a size. With a raw count on the right the result is the
/// same as with the size of that count.
pub proof fn lemma_bitxor_by_counts(a: Size, b: Size, c: usize)
    ensures
        ({
            let x = usize::from_spec(a);
            let y = usize::from_spec(b);
            a.bitxor_spec(b) == Size::from_spec(x ^ y)
        }),
        a.bitxor_spec(c) == a.bitxor_spec(Size::from_spec(c)),
{
    Size::lemma_count(c);
}

/// The remainder of two sizes is the remainder of their counts, taken as a
/// size. With a raw count on the right the result is the same as with the
/// size of that count.
pub proof fn lemma_rem_by_counts(a: Size, b: Size, c: usize)
    ensures
        ({
            let x = usize::from_spec(a);
            let y = usize::from_spec(b);
            a.rem_spec(b) == Size::from_spec(x % y)
        }),
        a.rem_spec(c) == a.rem_spec(Size::from_spec(c)),
{
    Size::lemma_count(c);
}

/// A size shifted left by a size is the count shifted left by the count with
/// the wrapping shift, taken as a size. With a raw count on the right the
/// result is the same as with the size of that count.
pub proof fn lemma_shl_by_counts(a: Size, b: Size, c: usize)
    ensures
        ({
            let x = usize::from_spec(a);
            let y = usize::from_spec(b);
            a.shl_spec(b) == Size::from_spec(usize_specs::wrapping_shl(x, y as u32))
        }),
        a.shl_spec(c) == a.shl_spec(Size::from_spec(c)),
{
    lemma_shift_distance(b@);
    Size::lemma_count(c);
}

/// A size shifted right by a size is the count shifted right by the count
/// with the wrapping shift, taken as a size. With a raw count on the right
/// the result is the same as with the size of that count.
pub proof fn lemma_shr_by_counts(a: Size, b: Size, c: usize)
    ensures
        ({
            let x = usize::from_spec(a);
            let y = usize::from_spec(b);
            a.shr_spec(b) == Size::from_spec(usize_specs::wrapping_shr(x, y as u32))
        }),
        a.shr_spec(c) == a.shr_spec(Size::from_spec(c)),
{
    lemma_shift_distance(b@);
    Size::lemma_count(c);
}

/// The complement of a size is the complement of its count, taken as a size.
pub proof fn lemma_not_by_count(a: Size)
    ensures
        a.not_spec() == Size::from_spec(!usize::from_spec(a)),
{
}

} // verus!
