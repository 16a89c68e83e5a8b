//! The operators on sizes that change the size on their left in place. Each
//! leaves what the operator of the same name returns.

use crate::size_ops::{shift_distance, wrap};
use crate::size_t::Size;
use vstd::prelude::*;
use vstd::std_specs::ops::{
    AddSpec, BitAndSpec, BitOrSpec, BitXorSpec, DivSpec, MulSpec, RemSpec, ShlSpec, ShrSpec,
    SubSpec,
};

verus! {

impl std::ops::AddAssign<usize> for Size {
    /// Adds a raw count to the size in place; the sum wraps around at the
    /// largest count.
    fn add_assign(&mut self, rhs: usize)
        ensures
            *final(self) == old(self).add_spec(rhs),
            final(self)@ == wrap(old(self)@ + rhs),
    {
        *self = *self + rhs;
    }
}

impl std::ops::AddAssign<Size> for Size {
    /// Adds another size to the size in place; the sum wraps around at the
    /// largest count.
    fn add_assign(&mut self, rhs: Size)
        ensures
            *final(self) == old(self).add_spec(rhs),
            final(self)@ == wrap(old(self)@ + rhs@),
    {
        self.add_assign(usize::from(rhs));
    }
}

impl std::ops::SubAssign<usize> for Size {
    /// Subtracts a raw count from the size in place; the difference wraps
    /// around below zero.
    fn sub_assign(&mut self, rhs: usize)
        ensures
            *final(self) == old(self).sub_spec(rhs),
            final(self)@ == wrap(old(self)@ - rhs),
    {
        *self = *self - rhs;
    }
}

impl std::ops::SubAssign<Size> for Size {
    /// Subtracts another size from the size in place; the difference wraps
    /// around below zero.
    fn sub_assign(&mut self, rhs: Size)
        ensures
            *final(self) == old(self).sub_spec(rhs),
            final(self)@ == wrap(old(self)@ - rhs@),
    {
        self.sub_assign(usize::from(rhs));
    }
}

impl std::ops::MulAssign<usize> for Size {
    /// Multiplies the size by a raw count in place; the product wraps around
    /// at the largest count.
    fn mul_assign(&mut self, rhs: usize)
        ensures
            *final(self) == old(self).mul_spec(rhs),
            final(self)@ == wrap(old(self)@ * rhs),
    {
        *self = *self * rhs;
    }
}

impl std::ops::MulAssign<Size> for Size {
    /// Multiplies the size by another size in place; the product wraps around
    /// at the largest count.
    fn mul_assign(&mut self, rhs: Size)
        ensures
            *final(self) == old(self).mul_spec(rhs),
            final(self)@ == wrap(old(self)@ * rhs@),
    {
        self.mul_assign(usize::from(rhs));
    }
}

impl std::ops::DivAssign<usize> for Size {
    /// Divides the size by a raw count in place, rounding down. The divisor
    /// is not zero.
    fn div_assign(&mut self, rhs: usize)
        requires
            rhs != 0,
        ensures
            *final(self) == old(self).div_spec(rhs),
            final(self)@ == old(self)@ / rhs,
    {
        *self = *self / rhs;
    }
}

impl std::ops::DivAssign<Size> for Size {
    /// Divides the size by another size in place, rounding down. The divisor
    /// is not zero.
    fn div_assign(&mut self, rhs: Size)
        requires
            rhs@ != 0,
        ensures
            *final(self) == old(self).div_spec(rhs),
            final(self)@ == old(self)@ / rhs@,
    {
        self.div_assign(usize::from(rhs));
    }
}

impl std::ops::BitAndAssign<usize> for Size {
    /// Keeps in place the bits of the size that are also set in a raw count.
    fn bitand_assign(&mut self, rhs: usize)
        ensures
            *final(self) == old(self).bitand_spec(rhs),
            final(self)@ == old(self)@ & rhs,
    {
        *self = *self & rhs;
    }
}

impl std::ops::BitAndAssign<Size> for Size {
    /// Keeps in place the bits of the size that are also set in another size.
    fn bitand_assign(&mut self, rhs: Size)
        ensures
            *final(self) == old(self).bitand_spec(rhs),
            final(self)@ == old(self)@ & rhs@,
    {
        self.bitand_assign(usize::from(rhs));
    }
}

impl std::ops::BitOrAssign<usize> for Size {
    /// Sets in place the bits of the size that are set in a raw count.
    fn bitor_assign(&mut self, rhs: usize)
        ensures
            *final(self) == old(self).bitor_spec(rhs),
            final(self)@ == old(self)@ | rhs,
    {
        *self = *self | rhs;
    }
}

impl std::ops::BitOrAssign<Size> for Size {
    /// Sets in place the bits of the size that are set in another size.
    fn bitor_assign(&mut self, rhs: Size)
        ensures
            *final(self) == old(self).bitor_spec(rhs),
            final(self)@ == old(self)@ | rhs@,
    {
        self.bitor_assign(usize::from(rhs));
    }
}

impl std::ops::BitXorAssign<usize> for Size {
    /// Turns over in place the bits of the size that are set in a raw count.
    fn bitxor_assign(&mut self, rhs: usize)
        ensures
            *final(self) == old(self).bitxor_spec(rhs),
            final(self)@ == old(self)@ ^ rhs,
    {
        *self = *self ^ rhs;
    }
}

impl std::ops::BitXorAssign<Size> for Size {
    /// Turns over in place the bits of the size that are set in another size.
    fn bitxor_assign(&mut self, rhs: Size)
        ensures
            *final(self) == old(self).bitxor_spec(rhs),
            final(self)@ == old(self)@ ^ rhs@,
    {
        self.bitxor_assign(usize::from(rhs));
    }
}

impl std::ops::RemAssign<usize> for Size {
    /// Leaves in place the remainder of the size divided by a raw count. The
    /// divisor is not zero.
    fn rem_assign(&mut self, rhs: usize)
        requires
            rhs != 0,
        ensures
            *final(self) == old(self).rem_spec(rhs),
            final(self)@ == old(self)@ % rhs,
    {
        *self = *self % rhs;
    }
}

impl std::ops::RemAssign<Size> for Size {
    /// Leaves in place the remainder of the size divided by another size. The
    /// divisor is not zero.
    fn rem_assign(&mut self, rhs: Size)
        requires
            rhs@ != 0,
        ensures
            *final(self) == old(self).rem_spec(rhs),
            final(self)@ == old(self)@ % rhs@,
    {
        self.rem_assign(usize::from(rhs));
    }
}

impl std::ops::ShlAssign<usize> for Size {
    /// Moves the bits of the size left in place by a raw count; the distance
    /// wraps around at the width of a count.
    fn shl_assign(&mut self, rhs: usize)
        ensures
            *final(self) == old(self).shl_spec(rhs),
            final(self)@ == old(self)@ << shift_distance(rhs),
    {
        *self = *self << rhs;
    }
}

impl std::ops::ShlAssign<Size> for Size {
    /// Moves the bits of the size left in place by another size; the distance
    /// wraps around at the width of a count.
    fn shl_assign(&mut self, rhs: Size)
        ensures
            *final(self) == old(self).shl_spec(rhs),
            final(self)@ == old(self)@ << shift_distance(rhs@),
    {
        self.shl_assign(usize::from(rhs));
    }
}

impl std::ops::ShrAssign<usize> for Size {
    /// Moves the bits of the size right in place by a raw count; the distance
    /// wraps around at the width of a count.
    fn shr_assign(&mut self, rhs: usize)
        ensures
            *final(self) == old(self).shr_spec(rhs),
            final(self)@ == old(self)@ >> shift_distance(rhs),
    {
        *self = *self >> rhs;
    }
}

impl std::ops::ShrAssign<Size> for Size {
    /// Moves the bits of the size right in place by another size; the
    /// distance wraps around at the width of a count.
    fn shr_assign(&mut self, rhs: Size)
        ensures
            *final(self) == old(self).shr_spec(rhs),
            final(self)@ == old(self)@ >> shift_distance(rhs@),
    {
        self.shr_assign(usize::from(rhs));
    }
}

} // verus!
