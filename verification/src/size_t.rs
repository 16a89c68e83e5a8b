//! The size: a count of words, with its conversions to and from a raw count
//! and its comparisons.

use core::cmp::Ordering;
use vstd::prelude::*;
use vstd::std_specs::convert::FromSpec;

verus! {

/// A count of words.
///
/// A size is a count and nothing else: it is made from a raw count and gives
/// the same count back. It is a type of its own so that a count of words is
/// not taken for a count of bytes or a plain number by mistake.
#[derive(Copy, Clone, Debug, PartialEq, Eq, Structural, Hash, Ord)]
pub struct Size(usize);

impl View for Size {
    type V = usize;

    /// The count that the size stands for.
    closed spec fn view(&self) -> usize {
        self.0
    }
}

impl Size {
    /// The size that stands for `count` words.
    pub closed spec fn with_count(count: usize) -> Size {
        Size(count)
    }

    /// The size made of a count stands for that count.
    pub proof fn lemma_count(count: usize)
        ensures
            Size::with_count(count)@ == count,
    {
    }

    /// Two sizes are equal exactly when their counts are equal.
    pub proof fn lemma_equal_by_count(a: Size, b: Size)
        ensures
            (a == b) <==> (a@ == b@),
            Size::with_count(a@) == a,
    {
    }
}

impl From<usize> for Size {
    /// The size that stands for `size` words.
    fn from(size: usize) -> (s: Size)
        ensures
            s@ == size,
    {
        Size(size)
    }
}

impl vstd::std_specs::convert::FromSpecImpl<usize> for Size {
    open spec fn obeys_from_spec() -> bool {
        true
    }

    open spec fn from_spec(size: usize) -> Size {
        Size::with_count(size)
    }
}

impl From<Size> for usize {
    /// The count that the size stands for.
    fn from(size: Size) -> (n: usize)
        ensures
            n == size@,
    {
        size.0
    }
}

impl vstd::std_specs::convert::FromSpecImpl<Size> for usize {
    open spec fn obeys_from_spec() -> bool {
        true
    }

    open spec fn from_spec(size: Size) -> usize {
        size@
    }
}

/// A count that is turned into a size and back is unchanged.
pub proof fn lemma_count_round_trip(count: usize)
    ensures
        usize::from_spec(Size::from_spec(count)) == count,
{
}

/// A size that is turned into a count and back is unchanged.
pub proof fn lemma_size_round_trip(size: Size)
    ensures
        Size::from_spec(usize::from_spec(size)) == size,
{
}

impl PartialEq<usize> for Size {
    /// A size equals a raw count when it stands for that count.
    fn eq(&self, rhs: &usize) -> (r: bool) {
        let lhs: usize = usize::from(*self);
        lhs == *rhs
    }
}

impl vstd::std_specs::cmp::PartialEqSpecImpl<usize> for Size {
    open spec fn obeys_eq_spec() -> bool {
        true
    }

    open spec fn eq_spec(&self, rhs: &usize) -> bool {
        self@ == *rhs
    }
}

impl PartialOrd<usize> for Size {
    /// A size and a raw count are ordered as the two counts are.
    fn partial_cmp(&self, rhs: &usize) -> (o: Option<Ordering>) {
        let lhs: usize = usize::from(*self);
        if lhs < *rhs {
            Some(Ordering::Less)
        } else if lhs > *rhs {
            Some(Ordering::Greater)
        } else {
            Some(Ordering::Equal)
        }
    }
}

impl vstd::std_specs::cmp::PartialOrdSpecImpl<usize> for Size {
    open spec fn obeys_partial_cmp_spec() -> bool {
        true
    }

    open spec fn partial_cmp_spec(&self, rhs: &usize) -> Option<Ordering> {
        if self@ < *rhs {
            Some(Ordering::Less)
        } else if self@ > *rhs {
            Some(Ordering::Greater)
        } else {
            Some(Ordering::Equal)
        }
    }
}

impl PartialOrd for Size {
    /// Sizes are ordered as their counts are.
    fn partial_cmp(&self, rhs: &Size) -> (o: Option<Ordering>) {
        if self.0 < rhs.0 {
            Some(Ordering::Less)
        } else if self.0 > rhs.0 {
            Some(Ordering::Greater)
        } else {
            Some(Ordering::Equal)
        }
    }
}

impl vstd::std_specs::cmp::PartialOrdSpecImpl for Size {
    open spec fn obeys_partial_cmp_spec() -> bool {
        true
    }

    open spec fn partial_cmp_spec(&self, rhs: &Size) -> Option<Ordering> {
        if self@ < rhs@ {
            Some(Ordering::Less)
        } else if self@ > rhs@ {
            Some(Ordering::Greater)
        } else {
            Some(Ordering::Equal)
        }
    }
}

} // verus!
