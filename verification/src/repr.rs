//! Values seen as words: how many words a value takes up, which cells those
//! are, and the identifier of its type in wide and in narrow form.

use crate::size_t::Size;
use crate::word::Word;
use vstd::layout::size_of;
use vstd::prelude::*;
use vstd::std_specs::convert::{FromSpec, TryIntoSpec};

verus! {

/// The number of words that it takes to hold `bytes` bytes: a word holds
/// eight bytes, and a word that is begun counts as a whole one.
pub open spec fn words_in(bytes: nat) -> nat {
    (bytes + 7) / 8
}

/// The size of a run of `bytes` bytes, in words, rounded up.
pub fn words_for(bytes: usize) -> (size: Size)
    ensures
        size@ == words_in(bytes as nat),
        size == Size::from_spec(words_in(bytes as nat) as usize),
{
    let whole: usize = bytes / 8;
    if bytes % 8 == 0 {
        Size::from(whole)
    } else {
        Size::from(whole + 1)
    }
}

/// The size of a value of the fixed-layout type `T`: the bytes of its layout,
/// in words, rounded up.
///
/// This is the size of every value whose storage ends where its layout ends.
/// A type that keeps data past the end of its layout has to count its words
/// itself, from the value at hand.
pub fn fixed_size<T>() -> (size: Size)
    ensures
        size@ == words_in(size_of::<T>()),
        size == Size::from_spec(words_in(size_of::<T>()) as usize),
{
    words_for(core::mem::size_of::<T>())
}

/// What is left of the outcome of narrowing a full identifier: the thin
/// identifier where it fitted, nothing where it did not.
pub open spec fn fitted<Thin, E>(outcome: Result<Thin, E>) -> Option<Thin> {
    match outcome {
        Ok(thin) => Some(thin),
        Err(_) => None,
    }
}

/// The thin identifier that stands for the full identifier `id`, if there is
/// one: what the conversion from full to thin identifiers gives for `id`.
pub open spec fn thin_of<Id: TryInto<Thin>, Thin>(id: Id) -> Option<Thin> {
    fitted(id.try_into_spec())
}

/// Narrows a full identifier to a thin one, where it fits.
///
/// The conversion itself belongs to the identifier types. Where it is
/// specified, the result is the thin identifier that it gives, and nothing
/// where it reports that the full identifier does not fit.
pub fn try_narrow<Id: TryInto<Thin>, Thin>(id: Id) -> (thin: Option<Thin>)
    ensures
        Id::obeys_try_into_spec() ==> thin == thin_of::<Id, Thin>(id),
{
    keep_fitted(id.try_into())
}

/// Turns the outcome of narrowing into the thin identifier, or into nothing
/// where the full identifier did not fit. The reason for which it did not
/// fit is dropped.
pub fn keep_fitted<Thin, E>(outcome: Result<Thin, E>) -> (thin: Option<Thin>)
    ensures
        thin == fitted(outcome),
{
    match outcome {
        Ok(thin) => Some(thin),
        Err(_) => None,
    }
}

/// A value that lives in words: it can say how many words it takes up, and
/// hand out the cells that hold it.
///
/// This is what the author of a type supplies. What the author owes is
/// written on `size`: a value never claims more words than its storage
/// holds. The views of a value as words, in `SaturnTypeExt`, rest on that.
pub trait SaturnType {
    /// The full identifier of a type, as the service that names types hands
    /// it out.
    type Id;

    /// The narrow form of an identifier, for places with few bits to spare.
    type ThinId;

    /// The full identifier of this type.
    spec fn spec_type_id() -> Self::Id;

    /// The cells that hold the value, from its first cell on.
    spec fn storage(&self) -> Seq<Word>;

    /// The number of words that the value takes up.
    spec fn spec_size(&self) -> nat;

    /// The full identifier of this type.
    fn type_id() -> (id: Self::Id)
        ensures
            id == Self::spec_type_id(),
    ;

    /// The size of this value in words.
    ///
    /// A value of a fixed-layout type has the size that `fixed_size` gives.
    /// A value that keeps data past the end of its layout counts what it
    /// holds at the moment. Either way the storage holds at least that many
    /// cells: this is what the author of the type has to show.
    fn size(&self) -> (size: Size)
        ensures
            size@ == self.spec_size(),
            self.spec_size() <= self.storage().len(),
    ;

    /// The cells that hold the value, as they are.
    fn cells(&self) -> (cells: &[Word])
        ensures
            cells@ == self.storage(),
    ;

    /// The cells that hold the value, open to change. What is written into
    /// them is what the value holds afterwards.
    fn cells_mut(&mut self) -> (cells: &mut [Word])
        ensures
            cells@ == old(self).storage(),
            final(self).storage() == final(cells)@,
    ;
}

/// What every value that lives in words can do: show its words, and name its
/// type by a thin identifier where there is one.
pub trait SaturnTypeExt: SaturnType {
    /// The thin identifier of this type, or nothing where the full identifier
    /// does not fit into a thin one.
    fn try_thin_type_id() -> (thin: Option<Self::ThinId>) where Self::Id: TryInto<Self::ThinId>
        ensures
            Self::Id::obeys_try_into_spec() ==> thin == thin_of::<Self::Id, Self::ThinId>(
                Self::spec_type_id(),
            ),
    ;

    /// The thin identifier of this type, for a type that is known to have
    /// one.
    fn thin_type_id() -> (thin: Self::ThinId) where Self::Id: TryInto<Self::ThinId>
        requires
            Self::Id::obeys_try_into_spec(),
            thin_of::<Self::Id, Self::ThinId>(Self::spec_type_id()) is Some,
        ensures
            thin_of::<Self::Id, Self::ThinId>(Self::spec_type_id()) == Some(thin),
    ;

    /// The words of the value: the first `size` cells of its storage, as they
    /// are.
    fn words(&self) -> (words: &[Word])
        ensures
            words@.len() == self.spec_size(),
            words@ == self.storage().take(self.spec_size() as int),
    ;

    /// The words of the value, open to change: the first `size` cells of its
    /// storage. What is written into them is what those cells hold
    /// afterwards, and the cells behind them stay as they were. Whether the
    /// value still makes sense after the change is for the caller to see to.
    fn words_mut(&mut self) -> (words: &mut [Word])
        ensures
            words@.len() == old(self).spec_size(),
            words@ == old(self).storage().take(old(self).spec_size() as int),
            final(self).storage() == final(words)@ + old(self).storage().skip(
                old(self).spec_size() as int,
            ),
    ;
}

impl<T: SaturnType> SaturnTypeExt for T {
    fn try_thin_type_id() -> (thin: Option<Self::ThinId>) where Self::Id: TryInto<Self::ThinId> {
        try_narrow(Self::type_id())
    }

    fn thin_type_id() -> (thin: Self::ThinId) where Self::Id: TryInto<Self::ThinId> {
        Self::try_thin_type_id().unwrap()
    }

    fn words(&self) -> (words: &[Word]) {
        let len: Size = self.size();
        let (words, _) = self.cells().split_at(usize::from(len));
        words
    }

    fn words_mut(&mut self) -> (words: &mut [Word]) {
        let len: Size = self.size();
        let (words, _) = self.cells_mut().split_at_mut(usize::from(len));
        words
    }
}

} // verus!
