use vstd::prelude::*;

use core::marker::PhantomData;

use crate::lens::LensError;
use crate::path::LensPath;

verus! {

/// Returns a lens over the single element at the given `index` of a
/// `Vec<T>`.
pub fn vec_lens<T>(index: usize) -> (lens: VecLens<T>)
    ensures
        lens == (VecLens { index, marker: PhantomData::<T> }),
{
    VecLens { index, marker: PhantomData }
}

/// A collection-element accessor: reads and writes the element at a fixed
/// `index` of a `Vec<T>`.
///
/// A `Vec` is opaque to the specification language except through its view,
/// so this accessor's contracts speak of the element sequence `source@`
/// rather than of `Vec` values, and it stands beside the [`crate::Lens`]
/// trait instead of implementing it.  Its operations mirror the trait's
/// capability set: `path`, `mutate` and `set` (identify), `get_ref` and
/// `get_mut_ref` (read by reference).  The index is encoded as the path
/// element, and the checked operations surface
/// [`LensError::IndexOutOfRange`] when the index exceeds the collection's
/// bounds, rather than panicking.
pub struct VecLens<T> {
    /// The index of the element this lens accesses.
    pub index: usize,

    /// Records the element type.
    pub marker: PhantomData<T>,
}

impl<T> VecLens<T> {
    /// Whether the element this lens accesses exists in a collection
    /// holding the sequence `source`.
    pub open spec fn valid(&self, source: Seq<T>) -> bool {
        self.index < source.len()
    }

    /// Returns a [`LensPath`] holding the index as its only element.
    pub fn path(&self) -> (p: LensPath)
        ensures
            p@ == seq![self.index as u64],
    {
        LensPath::from_index(self.index)
    }

    /// Reports whether the element this lens accesses exists in `source`.
    pub fn check_valid(&self, source: &Vec<T>) -> (ok: bool)
        ensures
            ok == self.valid(source@),
    {
        self.index < source.len()
    }

    /// Gets a reference to the element.  (This does not consume the
    /// source.)
    pub fn get_ref<'a>(&self, source: &'a Vec<T>) -> (target: &'a T)
        requires
            self.valid(source@),
        ensures
            *target == source@[self.index as int],
    {
        &source[self.index]
    }

    /// Gets a mutable reference to the element.  Whatever the caller
    /// finally stores through the returned reference becomes the element's
    /// new value in the source.
    pub fn get_mut_ref<'a>(&self, source: &'a mut Vec<T>) -> (target: &'a mut T)
        requires
            self.valid(old(source)@),
        ensures
            *target == old(source)@[self.index as int],
            final(source)@ == old(source)@.update(self.index as int, *final(target)),
    {
        &mut source[self.index]
    }

    /// Writes a new element value into the source passed by exclusive
    /// reference.
    pub fn mutate(&self, source: &mut Vec<T>, target: T)
        requires
            self.valid(old(source)@),
        ensures
            final(source)@ == old(source)@.update(self.index as int, target),
    {
        let element = &mut source[self.index];
        *element = target;
    }

    /// Writes a new element value and returns the new state of the source.
    /// (This consumes the source.)
    pub fn set(&self, source: Vec<T>, target: T) -> (result: Vec<T>)
        requires
            self.valid(source@),
        ensures
            result@ == source@.update(self.index as int, target),
    {
        let mut mutable_source = source;
        self.mutate(&mut mutable_source, target);
        mutable_source
    }

    /// Gets a reference to the element if the index is within bounds, and
    /// reports [`LensError::IndexOutOfRange`] otherwise.
    pub fn try_get_ref<'a>(&self, source: &'a Vec<T>) -> (result: Result<&'a T, LensError>)
        ensures
            match result {
                Ok(target) => self.valid(source@) && *target == source@[self.index as int],
                Err(error) => !self.valid(source@) && error == LensError::IndexOutOfRange,
            },
    {
        if self.check_valid(source) {
            Ok(self.get_ref(source))
        } else {
            Err(LensError::IndexOutOfRange)
        }
    }

    /// Writes a new element value if the index is within bounds, and
    /// reports [`LensError::IndexOutOfRange`] otherwise; no partial
    /// mutation is ever observable.
    pub fn try_set(&self, source: Vec<T>, target: T) -> (result: Result<Vec<T>, LensError>)
        ensures
            match result {
                Ok(new_source) => self.valid(source@) && new_source@ == source@.update(
                    self.index as int,
                    target,
                ),
                Err(error) => !self.valid(source@) && error == LensError::IndexOutOfRange,
            },
    {
        if self.check_valid(&source) {
            Ok(self.set(source, target))
        } else {
            Err(LensError::IndexOutOfRange)
        }
    }
}

/// Get/set round-trip for the collection-element accessor: reading the
/// element just written yields exactly the written value, and no other
/// element changes.
pub proof fn lemma_vec_lens_round_trip<T>(lens: VecLens<T>, source: Seq<T>, target: T)
    requires
        lens.valid(source),
    ensures
        source.update(lens.index as int, target)[lens.index as int] == target,
        forall|i: int|
            0 <= i < source.len() && i != lens.index ==> source.update(
                lens.index as int,
                target,
            )[i] == source[i],
{
}

/// Set idempotence for the collection-element accessor: writing the same
/// element value twice yields the same sequence as writing it once.
pub proof fn lemma_vec_lens_set_idempotent<T>(lens: VecLens<T>, source: Seq<T>, target: T)
    requires
        lens.valid(source),
    ensures
        source.update(lens.index as int, target).update(lens.index as int, target)
            == source.update(lens.index as int, target),
{
    assert(source.update(lens.index as int, target).update(lens.index as int, target)
        =~= source.update(lens.index as int, target));
}

} // verus!
