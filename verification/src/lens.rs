use vstd::prelude::*;

use crate::path::LensPath;

verus! {

/// The error taxonomy of the accessor algebra.
///
/// The only runtime failure a lens operation can produce: every other
/// misuse (such as composing accessors whose intermediate types disagree)
/// is caught by the type system when the accessor is assembled.
#[derive(Clone, Copy, Debug, PartialEq, Eq, Structural)]
pub enum LensError {
    /// A collection-element accessor's index exceeded the collection's
    /// bounds at the moment of a reference read or mutation.
    IndexOutOfRange,
}

/// A lens offers a purely functional means to access and/or modify a field
/// that is nested in an immutable data structure.
///
/// This is the base capability tier: a lens that can identify its target
/// (via [`Lens::path`]) and write a new target value into a source passed by
/// exclusive reference (via [`Lens::mutate`]).
///
/// The ghost functions describe the lens mathematically: `valid` says when
/// the target field exists in a given source, `spec_get` observes the
/// target, and `spec_set` is the functional update.  Every implementation
/// must prove the algebraic laws relating them, so that every lens — however
/// it was produced — behaves like a field accessor.
pub trait Lens {
    /// The lens source type, i.e., the object containing the field.
    type Source;

    /// The lens target type, i.e., the field to be accessed or modified.
    type Target;

    /// The location of the target relative to the source, as a sequence of
    /// hop identifiers.  It is a property of the lens alone, independent of
    /// any particular source value.
    spec fn spec_path(&self) -> Seq<u64>;

    /// Whether the target field exists in `source`.  For a plain field lens
    /// this is always true; for an indexed lens into a collection it says
    /// that the index is within bounds.
    spec fn valid(&self, source: Self::Source) -> bool;

    /// The value of the target field in `source`.
    spec fn spec_get(&self, source: Self::Source) -> Self::Target;

    /// The source with the target field replaced by `target`, all other
    /// parts unchanged.
    spec fn spec_set(&self, source: Self::Source, target: Self::Target) -> Self::Source;

    /// Law: reading after writing observes the written value.
    proof fn law_get_set(&self, source: Self::Source, target: Self::Target)
        requires
            self.valid(source),
        ensures
            self.spec_get(self.spec_set(source, target)) == target,
    ;

    /// Law: writing back the value just read leaves the source unchanged.
    proof fn law_set_get(&self, source: Self::Source)
        requires
            self.valid(source),
        ensures
            self.spec_set(source, self.spec_get(source)) == source,
    ;

    /// Law: a second write overwrites the first completely.
    proof fn law_set_set(&self, source: Self::Source, t1: Self::Target, t2: Self::Target)
        requires
            self.valid(source),
        ensures
            self.spec_set(self.spec_set(source, t1), t2) == self.spec_set(source, t2),
    ;

    /// Law: writing the target never makes the target disappear.
    proof fn law_set_preserves_valid(&self, source: Self::Source, target: Self::Target)
        requires
            self.valid(source),
        ensures
            self.valid(self.spec_set(source, target)),
    ;

    /// Returns a [`LensPath`] that describes the target of this lens
    /// relative to its source.
    fn path(&self) -> (p: LensPath)
        ensures
            p@ == self.spec_path(),
    ;

    /// Reports whether the target of this lens exists in `source`, so that
    /// a caller can surface [`LensError::IndexOutOfRange`] instead of
    /// reading a field that is not there.
    fn check_valid(&self, source: &Self::Source) -> (ok: bool)
        ensures
            ok == self.valid(*source),
    ;

    /// Sets the target of the lens.  (This requires a mutable source
    /// reference, and as such is typically only used internally.)
    fn mutate(&self, source: &mut Self::Source, target: Self::Target)
        requires
            self.valid(*old(source)),
        ensures
            *final(source) == self.spec_set(*old(source), target),
    ;

    /// Sets the target of the lens and returns the new state of the source.
    /// (This consumes the source.)
    fn set(&self, source: Self::Source, target: Self::Target) -> (result: Self::Source)
        requires
            self.valid(source),
        ensures
            result == self.spec_set(source, target),
    {
        let mut mutable_source = source;
        self.mutate(&mut mutable_source, target);
        mutable_source
    }
}

/// A lens that additionally allows the target to be accessed and mutated by
/// reference, without copying it.
pub trait RefLens: Lens {
    /// Gets a reference to the target of the lens.  (This does not consume
    /// the source.)
    fn get_ref<'a>(&self, source: &'a Self::Source) -> (target: &'a Self::Target)
        requires
            self.valid(*source),
        ensures
            *target == self.spec_get(*source),
    ;

    /// Gets a mutable reference to the target of the lens.  (This requires a
    /// mutable source reference, and as such is typically only used
    /// internally.)  Whatever the caller finally stores through the returned
    /// reference becomes the target's new value in the source.
    fn get_mut_ref<'a>(&self, source: &'a mut Self::Source) -> (target: &'a mut Self::Target)
        requires
            self.valid(*old(source)),
        ensures
            *target == self.spec_get(*old(source)),
            *final(source) == self.spec_set(*old(source), *final(target)),
    ;

    /// Modifies the target of the lens by applying a function to the
    /// current value.
    fn mutate_with_fn<F: Fn(&Self::Target) -> Self::Target>(&self, source: &mut Self::Source, f: F) where
        Self: Sized,

        requires
            self.valid(*old(source)),
            call_requires(f, (&self.spec_get(*old(source)),)),
        ensures
            exists|t: Self::Target|
                call_ensures(f, (&self.spec_get(*old(source)),), t) && *final(source)
                    == self.spec_set(*old(source), t),
    {
        let target = f(self.get_ref(source));
        self.mutate(source, target);
    }

    /// Modifies the target of the lens by applying a function to the
    /// current value.  This consumes the source.
    fn modify<F: Fn(&Self::Target) -> Self::Target>(&self, source: Self::Source, f: F) -> (result:
        Self::Source) where
        Self: Sized,

        requires
            self.valid(source),
            call_requires(f, (&self.spec_get(source),)),
        ensures
            exists|t: Self::Target|
                call_ensures(f, (&self.spec_get(source),), t) && result == self.spec_set(source, t),
    {
        let mut mutable_source = source;
        self.mutate_with_fn(&mut mutable_source, f);
        mutable_source
    }
}

/// A lens that allows the target to be accessed by duplicating the target
/// value.  Only targets whose values are cheap to duplicate implement this
/// tier.
pub trait ValueLens: Lens {
    /// Gets a copy of the lens target.  (This does not consume the source.)
    fn get(&self, source: &Self::Source) -> (target: Self::Target)
        requires
            self.valid(*source),
        ensures
            target == self.spec_get(*source),
    ;
}

/// Modifies the target of the lens by applying a function to the current
/// value.  (This lives outside the `Lens` trait to allow for static dispatch
/// on the given closure.)
pub fn mutate_with_fn<L: RefLens, F>(lens: &L, source: &mut L::Source, f: F) where
    F: Fn(&L::Target) -> L::Target,

    requires
        lens.valid(*old(source)),
        call_requires(f, (&lens.spec_get(*old(source)),)),
    ensures
        exists|t: L::Target|
            call_ensures(f, (&lens.spec_get(*old(source)),), t) && *final(source)
                == lens.spec_set(*old(source), t),
{
    let target = f(lens.get_ref(source));
    lens.mutate(source, target);
}

/// Modifies the target of the lens by applying a function to the current
/// value.  This consumes the source.
pub fn modify<L: RefLens, F>(lens: &L, source: L::Source, f: F) -> (result: L::Source) where
    F: Fn(&L::Target) -> L::Target,

    requires
        lens.valid(source),
        call_requires(f, (&lens.spec_get(source),)),
    ensures
        exists|t: L::Target|
            call_ensures(f, (&lens.spec_get(source),), t) && result == lens.spec_set(source, t),
{
    let mut mutable_source = source;
    mutate_with_fn(lens, &mut mutable_source, f);
    mutable_source
}

/// Sets the target of the lens if it exists, and reports
/// [`LensError::IndexOutOfRange`] otherwise, leaving no partial mutation
/// behind.  This is the checked counterpart of [`Lens::set`].
pub fn try_set<L: Lens>(lens: &L, source: L::Source, target: L::Target) -> (result: Result<
    L::Source,
    LensError,
>)
    ensures
        match result {
            Ok(new_source) => lens.valid(source) && new_source == lens.spec_set(source, target),
            Err(error) => !lens.valid(source) && error == LensError::IndexOutOfRange,
        },
{
    if lens.check_valid(&source) {
        Ok(lens.set(source, target))
    } else {
        Err(LensError::IndexOutOfRange)
    }
}

/// Gets a reference to the target of the lens if it exists, and reports
/// [`LensError::IndexOutOfRange`] otherwise.  This is the checked
/// counterpart of [`RefLens::get_ref`].
pub fn try_get_ref<'a, L: RefLens>(lens: &L, source: &'a L::Source) -> (result: Result<
    &'a L::Target,
    LensError,
>)
    ensures
        match result {
            Ok(target) => lens.valid(*source) && *target == lens.spec_get(*source),
            Err(error) => !lens.valid(*source) && error == LensError::IndexOutOfRange,
        },
{
    if lens.check_valid(source) {
        Ok(lens.get_ref(source))
    } else {
        Err(LensError::IndexOutOfRange)
    }
}

impl<L: Lens + ?Sized> Lens for Box<L> {
    type Source = L::Source;

    type Target = L::Target;

    open spec fn spec_path(&self) -> Seq<u64> {
        (**self).spec_path()
    }

    open spec fn valid(&self, source: L::Source) -> bool {
        (**self).valid(source)
    }

    open spec fn spec_get(&self, source: L::Source) -> L::Target {
        (**self).spec_get(source)
    }

    open spec fn spec_set(&self, source: L::Source, target: L::Target) -> L::Source {
        (**self).spec_set(source, target)
    }

    proof fn law_get_set(&self, source: L::Source, target: L::Target) {
        (**self).law_get_set(source, target);
    }

    proof fn law_set_get(&self, source: L::Source) {
        (**self).law_set_get(source);
    }

    proof fn law_set_set(&self, source: L::Source, t1: L::Target, t2: L::Target) {
        (**self).law_set_set(source, t1, t2);
    }

    proof fn law_set_preserves_valid(&self, source: L::Source, target: L::Target) {
        (**self).law_set_preserves_valid(source, target);
    }

    fn path(&self) -> (p: LensPath) {
        (**self).path()
    }

    fn check_valid(&self, source: &L::Source) -> (ok: bool) {
        (**self).check_valid(source)
    }

    fn mutate(&self, source: &mut L::Source, target: L::Target) {
        (**self).mutate(source, target)
    }
}

impl<L: RefLens + ?Sized> RefLens for Box<L> {
    fn get_ref<'a>(&self, source: &'a L::Source) -> (target: &'a L::Target) {
        (**self).get_ref(source)
    }

    fn get_mut_ref<'a>(&self, source: &'a mut L::Source) -> (target: &'a mut L::Target) {
        (**self).get_mut_ref(source)
    }
}

impl<L: ValueLens + ?Sized> ValueLens for Box<L> {
    fn get(&self, source: &L::Source) -> (target: L::Target) {
        (**self).get(source)
    }
}

/// Composes a `Lens<A, B>` with another `Lens<B, C>` to produce a new
/// `Lens<A, C>`.  The outer lens must be a [`RefLens`], so that the composed
/// lens can reach the intermediate value by reference; only the deepest lens
/// in a chain may be identify-only.
pub fn compose<LHS, RHS>(lhs: LHS, rhs: RHS) -> (composed: ComposedLens<LHS, RHS>) where
    LHS: RefLens,
    LHS::Target: 'static,
    RHS: Lens<Source = LHS::Target>,

    ensures
        composed == (ComposedLens { lhs, rhs }),
{
    ComposedLens { lhs, rhs }
}

/// Composes two lenses: the outer (left-hand) lens reaches an intermediate
/// value inside the source, and the inner (right-hand) lens reaches the
/// final target inside that intermediate value.
///
/// Its path is the concatenation of the two paths, and its capability tier
/// mirrors whatever the inner lens supports.
pub struct ComposedLens<LHS, RHS> {
    /// The left-hand (outer) side of the composition.
    pub lhs: LHS,

    /// The right-hand (inner) side of the composition.
    pub rhs: RHS,
}

impl<LHS, RHS> Lens for ComposedLens<LHS, RHS> where
    LHS: RefLens,
    LHS::Target: 'static,
    RHS: Lens<Source = LHS::Target>,
 {
    type Source = LHS::Source;

    type Target = RHS::Target;

    open spec fn spec_path(&self) -> Seq<u64> {
        self.lhs.spec_path() + self.rhs.spec_path()
    }

    open spec fn valid(&self, source: LHS::Source) -> bool {
        self.lhs.valid(source) && self.rhs.valid(self.lhs.spec_get(source))
    }

    open spec fn spec_get(&self, source: LHS::Source) -> RHS::Target {
        self.rhs.spec_get(self.lhs.spec_get(source))
    }

    open spec fn spec_set(&self, source: LHS::Source, target: RHS::Target) -> LHS::Source {
        self.lhs.spec_set(source, self.rhs.spec_set(self.lhs.spec_get(source), target))
    }

    proof fn law_get_set(&self, source: LHS::Source, target: RHS::Target) {
        let mid = self.lhs.spec_get(source);
        self.lhs.law_get_set(source, self.rhs.spec_set(mid, target));
        self.rhs.law_get_set(mid, target);
    }

    proof fn law_set_get(&self, source: LHS::Source) {
        let mid = self.lhs.spec_get(source);
        self.rhs.law_set_get(mid);
        self.lhs.law_set_get(source);
    }

    proof fn law_set_set(&self, source: LHS::Source, t1: RHS::Target, t2: RHS::Target) {
        let mid = self.lhs.spec_get(source);
        let m1 = self.rhs.spec_set(mid, t1);
        self.lhs.law_get_set(source, m1);
        self.lhs.law_set_preserves_valid(source, m1);
        self.rhs.law_set_set(mid, t1, t2);
        self.lhs.law_set_set(source, m1, self.rhs.spec_set(mid, t2));
    }

    proof fn law_set_preserves_valid(&self, source: LHS::Source, target: RHS::Target) {
        let mid = self.lhs.spec_get(source);
        let m1 = self.rhs.spec_set(mid, target);
        self.lhs.law_set_preserves_valid(source, m1);
        self.lhs.law_get_set(source, m1);
        self.rhs.law_set_preserves_valid(mid, target);
    }

    fn path(&self) -> (p: LensPath) {
        LensPath::concat(self.lhs.path(), self.rhs.path())
    }

    fn check_valid(&self, source: &LHS::Source) -> (ok: bool) {
        if self.lhs.check_valid(source) {
            self.rhs.check_valid(self.lhs.get_ref(source))
        } else {
            false
        }
    }

    fn mutate(&self, source: &mut LHS::Source, target: RHS::Target) {
        let rhs_source = self.lhs.get_mut_ref(source);
        self.rhs.mutate(rhs_source, target);
    }
}

impl<LHS, RHS> RefLens for ComposedLens<LHS, RHS> where
    LHS: RefLens,
    LHS::Target: 'static,
    RHS: RefLens<Source = LHS::Target>,
 {
    fn get_ref<'a>(&self, source: &'a LHS::Source) -> (target: &'a RHS::Target) {
        self.rhs.get_ref(self.lhs.get_ref(source))
    }

    fn get_mut_ref<'a>(&self, source: &'a mut LHS::Source) -> (target: &'a mut RHS::Target) {
        self.rhs.get_mut_ref(self.lhs.get_mut_ref(source))
    }
}

impl<LHS, RHS> ValueLens for ComposedLens<LHS, RHS> where
    LHS: RefLens,
    LHS::Target: 'static,
    RHS: ValueLens<Source = LHS::Target>,
 {
    fn get(&self, source: &LHS::Source) -> (target: RHS::Target) {
        self.rhs.get(self.lhs.get_ref(source))
    }
}

/// Get/set round-trip law, for every lens: reading a field immediately
/// after setting it yields exactly the value that was written.
pub proof fn lemma_get_set_round_trip<L: Lens>(lens: &L, source: L::Source, target: L::Target)
    requires
        lens.valid(source),
    ensures
        lens.spec_get(lens.spec_set(source, target)) == target,
{
    lens.law_get_set(source, target);
}

/// Set idempotence under repetition, for every lens: setting the same value
/// twice yields the same structure as setting it once.
pub proof fn lemma_set_idempotent<L: Lens>(lens: &L, source: L::Source, target: L::Target)
    requires
        lens.valid(source),
    ensures
        lens.spec_set(lens.spec_set(source, target), target) == lens.spec_set(source, target),
{
    lens.law_set_set(source, target, target);
}

/// Composition path correctness: the path of a composed lens is the
/// concatenation of the outer lens's path with the inner lens's path.
pub proof fn lemma_composed_path<LHS, RHS>(composed: &ComposedLens<LHS, RHS>) where
    LHS: RefLens,
    LHS::Target: 'static,
    RHS: Lens<Source = LHS::Target>,

    ensures
        composed.spec_path() == composed.lhs.spec_path() + composed.rhs.spec_path(),
{
}

} // verus!
