use vstd::prelude::*;

use crate::lens::{Lens, RefLens};
use crate::transform::Transform;

verus! {

/// An integral target type that can be stepped by one in either direction.
///
/// The increment and decrement transforms are only meaningful for targets
/// whose arithmetic unit is well-defined; each implementing type says when
/// a step stays within its range and what value it produces.
pub trait Integral: Copy {
    /// Whether `self` has a successor within the type's range.
    spec fn has_succ(self) -> bool;

    /// Whether `self` has a predecessor within the type's range.
    spec fn has_pred(self) -> bool;

    /// The value one above `self`.
    spec fn succ_spec(self) -> Self;

    /// The value one below `self`.
    spec fn pred_spec(self) -> Self;

    /// Adds one.
    fn succ(self) -> (stepped: Self)
        requires
            self.has_succ(),
        ensures
            stepped == self.succ_spec(),
    ;

    /// Subtracts one.
    fn pred(self) -> (stepped: Self)
        requires
            self.has_pred(),
        ensures
            stepped == self.pred_spec(),
    ;
}

impl Integral for i8 {
    open spec fn has_succ(self) -> bool {
        self < i8::MAX
    }

    open spec fn has_pred(self) -> bool {
        self > i8::MIN
    }

    open spec fn succ_spec(self) -> i8 {
        (self + 1) as i8
    }

    open spec fn pred_spec(self) -> i8 {
        (self - 1) as i8
    }

    fn succ(self) -> (stepped: i8) {
        self + 1
    }

    fn pred(self) -> (stepped: i8) {
        self - 1
    }
}

impl Integral for i16 {
    open spec fn has_succ(self) -> bool {
        self < i16::MAX
    }

    open spec fn has_pred(self) -> bool {
        self > i16::MIN
    }

    open spec fn succ_spec(self) -> i16 {
        (self + 1) as i16
    }

    open spec fn pred_spec(self) -> i16 {
        (self - 1) as i16
    }

    fn succ(self) -> (stepped: i16) {
        self + 1
    }

    fn pred(self) -> (stepped: i16) {
        self - 1
    }
}

impl Integral for i32 {
    open spec fn has_succ(self) -> bool {
        self < i32::MAX
    }

    open spec fn has_pred(self) -> bool {
        self > i32::MIN
    }

    open spec fn succ_spec(self) -> i32 {
        (self + 1) as i32
    }

    open spec fn pred_spec(self) -> i32 {
        (self - 1) as i32
    }

    fn succ(self) -> (stepped: i32) {
        self + 1
    }

    fn pred(self) -> (stepped: i32) {
        self - 1
    }
}

impl Integral for i64 {
    open spec fn has_succ(self) -> bool {
        self < i64::MAX
    }

    open spec fn has_pred(self) -> bool {
        self > i64::MIN
    }

    open spec fn succ_spec(self) -> i64 {
        (self + 1) as i64
    }

    open spec fn pred_spec(self) -> i64 {
        (self - 1) as i64
    }

    fn succ(self) -> (stepped: i64) {
        self + 1
    }

    fn pred(self) -> (stepped: i64) {
        self - 1
    }
}

impl Integral for u8 {
    open spec fn has_succ(self) -> bool {
        self < u8::MAX
    }

    open spec fn has_pred(self) -> bool {
        self > u8::MIN
    }

    open spec fn succ_spec(self) -> u8 {
        (self + 1) as u8
    }

    open spec fn pred_spec(self) -> u8 {
        (self - 1) as u8
    }

    fn succ(self) -> (stepped: u8) {
        self + 1
    }

    fn pred(self) -> (stepped: u8) {
        self - 1
    }
}

impl Integral for u16 {
    open spec fn has_succ(self) -> bool {
        self < u16::MAX
    }

    open spec fn has_pred(self) -> bool {
        self > u16::MIN
    }

    open spec fn succ_spec(self) -> u16 {
        (self + 1) as u16
    }

    open spec fn pred_spec(self) -> u16 {
        (self - 1) as u16
    }

    fn succ(self) -> (stepped: u16) {
        self + 1
    }

    fn pred(self) -> (stepped: u16) {
        self - 1
    }
}

impl Integral for u32 {
    open spec fn has_succ(self) -> bool {
        self < u32::MAX
    }

    open spec fn has_pred(self) -> bool {
        self > u32::MIN
    }

    open spec fn succ_spec(self) -> u32 {
        (self + 1) as u32
    }

    open spec fn pred_spec(self) -> u32 {
        (self - 1) as u32
    }

    fn succ(self) -> (stepped: u32) {
        self + 1
    }

    fn pred(self) -> (stepped: u32) {
        self - 1
    }
}

impl Integral for u64 {
    open spec fn has_succ(self) -> bool {
        self < u64::MAX
    }

    open spec fn has_pred(self) -> bool {
        self > u64::MIN
    }

    open spec fn succ_spec(self) -> u64 {
        (self + 1) as u64
    }

    open spec fn pred_spec(self) -> u64 {
        (self - 1) as u64
    }

    fn succ(self) -> (stepped: u64) {
        self + 1
    }

    fn pred(self) -> (stepped: u64) {
        self - 1
    }
}

impl Integral for usize {
    open spec fn has_succ(self) -> bool {
        self < usize::MAX
    }

    open spec fn has_pred(self) -> bool {
        self > usize::MIN
    }

    open spec fn succ_spec(self) -> usize {
        (self + 1) as usize
    }

    open spec fn pred_spec(self) -> usize {
        (self - 1) as usize
    }

    fn succ(self) -> (stepped: usize) {
        self + 1
    }

    fn pred(self) -> (stepped: usize) {
        self - 1
    }
}

impl Integral for isize {
    open spec fn has_succ(self) -> bool {
        self < isize::MAX
    }

    open spec fn has_pred(self) -> bool {
        self > isize::MIN
    }

    open spec fn succ_spec(self) -> isize {
        (self + 1) as isize
    }

    open spec fn pred_spec(self) -> isize {
        (self - 1) as isize
    }

    fn succ(self) -> (stepped: isize) {
        self + 1
    }

    fn pred(self) -> (stepped: isize) {
        self - 1
    }
}

/// A boolean-like target type with a logical negation.
pub trait Negate: Copy {
    /// The logical negation of `self`.
    spec fn not_spec(self) -> Self;

    /// Negates the value.
    fn negate(self) -> (negated: Self)
        ensures
            negated == self.not_spec(),
    ;
}

impl Negate for bool {
    open spec fn not_spec(self) -> bool {
        !self
    }

    fn negate(self) -> (negated: bool) {
        !self
    }
}

/// A transform that invokes a lens `set` operation with the output of the
/// given function, which computes the new target value from the whole
/// (pre-mutation) source.
pub fn set_tx<L, F>(lens: L, func: F) -> (transform: LensSetTransform<L, F>) where
    L: Lens,
    F: Fn(&L::Source) -> L::Target,

    ensures
        transform == (LensSetTransform { lens, func }),
{
    LensSetTransform { lens, func }
}

/// A transform that invokes a lens `modify` operation with the given
/// function, which computes the new target value from the current one.
pub fn mod_tx<L, F>(lens: L, func: F) -> (transform: LensModifyTransform<L, F>) where
    L: RefLens,
    F: Fn(&L::Target) -> L::Target,

    ensures
        transform == (LensModifyTransform { lens, func }),
{
    LensModifyTransform { lens, func }
}

/// A transform that increments the integral target value for the given
/// lens by one.
pub fn increment_tx<L>(lens: L) -> (transform: LensIncrementTransform<L>) where
    L: RefLens,
    L::Target: Integral,

    ensures
        transform == (LensIncrementTransform { lens }),
{
    LensIncrementTransform { lens }
}

/// A transform that decrements the integral target value for the given
/// lens by one.
pub fn decrement_tx<L>(lens: L) -> (transform: LensDecrementTransform<L>) where
    L: RefLens,
    L::Target: Integral,

    ensures
        transform == (LensDecrementTransform { lens }),
{
    LensDecrementTransform { lens }
}

/// A transform that negates the boolean target value for the given lens.
pub fn not_tx<L>(lens: L) -> (transform: LensNotTransform<L>) where
    L: RefLens,
    L::Target: Negate,

    ensures
        transform == (LensNotTransform { lens }),
{
    LensNotTransform { lens }
}

/// The transform returned by [`set_tx`].
pub struct LensSetTransform<L, F> {
    /// The underlying lens.
    pub lens: L,

    /// A function that takes the lens source by reference and produces a
    /// new lens target value.
    pub func: F,
}

impl<L, F> Transform for LensSetTransform<L, F> where L: Lens, F: Fn(&L::Source) -> L::Target {
    type Input = L::Source;

    type Output = L::Source;

    open spec fn pre(&self, input: L::Source) -> bool {
        self.lens.valid(input) && call_requires(self.func, (&input,))
    }

    open spec fn post(&self, input: L::Source, output: L::Source) -> bool {
        exists|target: L::Target|
            #[trigger] call_ensures(self.func, (&input,), target) && output == self.lens.spec_set(
                input,
                target,
            )
    }

    fn apply(&self, input: L::Source) -> (output: L::Source) {
        let new_value = (self.func)(&input);
        self.lens.set(input, new_value)
    }
}

/// The transform returned by [`mod_tx`].
pub struct LensModifyTransform<L, F> {
    /// The underlying lens.
    pub lens: L,

    /// A function that takes the current lens target value and produces a
    /// new target value.
    pub func: F,
}

impl<L, F> Transform for LensModifyTransform<L, F> where
    L: RefLens,
    F: Fn(&L::Target) -> L::Target,
 {
    type Input = L::Source;

    type Output = L::Source;

    open spec fn pre(&self, input: L::Source) -> bool {
        self.lens.valid(input) && call_requires(self.func, (&self.lens.spec_get(input),))
    }

    open spec fn post(&self, input: L::Source, output: L::Source) -> bool {
        exists|target: L::Target|
            #[trigger] call_ensures(self.func, (&self.lens.spec_get(input),), target) && output
                == self.lens.spec_set(input, target)
    }

    fn apply(&self, input: L::Source) -> (output: L::Source) {
        let target = (self.func)(self.lens.get_ref(&input));
        self.lens.set(input, target)
    }
}

/// The transform returned by [`increment_tx`].
pub struct LensIncrementTransform<L> {
    /// The underlying lens.
    pub lens: L,
}

impl<L> Transform for LensIncrementTransform<L> where L: RefLens, L::Target: Integral {
    type Input = L::Source;

    type Output = L::Source;

    open spec fn pre(&self, input: L::Source) -> bool {
        self.lens.valid(input) && self.lens.spec_get(input).has_succ()
    }

    open spec fn post(&self, input: L::Source, output: L::Source) -> bool {
        output == self.lens.spec_set(input, self.lens.spec_get(input).succ_spec())
    }

    fn apply(&self, input: L::Source) -> (output: L::Source) {
        let target = (*self.lens.get_ref(&input)).succ();
        self.lens.set(input, target)
    }
}

/// The transform returned by [`decrement_tx`].
pub struct LensDecrementTransform<L> {
    /// The underlying lens.
    pub lens: L,
}

impl<L> Transform for LensDecrementTransform<L> where L: RefLens, L::Target: Integral {
    type Input = L::Source;

    type Output = L::Source;

    open spec fn pre(&self, input: L::Source) -> bool {
        self.lens.valid(input) && self.lens.spec_get(input).has_pred()
    }

    open spec fn post(&self, input: L::Source, output: L::Source) -> bool {
        output == self.lens.spec_set(input, self.lens.spec_get(input).pred_spec())
    }

    fn apply(&self, input: L::Source) -> (output: L::Source) {
        let target = (*self.lens.get_ref(&input)).pred();
        self.lens.set(input, target)
    }
}

/// The transform returned by [`not_tx`].
pub struct LensNotTransform<L> {
    /// The underlying lens.
    pub lens: L,
}

impl<L> Transform for LensNotTransform<L> where L: RefLens, L::Target: Negate {
    type Input = L::Source;

    type Output = L::Source;

    open spec fn pre(&self, input: L::Source) -> bool {
        self.lens.valid(input)
    }

    open spec fn post(&self, input: L::Source, output: L::Source) -> bool {
        output == self.lens.spec_set(input, self.lens.spec_get(input).not_spec())
    }

    fn apply(&self, input: L::Source) -> (output: L::Source) {
        let target = (*self.lens.get_ref(&input)).negate();
        self.lens.set(input, target)
    }
}

} // verus!
