use vstd::prelude::*;

use core::marker::PhantomData;

verus! {

/// Transforms an input and produces an output.
///
/// A transform is a pure, stateless operation from a whole value to a whole
/// value.  Its behaviour is described by two ghost functions: `pre` says on
/// which inputs the transform may be applied, and `post` relates each input
/// to the outputs that [`Transform::apply`] may return for it.  For
/// transforms built from ordinary functions the relation pins the output
/// down exactly; for transforms built from caller-supplied closures it is
/// exactly the closure's own postcondition.
pub trait Transform {
    /// The input type.
    type Input;

    /// The output type.
    type Output;

    /// The inputs this transform accepts.
    spec fn pre(&self, input: Self::Input) -> bool;

    /// The relation between an accepted input and the produced output.
    spec fn post(&self, input: Self::Input, output: Self::Output) -> bool;

    /// Transforms the input value and returns an output value.
    fn apply(&self, input: Self::Input) -> (output: Self::Output)
        requires
            self.pre(input),
        ensures
            self.post(input, output),
    ;
}

/// Composes a `Transform<A, B>` with another `Transform<B, C>` to produce a
/// new `Transform<A, C>` that applies the first and feeds its result to the
/// second.
pub fn composed_tx<LHS, RHS>(lhs: LHS, rhs: RHS) -> (composed: ComposedTransform<LHS, RHS>) where
    LHS: Transform,
    RHS: Transform<Input = LHS::Output>,

    ensures
        composed == (ComposedTransform { lhs, rhs }),
{
    ComposedTransform { lhs, rhs }
}

/// Composes two transforms: the input goes through the left-hand transform
/// first, and its output through the right-hand transform.
pub struct ComposedTransform<LHS, RHS> {
    /// The first transform to apply.
    pub lhs: LHS,

    /// The second transform to apply.
    pub rhs: RHS,
}

impl<LHS, RHS> Transform for ComposedTransform<LHS, RHS> where
    LHS: Transform,
    RHS: Transform<Input = LHS::Output>,
 {
    type Input = LHS::Input;

    type Output = RHS::Output;

    open spec fn pre(&self, input: LHS::Input) -> bool {
        self.lhs.pre(input) && (forall|mid: LHS::Output|
            #[trigger] self.lhs.post(input, mid) ==> self.rhs.pre(mid))
    }

    open spec fn post(&self, input: LHS::Input, output: RHS::Output) -> bool {
        exists|mid: LHS::Output| #[trigger] self.lhs.post(input, mid) && self.rhs.post(mid, output)
    }

    fn apply(&self, input: LHS::Input) -> (output: RHS::Output) {
        self.rhs.apply(self.lhs.apply(input))
    }
}

/// The identity transform simply passes the input through as the output; it
/// is the identity element of transform composition.
pub fn identity_tx<X>() -> (identity: IdentityTransform<X>)
    ensures
        identity == (IdentityTransform { marker: PhantomData::<X> }),
{
    IdentityTransform { marker: PhantomData::<X> }
}

/// The transform returned by [`identity_tx`].
pub struct IdentityTransform<X> {
    /// Records the input and output type.
    pub marker: PhantomData<X>,
}

impl<X> Transform for IdentityTransform<X> {
    type Input = X;

    type Output = X;

    open spec fn pre(&self, input: X) -> bool {
        true
    }

    open spec fn post(&self, input: X, output: X) -> bool {
        output == input
    }

    fn apply(&self, input: X) -> (output: X) {
        input
    }
}

/// A transform that applies a given function to the input, for
/// interoperating with steps that are not based on an accessor.  Its
/// postcondition relation is exactly the function's own.
pub fn fn_tx<X, Y, F>(f: F) -> (transform: FnTransform<X, Y, F>) where
    F: Fn(X) -> Y,

    ensures
        transform == (FnTransform {
            func: f,
            x_marker: PhantomData::<X>,
            y_marker: PhantomData::<Y>,
        }),
{
    FnTransform { func: f, x_marker: PhantomData::<X>, y_marker: PhantomData::<Y> }
}

/// The transform returned by [`fn_tx`].
pub struct FnTransform<X, Y, F> {
    /// The function applied to the transform input.
    pub func: F,

    /// Records the input type.
    pub x_marker: PhantomData<X>,

    /// Records the output type.
    pub y_marker: PhantomData<Y>,
}

impl<X, Y, F> Transform for FnTransform<X, Y, F> where F: Fn(X) -> Y {
    type Input = X;

    type Output = Y;

    open spec fn pre(&self, input: X) -> bool {
        call_requires(self.func, (input,))
    }

    open spec fn post(&self, input: X, output: Y) -> bool {
        call_ensures(self.func, (input,), output)
    }

    fn apply(&self, input: X) -> (output: Y) {
        (self.func)(input)
    }
}

/// The identity transform is the unit of transform composition: composing
/// it before or after a transform accepts the same inputs and relates each
/// input to the same outputs as the transform alone.
pub proof fn lemma_identity_tx_unit<T: Transform>(t: T, input: T::Input, output: T::Output)
    ensures
        (ComposedTransform { lhs: IdentityTransform { marker: PhantomData::<T::Input> }, rhs: t }).pre(
            input,
        ) <==> t.pre(input),
        (ComposedTransform { lhs: IdentityTransform { marker: PhantomData::<T::Input> }, rhs: t }).post(
            input,
            output,
        ) <==> t.post(input, output),
        (ComposedTransform { lhs: t, rhs: IdentityTransform { marker: PhantomData::<T::Output> } }).pre(
            input,
        ) <==> t.pre(input),
        (ComposedTransform { lhs: t, rhs: IdentityTransform { marker: PhantomData::<T::Output> } }).post(
            input,
            output,
        ) <==> t.post(input, output),
{
    let identity_in = IdentityTransform { marker: PhantomData::<T::Input> };
    let identity_out = IdentityTransform { marker: PhantomData::<T::Output> };
    let before = ComposedTransform { lhs: identity_in, rhs: t };
    let after = ComposedTransform { lhs: t, rhs: identity_out };

    if t.pre(input) {
        assert(before.pre(input)) by {
            assert forall|mid: T::Input| #[trigger] identity_in.post(input, mid) implies t.pre(
                mid,
            ) by {
            }
        }
        assert(after.pre(input)) by {
            assert forall|mid: T::Output| #[trigger] t.post(input, mid) implies identity_out.pre(
                mid,
            ) by {
            }
        }
    }
    if before.pre(input) {
        assert(identity_in.post(input, input));
        assert(t.pre(input));
    }
    if after.pre(input) {
        assert(t.pre(input));
    }
    if t.post(input, output) {
        assert(before.post(input, output)) by {
            assert(before.lhs.post(input, input) && before.rhs.post(input, output));
        }
        assert(after.post(input, output)) by {
            assert(after.lhs.post(input, output) && after.rhs.post(output, output));
        }
    }
    if before.post(input, output) {
        let mid = choose|mid: T::Input| #[trigger] identity_in.post(input, mid) && t.post(
            mid,
            output,
        );
        assert(t.post(input, output));
    }
    if after.post(input, output) {
        let mid = choose|mid: T::Output| #[trigger] t.post(input, mid) && identity_out.post(
            mid,
            output,
        );
        assert(t.post(input, output));
    }
}

/// Transform composition associativity: composing three transforms with
/// either grouping accepts exactly the same inputs and relates each input
/// to exactly the same outputs.
pub proof fn lemma_composed_tx_associative<T1, T2, T3>(
    t1: T1,
    t2: T2,
    t3: T3,
    input: T1::Input,
    output: T3::Output,
) where
    T1: Transform,
    T2: Transform<Input = T1::Output>,
    T3: Transform<Input = T2::Output>,

    ensures
        (ComposedTransform { lhs: ComposedTransform { lhs: t1, rhs: t2 }, rhs: t3 }).pre(input)
            <==> (ComposedTransform { lhs: t1, rhs: ComposedTransform { lhs: t2, rhs: t3 } }).pre(
            input,
        ),
        (ComposedTransform { lhs: ComposedTransform { lhs: t1, rhs: t2 }, rhs: t3 }).post(
            input,
            output,
        ) <==> (ComposedTransform { lhs: t1, rhs: ComposedTransform { lhs: t2, rhs: t3 } }).post(
            input,
            output,
        ),
{
    let left = ComposedTransform { lhs: ComposedTransform { lhs: t1, rhs: t2 }, rhs: t3 };
    let right = ComposedTransform { lhs: t1, rhs: ComposedTransform { lhs: t2, rhs: t3 } };
    let pair = ComposedTransform { lhs: t1, rhs: t2 };
    let tail = ComposedTransform { lhs: t2, rhs: t3 };

    // The two groupings accept the same inputs.
    if left.pre(input) {
        assert forall|m1: T1::Output| #[trigger] t1.post(input, m1) implies tail.pre(m1) by {
            assert(t2.pre(m1));
            assert forall|m2: T2::Output| #[trigger] t2.post(m1, m2) implies t3.pre(m2) by {
                assert(pair.post(input, m2));
            }
        }
        assert(right.pre(input));
    }
    if right.pre(input) {
        assert forall|m2: T2::Output| #[trigger] pair.post(input, m2) implies t3.pre(m2) by {
            let m1 = choose|m1: T1::Output| #[trigger] t1.post(input, m1) && t2.post(m1, m2);
            assert(tail.pre(m1));
        }
        assert(left.pre(input));
    }

    // The two groupings relate inputs to the same outputs.
    if left.post(input, output) {
        let m2 = choose|m2: T2::Output| #[trigger] pair.post(input, m2) && t3.post(m2, output);
        let m1 = choose|m1: T1::Output| #[trigger] t1.post(input, m1) && t2.post(m1, m2);
        assert(tail.post(m1, output)) by {
            assert(tail.lhs.post(m1, m2) && tail.rhs.post(m2, output));
        }
        assert(right.post(input, output)) by {
            assert(right.lhs.post(input, m1) && right.rhs.post(m1, output));
        }
    }
    if right.post(input, output) {
        let m1 = choose|m1: T1::Output| #[trigger] t1.post(input, m1) && tail.post(m1, output);
        let m2 = choose|m2: T2::Output| #[trigger] t2.post(m1, m2) && t3.post(m2, output);
        assert(pair.post(input, m2)) by {
            assert(pair.lhs.post(input, m1) && pair.rhs.post(m1, m2));
        }
        assert(left.post(input, output)) by {
            assert(left.lhs.post(input, m2) && left.rhs.post(m2, output));
        }
    }
}

} // verus!
