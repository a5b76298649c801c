use vstd::prelude::*;
use crate::closure::{MLXClosure, MLXFunc, Marshal};
use crate::vector_array::VectorMLXArray;

verus! {

/// What a differentiation call hands back, split: the primal output decoded
/// into the declared output shape, and the gradient sequence. The engine
/// returns the two as the first and second entries of a pair of sequences;
/// `None` where the pair lacks an entry or the output has too few arrays.
pub fn split_output_and_gradient<OUT: Marshal>(pair: Vec<VectorMLXArray>) -> (r: Option<
    (OUT, VectorMLXArray),
>)
    ensures
        r.is_some() == (pair@.len() >= 2 && OUT::decodes(pair@[0]@)),
        r matches Some((out, gradient)) ==> out.arrays() == OUT::decoded(pair@[0]@)
            && gradient@ == pair@[1]@,
{
    let mut pair = pair;
    if pair.len() < 2 {
        return None;
    }
    let output = pair.remove(0);
    let gradient = pair.remove(0);
    match OUT::from_sequence(output) {
        Some(out) => Some((out, gradient)),
        None => None,
    }
}

/// A function registered for value-and-gradient evaluation: each call gives
/// the function's output together with one gradient per argument position,
/// in the order of the positions.
pub struct ValueAndGrad<F, IN, OUT> {
    closure: MLXClosure<F, IN, OUT>,
    argnums: Vec<i32>,
}

impl<F: MLXFunc<IN, OUT>, IN: Marshal, OUT: Marshal> ValueAndGrad<F, IN, OUT> {
    /// The function being differentiated.
    pub closed spec fn func(&self) -> F {
        self.closure.func()
    }

    /// The argument positions gradients are taken against.
    pub closed spec fn positions(&self) -> Seq<i32> {
        self.argnums@
    }

    /// The argument positions gradients are taken against, in order.
    pub fn argument_positions(&self) -> (r: Vec<i32>)
        ensures
            r@ == self.positions(),
    {
        self.argnums.clone()
    }

    /// The closure the engine differentiates.
    pub fn closure(&self) -> (r: &MLXClosure<F, IN, OUT>)
        ensures
            r.func() == self.func(),
    {
        &self.closure
    }
}

/// Registers `f` for value-and-gradient evaluation against the arguments at
/// `argnums`; gradients come back in the order of `argnums`.
pub fn value_and_grad<F: MLXFunc<IN, OUT>, IN: Marshal, OUT: Marshal>(
    f: F,
    argnums: Vec<i32>,
) -> (r: ValueAndGrad<F, IN, OUT>)
    ensures
        r.func() == f,
        r.positions() == argnums@,
{
    ValueAndGrad { closure: MLXClosure::new(f), argnums }
}

/// The gradient part of value-and-gradient evaluation: the primal output is
/// dropped, so the function has the shape `IN -> sequence` and can itself be
/// differentiated again.
pub struct GradFunc<F, IN, OUT>(ValueAndGrad<F, IN, OUT>);

impl<F: MLXFunc<IN, OUT>, IN: Marshal, OUT: Marshal> GradFunc<F, IN, OUT> {
    /// The value-and-gradient registration this builds on.
    pub closed spec fn inner(&self) -> ValueAndGrad<F, IN, OUT> {
        self.0
    }

    /// The value-and-gradient registration this builds on.
    pub fn value_and_grad(&self) -> (r: &ValueAndGrad<F, IN, OUT>)
        ensures
            *r == self.inner(),
    {
        &self.0
    }

    /// Keeps the gradient sequence of a value-and-gradient result.
    pub fn gradient(result: (OUT, VectorMLXArray)) -> (r: VectorMLXArray)
        ensures
            r == result.1,
    {
        result.1
    }
}

/// Registers `f` for gradient evaluation against its first argument.
pub fn grad<F: MLXFunc<IN, OUT>, IN: Marshal, OUT: Marshal>(f: F) -> (r: GradFunc<F, IN, OUT>)
    ensures
        r.inner().func() == f,
        r.inner().positions() == seq![0i32],
{
    let mut argnums: Vec<i32> = Vec::new();
    argnums.push(0);
    proof {
        assert(argnums@ =~= seq![0i32]);
    }
    GradFunc(value_and_grad(f, argnums))
}

} // verus!
