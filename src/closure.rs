use vstd::prelude::*;
use std::marker::PhantomData;
use crate::array::MlxArray;
use crate::vector_array::VectorMLXArray;

verus! {

/// A value that crosses the engine boundary as an ordered sequence of arrays:
/// one array, a pair or a triple of arrays, or a sequence itself.
pub trait Marshal: Sized {
    /// The arrays this value stands for, in argument order.
    spec fn arrays(&self) -> Seq<MlxArray>;

    /// Whether a sequence holds enough arrays for a value of this shape.
    spec fn decodes(s: Seq<MlxArray>) -> bool;

    /// The arrays a value decoded from the sequence stands for.
    spec fn decoded(s: Seq<MlxArray>) -> Seq<MlxArray>;

    /// Encoding and then decoding gives back the value's own arrays.
    proof fn lemma_round_trip(x: &Self)
        ensures
            Self::decodes(x.arrays()),
            Self::decoded(x.arrays()) == x.arrays(),
    ;

    /// The value as a sequence, in argument order.
    fn into_sequence(self) -> (r: VectorMLXArray)
        ensures
            r@ == self.arrays(),
    ;

    /// The value a sequence holds, or `None` where it holds too few arrays.
    fn from_sequence(v: VectorMLXArray) -> (r: Option<Self>)
        ensures
            r.is_some() == Self::decodes(v@),
            r matches Some(x) ==> x.arrays() == Self::decoded(v@),
    ;
}

impl Marshal for MlxArray {
    open spec fn arrays(&self) -> Seq<MlxArray> {
        seq![*self]
    }

    open spec fn decodes(s: Seq<MlxArray>) -> bool {
        s.len() >= 1
    }

    open spec fn decoded(s: Seq<MlxArray>) -> Seq<MlxArray> {
        seq![s[0]]
    }

    proof fn lemma_round_trip(x: &Self) {
        assert(seq![seq![*x][0]] =~= seq![*x]);
    }

    fn into_sequence(self) -> (r: VectorMLXArray) {
        VectorMLXArray::from_array(self)
    }

    fn from_sequence(v: VectorMLXArray) -> (r: Option<Self>) {
        v.get(0)
    }
}

impl Marshal for (MlxArray, MlxArray) {
    open spec fn arrays(&self) -> Seq<MlxArray> {
        seq![self.0, self.1]
    }

    open spec fn decodes(s: Seq<MlxArray>) -> bool {
        s.len() >= 2
    }

    open spec fn decoded(s: Seq<MlxArray>) -> Seq<MlxArray> {
        seq![s[0], s[1]]
    }

    proof fn lemma_round_trip(x: &Self) {
        assert(seq![seq![x.0, x.1][0], seq![x.0, x.1][1]] =~= seq![x.0, x.1]);
    }

    fn into_sequence(self) -> (r: VectorMLXArray) {
        let mut v = VectorMLXArray::from_array(self.0);
        v.add(self.1);
        proof {
            assert(v@ =~= seq![self.0, self.1]);
        }
        v
    }

    fn from_sequence(v: VectorMLXArray) -> (r: Option<Self>) {
        match (v.get(0), v.get(1)) {
            (Some(a), Some(b)) => Some((a, b)),
            _ => None,
        }
    }
}

impl Marshal for (MlxArray, MlxArray, MlxArray) {
    open spec fn arrays(&self) -> Seq<MlxArray> {
        seq![self.0, self.1, self.2]
    }

    open spec fn decodes(s: Seq<MlxArray>) -> bool {
        s.len() >= 3
    }

    open spec fn decoded(s: Seq<MlxArray>) -> Seq<MlxArray> {
        seq![s[0], s[1], s[2]]
    }

    proof fn lemma_round_trip(x: &Self) {
        let s = seq![x.0, x.1, x.2];
        assert(seq![s[0], s[1], s[2]] =~= s);
    }

    fn into_sequence(self) -> (r: VectorMLXArray) {
        let mut v = VectorMLXArray::from_array(self.0);
        v.add(self.1);
        v.add(self.2);
        proof {
            assert(v@ =~= seq![self.0, self.1, self.2]);
        }
        v
    }

    fn from_sequence(v: VectorMLXArray) -> (r: Option<Self>) {
        match (v.get(0), v.get(1), v.get(2)) {
            (Some(a), Some(b), Some(c)) => Some((a, b, c)),
            _ => None,
        }
    }
}

impl Marshal for VectorMLXArray {
    open spec fn arrays(&self) -> Seq<MlxArray> {
        self@
    }

    open spec fn decodes(s: Seq<MlxArray>) -> bool {
        true
    }

    open spec fn decoded(s: Seq<MlxArray>) -> Seq<MlxArray> {
        s
    }

    proof fn lemma_round_trip(x: &Self) {
    }

    fn into_sequence(self) -> (r: VectorMLXArray) {
        self
    }

    fn from_sequence(v: VectorMLXArray) -> (r: Option<Self>) {
        Some(v)
    }
}

/// A host function that the engine can call: it maps a value of shape `IN`
/// to one of shape `OUT`, and has a stable identity for the compile cache.
pub trait MLXFunc<IN, OUT> {
    /// Whether `output` is a result the function may give for `input`.
    spec fn produces(&self, input: IN, output: OUT) -> bool;

    /// The identity the compile cache keys the function's trace by.
    spec fn spec_id(&self) -> usize;

    fn apply(&self, input: IN) -> (r: OUT)
        ensures
            self.produces(input, r),
    ;

    fn id(&self) -> (r: usize)
        ensures
            r == self.spec_id(),
    ;
}

/// An ordinary host closure together with the identity it is registered
/// under. Its results are those the closure's own contract allows.
#[verifier::reject_recursive_types(IN)]
#[verifier::reject_recursive_types(OUT)]
pub struct HostFunc<G: Fn(IN) -> OUT, IN, OUT> {
    func: G,
    id: usize,
    shape: PhantomData<(IN, OUT)>,
}

impl<G: Fn(IN) -> OUT, IN, OUT> HostFunc<G, IN, OUT> {
    /// The closure accepts every input.
    #[verifier::type_invariant]
    spec fn total(self) -> bool {
        forall|x: IN| #[trigger] self.func.requires((x,))
    }

    /// The wrapped closure.
    pub closed spec fn spec_func(self) -> G {
        self.func
    }

    /// Wraps `func`, which must accept every input, under identity `id`.
    pub fn new(func: G, id: usize) -> (r: Self)
        requires
            forall|x: IN| #[trigger] func.requires((x,)),
        ensures
            r.spec_func() == func,
            r.spec_id() == id,
            forall|i: IN, o: OUT| #[trigger] r.produces(i, o) <==> func.ensures((i,), o),
    {
        HostFunc { func, id, shape: PhantomData }
    }
}

impl<G: Fn(IN) -> OUT, IN, OUT> MLXFunc<IN, OUT> for HostFunc<G, IN, OUT> {
    open spec fn produces(&self, input: IN, output: OUT) -> bool {
        self.spec_func().ensures((input,), output)
    }

    closed spec fn spec_id(&self) -> usize {
        self.id
    }

    fn apply(&self, input: IN) -> (r: OUT) {
        proof {
            use_type_invariant(self);
        }
        (self.func)(input)
    }

    fn id(&self) -> (r: usize) {
        self.id
    }
}

/// What the bridge gives for `input`: the function's result on a value with
/// the same arrays, carried back as a value with the same arrays.
pub open spec fn bridged<F: MLXFunc<IN, OUT>, IN: Marshal, OUT: Marshal>(
    f: F,
    input: IN,
    r: OUT,
) -> bool {
    exists|i: IN, o: OUT|
        i.arrays() == input.arrays() && #[trigger] f.produces(i, o) && r.arrays() == o.arrays()
}

/// What the bridge's sequence entry point gives for an argument sequence.
pub open spec fn bridged_sequence<F: MLXFunc<IN, OUT>, IN: Marshal, OUT: Marshal>(
    f: F,
    input: Seq<MlxArray>,
    r: Seq<MlxArray>,
) -> bool {
    exists|i: IN, o: OUT|
        i.arrays() == IN::decoded(input) && #[trigger] f.produces(i, o) && r == o.arrays()
}

/// A host function registered behind the engine's single calling convention:
/// a sequence of arrays in, a sequence of arrays out.
pub struct MLXClosure<F, IN, OUT> {
    f: F,
    id: usize,
    shape: PhantomData<(IN, OUT)>,
}

impl<F: MLXFunc<IN, OUT>, IN: Marshal, OUT: Marshal> MLXClosure<F, IN, OUT> {
    /// The registered host function.
    pub closed spec fn func(&self) -> F {
        self.f
    }

    /// The identity the closure was registered under.
    pub closed spec fn spec_id(&self) -> usize {
        self.id
    }

    /// Registers `f`, under the identity it reports.
    pub fn new(f: F) -> (r: Self)
        ensures
            r.func() == f,
            r.spec_id() == f.spec_id(),
    {
        let id = f.id();
        MLXClosure { f, id, shape: PhantomData }
    }

    /// The entry point the engine calls: decodes the argument sequence into
    /// the declared input shape, runs the host function and encodes its
    /// result. `None` where the sequence holds too few arrays for the input.
    pub fn call_sequence(&self, input: VectorMLXArray) -> (r: Option<VectorMLXArray>)
        ensures
            r.is_some() == IN::decodes(input@),
            r matches Some(v) ==> bridged_sequence::<F, IN, OUT>(self.func(), input@, v@),
    {
        match IN::from_sequence(input) {
            Some(i) => {
                let o = self.f.apply(i);
                let v = o.into_sequence();
                Some(v)
            },
            None => None,
        }
    }

    /// Applies the closure to typed arguments: they cross as a sequence, and
    /// the result sequence comes back in the declared output shape.
    pub fn apply(&self, input: IN) -> (r: OUT)
        ensures
            bridged(self.func(), input, r),
    {
        let ghost arrays = input.arrays();
        proof {
            IN::lemma_round_trip(&input);
        }
        let args = input.into_sequence();
        let result = self.call_sequence(args).unwrap();
        let ghost (gi, go) = choose|i: IN, o: OUT|
            i.arrays() == IN::decoded(arrays) && #[trigger] self.func().produces(i, o)
                && result@ == o.arrays();
        proof {
            OUT::lemma_round_trip(&go);
        }
        let r = OUT::from_sequence(result).unwrap();
        proof {
            assert(self.func().produces(gi, go));
        }
        r
    }

    /// The identity the closure was registered under.
    pub fn id(&self) -> (r: usize)
        ensures
            r == self.spec_id(),
    {
        self.id
    }
}

/// A function that hands back the arrays it is given hands them back through
/// the bridge too: the result stands for exactly the input's arrays.
pub proof fn lemma_identity_round_trip<F: MLXFunc<T, T>, T: Marshal>(f: F, input: T, r: T)
    requires
        forall|i: T, o: T| #[trigger] f.produces(i, o) ==> o.arrays() == i.arrays(),
        bridged(f, input, r),
    ensures
        r.arrays() == input.arrays(),
{
}

/// Through an identity function the bridge hands back the very array it was
/// given.
pub proof fn lemma_identity_round_trip_array<F: MLXFunc<MlxArray, MlxArray>>(
    f: F,
    input: MlxArray,
    r: MlxArray,
)
    requires
        forall|i: MlxArray, o: MlxArray| #[trigger] f.produces(i, o) ==> o == i,
        bridged(f, input, r),
    ensures
        r == input,
{
    assert(r.arrays()[0] == input.arrays()[0]);
}

} // verus!
