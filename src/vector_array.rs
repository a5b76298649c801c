use vstd::prelude::*;
use crate::array::MlxArray;

verus! {

/// The entry at `index` of a sequence, or nothing past its end.
pub open spec fn entry_at(s: Seq<MlxArray>, index: int) -> Option<MlxArray> {
    if 0 <= index < s.len() {
        Some(s[index])
    } else {
        None
    }
}

/// `items` appended one by one to `s`.
pub open spec fn append_each(s: Seq<MlxArray>, items: Seq<MlxArray>) -> Seq<MlxArray>
    decreases items.len(),
{
    if items.len() == 0 {
        s
    } else {
        append_each(s, items.drop_last()).push(items.last())
    }
}

/// An ordered sequence of arrays: the engine's calling convention for
/// arguments, results and gradients, where position is meaning.
#[derive(Debug, Clone, PartialEq, Eq)]
pub struct VectorMLXArray {
    arrays: Vec<MlxArray>,
}

impl View for VectorMLXArray {
    type V = Seq<MlxArray>;

    closed spec fn view(&self) -> Seq<MlxArray> {
        self.arrays@
    }
}

impl VectorMLXArray {
    /// An empty sequence.
    pub fn new() -> (r: VectorMLXArray)
        ensures
            r@ == Seq::<MlxArray>::empty(),
    {
        VectorMLXArray { arrays: Vec::new() }
    }

    /// A sequence holding `arr` alone.
    pub fn from_array(arr: MlxArray) -> (r: VectorMLXArray)
        ensures
            r@ == seq![arr],
    {
        let mut arrays: Vec<MlxArray> = Vec::new();
        arrays.push(arr);
        proof {
            assert(arrays@ =~= seq![arr]);
        }
        VectorMLXArray { arrays }
    }

    /// A sequence holding the given arrays, in their order.
    pub fn from_vec(arrays: Vec<MlxArray>) -> (r: VectorMLXArray)
        ensures
            r@ == arrays@,
    {
        VectorMLXArray { arrays }
    }

    /// Appends one array at the end.
    pub fn add(&mut self, arr: MlxArray)
        ensures
            final(self)@ == old(self)@.push(arr),
    {
        self.arrays.push(arr);
    }

    /// Appends several arrays at the end, in their order.
    pub fn add_arrays(&mut self, arrs: Vec<MlxArray>)
        ensures
            final(self)@ == old(self)@ + arrs@,
    {
        let mut i: usize = 0;
        while i < arrs.len()
            invariant
                i <= arrs@.len(),
                self@ == old(self)@ + arrs@.subrange(0, i as int),
            decreases arrs@.len() - i,
        {
            self.arrays.push(arrs[i]);
            i = i + 1;
            proof {
                assert(arrs@.subrange(0, i as int) =~= arrs@.subrange(0, i - 1).push(arrs@[i - 1]));
                assert(self@ =~= old(self)@ + arrs@.subrange(0, i as int));
            }
        }
        proof {
            assert(arrs@.subrange(0, arrs@.len() as int) =~= arrs@);
        }
    }

    /// The array at `index`, or `None` past the end.
    pub fn get(&self, index: usize) -> (r: Option<MlxArray>)
        ensures
            r == entry_at(self@, index as int),
    {
        if index < self.arrays.len() {
            Some(self.arrays[index])
        } else {
            None
        }
    }

    /// The number of arrays.
    pub fn len(&self) -> (r: usize)
        ensures
            r == self@.len(),
    {
        self.arrays.len()
    }

    /// The arrays, in order.
    pub fn to_vec(&self) -> (r: Vec<MlxArray>)
        ensures
            r@ == self@,
    {
        let mut out: Vec<MlxArray> = Vec::new();
        let mut i: usize = 0;
        while i < self.arrays.len()
            invariant
                i <= self@.len(),
                out@ == self@.subrange(0, i as int),
            decreases self@.len() - i,
        {
            out.push(self.arrays[i]);
            i = i + 1;
            proof {
                assert(out@ =~= self@.subrange(0, i as int));
            }
        }
        proof {
            assert(self@.subrange(0, self@.len() as int) =~= self@);
        }
        out
    }
}

proof fn lemma_append_each_is_concat(s: Seq<MlxArray>, items: Seq<MlxArray>)
    ensures
        append_each(s, items) == s + items,
    decreases items.len(),
{
    if items.len() > 0 {
        lemma_append_each_is_concat(s, items.drop_last());
        assert(s + items =~= (s + items.drop_last()).push(items.last()));
    } else {
        assert(s + items =~= s);
    }
}

/// Arrays appended one by one to an empty sequence read back by index in the
/// order they were appended, and the index just past them reads as nothing.
pub proof fn lemma_appended_arrays_read_back(items: Seq<MlxArray>)
    ensures
        append_each(Seq::empty(), items).len() == items.len(),
        forall|i: int|
            0 <= i < items.len() ==> #[trigger] entry_at(append_each(Seq::empty(), items), i)
                == Some(items[i]),
        entry_at(append_each(Seq::empty(), items), items.len() as int) == None::<MlxArray>,
{
    lemma_append_each_is_concat(Seq::empty(), items);
    assert(Seq::<MlxArray>::empty() + items =~= items);
}

} // verus!
