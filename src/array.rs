use vstd::prelude::*;

verus! {

/// A reference to one native array, by its address.
///
/// The array's shape, type and contents live in the engine and are read from
/// there on demand. Copying this value names the same array and takes no
/// reference to it; the owners of an array are the `MLXObject`s a
/// `HandleTable` counts for its address.
#[derive(Debug, Clone, Copy, PartialEq, Eq, Structural)]
pub struct MlxArray {
    ptr: usize,
}

impl MlxArray {
    /// The native address of the array.
    pub closed spec fn addr(self) -> usize {
        self.ptr
    }

    /// Names the array at an address the engine handed out.
    pub fn from_raw(handle: usize) -> (r: MlxArray)
        ensures
            r.addr() == handle,
    {
        MlxArray { ptr: handle }
    }

    /// The array's address, for passing back to the engine.
    pub fn as_ptr(&self) -> (r: usize)
        ensures
            r == self.addr(),
    {
        self.ptr
    }

    /// Two arrays with one address are one array.
    pub proof fn lemma_addr_determines(a: MlxArray, b: MlxArray)
        requires
            a.addr() == b.addr(),
        ensures
            a == b,
    {
    }
}

} // verus!
