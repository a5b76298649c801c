use vstd::prelude::*;
use std::collections::HashMap;

verus! {

broadcast use vstd::std_specs::hash::group_hash_axioms;

/// One owner of an opaque native object, known to the host only by its
/// address.
///
/// Owners are counted in a [`HandleTable`]. An owner cannot be copied: a
/// second one comes only from `share`, which counts a retain, and an owner
/// goes only through `release`, which counts a release.
#[derive(Debug, PartialEq, Eq, Structural)]
pub struct MLXObject {
    ptr: usize,
}

impl MLXObject {
    /// The native address of the object.
    pub closed spec fn addr(self) -> usize {
        self.ptr
    }

    /// Wraps an address the engine handed out; the caller holds its reference.
    pub fn from_raw(handle: usize) -> (r: MLXObject)
        ensures
            r.addr() == handle,
    {
        MLXObject { ptr: handle }
    }

    /// The address, for passing back to the engine; ownership stays here.
    pub fn as_ptr(&self) -> (r: usize)
        ensures
            r == self.addr(),
    {
        self.ptr
    }

    /// Equal handles denote the same native object.
    pub proof fn lemma_addr_determines(a: MLXObject, b: MLXObject)
        requires
            a.addr() == b.addr(),
        ensures
            a == b,
    {
    }

    /// A second owner of the same object: one more reference is counted.
    pub fn share(&self, table: &mut HandleTable) -> (r: MLXObject)
        requires
            old(table).wf(),
            old(table)@.contains_key(self.addr()),
            old(table)@[self.addr()] < u64::MAX,
        ensures
            r.addr() == self.addr(),
            final(table)@ == retain_count(old(table)@, self.addr()),
            final(table).wf(),
    {
        table.retain(self.ptr);
        MLXObject { ptr: self.ptr }
    }

    /// Gives up this owner; the result says whether the object is now freed.
    pub fn release(self, table: &mut HandleTable) -> (freed: bool)
        requires
            old(table).wf(),
            old(table)@.contains_key(self.addr()),
        ensures
            final(table)@ == release_count(old(table)@, self.addr()),
            freed == !final(table)@.contains_key(self.addr()),
            final(table).wf(),
    {
        table.release(self.ptr)
    }
}

/// The owner count of an address after one more owner is taken on.
pub open spec fn retain_count(m: Map<usize, u64>, a: usize) -> Map<usize, u64> {
    if m.contains_key(a) {
        m.insert(a, (m[a] + 1) as u64)
    } else {
        m.insert(a, 1)
    }
}

/// The owner count of an address after one owner is given up; the entry
/// goes when the last owner does.
pub open spec fn release_count(m: Map<usize, u64>, a: usize) -> Map<usize, u64> {
    if m.contains_key(a) && m[a] > 1 {
        m.insert(a, (m[a] - 1) as u64)
    } else {
        m.remove(a)
    }
}

/// `k` further owners taken on.
pub open spec fn retain_times(m: Map<usize, u64>, a: usize, k: nat) -> Map<usize, u64>
    decreases k,
{
    if k == 0 {
        m
    } else {
        retain_count(retain_times(m, a, (k - 1) as nat), a)
    }
}

/// `j` owners given up.
pub open spec fn release_times(m: Map<usize, u64>, a: usize, j: nat) -> Map<usize, u64>
    decreases j,
{
    if j == 0 {
        m
    } else {
        release_count(release_times(m, a, (j - 1) as nat), a)
    }
}

/// How many host owners each live native object has.
///
/// Every entry has at least one owner; an object leaves the table, and must
/// be freed, exactly when its last owner is released.
pub struct HandleTable {
    counts: HashMap<usize, u64>,
}

impl View for HandleTable {
    type V = Map<usize, u64>;

    closed spec fn view(&self) -> Map<usize, u64> {
        self.counts@
    }
}

impl HandleTable {
    /// Every object in the table has an owner.
    pub open spec fn wf(&self) -> bool {
        forall|a: usize| #[trigger] self@.contains_key(a) ==> self@[a] > 0
    }

    /// A table with no live objects.
    pub fn new() -> (r: HandleTable)
        ensures
            r@ == Map::<usize, u64>::empty(),
            r.wf(),
    {
        HandleTable { counts: HashMap::new() }
    }

    /// Records that the host took on one reference to `addr`, either the sole
    /// one of a fresh object or a further one the engine handed out.
    pub fn adopt(&mut self, addr: usize) -> (r: MLXObject)
        requires
            old(self).wf(),
            !old(self)@.contains_key(addr) || old(self)@[addr] < u64::MAX,
        ensures
            r.addr() == addr,
            final(self)@ == retain_count(old(self)@, addr),
            final(self).wf(),
    {
        match self.counts.get(&addr) {
            Some(n) => {
                let n: u64 = *n;
                self.counts.insert(addr, n + 1);
            },
            None => {
                self.counts.insert(addr, 1);
            },
        }
        MLXObject { ptr: addr }
    }

    /// One more owner of a live object.
    pub fn retain(&mut self, addr: usize)
        requires
            old(self).wf(),
            old(self)@.contains_key(addr),
            old(self)@[addr] < u64::MAX,
        ensures
            final(self)@ == retain_count(old(self)@, addr),
            final(self).wf(),
    {
        let n: u64 = *self.counts.get(&addr).unwrap();
        self.counts.insert(addr, n + 1);
    }

    /// One owner fewer; returns whether that was the last one, so that the
    /// object must now be freed.
    pub fn release(&mut self, addr: usize) -> (freed: bool)
        requires
            old(self).wf(),
            old(self)@.contains_key(addr),
        ensures
            final(self)@ == release_count(old(self)@, addr),
            freed == !final(self)@.contains_key(addr),
            final(self).wf(),
    {
        let n: u64 = *self.counts.get(&addr).unwrap();
        if n > 1 {
            self.counts.insert(addr, n - 1);
            false
        } else {
            self.counts.remove(&addr);
            assert(self@ == old(self)@.remove(addr));
            true
        }
    }

    /// Whether the object at `addr` still has an owner.
    pub fn is_live(&self, addr: usize) -> (r: bool)
        ensures
            r == self@.contains_key(addr),
    {
        self.counts.contains_key(&addr)
    }

    /// The number of owners of `addr`; zero for an object not in the table.
    pub fn owners(&self, addr: usize) -> (r: u64)
        ensures
            r == (if self@.contains_key(addr) { self@[addr] } else { 0 }),
    {
        match self.counts.get(&addr) {
            Some(n) => *n,
            None => 0,
        }
    }
}

proof fn lemma_retain_times(m: Map<usize, u64>, a: usize, k: nat)
    requires
        m.contains_key(a),
        m[a] + k <= u64::MAX,
    ensures
        retain_times(m, a, k) == m.insert(a, (m[a] + k) as u64),
    decreases k,
{
    if k > 0 {
        lemma_retain_times(m, a, (k - 1) as nat);
        assert(retain_times(m, a, k) =~= m.insert(a, (m[a] + k) as u64));
    } else {
        assert(m.insert(a, m[a]) =~= m);
    }
}

proof fn lemma_release_times(m: Map<usize, u64>, a: usize, j: nat)
    requires
        m.contains_key(a),
        j < m[a],
    ensures
        release_times(m, a, j) == m.insert(a, (m[a] - j) as u64),
    decreases j,
{
    if j > 0 {
        lemma_release_times(m, a, (j - 1) as nat);
        assert(release_times(m, a, j) =~= m.insert(a, (m[a] - j) as u64));
    } else {
        assert(m.insert(a, m[a]) =~= m);
    }
}

/// A native object that the host took over and then shared `k` times stays
/// alive through any `j <= k` releases, with `k + 1 - j` owners left; the
/// release of the last of the `k + 1` owners frees it and leaves the table as
/// it was before the object was taken over.
pub proof fn lemma_shared_handle_freed_at_last_release(
    m: Map<usize, u64>,
    a: usize,
    k: nat,
    j: nat,
)
    requires
        !m.contains_key(a),
        k < u64::MAX,
        j <= k,
    ensures
        release_times(retain_times(retain_count(m, a), a, k), a, j).contains_key(a),
        release_times(retain_times(retain_count(m, a), a, k), a, j)[a] == k + 1 - j,
        release_times(retain_times(retain_count(m, a), a, k), a, k + 1) == m,
{
    let m1 = retain_count(m, a);
    lemma_retain_times(m1, a, k);
    let full = retain_times(m1, a, k);
    lemma_release_times(full, a, j);
    lemma_release_times(full, a, k);
    assert(release_times(full, a, k + 1) == release_count(release_times(full, a, k), a));
    assert(release_times(full, a, k + 1) =~= m);
}

} // verus!
