use vstd::prelude::*;
use std::collections::HashMap;
use crate::closure::{bridged, MLXClosure, MLXFunc, Marshal};

verus! {

broadcast use vstd::std_specs::hash::group_hash_axioms;

/// The cache entries after one call of the compiled function registered under
/// `id`: with compilation on, the entry for `id` holds its trace (shapeless
/// or not); with compilation off, nothing is recorded and every call traces.
pub open spec fn traced(m: Map<usize, bool>, enabled: bool, id: usize, shapeless: bool) -> Map<
    usize,
    bool,
> {
    if enabled {
        m.insert(id, shapeless)
    } else {
        m
    }
}

/// The engine's compiled-trace cache as the host drives it: the process-wide
/// switch, and the trace recorded under each function identity.
pub struct CompileCache {
    enabled: bool,
    entries: HashMap<usize, bool>,
}

impl View for CompileCache {
    type V = Map<usize, bool>;

    closed spec fn view(&self) -> Map<usize, bool> {
        self.entries@
    }
}

impl CompileCache {
    /// Whether compilation is switched on.
    pub closed spec fn spec_enabled(&self) -> bool {
        self.enabled
    }

    /// An empty cache, with compilation on.
    pub fn new() -> (r: CompileCache)
        ensures
            r@ == Map::<usize, bool>::empty(),
            r.spec_enabled(),
    {
        CompileCache { enabled: true, entries: HashMap::new() }
    }

    /// Switches compilation on.
    pub fn enable_compile(&mut self)
        ensures
            final(self).spec_enabled(),
            final(self)@ == old(self)@,
    {
        self.enabled = true;
    }

    /// Switches compilation off: compiled functions still run, tracing on
    /// every call.
    pub fn disable_compile(&mut self)
        ensures
            !final(self).spec_enabled(),
            final(self)@ == old(self)@,
    {
        self.enabled = false;
    }

    /// Whether compilation is switched on.
    pub fn is_enabled(&self) -> (r: bool)
        ensures
            r == self.spec_enabled(),
    {
        self.enabled
    }

    /// Whether a trace is recorded under `id`.
    pub fn contains(&self, id: usize) -> (r: bool)
        ensures
            r == self@.contains_key(id),
    {
        self.entries.contains_key(&id)
    }

    /// Records the trace of one call under `id`; returns whether a trace
    /// recorded by an earlier call was there to replay.
    pub fn trace(&mut self, id: usize, shapeless: bool) -> (reused: bool)
        ensures
            final(self)@ == traced(old(self)@, old(self).spec_enabled(), id, shapeless),
            final(self).spec_enabled() == old(self).spec_enabled(),
            reused == (old(self).spec_enabled() && old(self)@.contains_key(id)),
    {
        if self.enabled {
            let found = self.entries.contains_key(&id);
            self.entries.insert(id, shapeless);
            found
        } else {
            false
        }
    }

    /// Drops the trace recorded under `id`, if any.
    pub fn erase(&mut self, id: usize)
        ensures
            final(self)@ == old(self)@.remove(id),
            final(self).spec_enabled() == old(self).spec_enabled(),
    {
        self.entries.remove(&id);
    }
}

/// A host function compiled by the engine: calls replay the trace cached
/// under the function's identity instead of tracing anew.
pub struct CompileFunc<F, IN, OUT> {
    f: MLXClosure<F, IN, OUT>,
    id: usize,
    shapeless: bool,
}

impl<F: MLXFunc<IN, OUT>, IN: Marshal, OUT: Marshal> CompileFunc<F, IN, OUT> {
    /// The compiled host function.
    pub closed spec fn func(&self) -> F {
        self.f.func()
    }

    /// The identity the trace is cached under.
    pub closed spec fn spec_id(&self) -> usize {
        self.id
    }

    /// Whether the trace may be replayed on inputs of other shapes.
    pub closed spec fn spec_shapeless(&self) -> bool {
        self.shapeless
    }

    /// Compiles `f`; its trace is cached under the identity `f` reports.
    pub fn new(f: F, shapeless: bool) -> (r: Self)
        ensures
            r.func() == f,
            r.spec_id() == f.spec_id(),
            r.spec_shapeless() == shapeless,
    {
        let id = f.id();
        CompileFunc { f: MLXClosure::new(f), id, shapeless }
    }

    /// The identity the trace is cached under.
    pub fn id(&self) -> (r: usize)
        ensures
            r == self.spec_id(),
    {
        self.id
    }

    /// Runs the compiled function: the trace for its identity is recorded or
    /// replayed, and the result is one the uncompiled function gives.
    pub fn apply(&self, cache: &mut CompileCache, input: IN) -> (r: OUT)
        ensures
            bridged(self.func(), input, r),
            final(cache)@ == traced(
                old(cache)@,
                old(cache).spec_enabled(),
                self.spec_id(),
                self.spec_shapeless(),
            ),
            final(cache).spec_enabled() == old(cache).spec_enabled(),
    {
        cache.trace(self.id, self.shapeless);
        self.f.apply(input)
    }

    /// Gives up the compiled function and drops its cached trace, so that
    /// compiling and dropping functions leaves no stale entry behind.
    pub fn release(self, cache: &mut CompileCache)
        ensures
            final(cache)@ == old(cache)@.remove(self.spec_id()),
            !final(cache)@.contains_key(self.spec_id()),
            final(cache).spec_enabled() == old(cache).spec_enabled(),
    {
        cache.erase(self.id);
    }
}

/// Compiles `f`; `shapeless` lets one trace serve inputs of any shape, which
/// is sound only where the function's work does not depend on shapes.
pub fn compile<F: MLXFunc<IN, OUT>, IN: Marshal, OUT: Marshal>(f: F, shapeless: bool) -> (r:
    CompileFunc<F, IN, OUT>)
    ensures
        r.func() == f,
        r.spec_id() == f.spec_id(),
        r.spec_shapeless() == shapeless,
{
    CompileFunc::new(f, shapeless)
}

/// With compilation on, the second call of a compiled function under one
/// identity finds the first call's trace and leaves the cache as the first
/// call left it.
pub proof fn lemma_second_call_replays(m: Map<usize, bool>, id: usize, shapeless: bool)
    ensures
        traced(m, true, id, shapeless).contains_key(id),
        traced(traced(m, true, id, shapeless), true, id, shapeless) == traced(
            m,
            true,
            id,
            shapeless,
        ),
{
    assert(traced(traced(m, true, id, shapeless), true, id, shapeless) =~= traced(
        m,
        true,
        id,
        shapeless,
    ));
}

/// Calling a newly compiled function and then dropping it leaves the cache as
/// it was, where it held nothing under that identity before, whether
/// compilation is on or off.
pub proof fn lemma_release_restores_cache(m: Map<usize, bool>, id: usize, shapeless: bool)
    requires
        !m.contains_key(id),
    ensures
        traced(m, true, id, shapeless).remove(id) == m,
        traced(m, false, id, shapeless).remove(id) == m,
{
    assert(traced(m, true, id, shapeless).remove(id) =~= m);
    assert(traced(m, false, id, shapeless).remove(id) =~= m);
}

} // verus!
