use vstd::prelude::*;

use crate::assoc::AssocVec;

verus! {

/// Registry of single-use completion handles, keyed by request
/// identifier.
///
/// The handle type `V` is whatever the caller layer blocks on; the
/// scheduler core only stores it and hands it out exactly once. `push`
/// stores a handle (silently overwriting a reused identifier), `pop`
/// atomically removes and returns it, so a duplicate or stale delivery
/// finds nothing.
pub struct ResponseCache<V> {
    inner: AssocVec<V>,
}

impl<V> View for ResponseCache<V> {
    type V = Map<Seq<char>, V>;

    closed spec fn view(&self) -> Map<Seq<char>, V> {
        self.inner@
    }
}

impl<V> ResponseCache<V> {
    /// Well-formed: each identifier is stored at most once.
    pub closed spec fn wf(&self) -> bool {
        self.inner.wf()
    }

    /// Creates an empty cache.
    pub fn new() -> (c: ResponseCache<V>)
        ensures
            c.wf(),
            c@ == Map::<Seq<char>, V>::empty(),
    {
        ResponseCache { inner: AssocVec::new() }
    }

    /// Stores `handle` under `req_id`, overwriting any handle already
    /// stored under that identifier.
    pub fn push(&mut self, req_id: &str, handle: V)
        requires
            old(self).wf(),
        ensures
            final(self).wf(),
            final(self)@ == old(self)@.insert(req_id@, handle),
    {
        let key = req_id.to_owned();
        let _stale = self.inner.remove(&key);
        self.inner.insert(key, handle);
        proof {
            assert(final(self)@ =~= old(self)@.insert(req_id@, handle));
        }
    }

    /// Removes and returns the handle stored under `req_id`, or `None`
    /// when the identifier is unknown — already consumed or never
    /// registered — in which case the cache is unchanged.
    pub fn pop(&mut self, req_id: &str) -> (r: Option<V>)
        requires
            old(self).wf(),
        ensures
            final(self).wf(),
            match r {
                Some(handle) => old(self)@.contains_key(req_id@) && handle == old(self)@[req_id@]
                    && final(self)@ == old(self)@.remove(req_id@),
                None => !old(self)@.contains_key(req_id@) && final(self)@ == old(self)@,
            },
    {
        let key = req_id.to_owned();
        self.inner.remove(&key)
    }
}

/// What one `pop` hands out on the map model.
pub open spec fn pop_model<V>(m: Map<Seq<char>, V>, id: Seq<char>) -> Option<V> {
    if m.contains_key(id) {
        Some(m[id])
    } else {
        None
    }
}

/// The map left behind by one `pop`.
pub open spec fn after_pop<V>(m: Map<Seq<char>, V>, id: Seq<char>) -> Map<Seq<char>, V> {
    m.remove(id)
}

/// Response hand-off idempotence: resolving an identifier consumes its
/// handle, so resolving the same identifier again finds nothing — the
/// second delivery is a no-op and leaves the cache as the first left it.
pub proof fn lemma_resolve_at_most_once<V>(m: Map<Seq<char>, V>, id: Seq<char>)
    ensures
        pop_model(after_pop(m, id), id) is None,
        after_pop(after_pop(m, id), id) == after_pop(m, id),
{
    assert(after_pop(after_pop(m, id), id) =~= after_pop(m, id));
}

/// Unknown identifier is safe: popping an identifier that was never
/// registered finds nothing and has no effect on the cache.
pub proof fn lemma_unknown_id_no_effect<V>(m: Map<Seq<char>, V>, id: Seq<char>)
    requires
        !m.contains_key(id),
    ensures
        pop_model(m, id) is None,
        after_pop(m, id) == m,
{
    assert(after_pop(m, id) =~= m);
}

} // verus!
