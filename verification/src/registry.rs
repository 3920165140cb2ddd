use vstd::prelude::*;

use crate::assoc::AssocVec;
use crate::invocation::{Invocation, InvocationModel};
use crate::queue::{popped, RequestQueue};

verus! {

/// The runtime-API address a function's process polls: the server base
/// address, a slash, and the function name.
pub open spec fn runtime_api_of(base: Seq<char>, name: Seq<char>) -> Seq<char> {
    base + "/"@ + name
}

/// Registry of pending invocations, one FIFO queue per function name.
///
/// A function name is present exactly while its process is believed to
/// be running or about to be started: `upsert` creates the entry and
/// signals "start a process" at most once, `clean` removes it after the
/// process died.
pub struct RequestCache {
    server_addr: String,
    inner: AssocVec<RequestQueue>,
}

impl View for RequestCache {
    type V = Map<Seq<char>, Seq<InvocationModel>>;

    closed spec fn view(&self) -> Map<Seq<char>, Seq<InvocationModel>> {
        self.inner@.map_values(|q: RequestQueue| q@)
    }
}

/// One registry step on the map model: append to the function's queue,
/// creating a singleton queue when the function was absent.
pub open spec fn upsert_model(
    m: Map<Seq<char>, Seq<InvocationModel>>,
    inv: InvocationModel,
) -> Map<Seq<char>, Seq<InvocationModel>> {
    if m.contains_key(inv.function_name) {
        m.insert(inv.function_name, m[inv.function_name].push(inv))
    } else {
        m.insert(inv.function_name, seq![inv])
    }
}

/// Whether submitting `inv` to registry state `m` signals "new function,
/// start its process".
pub open spec fn spawns_process(m: Map<Seq<char>, Seq<InvocationModel>>, inv: InvocationModel) -> bool {
    !m.contains_key(inv.function_name)
}

impl RequestCache {
    /// Well-formed: the underlying association vector stores each
    /// function name at most once.
    pub closed spec fn wf(&self) -> bool {
        self.inner.wf()
    }

    /// The server base address the registry composes runtime-API
    /// addresses from.
    pub closed spec fn addr(&self) -> Seq<char> {
        self.server_addr@
    }

    /// Creates an empty registry over the given server base address.
    pub fn new(server_addr: String) -> (c: RequestCache)
        ensures
            c.wf(),
            c@ == Map::<Seq<char>, Seq<InvocationModel>>::empty(),
            c.addr() == server_addr@,
    {
        let c = RequestCache { server_addr, inner: AssocVec::new() };
        proof {
            assert(c@ =~= Map::<Seq<char>, Seq<InvocationModel>>::empty());
        }
        c
    }

    /// Queues `req` for its function. Returns `Some((name, runtime_api))`
    /// exactly when the function was absent — the signal to start its
    /// process — and `None` when its queue already existed. The presence
    /// check and the insertion are one operation, so the signal is
    /// produced at most once per registered function.
    pub fn upsert(&mut self, req: Invocation) -> (r: Option<(String, String)>)
        requires
            old(self).wf(),
        ensures
            final(self).wf(),
            final(self).addr() == old(self).addr(),
            final(self)@ == upsert_model(old(self)@, req@),
            match r {
                Some((name, api)) => spawns_process(old(self)@, req@) && name@
                    == req@.function_name && api@ == runtime_api_of(
                    old(self).addr(),
                    req@.function_name,
                ),
                None => !spawns_process(old(self)@, req@),
            },
    {
        let name = req.function_name.clone();
        match self.inner.remove(&name) {
            Some(mut q) => {
                q.push(req);
                self.inner.insert(name, q);
                proof {
                    assert(final(self)@ =~= upsert_model(old(self)@, req@));
                }
                None
            },
            None => {
                let api = self.server_addr.clone().concat("/").concat(name.as_str());
                let mut q = RequestQueue::new();
                q.push(req);
                let signal_name = name.clone();
                self.inner.insert(name, q);
                proof {
                    assert(q@ =~= seq![req@]);
                    assert(final(self)@ =~= upsert_model(old(self)@, req@));
                }
                Some((signal_name, api))
            },
        }
    }

    /// Removes and returns the oldest pending invocation of the named
    /// function, or `None` when the function is unknown or its queue is
    /// empty. Never blocks.
    pub fn pop(&mut self, function_name: &str) -> (r: Option<Invocation>)
        requires
            old(self).wf(),
        ensures
            final(self).wf(),
            final(self).addr() == old(self).addr(),
            old(self)@.contains_key(function_name@) ==> {
                &&& final(self)@ == old(self)@.insert(
                    function_name@,
                    popped(old(self)@[function_name@]),
                )
                &&& match r {
                    Some(inv) => old(self)@[function_name@].len() > 0 && inv@ == old(
                        self,
                    )@[function_name@][0],
                    None => old(self)@[function_name@].len() == 0,
                }
            },
            !old(self)@.contains_key(function_name@) ==> r is None && final(self)@ == old(self)@,
    {
        let key = function_name.to_owned();
        match self.inner.remove(&key) {
            None => None,
            Some(mut q) => {
                let r = q.pop();
                self.inner.insert(key, q);
                proof {
                    assert(final(self)@ =~= old(self)@.insert(
                        function_name@,
                        popped(old(self)@[function_name@]),
                    ));
                }
                r
            },
        }
    }

    /// Removes the named function's entry entirely. Called after the
    /// function's process terminated; the next submission for this name
    /// is treated as a first-ever insertion again.
    pub fn clean(&mut self, function_name: &str)
        requires
            old(self).wf(),
        ensures
            final(self).wf(),
            final(self).addr() == old(self).addr(),
            final(self)@ == old(self)@.remove(function_name@),
    {
        let key = function_name.to_owned();
        let _removed = self.inner.remove(&key);
        proof {
            assert(final(self)@ =~= old(self)@.remove(function_name@));
        }
    }
}

/// Submitting a sequence of invocations, first to last.
pub open spec fn submit_all(
    m: Map<Seq<char>, Seq<InvocationModel>>,
    invs: Seq<InvocationModel>,
) -> Map<Seq<char>, Seq<InvocationModel>>
    decreases invs.len(),
{
    if invs.len() == 0 {
        m
    } else {
        submit_all(upsert_model(m, invs[0]), invs.drop_first())
    }
}

/// How many of the submissions in `invs`, applied first to last to `m`,
/// signal "new function".
pub open spec fn spawn_count(
    m: Map<Seq<char>, Seq<InvocationModel>>,
    invs: Seq<InvocationModel>,
) -> nat
    decreases invs.len(),
{
    if invs.len() == 0 {
        0
    } else {
        (if spawns_process(m, invs[0]) {
            1nat
        } else {
            0nat
        }) + spawn_count(upsert_model(m, invs[0]), invs.drop_first())
    }
}

/// FIFO per function: submitting `invs`, all addressed to `name`, leaves
/// that function's queue holding exactly its previous contents followed
/// by `invs` in submission order, and touches no other function's queue.
/// Together with `queue::lemma_fifo_drain`, repeated pops therefore
/// return the submissions in submission order.
pub proof fn lemma_fifo_per_function(
    m: Map<Seq<char>, Seq<InvocationModel>>,
    invs: Seq<InvocationModel>,
    name: Seq<char>,
)
    requires
        forall|i: int| 0 <= i < invs.len() ==> invs[i].function_name == name,
    ensures
        invs.len() > 0 ==> submit_all(m, invs).contains_key(name),
        invs.len() > 0 ==> submit_all(m, invs)[name] =~= (if m.contains_key(name) {
            m[name]
        } else {
            Seq::<InvocationModel>::empty()
        }) + invs,
        forall|k: Seq<char>|
            k != name ==> submit_all(m, invs).contains_key(k) == m.contains_key(k),
        forall|k: Seq<char>|
            k != name && m.contains_key(k) ==> submit_all(m, invs)[k] == m[k],
    decreases invs.len(),
{
    if invs.len() > 0 {
        let m1 = upsert_model(m, invs[0]);
        lemma_fifo_per_function(m1, invs.drop_first(), name);
        assert(submit_all(m, invs) == submit_all(m1, invs.drop_first()));
        assert(invs[0].function_name == name);
        assert(forall|k: Seq<char>| k != name ==> m1.contains_key(k) == m.contains_key(k));
        assert(forall|k: Seq<char>| k != name && m.contains_key(k) ==> m1[k] == m[k]);
        if invs.len() == 1 {
            assert(submit_all(m1, invs.drop_first()) == m1);
            assert(m1[name] =~= (if m.contains_key(name) {
                m[name]
            } else {
                Seq::<InvocationModel>::empty()
            }) + invs);
        } else {
            assert(m1[name] =~= (if m.contains_key(name) {
                m[name]
            } else {
                Seq::<InvocationModel>::empty()
            }) + seq![invs[0]]);
            assert((if m.contains_key(name) {
                m[name]
            } else {
                Seq::<InvocationModel>::empty()
            }) + seq![invs[0]] + invs.drop_first() =~= (if m.contains_key(name) {
                m[name]
            } else {
                Seq::<InvocationModel>::empty()
            }) + invs);
        }
    }
}

/// While a function is registered, further submissions addressed to it
/// never signal "new function".
pub proof fn lemma_no_spawn_while_running(
    m: Map<Seq<char>, Seq<InvocationModel>>,
    invs: Seq<InvocationModel>,
    name: Seq<char>,
)
    requires
        m.contains_key(name),
        forall|i: int| 0 <= i < invs.len() ==> invs[i].function_name == name,
    ensures
        spawn_count(m, invs) == 0,
    decreases invs.len(),
{
    if invs.len() > 0 {
        lemma_no_spawn_while_running(upsert_model(m, invs[0]), invs.drop_first(), name);
    }
}

/// At most one spawn per function: a run of submissions all addressed to
/// a previously-unseen function signals "new function" exactly once —
/// the first submission does, the remaining ones are classified
/// "already running".
pub proof fn lemma_at_most_one_spawn(
    m: Map<Seq<char>, Seq<InvocationModel>>,
    invs: Seq<InvocationModel>,
    name: Seq<char>,
)
    requires
        !m.contains_key(name),
        invs.len() > 0,
        forall|i: int| 0 <= i < invs.len() ==> invs[i].function_name == name,
    ensures
        spawn_count(m, invs) == 1,
{
    lemma_no_spawn_while_running(upsert_model(m, invs[0]), invs.drop_first(), name);
}

/// Registry cleanup: after a function's entry is removed, the next
/// submission for that name signals "new function" again and creates a
/// fresh singleton queue, exactly as a first-ever insertion would.
pub proof fn lemma_clean_rearms_spawn(
    m: Map<Seq<char>, Seq<InvocationModel>>,
    inv: InvocationModel,
)
    ensures
        spawns_process(m.remove(inv.function_name), inv),
        upsert_model(m.remove(inv.function_name), inv)[inv.function_name] == seq![inv],
{
}

} // verus!
