//! A model of the scripting runtime consumed by the document core: a heap
//! that hands out object handles and a garbage-collector root set scoped by
//! compartment.

use vstd::prelude::*;

verus! {

/// One entry of the runtime's root set: `handle` is pinned against garbage
/// collection on behalf of `compartment`.
#[derive(Clone, Copy, PartialEq, Eq, Structural)]
pub struct RootEntry {
    pub compartment: u64,
    pub handle: u64,
}

/// Whether `e` pins `handle` on behalf of `compartment`.
pub open spec fn is_root_for(e: RootEntry, compartment: u64, handle: u64) -> bool {
    e.compartment == compartment && e.handle == handle
}

/// How many entries of `s` pin `handle` on behalf of `compartment`.
pub open spec fn root_count(s: Seq<RootEntry>, compartment: u64, handle: u64) -> nat
    decreases s.len(),
{
    if s.len() == 0 {
        0
    } else {
        (if is_root_for(s[0], compartment, handle) {
            1nat
        } else {
            0nat
        }) + root_count(s.drop_first(), compartment, handle)
    }
}

/// Index of the first entry of `s` that pins `handle` for `compartment`;
/// `s.len()` when no entry does.
pub open spec fn first_root_index(s: Seq<RootEntry>, compartment: u64, handle: u64) -> int
    decreases s.len(),
{
    if s.len() == 0 {
        0
    } else if is_root_for(s[0], compartment, handle) {
        0
    } else {
        1 + first_root_index(s.drop_first(), compartment, handle)
    }
}

/// `root_count` distributes over concatenation of root sets.
pub proof fn lemma_root_count_add(a: Seq<RootEntry>, b: Seq<RootEntry>, compartment: u64, handle: u64)
    ensures
        root_count(a + b, compartment, handle) == root_count(a, compartment, handle) + root_count(
            b,
            compartment,
            handle,
        ),
    decreases a.len(),
{
    if a.len() == 0 {
        assert(a + b =~= b);
    } else {
        assert((a + b).drop_first() =~= a.drop_first() + b);
        lemma_root_count_add(a.drop_first(), b, compartment, handle);
    }
}

/// The count over a one-entry root set is decided by that entry alone.
pub proof fn lemma_root_count_singleton(e: RootEntry, compartment: u64, handle: u64)
    ensures
        root_count(seq![e], compartment, handle) == (if is_root_for(e, compartment, handle) {
            1nat
        } else {
            0nat
        }),
{
    assert(seq![e][0] == e);
    assert(seq![e].drop_first() =~= Seq::<RootEntry>::empty());
    assert(root_count(Seq::<RootEntry>::empty(), compartment, handle) == 0);
}

/// Registering one entry raises the matching count by one exactly when the
/// entry matches, and leaves it unchanged otherwise.
pub proof fn lemma_root_count_push(s: Seq<RootEntry>, e: RootEntry, compartment: u64, handle: u64)
    ensures
        root_count(s.push(e), compartment, handle) == root_count(s, compartment, handle) + (
        if is_root_for(e, compartment, handle) {
            1nat
        } else {
            0nat
        }),
{
    assert(s.push(e) =~= s + seq![e]);
    lemma_root_count_add(s, seq![e], compartment, handle);
    lemma_root_count_singleton(e, compartment, handle);
}

/// When at least one entry matches, `first_root_index` names a matching
/// entry and nothing before it matches.
pub proof fn lemma_first_root_index(s: Seq<RootEntry>, compartment: u64, handle: u64)
    requires
        root_count(s, compartment, handle) > 0,
    ensures
        0 <= first_root_index(s, compartment, handle) < s.len(),
        is_root_for(s[first_root_index(s, compartment, handle)], compartment, handle),
        forall|j: int|
            0 <= j < first_root_index(s, compartment, handle) ==> !is_root_for(
                s[j],
                compartment,
                handle,
            ),
    decreases s.len(),
{
    if !is_root_for(s[0], compartment, handle) {
        lemma_first_root_index(s.drop_first(), compartment, handle);
        assert forall|j: int|
            0 <= j < first_root_index(s, compartment, handle) implies !is_root_for(
            s[j],
            compartment,
            handle,
        ) by {
            if j > 0 {
                assert(s[j] == s.drop_first()[j - 1]);
            }
        }
    }
}

/// A position that matches, with no match before it, is the first matching
/// position.
pub proof fn lemma_first_root_index_at(s: Seq<RootEntry>, compartment: u64, handle: u64, j: int)
    requires
        0 <= j < s.len(),
        is_root_for(s[j], compartment, handle),
        forall|k: int| 0 <= k < j ==> !is_root_for(s[k], compartment, handle),
    ensures
        first_root_index(s, compartment, handle) == j,
    decreases s.len(),
{
    if j > 0 {
        assert forall|k: int| 0 <= k < j - 1 implies !is_root_for(
            s.drop_first()[k],
            compartment,
            handle,
        ) by {
            assert(s.drop_first()[k] == s[k + 1]);
        }
        assert(s.drop_first()[j - 1] == s[j]);
        lemma_first_root_index_at(s.drop_first(), compartment, handle, j - 1);
    }
}

/// Unregistering a matching entry lowers the matching count by exactly one.
pub proof fn lemma_root_count_remove(s: Seq<RootEntry>, compartment: u64, handle: u64, i: int)
    requires
        0 <= i < s.len(),
        is_root_for(s[i], compartment, handle),
    ensures
        root_count(s.remove(i), compartment, handle) == root_count(s, compartment, handle) - 1,
{
    assert(s =~= s.take(i) + seq![s[i]] + s.skip(i + 1));
    assert(s.remove(i) =~= s.take(i) + s.skip(i + 1));
    lemma_root_count_add(s.take(i) + seq![s[i]], s.skip(i + 1), compartment, handle);
    lemma_root_count_add(s.take(i), seq![s[i]], compartment, handle);
    lemma_root_count_add(s.take(i), s.skip(i + 1), compartment, handle);
    lemma_root_count_singleton(s[i], compartment, handle);
}

/// The scripting runtime as the document core sees it: a source of fresh
/// object and compartment identifiers, and the root set that keeps objects
/// alive across garbage collection.
pub struct Runtime {
    /// The next identifier this runtime will hand out; every identifier
    /// below it has been handed out already.
    pub next_id: u64,
    /// The garbage-collector root set, in registration order.
    pub roots: Vec<RootEntry>,
}

impl Runtime {
    /// A runtime with an empty heap and an empty root set.
    pub fn new() -> (rt: Runtime)
        ensures
            rt.next_id == 0,
            rt.roots@ == Seq::<RootEntry>::empty(),
    {
        Runtime { next_id: 0, roots: Vec::new() }
    }

    /// Hands out an identifier never handed out before by this runtime.
    /// Identifiers serve as runtime-heap object handles and as compartment
    /// identities.
    pub fn fresh_id(&mut self) -> (id: u64)
        requires
            old(self).next_id < u64::MAX,
        ensures
            id == old(self).next_id,
            final(self).next_id == old(self).next_id + 1,
            final(self).roots@ == old(self).roots@,
    {
        let id = self.next_id;
        self.next_id = self.next_id + 1;
        id
    }

    /// Registers `handle` as a garbage-collection root on behalf of
    /// `compartment`: the root set grows by exactly that entry.
    pub fn add_root(&mut self, compartment: u64, handle: u64)
        ensures
            final(self).next_id == old(self).next_id,
            final(self).roots@ == old(self).roots@.push(RootEntry { compartment, handle }),
    {
        self.roots.push(RootEntry { compartment, handle });
    }

    /// Unregisters one pairing of `compartment` and `handle` from the root
    /// set: the first matching entry leaves, every other entry stays.
    pub fn remove_root(&mut self, compartment: u64, handle: u64)
        requires
            root_count(old(self).roots@, compartment, handle) > 0,
        ensures
            final(self).next_id == old(self).next_id,
            final(self).roots@ == old(self).roots@.remove(
                first_root_index(old(self).roots@, compartment, handle),
            ),
    {
        proof {
            lemma_first_root_index(self.roots@, compartment, handle);
        }
        let mut i: usize = 0;
        while i < self.roots.len()
            invariant
                *self == *old(self),
                i <= self.roots.len(),
                forall|j: int| 0 <= j < i ==> !is_root_for(self.roots@[j], compartment, handle),
            decreases self.roots.len() - i,
        {
            if self.roots[i].compartment == compartment && self.roots[i].handle == handle {
                proof {
                    lemma_first_root_index_at(self.roots@, compartment, handle, i as int);
                }
                self.roots.remove(i);
                return ;
            }
            i = i + 1;
        }
        proof {
            lemma_first_root_index(self.roots@, compartment, handle);
        }
    }

    /// How many root-set entries pin `handle` for `compartment`; an observer
    /// for callers that audit the pairing of register and unregister calls.
    pub fn count_roots(&self, compartment: u64, handle: u64) -> (n: usize)
        ensures
            n == root_count(self.roots@, compartment, handle),
    {
        let mut n: usize = 0;
        let mut i: usize = 0;
        while i < self.roots.len()
            invariant
                i <= self.roots.len(),
                n == root_count(self.roots@.take(i as int), compartment, handle),
                n <= i,
            decreases self.roots.len() - i,
        {
            proof {
                assert(self.roots@.take(i + 1) =~= self.roots@.take(i as int).push(
                    self.roots@[i as int],
                ));
                lemma_root_count_push(
                    self.roots@.take(i as int),
                    self.roots@[i as int],
                    compartment,
                    handle,
                );
            }
            if self.roots[i].compartment == compartment && self.roots[i].handle == handle {
                n = n + 1;
            }
            i = i + 1;
        }
        proof {
            assert(self.roots@.take(self.roots@.len() as int) =~= self.roots@);
        }
        n
    }
}

} // verus!
