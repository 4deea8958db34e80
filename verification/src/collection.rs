//! Query result collections: immutable snapshots of matched nodes.

use vstd::prelude::*;

verus! {

/// The result of one element query: the identities of the matched nodes,
/// in preorder discovery order, bound under the owning window's proxy as
/// parent scope. A collection is a snapshot — it is built fresh per query
/// and no later change of the tree reaches into it.
pub struct HtmlCollection {
    /// Identities of the matched nodes, in discovery order.
    pub members: Vec<u64>,
    /// The proxy handle of the scope this collection is bound under.
    pub scope: u64,
}

impl HtmlCollection {
    /// Binds a finished member list under `scope`.
    pub fn new(members: Vec<u64>, scope: u64) -> (c: HtmlCollection)
        ensures
            c.members@ == members@,
            c.scope == scope,
    {
        HtmlCollection { members, scope }
    }

    /// How many nodes matched.
    #[allow(non_snake_case)]
    pub fn Length(&self) -> (n: usize)
        ensures
            n == self.members@.len(),
    {
        self.members.len()
    }
}

} // verus!
