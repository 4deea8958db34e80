//! The query engine: preorder traversal of the document tree and the
//! predicate matching behind element lookup. Results are snapshots — a
//! fresh sequence of node identities built per call, in preorder discovery
//! order.

use crate::tree::{attr_value, Node};
use vstd::prelude::*;

verus! {

/// Every node of the subtree rooted at `n`, in preorder: a node stands
/// before its descendants, children left to right.
pub open spec fn preorder(n: Node) -> Seq<Node>
    decreases n,
{
    seq![n] + preorder_forest(n.children@)
}

/// The preorder listings of a forest's trees, concatenated left to right.
pub open spec fn preorder_forest(s: Seq<Node>) -> Seq<Node>
    decreases s,
{
    if s.len() == 0 {
        Seq::empty()
    } else {
        preorder(s[0]) + preorder_forest(s.subrange(1, s.len() as int))
    }
}

/// Whether `n` matches a tag-name query for `tag`: it carries the element
/// capability and its tag name equals `tag` exactly, case sensitively.
pub open spec fn tag_matches(n: Node, tag: Seq<char>) -> bool {
    n.element && n.tag@ == tag
}

/// Whether `n` matches a name query for `q`: it carries the element
/// capability and its `name` attribute holds exactly `q`. A node without
/// that attribute never matches.
pub open spec fn name_matches(n: Node, q: Seq<char>) -> bool {
    n.element && attr_value(n.attrs@, "name"@) == Some(q)
}

/// The tag-name predicate as a value, so that every contract speaks of one
/// and the same closure.
pub open spec fn tag_pred(tag: Seq<char>) -> spec_fn(Node) -> bool {
    |m: Node| tag_matches(m, tag)
}

/// The name-attribute predicate as a value.
pub open spec fn name_pred(q: Seq<char>) -> spec_fn(Node) -> bool {
    |m: Node| name_matches(m, q)
}

/// Identities of the nodes of `s`, in order.
pub open spec fn ids_of(s: Seq<Node>) -> Seq<u64> {
    s.map_values(|m: Node| m.id)
}

/// Identities of the nodes of the subtree rooted at `n` that satisfy `p`,
/// in preorder discovery order.
pub open spec fn matches_in_tree(n: Node, p: spec_fn(Node) -> bool) -> Seq<u64>
    decreases n,
{
    let rest = matches_in_forest(n.children@, p);
    if p(n) {
        seq![n.id] + rest
    } else {
        rest
    }
}

/// Matching identities over a forest, trees left to right.
pub open spec fn matches_in_forest(s: Seq<Node>, p: spec_fn(Node) -> bool) -> Seq<u64>
    decreases s,
{
    if s.len() == 0 {
        Seq::empty()
    } else {
        matches_in_tree(s[0], p) + matches_in_forest(s.subrange(1, s.len() as int), p)
    }
}

/// What a tag-name query reports for the subtree rooted at `n`.
pub open spec fn elements_by_tag(n: Node, tag: Seq<char>) -> Seq<u64> {
    matches_in_tree(n, tag_pred(tag))
}

/// What a name query reports for the subtree rooted at `n`.
pub open spec fn elements_by_name(n: Node, q: Seq<char>) -> Seq<u64> {
    matches_in_tree(n, name_pred(q))
}

/// Extending a forest on the right extends its matches on the right.
pub proof fn lemma_matches_in_forest_push(s: Seq<Node>, x: Node, p: spec_fn(Node) -> bool)
    ensures
        matches_in_forest(s.push(x), p) == matches_in_forest(s, p) + matches_in_tree(x, p),
    decreases s.len(),
{
    if s.len() == 0 {
        assert(s.push(x)[0] == x);
        assert(s.push(x).subrange(1, 1) =~= Seq::<Node>::empty());
        assert(matches_in_forest(Seq::<Node>::empty(), p) == Seq::<u64>::empty());
        assert(matches_in_forest(s, p) + matches_in_tree(x, p) =~= matches_in_tree(x, p));
        assert(matches_in_tree(x, p) + Seq::<u64>::empty() =~= matches_in_tree(x, p));
    } else {
        assert(s.push(x)[0] == s[0]);
        assert(s.push(x).subrange(1, s.push(x).len() as int) =~= s.subrange(
            1,
            s.len() as int,
        ).push(x));
        lemma_matches_in_forest_push(s.subrange(1, s.len() as int), x, p);
        assert(matches_in_tree(s[0], p) + (matches_in_forest(s.subrange(1, s.len() as int), p)
            + matches_in_tree(x, p)) =~= (matches_in_tree(s[0], p) + matches_in_forest(
            s.subrange(1, s.len() as int),
            p,
        )) + matches_in_tree(x, p));
    }
}

/// Filtering a one-node listing keeps the node exactly when it matches.
proof fn lemma_filter_singleton(x: Node, p: spec_fn(Node) -> bool)
    ensures
        seq![x].filter(p) == (if p(x) {
            seq![x]
        } else {
            Seq::<Node>::empty()
        }),
{
    reveal_with_fuel(Seq::<_>::filter, 2);
    assert(seq![x].drop_last() =~= Seq::<Node>::empty());
    assert(seq![x].last() == x);
    if p(x) {
        assert(Seq::<Node>::empty().filter(p).push(x) =~= seq![x]);
    }
}

/// A filter that no member satisfies keeps nothing.
proof fn lemma_filter_all_false(s: Seq<Node>, p: spec_fn(Node) -> bool)
    requires
        forall|i: int| 0 <= i < s.len() ==> !p(#[trigger] s[i]),
    ensures
        s.filter(p) == Seq::<Node>::empty(),
    decreases s.len(),
{
    reveal_with_fuel(Seq::<_>::filter, 2);
    if s.len() == 0 {
        assert(s =~= Seq::<Node>::empty());
    } else {
        assert(s.last() == s[s.len() - 1]);
        assert forall|i: int| 0 <= i < s.drop_last().len() implies !p(#[trigger] s.drop_last()[i]) by {
            assert(s.drop_last()[i] == s[i]);
        }
        lemma_filter_all_false(s.drop_last(), p);
    }
}

/// Taking identities distributes over concatenation of node listings.
proof fn lemma_ids_of_add(a: Seq<Node>, b: Seq<Node>)
    ensures
        ids_of(a + b) == ids_of(a) + ids_of(b),
{
    assert(ids_of(a + b) =~= ids_of(a) + ids_of(b));
}

/// Matches are reported in preorder: what a query reports for the subtree
/// rooted at `n` is exactly the preorder listing of that subtree, filtered
/// by the query's predicate and reduced to node identities.
pub proof fn lemma_matches_in_preorder(n: Node, p: spec_fn(Node) -> bool)
    ensures
        matches_in_tree(n, p) == ids_of(preorder(n).filter(p)),
    decreases n,
{
    lemma_matches_in_preorder_forest(n.children@, p);
    Seq::filter_distributes_over_add(seq![n], preorder_forest(n.children@), p);
    lemma_filter_singleton(n, p);
    lemma_ids_of_add(seq![n].filter(p), preorder_forest(n.children@).filter(p));
    if p(n) {
        assert(ids_of(seq![n]) =~= seq![n.id]);
    } else {
        assert(ids_of(Seq::<Node>::empty()) =~= Seq::<u64>::empty());
        assert(Seq::<u64>::empty() + ids_of(preorder_forest(n.children@).filter(p)) =~= ids_of(
            preorder_forest(n.children@).filter(p),
        ));
    }
}

/// The forest form of `lemma_matches_in_preorder`.
pub proof fn lemma_matches_in_preorder_forest(s: Seq<Node>, p: spec_fn(Node) -> bool)
    ensures
        matches_in_forest(s, p) == ids_of(preorder_forest(s).filter(p)),
    decreases s,
{
    if s.len() == 0 {
        reveal_with_fuel(Seq::<_>::filter, 1);
        assert(Seq::<Node>::empty().filter(p) =~= Seq::<Node>::empty());
        assert(ids_of(Seq::<Node>::empty()) =~= Seq::<u64>::empty());
    } else {
        let rest = s.subrange(1, s.len() as int);
        lemma_matches_in_preorder(s[0], p);
        lemma_matches_in_preorder_forest(rest, p);
        Seq::filter_distributes_over_add(preorder(s[0]), preorder_forest(rest), p);
        lemma_ids_of_add(preorder(s[0]).filter(p), preorder_forest(rest).filter(p));
    }
}

/// Reducing an empty node listing to identities yields nothing.
proof fn lemma_ids_of_empty()
    ensures
        ids_of(Seq::<Node>::empty()) == Seq::<u64>::empty(),
{
    assert(ids_of(Seq::<Node>::empty()) =~= Seq::<u64>::empty());
}

/// A query whose predicate no node of the subtree satisfies reports the
/// empty sequence.
pub proof fn lemma_no_match_is_empty(n: Node, p: spec_fn(Node) -> bool)
    requires
        forall|i: int| 0 <= i < preorder(n).len() ==> !p(#[trigger] preorder(n)[i]),
    ensures
        matches_in_tree(n, p) == Seq::<u64>::empty(),
{
    lemma_matches_in_preorder(n, p);
    lemma_filter_all_false(preorder(n), p);
    lemma_ids_of_empty();
}

/// Name queries are exact matches: an element whose `name` attribute holds
/// `v` matches the query `q` exactly when `v` equals `q`, character for
/// character.
pub proof fn lemma_name_match_exact(m: Node, v: Seq<char>, q: Seq<char>)
    requires
        m.element,
        attr_value(m.attrs@, "name"@) == Some(v),
    ensures
        name_matches(m, q) <==> v == q,
{
}

/// Query results are snapshots of an unmodified tree: two runs of the same
/// predicate over the same tree report identical sequences.
pub proof fn lemma_repeated_query_identical(
    n: Node,
    p: spec_fn(Node) -> bool,
    a: Seq<u64>,
    b: Seq<u64>,
)
    requires
        a == matches_in_tree(n, p),
        b == matches_in_tree(n, p),
    ensures
        a == b,
{
}

/// Appends to `out` the identities of the nodes of the subtree rooted at
/// `n` whose tag name equals `tag` exactly, in preorder discovery order.
pub(crate) fn collect_by_tag(n: &Node, tag: &String, out: &mut Vec<u64>)
    ensures
        final(out)@ == old(out)@ + matches_in_tree(*n, tag_pred(tag@)),
    decreases *n,
{
    let ghost p = tag_pred(tag@);
    if n.element && n.tag == *tag {
        out.push(n.id);
        proof {
            assert(out@ =~= old(out)@ + seq![n.id]);
        }
    } else {
        proof {
            assert(out@ =~= old(out)@ + Seq::<u64>::empty());
        }
    }
    let ghost head: Seq<u64> = if p(*n) {
        seq![n.id]
    } else {
        Seq::<u64>::empty()
    };
    proof {
        assert(n.children@.subrange(0, 0) =~= Seq::<Node>::empty());
        assert(matches_in_forest(n.children@.subrange(0, 0), p) == Seq::<u64>::empty());
        assert(out@ =~= old(out)@ + head + matches_in_forest(n.children@.subrange(0, 0), p));
    }
    let mut i: usize = 0;
    while i < n.children.len()
        invariant
            i <= n.children.len(),
            p == tag_pred(tag@),
            head == (if p(*n) {
                seq![n.id]
            } else {
                Seq::<u64>::empty()
            }),
            out@ == old(out)@ + head + matches_in_forest(n.children@.subrange(0, i as int), p),
        decreases n.children.len() - i,
    {
        let ghost done = n.children@.subrange(0, i as int);
        collect_by_tag(&n.children[i], tag, out);
        proof {
            assert(n.children@.subrange(0, i + 1) =~= done.push(n.children@[i as int]));
            lemma_matches_in_forest_push(done, n.children@[i as int], p);
            assert((old(out)@ + head + matches_in_forest(done, p)) + matches_in_tree(
                n.children@[i as int],
                p,
            ) =~= old(out)@ + head + (matches_in_forest(done, p) + matches_in_tree(
                n.children@[i as int],
                p,
            )));
        }
        i = i + 1;
    }
    proof {
        assert(n.children@.subrange(0, n.children@.len() as int) =~= n.children@);
        if p(*n) {
            assert(out@ =~= old(out)@ + (seq![n.id] + matches_in_forest(n.children@, p)));
        } else {
            assert(out@ =~= old(out)@ + matches_in_forest(n.children@, p));
        }
    }
}

/// Appends to `out` the identities of the nodes of the subtree rooted at
/// `n` whose `name` attribute holds exactly `query`, in preorder discovery
/// order. `key` must hold the attribute name `name`.
pub(crate) fn collect_by_name(n: &Node, key: &String, query: &String, out: &mut Vec<u64>)
    requires
        key@ == "name"@,
    ensures
        final(out)@ == old(out)@ + matches_in_tree(*n, name_pred(query@)),
    decreases *n,
{
    let ghost p = name_pred(query@);
    let mut pushed = false;
    if n.element {
        match n.get_attr(key) {
            Some(v) => {
                if *v == *query {
                    out.push(n.id);
                    pushed = true;
                }
            },
            None => {},
        }
    }
    proof {
        assert(pushed == p(*n));
        if pushed {
            assert(out@ =~= old(out)@ + seq![n.id]);
        } else {
            assert(out@ =~= old(out)@ + Seq::<u64>::empty());
        }
    }
    let ghost head: Seq<u64> = if p(*n) {
        seq![n.id]
    } else {
        Seq::<u64>::empty()
    };
    proof {
        assert(n.children@.subrange(0, 0) =~= Seq::<Node>::empty());
        assert(matches_in_forest(n.children@.subrange(0, 0), p) == Seq::<u64>::empty());
        assert(out@ =~= old(out)@ + head + matches_in_forest(n.children@.subrange(0, 0), p));
    }
    let mut i: usize = 0;
    while i < n.children.len()
        invariant
            i <= n.children.len(),
            key@ == "name"@,
            p == name_pred(query@),
            head == (if p(*n) {
                seq![n.id]
            } else {
                Seq::<u64>::empty()
            }),
            out@ == old(out)@ + head + matches_in_forest(n.children@.subrange(0, i as int), p),
        decreases n.children.len() - i,
    {
        let ghost done = n.children@.subrange(0, i as int);
        collect_by_name(&n.children[i], key, query, out);
        proof {
            assert(n.children@.subrange(0, i + 1) =~= done.push(n.children@[i as int]));
            lemma_matches_in_forest_push(done, n.children@[i as int], p);
            assert((old(out)@ + head + matches_in_forest(done, p)) + matches_in_tree(
                n.children@[i as int],
                p,
            ) =~= old(out)@ + head + (matches_in_forest(done, p) + matches_in_tree(
                n.children@[i as int],
                p,
            )));
        }
        i = i + 1;
    }
    proof {
        assert(n.children@.subrange(0, n.children@.len() as int) =~= n.children@);
        if p(*n) {
            assert(out@ =~= old(out)@ + (seq![n.id] + matches_in_forest(n.children@, p)));
        } else {
            assert(out@ =~= old(out)@ + matches_in_forest(n.children@, p));
        }
    }
}

} // verus!
