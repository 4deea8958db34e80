//! The document tree as the query engine reads it: identity, tag name,
//! element capability, attributes, ordered children, and the wrapper slot
//! that exposes a node to scripts.

use crate::wrapper::WrapperCache;
use vstd::prelude::*;

verus! {

/// One attribute of an element: a name mapped to a string value.
pub struct Attr {
    pub name: String,
    pub value: String,
}

/// A node of the host document tree. Traversal is read-only from this
/// core's perspective: queries walk `children` and never reassign them.
pub struct Node {
    /// The node's identity; query results report matched nodes by it.
    pub id: u64,
    /// The node's tag name.
    pub tag: String,
    /// Whether the node carries the element capability; only such nodes
    /// can match a query.
    pub element: bool,
    /// The node's attributes, in document order.
    pub attrs: Vec<Attr>,
    /// The node's children, left to right.
    pub children: Vec<Node>,
    /// The slot holding the node's script-facing proxy handle.
    pub wrapper: WrapperCache,
}

/// Value of the first attribute of `attrs` named `key`, or nothing when no
/// attribute carries that name.
pub open spec fn attr_value(attrs: Seq<Attr>, key: Seq<char>) -> Option<Seq<char>>
    decreases attrs.len(),
{
    if attrs.len() == 0 {
        None
    } else if attrs[0].name@ == key {
        Some(attrs[0].value@)
    } else {
        attr_value(attrs.drop_first(), key)
    }
}

impl Node {
    /// The first attribute named `key`, exactly as `attr_value` reads the
    /// attribute list.
    pub fn get_attr<'a>(&'a self, key: &String) -> (r: Option<&'a String>)
        ensures
            match r {
                Some(v) => attr_value(self.attrs@, key@) == Some(v@),
                None => attr_value(self.attrs@, key@) is None,
            },
    {
        proof {
            assert(self.attrs@.skip(0) =~= self.attrs@);
        }
        let mut i: usize = 0;
        while i < self.attrs.len()
            invariant
                i <= self.attrs.len(),
                attr_value(self.attrs@, key@) == attr_value(self.attrs@.skip(i as int), key@),
            decreases self.attrs.len() - i,
        {
            proof {
                assert(self.attrs@.skip(i as int)[0] == self.attrs@[i as int]);
            }
            if self.attrs[i].name == *key {
                return Some(&self.attrs[i].value);
            }
            proof {
                assert(self.attrs@.skip(i as int).drop_first() =~= self.attrs@.skip(i + 1));
            }
            i = i + 1;
        }
        proof {
            assert(self.attrs@.skip(i as int).len() == 0);
        }
        None
    }
}

} // verus!
