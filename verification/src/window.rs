//! The owning window context a document can be attached to.

use crate::runtime::Runtime;
use crate::wrapper::WrapperCache;
use vstd::prelude::*;

verus! {

/// A window, as the document core uses it: the compartment it lives in,
/// its own proxy (the scope query result collections are bound under), the
/// `document` property of its global object, and its content-changed
/// notification hook.
pub struct Window {
    /// The runtime compartment this window is tied to.
    pub compartment: u64,
    /// The window's own proxy slot on the runtime heap.
    pub wrapper: WrapperCache,
    /// The proxy handle its global object exposes as `document`, once an
    /// attached document has bootstrapped itself onto this window.
    pub document_object: Option<u64>,
    /// How many content-changed notifications this window has received.
    pub content_changes: u64,
}

impl Window {
    /// A window is well formed once it carries its own proxy: query result
    /// collections need that proxy as their parent scope.
    pub open spec fn wf(self) -> bool {
        self.wrapper.handle is Some
    }

    /// A fresh window: a fresh compartment, a fresh proxy on the runtime
    /// heap, no `document` property, no notifications seen.
    pub fn new(rt: &mut Runtime) -> (w: Window)
        requires
            old(rt).next_id < u64::MAX - 1,
        ensures
            w.wf(),
            w.compartment == old(rt).next_id,
            w.wrapper.handle == Some((old(rt).next_id + 1) as u64),
            w.document_object is None,
            w.content_changes == 0,
            final(rt).next_id == old(rt).next_id + 2,
            final(rt).roots@ == old(rt).roots@,
    {
        let compartment = rt.fresh_id();
        let mut wrapper = WrapperCache::new();
        wrapper.wrap(rt);
        Window { compartment, wrapper, document_object: None, content_changes: 0 }
    }

    /// The one-shot bootstrap of the window's `document` global property:
    /// publishes `value` as the proxy scripts will read as `document`.
    /// Later reads go through the runtime's own property lookup, never
    /// through this call again.
    pub fn define_document_property(&mut self, value: u64)
        ensures
            *final(self) == (Window { document_object: Some(value), ..*old(self) }),
    {
        self.document_object = Some(value);
    }

    /// Receives one content-changed notification.
    pub fn content_changed(&mut self)
        requires
            old(self).content_changes < u64::MAX,
        ensures
            *final(self) == (Window {
                content_changes: (old(self).content_changes + 1) as u64,
                ..*old(self)
            }),
    {
        self.content_changes = self.content_changes + 1;
    }
}

} // verus!
