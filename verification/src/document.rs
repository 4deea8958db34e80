//! The document: root ownership, self-wrapping, rooting against the owning
//! window's compartment, the one-time `document` bootstrap, queries, and
//! teardown.

use crate::bindings::{dom_text, DOMString, ErrorResult, Event, Unimplemented, VisibilityState};
use crate::collection::HtmlCollection;
use crate::query::{
    collect_by_name, collect_by_tag, elements_by_name, elements_by_tag, matches_in_tree, name_pred,
    tag_pred,
};
use crate::runtime::{
    first_root_index, lemma_first_root_index, lemma_root_count_push, lemma_root_count_remove,
    root_count, RootEntry, Runtime,
};
use crate::tree::{Attr, Node};
use crate::window::Window;
use crate::wrapper::WrapperCache;
use vstd::prelude::*;

verus! {

/// A document. It exclusively owns its root node (set at construction,
/// never reassigned), owns its wrapper slot, and holds the owning window
/// it was attached to, if any. The compartment is captured from that
/// window at construction and stored; teardown unregisters from the
/// stored compartment and never re-derives it.
pub struct Document {
    /// The root of the document tree.
    pub root: Node,
    /// The document's own proxy slot, filled at construction.
    pub wrapper: WrapperCache,
    /// The owning window, when the document was built attached.
    pub window: Option<Window>,
    /// The compartment captured at construction, present exactly when a
    /// window is.
    pub compartment: Option<u64>,
    /// Whether teardown has run. The lifecycle is one way: constructed,
    /// then torn down at most once.
    pub torn_down: bool,
}

/// Builds a document over `root`, owned by `window` when one is given:
/// roots the tree's root entity against the window's compartment, wraps
/// the document itself into the runtime heap, and publishes the document's
/// proxy as the window's `document` property — the one-time bootstrap.
///
/// An attached construction demands a root that was already wrapped; an
/// unwrapped root would mean rooting an entity scripts cannot reach, a
/// fatal misuse, so the contract excludes it.
#[allow(non_snake_case)]
pub fn Document(rt: &mut Runtime, root: Node, window: Option<Window>) -> (doc: Document)
    requires
        window matches Some(w) ==> w.wf() && root.wrapper.handle is Some,
        old(rt).next_id < u64::MAX,
    ensures
        doc.wf(),
        doc.root == root,
        !doc.torn_down,
        doc.wrapper.handle == Some(old(rt).next_id),
        final(rt).next_id == old(rt).next_id + 1,
        window is None ==> doc.window is None && doc.compartment is None && final(rt).roots@
            == old(rt).roots@,
        window matches Some(w) ==> doc.compartment == Some(w.compartment) && final(rt).roots@
            == old(rt).roots@.push(
            RootEntry { compartment: w.compartment, handle: root.wrapper.handle->0 },
        ) && doc.window == Some(
            (Window { document_object: Some(old(rt).next_id), ..w }),
        ),
{
    let mut compartment: Option<u64> = None;
    match &window {
        Some(w) => {
            let handle = root.wrapper.get().unwrap();
            rt.add_root(w.compartment, handle);
            compartment = Some(w.compartment);
        },
        None => {},
    }
    let mut wrapper = WrapperCache::new();
    let self_handle = wrapper.wrap(rt);
    let mut window = window;
    match &mut window {
        Some(w) => {
            w.define_document_property(self_handle);
        },
        None => {},
    }
    Document { root, wrapper, window, compartment, torn_down: false }
}

impl Document {
    /// Well-formedness, established by both constructors and preserved by
    /// every operation: the document is wrapped; a window is held exactly
    /// when a compartment was captured, and then the stored compartment is
    /// the window's and the rooted entity was wrapped.
    pub open spec fn wf(self) -> bool {
        &&& self.wrapper.handle is Some
        &&& (self.window is Some <==> self.compartment is Some)
        &&& (self.window matches Some(w) ==> w.wf() && self.compartment == Some(w.compartment))
        &&& (self.window is Some ==> self.root.wrapper.handle is Some)
    }

    /// The script-facing constructor: synthesizes a minimal root element
    /// with the fixed tag `html` and no attributes, wraps it, and builds a
    /// detached document — never rooted against a window, never published
    /// as any window's `document` property. The owner only supplies the
    /// runtime context; it is not touched.
    #[allow(non_snake_case)]
    pub fn Constructor(_owner: &Window, rt: &mut Runtime, rv: &mut ErrorResult) -> (doc: Document)
        requires
            old(rt).next_id < u64::MAX - 2,
        ensures
            doc.wf(),
            !doc.torn_down,
            doc.window is None,
            doc.compartment is None,
            doc.root.tag@ == "html"@,
            doc.root.element,
            doc.root.attrs@ == Seq::<Attr>::empty(),
            doc.root.children@ == Seq::<Node>::empty(),
            doc.root.wrapper.handle is Some,
            final(rt).roots@ == old(rt).roots@,
            final(rt).next_id == old(rt).next_id + 3,
            *final(rv) == *old(rv),
    {
        let id = rt.fresh_id();
        let mut wrapper = WrapperCache::new();
        wrapper.wrap(rt);
        let root = Node {
            id,
            tag: "html".to_owned(),
            element: true,
            attrs: Vec::new(),
            children: Vec::new(),
            wrapper,
        };
        Document(rt, root, None)
    }

    /// The document's wrapper slot.
    pub fn get_wrappercache(&self) -> (r: &WrapperCache)
        ensures
            *r == self.wrapper,
    {
        &self.wrapper
    }

    /// Wraps the document itself, under the wrapper slot's idempotent
    /// identity policy: the handle filled at construction is returned
    /// unchanged on every call.
    pub fn wrap_object_shared(&mut self, rt: &mut Runtime) -> (h: u64)
        requires
            old(self).wrapper.handle is None ==> old(rt).next_id < u64::MAX,
        ensures
            final(self).wrapper.handle == Some(h),
            final(self).root == old(self).root,
            final(self).window == old(self).window,
            final(self).compartment == old(self).compartment,
            final(self).torn_down == old(self).torn_down,
            old(self).wrapper.handle matches Some(h0) ==> h == h0 && *final(self) == *old(self)
                && *final(rt) == *old(rt),
            old(self).wrapper.handle is None ==> h == old(rt).next_id && final(rt).next_id == old(
                rt,
            ).next_id + 1 && final(rt).roots@ == old(rt).roots@,
    {
        self.wrapper.wrap(rt)
    }

    /// The binding parent of this document: its owning window. Asking a
    /// detached document for a parent object is a fatal misuse, excluded
    /// by contract.
    #[allow(non_snake_case)]
    pub fn GetParentObject(&self) -> (r: &Window)
        requires
            self.window is Some,
        ensures
            *r == self.window->0,
    {
        self.window.as_ref().unwrap()
    }

    #[allow(non_snake_case)]
    pub fn URL(&self) -> (r: DOMString)
        ensures
            r is Null,
    {
        DOMString::Null
    }

    #[allow(non_snake_case)]
    pub fn DocumentURI(&self) -> (r: DOMString)
        ensures
            r is Null,
    {
        DOMString::Null
    }

    #[allow(non_snake_case)]
    pub fn CompatMode(&self) -> (r: DOMString)
        ensures
            r is Null,
    {
        DOMString::Null
    }

    #[allow(non_snake_case)]
    pub fn CharacterSet(&self) -> (r: DOMString)
        ensures
            r is Null,
    {
        DOMString::Null
    }

    #[allow(non_snake_case)]
    pub fn ContentType(&self) -> (r: DOMString)
        ensures
            r is Null,
    {
        DOMString::Null
    }

    /// The document element: the root this document was built over.
    #[allow(non_snake_case)]
    pub fn GetDocumentElement(&self) -> (r: Option<&Node>)
        ensures
            r == Some(&self.root),
    {
        Some(&self.root)
    }

    /// Full preorder walk of the tree: every element whose tag name equals
    /// `tag` exactly (case sensitively), in discovery order, as a fresh
    /// snapshot bound under the owning window's proxy.
    #[allow(non_snake_case)]
    pub fn GetElementsByTagName(&self, tag: &DOMString) -> (c: HtmlCollection)
        requires
            self.wf(),
            self.window is Some,
        ensures
            c.members@ == elements_by_tag(self.root, dom_text(*tag)),
            c.scope == self.window->0.wrapper.handle->0,
    {
        let tag_text = tag.to_str();
        let mut members: Vec<u64> = Vec::new();
        collect_by_tag(&self.root, &tag_text, &mut members);
        proof {
            assert(members@ =~= matches_in_tree(self.root, tag_pred(tag_text@)));
        }
        let win = self.window.as_ref().unwrap();
        let scope = win.wrapper.get().unwrap();
        HtmlCollection::new(members, scope)
    }

    /// Unimplemented traversal: always the empty collection, still bound
    /// under the owning window's proxy.
    #[allow(non_snake_case)]
    pub fn GetElementsByTagNameNS(&self, _ns: &DOMString, _tag: &DOMString) -> (c: HtmlCollection)
        requires
            self.wf(),
            self.window is Some,
        ensures
            c.members@ == Seq::<u64>::empty(),
            c.scope == self.window->0.wrapper.handle->0,
    {
        let win = self.window.as_ref().unwrap();
        let scope = win.wrapper.get().unwrap();
        HtmlCollection::new(Vec::new(), scope)
    }

    /// Unimplemented traversal: always the empty collection, still bound
    /// under the owning window's proxy.
    #[allow(non_snake_case)]
    pub fn GetElementsByClassName(&self, _class: &DOMString) -> (c: HtmlCollection)
        requires
            self.wf(),
            self.window is Some,
        ensures
            c.members@ == Seq::<u64>::empty(),
            c.scope == self.window->0.wrapper.handle->0,
    {
        let win = self.window.as_ref().unwrap();
        let scope = win.wrapper.get().unwrap();
        HtmlCollection::new(Vec::new(), scope)
    }

    #[allow(non_snake_case)]
    pub fn GetElementById(&self, _id: &DOMString) -> (r: Option<&Node>)
        ensures
            r is None,
    {
        None
    }

    /// Explicitly unimplemented: fails by design instead of returning a
    /// node. The error channel leaves untouched, as on every operation.
    #[allow(non_snake_case)]
    pub fn CreateElement(&self, _local_name: &DOMString, rv: &mut ErrorResult) -> (r: Result<
        Node,
        Unimplemented,
    >)
        ensures
            r == Result::<Node, Unimplemented>::Err(Unimplemented),
            *final(rv) == *old(rv),
    {
        Err(Unimplemented)
    }

    /// Explicitly unimplemented: fails by design instead of returning a
    /// node.
    #[allow(non_snake_case)]
    pub fn CreateElementNS(
        &self,
        _namespace: &DOMString,
        _qualified_name: &DOMString,
        rv: &mut ErrorResult,
    ) -> (r: Result<Node, Unimplemented>)
        ensures
            r == Result::<Node, Unimplemented>::Err(Unimplemented),
            *final(rv) == *old(rv),
    {
        Err(Unimplemented)
    }

    /// Explicitly unimplemented: fails by design instead of returning an
    /// event.
    #[allow(non_snake_case)]
    pub fn CreateEvent(&self, _interface: &DOMString, rv: &mut ErrorResult) -> (r: Result<
        Event,
        Unimplemented,
    >)
        ensures
            r == Result::<Event, Unimplemented>::Err(Unimplemented),
            *final(rv) == *old(rv),
    {
        Err(Unimplemented)
    }

    #[allow(non_snake_case)]
    pub fn GetInputEncoding(&self) -> (r: DOMString)
        ensures
            r is Null,
    {
        DOMString::Null
    }

    #[allow(non_snake_case)]
    pub fn Referrer(&self) -> (r: DOMString)
        ensures
            r is Null,
    {
        DOMString::Null
    }

    #[allow(non_snake_case)]
    pub fn LastModified(&self) -> (r: DOMString)
        ensures
            r is Null,
    {
        DOMString::Null
    }

    #[allow(non_snake_case)]
    pub fn ReadyState(&self) -> (r: DOMString)
        ensures
            r is Null,
    {
        DOMString::Null
    }

    #[allow(non_snake_case)]
    pub fn Title(&self) -> (r: DOMString)
        ensures
            r is Null,
    {
        DOMString::Null
    }

    #[allow(non_snake_case)]
    pub fn SetTitle(&self, _title: &DOMString, rv: &mut ErrorResult)
        ensures
            *final(rv) == *old(rv),
    {
    }

    #[allow(non_snake_case)]
    pub fn Dir(&self) -> (r: DOMString)
        ensures
            r is Null,
    {
        DOMString::Null
    }

    #[allow(non_snake_case)]
    pub fn SetDir(&self, _dir: &DOMString) {
    }

    #[allow(non_snake_case)]
    pub fn GetDefaultView(&self) -> (r: Option<&Window>)
        ensures
            r is None,
    {
        None
    }

    #[allow(non_snake_case)]
    pub fn GetActiveElement(&self) -> (r: Option<&Node>)
        ensures
            r is None,
    {
        None
    }

    #[allow(non_snake_case)]
    pub fn HasFocus(&self, rv: &mut ErrorResult) -> (r: bool)
        ensures
            !r,
            *final(rv) == *old(rv),
    {
        false
    }

    #[allow(non_snake_case)]
    pub fn GetCurrentScript(&self) -> (r: Option<&Node>)
        ensures
            r is None,
    {
        None
    }

    #[allow(non_snake_case)]
    pub fn ReleaseCapture(&self) {
    }

    #[allow(non_snake_case)]
    pub fn MozFullScreenEnabled(&self) -> (r: bool)
        ensures
            !r,
    {
        false
    }

    #[allow(non_snake_case)]
    pub fn GetMozFullScreenElement(&self, rv: &mut ErrorResult) -> (r: Option<&Node>)
        ensures
            r is None,
            *final(rv) == *old(rv),
    {
        None
    }

    #[allow(non_snake_case)]
    pub fn GetMozPointerLockElement(&self) -> (r: Option<&Node>)
        ensures
            r is None,
    {
        None
    }

    #[allow(non_snake_case)]
    pub fn MozExitPointerLock(&self) {
    }

    #[allow(non_snake_case)]
    pub fn Hidden(&self) -> (r: bool)
        ensures
            !r,
    {
        false
    }

    #[allow(non_snake_case)]
    pub fn MozHidden(&self) -> (r: bool)
        ensures
            !r,
    {
        self.Hidden()
    }

    #[allow(non_snake_case)]
    pub fn VisibilityState(&self) -> (r: VisibilityState)
        ensures
            r == VisibilityState::Visible,
    {
        VisibilityState::Visible
    }

    #[allow(non_snake_case)]
    pub fn MozVisibilityState(&self) -> (r: VisibilityState)
        ensures
            r == VisibilityState::Visible,
    {
        self.VisibilityState()
    }

    #[allow(non_snake_case)]
    pub fn GetSelectedStyleSheetSet(&self) -> (r: DOMString)
        ensures
            r is Null,
    {
        DOMString::Null
    }

    #[allow(non_snake_case)]
    pub fn SetSelectedStyleSheetSet(&self, _sheet: &DOMString) {
    }

    #[allow(non_snake_case)]
    pub fn GetLastStyleSheetSet(&self) -> (r: DOMString)
        ensures
            r is Null,
    {
        DOMString::Null
    }

    #[allow(non_snake_case)]
    pub fn GetPreferredStyleSheetSet(&self) -> (r: DOMString)
        ensures
            r is Null,
    {
        DOMString::Null
    }

    #[allow(non_snake_case)]
    pub fn EnableStyleSheetsForSet(&self, _name: &DOMString) {
    }

    #[allow(non_snake_case)]
    pub fn QuerySelector(&self, _selectors: &DOMString, rv: &mut ErrorResult) -> (r: Option<
        &Node,
    >)
        ensures
            r is None,
            *final(rv) == *old(rv),
    {
        None
    }

    /// Full preorder walk of the tree: every element whose `name`
    /// attribute holds exactly `name`, byte for byte, in discovery order,
    /// as a fresh snapshot bound under the owning window's proxy. Elements
    /// without that attribute never match.
    #[allow(non_snake_case)]
    pub fn GetElementsByName(&self, name: &DOMString) -> (c: HtmlCollection)
        requires
            self.wf(),
            self.window is Some,
        ensures
            c.members@ == elements_by_name(self.root, dom_text(*name)),
            c.scope == self.window->0.wrapper.handle->0,
    {
        let key = "name".to_owned();
        let name_text = name.to_str();
        let mut members: Vec<u64> = Vec::new();
        collect_by_name(&self.root, &key, &name_text, &mut members);
        proof {
            assert(members@ =~= matches_in_tree(self.root, name_pred(name_text@)));
        }
        let win = self.window.as_ref().unwrap();
        let scope = win.wrapper.get().unwrap();
        HtmlCollection::new(members, scope)
    }

    /// Forwards a content-changed notification to the owning window; a
    /// detached document swallows it.
    pub fn content_changed(&mut self)
        requires
            old(self).window matches Some(w) ==> w.content_changes < u64::MAX,
        ensures
            old(self).window is None ==> *final(self) == *old(self),
            old(self).window matches Some(w) ==> *final(self) == (Document {
                window: Some((Window { content_changes: (w.content_changes + 1) as u64, ..w })),
                ..*old(self)
            }),
    {
        match &mut self.window {
            Some(w) => w.content_changed(),
            None => {},
        }
    }

    /// Tears the document down: unregisters the root entity's handle from
    /// the compartment stored at construction. The transition is one way —
    /// the contract excludes a second teardown, and excludes a detached
    /// document, which was never rooted; either would be a fatal misuse of
    /// the root set.
    pub fn teardown(&mut self, rt: &mut Runtime)
        requires
            old(self).wf(),
            !old(self).torn_down,
            old(self).window is Some,
            root_count(
                old(rt).roots@,
                old(self).compartment->0,
                old(self).root.wrapper.handle->0,
            ) > 0,
        ensures
            final(self).torn_down,
            final(self).root == old(self).root,
            final(self).wrapper == old(self).wrapper,
            final(self).window == old(self).window,
            final(self).compartment == old(self).compartment,
            final(self).wf(),
            final(rt).next_id == old(rt).next_id,
            final(rt).roots@ == old(rt).roots@.remove(
                first_root_index(
                    old(rt).roots@,
                    old(self).compartment->0,
                    old(self).root.wrapper.handle->0,
                ),
            ),
    {
        let compartment = self.compartment.unwrap();
        let handle = self.root.wrapper.get().unwrap();
        rt.remove_root(compartment, handle);
        self.torn_down = true;
    }
}

/// An attached construction roots the tree's root entity exactly once:
/// a root set holding no pairing of the window's compartment with the
/// root's handle holds exactly one such pairing after the registration
/// the constructor performs.
pub proof fn lemma_construction_roots_exactly_once(
    pre: Seq<RootEntry>,
    compartment: u64,
    handle: u64,
)
    requires
        root_count(pre, compartment, handle) == 0,
    ensures
        root_count(pre.push(RootEntry { compartment, handle }), compartment, handle) == 1,
{
    lemma_root_count_push(pre, RootEntry { compartment, handle }, compartment, handle);
}

/// Teardown unroots: a root set holding the document's pairing exactly
/// once no longer holds it after the removal teardown performs.
pub proof fn lemma_teardown_unroots(pre: Seq<RootEntry>, compartment: u64, handle: u64)
    requires
        root_count(pre, compartment, handle) == 1,
    ensures
        root_count(
            pre.remove(first_root_index(pre, compartment, handle)),
            compartment,
            handle,
        ) == 0,
{
    lemma_first_root_index(pre, compartment, handle);
    lemma_root_count_remove(pre, compartment, handle, first_root_index(pre, compartment, handle));
}

} // verus!
