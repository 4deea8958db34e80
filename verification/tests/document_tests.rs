use domdoc::bindings::{DOMString, ErrorResult, VisibilityState};
use domdoc::document::Document;
use domdoc::runtime::Runtime;
use domdoc::tree::{Attr, Node};
use domdoc::window::Window;
use domdoc::wrapper::WrapperCache;

fn node(id: u64, tag: &str, element: bool, attrs: &[(&str, &str)], children: Vec<Node>) -> Node {
    Node {
        id,
        tag: tag.to_string(),
        element,
        attrs: attrs
            .iter()
            .map(|(k, v)| Attr { name: k.to_string(), value: v.to_string() })
            .collect(),
        children,
        wrapper: WrapperCache::new(),
    }
}

fn text(s: &str) -> DOMString {
    DOMString::Text(s.to_string())
}

/// An attached document over `html > [body(name="x"), body(name="y")]`,
/// with ids 1, 2, 3, returned with its runtime, compartment and root
/// handle.
fn two_body_document() -> (Runtime, Document, u64, u64) {
    let mut rt = Runtime::new();
    let w = Window::new(&mut rt);
    let compartment = w.compartment;
    let body_x = node(2, "body", true, &[("name", "x")], vec![]);
    let body_y = node(3, "body", true, &[("name", "y")], vec![]);
    let mut root = node(1, "html", true, &[], vec![body_x, body_y]);
    let root_handle = root.wrapper.wrap(&mut rt);
    let doc = Document(&mut rt, root, Some(w));
    (rt, doc, compartment, root_handle)
}

#[test]
fn attached_construction_roots_exactly_once() {
    let (rt, doc, compartment, root_handle) = two_body_document();
    assert_eq!(rt.count_roots(compartment, root_handle), 1);
    let root = doc.GetDocumentElement().unwrap();
    assert_eq!(root.id, 1);
    assert_eq!(root.tag, "html");
}

#[test]
fn attached_construction_publishes_document_property() {
    let (_rt, doc, _compartment, _root_handle) = two_body_document();
    let win = doc.window.as_ref().unwrap();
    assert!(win.document_object.is_some());
    assert_eq!(win.document_object, doc.wrapper.get());
}

#[test]
fn teardown_removes_the_root() {
    let (mut rt, mut doc, compartment, root_handle) = two_body_document();
    assert_eq!(rt.count_roots(compartment, root_handle), 1);
    doc.teardown(&mut rt);
    assert!(doc.torn_down);
    assert_eq!(rt.count_roots(compartment, root_handle), 0);
}

#[test]
fn tag_query_returns_matches_in_preorder() {
    let (_rt, doc, _c, _h) = two_body_document();
    let bodies = doc.GetElementsByTagName(&text("body"));
    assert_eq!(bodies.members, vec![2, 3]);
    let all = doc.GetElementsByTagName(&text("html"));
    assert_eq!(all.members, vec![1]);
}

#[test]
fn repeated_tag_queries_are_content_identical() {
    let (_rt, doc, _c, _h) = two_body_document();
    let first = doc.GetElementsByTagName(&text("body"));
    let second = doc.GetElementsByTagName(&text("body"));
    assert_eq!(first.members, second.members);
    assert_eq!(first.scope, second.scope);
}

#[test]
fn tag_query_for_missing_tag_is_empty() {
    let (_rt, doc, _c, _h) = two_body_document();
    let none = doc.GetElementsByTagName(&text("missing"));
    assert!(none.members.is_empty());
}

#[test]
fn tag_query_is_case_sensitive() {
    let (_rt, doc, _c, _h) = two_body_document();
    let none = doc.GetElementsByTagName(&text("Body"));
    assert!(none.members.is_empty());
}

#[test]
fn tag_query_skips_non_elements() {
    let mut rt = Runtime::new();
    let w = Window::new(&mut rt);
    let plain = node(5, "body", false, &[], vec![]);
    let elem = node(6, "body", true, &[], vec![]);
    let mut root = node(4, "html", true, &[], vec![plain, elem]);
    root.wrapper.wrap(&mut rt);
    let doc = Document(&mut rt, root, Some(w));
    let bodies = doc.GetElementsByTagName(&text("body"));
    assert_eq!(bodies.members, vec![6]);
}

#[test]
fn name_query_returns_first_body_only() {
    let (_rt, doc, _c, _h) = two_body_document();
    let xs = doc.GetElementsByName(&text("x"));
    assert_eq!(xs.members, vec![2]);
    let ys = doc.GetElementsByName(&text("y"));
    assert_eq!(ys.members, vec![3]);
}

#[test]
fn name_query_is_exact_match_only() {
    let mut rt = Runtime::new();
    let w = Window::new(&mut rt);
    let child = node(2, "body", true, &[("name", "foo")], vec![]);
    let mut root = node(1, "html", true, &[], vec![child]);
    root.wrapper.wrap(&mut rt);
    let doc = Document(&mut rt, root, Some(w));
    assert_eq!(doc.GetElementsByName(&text("foo")).members, vec![2]);
    assert!(doc.GetElementsByName(&text("Foo")).members.is_empty());
    assert!(doc.GetElementsByName(&text("fo")).members.is_empty());
}

#[test]
fn name_query_ignores_elements_without_the_attribute() {
    let mut rt = Runtime::new();
    let w = Window::new(&mut rt);
    let plain = node(2, "body", true, &[("id", "x")], vec![]);
    let mut root = node(1, "html", true, &[], vec![plain]);
    root.wrapper.wrap(&mut rt);
    let doc = Document(&mut rt, root, Some(w));
    assert!(doc.GetElementsByName(&text("x")).members.is_empty());
}

#[test]
fn ns_and_class_queries_are_always_empty() {
    let (_rt, doc, _c, _h) = two_body_document();
    let by_ns = doc.GetElementsByTagNameNS(&text("ns"), &text("body"));
    assert!(by_ns.members.is_empty());
    let by_class = doc.GetElementsByClassName(&text("body"));
    assert!(by_class.members.is_empty());
}

#[test]
fn query_collections_are_scoped_under_the_window() {
    let (_rt, doc, _c, _h) = two_body_document();
    let scope = doc.window.as_ref().unwrap().wrapper.get().unwrap();
    assert_eq!(doc.GetElementsByTagName(&text("body")).scope, scope);
    assert_eq!(doc.GetElementsByName(&text("x")).scope, scope);
    assert_eq!(doc.GetElementsByTagNameNS(&text("a"), &text("b")).scope, scope);
    assert_eq!(doc.GetElementsByClassName(&text("c")).scope, scope);
}

#[test]
fn collection_length_reports_member_count() {
    let (_rt, doc, _c, _h) = two_body_document();
    assert_eq!(doc.GetElementsByTagName(&text("body")).Length(), 2);
    assert_eq!(doc.GetElementsByTagName(&text("missing")).Length(), 0);
}

#[test]
fn script_constructed_document_is_detached() {
    let mut rt = Runtime::new();
    let owner = Window::new(&mut rt);
    let mut rv = ErrorResult::new();
    let doc = Document::Constructor(&owner, &mut rt, &mut rv);
    assert!(doc.window.is_none());
    assert!(doc.compartment.is_none());
    assert!(owner.document_object.is_none());
    assert!(!rv.failed);
    assert_eq!(rt.roots.len(), 0);
    assert_eq!(doc.root.tag, "html");
    assert!(doc.root.element);
    assert!(doc.root.attrs.is_empty());
    assert!(doc.root.children.is_empty());
}

#[test]
fn create_element_fails_fatally() {
    let (_rt, doc, _c, _h) = two_body_document();
    let mut rv = ErrorResult::new();
    let r = doc.CreateElement(&text("div"), &mut rv);
    assert!(r.is_err());
    assert!(!rv.failed);
}

#[test]
fn create_element_ns_and_create_event_fail_fatally() {
    let (_rt, doc, _c, _h) = two_body_document();
    let mut rv = ErrorResult::new();
    assert!(doc.CreateElementNS(&text("ns"), &text("div"), &mut rv).is_err());
    assert!(doc.CreateEvent(&text("Event"), &mut rv).is_err());
    assert!(!rv.failed);
}

#[test]
fn stub_accessors_return_fixed_values() {
    let (_rt, doc, _c, _h) = two_body_document();
    assert!(matches!(doc.URL(), DOMString::Null));
    assert!(matches!(doc.DocumentURI(), DOMString::Null));
    assert!(matches!(doc.CompatMode(), DOMString::Null));
    assert!(matches!(doc.CharacterSet(), DOMString::Null));
    assert!(matches!(doc.ContentType(), DOMString::Null));
    assert!(matches!(doc.GetInputEncoding(), DOMString::Null));
    assert!(matches!(doc.Referrer(), DOMString::Null));
    assert!(matches!(doc.LastModified(), DOMString::Null));
    assert!(matches!(doc.ReadyState(), DOMString::Null));
    assert!(matches!(doc.Title(), DOMString::Null));
    assert!(matches!(doc.Dir(), DOMString::Null));
    assert!(matches!(doc.GetSelectedStyleSheetSet(), DOMString::Null));
    assert!(matches!(doc.GetLastStyleSheetSet(), DOMString::Null));
    assert!(matches!(doc.GetPreferredStyleSheetSet(), DOMString::Null));
    assert!(doc.GetElementById(&text("x")).is_none());
    assert!(doc.GetDefaultView().is_none());
    assert!(doc.GetActiveElement().is_none());
    assert!(doc.GetCurrentScript().is_none());
    assert!(doc.GetMozPointerLockElement().is_none());
    assert!(!doc.Hidden());
    assert!(!doc.MozHidden());
    assert!(!doc.MozFullScreenEnabled());
    assert!(matches!(doc.VisibilityState(), VisibilityState::Visible));
    assert!(matches!(doc.MozVisibilityState(), VisibilityState::Visible));
}

#[test]
fn stub_mutators_leave_the_error_channel_alone() {
    let (_rt, doc, _c, _h) = two_body_document();
    let mut rv = ErrorResult::new();
    doc.SetTitle(&text("t"), &mut rv);
    assert!(!rv.failed);
    assert!(doc.GetMozFullScreenElement(&mut rv).is_none());
    assert!(!rv.failed);
    assert!(doc.QuerySelector(&text("body"), &mut rv).is_none());
    assert!(!rv.failed);
    assert!(!doc.HasFocus(&mut rv));
    assert!(!rv.failed);
    doc.SetDir(&text("ltr"));
    doc.SetSelectedStyleSheetSet(&text("s"));
    doc.EnableStyleSheetsForSet(&text("s"));
    doc.ReleaseCapture();
    doc.MozExitPointerLock();
}

#[test]
fn content_changed_notifies_the_window() {
    let (_rt, mut doc, _c, _h) = two_body_document();
    assert_eq!(doc.window.as_ref().unwrap().content_changes, 0);
    doc.content_changed();
    doc.content_changed();
    assert_eq!(doc.window.as_ref().unwrap().content_changes, 2);
}

#[test]
fn content_changed_on_detached_document_is_a_no_op() {
    let mut rt = Runtime::new();
    let owner = Window::new(&mut rt);
    let mut rv = ErrorResult::new();
    let mut doc = Document::Constructor(&owner, &mut rt, &mut rv);
    doc.content_changed();
    assert!(doc.window.is_none());
}

#[test]
fn parent_object_is_the_owning_window() {
    let (_rt, doc, compartment, _h) = two_body_document();
    assert_eq!(doc.GetParentObject().compartment, compartment);
}

#[test]
fn dom_string_reads_null_as_empty_text() {
    assert_eq!(DOMString::Null.to_str(), "");
    assert_eq!(text("body").to_str(), "body");
}
