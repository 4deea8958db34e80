//! Value types shared with the script-facing binding surface: DOM strings,
//! the error out-channel, the unimplemented-surface marker, and the
//! visibility report.

use vstd::prelude::*;

verus! {

/// A DOM string: the null string or text. The stubbed accessors return
/// the null string, which is distinct from empty text.
#[derive(Debug)]
pub enum DOMString {
    Null,
    Text(String),
}

/// The character content a query reads out of a DOM string; the null
/// string reads as empty.
pub open spec fn dom_text(d: DOMString) -> Seq<char> {
    match d {
        DOMString::Null => Seq::empty(),
        DOMString::Text(s) => s@,
    }
}

impl DOMString {
    /// The character content of this DOM string, the null string reading
    /// as empty.
    pub fn to_str(&self) -> (r: String)
        ensures
            r@ == dom_text(*self),
    {
        match self {
            DOMString::Null => String::new(),
            DOMString::Text(s) => s.clone(),
        }
    }
}

/// The error out-channel carried by several document operations. No
/// operation of this core populates it: each states in its contract that
/// the channel leaves unchanged.
#[derive(Clone, Copy, PartialEq, Eq, Structural, Debug)]
pub struct ErrorResult {
    pub failed: bool,
}

impl ErrorResult {
    /// A clear channel, with no failure recorded.
    pub fn new() -> (r: ErrorResult)
        ensures
            !r.failed,
    {
        ErrorResult { failed: false }
    }
}

/// What the intentionally unimplemented creation surface returns: an
/// explicit placeholder failure, never a silently made-up value.
#[derive(Clone, Copy, PartialEq, Eq, Structural, Debug)]
pub struct Unimplemented;

/// A scripting-runtime event object. None is ever produced here: the one
/// operation that would yield one fails by design.
pub struct Event {}

/// The visibility a document reports.
#[derive(Clone, Copy, PartialEq, Eq, Structural, Debug)]
pub enum VisibilityState {
    Visible,
    Hidden,
}

} // verus!
