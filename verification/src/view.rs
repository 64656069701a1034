//! The view union and the marker node that leaf components stand on.

use crate::components::unit::UnitRepr;
use leptos_reactive::Scope;
use vstd::prelude::*;

verus! {

/// An empty marker node, held as the text of the comment that marks its place.
#[derive(Debug)]
pub struct Comment {
    pub content: String,
}

impl Comment {
    /// A marker node with the given text.
    pub fn new(content: &str) -> (comment: Comment)
        ensures
            comment.content@ == content@,
    {
        Comment { content: content.to_owned() }
    }
}

/// The components that the rendering layer itself provides.
#[derive(Debug)]
pub enum CoreComponent {
    /// The placeholder that renders nothing.
    Unit(UnitRepr),
}

/// Any node of a view tree.
#[derive(Debug)]
pub enum ViewNode {
    /// One of the components that the rendering layer itself provides.
    CoreComponent(CoreComponent),
}

/// Converts some type into a [`ViewNode`].
pub trait IntoView: Sized {
    /// Whether `view` is what converting `self` in the scope `cx` gives.
    spec fn is_view(self, cx: Scope, view: ViewNode) -> bool;

    /// Converts the value into a [`ViewNode`].
    fn into_view(self, cx: Scope) -> (view: ViewNode)
        ensures
            self.is_view(cx, view),
    ;
}

} // verus!
