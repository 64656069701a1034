//! The placeholder view: a leaf of the view tree that shows nothing.

use crate::view::{Comment, CoreComponent, IntoView, ViewNode};
use leptos_reactive::Scope;
use vstd::prelude::*;

verus! {

/// The text of the marker node of a placeholder.
pub open spec fn unit_marker() -> Seq<char> {
    seq!['<', '(', ')', ' ', '/', '>']
}

/// The internal representation of the [`Unit`] core-component.
#[derive(Debug)]
pub struct UnitRepr {
    comment: Comment,
}

impl Default for UnitRepr {
    fn default() -> (repr: Self)
        ensures
            repr.marker() == unit_marker(),
    {
        proof {
            reveal_strlit("<() />");
            assert("<() />"@ =~= unit_marker());
        }
        UnitRepr { comment: Comment::new("<() />") }
    }
}

impl UnitRepr {
    /// The marker node that the placeholder stands on.
    pub closed spec fn node(&self) -> Comment {
        self.comment
    }

    /// The text of the marker node.
    pub open spec fn marker(&self) -> Seq<char> {
        self.node().content@
    }

    /// The node that is mounted for this placeholder.
    pub closed spec fn mountable_node(&self) -> Comment {
        self.comment
    }

    /// The node at which this placeholder opens.
    pub closed spec fn opening_node(&self) -> Comment {
        self.comment
    }

    /// The node to mount. A placeholder has one node only, its marker.
    pub fn get_mountable_node(&self) -> (node: &Comment)
        ensures
            *node == self.mountable_node(),
            *node == self.node(),
    {
        &self.comment
    }

    /// The node at which the placeholder opens: the same marker node, since a
    /// placeholder has no separate beginning and end.
    pub fn get_opening_node(&self) -> (node: &Comment)
        ensures
            *node == self.opening_node(),
            *node == self.node(),
    {
        &self.comment
    }
}

/// The node that is mounted and the node at which a placeholder opens are one and
/// the same: its marker node.
pub proof fn lemma_nodes_coincide(repr: UnitRepr)
    ensures
        repr.mountable_node() == repr.opening_node(),
        repr.mountable_node() == repr.node(),
{
}

/// The unit `()` counterpart among views.
#[derive(Clone, Copy, Debug)]
pub struct Unit;

/// `view` is a placeholder component on a marker node with the placeholder's text.
pub open spec fn is_unit_view(view: ViewNode) -> bool {
    match view {
        ViewNode::CoreComponent(CoreComponent::Unit(repr)) => repr.marker() == unit_marker(),
    }
}

impl IntoView for Unit {
    open spec fn is_view(self, cx: Scope, view: ViewNode) -> bool {
        is_unit_view(view)
    }

    fn into_view(self, _cx: Scope) -> (view: ViewNode) {
        let component = UnitRepr::default();
        ViewNode::CoreComponent(CoreComponent::Unit(component))
    }
}

} // verus!
