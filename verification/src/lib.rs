//! Attribute values for a reactive rendering layer, and the empty placeholder view.
//!
//! An [`attribute::Attribute`] is a literal, an optional value, a boolean toggle, or a
//! deferred computation that yields another attribute when it is run. The functions
//! here state their results over a mathematical model of the attribute, and Verus
//! proves them.
//!
//! Taken on trust are only the calls that the verifier cannot follow: storing,
//! copying and running the closure of a [`attribute::Thunk`], the standard library's
//! debug form of a string, and its string of one character. Each stands in a small
//! function of its own whose doc comment says what is assumed of it.

pub mod attribute;
pub mod components;
pub mod convert;
pub mod decimal;
pub mod equality;
pub mod primitives;
pub mod unwinding;
pub mod view;

pub use attribute::{Attribute, Thunk};
pub use components::unit::{Unit, UnitRepr};
pub use convert::IntoAttribute;
pub use view::{Comment, CoreComponent, IntoView, ViewNode};
