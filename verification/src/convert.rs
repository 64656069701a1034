//! Turning host values into attributes.

use crate::attribute::{may_yield, Attribute, Thunk};
use leptos_reactive::Scope;
use vstd::prelude::*;

verus! {

/// The reactive scope of `leptos_reactive`: a token that conversions take and hand on
/// to nested conversions. Nothing here looks inside it.
#[verifier::external_type_specification]
#[verifier::external_body]
pub struct ExScope(leptos_reactive::Scope);

/// Converts some type into an [`Attribute`].
pub trait IntoAttribute: Sized {
    /// What must hold of a value for it to be converted. It is `true` for every plain
    /// value; a function must be callable, and what it returns convertible.
    spec fn convertible(&self) -> bool;

    /// Whether `a` is an attribute that converting `self` in the scope `cx` may give.
    spec fn converts_to(self, cx: Scope, a: Attribute) -> bool;

    /// Converts the value into an [`Attribute`].
    fn into_attribute(self, cx: Scope) -> (a: Attribute)
        requires
            self.convertible(),
        ensures
            self.converts_to(cx, a),
    ;
}

impl IntoAttribute for String {
    open spec fn convertible(&self) -> bool {
        true
    }

    open spec fn converts_to(self, cx: Scope, a: Attribute) -> bool {
        a == Attribute::String(self)
    }

    fn into_attribute(self, _cx: Scope) -> (a: Attribute) {
        Attribute::String(self)
    }
}

impl IntoAttribute for bool {
    open spec fn convertible(&self) -> bool {
        true
    }

    open spec fn converts_to(self, cx: Scope, a: Attribute) -> bool {
        a == Attribute::Bool(self)
    }

    fn into_attribute(self, _cx: Scope) -> (a: Attribute) {
        Attribute::Bool(self)
    }
}

impl IntoAttribute for Option<String> {
    open spec fn convertible(&self) -> bool {
        true
    }

    open spec fn converts_to(self, cx: Scope, a: Attribute) -> bool {
        a == Attribute::Option(self)
    }

    fn into_attribute(self, _cx: Scope) -> (a: Attribute) {
        Attribute::Option(self)
    }
}

/// `f` can be called, and whatever it returns can be converted.
pub open spec fn returns_convertible<T, U>(f: &T) -> bool where T: Fn() -> U, U: IntoAttribute {
    &&& call_requires(*f, ())
    &&& forall|u: U| call_ensures(*f, (), u) ==> u.convertible()
}

/// `r` is the conversion, in the scope `cx`, of a value that `f` may return.
pub open spec fn converts_result<T, U>(f: &T, cx: Scope, r: Attribute) -> bool where
    T: Fn() -> U,
    U: IntoAttribute,
 {
    exists|u: U| call_ensures(*f, (), u) && #[trigger] u.converts_to(cx, r)
}

/// `a` is deferred, and whatever it yields is the conversion, in the scope `cx`, of a
/// value that `f` may return.
pub open spec fn defers<T, U>(f: &T, cx: Scope, a: Attribute) -> bool where
    T: Fn() -> U,
    U: IntoAttribute,
 {
    &&& a is Fn
    &&& forall|r: Attribute| #[trigger] may_yield(a->Fn_0, r) ==> converts_result(f, cx, r)
}

/// Makes a deferred attribute of a function whose result can be converted: each time
/// the attribute is run, it calls `f` and converts what `f` returned, in the scope
/// `cx`. A function that returns a function gives a deferred attribute that yields a
/// deferred attribute.
///
/// This is what [`IntoAttribute::into_attribute`] does for a function; its contract
/// is stated here over the function itself, for callers that hold a closure.
pub fn reactive<T, U>(f: T, cx: Scope) -> (a: Attribute) where
    T: Fn() -> U + 'static,
    U: IntoAttribute,

    requires
        returns_convertible(&f),
    ensures
        defers(&f, cx, a),
{
    let modified_fn = move || -> (r: Attribute)
        ensures
            converts_result(&f, cx, r),
        { (f)().into_attribute(cx) };
    Attribute::Fn(Thunk::new(modified_fn))
}

impl<T, U> IntoAttribute for T where T: Fn() -> U + 'static, U: IntoAttribute {
    open spec fn convertible(&self) -> bool {
        returns_convertible(self)
    }

    open spec fn converts_to(self, cx: Scope, a: Attribute) -> bool {
        defers(&self, cx, a)
    }

    fn into_attribute(self, cx: Scope) -> (a: Attribute) {
        reactive(self, cx)
    }
}

} // verus!
