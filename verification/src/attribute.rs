//! The attribute value, its deferred form, and how it is rendered as markup text.

use crate::unwinding::{
    lemma_settles_to_step, lemma_settles_within_step, renders, settles, settles_to,
    settles_within,
};
use std::rc::Rc;
use vstd::prelude::*;
use vstd::string::StringExecFns;

verus! {

/// A shared, deferred computation that produces an [`Attribute`] each time it is run.
///
/// The stored closure is invisible to the verifier: a value of this type is known
/// only through [`may_yield`].
#[verifier::external_body]
pub struct Thunk {
    run: Rc<dyn Fn() -> Attribute>,
}

/// Whether running `t` may produce `r`. A thunk may read state that changes between
/// runs, so this is a relation and not a function of `t`.
pub uninterp spec fn may_yield(t: Thunk, r: Attribute) -> bool;

/// Stores `f` behind a shared pointer (`Rc::new`). Trusted: whatever the new thunk
/// may yield is a value that `f`'s own postcondition admits.
#[verifier::external_body]
fn share<F: Fn() -> Attribute + 'static>(f: F) -> (t: Thunk)
    requires
        call_requires(f, ()),
    ensures
        forall|r: Attribute| may_yield(t, r) ==> call_ensures(f, (), r),
{
    Thunk { run: Rc::new(f) }
}

/// Calls the stored closure once. Trusted: the value that comes back is one that the
/// thunk may yield.
#[verifier::external_body]
fn run(t: &Thunk) -> (r: Attribute)
    ensures
        may_yield(*t, r),
{
    (t.run)()
}

impl Clone for Thunk {
    /// Another handle on the same stored closure (`Rc::clone`). Trusted: the copy is
    /// the same thunk, so it may yield exactly what the first may.
    #[verifier::external_body]
    fn clone(&self) -> (copy: Thunk)
        ensures
            copy == *self,
    {
        Thunk { run: self.run.clone() }
    }
}

impl Thunk {
    /// Wraps a zero-argument function as a thunk that can be shared and run repeatedly.
    pub fn new<F: Fn() -> Attribute + 'static>(f: F) -> (t: Thunk)
        requires
            call_requires(f, ()),
        ensures
            forall|r: Attribute| may_yield(t, r) ==> call_ensures(f, (), r),
    {
        share(f)
    }

    /// Runs the thunk once and hands back what it produced.
    pub fn call(&self) -> (r: Attribute)
        ensures
            may_yield(*self, r),
    {
        run(self)
    }
}

/// The possible values of an attribute node.
pub enum Attribute {
    /// A plain string value.
    String(String),
    /// A deferred value, computed anew each time it is needed.
    Fn(Thunk),
    /// An optional string value: set when `Some`, removed when `None`.
    Option(Option<String>),
    /// A boolean attribute: present without a value when `true`, removed when `false`.
    Bool(bool),
}

impl Clone for Attribute {
    /// A copy that holds the same value; a deferred attribute shares its thunk with
    /// the copy.
    fn clone(&self) -> (copy: Attribute)
        ensures
            copy == *self,
    {
        match self {
            Attribute::String(value) => Attribute::String(value.clone()),
            Attribute::Fn(thunk) => Attribute::Fn(thunk.clone()),
            Attribute::Option(Some(value)) => Attribute::Option(Some(value.clone())),
            Attribute::Option(None) => Attribute::Option(None),
            Attribute::Bool(flag) => Attribute::Bool(*flag),
        }
    }
}

/// The text `name="value"`.
pub open spec fn quoted(name: Seq<char>, value: Seq<char>) -> Seq<char> {
    name + seq!['=', '"'] + value + seq!['"']
}

/// The markup of an attribute that is not deferred. A deferred one has no markup of
/// its own; see [`renders`](crate::unwinding::renders).
pub open spec fn markup(a: Attribute, name: Seq<char>) -> Seq<char>
    recommends
        !(a is Fn),
{
    match a {
        Attribute::String(v) => quoted(name, v@),
        Attribute::Option(Some(v)) => quoted(name, v@),
        Attribute::Option(None) => Seq::empty(),
        Attribute::Bool(true) => name,
        Attribute::Bool(false) => Seq::empty(),
        Attribute::Fn(_) => Seq::empty(),
    }
}

/// Builds `name="value"`.
fn quote(attr_name: &str, value: &str) -> (out: String)
    ensures
        out@ == quoted(attr_name@, value@),
{
    let mut out = String::from_str(attr_name);
    out.append("=\"");
    out.append(value);
    out.append("\"");
    proof {
        reveal_strlit("=\"");
        reveal_strlit("\"");
        assert("=\""@ =~= seq!['=', '"']);
        assert("\""@ =~= seq!['"']);
    }
    out
}

/// The text that the standard library's `Debug` formatting gives for a string: the
/// string between double quotes, with the characters that need it escaped.
pub uninterp spec fn debug_quoted(text: Seq<char>) -> Seq<char>;

/// Formats a string with `{:?}` (`<str as Debug>::fmt`). Trusted: the result is the
/// debug form of the characters, whatever the string's address or capacity.
#[verifier::external_body]
fn debug_quote(text: &str) -> (out: String)
    ensures
        out@ == debug_quoted(text@),
{
    format!("{:?}", text)
}

/// The debug form of an attribute: the variant's name and, in brackets, the debug
/// form of what it holds. Of a deferred attribute only the name is shown.
pub open spec fn debug_text(a: Attribute) -> Seq<char> {
    match a {
        Attribute::String(v) => "String("@ + debug_quoted(v@) + ")"@,
        Attribute::Fn(_) => "Fn"@,
        Attribute::Option(Some(v)) => "Option(Some("@ + debug_quoted(v@) + "))"@,
        Attribute::Option(None) => "Option(None)"@,
        Attribute::Bool(true) => "Bool(true)"@,
        Attribute::Bool(false) => "Bool(false)"@,
    }
}

impl Attribute {
    /// The debug form of the attribute. A deferred attribute shows as `Fn`: what the
    /// thunk would compute is not shown, and the thunk is not run.
    pub fn debug_string(&self) -> (out: String)
        ensures
            out@ == debug_text(*self),
    {
        match self {
            Attribute::String(value) => {
                let mut out = String::from_str("String(");
                out.append(debug_quote(value.as_str()).as_str());
                out.append(")");
                out
            },
            Attribute::Fn(_) => String::from_str("Fn"),
            Attribute::Option(Some(value)) => {
                let mut out = String::from_str("Option(Some(");
                out.append(debug_quote(value.as_str()).as_str());
                out.append("))");
                out
            },
            Attribute::Option(None) => String::from_str("Option(None)"),
            Attribute::Bool(true) => String::from_str("Bool(true)"),
            Attribute::Bool(false) => String::from_str("Bool(false)"),
        }
    }

    /// Renders an attribute that is not deferred: `name="value"` for a string and for
    /// an optional string that is present, the bare name for a boolean that is set,
    /// and nothing for an absent string or a boolean that is not set.
    pub fn ground_string(&self, attr_name: &'static str) -> (out: String)
        requires
            !(self is Fn),
        ensures
            out@ == markup(*self, attr_name@),
    {
        match self {
            Attribute::String(value) => quote(attr_name, value.as_str()),
            Attribute::Option(Some(value)) => quote(attr_name, value.as_str()),
            Attribute::Bool(true) => String::from_str(attr_name),
            _ => String::new(),
        }
    }

    /// Converts the attribute to its markup at this moment, so that it can be rendered
    /// statically. A deferred attribute is run, and so is each deferred attribute that
    /// comes back, until one that is not deferred is reached; that one is rendered.
    ///
    /// Unwinding must come to an end: a chain of thunks that never reaches a plain
    /// value is a mistake of the caller.
    pub fn as_value_string(&self, attr_name: &'static str) -> (out: String)
        requires
            settles(*self),
        ensures
            renders(*self, attr_name@, out@),
            !(self is Fn) ==> out@ == markup(*self, attr_name@),
    {
        match self {
            Attribute::Fn(f) => {
                let ghost bound: nat = choose|n: nat| settles_within(*self, n);
                let mut value = f.call();
                let ghost mut left: nat = (bound - 1) as nat;
                let ghost mut steps: nat = 1;
                proof {
                    lemma_settles_within_step(*f, value, bound);
                    assert forall|g: Attribute, n: nat| #[trigger]
                        settles_to(value, g, n) implies settles_to(*self, g, n + steps) by {
                        lemma_settles_to_step(*f, value, g, n);
                    }
                }
                loop
                    invariant
                        settles_within(value, left),
                        steps >= 1,
                        forall|g: Attribute, n: nat| #[trigger]
                            settles_to(value, g, n) ==> settles_to(*self, g, n + steps),
                    ensures
                        !(value is Fn),
                    decreases left,
                {
                    let next = match &value {
                        Attribute::Fn(f) => {
                            let next = f.call();
                            proof {
                                lemma_settles_within_step(*f, next, left);
                                assert forall|g: Attribute, n: nat| #[trigger]
                                    settles_to(next, g, n) implies settles_to(
                                    *self,
                                    g,
                                    n + steps + 1,
                                ) by {
                                    lemma_settles_to_step(*f, next, g, n);
                                }
                            }
                            next
                        },
                        _ => { break ; },
                    };
                    proof {
                        left = (left - 1) as nat;
                        steps = steps + 1;
                    }
                    value = next;
                }
                let out = value.ground_string(attr_name);
                proof {
                    assert(settles_to(value, value, 0));
                    assert(settles_to(*self, value, 0 + steps));
                }
                out
            },
            _ => {
                let out = self.ground_string(attr_name);
                proof {
                    assert(settles_to(*self, *self, 0));
                }
                out
            },
        }
    }
}

} // verus!
