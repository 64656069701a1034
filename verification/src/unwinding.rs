//! Unwinding a deferred attribute: what it may come to, when that ends, and what
//! follows for the text that it renders as.

use crate::attribute::{markup, may_yield, Attribute, Thunk};
use vstd::prelude::*;

verus! {

/// `a` can be unwound to the attribute `g`, which is not deferred, by running at most
/// `n` thunks, each on the result of the one before.
pub open spec fn settles_to(a: Attribute, g: Attribute, n: nat) -> bool
    decreases n,
{
    match a {
        Attribute::Fn(t) => n > 0 && exists|r: Attribute|
            #[trigger] may_yield(t, r) && settles_to(r, g, (n - 1) as nat),
        _ => g == a,
    }
}

/// However the thunks in `a` behave, unwinding `a` runs at most `n` of them.
pub open spec fn settles_within(a: Attribute, n: nat) -> bool
    decreases n,
{
    match a {
        Attribute::Fn(t) => n > 0 && forall|r: Attribute|
            #[trigger] may_yield(t, r) ==> settles_within(r, (n - 1) as nat),
        _ => true,
    }
}

/// Unwinding `a` comes to an end: `a` is not deferred, or there is a number of runs
/// within which its thunks, however they behave, reach an attribute that is not.
pub open spec fn settles(a: Attribute) -> bool {
    a is Fn ==> exists|n: nat| #[trigger] settles_within(a, n)
}

/// `out` is a text that rendering `a` under `name` may give: the markup of some
/// attribute that `a` unwinds to.
pub open spec fn renders(a: Attribute, name: Seq<char>, out: Seq<char>) -> bool {
    exists|g: Attribute, n: nat| #[trigger] settles_to(a, g, n) && out == markup(g, name)
}

/// One more thunk in front: if `t` may yield `r` and `r` unwinds to `g`, then the
/// deferred attribute over `t` unwinds to `g` in one step more.
pub proof fn lemma_settles_to_step(t: Thunk, r: Attribute, g: Attribute, n: nat)
    requires
        may_yield(t, r),
        settles_to(r, g, n),
    ensures
        settles_to(Attribute::Fn(t), g, n + 1),
{
    let a = Attribute::Fn(t);
    assert(may_yield(a->Fn_0, r) && settles_to(r, g, ((n + 1) - 1) as nat));
}

/// Running the first thunk of a deferred attribute that unwinds within `n` steps
/// leaves one that unwinds within `n - 1`.
pub proof fn lemma_settles_within_step(t: Thunk, r: Attribute, n: nat)
    requires
        settles_within(Attribute::Fn(t), n),
        may_yield(t, r),
    ensures
        n > 0,
        settles_within(r, (n - 1) as nat),
{
    let a = Attribute::Fn(t);
    assert(may_yield(a->Fn_0, r));
}

/// A deferred attribute settles when everything that its thunk may yield does so
/// within one and the same number of runs.
pub proof fn lemma_deferred_settles(t: Thunk, n: nat)
    requires
        forall|r: Attribute| #[trigger] may_yield(t, r) ==> settles_within(r, n),
    ensures
        settles_within(Attribute::Fn(t), n + 1),
        settles(Attribute::Fn(t)),
{
    let a = Attribute::Fn(t);
    assert forall|r: Attribute| #[trigger] may_yield(a->Fn_0, r) implies settles_within(
        r,
        ((n + 1) - 1) as nat,
    ) by {}
}

/// Whatever the thunks in `a` yield, unwinding `a` ends, after at most `n` runs, in
/// the one attribute `x`.
pub open spec fn chain_ends_in(a: Attribute, x: Attribute, n: nat) -> bool
    decreases n,
{
    match a {
        Attribute::Fn(t) => n > 0 && forall|r: Attribute|
            #[trigger] may_yield(t, r) ==> chain_ends_in(r, x, (n - 1) as nat),
        _ => a == x,
    }
}

/// One more thunk in front of a chain: when everything that `t` may yield is a chain
/// that ends in `x` within `n` runs, the deferred attribute over `t` is a chain that
/// ends in `x` within `n + 1`.
pub proof fn lemma_deferred_chain(t: Thunk, x: Attribute, n: nat)
    requires
        forall|r: Attribute| #[trigger] may_yield(t, r) ==> chain_ends_in(r, x, n),
    ensures
        chain_ends_in(Attribute::Fn(t), x, n + 1),
{
    let a = Attribute::Fn(t);
    assert forall|r: Attribute| #[trigger] may_yield(a->Fn_0, r) implies chain_ends_in(
        r,
        x,
        ((n + 1) - 1) as nat,
    ) by {}
}

/// An attribute that is not deferred unwinds to itself and to nothing else.
pub proof fn lemma_ground_settles(a: Attribute, g: Attribute, n: nat)
    requires
        !(a is Fn),
    ensures
        settles_to(a, g, n) <==> g == a,
{
}

/// An attribute that is not deferred renders to its own markup and to no other text.
pub proof fn lemma_ground_renders(a: Attribute, name: Seq<char>, out: Seq<char>)
    requires
        !(a is Fn),
    ensures
        renders(a, name, out) <==> out == markup(a, name),
{
    if out == markup(a, name) {
        assert(settles_to(a, a, 0));
    }
}

/// A plain string renders as `name="value"`, whatever the value.
pub proof fn lemma_string_renders(value: String, name: Seq<char>, out: Seq<char>)
    requires
        renders(Attribute::String(value), name, out),
    ensures
        out == name + seq!['=', '"'] + value@ + seq!['"'],
{
    lemma_ground_renders(Attribute::String(value), name, out);
}

/// A boolean attribute renders as the bare name when it is set, and as nothing when
/// it is not.
pub proof fn lemma_bool_renders(flag: bool, name: Seq<char>, out: Seq<char>)
    requires
        renders(Attribute::Bool(flag), name, out),
    ensures
        out == if flag {
            name
        } else {
            Seq::<char>::empty()
        },
{
    lemma_ground_renders(Attribute::Bool(flag), name, out);
}

/// An optional string renders as `name="value"` when it is present, and as nothing
/// when it is absent; a present empty string still renders the attribute.
pub proof fn lemma_option_renders(value: Option<String>, name: Seq<char>, out: Seq<char>)
    requires
        renders(Attribute::Option(value), name, out),
    ensures
        out == match value {
            Some(v) => name + seq!['=', '"'] + v@ + seq!['"'],
            None => Seq::<char>::empty(),
        },
        value is Some ==> out.len() >= 3,
{
    lemma_ground_renders(Attribute::Option(value), name, out);
}

/// Rendering an attribute that is not deferred gives the same text every time.
pub proof fn lemma_ground_renders_same(
    a: Attribute,
    name: Seq<char>,
    first: Seq<char>,
    second: Seq<char>,
)
    requires
        !(a is Fn),
        renders(a, name, first),
        renders(a, name, second),
    ensures
        first == second,
{
    lemma_ground_renders(a, name, first);
    lemma_ground_renders(a, name, second);
}

/// A chain that ends in `x` unwinds to `x` alone.
pub proof fn lemma_chain_settles(a: Attribute, x: Attribute, n: nat, g: Attribute, m: nat)
    requires
        chain_ends_in(a, x, n),
        !(x is Fn),
        settles_to(a, g, m),
    ensures
        g == x,
    decreases m,
{
    match a {
        Attribute::Fn(_) => {
            let r = choose|r: Attribute|
                #[trigger] may_yield(a->Fn_0, r) && settles_to(r, g, (m - 1) as nat);
            lemma_chain_settles(r, x, (n - 1) as nat, g, (m - 1) as nat);
        },
        _ => {},
    }
}

/// A chain that ends within `n` runs is one whose unwinding takes at most `n` runs.
pub proof fn lemma_chain_settles_within(a: Attribute, x: Attribute, n: nat)
    requires
        chain_ends_in(a, x, n),
    ensures
        settles_within(a, n),
    decreases n,
{
    match a {
        Attribute::Fn(_) => {
            assert forall|r: Attribute| #[trigger] may_yield(a->Fn_0, r) implies settles_within(
                r,
                (n - 1) as nat,
            ) by {
                lemma_chain_settles_within(r, x, (n - 1) as nat);
            }
        },
        _ => {},
    }
}

/// A chain of deferred attributes of any finite depth renders as the attribute at its
/// end does when rendered alone.
pub proof fn lemma_chain_renders_as_end(
    a: Attribute,
    x: Attribute,
    n: nat,
    name: Seq<char>,
    out: Seq<char>,
)
    requires
        chain_ends_in(a, x, n),
        !(x is Fn),
        renders(a, name, out),
    ensures
        out == markup(x, name),
        renders(x, name, out),
{
    let (g, m) = choose|g: Attribute, m: nat| #[trigger]
        settles_to(a, g, m) && out == markup(g, name);
    lemma_chain_settles(a, x, n, g, m);
    lemma_ground_renders(x, name, out);
}

/// Two deferred attributes, one inside the other, over a plain one: when `f` always
/// yields the deferred attribute over `g`, and `g` always yields `x`, the deferred
/// attribute over `f` renders as `x` does.
pub proof fn lemma_nested_renders_as_inner(
    f: Thunk,
    g: Thunk,
    x: Attribute,
    name: Seq<char>,
    out: Seq<char>,
)
    requires
        forall|r: Attribute| may_yield(f, r) ==> r == Attribute::Fn(g),
        forall|r: Attribute| may_yield(g, r) ==> r == x,
        !(x is Fn),
        renders(Attribute::Fn(f), name, out),
    ensures
        settles_within(Attribute::Fn(f), 2),
        out == markup(x, name),
{
    let outer = Attribute::Fn(f);
    lemma_deferred_chain(g, x, 0);
    lemma_deferred_chain(f, x, 1);
    lemma_chain_settles_within(outer, x, 2);
    lemma_chain_renders_as_end(outer, x, 2, name, out);
}

} // verus!
