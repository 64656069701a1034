//! Equality of attributes: by value for the plain forms, never for a deferred one.

use crate::attribute::Attribute;
use vstd::prelude::*;
use vstd::std_specs::cmp::PartialEqSpec;

verus! {

/// Two optional texts hold the same characters, or are both absent.
pub open spec fn same_text(left: Option<String>, right: Option<String>) -> bool {
    match (left, right) {
        (Some(l), Some(r)) => l@ == r@,
        (None, None) => true,
        _ => false,
    }
}

/// What `==` means on attributes: both are of the same plain form and hold the same
/// value. A deferred attribute equals nothing, not even itself.
pub open spec fn same_value(left: Attribute, right: Attribute) -> bool {
    match (left, right) {
        (Attribute::String(l), Attribute::String(r)) => l@ == r@,
        (Attribute::Option(l), Attribute::Option(r)) => same_text(l, r),
        (Attribute::Bool(l), Attribute::Bool(r)) => l == r,
        _ => false,
    }
}

impl PartialEq for Attribute {
    fn eq(&self, other: &Self) -> (equal: bool) {
        match (self, other) {
            (Attribute::String(l0), Attribute::String(r0)) => *l0 == *r0,
            (Attribute::Option(l0), Attribute::Option(r0)) => match (l0, r0) {
                (Some(l), Some(r)) => *l == *r,
                (None, None) => true,
                _ => false,
            },
            (Attribute::Bool(l0), Attribute::Bool(r0)) => *l0 == *r0,
            _ => false,
        }
    }
}

impl vstd::std_specs::cmp::PartialEqSpecImpl for Attribute {
    open spec fn obeys_eq_spec() -> bool {
        true
    }

    open spec fn eq_spec(&self, other: &Attribute) -> bool {
        same_value(*self, *other)
    }
}

/// A comparison with a deferred attribute on either side is never equal; in
/// particular a deferred attribute does not equal itself.
pub proof fn lemma_deferred_never_equal(left: Attribute, right: Attribute)
    requires
        left is Fn || right is Fn,
    ensures
        !same_value(left, right),
        !left.eq_spec(&right),
{
}

/// Between attributes that are not deferred, equality is symmetric, and reflexive.
pub proof fn lemma_plain_equality(left: Attribute, right: Attribute)
    requires
        !(left is Fn),
    ensures
        same_value(left, left),
        same_value(left, right) == same_value(right, left),
{
}

} // verus!
