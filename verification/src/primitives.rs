//! Conversions of borrowed text, of the integer types and of characters.

use crate::attribute::Attribute;
use crate::convert::IntoAttribute;
use crate::decimal::{decimal_text, one_char, signed_text, unsigned_text};
use leptos_reactive::Scope;
use vstd::prelude::*;
use vstd::string::to_string_from_display_ensures_for_str;

verus! {

/// `a` is the plain string attribute that holds exactly `text`.
pub open spec fn is_string_of(text: Seq<char>, a: Attribute) -> bool {
    match a {
        Attribute::String(held) => held@ == text,
        _ => false,
    }
}

/// `a` is the optional attribute that holds exactly `text` where there is one, and
/// nothing where there is none.
pub open spec fn is_option_of(text: Option<Seq<char>>, a: Attribute) -> bool {
    match (text, a) {
        (Some(given), Attribute::Option(Some(held))) => held@ == given,
        (None, Attribute::Option(None)) => true,
        _ => false,
    }
}

impl<'a> IntoAttribute for &'a String {
    open spec fn convertible(&self) -> bool {
        true
    }

    open spec fn converts_to(self, cx: Scope, a: Attribute) -> bool {
        is_string_of(self@, a)
    }

    fn into_attribute(self, _cx: Scope) -> (a: Attribute) {
        Attribute::String(self.clone())
    }
}

impl<'a> IntoAttribute for Option<&'a String> {
    open spec fn convertible(&self) -> bool {
        true
    }

    open spec fn converts_to(self, cx: Scope, a: Attribute) -> bool {
        is_option_of(
            match self {
                Some(given) => Some(given@),
                None => None,
            },
            a,
        )
    }

    fn into_attribute(self, _cx: Scope) -> (a: Attribute) {
        match self {
            Some(given) => Attribute::Option(Some(given.clone())),
            None => Attribute::Option(None),
        }
    }
}

impl<'a> IntoAttribute for &'a str {
    open spec fn convertible(&self) -> bool {
        true
    }

    open spec fn converts_to(self, cx: Scope, a: Attribute) -> bool {
        is_string_of(self@, a)
    }

    fn into_attribute(self, _cx: Scope) -> (a: Attribute) {
        broadcast use to_string_from_display_ensures_for_str;

        Attribute::String(self.to_string())
    }
}

impl<'a> IntoAttribute for Option<&'a str> {
    open spec fn convertible(&self) -> bool {
        true
    }

    open spec fn converts_to(self, cx: Scope, a: Attribute) -> bool {
        is_option_of(
            match self {
                Some(given) => Some(given@),
                None => None,
            },
            a,
        )
    }

    fn into_attribute(self, _cx: Scope) -> (a: Attribute) {
        broadcast use to_string_from_display_ensures_for_str;

        match self {
            Some(given) => Attribute::Option(Some(given.to_string())),
            None => Attribute::Option(None),
        }
    }
}

impl IntoAttribute for char {
    open spec fn convertible(&self) -> bool {
        true
    }

    open spec fn converts_to(self, cx: Scope, a: Attribute) -> bool {
        is_string_of(seq![self], a)
    }

    fn into_attribute(self, _cx: Scope) -> (a: Attribute) {
        Attribute::String(one_char(self))
    }
}

impl IntoAttribute for Option<char> {
    open spec fn convertible(&self) -> bool {
        true
    }

    open spec fn converts_to(self, cx: Scope, a: Attribute) -> bool {
        is_option_of(
            match self {
                Some(c) => Some(seq![c]),
                None => None,
            },
            a,
        )
    }

    fn into_attribute(self, _cx: Scope) -> (a: Attribute) {
        match self {
            Some(c) => Attribute::Option(Some(one_char(c))),
            None => Attribute::Option(None),
        }
    }
}

impl IntoAttribute for usize {
    open spec fn convertible(&self) -> bool {
        true
    }

    open spec fn converts_to(self, cx: Scope, a: Attribute) -> bool {
        is_string_of(decimal_text(self as int), a)
    }

    fn into_attribute(self, _cx: Scope) -> (a: Attribute) {
        Attribute::String(unsigned_text(self as u128))
    }
}

impl IntoAttribute for Option<usize> {
    open spec fn convertible(&self) -> bool {
        true
    }

    open spec fn converts_to(self, cx: Scope, a: Attribute) -> bool {
        is_option_of(
            match self {
                Some(value) => Some(decimal_text(value as int)),
                None => None,
            },
            a,
        )
    }

    fn into_attribute(self, _cx: Scope) -> (a: Attribute) {
        match self {
            Some(value) => Attribute::Option(Some(unsigned_text(value as u128))),
            None => Attribute::Option(None),
        }
    }
}

impl IntoAttribute for u8 {
    open spec fn convertible(&self) -> bool {
        true
    }

    open spec fn converts_to(self, cx: Scope, a: Attribute) -> bool {
        is_string_of(decimal_text(self as int), a)
    }

    fn into_attribute(self, _cx: Scope) -> (a: Attribute) {
        Attribute::String(unsigned_text(self as u128))
    }
}

impl IntoAttribute for Option<u8> {
    open spec fn convertible(&self) -> bool {
        true
    }

    open spec fn converts_to(self, cx: Scope, a: Attribute) -> bool {
        is_option_of(
            match self {
                Some(value) => Some(decimal_text(value as int)),
                None => None,
            },
            a,
        )
    }

    fn into_attribute(self, _cx: Scope) -> (a: Attribute) {
        match self {
            Some(value) => Attribute::Option(Some(unsigned_text(value as u128))),
            None => Attribute::Option(None),
        }
    }
}

impl IntoAttribute for u16 {
    open spec fn convertible(&self) -> bool {
        true
    }

    open spec fn converts_to(self, cx: Scope, a: Attribute) -> bool {
        is_string_of(decimal_text(self as int), a)
    }

    fn into_attribute(self, _cx: Scope) -> (a: Attribute) {
        Attribute::String(unsigned_text(self as u128))
    }
}

impl IntoAttribute for Option<u16> {
    open spec fn convertible(&self) -> bool {
        true
    }

    open spec fn converts_to(self, cx: Scope, a: Attribute) -> bool {
        is_option_of(
            match self {
                Some(value) => Some(decimal_text(value as int)),
                None => None,
            },
            a,
        )
    }

    fn into_attribute(self, _cx: Scope) -> (a: Attribute) {
        match self {
            Some(value) => Attribute::Option(Some(unsigned_text(value as u128))),
            None => Attribute::Option(None),
        }
    }
}

impl IntoAttribute for u32 {
    open spec fn convertible(&self) -> bool {
        true
    }

    open spec fn converts_to(self, cx: Scope, a: Attribute) -> bool {
        is_string_of(decimal_text(self as int), a)
    }

    fn into_attribute(self, _cx: Scope) -> (a: Attribute) {
        Attribute::String(unsigned_text(self as u128))
    }
}

impl IntoAttribute for Option<u32> {
    open spec fn convertible(&self) -> bool {
        true
    }

    open spec fn converts_to(self, cx: Scope, a: Attribute) -> bool {
        is_option_of(
            match self {
                Some(value) => Some(decimal_text(value as int)),
                None => None,
            },
            a,
        )
    }

    fn into_attribute(self, _cx: Scope) -> (a: Attribute) {
        match self {
            Some(value) => Attribute::Option(Some(unsigned_text(value as u128))),
            None => Attribute::Option(None),
        }
    }
}

impl IntoAttribute for u64 {
    open spec fn convertible(&self) -> bool {
        true
    }

    open spec fn converts_to(self, cx: Scope, a: Attribute) -> bool {
        is_string_of(decimal_text(self as int), a)
    }

    fn into_attribute(self, _cx: Scope) -> (a: Attribute) {
        Attribute::String(unsigned_text(self as u128))
    }
}

impl IntoAttribute for Option<u64> {
    open spec fn convertible(&self) -> bool {
        true
    }

    open spec fn converts_to(self, cx: Scope, a: Attribute) -> bool {
        is_option_of(
            match self {
                Some(value) => Some(decimal_text(value as int)),
                None => None,
            },
            a,
        )
    }

    fn into_attribute(self, _cx: Scope) -> (a: Attribute) {
        match self {
            Some(value) => Attribute::Option(Some(unsigned_text(value as u128))),
            None => Attribute::Option(None),
        }
    }
}

impl IntoAttribute for u128 {
    open spec fn convertible(&self) -> bool {
        true
    }

    open spec fn converts_to(self, cx: Scope, a: Attribute) -> bool {
        is_string_of(decimal_text(self as int), a)
    }

    fn into_attribute(self, _cx: Scope) -> (a: Attribute) {
        Attribute::String(unsigned_text(self))
    }
}

impl IntoAttribute for Option<u128> {
    open spec fn convertible(&self) -> bool {
        true
    }

    open spec fn converts_to(self, cx: Scope, a: Attribute) -> bool {
        is_option_of(
            match self {
                Some(value) => Some(decimal_text(value as int)),
                None => None,
            },
            a,
        )
    }

    fn into_attribute(self, _cx: Scope) -> (a: Attribute) {
        match self {
            Some(value) => Attribute::Option(Some(unsigned_text(value))),
            None => Attribute::Option(None),
        }
    }
}

impl IntoAttribute for isize {
    open spec fn convertible(&self) -> bool {
        true
    }

    open spec fn converts_to(self, cx: Scope, a: Attribute) -> bool {
        is_string_of(decimal_text(self as int), a)
    }

    fn into_attribute(self, _cx: Scope) -> (a: Attribute) {
        Attribute::String(signed_text(self as i128))
    }
}

impl IntoAttribute for Option<isize> {
    open spec fn convertible(&self) -> bool {
        true
    }

    open spec fn converts_to(self, cx: Scope, a: Attribute) -> bool {
        is_option_of(
            match self {
                Some(value) => Some(decimal_text(value as int)),
                None => None,
            },
            a,
        )
    }

    fn into_attribute(self, _cx: Scope) -> (a: Attribute) {
        match self {
            Some(value) => Attribute::Option(Some(signed_text(value as i128))),
            None => Attribute::Option(None),
        }
    }
}

impl IntoAttribute for i8 {
    open spec fn convertible(&self) -> bool {
        true
    }

    open spec fn converts_to(self, cx: Scope, a: Attribute) -> bool {
        is_string_of(decimal_text(self as int), a)
    }

    fn into_attribute(self, _cx: Scope) -> (a: Attribute) {
        Attribute::String(signed_text(self as i128))
    }
}

impl IntoAttribute for Option<i8> {
    open spec fn convertible(&self) -> bool {
        true
    }

    open spec fn converts_to(self, cx: Scope, a: Attribute) -> bool {
        is_option_of(
            match self {
                Some(value) => Some(decimal_text(value as int)),
                None => None,
            },
            a,
        )
    }

    fn into_attribute(self, _cx: Scope) -> (a: Attribute) {
        match self {
            Some(value) => Attribute::Option(Some(signed_text(value as i128))),
            None => Attribute::Option(None),
        }
    }
}

impl IntoAttribute for i16 {
    open spec fn convertible(&self) -> bool {
        true
    }

    open spec fn converts_to(self, cx: Scope, a: Attribute) -> bool {
        is_string_of(decimal_text(self as int), a)
    }

    fn into_attribute(self, _cx: Scope) -> (a: Attribute) {
        Attribute::String(signed_text(self as i128))
    }
}

impl IntoAttribute for Option<i16> {
    open spec fn convertible(&self) -> bool {
        true
    }

    open spec fn converts_to(self, cx: Scope, a: Attribute) -> bool {
        is_option_of(
            match self {
                Some(value) => Some(decimal_text(value as int)),
                None => None,
            },
            a,
        )
    }

    fn into_attribute(self, _cx: Scope) -> (a: Attribute) {
        match self {
            Some(value) => Attribute::Option(Some(signed_text(value as i128))),
            None => Attribute::Option(None),
        }
    }
}

impl IntoAttribute for i32 {
    open spec fn convertible(&self) -> bool {
        true
    }

    open spec fn converts_to(self, cx: Scope, a: Attribute) -> bool {
        is_string_of(decimal_text(self as int), a)
    }

    fn into_attribute(self, _cx: Scope) -> (a: Attribute) {
        Attribute::String(signed_text(self as i128))
    }
}

impl IntoAttribute for Option<i32> {
    open spec fn convertible(&self) -> bool {
        true
    }

    open spec fn converts_to(self, cx: Scope, a: Attribute) -> bool {
        is_option_of(
            match self {
                Some(value) => Some(decimal_text(value as int)),
                None => None,
            },
            a,
        )
    }

    fn into_attribute(self, _cx: Scope) -> (a: Attribute) {
        match self {
            Some(value) => Attribute::Option(Some(signed_text(value as i128))),
            None => Attribute::Option(None),
        }
    }
}

impl IntoAttribute for i64 {
    open spec fn convertible(&self) -> bool {
        true
    }

    open spec fn converts_to(self, cx: Scope, a: Attribute) -> bool {
        is_string_of(decimal_text(self as int), a)
    }

    fn into_attribute(self, _cx: Scope) -> (a: Attribute) {
        Attribute::String(signed_text(self as i128))
    }
}

impl IntoAttribute for Option<i64> {
    open spec fn convertible(&self) -> bool {
        true
    }

    open spec fn converts_to(self, cx: Scope, a: Attribute) -> bool {
        is_option_of(
            match self {
                Some(value) => Some(decimal_text(value as int)),
                None => None,
            },
            a,
        )
    }

    fn into_attribute(self, _cx: Scope) -> (a: Attribute) {
        match self {
            Some(value) => Attribute::Option(Some(signed_text(value as i128))),
            None => Attribute::Option(None),
        }
    }
}

impl IntoAttribute for i128 {
    open spec fn convertible(&self) -> bool {
        true
    }

    open spec fn converts_to(self, cx: Scope, a: Attribute) -> bool {
        is_string_of(decimal_text(self as int), a)
    }

    fn into_attribute(self, _cx: Scope) -> (a: Attribute) {
        Attribute::String(signed_text(self))
    }
}

impl IntoAttribute for Option<i128> {
    open spec fn convertible(&self) -> bool {
        true
    }

    open spec fn converts_to(self, cx: Scope, a: Attribute) -> bool {
        is_option_of(
            match self {
                Some(value) => Some(decimal_text(value as int)),
                None => None,
            },
            a,
        )
    }

    fn into_attribute(self, _cx: Scope) -> (a: Attribute) {
        match self {
            Some(value) => Attribute::Option(Some(signed_text(value))),
            None => Attribute::Option(None),
        }
    }
}

} // verus!
