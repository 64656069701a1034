use leptos_dom::attribute::{Attribute, Thunk};
use std::cell::Cell;
use std::rc::Rc;

fn text(s: &str) -> Attribute {
    Attribute::String(s.to_string())
}

fn deferred(depth: usize, end: &'static str) -> Attribute {
    let mut value = text(end);
    for _ in 0..depth {
        let inner = value.clone();
        value = Attribute::Fn(Thunk::new(move || inner.clone()));
    }
    value
}

#[test]
fn literal_renders_name_and_quoted_value() {
    assert_eq!(text("s").as_value_string("a"), "a=\"s\"");
    assert_eq!(text("hello world").as_value_string("title"), "title=\"hello world\"");
}

#[test]
fn literal_empty_value_keeps_the_attribute() {
    assert_eq!(text("").as_value_string("a"), "a=\"\"");
}

#[test]
fn literal_is_not_escaped() {
    assert_eq!(text("x\"y").as_value_string("a"), "a=\"x\"y\"");
}

#[test]
fn literal_with_empty_name() {
    assert_eq!(text("v").as_value_string(""), "=\"v\"");
}

#[test]
fn toggle_true_renders_bare_name() {
    assert_eq!(Attribute::Bool(true).as_value_string("a"), "a");
    assert_eq!(Attribute::Bool(true).as_value_string("disabled"), "disabled");
}

#[test]
fn toggle_false_renders_nothing() {
    assert_eq!(Attribute::Bool(false).as_value_string("a"), "");
}

#[test]
fn optional_some_renders_like_a_literal() {
    let a = Attribute::Option(Some("v".to_string()));
    assert_eq!(a.as_value_string("a"), "a=\"v\"");
    assert_eq!(a.as_value_string("a"), text("v").as_value_string("a"));
}

#[test]
fn optional_none_renders_nothing() {
    assert_eq!(Attribute::Option(None).as_value_string("a"), "");
}

#[test]
fn optional_some_empty_differs_from_none() {
    let present = Attribute::Option(Some(String::new()));
    assert_eq!(present.as_value_string("a"), "a=\"\"");
    assert_ne!(present.as_value_string("a"), Attribute::Option(None).as_value_string("a"));
}

#[test]
fn ground_variants_render_the_same_twice() {
    let all = vec![
        text("s"),
        Attribute::Option(Some("v".to_string())),
        Attribute::Option(None),
        Attribute::Bool(true),
        Attribute::Bool(false),
    ];
    for a in all.iter() {
        let first = a.as_value_string("a");
        let second = a.as_value_string("a");
        assert_eq!(first, second);
    }
}

#[test]
fn rendering_leaves_the_attribute_unchanged() {
    let a = text("s");
    let _ = a.as_value_string("a");
    assert!(a == text("s"));
}

#[test]
fn deferred_literal_renders_as_the_literal() {
    let a = Attribute::Fn(Thunk::new(|| Attribute::String("x".to_string())));
    assert_eq!(a.as_value_string("a"), "a=\"x\"");
}

#[test]
fn nested_deferred_renders_as_the_inner_literal() {
    let a = Attribute::Fn(Thunk::new(|| {
        Attribute::Fn(Thunk::new(|| Attribute::String("x".to_string())))
    }));
    assert_eq!(a.as_value_string("a"), "a=\"x\"");
    assert_eq!(a.as_value_string("a"), text("x").as_value_string("a"));
}

#[test]
fn deferred_toggle_and_optional() {
    let on = Attribute::Fn(Thunk::new(|| Attribute::Bool(true)));
    let off = Attribute::Fn(Thunk::new(|| Attribute::Bool(false)));
    let none = Attribute::Fn(Thunk::new(|| Attribute::Option(None)));
    let some = Attribute::Fn(Thunk::new(|| Attribute::Option(Some("v".to_string()))));
    assert_eq!(on.as_value_string("checked"), "checked");
    assert_eq!(off.as_value_string("checked"), "");
    assert_eq!(none.as_value_string("a"), "");
    assert_eq!(some.as_value_string("a"), "a=\"v\"");
}

#[test]
fn deep_chains_collapse_to_the_end() {
    for depth in [0usize, 1, 2, 3, 10, 200] {
        assert_eq!(deferred(depth, "x").as_value_string("a"), "a=\"x\"");
    }
}

#[test]
fn deferred_is_run_anew_each_time() {
    let runs = Rc::new(Cell::new(0u32));
    let seen = runs.clone();
    let a = Attribute::Fn(Thunk::new(move || {
        seen.set(seen.get() + 1);
        Attribute::String(seen.get().to_string())
    }));
    assert_eq!(a.as_value_string("n"), "n=\"1\"");
    assert_eq!(a.as_value_string("n"), "n=\"2\"");
    assert_eq!(runs.get(), 2);
}

#[test]
fn every_level_of_a_chain_is_run_once() {
    let runs = Rc::new(Cell::new(0u32));
    let outer_runs = runs.clone();
    let a = Attribute::Fn(Thunk::new(move || {
        outer_runs.set(outer_runs.get() + 1);
        let inner_runs = outer_runs.clone();
        Attribute::Fn(Thunk::new(move || {
            inner_runs.set(inner_runs.get() + 10);
            Attribute::Bool(true)
        }))
    }));
    assert_eq!(a.as_value_string("a"), "a");
    assert_eq!(runs.get(), 11);
}

#[test]
fn thunk_call_runs_one_level_only() {
    let t = Thunk::new(|| Attribute::Fn(Thunk::new(|| Attribute::Bool(true))));
    let once = t.call();
    assert!(matches!(once, Attribute::Fn(_)));
    if let Attribute::Fn(inner) = once {
        assert!(inner.call() == Attribute::Bool(true));
    }
}

#[test]
fn a_cloned_thunk_shares_the_computation() {
    let runs = Rc::new(Cell::new(0u32));
    let seen = runs.clone();
    let a = Attribute::Fn(Thunk::new(move || {
        seen.set(seen.get() + 1);
        Attribute::Bool(true)
    }));
    let b = a.clone();
    assert_eq!(a.as_value_string("a"), "a");
    assert_eq!(b.as_value_string("a"), "a");
    assert_eq!(runs.get(), 2);
}

#[test]
fn equal_literals_are_equal() {
    assert!(text("x") == text("x"));
    assert!(text("x") != text("y"));
}

#[test]
fn different_variants_are_unequal() {
    assert!(text("x") != Attribute::Bool(true));
    assert!(text("x") != Attribute::Option(Some("x".to_string())));
    assert!(Attribute::Option(None) != Attribute::Bool(false));
}

#[test]
fn optionals_and_toggles_compare_by_value() {
    assert!(Attribute::Option(Some("x".to_string())) == Attribute::Option(Some("x".to_string())));
    assert!(Attribute::Option(Some("x".to_string())) != Attribute::Option(Some("y".to_string())));
    assert!(Attribute::Option(Some("x".to_string())) != Attribute::Option(None));
    assert!(Attribute::Option(None) == Attribute::Option(None));
    assert!(Attribute::Bool(true) == Attribute::Bool(true));
    assert!(Attribute::Bool(false) == Attribute::Bool(false));
    assert!(Attribute::Bool(true) != Attribute::Bool(false));
}

#[test]
fn deferred_is_never_equal() {
    let a = Attribute::Fn(Thunk::new(|| Attribute::Bool(true)));
    let b = Attribute::Fn(Thunk::new(|| Attribute::Bool(true)));
    let copy = a.clone();
    assert!(a != b);
    assert!(a != copy);
    assert!(!(a == a));
    assert!(a != Attribute::Bool(true));
    assert!(Attribute::Bool(true) != a);
}

#[test]
fn debug_form_shows_plain_payloads() {
    assert_eq!(text("x").debug_string(), "String(\"x\")");
    assert_eq!(Attribute::Option(Some("x".to_string())).debug_string(), "Option(Some(\"x\"))");
    assert_eq!(Attribute::Option(None).debug_string(), "Option(None)");
    assert_eq!(Attribute::Bool(true).debug_string(), "Bool(true)");
    assert_eq!(Attribute::Bool(false).debug_string(), "Bool(false)");
}

#[test]
fn debug_form_escapes_text() {
    assert_eq!(text("a\"b\n").debug_string(), "String(\"a\\\"b\\n\")");
    assert_eq!(text("x").debug_string(), format!("String({:?})", "x"));
}

#[test]
fn debug_form_hides_the_thunk() {
    let runs = Rc::new(Cell::new(0u32));
    let seen = runs.clone();
    let a = Attribute::Fn(Thunk::new(move || {
        seen.set(seen.get() + 1);
        Attribute::Bool(true)
    }));
    assert_eq!(a.debug_string(), "Fn");
    assert_eq!(runs.get(), 0);
}

#[test]
fn ground_string_renders_each_plain_form() {
    assert_eq!(text("s").ground_string("a"), "a=\"s\"");
    assert_eq!(Attribute::Option(Some("v".to_string())).ground_string("a"), "a=\"v\"");
    assert_eq!(Attribute::Option(None).ground_string("a"), "");
    assert_eq!(Attribute::Bool(true).ground_string("a"), "a");
    assert_eq!(Attribute::Bool(false).ground_string("a"), "");
}

#[test]
fn ground_string_agrees_with_as_value_string() {
    let all = vec![
        text("s"),
        Attribute::Option(Some("v".to_string())),
        Attribute::Option(None),
        Attribute::Bool(true),
        Attribute::Bool(false),
    ];
    for a in all.iter() {
        assert_eq!(a.ground_string("name"), a.as_value_string("name"));
    }
}

#[test]
fn clone_keeps_plain_values() {
    assert!(text("s").clone() == text("s"));
    assert!(Attribute::Option(None).clone() == Attribute::Option(None));
    assert!(Attribute::Option(Some("v".to_string())).clone() == Attribute::Option(Some("v".to_string())));
    assert!(Attribute::Bool(true).clone() == Attribute::Bool(true));
}
