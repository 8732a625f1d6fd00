use auto_enums::derive_table::{get_alias, get_derive, get_trait_deps, DeriveKind, Features};
use auto_enums::enum_derive::{plan_derives, resolve_args, DeriveContext};
use auto_enums::text::{remove_spaces, str_eq};

fn names(v: &[&str]) -> Vec<String> {
    v.iter().map(|s| s.to_string()).collect()
}

#[test]
fn get_derive_finds_supported_traits() {
    let f = Features::default_set();
    assert_eq!(get_derive(&f, "Iterator"), Some(DeriveKind::Iterator));
    assert_eq!(get_derive(&f, "Debug"), Some(DeriveKind::Debug));
    assert_eq!(get_derive(&f, "fmt::Debug"), Some(DeriveKind::Debug));
    assert_eq!(get_derive(&f, "Error"), Some(DeriveKind::Error));
    assert_eq!(get_derive(&f, "Clone"), None);
    assert_eq!(get_derive(&f, "NoSuchTrait"), None);
}

#[test]
fn get_derive_respects_features() {
    let f = Features::default_set();
    assert_eq!(get_derive(&f, "AsRef"), None);
    assert_eq!(get_derive(&f, "futures03::Stream"), None);
    let all = Features::all();
    assert_eq!(get_derive(&all, "AsRef"), Some(DeriveKind::AsRef));
    assert_eq!(get_derive(&all, "futures03::Stream"), Some(DeriveKind::Futures03Stream));
    assert_eq!(get_derive(&all, "tokio02::AsyncRead"), Some(DeriveKind::Tokio02AsyncRead));
}

#[test]
fn trait_dependencies() {
    let f = Features::default_set();
    assert_eq!(get_trait_deps(&f, "ExactSizeIterator"), Some(vec!["Iterator"]));
    assert_eq!(get_trait_deps(&f, "Ord"), Some(vec!["PartialOrd", "Eq", "PartialEq"]));
    assert_eq!(get_trait_deps(&f, "Copy"), Some(vec!["Clone"]));
    assert_eq!(get_trait_deps(&f, "Error"), Some(vec!["Display", "Debug"]));
    assert_eq!(get_trait_deps(&f, "Iterator"), None);
    assert_eq!(get_trait_deps(&f, "DerefMut"), None);
    let all = Features::all();
    assert_eq!(get_trait_deps(&all, "DerefMut"), Some(vec!["Deref"]));
    assert_eq!(get_trait_deps(&all, "Fn"), Some(vec!["FnMut", "FnOnce"]));
}

#[test]
fn aliases() {
    let f = Features::default_set();
    assert_eq!(get_alias(&f, "Debug"), Some("fmt::Debug"));
    assert_eq!(get_alias(&f, "fmt::Debug"), Some("Debug"));
    assert_eq!(get_alias(&f, "Iterator"), None);
}

#[test]
fn spaces_are_removed() {
    assert_eq!(remove_spaces("fmt :: Debug"), "fmt::Debug");
    assert_eq!(remove_spaces("  a b  c "), "abc");
    assert_eq!(remove_spaces(""), "");
    assert!(str_eq("abc", "abc"));
    assert!(!str_eq("abc", "abd"));
}

#[test]
fn requirements_come_before_their_trait() {
    let f = Features::default_set();
    let r = resolve_args(&f, &names(&["ExactSizeIterator"]));
    let got: Vec<(String, Option<usize>)> = r.into_iter().map(|a| (a.name, a.arg)).collect();
    assert_eq!(got, vec![("Iterator".to_string(), None), ("ExactSizeIterator".to_string(), Some(0))]);
}

#[test]
fn named_requirement_is_not_added_twice() {
    let f = Features::default_set();
    let r = resolve_args(&f, &names(&["Iterator", "ExactSizeIterator", "DoubleEndedIterator"]));
    let got: Vec<(String, Option<usize>)> = r.into_iter().map(|a| (a.name, a.arg)).collect();
    assert_eq!(
        got,
        vec![
            ("Iterator".to_string(), Some(0)),
            ("ExactSizeIterator".to_string(), Some(1)),
            ("DoubleEndedIterator".to_string(), Some(2)),
        ]
    );
}

#[test]
fn alias_is_not_resolved_twice() {
    let f = Features::default_set();
    let r = resolve_args(&f, &names(&["Debug", "fmt::Debug"]));
    let got: Vec<String> = r.into_iter().map(|a| a.name).collect();
    assert_eq!(got, vec!["Debug".to_string()]);
}

#[test]
fn plan_splits_generated_and_passed_on() {
    let f = Features::default_set();
    let p = plan_derives(&f, &names(&["Iterator", "Clone", "Ord"]));
    let kinds: Vec<DeriveKind> = p.impls.iter().map(|i| i.kind).collect();
    assert_eq!(kinds, vec![DeriveKind::Iterator]);
    // `Clone` and `Ord` go to `#[derive]`, with the requirements of `Ord`
    // that were added, before it.
    let pass: Vec<(String, Option<usize>)> = p.passthrough.into_iter().map(|a| (a.name, a.arg)).collect();
    assert_eq!(
        pass,
        vec![
            ("Clone".to_string(), Some(1)),
            ("PartialOrd".to_string(), None),
            ("Eq".to_string(), None),
            ("PartialEq".to_string(), None),
            ("Ord".to_string(), Some(2)),
        ]
    );
    assert!(!p.needs_pin_projection);
}

#[test]
fn plan_asks_for_pinning_guards() {
    let f = Features::default_set();
    let p = plan_derives(&f, &names(&["Future"]));
    let kinds: Vec<DeriveKind> = p.impls.iter().map(|i| i.kind).collect();
    assert_eq!(kinds, vec![DeriveKind::Future]);
    assert!(p.needs_pin_projection);
    let q = plan_derives(&f, &names(&["Iterator", "Error"]));
    let kinds: Vec<DeriveKind> = q.impls.iter().map(|i| i.kind).collect();
    assert_eq!(kinds, vec![DeriveKind::Iterator, DeriveKind::Display, DeriveKind::Debug, DeriveKind::Error]);
    assert!(!q.needs_pin_projection);
}

#[test]
fn derive_records_pinning() {
    let mut cx = DeriveContext::new();
    assert!(!cx.pin_projection);
    auto_enums::enum_derive::derive(&mut cx, DeriveKind::Iterator);
    assert!(!cx.pin_projection);
    auto_enums::enum_derive::derive(&mut cx, DeriveKind::Future);
    assert!(cx.pin_projection);
    auto_enums::enum_derive::derive(&mut cx, DeriveKind::Debug);
    assert!(cx.pin_projection);
    let mut cx2 = DeriveContext::new();
    cx2.needs_pin_projection();
    assert!(cx2.pin_projection);
}

#[test]
fn copy_gets_clone_from_derive() {
    // `#[enum_derive(Copy)]`: `Clone` is added and handed on with `Copy`.
    let f = Features::default_set();
    let p = plan_derives(&f, &names(&["Copy"]));
    assert!(p.impls.is_empty());
    let pass: Vec<(String, Option<usize>)> = p.passthrough.into_iter().map(|a| (a.name, a.arg)).collect();
    assert_eq!(pass, vec![("Clone".to_string(), None), ("Copy".to_string(), Some(0))]);
}

#[test]
fn shared_requirement_is_added_once() {
    // `#[enum_derive(DoubleEndedIterator, ExactSizeIterator)]`: one `Iterator`.
    let f = Features::default_set();
    let p = plan_derives(&f, &names(&["DoubleEndedIterator", "ExactSizeIterator"]));
    let kinds: Vec<DeriveKind> = p.impls.iter().map(|i| i.kind).collect();
    assert_eq!(kinds, vec![DeriveKind::Iterator, DeriveKind::DoubleEndedIterator, DeriveKind::ExactSizeIterator]);
    assert!(p.passthrough.is_empty());
}

#[test]
fn requirements_are_closed() {
    let f = Features::all();
    for s in ["Iterator", "Clone", "PartialEq", "Debug", "Display", "Read", ""] {
        assert!(get_trait_deps(&f, s).is_none(), "{}", s);
    }
    assert_eq!(get_trait_deps(&f, "Ord"), Some(vec!["PartialOrd", "Eq", "PartialEq"]));
    assert_eq!(get_trait_deps(&f, "Fn"), Some(vec!["FnMut", "FnOnce"]));
    assert_eq!(get_trait_deps(&f, "FnMut"), Some(vec!["FnOnce"]));
    assert_eq!(get_trait_deps(&Features::default_set(), "Fn"), None);
}
