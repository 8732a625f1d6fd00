use auto_enums::ast::{
    ArgItem, Arm, Arms, AttrMeta, Attribute, Attrs, Block, Expr, ExprKind, Exprs, Local, Macro, Parts, Path,
    RawArgs, Segment, Stmt, Stmts,
};
use auto_enums::context::{collect_args, Context, Error, ErrorKind, MarkerScope, VisitLastMode, VisitMode};
use auto_enums::expand::{attribute, Input};
use auto_enums::last_expr::child_expr;
use auto_enums::scan::{count_in_expr, find_nested, is_unreachable};
use auto_enums::visitor::{visit_expr_mut, Pass};

fn path(names: &[&str]) -> Path {
    Path {
        leading_colon: false,
        segments: names.iter().map(|n| Segment { ident: n.to_string(), has_args: false }).collect(),
        handle: 0,
    }
}

fn traits(names: &[&str]) -> RawArgs {
    RawArgs { items: names.iter().map(|n| ArgItem::Trait(path(&[n]))).collect(), error: None }
}

fn ex(kind: ExprKind, handle: u64) -> Expr {
    Expr { attrs: Attrs::Nil, kind, handle }
}

fn leaf(handle: u64) -> Expr {
    ex(ExprKind::Other(Parts::Nil), handle)
}

fn attr(name: &str, meta: AttrMeta, args: RawArgs, handle: u64) -> Attribute {
    Attribute { ident: Some(name.to_string()), meta, args, target_text: "t".to_string(), handle }
}

fn one_attr(a: Attribute) -> Attrs {
    Attrs::Cons(Box::new(a), Box::new(Attrs::Nil))
}

fn arms(v: Vec<Expr>) -> Arms {
    v.into_iter().rev().fold(Arms::Nil, |acc, b| {
        Arms::Cons(Box::new(Arm { attrs: Attrs::Nil, guard: None, body: Box::new(b), comma: false, handle: 0 }), Box::new(acc))
    })
}

fn two_arm_match(handle: u64) -> Expr {
    ex(ExprKind::Match(Box::new(leaf(1)), arms(vec![leaf(10), leaf(11)])), handle)
}

fn macro_expr(name: &str, handle: u64) -> Expr {
    ex(ExprKind::Macro(Macro { path: path(&[name]), body: Some(Ok(Box::new(leaf(handle + 1)))), handle }), handle)
}

fn root(args: RawArgs) -> Context {
    match Context::root("t", 100, args) {
        Ok(cx) => cx,
        Err(_) => panic!("expected a context"),
    }
}

#[test]
fn args_are_read_in_order() {
    let raw = RawArgs {
        items: vec![
            ArgItem::Trait(path(&["Iterator"])),
            ArgItem::Marker { ident: "m".to_string(), handle: 5 },
            ArgItem::Trait(path(&["Clone"])),
        ],
        error: None,
    };
    match collect_args(raw) {
        Ok(a) => {
            let names: Vec<String> = a.traits.iter().map(|p| p.segments[0].ident.clone()).collect();
            assert_eq!(names, vec!["Iterator".to_string(), "Clone".to_string()]);
            assert_eq!(a.marker, Some(("m".to_string(), 5)));
        },
        Err(_) => panic!("expected the arguments"),
    }
}

#[test]
fn new_context_has_no_variants_and_default_marker() {
    let cx = root(traits(&["Iterator"]));
    assert!(cx.variants.is_empty());
    assert_eq!(cx.scope.current_marker, "marker");
    assert_eq!(cx.scope.markers, vec!["marker".to_string()]);
    assert!(cx.scope.root);
    assert_eq!(cx.visit_mode, VisitMode::Default);
    assert_eq!(cx.visit_last_mode, VisitLastMode::Default);
    assert!(!cx.is_dummy());
    assert!(cx.visit_last());
    assert!(root(RawArgs { items: vec![], error: None }).is_dummy());
}

#[test]
fn child_context_gives_the_markers_back() {
    let mut cx = root(traits(&["Iterator"]));
    let raw = RawArgs { items: vec![ArgItem::Marker { ident: "inner".to_string(), handle: 3 }], error: None };
    let child = match cx.make_child("u", 7, raw) {
        Ok(c) => c,
        Err(_) => panic!("expected the inner context"),
    };
    // While the inner attribute is handled, the marker names are lent to it.
    assert!(cx.scope.markers.is_empty());
    assert_eq!(child.scope.markers, vec!["marker".to_string(), "inner".to_string()]);
    assert_eq!(child.scope.current_marker, "inner");
    assert!(!child.scope.root);
    cx.join_child(child);
    assert_eq!(cx.scope.markers, vec!["marker".to_string()]);
    assert!(!cx.has_error());
}

#[test]
fn child_marker_name_in_use_is_an_error() {
    let mut cx = root(RawArgs { items: vec![ArgItem::Marker { ident: "m".to_string(), handle: 2 }], error: None });
    let raw = RawArgs { items: vec![ArgItem::Marker { ident: "m".to_string(), handle: 3 }], error: None };
    match cx.make_child("u", 7, raw) {
        Err(e) => assert_eq!(e, Error { kind: ErrorKind::MarkerInUse, at: 3 }),
        Ok(_) => panic!("expected an error"),
    }
}

#[test]
fn variants_are_numbered_in_order() {
    let mut cx = root(traits(&["Iterator"]));
    let a = cx.next_expr(leaf(1));
    let b = cx.next_expr(leaf(2));
    match (&a.kind, &b.kind) {
        (ExprKind::Variant(ia, 0, _), ExprKind::Variant(ib, 1, _)) => assert_eq!(ia, ib),
        _ => panic!("expected two variants"),
    }
    assert_eq!(cx.variants, vec![0, 1]);
    let boxed = cx.replace_boxed_expr(None);
    assert!(matches!(boxed.kind, ExprKind::Variant(_, 2, _)));
    let d = cx.build();
    match d {
        Some(d) => assert_eq!(d.variants, 3),
        None => panic!("expected the enum"),
    }
    assert!(cx.check().is_ok());
}

#[test]
fn one_variant_is_an_error_at_build() {
    let mut cx = root(traits(&["Iterator"]));
    let _ = cx.next_expr(leaf(1));
    assert!(cx.build().is_none());
    match cx.check() {
        Err(es) => assert_eq!(es, vec![Error { kind: ErrorKind::TooFewBranches { markers_only: false, none: false }, at: 100 }]),
        Ok(()) => panic!("expected an error"),
    }
}

#[test]
fn marker_macros_are_recognised() {
    let cx = root(traits(&["Iterator"]));
    assert!(cx.scope.is_marker_expr(&macro_expr("marker", 4)));
    assert!(!cx.scope.is_marker_expr(&macro_expr("vec", 4)));
    let other = MarkerScope { current_marker: "b".to_string(), markers: vec!["a".to_string(), "b".to_string()], root: false };
    // Below the outermost attribute, the markers of enclosing ones count too.
    assert!(other.is_marker_expr(&macro_expr("a", 4)));
    match &macro_expr("a", 4).kind {
        ExprKind::Macro(m) => assert!(!other.is_marker_macro_exact(m)),
        _ => panic!(),
    }
}

#[test]
fn what_cannot_produce_a_value() {
    let cx = root(traits(&["Iterator"]));
    assert!(is_unreachable(&cx.scope, &macro_expr("panic", 4)));
    assert!(is_unreachable(&cx.scope, &macro_expr("unreachable", 4)));
    assert!(is_unreachable(&cx.scope, &macro_expr("marker", 4)));
    assert!(!is_unreachable(&cx.scope, &macro_expr("vec", 4)));
    let none_q = ex(ExprKind::Try(Box::new(ex(ExprKind::Path(path(&["None"])), 1))), 2);
    assert!(is_unreachable(&cx.scope, &none_q));
    let err_call = ex(ExprKind::Call(Box::new(ex(ExprKind::Path(path(&["std", "result", "Result", "Err"])), 1)), Exprs::Cons(Box::new(leaf(3)), Box::new(Exprs::Nil))), 4);
    assert!(is_unreachable(&cx.scope, &ex(ExprKind::Try(Box::new(err_call)), 5)));
    let ok_call = ex(ExprKind::Call(Box::new(ex(ExprKind::Path(path(&["Ok"])), 1)), Exprs::Cons(Box::new(leaf(3)), Box::new(Exprs::Nil))), 4);
    assert!(!is_unreachable(&cx.scope, &ex(ExprKind::Try(Box::new(ok_call)), 5)));
    let block = ex(ExprKind::Block(Block { stmts: Stmts::Cons(Box::new(Stmt::Item(9)), Box::new(Stmts::Nil)), handle: 8 }), 7);
    assert!(is_unreachable(&cx.scope, &block));
    let empty = ex(ExprKind::Block(Block { stmts: Stmts::Nil, handle: 8 }), 7);
    assert!(!is_unreachable(&cx.scope, &empty));
}

#[test]
fn nested_annotation_is_found_but_not_inside_other_attributes() {
    let mut inner = leaf(3);
    inner.attrs = one_attr(attr("nested", AttrMeta::Path, RawArgs { items: vec![], error: None }, 4));
    let outer = ex(ExprKind::Paren(Box::new(inner)), 5);
    assert!(find_nested(&outer));
    let mut guarded = ex(ExprKind::Paren(Box::new(outer)), 6);
    guarded.attrs = one_attr(attr("auto_enum", AttrMeta::List, traits(&["Iterator"]), 7));
    assert!(!find_nested(&guarded));
}

#[test]
fn question_marks_and_returns_are_counted_outside_closures() {
    let cx = root(traits(&["Iterator"]));
    let q = ex(ExprKind::Try(Box::new(leaf(1))), 2);
    let r = ex(ExprKind::Return(None), 3);
    let in_closure = ex(ExprKind::Closure(Box::new(ex(ExprKind::Return(None), 4))), 5);
    let body = ex(
        ExprKind::Call(Box::new(q), Exprs::Cons(Box::new(r), Box::new(Exprs::Cons(Box::new(in_closure), Box::new(Exprs::Nil))))),
        6,
    );
    assert_eq!(count_in_expr(&cx.scope, false, &body), (1, 1));
    assert_eq!(count_in_expr(&cx.scope, true, &body), (0, 0));
}

#[test]
fn last_expression_rewriting_changes_only_counts() {
    let mut cx = root(traits(&["Iterator"]));
    let out = child_expr(&mut cx, two_arm_match(5));
    assert_eq!(cx.variants, vec![0, 1]);
    assert_eq!(cx.scope.markers, vec!["marker".to_string()]);
    assert_eq!(cx.visit_mode, VisitMode::Default);
    assert!(!cx.has_error());
    assert!(matches!(out.kind, ExprKind::Match(_, _)));
}

#[test]
fn walk_keeps_the_context() {
    // A walk over a `return` in `return` mode wraps it, and keeps the rest.
    let mut cx = root(traits(&["Iterator"]));
    cx.visit_mode = VisitMode::Return(1);
    let e = ex(ExprKind::Return(Some(Box::new(leaf(1)))), 2);
    let out = visit_expr_mut(1000, &mut cx, Pass::Main(auto_enums::context::Scope { closure: false, try_block: false, foreign: false }), e);
    assert_eq!(cx.variants, vec![0]);
    assert_eq!(cx.visit_mode, VisitMode::Return(1));
    assert_eq!(cx.scope.markers, vec!["marker".to_string()]);
    match out.kind {
        ExprKind::Return(Some(v)) => assert!(matches!(v.kind, ExprKind::Variant(_, 0, _))),
        _ => panic!("expected the wrapped return"),
    }
}

#[test]
fn walk_stops_after_an_error() {
    let mut cx = root(traits(&["Iterator"]));
    cx.visit_mode = VisitMode::Return(1);
    cx.error(Error { kind: ErrorKind::IfWithoutElse, at: 1 });
    let e = ex(ExprKind::Return(Some(Box::new(leaf(1)))), 2);
    let out = visit_expr_mut(1000, &mut cx, Pass::Main(auto_enums::context::Scope { closure: false, try_block: false, foreign: false }), e);
    assert!(cx.variants.is_empty());
    assert!(matches!(out.kind, ExprKind::Return(Some(_))));
    match out.kind {
        ExprKind::Return(Some(v)) => assert!(matches!(v.kind, ExprKind::Other(_))),
        _ => panic!(),
    }
}

#[test]
fn let_with_name_value_attribute_is_an_error() {
    // `{ #[auto_enum = x] let y = match .. ; match .. }`
    let l = Local {
        attrs: one_attr(attr("auto_enum", AttrMeta::NameValue, RawArgs { items: vec![], error: None }, 30)),
        init: Some(Box::new(two_arm_match(6))),
        diverge: None,
        handle: 9,
    };
    let stmts = Stmts::Cons(
        Box::new(Stmt::Local(l)),
        Box::new(Stmts::Cons(Box::new(Stmt::Expr(two_arm_match(7), false)), Box::new(Stmts::Nil))),
    );
    let e = ex(ExprKind::Block(Block { stmts, handle: 8 }), 5);
    match attribute("t", 100, traits(&["Iterator"]), Input::Expr(e)) {
        Err(es) => assert_eq!(es, vec![Error { kind: ErrorKind::ExpectedList, at: 30 }]),
        Ok(_) => panic!("expected an error"),
    }
}

#[test]
fn inner_marker_name_in_use_is_an_error() {
    let raw = RawArgs { items: vec![ArgItem::Marker { ident: "m".to_string(), handle: 2 }, ArgItem::Trait(path(&["Iterator"]))], error: None };
    let inner_args = RawArgs { items: vec![ArgItem::Marker { ident: "m".to_string(), handle: 3 }, ArgItem::Trait(path(&["Iterator"]))], error: None };
    let mut inner = two_arm_match(6);
    inner.attrs = one_attr(attr("auto_enum", AttrMeta::List, inner_args, 31));
    let e = ex(ExprKind::Match(Box::new(leaf(1)), arms(vec![inner, leaf(12), leaf(13)])), 5);
    match attribute("t", 100, raw, Input::Expr(e)) {
        Err(es) => assert_eq!(es, vec![Error { kind: ErrorKind::MarkerInUse, at: 3 }]),
        Ok(_) => panic!("expected an error"),
    }
}
