use auto_enums::ast::{
    ArgItem, Arm, Arms, AttrMeta, Attribute, Attrs, Block, Expr, ExprKind, Exprs, GenericArg, ItemFn, Local,
    Macro, Parts, Path, Paths, RawArgs, ReturnType, Segment, Stmt, Stmts,
};
use auto_enums::context::{Error, ErrorKind};
use auto_enums::expand::{attribute, Input};

fn path(names: &[&str]) -> Path {
    Path {
        leading_colon: false,
        segments: names.iter().map(|n| Segment { ident: n.to_string(), has_args: false }).collect(),
        handle: 0,
    }
}

fn no_args() -> RawArgs {
    RawArgs { items: vec![], error: None }
}

fn traits(names: &[&str]) -> RawArgs {
    RawArgs { items: names.iter().map(|n| ArgItem::Trait(path(&[n]))).collect(), error: None }
}

fn attr(name: &str, meta: AttrMeta, handle: u64) -> Attribute {
    Attribute { ident: Some(name.to_string()), meta, args: no_args(), target_text: String::new(), handle }
}

fn auto_enum_attr(args: RawArgs, text: &str, handle: u64) -> Attribute {
    Attribute {
        ident: Some("auto_enum".to_string()),
        meta: AttrMeta::List,
        args,
        target_text: text.to_string(),
        handle,
    }
}

fn attrs(v: Vec<Attribute>) -> Attrs {
    v.into_iter().rev().fold(Attrs::Nil, |acc, a| Attrs::Cons(Box::new(a), Box::new(acc)))
}

fn ex(kind: ExprKind, handle: u64) -> Expr {
    Expr { attrs: Attrs::Nil, kind, handle }
}

fn with_attrs(mut e: Expr, v: Vec<Attribute>) -> Expr {
    e.attrs = attrs(v);
    e
}

/// A value that is no branch: a literal or a call.
fn leaf(handle: u64) -> Expr {
    ex(ExprKind::Other(Parts::Nil), handle)
}

fn var(name: &str, handle: u64) -> Expr {
    ex(ExprKind::Path(path(&[name])), handle)
}

fn stmts(v: Vec<Stmt>) -> Stmts {
    v.into_iter().rev().fold(Stmts::Nil, |acc, s| Stmts::Cons(Box::new(s), Box::new(acc)))
}

fn block(v: Vec<Stmt>, handle: u64) -> Block {
    Block { stmts: stmts(v), handle }
}

fn block_of(e: Expr, handle: u64) -> Block {
    block(vec![Stmt::Expr(e, false)], handle)
}

fn arm(body: Expr, handle: u64) -> Arm {
    Arm { attrs: Attrs::Nil, guard: None, body: Box::new(body), comma: false, handle }
}

fn arms(v: Vec<Arm>) -> Arms {
    v.into_iter().rev().fold(Arms::Nil, |acc, a| Arms::Cons(Box::new(a), Box::new(acc)))
}

fn match_expr(arms_: Vec<Arm>, handle: u64) -> Expr {
    ex(ExprKind::Match(Box::new(var("x", 90)), arms(arms_)), handle)
}

fn if_else(then_: Expr, else_: Option<Expr>, handle: u64) -> Expr {
    let el = else_.map(|e| Box::new(ex(ExprKind::Block(block_of(e, handle + 1)), handle + 2)));
    ex(ExprKind::If(Box::new(var("c", 91)), block_of(then_, handle + 3), el), handle)
}

fn marker(body: Expr, handle: u64) -> Expr {
    ex(ExprKind::Macro(Macro { path: path(&["marker"]), body: Some(Ok(Box::new(body))), handle }), handle)
}

fn arms_vec(a: &Arms) -> Vec<&Arm> {
    let mut out = vec![];
    let mut cur = a;
    while let Arms::Cons(h, t) = cur {
        out.push(&**h);
        cur = t;
    }
    out
}

fn stmts_vec(s: &Stmts) -> Vec<&Stmt> {
    let mut out = vec![];
    let mut cur = s;
    while let Stmts::Cons(h, t) = cur {
        out.push(&**h);
        cur = t;
    }
    out
}

fn paths_len(p: &Paths) -> usize {
    match p {
        Paths::Nil => 0,
        Paths::Cons(_, t) => 1 + paths_len(t),
    }
}

/// The enum number and variant number of a wrapped expression, and its handle
/// inside.
fn variant_of(e: &Expr) -> Option<(u64, usize, u64)> {
    match &e.kind {
        ExprKind::Variant(id, i, inner) => Some((*id, *i, inner.handle)),
        _ => None,
    }
}

fn expect_errors(r: Result<Input, Vec<Error>>) -> Vec<Error> {
    match r {
        Ok(_) => panic!("expected errors"),
        Err(es) => es,
    }
}

#[test]
fn match_arms_are_wrapped_in_order() {
    let e = match_expr(vec![arm(leaf(10), 1), arm(leaf(11), 2)], 5);
    let r = attribute("match x { .. }", 100, traits(&["Iterator"]), Input::Expr(e));
    let out = match r {
        Ok(Input::Expr(out)) => out,
        _ => panic!("expected an expression"),
    };
    match &out.kind {
        ExprKind::WithEnum(d, inner) => {
            assert_eq!(d.variants, 2);
            assert_eq!(paths_len(&d.traits), 1);
            match &inner.kind {
                ExprKind::Match(_, a) => {
                    let a = arms_vec(a);
                    assert_eq!(a.len(), 2);
                    assert_eq!(variant_of(&a[0].body), Some((d.id, 0, 10)));
                    assert_eq!(variant_of(&a[1].body), Some((d.id, 1, 11)));
                    assert!(a[0].comma && a[1].comma);
                },
                _ => panic!("expected the match"),
            }
        },
        _ => panic!("expected the enum before the expression"),
    }
}

#[test]
fn same_text_same_enum_number() {
    let a = attribute("same", 100, traits(&["Iterator"]), Input::Expr(match_expr(vec![arm(leaf(10), 1), arm(leaf(11), 2)], 5)));
    let b = attribute("same", 200, traits(&["Iterator"]), Input::Expr(match_expr(vec![arm(leaf(10), 1), arm(leaf(11), 2)], 5)));
    let id = |r: Result<Input, Vec<Error>>| match r {
        Ok(Input::Expr(Expr { kind: ExprKind::WithEnum(d, _), .. })) => d.id,
        _ => panic!("expected an enum"),
    };
    assert_eq!(id(a), id(b));
}

#[test]
fn never_and_diverging_arms_are_skipped() {
    let never_arm = Arm { attrs: attrs(vec![attr("never", AttrMeta::Path, 30)]), ..arm(leaf(12), 3) };
    let panic_arm = arm(ex(ExprKind::Macro(Macro { path: path(&["panic"]), body: Some(Err(0)), handle: 31 }), 31), 4);
    let ret_arm = arm(ex(ExprKind::Return(None), 32), 6);
    let e = match_expr(vec![arm(leaf(10), 1), never_arm, panic_arm, ret_arm, arm(leaf(11), 2)], 5);
    let r = attribute("t", 100, traits(&["Iterator"]), Input::Expr(e));
    let out = match r {
        Ok(Input::Expr(out)) => out,
        _ => panic!("expected an expression"),
    };
    match &out.kind {
        ExprKind::WithEnum(d, inner) => {
            assert_eq!(d.variants, 2);
            match &inner.kind {
                ExprKind::Match(_, a) => {
                    let a = arms_vec(a);
                    assert_eq!(variant_of(&a[0].body), Some((d.id, 0, 10)));
                    assert_eq!(variant_of(&a[1].body), None);
                    // `#[never]` is removed after the walk.
                    assert!(matches!(a[1].attrs, Attrs::Nil));
                    assert_eq!(variant_of(&a[2].body), None);
                    assert_eq!(variant_of(&a[3].body), None);
                    assert_eq!(variant_of(&a[4].body), Some((d.id, 1, 11)));
                },
                _ => panic!("expected the match"),
            }
        },
        _ => panic!("expected an enum"),
    }
}

#[test]
fn if_without_else_is_an_error() {
    let e = if_else(leaf(10), None, 20);
    let es = expect_errors(attribute("t", 100, traits(&["Iterator"]), Input::Expr(e)));
    assert_eq!(es, vec![Error { kind: ErrorKind::IfWithoutElse, at: 20 }]);
}

#[test]
fn if_else_branches_are_wrapped() {
    let e = if_else(leaf(10), Some(leaf(11)), 20);
    let out = match attribute("t", 100, traits(&["Iterator"]), Input::Expr(e)) {
        Ok(Input::Expr(out)) => out,
        _ => panic!("expected an expression"),
    };
    match &out.kind {
        ExprKind::WithEnum(d, inner) => {
            assert_eq!(d.variants, 2);
            match &inner.kind {
                ExprKind::If(_, t, Some(el)) => {
                    let ts = stmts_vec(&t.stmts);
                    assert_eq!(ts.len(), 1);
                    match ts[0] {
                        Stmt::Expr(w, false) => assert_eq!(variant_of(w).map(|v| (v.0, v.1)), Some((d.id, 0))),
                        _ => panic!("expected the wrapped block"),
                    }
                    assert_eq!(t.handle, 23);
                    match &el.kind {
                        ExprKind::Block(b) => match stmts_vec(&b.stmts)[0] {
                            Stmt::Expr(w, false) => assert_eq!(variant_of(w).map(|v| (v.0, v.1)), Some((d.id, 1))),
                            _ => panic!("expected the wrapped block"),
                        },
                        _ => panic!("expected the else block"),
                    }
                },
                _ => panic!("expected the if"),
            }
        },
        _ => panic!("expected an enum"),
    }
}

#[test]
fn one_branch_is_too_few() {
    let e = if_else(leaf(10), Some(ex(ExprKind::Return(None), 40)), 20);
    let es = expect_errors(attribute("t", 100, traits(&["Iterator"]), Input::Expr(e)));
    assert_eq!(es, vec![Error { kind: ErrorKind::TooFewBranches { markers_only: false, none: false }, at: 100 }]);
}

#[test]
fn no_branch_is_too_few() {
    let es = expect_errors(attribute("t", 100, traits(&["Iterator"]), Input::Expr(leaf(10))));
    assert_eq!(es, vec![Error { kind: ErrorKind::TooFewBranches { markers_only: false, none: true }, at: 100 }]);
}

#[test]
fn after_a_semicolon_only_markers_count() {
    // `if c { marker!(a) } else { marker!(b) };`
    let e = if_else(marker(leaf(10), 50), Some(marker(leaf(11), 51)), 20);
    let out = match attribute("t", 100, traits(&["Iterator"]), Input::Stmt(Stmt::Expr(e, true))) {
        Ok(Input::Stmt(Stmt::Expr(out, true))) => out,
        _ => panic!("expected the statement"),
    };
    match &out.kind {
        ExprKind::WithEnum(d, inner) => {
            assert_eq!(d.variants, 2);
            match &inner.kind {
                ExprKind::If(_, t, _) => match stmts_vec(&t.stmts)[0] {
                    // The marker macro became its argument in variant 0; the
                    // block itself was not wrapped.
                    Stmt::Expr(w, false) => assert_eq!(variant_of(w), Some((d.id, 0, 10))),
                    _ => panic!("expected the marker's replacement"),
                },
                _ => panic!("expected the if"),
            }
        },
        _ => panic!("expected an enum"),
    }
}

#[test]
fn a_single_marker_after_semicolon_is_too_few() {
    let e = if_else(marker(leaf(10), 50), Some(leaf(11)), 20);
    let es = expect_errors(attribute("t", 100, traits(&["Iterator"]), Input::Stmt(Stmt::Expr(e, true))));
    assert_eq!(es, vec![Error { kind: ErrorKind::TooFewBranches { markers_only: true, none: false }, at: 100 }]);
}

#[test]
fn loop_breaks_are_wrapped() {
    // `loop { if c { break a; } break; }`
    let brk = |v: Option<Expr>, h: u64| ex(ExprKind::Break(None, v.map(Box::new)), h);
    let body = block(
        vec![Stmt::Expr(if_else(brk(Some(leaf(10)), 60), Some(leaf(13)), 20), false), Stmt::Expr(brk(None, 61), true)],
        70,
    );
    let e = ex(ExprKind::Loop(None, body), 5);
    let out = match attribute("t", 100, traits(&["Iterator"]), Input::Expr(e)) {
        Ok(Input::Expr(out)) => out,
        _ => panic!("expected an expression"),
    };
    match &out.kind {
        ExprKind::WithEnum(d, inner) => {
            assert_eq!(d.variants, 2);
            match &inner.kind {
                ExprKind::Loop(_, b) => {
                    let ss = stmts_vec(&b.stmts);
                    match ss[1] {
                        Stmt::Expr(Expr { kind: ExprKind::Break(None, Some(v)), .. }, true) => {
                            assert_eq!(variant_of(v).map(|x| (x.0, x.1)), Some((d.id, 1)));
                        },
                        _ => panic!("expected the second break"),
                    }
                },
                _ => panic!("expected the loop"),
            }
        },
        _ => panic!("expected an enum"),
    }
}

#[test]
fn impl_trait_function_wraps_returns() {
    // `fn f() -> impl Trait { if c { return a; } if d { b } else { c } }`
    let first = Stmt::Expr(if_else(ex(ExprKind::Return(Some(Box::new(leaf(10)))), 41), None, 20), false);
    let last = Stmt::Expr(if_else(leaf(11), Some(leaf(12)), 30), false);
    let f = ItemFn { output: ReturnType::ImplTrait, block: block(vec![first, last], 80), handle: 8 };
    let out = match attribute("t", 100, traits(&["Iterator"]), Input::Fn(f)) {
        Ok(Input::Fn(out)) => out,
        Ok(_) => panic!("expected a function"),
        Err(es) => panic!("unexpected errors {:?}", es),
    };
    let ss = stmts_vec(&out.block.stmts);
    assert_eq!(ss.len(), 3);
    match ss[0] {
        Stmt::Enum(d) => assert_eq!(d.variants, 3),
        _ => panic!("expected the enum first"),
    }
}

#[test]
fn result_function_rewrites_question_marks() {
    let q = |h: u64| Stmt::Expr(ex(ExprKind::Try(Box::new(leaf(h))), h + 1), true);
    let ok = ex(ExprKind::Call(Box::new(var("Ok", 50)), Exprs::Cons(Box::new(leaf(51)), Box::new(Exprs::Nil))), 52);
    let out_ty = ReturnType::Path(path(&["Result"]), Some(vec![GenericArg::Type, GenericArg::ImplTraitType]));
    let f = ItemFn { output: out_ty, block: block(vec![q(10), q(20), Stmt::Expr(ok, false)], 80), handle: 8 };
    let out = match attribute("t", 100, traits(&["Error"]), Input::Fn(f)) {
        Ok(Input::Fn(out)) => out,
        Ok(_) => panic!("expected a function"),
        Err(es) => panic!("unexpected errors {:?}", es),
    };
    let ss = stmts_vec(&out.block.stmts);
    let id = match ss[0] {
        Stmt::Enum(d) => {
            assert_eq!(d.variants, 2);
            d.id
        },
        _ => panic!("expected the enum first"),
    };
    for (k, s) in ss[1..3].iter().enumerate() {
        match s {
            Stmt::Expr(Expr { kind: ExprKind::TryMatch(_, _, ret), .. }, true) => match &ret.kind {
                ExprKind::ErrCall(v) => assert_eq!(variant_of(v).map(|x| (x.0, x.1)), Some((id, k))),
                _ => panic!("expected Err(..)"),
            },
            _ => panic!("expected a rewritten `?`"),
        }
    }
}

#[test]
fn one_question_mark_is_not_rewritten() {
    let q = Stmt::Expr(ex(ExprKind::Try(Box::new(leaf(10))), 11), true);
    let out_ty = ReturnType::Path(path(&["std", "result", "Result"]), Some(vec![GenericArg::Type, GenericArg::ImplTraitType]));
    let f = ItemFn { output: out_ty, block: block(vec![q, Stmt::Expr(leaf(12), false)], 80), handle: 8 };
    let es = expect_errors(attribute("t", 100, traits(&["Error"]), Input::Fn(f)));
    assert_eq!(es, vec![Error { kind: ErrorKind::TooFewBranches { markers_only: false, none: true }, at: 100 }]);
}

#[test]
fn empty_function_is_an_error() {
    let f = ItemFn { output: ReturnType::ImplTrait, block: block(vec![], 80), handle: 8 };
    let es = expect_errors(attribute("t", 100, traits(&["Iterator"]), Input::Fn(f)));
    assert_eq!(es[0], Error { kind: ErrorKind::EmptyFunction, at: 80 });
}

#[test]
fn uninitialized_let_is_an_error() {
    let l = Local { attrs: Attrs::Nil, init: None, diverge: None, handle: 9 };
    let es = expect_errors(attribute("t", 100, traits(&["Iterator"]), Input::Stmt(Stmt::Local(l))));
    assert_eq!(es, vec![Error { kind: ErrorKind::UninitializedLet, at: 9 }]);
}

#[test]
fn let_initializer_gets_the_enum() {
    let init = match_expr(vec![arm(leaf(10), 1), arm(leaf(11), 2)], 5);
    let l = Local { attrs: Attrs::Nil, init: Some(Box::new(init)), diverge: None, handle: 9 };
    match attribute("t", 100, traits(&["Iterator"]), Input::Stmt(Stmt::Local(l))) {
        Ok(Input::Stmt(Stmt::Local(l))) => {
            assert!(matches!(l.init.as_deref(), Some(Expr { kind: ExprKind::WithEnum(_, _), .. })))
        },
        _ => panic!("expected the let"),
    }
}

#[test]
fn other_items_are_refused() {
    let es = expect_errors(attribute("t", 100, traits(&["Iterator"]), Input::Stmt(Stmt::Item(7))));
    assert_eq!(es, vec![Error { kind: ErrorKind::UnsupportedItem, at: 7 }]);
}

#[test]
fn unreadable_input_gives_two_errors() {
    let es = expect_errors(attribute("t", 100, traits(&["Iterator"]), Input::Invalid(7)));
    assert_eq!(
        es,
        vec![Error { kind: ErrorKind::Syntax(7), at: 7 }, Error { kind: ErrorKind::UnsupportedItem, at: 100 }]
    );
}

#[test]
fn duplicate_marker_argument() {
    let raw = RawArgs {
        items: vec![
            ArgItem::Marker { ident: "a".to_string(), handle: 1 },
            ArgItem::Trait(path(&["Iterator"])),
            ArgItem::Marker { ident: "b".to_string(), handle: 2 },
        ],
        error: None,
    };
    let es = expect_errors(attribute("t", 100, raw, Input::Expr(leaf(10))));
    assert_eq!(es, vec![Error { kind: ErrorKind::DuplicateMarker, at: 2 }]);
}

#[test]
fn argument_syntax_error() {
    let raw = RawArgs { items: vec![ArgItem::Trait(path(&["Iterator"]))], error: Some(3) };
    let es = expect_errors(attribute("t", 100, raw, Input::Expr(leaf(10))));
    assert_eq!(es, vec![Error { kind: ErrorKind::Syntax(3), at: 3 }]);
}

#[test]
fn no_traits_leaves_the_input() {
    let e = match_expr(vec![arm(leaf(10), 1), arm(leaf(11), 2)], 5);
    match attribute("t", 100, no_args(), Input::Expr(e)) {
        Ok(Input::Expr(out)) => match &out.kind {
            ExprKind::Match(_, a) => {
                let a = arms_vec(a);
                assert_eq!(variant_of(&a[0].body), None);
            },
            _ => panic!("expected the match unchanged"),
        },
        _ => panic!("expected an expression"),
    }
}

#[test]
fn rec_match_in_match() {
    // `match x { 0 => a, #[rec] n if n > 3 => match x { 2..=10 => b, _ => c }, _ => d }`:
    // `#[rec]` is the older name of `#[nested]`; the inner arms get variants of their own.
    let inner = match_expr(vec![arm(leaf(10), 1), arm(leaf(11), 2)], 6);
    let mut rec_arm = arm(inner, 3);
    rec_arm.attrs = attrs(vec![attr("rec", AttrMeta::Path, 44)]);
    rec_arm.guard = Some(Box::new(var("g", 92)));
    let e = match_expr(vec![arm(leaf(12), 7), rec_arm, arm(leaf(13), 4)], 5);
    let out = match attribute("t", 100, traits(&["Iterator"]), Input::Expr(e)) {
        Ok(Input::Expr(out)) => out,
        Ok(_) => panic!("expected an expression"),
        Err(es) => panic!("unexpected errors {:?}", es),
    };
    match &out.kind {
        ExprKind::WithEnum(d, m) => {
            assert_eq!(d.variants, 4);
            match &m.kind {
                ExprKind::Match(_, a) => {
                    let a = arms_vec(a);
                    assert!(matches!(a[1].attrs, Attrs::Nil));
                    assert_eq!(variant_of(&a[1].body), None);
                    match &a[1].body.kind {
                        ExprKind::Match(_, ia) => {
                            let ia = arms_vec(ia);
                            assert!(variant_of(&ia[0].body).is_some());
                            assert!(variant_of(&ia[1].body).is_some());
                        },
                        _ => panic!("expected the inner match"),
                    }
                },
                _ => panic!("expected the match"),
            }
        },
        _ => panic!("expected an enum"),
    }
}

#[test]
fn never_with_arguments_is_an_error() {
    let body = with_attrs(leaf(10), vec![attr("never", AttrMeta::List, 45)]);
    let e = match_expr(vec![arm(body, 1), arm(leaf(11), 2)], 5);
    let es = expect_errors(attribute("t", 100, traits(&["Iterator"]), Input::Expr(e)));
    assert_eq!(es, vec![Error { kind: ErrorKind::PathOnlyRequired, at: 45 }]);
}

#[test]
fn nested_expands_the_inner_match() {
    // `match x { 0 => #[nested] match x { 1 => a, _ => b }, _ => c }`
    let inner = with_attrs(
        match_expr(vec![arm(leaf(10), 1), arm(leaf(11), 2)], 6),
        vec![attr("nested", AttrMeta::Path, 46)],
    );
    let e = match_expr(vec![arm(inner, 3), arm(leaf(12), 4)], 5);
    let out = match attribute("t", 100, traits(&["Iterator"]), Input::Expr(e)) {
        Ok(Input::Expr(out)) => out,
        Ok(_) => panic!("expected an expression"),
        Err(es) => panic!("unexpected errors {:?}", es),
    };
    match &out.kind {
        ExprKind::WithEnum(d, _) => assert_eq!(d.variants, 3),
        _ => panic!("expected an enum"),
    }
}

#[test]
fn inner_attribute_makes_its_own_enum() {
    // `match x { 0 => #[auto_enum(Iterator)] match x { 1 => a, _ => b }, 1 => c, _ => d }`
    let inner = with_attrs(
        match_expr(vec![arm(leaf(10), 1), arm(leaf(11), 2)], 6),
        vec![auto_enum_attr(traits(&["Iterator"]), "inner text", 47)],
    );
    let e = match_expr(vec![arm(inner, 3), arm(leaf(12), 4), arm(leaf(13), 7)], 5);
    let out = match attribute("outer text", 100, traits(&["Iterator"]), Input::Expr(e)) {
        Ok(Input::Expr(out)) => out,
        Ok(_) => panic!("expected an expression"),
        Err(es) => panic!("unexpected errors {:?}", es),
    };
    match &out.kind {
        ExprKind::WithEnum(d, m) => {
            // The arm whose expression carries its own attribute is not a
            // branch of the outer enum.
            assert_eq!(d.variants, 2);
            match &m.kind {
                ExprKind::Match(_, a) => {
                    let a = arms_vec(a);
                    assert_eq!(variant_of(&a[1].body), Some((d.id, 0, 12)));
                    assert_eq!(variant_of(&a[2].body), Some((d.id, 1, 13)));
                    match &a[0].body.kind {
                        ExprKind::WithEnum(d2, m2) => {
                            assert_eq!(d2.variants, 2);
                            assert_ne!(d2.id, d.id);
                            match &m2.kind {
                                ExprKind::Match(_, b) => {
                                    let b = arms_vec(b);
                                    assert_eq!(variant_of(&b[0].body), Some((d2.id, 0, 10)));
                                    assert_eq!(variant_of(&b[1].body), Some((d2.id, 1, 11)));
                                },
                                _ => panic!("expected the inner match"),
                            }
                        },
                        _ => panic!("expected the inner enum"),
                    }
                },
                _ => panic!("expected the outer match"),
            }
        },
        _ => panic!("expected the outer enum"),
    }
}

#[test]
fn inner_attribute_without_arguments_is_an_error() {
    let inner = with_attrs(match_expr(vec![arm(leaf(10), 1), arm(leaf(11), 2)], 6), vec![attr("auto_enum", AttrMeta::Path, 48)]);
    let e = match_expr(vec![arm(inner, 3), arm(leaf(12), 4)], 5);
    let es = expect_errors(attribute("t", 100, traits(&["Iterator"]), Input::Expr(e)));
    assert_eq!(es, vec![Error { kind: ErrorKind::ListRequired, at: 48 }]);
}

#[test]
fn closure_body_is_rewritten() {
    let body = match_expr(vec![arm(leaf(10), 1), arm(leaf(11), 2)], 6);
    let e = ex(ExprKind::Closure(Box::new(body)), 5);
    match attribute("t", 100, traits(&["Iterator"]), Input::Expr(e)) {
        Ok(Input::Expr(out)) => match &out.kind {
            ExprKind::WithEnum(d, c) => {
                assert_eq!(d.variants, 2);
                assert!(matches!(c.kind, ExprKind::Closure(_)));
            },
            _ => panic!("expected an enum"),
        },
        _ => panic!("expected an expression"),
    }
}
