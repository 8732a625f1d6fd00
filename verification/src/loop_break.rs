//! The `break` expressions that leave a `loop` whose value is the last
//! expression of an `#[auto_enum]` attribute: each one's value is wrapped in
//! the next variant.

use vstd::prelude::*;

use crate::ast::{
    any_empty_attr, has_empty_attr, Arm, Arms, Attrs, Block, Expr, ExprKind, Exprs, Local, Part, Parts,
    Stmt, Stmts,
};
use crate::context::{marker_expr, next_st, unit, wrap, Context, St};
use crate::text::str_eq;

verus! {

/// Whether the label of a `break` names the loop with label `lab`: both
/// are absent, or both name the same identifier.
pub open spec fn labels_eq(lab: Option<String>, other: Option<String>) -> bool {
    match (lab, other) {
        (None, None) => true,
        (Some(a), Some(b)) => a@ == b@,
        _ => false,
    }
}

/// Whether a `break` with label `other` leaves the loop with label `lab`,
/// where `nested` says whether the `break` stands inside another loop.
pub open spec fn leaves(lab: Option<String>, nested: bool, other: Option<String>) -> bool {
    (!nested && other is None) || labels_eq(lab, other)
}

/// The expression after its `break`s out of the loop with label `lab` got
/// their values wrapped: the search stops at `#[never]`, closures, `async`
/// blocks, nested items and, for an unlabelled loop, inner loops; below an
/// inner loop of a labelled one only a `break` with the label counts. A
/// missing value is `()`, and a value that is a marker macro stays.
pub open spec fn lv_expr(st: St, lab: Option<String>, nested: bool, e: Expr) -> (St, Expr)
    decreases e,
{
    if has_empty_attr(e.attrs, "never"@) {
        (st, e)
    } else {
        match e.kind {
            ExprKind::Closure(_) => (st, e),
            ExprKind::Async(_) => (st, e),
            ExprKind::Loop(l, b) => if lab is None {
                (st, e)
            } else {
                let (st1, b1) = lv_block(st, lab, true, b);
                (st1, Expr { kind: ExprKind::Loop(l, b1), ..e })
            },
            ExprKind::ForLoop(l, x, b) => if lab is None {
                (st, e)
            } else {
                let (st1, x1) = lv_expr(st, lab, true, *x);
                let (st2, b1) = lv_block(st1, lab, true, b);
                (st2, Expr { kind: ExprKind::ForLoop(l, Box::new(x1), b1), ..e })
            },
            ExprKind::While(l, x, b) => if lab is None {
                (st, e)
            } else {
                let (st1, x1) = lv_expr(st, lab, true, *x);
                let (st2, b1) = lv_block(st1, lab, true, b);
                (st2, Expr { kind: ExprKind::While(l, Box::new(x1), b1), ..e })
            },
            ExprKind::Break(l, v) => if leaves(lab, nested, l) {
                match v {
                    None => (next_st(st), Expr { kind: ExprKind::Break(l, Some(Box::new(wrap(st.enum_id, st.variants, Attrs::Nil, unit())))), ..e }),
                    Some(x) => if marker_expr(st.scope, *x) {
                        (st, e)
                    } else {
                        let (st1, x1) = lv_expr(next_st(st), lab, nested, *x);
                        (st1, Expr { kind: ExprKind::Break(l, Some(Box::new(wrap(st.enum_id, st.variants, Attrs::Nil, x1)))), ..e })
                    },
                }
            } else {
                let (st1, v1) = lv_opt(st, lab, nested, v);
                (st1, Expr { kind: ExprKind::Break(l, v1), ..e })
            },
            ExprKind::Block(b) => {
                let (st1, b1) = lv_block(st, lab, nested, b);
                (st1, Expr { kind: ExprKind::Block(b1), ..e })
            },
            ExprKind::Unsafe(b) => {
                let (st1, b1) = lv_block(st, lab, nested, b);
                (st1, Expr { kind: ExprKind::Unsafe(b1), ..e })
            },
            ExprKind::TryBlock(b) => {
                let (st1, b1) = lv_block(st, lab, nested, b);
                (st1, Expr { kind: ExprKind::TryBlock(b1), ..e })
            },
            ExprKind::Match(x, arms) => {
                let (st1, x1) = lv_expr(st, lab, nested, *x);
                let (st2, a1) = lv_arms(st1, lab, nested, arms);
                (st2, Expr { kind: ExprKind::Match(Box::new(x1), a1), ..e })
            },
            ExprKind::If(c, t, el) => {
                let (st1, c1) = lv_expr(st, lab, nested, *c);
                let (st2, t1) = lv_block(st1, lab, nested, t);
                let (st3, el1) = lv_opt(st2, lab, nested, el);
                (st3, Expr { kind: ExprKind::If(Box::new(c1), t1, el1), ..e })
            },
            ExprKind::MethodCall(r, args) => {
                let (st1, r1) = lv_expr(st, lab, nested, *r);
                let (st2, a1) = lv_exprs(st1, lab, nested, args);
                (st2, Expr { kind: ExprKind::MethodCall(Box::new(r1), a1), ..e })
            },
            ExprKind::Paren(x) => {
                let (st1, x1) = lv_expr(st, lab, nested, *x);
                (st1, Expr { kind: ExprKind::Paren(Box::new(x1)), ..e })
            },
            ExprKind::Return(v) => {
                let (st1, v1) = lv_opt(st, lab, nested, v);
                (st1, Expr { kind: ExprKind::Return(v1), ..e })
            },
            ExprKind::Try(x) => {
                let (st1, x1) = lv_expr(st, lab, nested, *x);
                (st1, Expr { kind: ExprKind::Try(Box::new(x1)), ..e })
            },
            ExprKind::Call(f, args) => {
                let (st1, f1) = lv_expr(st, lab, nested, *f);
                let (st2, a1) = lv_exprs(st1, lab, nested, args);
                (st2, Expr { kind: ExprKind::Call(Box::new(f1), a1), ..e })
            },
            ExprKind::Other(parts) => {
                let (st1, p1) = lv_parts(st, lab, nested, parts);
                (st1, Expr { kind: ExprKind::Other(p1), ..e })
            },
            ExprKind::Variant(id, i, x) => {
                let (st1, x1) = lv_expr(st, lab, nested, *x);
                (st1, Expr { kind: ExprKind::Variant(id, i, Box::new(x1)), ..e })
            },
            ExprKind::TryMatch(x, ok, ret) => {
                let (st1, x1) = lv_expr(st, lab, nested, *x);
                let (st2, ok1) = lv_expr(st1, lab, nested, *ok);
                let (st3, ret1) = lv_expr(st2, lab, nested, *ret);
                (st3, Expr { kind: ExprKind::TryMatch(Box::new(x1), Box::new(ok1), Box::new(ret1)), ..e })
            },
            ExprKind::ErrCall(x) => {
                let (st1, x1) = lv_expr(st, lab, nested, *x);
                (st1, Expr { kind: ExprKind::ErrCall(Box::new(x1)), ..e })
            },
            ExprKind::WithEnum(d, x) => {
                let (st1, x1) = lv_expr(st, lab, nested, *x);
                (st1, Expr { kind: ExprKind::WithEnum(d, Box::new(x1)), ..e })
            },
            _ => (st, e),
        }
    }
}

/// The optional expression after the search.
pub open spec fn lv_opt(st: St, lab: Option<String>, nested: bool, x: Option<Box<Expr>>) -> (St, Option<Box<Expr>>)
    decreases x,
{
    match x {
        Some(e) => {
            let (st1, e1) = lv_expr(st, lab, nested, *e);
            (st1, Some(Box::new(e1)))
        },
        None => (st, None),
    }
}

/// The expressions after the search, in order.
pub open spec fn lv_exprs(st: St, lab: Option<String>, nested: bool, es: Exprs) -> (St, Exprs)
    decreases es,
{
    match es {
        Exprs::Nil => (st, Exprs::Nil),
        Exprs::Cons(e, t) => {
            let (st1, e1) = lv_expr(st, lab, nested, *e);
            let (st2, t1) = lv_exprs(st1, lab, nested, *t);
            (st2, Exprs::Cons(Box::new(e1), Box::new(t1)))
        },
    }
}

/// The parts after the search, in order.
pub open spec fn lv_parts(st: St, lab: Option<String>, nested: bool, ps: Parts) -> (St, Parts)
    decreases ps,
{
    match ps {
        Parts::Nil => (st, Parts::Nil),
        Parts::Cons(p, t) => {
            let (st1, p1) = match *p {
                Part::Expr(e) => {
                    let (s, e1) = lv_expr(st, lab, nested, e);
                    (s, Part::Expr(e1))
                },
                Part::Block(b) => {
                    let (s, b1) = lv_block(st, lab, nested, b);
                    (s, Part::Block(b1))
                },
            };
            let (st2, t1) = lv_parts(st1, lab, nested, *t);
            (st2, Parts::Cons(Box::new(p1), Box::new(t1)))
        },
    }
}

/// The arms after the search: guards and bodies, in order.
pub open spec fn lv_arms(st: St, lab: Option<String>, nested: bool, arms: Arms) -> (St, Arms)
    decreases arms,
{
    match arms {
        Arms::Nil => (st, Arms::Nil),
        Arms::Cons(a, t) => {
            let (st1, g1) = lv_opt(st, lab, nested, a.guard);
            let (st2, b1) = lv_expr(st1, lab, nested, *a.body);
            let (st3, t1) = lv_arms(st2, lab, nested, *t);
            (st3, Arms::Cons(Box::new(Arm { guard: g1, body: Box::new(b1), ..*a }), Box::new(t1)))
        },
    }
}

/// The block after the search.
pub open spec fn lv_block(st: St, lab: Option<String>, nested: bool, b: Block) -> (St, Block)
    decreases b,
{
    let (st1, s1) = lv_stmts(st, lab, nested, b.stmts);
    (st1, Block { stmts: s1, ..b })
}

/// The statements after the search: expressions and the initializers and
/// `else` blocks of `let`s; nested items and macros are left.
pub open spec fn lv_stmts(st: St, lab: Option<String>, nested: bool, stmts: Stmts) -> (St, Stmts)
    decreases stmts,
{
    match stmts {
        Stmts::Nil => (st, Stmts::Nil),
        Stmts::Cons(s, t) => {
            let (st1, s1) = match *s {
                Stmt::Expr(e, semi) => {
                    let (x, e1) = lv_expr(st, lab, nested, e);
                    (x, Stmt::Expr(e1, semi))
                },
                Stmt::Local(l) => {
                    let (x1, i1) = lv_opt(st, lab, nested, l.init);
                    let (x2, d1) = lv_opt(x1, lab, nested, l.diverge);
                    (x2, Stmt::Local(Local { init: i1, diverge: d1, ..l }))
                },
                other => (st, other),
            };
            let (st2, t1) = lv_stmts(st1, lab, nested, *t);
            (st2, Stmts::Cons(Box::new(s1), Box::new(t1)))
        },
    }
}

/// Whether the label of a `break` names the loop with label `lab`.
fn same_label(lab: &Option<String>, other: &Option<String>) -> (r: bool)
    ensures
        r == labels_eq(*lab, *other),
{
    match (lab, other) {
        (None, None) => true,
        (Some(a), Some(b)) => str_eq(a.as_str(), b.as_str()),
        _ => false,
    }
}

/// Wraps the values of the `break`s in `e` that leave the loop with label
/// `lab`.
pub fn loop_expr(cx: &mut Context, lab: &Option<String>, nested: bool, e: Expr) -> (r: Expr)
    requires
        old(cx).wf(),
    ensures
        final(cx).wf(),
        (final(cx)@, r) == lv_expr(old(cx)@, *lab, nested, e),
    decreases e,
{
    if any_empty_attr(&e.attrs, "never") {
        return e;
    }
    let ghost e0 = e;
    let Expr { attrs, kind, handle } = e;
    match kind {
        ExprKind::Closure(b) => Expr { attrs, kind: ExprKind::Closure(b), handle },
        ExprKind::Async(b) => Expr { attrs, kind: ExprKind::Async(b), handle },
        ExprKind::Loop(l, b) => {
            if lab.is_none() {
                return Expr { attrs, kind: ExprKind::Loop(l, b), handle };
            }
            let b1 = loop_block(cx, lab, true, b);
            Expr { attrs, kind: ExprKind::Loop(l, b1), handle }
        },
        ExprKind::ForLoop(l, x, b) => {
            if lab.is_none() {
                return Expr { attrs, kind: ExprKind::ForLoop(l, x, b), handle };
            }
            let x1 = loop_expr(cx, lab, true, *x);
            let b1 = loop_block(cx, lab, true, b);
            Expr { attrs, kind: ExprKind::ForLoop(l, Box::new(x1), b1), handle }
        },
        ExprKind::While(l, x, b) => {
            if lab.is_none() {
                return Expr { attrs, kind: ExprKind::While(l, x, b), handle };
            }
            let x1 = loop_expr(cx, lab, true, *x);
            let b1 = loop_block(cx, lab, true, b);
            Expr { attrs, kind: ExprKind::While(l, Box::new(x1), b1), handle }
        },
        ExprKind::Break(l, v) => {
            let hit = (!nested && l.is_none()) || same_label(lab, &l);
            if hit {
                match v {
                    None => {
                        let w = cx.next_expr(Expr { attrs: Attrs::Nil, kind: ExprKind::Unit, handle: 0 });
                        Expr { attrs, kind: ExprKind::Break(l, Some(Box::new(w))), handle }
                    },
                    Some(x) => {
                        if cx.scope.is_marker_expr(&x) {
                            Expr { attrs, kind: ExprKind::Break(l, Some(x)), handle }
                        } else {
                            let n = cx.variants.len();
                            let id = cx.enum_id;
                            cx.variants.push(n);
                            let x1 = loop_expr(cx, lab, nested, *x);
                            let w = Expr { attrs: Attrs::Nil, kind: ExprKind::Variant(id, n, Box::new(x1)), handle: 0 };
                            Expr { attrs, kind: ExprKind::Break(l, Some(Box::new(w))), handle }
                        }
                    },
                }
            } else {
                let v1 = loop_opt(cx, lab, nested, v);
                Expr { attrs, kind: ExprKind::Break(l, v1), handle }
            }
        },
        ExprKind::Block(b) => {
            let b1 = loop_block(cx, lab, nested, b);
            Expr { attrs, kind: ExprKind::Block(b1), handle }
        },
        ExprKind::Unsafe(b) => {
            let b1 = loop_block(cx, lab, nested, b);
            Expr { attrs, kind: ExprKind::Unsafe(b1), handle }
        },
        ExprKind::TryBlock(b) => {
            let b1 = loop_block(cx, lab, nested, b);
            Expr { attrs, kind: ExprKind::TryBlock(b1), handle }
        },
        ExprKind::Match(x, arms) => {
            let x1 = loop_expr(cx, lab, nested, *x);
            let a1 = loop_arms(cx, lab, nested, arms);
            Expr { attrs, kind: ExprKind::Match(Box::new(x1), a1), handle }
        },
        ExprKind::If(c, t, el) => {
            let c1 = loop_expr(cx, lab, nested, *c);
            let t1 = loop_block(cx, lab, nested, t);
            let el1 = loop_opt(cx, lab, nested, el);
            Expr { attrs, kind: ExprKind::If(Box::new(c1), t1, el1), handle }
        },
        ExprKind::MethodCall(r, args) => {
            let r1 = loop_expr(cx, lab, nested, *r);
            let a1 = loop_exprs(cx, lab, nested, args);
            Expr { attrs, kind: ExprKind::MethodCall(Box::new(r1), a1), handle }
        },
        ExprKind::Paren(x) => {
            let x1 = loop_expr(cx, lab, nested, *x);
            Expr { attrs, kind: ExprKind::Paren(Box::new(x1)), handle }
        },
        ExprKind::Return(v) => {
            let v1 = loop_opt(cx, lab, nested, v);
            Expr { attrs, kind: ExprKind::Return(v1), handle }
        },
        ExprKind::Try(x) => {
            let x1 = loop_expr(cx, lab, nested, *x);
            Expr { attrs, kind: ExprKind::Try(Box::new(x1)), handle }
        },
        ExprKind::Call(f, args) => {
            let f1 = loop_expr(cx, lab, nested, *f);
            let a1 = loop_exprs(cx, lab, nested, args);
            Expr { attrs, kind: ExprKind::Call(Box::new(f1), a1), handle }
        },
        ExprKind::Other(parts) => {
            let p1 = loop_parts(cx, lab, nested, parts);
            Expr { attrs, kind: ExprKind::Other(p1), handle }
        },
        ExprKind::Variant(id, i, x) => {
            let x1 = loop_expr(cx, lab, nested, *x);
            Expr { attrs, kind: ExprKind::Variant(id, i, Box::new(x1)), handle }
        },
        ExprKind::TryMatch(x, ok, ret) => {
            let x1 = loop_expr(cx, lab, nested, *x);
            let ok1 = loop_expr(cx, lab, nested, *ok);
            let ret1 = loop_expr(cx, lab, nested, *ret);
            Expr { attrs, kind: ExprKind::TryMatch(Box::new(x1), Box::new(ok1), Box::new(ret1)), handle }
        },
        ExprKind::ErrCall(x) => {
            let x1 = loop_expr(cx, lab, nested, *x);
            Expr { attrs, kind: ExprKind::ErrCall(Box::new(x1)), handle }
        },
        ExprKind::WithEnum(d, x) => {
            let x1 = loop_expr(cx, lab, nested, *x);
            Expr { attrs, kind: ExprKind::WithEnum(d, Box::new(x1)), handle }
        },
        other => Expr { attrs, kind: other, handle },
    }
}

fn loop_opt(cx: &mut Context, lab: &Option<String>, nested: bool, x: Option<Box<Expr>>) -> (r: Option<Box<Expr>>)
    requires
        old(cx).wf(),
    ensures
        final(cx).wf(),
        (final(cx)@, r) == lv_opt(old(cx)@, *lab, nested, x),
    decreases x,
{
    match x {
        Some(e) => Some(Box::new(loop_expr(cx, lab, nested, *e))),
        None => None,
    }
}

fn loop_exprs(cx: &mut Context, lab: &Option<String>, nested: bool, es: Exprs) -> (r: Exprs)
    requires
        old(cx).wf(),
    ensures
        final(cx).wf(),
        (final(cx)@, r) == lv_exprs(old(cx)@, *lab, nested, es),
    decreases es,
{
    match es {
        Exprs::Nil => Exprs::Nil,
        Exprs::Cons(e, t) => {
            let e1 = loop_expr(cx, lab, nested, *e);
            let t1 = loop_exprs(cx, lab, nested, *t);
            Exprs::Cons(Box::new(e1), Box::new(t1))
        },
    }
}

fn loop_parts(cx: &mut Context, lab: &Option<String>, nested: bool, ps: Parts) -> (r: Parts)
    requires
        old(cx).wf(),
    ensures
        final(cx).wf(),
        (final(cx)@, r) == lv_parts(old(cx)@, *lab, nested, ps),
    decreases ps,
{
    match ps {
        Parts::Nil => Parts::Nil,
        Parts::Cons(p, t) => {
            let p1 = match *p {
                Part::Expr(e) => Part::Expr(loop_expr(cx, lab, nested, e)),
                Part::Block(b) => Part::Block(loop_block(cx, lab, nested, b)),
            };
            let t1 = loop_parts(cx, lab, nested, *t);
            Parts::Cons(Box::new(p1), Box::new(t1))
        },
    }
}

fn loop_arms(cx: &mut Context, lab: &Option<String>, nested: bool, arms: Arms) -> (r: Arms)
    requires
        old(cx).wf(),
    ensures
        final(cx).wf(),
        (final(cx)@, r) == lv_arms(old(cx)@, *lab, nested, arms),
    decreases arms,
{
    match arms {
        Arms::Nil => Arms::Nil,
        Arms::Cons(a, t) => {
            let Arm { attrs, guard, body, comma, handle } = *a;
            let g1 = loop_opt(cx, lab, nested, guard);
            let b1 = loop_expr(cx, lab, nested, *body);
            let t1 = loop_arms(cx, lab, nested, *t);
            Arms::Cons(Box::new(Arm { attrs, guard: g1, body: Box::new(b1), comma, handle }), Box::new(t1))
        },
    }
}

/// Wraps the values of the `break`s in the block that leave the loop with
/// label `lab`.
pub fn loop_block(cx: &mut Context, lab: &Option<String>, nested: bool, b: Block) -> (r: Block)
    requires
        old(cx).wf(),
    ensures
        final(cx).wf(),
        (final(cx)@, r) == lv_block(old(cx)@, *lab, nested, b),
    decreases b,
{
    let Block { stmts, handle } = b;
    let s1 = loop_stmts(cx, lab, nested, stmts);
    Block { stmts: s1, handle }
}

fn loop_stmts(cx: &mut Context, lab: &Option<String>, nested: bool, stmts: Stmts) -> (r: Stmts)
    requires
        old(cx).wf(),
    ensures
        final(cx).wf(),
        (final(cx)@, r) == lv_stmts(old(cx)@, *lab, nested, stmts),
    decreases stmts,
{
    match stmts {
        Stmts::Nil => Stmts::Nil,
        Stmts::Cons(s, t) => {
            let s1 = match *s {
                Stmt::Expr(e, semi) => Stmt::Expr(loop_expr(cx, lab, nested, e), semi),
                Stmt::Local(l) => {
                    let Local { attrs, init, diverge, handle } = l;
                    let i1 = loop_opt(cx, lab, nested, init);
                    let d1 = loop_opt(cx, lab, nested, diverge);
                    Stmt::Local(Local { attrs, init: i1, diverge: d1, handle })
                },
                other => other,
            };
            let t1 = loop_stmts(cx, lab, nested, *t);
            Stmts::Cons(Box::new(s1), Box::new(t1))
        },
    }
}

} // verus!
