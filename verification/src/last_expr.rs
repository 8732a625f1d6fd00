//! The last expression of an `#[auto_enum]` statement or expression: each
//! branch that can produce its value (a `match` arm, an `if` or `else`
//! block, a `break` out of a `loop`) is wrapped in the next variant.

use vstd::prelude::*;

use crate::ast::{any_empty_attr, has_empty_attr, Arm, Arms, Attrs, Block, Expr, ExprKind, Stmt, Stmts};
use crate::context::{err_st, next_st, visit_last_of, wrap, Context, Error, ErrorKind, St};
use crate::loop_break::{loop_block, lv_block};
use crate::scan::{
    find_nested, find_nested_arm, find_nested_stmts, is_unreachable, is_unreachable_last, nested_arm,
    nested_expr, nested_stmts, diverges, diverges_last,
};

verus! {

/// Whether the arm is left as it is: it is marked `#[never]` or `#[nested]`,
/// its body cannot produce a value, or a `#[nested]` annotation stands in it.
pub open spec fn arm_skipped(st: St, a: Arm) -> bool {
    ||| has_empty_attr(a.attrs, "never"@)
    ||| has_empty_attr(a.attrs, "nested"@)
    ||| diverges(st.scope, *a.body)
    ||| nested_arm(a)
}

/// The arms after each one that is not skipped got its body wrapped in the
/// next variant and a comma after it.
pub open spec fn last_arms(st: St, arms: Arms) -> (St, Arms)
    decreases arms,
{
    match arms {
        Arms::Nil => (st, Arms::Nil),
        Arms::Cons(a, t) => {
            let (st1, a1) = if arm_skipped(st, *a) {
                (st, *a)
            } else {
                (next_st(st), Arm { body: Box::new(wrap(st.enum_id, st.variants, Attrs::Nil, *a.body)), comma: true, ..*a })
            };
            let (st2, t1) = last_arms(st1, *t);
            (st2, Arms::Cons(Box::new(a1), Box::new(t1)))
        },
    }
}

/// The last statement of a list, if it is an expression without semicolon.
pub open spec fn tail_expr(stmts: Stmts) -> Option<Expr>
    decreases stmts,
{
    match stmts {
        Stmts::Nil => None,
        Stmts::Cons(s, t) => match *t {
            Stmts::Nil => match *s {
                Stmt::Expr(e, false) => Some(e),
                _ => None,
            },
            _ => tail_expr(*t),
        },
    }
}

/// Whether an `if` or `else` block is left as it is: its last expression is
/// marked `#[nested]`, cannot produce a value, or a `#[nested]` annotation
/// stands in the block; a block without last expression is left where its
/// last statement cannot produce a value.
pub open spec fn block_skipped(st: St, b: Block) -> bool {
    match tail_expr(b.stmts) {
        Some(e) => has_empty_attr(e.attrs, "nested"@) || diverges(st.scope, e) || nested_stmts(b.stmts),
        None => diverges_last(st.scope, b.stmts),
    }
}

/// The block whose statements became one block expression wrapped in
/// variant `n`, the block's only statement.
pub open spec fn wrapped_block(id: u64, n: nat, b: Block) -> Block {
    Block {
        stmts: Stmts::Cons(
            Box::new(Stmt::Expr(wrap(id, n, Attrs::Nil, Expr { attrs: Attrs::Nil, kind: ExprKind::Block(Block { stmts: b.stmts, handle: 0 }), handle: 0 }), false)),
            Box::new(Stmts::Nil),
        ),
        handle: b.handle,
    }
}

/// The block after rewriting, if it is not skipped.
pub open spec fn last_block(st: St, b: Block) -> (St, Block) {
    if block_skipped(st, b) {
        (st, b)
    } else {
        (next_st(st), wrapped_block(st.enum_id, st.variants, b))
    }
}

/// An `if` expression after its `then` block and each `else` block were
/// rewritten; an `if` without `else` is an error, reported at the `if`.
pub open spec fn last_if(st: St, e: Expr) -> (St, Expr)
    decreases e,
{
    match e.kind {
        ExprKind::If(c, t, el) => {
            let (st1, t1) = last_block(st, t);
            match el {
                None => (err_st(st1, Error { kind: ErrorKind::IfWithoutElse, at: e.handle }), Expr { kind: ExprKind::If(c, t1, None), ..e }),
                Some(x) => match x.kind {
                    ExprKind::Block(b) => {
                        let (st2, b1) = last_block(st1, b);
                        (st2, Expr { kind: ExprKind::If(c, t1, Some(Box::new(Expr { kind: ExprKind::Block(b1), ..*x }))), ..e })
                    },
                    ExprKind::If(_, _, _) => {
                        let (st2, x1) = last_if(st1, *x);
                        (st2, Expr { kind: ExprKind::If(c, t1, Some(Box::new(x1))), ..e })
                    },
                    _ => (st1, Expr { kind: ExprKind::If(c, t1, Some(x)), ..e }),
                },
            }
        },
        _ => (st, e),
    }
}

/// The last expression after rewriting: nothing happens where the last
/// expression is not rewritten (a statement with a semicolon, or `?` mode)
/// or cannot produce a value; the last expression of a block, the arms of a
/// `match`, the branches of an `if`, the `break`s of a `loop`, the receiver
/// of a method call and the inside of parentheses are rewritten.
pub open spec fn child(st: St, e: Expr) -> (St, Expr)
    decreases e,
{
    if !visit_last_of(st) || diverges(st.scope, e) {
        (st, e)
    } else {
        match e.kind {
            ExprKind::Block(b) => {
                let (st1, s1) = child_last(st, b.stmts);
                (st1, Expr { kind: ExprKind::Block(Block { stmts: s1, ..b }), ..e })
            },
            ExprKind::Unsafe(b) => {
                let (st1, s1) = child_last(st, b.stmts);
                (st1, Expr { kind: ExprKind::Unsafe(Block { stmts: s1, ..b }), ..e })
            },
            ExprKind::WithEnum(d, x) => {
                let (st1, x1) = child(st, *x);
                (st1, Expr { kind: ExprKind::WithEnum(d, Box::new(x1)), ..e })
            },
            ExprKind::Match(x, arms) => {
                let (st1, a1) = last_arms(st, arms);
                (st1, Expr { kind: ExprKind::Match(x, a1), ..e })
            },
            ExprKind::TryMatch(x, ok, ret) => if diverges(st.scope, *ok) || nested_expr(*ok) {
                (st, e)
            } else {
                (next_st(st), Expr { kind: ExprKind::TryMatch(x, Box::new(wrap(st.enum_id, st.variants, Attrs::Nil, *ok)), ret), ..e })
            },
            ExprKind::If(_, _, _) => last_if(st, e),
            ExprKind::Loop(l, b) => {
                let (st1, b1) = lv_block(st, l, false, b);
                (st1, Expr { kind: ExprKind::Loop(l, b1), ..e })
            },
            ExprKind::MethodCall(r, args) => {
                let (st1, r1) = child(st, *r);
                (st1, Expr { kind: ExprKind::MethodCall(Box::new(r1), args), ..e })
            },
            ExprKind::Paren(x) => {
                let (st1, x1) = child(st, *x);
                (st1, Expr { kind: ExprKind::Paren(Box::new(x1)), ..e })
            },
            _ => (st, e),
        }
    }
}

/// The statements after their last one, an expression without semicolon,
/// was rewritten.
pub open spec fn child_last(st: St, stmts: Stmts) -> (St, Stmts)
    decreases stmts,
{
    match stmts {
        Stmts::Nil => (st, stmts),
        Stmts::Cons(s, t) => match *t {
            Stmts::Nil => match *s {
                Stmt::Expr(x, false) => {
                    let (st1, x1) = child(st, x);
                    (st1, Stmts::Cons(Box::new(Stmt::Expr(x1, false)), t))
                },
                _ => (st, stmts),
            },
            _ => {
                let (st1, t1) = child_last(st, *t);
                (st1, Stmts::Cons(s, Box::new(t1)))
            },
        },
    }
}

/// Wraps the body of each arm that is not skipped in the next variant.
fn visit_last_arms(cx: &mut Context, arms: Arms) -> (r: Arms)
    requires
        old(cx).wf(),
    ensures
        final(cx).wf(),
        (final(cx)@, r) == last_arms(old(cx)@, arms),
    decreases arms,
{
    match arms {
        Arms::Nil => Arms::Nil,
        Arms::Cons(a, t) => {
            let skip = any_empty_attr(&a.attrs, "never") || any_empty_attr(&a.attrs, "nested")
                || is_unreachable(&cx.scope, &a.body) || find_nested_arm(&a);
            let a1 = if skip {
                *a
            } else {
                let Arm { attrs, guard, body, comma, handle } = *a;
                let w = cx.next_expr(*body);
                Arm { attrs, guard, body: Box::new(w), comma: true, handle }
            };
            let t1 = visit_last_arms(cx, *t);
            Arms::Cons(Box::new(a1), Box::new(t1))
        },
    }
}

/// The last statement of a list, if it is an expression without semicolon.
fn tail_of(stmts: &Stmts) -> (r: Option<&Expr>)
    ensures
        match r {
            Some(e) => tail_expr(*stmts) == Some(*e),
            None => tail_expr(*stmts) is None,
        },
    decreases stmts,
{
    match stmts {
        Stmts::Nil => None,
        Stmts::Cons(s, t) => match &**t {
            Stmts::Nil => match &**s {
                Stmt::Expr(e, false) => Some(e),
                _ => None,
            },
            _ => tail_of(t),
        },
    }
}

/// Wraps an `if` or `else` block in the next variant, unless it is skipped.
fn visit_last_block(cx: &mut Context, b: Block) -> (r: Block)
    requires
        old(cx).wf(),
    ensures
        final(cx).wf(),
        (final(cx)@, r) == last_block(old(cx)@, b),
{
    let skip = match tail_of(&b.stmts) {
        Some(e) => any_empty_attr(&e.attrs, "nested") || is_unreachable(&cx.scope, e) || find_nested_stmts(&b.stmts),
        None => is_unreachable_last(&cx.scope, &b.stmts),
    };
    if skip {
        b
    } else {
        let Block { stmts, handle } = b;
        let inner = Expr { attrs: Attrs::Nil, kind: ExprKind::Block(Block { stmts, handle: 0 }), handle: 0 };
        let w = cx.next_expr(inner);
        Block { stmts: Stmts::Cons(Box::new(Stmt::Expr(w, false)), Box::new(Stmts::Nil)), handle }
    }
}

/// Rewrites the `then` block and each `else` block of an `if` expression.
fn visit_last_if(cx: &mut Context, e: Expr) -> (r: Expr)
    requires
        old(cx).wf(),
    ensures
        final(cx).wf(),
        (final(cx)@, r) == last_if(old(cx)@, e),
    decreases e,
{
    let Expr { attrs, kind, handle } = e;
    match kind {
        ExprKind::If(c, t, el) => {
            let t1 = visit_last_block(cx, t);
            match el {
                None => {
                    cx.error(Error { kind: ErrorKind::IfWithoutElse, at: handle });
                    Expr { attrs, kind: ExprKind::If(c, t1, None), handle }
                },
                Some(x) => {
                    let Expr { attrs: xa, kind: xk, handle: xh } = *x;
                    match xk {
                        ExprKind::Block(b) => {
                            let b1 = visit_last_block(cx, b);
                            let x1 = Expr { attrs: xa, kind: ExprKind::Block(b1), handle: xh };
                            Expr { attrs, kind: ExprKind::If(c, t1, Some(Box::new(x1))), handle }
                        },
                        ExprKind::If(c2, t2, el2) => {
                            let x1 = visit_last_if(cx, Expr { attrs: xa, kind: ExprKind::If(c2, t2, el2), handle: xh });
                            Expr { attrs, kind: ExprKind::If(c, t1, Some(Box::new(x1))), handle }
                        },
                        other => {
                            let x1 = Expr { attrs: xa, kind: other, handle: xh };
                            Expr { attrs, kind: ExprKind::If(c, t1, Some(Box::new(x1))), handle }
                        },
                    }
                },
            }
        },
        other => Expr { attrs, kind: other, handle },
    }
}

/// Rewrites the last expression: each branch that can produce its value is
/// wrapped in the next variant.
pub fn child_expr(cx: &mut Context, e: Expr) -> (r: Expr)
    requires
        old(cx).wf(),
    ensures
        final(cx).wf(),
        (final(cx)@, r) == child(old(cx)@, e),
    decreases e,
{
    if !cx.visit_last() || is_unreachable(&cx.scope, &e) {
        return e;
    }
    let ghost e0 = e;
    match &e.kind {
        ExprKind::If(_, _, _) => {
            return visit_last_if(cx, e);
        },
        ExprKind::TryMatch(_, ok, _) => {
            if is_unreachable(&cx.scope, ok) || find_nested(ok) {
                return e;
            }
        },
        _ => {},
    }
    let Expr { attrs, kind, handle } = e;
    match kind {
        ExprKind::Block(b) => {
            let Block { stmts, handle: bh } = b;
            let s1 = child_last_stmt(cx, stmts);
            Expr { attrs, kind: ExprKind::Block(Block { stmts: s1, handle: bh }), handle }
        },
        ExprKind::Unsafe(b) => {
            let Block { stmts, handle: bh } = b;
            let s1 = child_last_stmt(cx, stmts);
            Expr { attrs, kind: ExprKind::Unsafe(Block { stmts: s1, handle: bh }), handle }
        },
        ExprKind::WithEnum(d, x) => {
            let x1 = child_expr(cx, *x);
            Expr { attrs, kind: ExprKind::WithEnum(d, Box::new(x1)), handle }
        },
        ExprKind::Match(x, arms) => {
            let a1 = visit_last_arms(cx, arms);
            Expr { attrs, kind: ExprKind::Match(x, a1), handle }
        },
        ExprKind::TryMatch(x, ok, ret) => {
            let w = cx.next_expr(*ok);
            Expr { attrs, kind: ExprKind::TryMatch(x, Box::new(w), ret), handle }
        },
        ExprKind::Loop(l, b) => {
            let b1 = loop_block(cx, &l, false, b);
            Expr { attrs, kind: ExprKind::Loop(l, b1), handle }
        },
        ExprKind::MethodCall(r, args) => {
            let r1 = child_expr(cx, *r);
            Expr { attrs, kind: ExprKind::MethodCall(Box::new(r1), args), handle }
        },
        ExprKind::Paren(x) => {
            let x1 = child_expr(cx, *x);
            Expr { attrs, kind: ExprKind::Paren(Box::new(x1)), handle }
        },
        other => Expr { attrs, kind: other, handle },
    }
}

/// Rewrites the last statement, if it is an expression without semicolon.
pub fn child_last_stmt(cx: &mut Context, stmts: Stmts) -> (r: Stmts)
    requires
        old(cx).wf(),
    ensures
        final(cx).wf(),
        (final(cx)@, r) == child_last(old(cx)@, stmts),
    decreases stmts,
{
    match stmts {
        Stmts::Nil => Stmts::Nil,
        Stmts::Cons(s, t) => {
            let last = match &*t {
                Stmts::Nil => true,
                _ => false,
            };
            if last {
                match *s {
                    Stmt::Expr(x, false) => {
                        let x1 = child_expr(cx, x);
                        Stmts::Cons(Box::new(Stmt::Expr(x1, false)), t)
                    },
                    other => Stmts::Cons(Box::new(other), t),
                }
            } else {
                let t1 = child_last_stmt(cx, *t);
                Stmts::Cons(s, Box::new(t1))
            }
        },
    }
}

} // verus!
