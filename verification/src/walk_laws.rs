//! What rewriting keeps of the context of an `#[auto_enum]` attribute.

use vstd::prelude::*;

use crate::ast::{Arm, Arms, Attribute, Attrs, Block, Expr, ExprKind, Exprs, Local, Part, Parts, Stmt, Stmts};
use crate::context::{
    build_st, errs_kept, has_err, join_st, keeps, keeps_scope, lemma_join_keeps, lent_st, new_st, Scope, St,
};
use crate::last_expr::{child, child_last, last_arms, last_block, last_if};
use crate::loop_break::{lv_arms, lv_block, lv_expr, lv_exprs, lv_opt, lv_parts, lv_stmts};
use crate::visitor::{
    build_on, closure_mode, expanded, local_plan, sub_local, local_pre, LocalPlan, main_expr, main_post, main_pre, nested_st, parent_expr,
    parent_local, return_st, strip_attrs, sub_expr, sub_stmt, try_st, walk_arm, walk_arms, walk_block,
    walk_children, walk_expr, walk_exprs, walk_local, walk_opt, walk_parts, walk_ret, walk_stmt, walk_stmts,
    Pass,
};

verus! {

/// `b` differs from `a` at most in a larger variant count.
pub open spec fn only_variants(a: St, b: St) -> bool {
    b == St { variants: b.variants, ..a } && b.variants >= a.variants
}

/// `b` differs from `a` at most in a larger variant count and more errors
/// after those of `a`.
pub open spec fn only_counts(a: St, b: St) -> bool {
    b == St { variants: b.variants, errors: b.errors, ..a } && b.variants >= a.variants && errs_kept(a, b)
}

/// What a walk keeps of its context, and that it loses no error.
pub open spec fn walk_keeps(a: St, b: St) -> bool {
    keeps(a, b) && errs_kept(a, b)
}

proof fn lemma_lv_expr(st: St, lab: Option<String>, nested: bool, e: Expr)
    ensures
        only_variants(st, lv_expr(st, lab, nested, e).0),
    decreases e,
{
    if !crate::ast::has_empty_attr(e.attrs, "never"@) {
        match e.kind {
            ExprKind::Loop(l, b) => {
                lemma_lv_block(st, lab, true, b);
            },
            ExprKind::ForLoop(l, x, b) => {
                lemma_lv_expr(st, lab, true, *x);
                lemma_lv_block(lv_expr(st, lab, true, *x).0, lab, true, b);
            },
            ExprKind::While(l, x, b) => {
                lemma_lv_expr(st, lab, true, *x);
                lemma_lv_block(lv_expr(st, lab, true, *x).0, lab, true, b);
            },
            ExprKind::Break(l, v) => {
                match v {
                    Some(x) => {
                        lemma_lv_expr(crate::context::next_st(st), lab, nested, *x);
                    },
                    None => {},
                }
                lemma_lv_opt(st, lab, nested, v);
            },
            ExprKind::Block(b) => {
                lemma_lv_block(st, lab, nested, b);
            },
            ExprKind::Unsafe(b) => {
                lemma_lv_block(st, lab, nested, b);
            },
            ExprKind::TryBlock(b) => {
                lemma_lv_block(st, lab, nested, b);
            },
            ExprKind::Match(x, arms) => {
                lemma_lv_expr(st, lab, nested, *x);
                lemma_lv_arms(lv_expr(st, lab, nested, *x).0, lab, nested, arms);
            },
            ExprKind::If(c, t, el) => {
                lemma_lv_expr(st, lab, nested, *c);
                let s1 = lv_expr(st, lab, nested, *c).0;
                lemma_lv_block(s1, lab, nested, t);
                lemma_lv_opt(lv_block(s1, lab, nested, t).0, lab, nested, el);
            },
            ExprKind::MethodCall(r, args) => {
                lemma_lv_expr(st, lab, nested, *r);
                lemma_lv_exprs(lv_expr(st, lab, nested, *r).0, lab, nested, args);
            },
            ExprKind::Paren(x) => {
                lemma_lv_expr(st, lab, nested, *x);
            },
            ExprKind::Return(v) => {
                lemma_lv_opt(st, lab, nested, v);
            },
            ExprKind::Try(x) => {
                lemma_lv_expr(st, lab, nested, *x);
            },
            ExprKind::Call(f, args) => {
                lemma_lv_expr(st, lab, nested, *f);
                lemma_lv_exprs(lv_expr(st, lab, nested, *f).0, lab, nested, args);
            },
            ExprKind::Other(parts) => {
                lemma_lv_parts(st, lab, nested, parts);
            },
            ExprKind::Variant(_, _, x) => {
                lemma_lv_expr(st, lab, nested, *x);
            },
            ExprKind::TryMatch(x, ok, ret) => {
                lemma_lv_expr(st, lab, nested, *x);
                let s1 = lv_expr(st, lab, nested, *x).0;
                lemma_lv_expr(s1, lab, nested, *ok);
                lemma_lv_expr(lv_expr(s1, lab, nested, *ok).0, lab, nested, *ret);
            },
            ExprKind::ErrCall(x) => {
                lemma_lv_expr(st, lab, nested, *x);
            },
            ExprKind::WithEnum(_, x) => {
                lemma_lv_expr(st, lab, nested, *x);
            },
            _ => {},
        }
    }
}

proof fn lemma_lv_opt(st: St, lab: Option<String>, nested: bool, x: Option<Box<Expr>>)
    ensures
        only_variants(st, lv_opt(st, lab, nested, x).0),
    decreases x,
{
    match x {
        Some(e) => lemma_lv_expr(st, lab, nested, *e),
        None => {},
    }
}

proof fn lemma_lv_exprs(st: St, lab: Option<String>, nested: bool, es: Exprs)
    ensures
        only_variants(st, lv_exprs(st, lab, nested, es).0),
    decreases es,
{
    match es {
        Exprs::Nil => {},
        Exprs::Cons(e, t) => {
            lemma_lv_expr(st, lab, nested, *e);
            lemma_lv_exprs(lv_expr(st, lab, nested, *e).0, lab, nested, *t);
        },
    }
}

proof fn lemma_lv_parts(st: St, lab: Option<String>, nested: bool, ps: Parts)
    ensures
        only_variants(st, lv_parts(st, lab, nested, ps).0),
    decreases ps,
{
    match ps {
        Parts::Nil => {},
        Parts::Cons(p, t) => {
            let s1 = match *p {
                Part::Expr(e) => {
                    lemma_lv_expr(st, lab, nested, e);
                    lv_expr(st, lab, nested, e).0
                },
                Part::Block(b) => {
                    lemma_lv_block(st, lab, nested, b);
                    lv_block(st, lab, nested, b).0
                },
            };
            lemma_lv_parts(s1, lab, nested, *t);
        },
    }
}

proof fn lemma_lv_arms(st: St, lab: Option<String>, nested: bool, arms: Arms)
    ensures
        only_variants(st, lv_arms(st, lab, nested, arms).0),
    decreases arms,
{
    match arms {
        Arms::Nil => {},
        Arms::Cons(a, t) => {
            lemma_lv_opt(st, lab, nested, a.guard);
            let s1 = lv_opt(st, lab, nested, a.guard).0;
            lemma_lv_expr(s1, lab, nested, *a.body);
            lemma_lv_arms(lv_expr(s1, lab, nested, *a.body).0, lab, nested, *t);
        },
    }
}

proof fn lemma_lv_block(st: St, lab: Option<String>, nested: bool, b: Block)
    ensures
        only_variants(st, lv_block(st, lab, nested, b).0),
    decreases b,
{
    lemma_lv_stmts(st, lab, nested, b.stmts);
}

proof fn lemma_lv_stmts(st: St, lab: Option<String>, nested: bool, stmts: Stmts)
    ensures
        only_variants(st, lv_stmts(st, lab, nested, stmts).0),
    decreases stmts,
{
    match stmts {
        Stmts::Nil => {},
        Stmts::Cons(s, t) => {
            let s1 = match *s {
                Stmt::Expr(e, _) => {
                    lemma_lv_expr(st, lab, nested, e);
                    lv_expr(st, lab, nested, e).0
                },
                Stmt::Local(l) => {
                    lemma_lv_opt(st, lab, nested, l.init);
                    let x1 = lv_opt(st, lab, nested, l.init).0;
                    lemma_lv_opt(x1, lab, nested, l.diverge);
                    lv_opt(x1, lab, nested, l.diverge).0
                },
                _ => st,
            };
            lemma_lv_stmts(s1, lab, nested, *t);
        },
    }
}

proof fn lemma_last_arms(st: St, arms: Arms)
    ensures
        only_counts(st, last_arms(st, arms).0),
    decreases arms,
{
    match arms {
        Arms::Nil => {},
        Arms::Cons(a, t) => {
            let s1 = if crate::last_expr::arm_skipped(st, *a) { st } else { crate::context::next_st(st) };
            lemma_last_arms(s1, *t);
        },
    }
}

proof fn lemma_last_if(st: St, e: Expr)
    ensures
        only_counts(st, last_if(st, e).0),
    decreases e,
{
    match e.kind {
        ExprKind::If(c, t, el) => {
            let s1 = last_block(st, t).0;
            match el {
                Some(x) => match x.kind {
                    ExprKind::If(_, _, _) => {
                        lemma_last_if(s1, *x);
                    },
                    _ => {},
                },
                None => {},
            }
        },
        _ => {},
    }
}

proof fn lemma_child(st: St, e: Expr)
    ensures
        only_counts(st, child(st, e).0),
    decreases e,
{
    if crate::context::visit_last_of(st) && !crate::scan::diverges(st.scope, e) {
        match e.kind {
            ExprKind::Block(b) => lemma_child_last(st, b.stmts),
            ExprKind::Unsafe(b) => lemma_child_last(st, b.stmts),
            ExprKind::WithEnum(_, x) => lemma_child(st, *x),
            ExprKind::Match(_, arms) => lemma_last_arms(st, arms),
            ExprKind::If(_, _, _) => lemma_last_if(st, e),
            ExprKind::Loop(l, b) => lemma_lv_block(st, l, false, b),
            ExprKind::MethodCall(r, _) => lemma_child(st, *r),
            ExprKind::Paren(x) => lemma_child(st, *x),
            _ => {},
        }
    }
}

proof fn lemma_child_last(st: St, stmts: Stmts)
    ensures
        only_counts(st, child_last(st, stmts).0),
    decreases stmts,
{
    match stmts {
        Stmts::Nil => {},
        Stmts::Cons(s, t) => match *t {
            Stmts::Nil => match *s {
                Stmt::Expr(x, false) => lemma_child(st, x),
                _ => {},
            },
            _ => lemma_child_last(st, *t),
        },
    }
}

/// Rewriting the last expression of an attribute's input changes nothing of
/// its context but the variant count, which only grows, and the errors, to
/// which it only adds.
pub proof fn law_last_expr_keeps_context(st: St, e: Expr)
    ensures
        only_counts(st, child(st, e).0),
{
    lemma_child(st, e);
}

proof fn lemma_return_st(st: St, sc: Scope, e: Expr)
    ensures
        only_variants(st, return_st(st, sc, e).0),
{
}

proof fn lemma_try_st(st: St, sc: Scope, e: Expr)
    ensures
        only_variants(st, try_st(st, sc, e).0),
{
}

proof fn lemma_nested_st(st: St, a: Attribute, e: Expr)
    ensures
        only_counts(st, nested_st(st, a, e).0),
{
    if a.meta == crate::ast::AttrMeta::Path {
        lemma_child(st, e);
    }
}

proof fn lemma_main_pre(st: St, sc: Scope, e: Expr)
    ensures
        keeps(st, main_pre(st, sc, e).0),
        errs_kept(st, main_pre(st, sc, e).0),
{
    let named = crate::ast::has_attr(e.attrs, "auto_enum"@);
    let sc1 = if named { Scope { foreign: true, ..sc } } else { sc };
    let st1 = crate::context::with_child(st, named);
    let sc2 = crate::context::scope_in(sc1, e);
    lemma_return_st(st1, sc2, e);
    lemma_try_st(st1, sc2, e);
    let (st2, e2) = match st1.visit_mode {
        crate::context::VisitMode::Return(_) => return_st(st1, sc2, e),
        crate::context::VisitMode::Try => try_st(st1, sc2, e),
        crate::context::VisitMode::Default => (st1, e),
    };
    if !sc2.foreign {
        let (at, na) = crate::ast::remove_attr(e2.attrs, "nested"@);
        match na {
            Some(a) => lemma_nested_st(st2, a, Expr { attrs: at, ..e2 }),
            None => {},
        }
    }
}

proof fn lemma_main_post(st: St, sc: Scope, e: Expr)
    ensures
        keeps(st, main_post(st, sc, e).0),
        errs_kept(st, main_post(st, sc, e).0),
{
}

proof fn lemma_strip_attrs(sc: Scope, st: St, attrs: Attrs)
    ensures
        only_counts(st, strip_attrs(sc, st, attrs).0),
{
}

proof fn lemma_local_pre(st: St, sc: Scope, l: Local)
    ensures
        only_counts(st, local_pre(st, sc, l).0),
{
    if !sc.foreign {
        let (at, na) = crate::ast::remove_attr(l.attrs, "nested"@);
        match (na, l.init) {
            (Some(n), Some(init)) => lemma_nested_st(st, n, *init),
            _ => {},
        }
    }
}

proof fn lemma_local_plan(st: St, l: Local)
    ensures
        match local_plan(st, l).1 {
            LocalPlan::Child(Ok(c)) => c.scope.markers.len() > 0 && c.scope.markers.drop_last() == st.scope.markers
                && c.errors == st.errors,
            _ => true,
        },
{
    reveal(local_plan);
    let (at, na) = crate::ast::remove_attr(l.attrs, "auto_enum"@);
    match na {
        Some(a) => {
            let items = if a.meta == crate::ast::AttrMeta::Path { Seq::empty() } else { a.args.items@ };
            let error = if a.meta == crate::ast::AttrMeta::Path { None } else { a.args.error };
            lemma_new_child(st, a.target_text@, l.handle, items, error);
        },
        None => {},
    }
}

proof fn lemma_build_on(st: St, e: Expr)
    ensures
        keeps_scope(st, build_on(st, e).0),
{
}

proof fn lemma_walk_expr(fuel: nat, st: St, p: Pass, e: Expr)
    ensures
        walk_keeps(st, walk_expr(fuel, st, p, e).0),
    decreases fuel, 0nat,
{
    if fuel > 0 && !has_err(st) {
        let f = (fuel - 1) as nat;
        match p {
            Pass::Main(sc) => lemma_main_expr(f, st, sc, e, false),
            Pass::Dummy => lemma_sub_expr(f, crate::context::with_child(st, crate::ast::has_attr(e.attrs, "auto_enum"@)), p, e, false),
        }
    }
}

proof fn lemma_walk_opt(fuel: nat, st: St, p: Pass, x: Option<Box<Expr>>)
    ensures
        walk_keeps(st, walk_opt(fuel, st, p, x).0),
    decreases fuel, 0nat,
{
    if fuel > 0 {
        match x {
            Some(e) => lemma_walk_expr((fuel - 1) as nat, st, p, *e),
            None => {},
        }
    }
}

proof fn lemma_walk_exprs(fuel: nat, st: St, p: Pass, es: Exprs)
    ensures
        walk_keeps(st, walk_exprs(fuel, st, p, es).0),
    decreases fuel, 0nat,
{
    if fuel > 0 {
        let f = (fuel - 1) as nat;
        match es {
            Exprs::Nil => {},
            Exprs::Cons(e, t) => {
                lemma_walk_expr(f, st, p, *e);
                lemma_walk_exprs(f, walk_expr(f, st, p, *e).0, p, *t);
            },
        }
    }
}

proof fn lemma_walk_parts(fuel: nat, st: St, p: Pass, ps: Parts)
    ensures
        walk_keeps(st, walk_parts(fuel, st, p, ps).0),
    decreases fuel, 0nat,
{
    if fuel > 0 {
        let f = (fuel - 1) as nat;
        match ps {
            Parts::Nil => {},
            Parts::Cons(x, t) => {
                let s1 = match *x {
                    Part::Expr(e) => {
                        lemma_walk_expr(f, st, p, e);
                        walk_expr(f, st, p, e).0
                    },
                    Part::Block(b) => {
                        lemma_walk_block(f, st, p, b);
                        walk_block(f, st, p, b).0
                    },
                };
                lemma_walk_parts(f, s1, p, *t);
            },
        }
    }
}

#[verifier::spinoff_prover]
#[verifier::rlimit(100)]
proof fn lemma_walk_arm(fuel: nat, st: St, p: Pass, a: Arm)
    ensures
        walk_keeps(st, walk_arm(fuel, st, p, a).0),
    decreases fuel, 0nat,
{
    if fuel > 0 {
        let f = (fuel - 1) as nat;
        match p {
            Pass::Main(sc) => if !has_err(st) {
                let (st1, a1) = if sc.foreign {
                    (st, a)
                } else {
                    let (at, na) = crate::ast::remove_attr(a.attrs, "nested"@);
                    match na {
                        Some(n) => {
                            lemma_nested_st(st, n, *a.body);
                            let (s, b) = nested_st(st, n, *a.body);
                            (s, Arm { attrs: at, body: Box::new(b), ..a })
                        },
                        None => (st, Arm { attrs: at, ..a }),
                    }
                };
                lemma_walk_opt(f, st1, p, a1.guard);
                let st2 = walk_opt(f, st1, p, a1.guard).0;
                lemma_walk_expr(f, st2, p, *a1.body);
            },
            Pass::Dummy => {
                lemma_walk_opt(f, st, p, a.guard);
                lemma_walk_expr(f, walk_opt(f, st, p, a.guard).0, p, *a.body);
            },
        }
    }
}

proof fn lemma_walk_arms(fuel: nat, st: St, p: Pass, arms: Arms)
    ensures
        walk_keeps(st, walk_arms(fuel, st, p, arms).0),
    decreases fuel, 0nat,
{
    if fuel > 0 {
        let f = (fuel - 1) as nat;
        match arms {
            Arms::Nil => {},
            Arms::Cons(a, t) => {
                lemma_walk_arm(f, st, p, *a);
                lemma_walk_arms(f, walk_arm(f, st, p, *a).0, p, *t);
            },
        }
    }
}

proof fn lemma_walk_local(fuel: nat, st: St, p: Pass, l: Local)
    ensures
        keeps(st, walk_local(fuel, st, p, l).0),
    decreases fuel, 0nat,
{
    if fuel > 0 {
        let f = (fuel - 1) as nat;
        match p {
            Pass::Main(sc) => if !has_err(st) {
                lemma_local_pre(st, sc, l);
                let (st1, l1) = local_pre(st, sc, l);
                lemma_walk_opt(f, st1, p, l1.init);
                let st2 = walk_opt(f, st1, p, l1.init).0;
                lemma_walk_opt(f, st2, p, l1.diverge);
                lemma_strip_attrs(sc, walk_opt(f, st2, p, l1.diverge).0, l1.attrs);
            },
            Pass::Dummy => {
                lemma_walk_opt(f, st, p, l.init);
                lemma_walk_opt(f, walk_opt(f, st, p, l.init).0, p, l.diverge);
            },
        }
    }
}

#[verifier::spinoff_prover]
#[verifier::rlimit(60)]
proof fn lemma_walk_stmt(fuel: nat, st: St, p: Pass, s: Stmt)
    ensures
        walk_keeps(st, walk_stmt(fuel, st, p, s).0),
    decreases fuel, 0nat,
{
    if fuel > 0 && !has_err(st) {
        let f = (fuel - 1) as nat;
        let named = crate::ast::has_attr(crate::ast::stmt_attrs(s), "auto_enum"@);
        match p {
            Pass::Main(sc) => match s {
                Stmt::Expr(e, semi) => lemma_main_expr(f, st, sc, e, semi),
                _ => lemma_sub_stmt(f, crate::context::with_child(st, named), Pass::Main(if named { Scope { foreign: true, ..sc } } else { sc }), s),
            },
            Pass::Dummy => lemma_sub_stmt(f, crate::context::with_child(st, named), p, s),
        }
    }
}

proof fn lemma_walk_stmts(fuel: nat, st: St, p: Pass, stmts: Stmts)
    ensures
        walk_keeps(st, walk_stmts(fuel, st, p, stmts).0),
    decreases fuel, 0nat,
{
    if fuel > 0 {
        let f = (fuel - 1) as nat;
        match stmts {
            Stmts::Nil => {},
            Stmts::Cons(s, t) => {
                lemma_walk_stmt(f, st, p, *s);
                lemma_walk_stmts(f, walk_stmt(f, st, p, *s).0, p, *t);
            },
        }
    }
}

proof fn lemma_walk_block(fuel: nat, st: St, p: Pass, b: Block)
    ensures
        walk_keeps(st, walk_block(fuel, st, p, b).0),
    decreases fuel, 0nat,
{
    if fuel > 0 {
        lemma_walk_stmts((fuel - 1) as nat, st, p, b.stmts);
    }
}

proof fn lemma_walk_ret(fuel: nat, st: St, p: Pass, ret: Expr)
    ensures
        walk_keeps(st, walk_ret(fuel, st, p, ret).0),
    decreases fuel, 0nat,
{
    if fuel > 0 && !has_err(st) {
        let (st1, r1) = match p {
            Pass::Main(sc) => if st.visit_mode is Return && !sc.closure && !crate::context::marker_expr(st.scope, ret) {
                (crate::context::next_st(st), crate::context::wrap(st.enum_id, st.variants, Attrs::Nil, ret))
            } else {
                (st, ret)
            },
            Pass::Dummy => (st, ret),
        };
        lemma_walk_expr((fuel - 1) as nat, st1, p, r1);
    }
}

proof fn lemma_walk_children(fuel: nat, st: St, p: Pass, e: Expr)
    ensures
        walk_keeps(st, walk_children(fuel, st, p, e).0),
    decreases fuel, 0nat,
{
    if fuel > 0 {
        let f = (fuel - 1) as nat;
        match e.kind {
            ExprKind::Block(b) => lemma_walk_block(f, st, p, b),
            ExprKind::Unsafe(b) => lemma_walk_block(f, st, p, b),
            ExprKind::Async(b) => lemma_walk_block(f, st, p, b),
            ExprKind::TryBlock(b) => lemma_walk_block(f, st, p, b),
            ExprKind::Match(x, arms) => {
                lemma_walk_expr(f, st, p, *x);
                lemma_walk_arms(f, walk_expr(f, st, p, *x).0, p, arms);
            },
            ExprKind::If(c, t, el) => {
                lemma_walk_expr(f, st, p, *c);
                let s1 = walk_expr(f, st, p, *c).0;
                lemma_walk_block(f, s1, p, t);
                lemma_walk_opt(f, walk_block(f, s1, p, t).0, p, el);
            },
            ExprKind::Loop(_, b) => lemma_walk_block(f, st, p, b),
            ExprKind::ForLoop(_, x, b) => {
                lemma_walk_expr(f, st, p, *x);
                lemma_walk_block(f, walk_expr(f, st, p, *x).0, p, b);
            },
            ExprKind::While(_, x, b) => {
                lemma_walk_expr(f, st, p, *x);
                lemma_walk_block(f, walk_expr(f, st, p, *x).0, p, b);
            },
            ExprKind::Closure(x) => lemma_walk_expr(f, st, p, *x),
            ExprKind::MethodCall(r, args) => {
                lemma_walk_expr(f, st, p, *r);
                lemma_walk_exprs(f, walk_expr(f, st, p, *r).0, p, args);
            },
            ExprKind::Paren(x) => lemma_walk_expr(f, st, p, *x),
            ExprKind::Break(_, v) => lemma_walk_opt(f, st, p, v),
            ExprKind::Return(v) => lemma_walk_opt(f, st, p, v),
            ExprKind::Try(x) => lemma_walk_expr(f, st, p, *x),
            ExprKind::Call(g, args) => {
                lemma_walk_expr(f, st, p, *g);
                lemma_walk_exprs(f, walk_expr(f, st, p, *g).0, p, args);
            },
            ExprKind::Other(parts) => lemma_walk_parts(f, st, p, parts),
            ExprKind::Variant(_, _, x) => lemma_walk_expr(f, st, p, *x),
            ExprKind::TryMatch(x, ok, ret) => {
                lemma_walk_expr(f, st, p, *x);
                let s1 = walk_expr(f, st, p, *x).0;
                lemma_walk_expr(f, s1, p, *ok);
                lemma_walk_ret(f, walk_expr(f, s1, p, *ok).0, p, *ret);
            },
            ExprKind::ErrCall(x) => lemma_walk_expr(f, st, p, *x),
            ExprKind::WithEnum(_, x) => lemma_walk_expr(f, st, p, *x),
            _ => {},
        }
    }
}

proof fn lemma_main_expr(fuel: nat, st: St, sc: Scope, e: Expr, semi: bool)
    ensures
        keeps(st, main_expr(fuel, st, sc, e, semi).0),
    decreases fuel, 0nat,
{
    if fuel > 0 {
        lemma_main_pre(st, sc, e);
        let (st3, sc2, e3) = main_pre(st, sc, e);
        lemma_sub_expr((fuel - 1) as nat, st3, Pass::Main(sc2), e3, semi);
        let (st4, e4) = sub_expr((fuel - 1) as nat, st3, Pass::Main(sc2), e3, semi);
        lemma_main_post(st4, sc2, e4);
    }
}

/// The context of an inner attribute, made from `st`, holds the marker names
/// of `st` and one more, and the errors of `st`.
proof fn lemma_new_child(st: St, text: Seq<char>, span: u64, items: Seq<crate::ast::ArgItem>, error: Option<u64>)
    ensures
        match new_st(text, span, items, error, false, st.scope.markers, st.errors) {
            Ok(c) => c.scope.markers.len() > 0 && c.scope.markers.drop_last() == st.scope.markers && c.errors == st.errors,
            Err(_) => true,
        },
{
    match new_st(text, span, items, error, false, st.scope.markers, st.errors) {
        Ok(c) => {
            assert(c.scope.markers.drop_last() =~= st.scope.markers);
        },
        Err(_) => {},
    }
}

proof fn lemma_sub_expr(fuel: nat, st: St, p: Pass, e: Expr, semi: bool)
    ensures
        keeps(st, sub_expr(fuel, st, p, e, semi).0),
    decreases fuel, 0nat,
{
    if fuel > 0 {
        let f = (fuel - 1) as nat;
        let (at, na) = crate::ast::remove_attr(e.attrs, "auto_enum"@);
        let e1 = Expr { attrs: at, ..e };
        match na {
            None => lemma_walk_children(f, st, p, e1),
            Some(a) => if a.meta != crate::ast::AttrMeta::List {
                lemma_walk_children(f, st, p, e1);
            } else {
                lemma_new_child(st, a.target_text@, e.handle, a.args.items@, a.args.error);
                let res = new_st(a.target_text@, e.handle, a.args.items@, a.args.error, false, st.scope.markers, st.errors);
                lemma_walk_children(f, lent_st(st), p, e1);
                let (st1, e2) = walk_children(f, lent_st(st), p, e1);
                match res {
                    Err(x) => {},
                    Ok(c) => {
                        lemma_parent_expr(f, c, e2, semi);
                        let (c2, e3) = parent_expr(f, c, e2, semi);
                        lemma_join_keeps(st, st1, c, c2);
                    },
                }
            },
        }
    }
}

proof fn lemma_sub_stmt(fuel: nat, st: St, p: Pass, s: Stmt)
    ensures
        keeps(st, sub_stmt(fuel, st, p, s).0),
    decreases fuel, 0nat,
{
    if fuel > 0 {
        let f = (fuel - 1) as nat;
        match s {
            Stmt::Expr(e, semi) => lemma_sub_expr(f, st, p, e, semi),
            Stmt::Local(l) => lemma_sub_local(f, st, p, l),
            _ => {},
        }
    }
}

proof fn lemma_local_refused(f: nat, st: St, p: Pass, l1: Local, x: crate::context::Error)
    ensures
        keeps(st, crate::context::err_st(walk_local(f, st, p, l1).0, x)),
    decreases f, 1nat,
{
    lemma_walk_local(f, st, p, l1);
}

proof fn lemma_local_child_err(f: nat, st: St, p: Pass, l1: Local, x: crate::context::Error)
    ensures
        keeps(st, crate::context::err_st(walk_local(f, lent_st(st), p, l1).0, x)),
    decreases f, 1nat,
{
    lemma_walk_local(f, lent_st(st), p, l1);
}

proof fn lemma_local_child_ok(f: nat, st: St, p: Pass, l1: Local, c: St)
    requires
        c.scope.markers.len() > 0,
        c.scope.markers.drop_last() == st.scope.markers,
        c.errors == st.errors,
    ensures
        keeps(st, join_st(walk_local(f, lent_st(st), p, l1).0, parent_local(f, c, walk_local(f, lent_st(st), p, l1).1).0)),
    decreases f, 1nat,
{
    lemma_walk_local(f, lent_st(st), p, l1);
    let (st1, l2) = walk_local(f, lent_st(st), p, l1);
    lemma_parent_local(f, c, l2);
    lemma_join_keeps(st, st1, c, parent_local(f, c, l2).0);
}

proof fn lemma_sub_local(f: nat, st: St, p: Pass, l: Local)
    ensures
        keeps(st, sub_local(f, st, p, l).0),
    decreases f, 2nat,
{
    lemma_local_plan(st, l);
    let (l1, plan) = local_plan(st, l);
    match plan {
        LocalPlan::Plain => lemma_walk_local(f, st, p, l1),
        LocalPlan::Refused(x) => lemma_local_refused(f, st, p, l1, x),
        LocalPlan::Child(res) => match res {
            Err(x) => lemma_local_child_err(f, st, p, l1, x),
            Ok(c) => lemma_local_child_ok(f, st, p, l1, c),
        },
    }
}

proof fn lemma_parent_expr(fuel: nat, st: St, e: Expr, semi: bool)
    ensures
        keeps_scope(st, parent_expr(fuel, st, e, semi).0),
    decreases fuel, 0nat,
{
    if fuel > 0 {
        let f = (fuel - 1) as nat;
        let st0 = if semi { St { visit_last_mode: crate::context::VisitLastMode::Never, ..st } } else { st };
        if st0.args.len() == 0 {
            lemma_walk_expr(f, st0, Pass::Dummy, e);
        } else {
            lemma_expanded(f, st0, e);
            let (st1, e1) = expanded(f, st0, e);
            lemma_build_on(st1, e1);
        }
    }
}

proof fn lemma_parent_local(fuel: nat, st: St, l: Local)
    ensures
        keeps_scope(st, parent_local(fuel, st, l).0),
    decreases fuel, 0nat,
{
    if fuel > 0 {
        let f = (fuel - 1) as nat;
        if st.args.len() == 0 {
            lemma_walk_local(f, st, Pass::Dummy, l);
        } else {
            match l.init {
                None => {},
                Some(x) => {
                    lemma_expanded(f, st, *x);
                    let (st1, x1) = expanded(f, st, *x);
                    lemma_build_on(st1, x1);
                },
            }
        }
    }
}

proof fn lemma_expanded(fuel: nat, st: St, e: Expr)
    ensures
        keeps_scope(st, expanded(fuel, st, e).0),
    decreases fuel, 0nat,
{
    if fuel > 0 {
        let f = (fuel - 1) as nat;
        let sc0 = Scope { closure: false, try_block: false, foreign: false };
        match e.kind {
            ExprKind::Closure(body) => if crate::context::visit_last_of(st) {
                let st1 = closure_mode(st, *body);
                lemma_child(st1, *body);
                let (st2, b1) = child(st1, *body);
                lemma_walk_expr(f, st2, Pass::Main(sc0), b1);
            } else {
                lemma_child(st, e);
                let (st1, e1) = child(st, e);
                lemma_walk_expr(f, st1, Pass::Main(sc0), e1);
            },
            _ => {
                lemma_child(st, e);
                let (st1, e1) = child(st, e);
                lemma_walk_expr(f, st1, Pass::Main(sc0), e1);
            },
        }
    }
}

/// A walk over an expression keeps its context: the mode, the span, the
/// enum's number and traits stay, the variant count and the child flag only
/// grow, the errors found stay first, and the marker scope stays unless an
/// error was found (an inner attribute hands the marker names back).
pub proof fn law_walk_keeps_context(fuel: nat, st: St, p: Pass, e: Expr)
    ensures
        walk_keeps(st, walk_expr(fuel, st, p, e).0),
{
    lemma_walk_expr(fuel, st, p, e);
}

/// A walk over a block keeps its context as a walk over an expression does.
pub proof fn law_block_walk_keeps_context(fuel: nat, st: St, p: Pass, b: Block)
    ensures
        walk_keeps(st, walk_block(fuel, st, p, b).0),
{
    lemma_walk_block(fuel, st, p, b);
}

/// Expanding an expression in an attribute's context keeps its marker scope
/// unless an error was found, never lowers its variant count, and loses no
/// error.
pub proof fn law_expansion_keeps_scope(fuel: nat, st: St, e: Expr, semi: bool)
    ensures
        keeps_scope(st, parent_expr(fuel, st, e, semi).0),
{
    lemma_parent_expr(fuel, st, e, semi);
}

/// An enum is built exactly when no error was found and two or more variants
/// were made: it has as many variants as were made, the attribute's number
/// and its traits. Without error and with fewer variants, the attribute is an
/// error unless it made none and another attribute was found inside.
pub proof fn law_enum_built_iff(st: St)
    ensures
        (build_st(st).1 is Some) == (st.errors.len() == 0 && st.variants >= 2),
        build_st(st).1 is Some ==> build_st(st).1->0.variants == st.variants as usize
            && build_st(st).1->0.id == st.enum_id
            && build_st(st).1->0.traits == crate::context::paths_of(st.args),
        st.errors.len() == 0 && st.variants < 2 ==> ((build_st(st).0.errors.len() > 0) == !(st.variants == 0 && st.has_child)),
{
}

/// Once an error is found, a walk over an expression or a statement changes
/// nothing.
pub proof fn law_walk_stops_after_error(fuel: nat, st: St, p: Pass, e: Expr, s: Stmt)
    requires
        st.errors.len() > 0,
    ensures
        walk_expr(fuel, st, p, e) == (st, e),
        walk_stmt(fuel, st, p, s) == (st, s),
{
}

/// Arguments that cannot be read are the only error of the attribute: the
/// input is not looked at.
pub proof fn law_bad_arguments_only_error(text: Seq<char>, span: u64, raw: crate::ast::RawArgs, input: crate::expand::Input)
    requires
        crate::context::args_error(raw.items@, raw.error) is Some,
    ensures
        crate::expand::attribute_result(text, span, raw, input) == Err::<crate::expand::Input, Seq<crate::context::Error>>(
            seq![crate::context::args_error(raw.items@, raw.error)->0],
        ),
{
}

/// The enum of the outermost attribute is numbered by the text of its input
/// alone: the same text gives the same number.
pub proof fn law_enum_number_is_text_hash(
    text: Seq<char>,
    span: u64,
    items: Seq<crate::ast::ArgItem>,
    error: Option<u64>,
)
    ensures
        new_st(text, span, items, error, true, seq![], seq![]) is Ok ==> new_st(text, span, items, error, true, seq![], seq![])->Ok_0.enum_id
            == crate::context::input_hash(text),
{
}

} // verus!
