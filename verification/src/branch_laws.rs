//! What the rewriting of branches does, stated over the shape of the input:
//! how many variants an `if` chain gets, when a `match` produces no value,
//! and which `return`s are rewritten.

use vstd::prelude::*;

use crate::ast::{Part, Parts, Stmt, Stmts, has_attr, has_empty_attr, path_idents, path_is_ident, Arm, Arms, Attrs, Block, Expr, ExprKind, Exprs};
use crate::context::{unit, has_err, marker_expr, marker_macro, next_st, scope_in, wrap, MarkerView, Scope, St, VisitMode};
use crate::last_expr::{arm_skipped, block_skipped, last_arms, last_if, wrapped_block};
use crate::scan::{
    count_arms, count_expr, count_exprs, count_inner, count_opt, count_part, count_parts, count_stmt,
    count_stmts, diverges, diverges_arms, diverges_last, diverges_stmt,
};
use crate::loop_break::{leaves, lv_expr};
use crate::visitor::{err_ret, gen_val, main_post, main_pre};

verus! {

/// The blocks of an `if` / `else if` / `else` chain, in source order, or
/// `None` where the chain does not end in an `else` block.
pub open spec fn if_chain(e: Expr) -> Option<Seq<Block>>
    decreases e,
{
    match e.kind {
        ExprKind::If(_, t, Some(x)) => match x.kind {
            ExprKind::Block(b) => Some(seq![t, b]),
            ExprKind::If(_, _, _) => match if_chain(*x) {
                Some(r) => Some(seq![t] + r),
                None => None,
            },
            _ => None,
        },
        _ => None,
    }
}

/// The blocks `bs` with the `i`-th one wrapped in variant `n + i`.
pub open spec fn numbered_blocks(id: u64, n: nat, bs: Seq<Block>) -> Seq<Block> {
    Seq::new(bs.len(), |i: int| wrapped_block(id, (n + i) as nat, bs[i]))
}

/// Rewriting the last expression of an `if` / `else if` / `else` chain none
/// of whose blocks is left as it is (none cannot produce a value or holds
/// `#[nested]`) makes one variant per block: the variant count grows by the
/// number of blocks, nothing else of the state changes, and the chain keeps
/// its shape with the `i`-th block, in source order, wrapped in the `i`-th
/// new variant.
pub proof fn law_if_chain_one_variant_per_block(st: St, e: Expr)
    requires
        if_chain(e) is Some,
        forall|i: int| 0 <= i < if_chain(e)->0.len() ==> !block_skipped(st, #[trigger] if_chain(e)->0[i]),
    ensures
        last_if(st, e).0 == (St { variants: st.variants + if_chain(e)->0.len(), ..st }),
        if_chain(last_if(st, e).1) == Some(numbered_blocks(st.enum_id, st.variants, if_chain(e)->0)),
    decreases e,
{
    let bs = if_chain(e)->0;
    if let ExprKind::If(c, t, Some(x)) = e.kind {
        assert(bs[0] == t);
        assert(!block_skipped(st, t));
        let st1 = next_st(st);
        match x.kind {
            ExprKind::Block(b) => {
                assert(bs[1] == b);
                assert(!block_skipped(st1, b));
                assert(numbered_blocks(st.enum_id, st.variants, bs) =~= seq![
                    wrapped_block(st.enum_id, st.variants, t),
                    wrapped_block(st.enum_id, st1.variants, b),
                ]);
            },
            ExprKind::If(_, _, _) => {
                let r = if_chain(*x)->0;
                assert(bs == seq![t] + r);
                assert forall|i: int| 0 <= i < r.len() implies !block_skipped(st1, #[trigger] r[i]) by {
                    assert(r[i] == bs[i + 1]);
                }
                law_if_chain_one_variant_per_block(st1, *x);
                assert(numbered_blocks(st.enum_id, st.variants, bs) =~= seq![
                    wrapped_block(st.enum_id, st.variants, t),
                ] + numbered_blocks(st.enum_id, st1.variants, r));
            },
            _ => {},
        }
    }
}

/// The arms of a `match`, in order.
pub open spec fn arms_seq(arms: Arms) -> Seq<Arm>
    decreases arms,
{
    match arms {
        Arms::Nil => seq![],
        Arms::Cons(a, t) => seq![*a] + arms_seq(*t),
    }
}

proof fn lemma_arms_diverge(ms: crate::context::MarkerView, arms: Arms)
    ensures
        diverges_arms(ms, arms) <==> forall|i: int|
            0 <= i < arms_seq(arms).len() ==> has_empty_attr((#[trigger] arms_seq(arms)[i]).attrs, "never"@)
                || diverges(ms, *arms_seq(arms)[i].body),
    decreases arms,
{
    if let Arms::Cons(a, t) = arms {
        lemma_arms_diverge(ms, *t);
        let s = arms_seq(arms);
        assert(s[0] == *a);
        assert forall|i: int| 1 <= i < s.len() implies #[trigger] s[i] == arms_seq(*t)[i - 1] by {}
        if diverges_arms(ms, arms) {
            assert forall|i: int| 0 <= i < s.len() implies has_empty_attr((#[trigger] s[i]).attrs, "never"@)
                || diverges(ms, *s[i].body) by {
                if i > 0 {
                    assert(s[i] == arms_seq(*t)[i - 1]);
                }
            }
        }
        if forall|i: int| 0 <= i < s.len() ==> has_empty_attr((#[trigger] s[i]).attrs, "never"@)
            || diverges(ms, *s[i].body) {
            assert(has_empty_attr(s[0].attrs, "never"@) || diverges(ms, *s[0].body));
            assert forall|i: int| 0 <= i < arms_seq(*t).len() implies has_empty_attr(
                (#[trigger] arms_seq(*t)[i]).attrs,
                "never"@,
            ) || diverges(ms, *arms_seq(*t)[i].body) by {
                assert(s[i + 1] == arms_seq(*t)[i]);
            }
        }
    }
}

/// How many of the arms `s` are not left as they are.
pub open spec fn kept_arms(st: St, s: Seq<Arm>) -> nat
    decreases s.len(),
{
    if s.len() == 0 {
        0
    } else {
        (if arm_skipped(st, s[0]) { 0nat } else { 1nat }) + kept_arms(st, s.drop_first())
    }
}

proof fn lemma_kept_arms_scope(st: St, st1: St, s: Seq<Arm>)
    requires
        st.scope == st1.scope,
    ensures
        kept_arms(st, s) == kept_arms(st1, s),
    decreases s.len(),
{
    if s.len() > 0 {
        lemma_kept_arms_scope(st, st1, s.drop_first());
    }
}

/// Rewriting the arms of a `match` that is a branch's last expression: each
/// arm that is not left as it is (marked `#[never]` or `#[nested]`, holding
/// `#[nested]`, or with a body that cannot produce a value) gets its body
/// wrapped in the next variant, in source order, and a comma after it; the
/// other arms stay as they are; the variant count grows by the number of
/// wrapped arms and nothing else of the state changes.
pub proof fn law_match_arms_numbered(st: St, arms: Arms)
    ensures
        last_arms(st, arms).0 == (St { variants: st.variants + kept_arms(st, arms_seq(arms)), ..st }),
        arms_seq(last_arms(st, arms).1).len() == arms_seq(arms).len(),
        forall|i: int|
            0 <= i < arms_seq(arms).len() ==> #[trigger] arms_seq(last_arms(st, arms).1)[i] == if arm_skipped(
                st,
                arms_seq(arms)[i],
            ) {
                arms_seq(arms)[i]
            } else {
                Arm {
                    body: Box::new(
                        wrap(
                            st.enum_id,
                            (st.variants + kept_arms(st, arms_seq(arms).take(i))) as nat,
                            Attrs::Nil,
                            *arms_seq(arms)[i].body,
                        ),
                    ),
                    comma: true,
                    ..arms_seq(arms)[i]
                }
            },
    decreases arms,
{
    if let Arms::Cons(a, t) = arms {
        let s = arms_seq(arms);
        let sa = arms_seq(*t);
        let st1 = if arm_skipped(st, *a) { st } else { next_st(st) };
        law_match_arms_numbered(st1, *t);
        lemma_kept_arms_scope(st, st1, sa);
        assert(s[0] == *a);
        assert(s.drop_first() =~= sa);
        let r = arms_seq(last_arms(st, arms).1);
        let rt = arms_seq(last_arms(st1, *t).1);
        assert forall|i: int| 0 <= i < s.len() implies #[trigger] r[i] == if arm_skipped(st, s[i]) {
            s[i]
        } else {
            Arm {
                body: Box::new(wrap(st.enum_id, (st.variants + kept_arms(st, s.take(i))) as nat, Attrs::Nil, *s[i].body)),
                comma: true,
                ..s[i]
            }
        } by {
            if i == 0 {
                assert(s.take(0).len() == 0);
            } else {
                assert(r[i] == rt[i - 1]);
                assert(s[i] == sa[i - 1]);
                assert(s.take(i).drop_first() =~= sa.take(i - 1));
                assert(s.take(i)[0] == *a);
                lemma_kept_arms_scope(st, st1, sa.take(i - 1));
            }
        }
    }
}

/// How many of the blocks `s` are not left as they are.
pub open spec fn kept_blocks(st: St, s: Seq<Block>) -> nat
    decreases s.len(),
{
    if s.len() == 0 {
        0
    } else {
        (if block_skipped(st, s[0]) { 0nat } else { 1nat }) + kept_blocks(st, s.drop_first())
    }
}

proof fn lemma_kept_blocks_scope(st: St, st1: St, s: Seq<Block>)
    requires
        st.scope == st1.scope,
    ensures
        kept_blocks(st, s) == kept_blocks(st1, s),
    decreases s.len(),
{
    if s.len() > 0 {
        lemma_kept_blocks_scope(st, st1, s.drop_first());
    }
}

/// Rewriting the last expression of an `if` / `else if` / `else` chain: each
/// block that is not left as it is (its value cannot be produced, or it
/// holds `#[nested]`) becomes the next variant, in source order; the other
/// blocks stay as they are; the variant count grows by the number of
/// wrapped blocks and nothing else of the state changes.
pub proof fn law_if_chain_numbered(st: St, e: Expr)
    requires
        if_chain(e) is Some,
    ensures
        last_if(st, e).0 == (St { variants: st.variants + kept_blocks(st, if_chain(e)->0), ..st }),
        if_chain(last_if(st, e).1) matches Some(r) && r.len() == if_chain(e)->0.len() && forall|i: int|
            0 <= i < r.len() ==> #[trigger] r[i] == if block_skipped(st, if_chain(e)->0[i]) {
                if_chain(e)->0[i]
            } else {
                wrapped_block(st.enum_id, (st.variants + kept_blocks(st, if_chain(e)->0.take(i))) as nat, if_chain(e)->0[i])
            },
    decreases e,
{
    let bs = if_chain(e)->0;
    if let ExprKind::If(c, t, Some(x)) = e.kind {
        assert(bs[0] == t);
        let st1 = if block_skipped(st, t) { st } else { next_st(st) };
        match x.kind {
            ExprKind::Block(b) => {
                assert(bs[1] == b);
                assert(bs.drop_first() =~= seq![b]);
                assert(seq![b].drop_first() =~= Seq::<Block>::empty());
                assert(bs.take(1) =~= seq![t]);
                assert(seq![t].drop_first() =~= Seq::<Block>::empty());
                assert(bs.take(0) =~= Seq::<Block>::empty());
                assert(kept_blocks(st, Seq::<Block>::empty()) == 0);
                assert(kept_blocks(st, seq![b]) == (if block_skipped(st, b) { 0nat } else { 1nat }));
                assert(kept_blocks(st, seq![t]) == (if block_skipped(st, t) { 0nat } else { 1nat }));
                assert(kept_blocks(st, bs) == kept_blocks(st, seq![t]) + kept_blocks(st, seq![b]));
                assert(block_skipped(st1, b) == block_skipped(st, b));
                let r = if_chain(last_if(st, e).1)->0;
                assert(r.len() == 2);
                assert(kept_blocks(st, bs.take(1)) == kept_blocks(st, seq![t]));
            },
            ExprKind::If(_, _, _) => {
                let sa = if_chain(*x)->0;
                assert(bs == seq![t] + sa);
                assert(bs.drop_first() =~= sa);
                law_if_chain_numbered(st1, *x);
                lemma_kept_blocks_scope(st, st1, sa);
                let r = if_chain(last_if(st, e).1)->0;
                let rt = if_chain(last_if(st1, *x).1)->0;
                assert forall|i: int| 0 <= i < r.len() implies #[trigger] r[i] == if block_skipped(st, bs[i]) {
                    bs[i]
                } else {
                    wrapped_block(st.enum_id, (st.variants + kept_blocks(st, bs.take(i))) as nat, bs[i])
                } by {
                    if i == 0 {
                        assert(bs.take(0) =~= Seq::<Block>::empty());
                    } else {
                        assert(r[i] == rt[i - 1]);
                        assert(bs[i] == sa[i - 1]);
                        assert(bs.take(i).drop_first() =~= sa.take(i - 1));
                        assert(bs.take(i)[0] == t);
                        lemma_kept_blocks_scope(st, st1, sa.take(i - 1));
                    }
                }
            },
            _ => {},
        }
    }
}

/// A `match` (without `#[never]` or `#[auto_enum]` on it) cannot produce a
/// value exactly when each of its arms is marked `#[never]` or has a body
/// that cannot produce a value; so a `match` all of whose arms `panic!` is
/// left out of the variants, and one with an arm that produces a value is
/// not.
pub proof fn law_match_diverges_iff_every_arm_does(ms: crate::context::MarkerView, e: Expr)
    requires
        e.kind is Match,
        !has_empty_attr(e.attrs, "never"@),
        !has_attr(e.attrs, "auto_enum"@),
    ensures
        match e.kind {
            ExprKind::Match(_, arms) => diverges(ms, e) <==> forall|i: int|
                0 <= i < arms_seq(arms).len() ==> has_empty_attr((#[trigger] arms_seq(arms)[i]).attrs, "never"@)
                    || diverges(ms, *arms_seq(arms)[i].body),
            _ => true,
        },
{
    if let ExprKind::Match(_, arms) = e.kind {
        lemma_arms_diverge(ms, arms);
    }
}

/// Every scope inside a closure is a closure scope: a closure opens one, and
/// no expression closes it.
pub proof fn law_closure_scope_is_kept(sc: Scope, e: Expr)
    ensures
        e.kind is Closure ==> scope_in(sc, e).closure,
        sc.closure ==> scope_in(sc, e).closure,
{
}

/// In `return` mode, a `return` inside a closure (it returns from the
/// closure) is left as it is: the main walk's first step on it changes
/// neither the state nor the expression.
pub proof fn law_return_in_closure_kept(st: St, sc: Scope, e: Expr)
    requires
        st.visit_mode is Return,
        sc.closure,
        e.kind is Return,
        e.attrs == Attrs::Nil,
    ensures
        main_pre(st, sc, e) == (st, sc, e),
{
}

/// In `return` mode, a `return` outside every closure and other attribute,
/// whose value is no marker macro, has its value wrapped in the next
/// variant (a missing value is `()`).
pub proof fn law_return_outside_closure_wrapped(st: St, sc: Scope, e: Expr)
    requires
        st.visit_mode is Return,
        !sc.closure,
        !sc.foreign,
        e.attrs == Attrs::Nil,
        e.kind matches ExprKind::Return(v) && (v matches Some(x) ==> !marker_expr(st.scope, *x)),
    ensures
        main_pre(st, sc, e).0 == next_st(st),
        match e.kind {
            ExprKind::Return(Some(x)) => main_pre(st, sc, e).2.kind == ExprKind::Return(
                Some(Box::new(wrap(st.enum_id, st.variants, Attrs::Nil, *x))),
            ),
            _ => main_pre(st, sc, e).2.kind matches ExprKind::Return(Some(x)) && x.kind is Variant,
        },
{
}

/// Which expressions produce no value of their own: anything marked
/// `#[never]` or `#[auto_enum]`; `break`, `continue` and `return`;
/// `panic!` and `unreachable!` (alone or behind `std::` or `core::`) and the
/// marker macro; `None?` and `Err(..)?`. A method call or parenthesized
/// expression produces none exactly when its receiver or inside does.
/// Without attributes, paths, calls, `()`, `if`, loops, closures and the
/// other expressions do produce one.
pub proof fn law_what_produces_no_value(ms: MarkerView, e: Expr)
    ensures
        has_empty_attr(e.attrs, "never"@) || has_attr(e.attrs, "auto_enum"@) ==> diverges(ms, e),
        e.kind is Break || e.kind is Continue || e.kind is Return ==> diverges(ms, e),
        e.kind matches ExprKind::Macro(m) && ({
            let ids = path_idents(m.path);
            ||| ids == seq!["panic"@] || ids == seq!["unreachable"@]
            ||| ids.len() == 2 && (ids[0] == "std"@ || ids[0] == "core"@) && (ids[1] == "panic"@ || ids[1]
                == "unreachable"@)
            ||| marker_macro(ms, m)
        }) ==> diverges(ms, e),
        e.kind matches ExprKind::Try(x) && (x.kind matches ExprKind::Path(p) && path_idents(p) == seq!["None"@])
            ==> diverges(ms, e),
        e.kind matches ExprKind::Try(x) && (x.kind matches ExprKind::Call(func, args) && (args matches Exprs::Cons(
            _,
            rest,
        ) && *rest is Nil) && (func.kind matches ExprKind::Path(p) && path_idents(p) == seq!["Err"@]))
            ==> diverges(ms, e),
        e.attrs == Attrs::Nil ==> (e.kind matches ExprKind::MethodCall(r, _) ==> diverges(ms, e) == diverges(ms, *r)),
        e.attrs == Attrs::Nil ==> (e.kind matches ExprKind::Paren(r) ==> diverges(ms, e) == diverges(ms, *r)),
        e.attrs == Attrs::Nil && (e.kind is Path || e.kind is Call || e.kind is Unit || e.kind is Other || e.kind is If
            || e.kind is Loop || e.kind is ForLoop || e.kind is While || e.kind is Closure || e.kind is Async
            || e.kind is TryBlock) ==> !diverges(ms, e),
{
    if let ExprKind::Macro(m) = e.kind {
        let ids = path_idents(m.path);
        if ids.len() == 2 && (ids[0] == "std"@ || ids[0] == "core"@) {
            if ids[0] == "std"@ {
                assert(crate::scan::std_crates()[0] == ids[0]);
            } else {
                assert(crate::scan::std_crates()[1] == ids[0]);
            }
        }
    }
}

/// In `?` mode, a `?` inside a closure or a `try` block is left as it is:
/// the main walk's first step on it changes neither the state nor the
/// expression.
pub proof fn law_question_mark_in_closure_kept(st: St, sc: Scope, e: Expr)
    requires
        st.visit_mode is Try,
        sc.closure || sc.try_block,
        e.kind is Try,
        e.attrs == Attrs::Nil,
    ensures
        main_pre(st, sc, e) == (st, sc, e),
{
}

/// In `?` mode, a `?` outside every closure, `try` block and other attribute,
/// whose operand is no marker macro, becomes a `match` whose `Err` arm
/// returns the error in the next variant.
pub proof fn law_question_mark_rewritten(st: St, sc: Scope, e: Expr)
    requires
        st.visit_mode is Try,
        !sc.closure,
        !sc.try_block,
        !sc.foreign,
        e.attrs == Attrs::Nil,
        e.kind matches ExprKind::Try(x) && !marker_expr(st.scope, *x),
    ensures
        main_pre(st, sc, e).0 == next_st(st),
        match e.kind {
            ExprKind::Try(x) => main_pre(st, sc, e).2.kind == ExprKind::TryMatch(
                x,
                Box::new(gen_val()),
                Box::new(err_ret(st.enum_id, st.variants)),
            ),
            _ => true,
        },
{
}

/// Outside the expressions of other attributes, the marker macro of the
/// attribute's scope (`marker!(<expr>)`, or the custom marker name) becomes
/// the next variant holding its argument; any other macro stays as it is.
pub proof fn law_marker_becomes_next_variant(st: St, sc: Scope, e: Expr)
    requires
        !sc.foreign,
        !has_err(st),
        e.attrs == Attrs::Nil,
        e.kind is Macro,
    ensures
        match e.kind {
            ExprKind::Macro(m) => if !path_is_ident(m.path, st.scope.current) {
                main_post(st, sc, e) == (st, e)
            } else {
                match m.body {
                    Some(Ok(b)) => main_post(st, sc, e) == (next_st(st), wrap(st.enum_id, st.variants, Attrs::Nil, *b)),
                    _ => true,
                }
            },
            _ => true,
        },
{
}

/// In the body of a `loop` that is a branch's last expression, a `break`
/// that leaves that loop (unlabelled and outside inner loops, or naming its
/// label) has its value wrapped in the next variant (a missing value is
/// `()`); a `break` that leaves another loop, without value, stays; and the
/// search does not enter closures or `async` blocks, nor, for an unlabelled
/// loop, inner loops.
pub proof fn law_loop_breaks_wrapped(st: St, lab: Option<String>, nested: bool, e: Expr)
    requires
        e.attrs == Attrs::Nil,
    ensures
        match e.kind {
            ExprKind::Break(l, v) => {
                &&& leaves(lab, nested, l) && v is None ==> lv_expr(st, lab, nested, e) == (
                    next_st(st),
                    Expr { kind: ExprKind::Break(l, Some(Box::new(wrap(st.enum_id, st.variants, Attrs::Nil, unit())))), ..e },
                )
                &&& leaves(lab, nested, l) && (v matches Some(x) && x.attrs == Attrs::Nil && (x.kind is Path || x.kind is Unit))
                    ==> lv_expr(st, lab, nested, e) == (
                    next_st(st),
                    Expr { kind: ExprKind::Break(l, Some(Box::new(wrap(st.enum_id, st.variants, Attrs::Nil, *v->0)))), ..e },
                )
                &&& !leaves(lab, nested, l) && v is None ==> lv_expr(st, lab, nested, e) == (st, e)
            },
            _ => true,
        },
        e.kind is Closure || e.kind is Async ==> lv_expr(st, lab, nested, e) == (st, e),
        lab is None && (e.kind is Loop || e.kind is ForLoop || e.kind is While) ==> lv_expr(st, lab, nested, e) == (st, e),
{
    match e.kind {
        ExprKind::Break(l, Some(x)) => {
            if leaves(lab, nested, l) && x.attrs == Attrs::Nil && (x.kind is Path || x.kind is Unit) {
                assert(!marker_expr(st.scope, *x));
                assert(lv_expr(next_st(st), lab, nested, *x) == (next_st(st), *x));
            }
        },
        ExprKind::Break(l, None) => {
            if !leaves(lab, nested, l) {
                assert(crate::loop_break::lv_opt(st, lab, nested, None) == (st, None::<Box<Expr>>));
                assert(lv_expr(st, lab, nested, e).1 == Expr { kind: ExprKind::Break(l, None), ..e });
                assert(lv_expr(st, lab, nested, e).1 == e);
            }
        },
        _ => {},
    }
}

/// The statements of a block, in order.
pub open spec fn stmts_seq(s: Stmts) -> Seq<Stmt>
    decreases s,
{
    match s {
        Stmts::Nil => seq![],
        Stmts::Cons(x, t) => seq![*x] + stmts_seq(*t),
    }
}

proof fn lemma_diverges_last(ms: MarkerView, s: Stmts)
    ensures
        diverges_last(ms, s) <==> stmts_seq(s).len() > 0 && diverges_stmt(ms, stmts_seq(s).last()),
    decreases s,
{
    if let Stmts::Cons(x, t) = s {
        lemma_diverges_last(ms, *t);
        if stmts_seq(*t).len() > 0 {
            assert(stmts_seq(s).last() == stmts_seq(*t).last());
        } else {
            assert(*t is Nil);
        }
    }
}

/// A block (or `unsafe` block) without attributes produces no value of its
/// own exactly when it has a last statement and that statement produces
/// none; an empty block produces `()`.
pub proof fn law_block_value_is_its_last_statement(ms: MarkerView, e: Expr)
    requires
        e.attrs == Attrs::Nil,
    ensures
        match e.kind {
            ExprKind::Block(b) => diverges(ms, e) <==> stmts_seq(b.stmts).len() > 0 && diverges_stmt(
                ms,
                stmts_seq(b.stmts).last(),
            ),
            ExprKind::Unsafe(b) => diverges(ms, e) <==> stmts_seq(b.stmts).len() > 0 && diverges_stmt(
                ms,
                stmts_seq(b.stmts).last(),
            ),
            _ => true,
        },
{
    match e.kind {
        ExprKind::Block(b) => lemma_diverges_last(ms, b.stmts),
        ExprKind::Unsafe(b) => lemma_diverges_last(ms, b.stmts),
        _ => {},
    }
}

proof fn lemma_count_expr_closure(ms: MarkerView, e: Expr)
    ensures
        count_expr(ms, true, e) == (0nat, 0nat),
    decreases e, 1nat,
{
    lemma_count_inner_closure(ms, e);
}

proof fn lemma_count_inner_closure(ms: MarkerView, e: Expr)
    ensures
        count_inner(ms, true, e) == (0nat, 0nat),
    decreases e, 0nat,
{
    match e.kind {
        ExprKind::Block(b) => lemma_count_stmts_closure(ms, b.stmts),
        ExprKind::Unsafe(b) => lemma_count_stmts_closure(ms, b.stmts),
        ExprKind::Async(b) => lemma_count_stmts_closure(ms, b.stmts),
        ExprKind::TryBlock(b) => lemma_count_stmts_closure(ms, b.stmts),
        ExprKind::Match(x, arms) => {
            lemma_count_expr_closure(ms, *x);
            lemma_count_arms_closure(ms, arms);
        },
        ExprKind::If(x, t, el) => {
            lemma_count_expr_closure(ms, *x);
            lemma_count_stmts_closure(ms, t.stmts);
            lemma_count_opt_closure(ms, el);
        },
        ExprKind::Loop(_, b) => lemma_count_stmts_closure(ms, b.stmts),
        ExprKind::ForLoop(_, x, b) => {
            lemma_count_expr_closure(ms, *x);
            lemma_count_stmts_closure(ms, b.stmts);
        },
        ExprKind::While(_, x, b) => {
            lemma_count_expr_closure(ms, *x);
            lemma_count_stmts_closure(ms, b.stmts);
        },
        ExprKind::Closure(body) => lemma_count_expr_closure(ms, *body),
        ExprKind::MethodCall(r, args) => {
            lemma_count_expr_closure(ms, *r);
            lemma_count_exprs_closure(ms, args);
        },
        ExprKind::Paren(x) => lemma_count_expr_closure(ms, *x),
        ExprKind::Break(_, v) => lemma_count_opt_closure(ms, v),
        ExprKind::Return(v) => lemma_count_opt_closure(ms, v),
        ExprKind::Try(x) => lemma_count_expr_closure(ms, *x),
        ExprKind::Call(f, args) => {
            lemma_count_expr_closure(ms, *f);
            lemma_count_exprs_closure(ms, args);
        },
        ExprKind::Other(parts) => lemma_count_parts_closure(ms, parts),
        ExprKind::Variant(_, _, x) => lemma_count_expr_closure(ms, *x),
        ExprKind::TryMatch(x, ok, ret) => {
            lemma_count_expr_closure(ms, *x);
            lemma_count_expr_closure(ms, *ok);
            lemma_count_expr_closure(ms, *ret);
        },
        ExprKind::ErrCall(x) => lemma_count_expr_closure(ms, *x),
        ExprKind::WithEnum(_, x) => lemma_count_expr_closure(ms, *x),
        _ => {},
    }
}

proof fn lemma_count_opt_closure(ms: MarkerView, x: Option<Box<Expr>>)
    ensures
        count_opt(ms, true, x) == (0nat, 0nat),
    decreases x, 0nat,
{
    if let Some(e) = x {
        lemma_count_expr_closure(ms, *e);
    }
}

proof fn lemma_count_exprs_closure(ms: MarkerView, es: Exprs)
    ensures
        count_exprs(ms, true, es) == (0nat, 0nat),
    decreases es, 0nat,
{
    if let Exprs::Cons(e, t) = es {
        lemma_count_expr_closure(ms, *e);
        lemma_count_exprs_closure(ms, *t);
    }
}

proof fn lemma_count_parts_closure(ms: MarkerView, ps: Parts)
    ensures
        count_parts(ms, true, ps) == (0nat, 0nat),
    decreases ps, 0nat,
{
    if let Parts::Cons(p, t) = ps {
        lemma_count_part_closure(ms, *p);
        lemma_count_parts_closure(ms, *t);
    }
}

proof fn lemma_count_part_closure(ms: MarkerView, p: Part)
    ensures
        count_part(ms, true, p) == (0nat, 0nat),
    decreases p, 0nat,
{
    match p {
        Part::Expr(e) => lemma_count_expr_closure(ms, e),
        Part::Block(b) => lemma_count_stmts_closure(ms, b.stmts),
    }
}

proof fn lemma_count_arms_closure(ms: MarkerView, arms: Arms)
    ensures
        count_arms(ms, true, arms) == (0nat, 0nat),
    decreases arms, 0nat,
{
    if let Arms::Cons(a, t) = arms {
        lemma_count_opt_closure(ms, a.guard);
        lemma_count_expr_closure(ms, *a.body);
        lemma_count_arms_closure(ms, *t);
    }
}

proof fn lemma_count_stmts_closure(ms: MarkerView, stmts: Stmts)
    ensures
        count_stmts(ms, true, stmts) == (0nat, 0nat),
    decreases stmts, 0nat,
{
    if let Stmts::Cons(s, t) = stmts {
        lemma_count_stmt_closure(ms, *s);
        lemma_count_stmts_closure(ms, *t);
    }
}

proof fn lemma_count_stmt_closure(ms: MarkerView, s: Stmt)
    ensures
        count_stmt(ms, true, s) == (0nat, 0nat),
    decreases s, 0nat,
{
    match s {
        Stmt::Expr(e, _) => lemma_count_expr_closure(ms, e),
        Stmt::Local(l) => {
            lemma_count_opt_closure(ms, l.init);
            lemma_count_opt_closure(ms, l.diverge);
        },
        _ => {},
    }
}

/// The `?`s and `return`s that decide a function's mode are those of its
/// own body: nothing inside a closure counts, and a closure counts nothing;
/// a `?` or a `return` (without `#[never]`, whose operand is no marker
/// macro) outside closures counts one, on top of what its operand holds.
pub proof fn law_counts_skip_closures(ms: MarkerView, e: Expr)
    ensures
        count_expr(ms, true, e) == (0nat, 0nat),
        e.kind is Closure ==> count_expr(ms, false, e) == (0nat, 0nat),
        e.attrs == Attrs::Nil ==> match e.kind {
            ExprKind::Try(x) => !marker_expr(ms, *x) ==> count_expr(ms, false, e) == (
                count_expr(ms, false, *x).0 + 1,
                count_expr(ms, false, *x).1,
            ),
            ExprKind::Return(Some(x)) => !marker_expr(ms, *x) ==> count_expr(ms, false, e) == (
                count_expr(ms, false, *x).0,
                count_expr(ms, false, *x).1 + 1,
            ),
            ExprKind::Return(None) => count_expr(ms, false, e) == (0nat, 1nat),
            _ => true,
        },
{
    lemma_count_expr_closure(ms, e);
    match e.kind {
        ExprKind::Closure(body) => lemma_count_expr_closure(ms, *body),
        ExprKind::Try(x) => {
            assert(count_inner(ms, false, e) == count_expr(ms, false, *x));
        },
        ExprKind::Return(v) => {
            assert(count_inner(ms, false, e) == count_opt(ms, false, v));
        },
        _ => {},
    }
}

} // verus!
