//! Questions asked of a piece of syntax without changing it: whether an
//! expression can produce a value of its own, whether a `#[nested]`
//! annotation stands inside it, and how many `?` and `return` a function
//! body holds.

use vstd::prelude::*;

use crate::ast::{
    any_attr, any_empty_attr, has_attr, has_empty_attr, path_eq, path_matches, Arm, Arms, Block,
    Expr, ExprKind, Exprs, Local, Macro, Part, Parts, Stmt, Stmts,
};
use crate::context::{marker_expr, marker_macro, MarkerScope, MarkerView};

verus! {

/// The names of the crates `std` and `core`.
pub open spec fn std_crates() -> Seq<Seq<char>> {
    seq!["std"@, "core"@]
}

/// Whether the macro never returns: `unreachable!`, `panic!`, or a marker
/// macro that may have effect in the scope `ms`.
pub open spec fn never_returns_macro(ms: MarkerView, mac: Macro) -> bool {
    ||| path_matches(mac.path, std_crates(), seq!["unreachable"@])
    ||| path_matches(mac.path, std_crates(), seq!["panic"@])
    ||| marker_macro(ms, mac)
}

/// Whether a list of expressions has exactly one element.
pub open spec fn single(es: Exprs) -> bool {
    match es {
        Exprs::Cons(_, t) => *t is Nil,
        Exprs::Nil => false,
    }
}

/// Whether the expression cannot produce a value of its own: it is marked
/// `#[never]` or `#[auto_enum]`, leaves (`break`, `continue`, `return`,
/// `unreachable!`, `panic!`, a marker macro, `None?`, `Err(..)?`), or all of
/// its branches do.
pub open spec fn diverges(ms: MarkerView, e: Expr) -> bool
    decreases e,
{
    if has_empty_attr(e.attrs, "never"@) || has_attr(e.attrs, "auto_enum"@) {
        true
    } else {
        match e.kind {
            ExprKind::Block(b) => diverges_last(ms, b.stmts),
            ExprKind::Unsafe(b) => diverges_last(ms, b.stmts),
            ExprKind::Break(_, _) => true,
            ExprKind::Continue => true,
            ExprKind::Return(_) => true,
            ExprKind::Macro(m) => never_returns_macro(ms, m),
            ExprKind::Match(_, arms) => diverges_arms(ms, arms),
            ExprKind::Try(inner) => match inner.kind {
                ExprKind::Path(p) => path_matches(p, std_crates(), seq!["option"@, "Option"@, "None"@]),
                ExprKind::Call(func, args) => single(args) && match func.kind {
                    ExprKind::Path(p) => path_matches(p, std_crates(), seq!["result"@, "Result"@, "Err"@]),
                    _ => false,
                },
                _ => false,
            },
            ExprKind::MethodCall(recv, _) => diverges(ms, *recv),
            ExprKind::Paren(inner) => diverges(ms, *inner),
            ExprKind::WithEnum(_, inner) => diverges(ms, *inner),
            ExprKind::TryMatch(_, ok, _) => diverges(ms, *ok),
            _ => false,
        }
    }
}

/// Whether every arm is marked `#[never]` or cannot produce a value.
pub open spec fn diverges_arms(ms: MarkerView, arms: Arms) -> bool
    decreases arms,
{
    match arms {
        Arms::Nil => true,
        Arms::Cons(a, t) => (has_empty_attr(a.attrs, "never"@) || diverges(ms, *a.body))
            && diverges_arms(ms, *t),
    }
}

/// Whether the last statement cannot produce a value. An empty block can.
pub open spec fn diverges_last(ms: MarkerView, stmts: Stmts) -> bool
    decreases stmts,
{
    match stmts {
        Stmts::Nil => false,
        Stmts::Cons(s, t) => match *t {
            Stmts::Nil => diverges_stmt(ms, *s),
            _ => diverges_last(ms, *t),
        },
    }
}

/// Whether the statement cannot produce a value: an expression or an
/// initializer that cannot, a nested item, or a macro that never returns.
pub open spec fn diverges_stmt(ms: MarkerView, s: Stmt) -> bool
    decreases s,
{
    match s {
        Stmt::Expr(e, _) => diverges(ms, e),
        Stmt::Local(l) => match l.init {
            Some(init) => diverges(ms, *init),
            None => false,
        },
        Stmt::Item(_) => true,
        Stmt::Enum(_) => true,
        Stmt::Macro(_, m) => never_returns_macro(ms, m),
    }
}

/// Whether the macro never returns.
pub fn is_unreachable_macro(ms: &MarkerScope, mac: &Macro) -> (r: bool)
    ensures
        r == never_returns_macro(ms@, *mac),
{
    let crates = vec!["std", "core"];
    let u = vec!["unreachable"];
    let p = vec!["panic"];
    proof {
        assert(crates@.map_values(|c: &str| c@) =~= std_crates());
        assert(u@.map_values(|c: &str| c@) =~= seq!["unreachable"@]);
        assert(p@.map_values(|c: &str| c@) =~= seq!["panic"@]);
    }
    path_eq(&mac.path, &crates, &u) || path_eq(&mac.path, &crates, &p) || ms.is_marker_macro(mac)
}

/// Whether the expression `<inner>?` leaves: `None?` or `Err(..)?`.
fn is_unreachable_try(inner: &Expr) -> (r: bool)
    ensures
        r == match inner.kind {
            ExprKind::Path(p) => path_matches(p, std_crates(), seq!["option"@, "Option"@, "None"@]),
            ExprKind::Call(func, args) => single(args) && match func.kind {
                ExprKind::Path(p) => path_matches(p, std_crates(), seq!["result"@, "Result"@, "Err"@]),
                _ => false,
            },
            _ => false,
        },
{
    let crates = vec!["std", "core"];
    proof {
        assert(crates@.map_values(|c: &str| c@) =~= std_crates());
    }
    match &inner.kind {
        ExprKind::Path(p) => {
            let expected = vec!["option", "Option", "None"];
            proof {
                assert(expected@.map_values(|c: &str| c@) =~= seq!["option"@, "Option"@, "None"@]);
            }
            path_eq(p, &crates, &expected)
        },
        ExprKind::Call(func, args) => {
            let one = match args {
                Exprs::Cons(_, t) => match **t {
                    Exprs::Nil => true,
                    _ => false,
                },
                Exprs::Nil => false,
            };
            if !one {
                return false;
            }
            match &func.kind {
                ExprKind::Path(p) => {
                    let expected = vec!["result", "Result", "Err"];
                    proof {
                        assert(expected@.map_values(|c: &str| c@) =~= seq!["result"@, "Result"@, "Err"@]);
                    }
                    path_eq(p, &crates, &expected)
                },
                _ => false,
            }
        },
        _ => false,
    }
}

/// Whether the expression cannot produce a value of its own.
pub fn is_unreachable(ms: &MarkerScope, e: &Expr) -> (r: bool)
    ensures
        r == diverges(ms@, *e),
    decreases e,
{
    if any_empty_attr(&e.attrs, "never") || any_attr(&e.attrs, "auto_enum") {
        return true;
    }
    match &e.kind {
        ExprKind::Block(b) => is_unreachable_last(ms, &b.stmts),
        ExprKind::Unsafe(b) => is_unreachable_last(ms, &b.stmts),
        ExprKind::Break(_, _) => true,
        ExprKind::Continue => true,
        ExprKind::Return(_) => true,
        ExprKind::Macro(m) => is_unreachable_macro(ms, m),
        ExprKind::Match(_, arms) => is_unreachable_arms(ms, arms),
        ExprKind::Try(inner) => is_unreachable_try(inner),
        ExprKind::MethodCall(recv, _) => is_unreachable(ms, recv),
        ExprKind::Paren(inner) => is_unreachable(ms, inner),
        ExprKind::WithEnum(_, inner) => is_unreachable(ms, inner),
        ExprKind::TryMatch(_, ok, _) => is_unreachable(ms, ok),
        _ => false,
    }
}

/// Whether every arm is marked `#[never]` or cannot produce a value.
pub fn is_unreachable_arms(ms: &MarkerScope, arms: &Arms) -> (r: bool)
    ensures
        r == diverges_arms(ms@, *arms),
    decreases arms,
{
    match arms {
        Arms::Nil => true,
        Arms::Cons(a, t) => (any_empty_attr(&a.attrs, "never") || is_unreachable(ms, &a.body))
            && is_unreachable_arms(ms, t),
    }
}

/// Whether the last statement cannot produce a value.
pub fn is_unreachable_last(ms: &MarkerScope, stmts: &Stmts) -> (r: bool)
    ensures
        r == diverges_last(ms@, *stmts),
    decreases stmts,
{
    match stmts {
        Stmts::Nil => false,
        Stmts::Cons(s, t) => match &**t {
            Stmts::Nil => is_unreachable_stmt(ms, s),
            _ => is_unreachable_last(ms, t),
        },
    }
}

/// Whether the statement cannot produce a value.
pub fn is_unreachable_stmt(ms: &MarkerScope, s: &Stmt) -> (r: bool)
    ensures
        r == diverges_stmt(ms@, *s),
    decreases s,
{
    match s {
        Stmt::Expr(e, _) => is_unreachable(ms, e),
        Stmt::Local(l) => match &l.init {
            Some(init) => is_unreachable(ms, init),
            None => false,
        },
        Stmt::Item(_) => true,
        Stmt::Enum(_) => true,
        Stmt::Macro(_, m) => is_unreachable_macro(ms, m),
    }
}

/// Whether a `#[nested]` annotation stands in the expression: on it or on an
/// expression, arm or `let` inside it, not counting what stands inside
/// another `#[auto_enum]` attribute or a nested item.
pub open spec fn nested_expr(e: Expr) -> bool
    decreases e,
{
    if has_attr(e.attrs, "auto_enum"@) {
        false
    } else if has_empty_attr(e.attrs, "nested"@) {
        true
    } else {
        match e.kind {
            ExprKind::Block(b) => nested_stmts(b.stmts),
            ExprKind::Unsafe(b) => nested_stmts(b.stmts),
            ExprKind::Async(b) => nested_stmts(b.stmts),
            ExprKind::TryBlock(b) => nested_stmts(b.stmts),
            ExprKind::Match(x, arms) => nested_expr(*x) || nested_arms(arms),
            ExprKind::If(c, t, el) => nested_expr(*c) || nested_stmts(t.stmts) || nested_opt(el),
            ExprKind::Loop(_, b) => nested_stmts(b.stmts),
            ExprKind::ForLoop(_, x, b) => nested_expr(*x) || nested_stmts(b.stmts),
            ExprKind::While(_, c, b) => nested_expr(*c) || nested_stmts(b.stmts),
            ExprKind::Closure(body) => nested_expr(*body),
            ExprKind::MethodCall(r, args) => nested_expr(*r) || nested_exprs(args),
            ExprKind::Paren(x) => nested_expr(*x),
            ExprKind::Break(_, v) => nested_opt(v),
            ExprKind::Return(v) => nested_opt(v),
            ExprKind::Try(x) => nested_expr(*x),
            ExprKind::Call(f, args) => nested_expr(*f) || nested_exprs(args),
            ExprKind::Other(parts) => nested_parts(parts),
            ExprKind::Variant(_, _, x) => nested_expr(*x),
            ExprKind::TryMatch(x, ok, ret) => nested_expr(*x) || nested_expr(*ok) || nested_expr(*ret),
            ExprKind::ErrCall(x) => nested_expr(*x),
            ExprKind::WithEnum(_, x) => nested_expr(*x),
            _ => false,
        }
    }
}

/// Whether a `#[nested]` annotation stands in the optional expression.
pub open spec fn nested_opt(x: Option<Box<Expr>>) -> bool
    decreases x,
{
    match x {
        Some(e) => nested_expr(*e),
        None => false,
    }
}

/// Whether a `#[nested]` annotation stands in one of the expressions.
pub open spec fn nested_exprs(es: Exprs) -> bool
    decreases es,
{
    match es {
        Exprs::Nil => false,
        Exprs::Cons(e, t) => nested_expr(*e) || nested_exprs(*t),
    }
}

/// Whether a `#[nested]` annotation stands in one of the parts.
pub open spec fn nested_parts(ps: Parts) -> bool
    decreases ps,
{
    match ps {
        Parts::Nil => false,
        Parts::Cons(p, t) => (match *p {
            Part::Expr(e) => nested_expr(e),
            Part::Block(b) => nested_stmts(b.stmts),
        }) || nested_parts(*t),
    }
}

/// Whether a `#[nested]` annotation stands on the arm or in it.
pub open spec fn nested_arm(a: Arm) -> bool
    decreases a,
{
    has_empty_attr(a.attrs, "nested"@) || nested_opt(a.guard) || nested_expr(*a.body)
}

/// Whether a `#[nested]` annotation stands on one of the arms or in it.
pub open spec fn nested_arms(arms: Arms) -> bool
    decreases arms,
{
    match arms {
        Arms::Nil => false,
        Arms::Cons(a, t) => nested_arm(*a) || nested_arms(*t),
    }
}

/// Whether a `#[nested]` annotation stands on the `let` or in it.
pub open spec fn nested_local(l: Local) -> bool
    decreases l,
{
    if has_attr(l.attrs, "auto_enum"@) {
        false
    } else if has_empty_attr(l.attrs, "nested"@) {
        true
    } else {
        nested_opt(l.init) || nested_opt(l.diverge)
    }
}

/// Whether a `#[nested]` annotation stands in one of the statements.
pub open spec fn nested_stmts(stmts: Stmts) -> bool
    decreases stmts,
{
    match stmts {
        Stmts::Nil => false,
        Stmts::Cons(s, t) => (match *s {
            Stmt::Expr(e, _) => nested_expr(e),
            Stmt::Local(l) => nested_local(l),
            _ => false,
        }) || nested_stmts(*t),
    }
}

/// Whether a `#[nested]` annotation stands in the expression.
pub fn find_nested(e: &Expr) -> (r: bool)
    ensures
        r == nested_expr(*e),
    decreases e,
{
    if any_attr(&e.attrs, "auto_enum") {
        return false;
    }
    if any_empty_attr(&e.attrs, "nested") {
        return true;
    }
    match &e.kind {
        ExprKind::Block(b) => find_nested_stmts(&b.stmts),
        ExprKind::Unsafe(b) => find_nested_stmts(&b.stmts),
        ExprKind::Async(b) => find_nested_stmts(&b.stmts),
        ExprKind::TryBlock(b) => find_nested_stmts(&b.stmts),
        ExprKind::Match(x, arms) => find_nested(x) || find_nested_arms(arms),
        ExprKind::If(c, t, el) => find_nested(c) || find_nested_stmts(&t.stmts) || find_nested_opt(el),
        ExprKind::Loop(_, b) => find_nested_stmts(&b.stmts),
        ExprKind::ForLoop(_, x, b) => find_nested(x) || find_nested_stmts(&b.stmts),
        ExprKind::While(_, c, b) => find_nested(c) || find_nested_stmts(&b.stmts),
        ExprKind::Closure(body) => find_nested(body),
        ExprKind::MethodCall(r, args) => find_nested(r) || find_nested_exprs(args),
        ExprKind::Paren(x) => find_nested(x),
        ExprKind::Break(_, v) => find_nested_opt(v),
        ExprKind::Return(v) => find_nested_opt(v),
        ExprKind::Try(x) => find_nested(x),
        ExprKind::Call(f, args) => find_nested(f) || find_nested_exprs(args),
        ExprKind::Other(parts) => find_nested_parts(parts),
        ExprKind::Variant(_, _, x) => find_nested(x),
        ExprKind::TryMatch(x, ok, ret) => find_nested(x) || find_nested(ok) || find_nested(ret),
        ExprKind::ErrCall(x) => find_nested(x),
        ExprKind::WithEnum(_, x) => find_nested(x),
        _ => false,
    }
}

fn find_nested_opt(x: &Option<Box<Expr>>) -> (r: bool)
    ensures
        r == nested_opt(*x),
    decreases x,
{
    match x {
        Some(e) => find_nested(e),
        None => false,
    }
}

fn find_nested_exprs(es: &Exprs) -> (r: bool)
    ensures
        r == nested_exprs(*es),
    decreases es,
{
    match es {
        Exprs::Nil => false,
        Exprs::Cons(e, t) => find_nested(e) || find_nested_exprs(t),
    }
}

fn find_nested_parts(ps: &Parts) -> (r: bool)
    ensures
        r == nested_parts(*ps),
    decreases ps,
{
    match ps {
        Parts::Nil => false,
        Parts::Cons(p, t) => {
            let here = match &**p {
                Part::Expr(e) => find_nested(e),
                Part::Block(b) => find_nested_stmts(&b.stmts),
            };
            here || find_nested_parts(t)
        },
    }
}

/// Whether a `#[nested]` annotation stands on the arm or in it.
pub fn find_nested_arm(a: &Arm) -> (r: bool)
    ensures
        r == nested_arm(*a),
    decreases a,
{
    any_empty_attr(&a.attrs, "nested") || find_nested_opt(&a.guard) || find_nested(&a.body)
}

fn find_nested_arms(arms: &Arms) -> (r: bool)
    ensures
        r == nested_arms(*arms),
    decreases arms,
{
    match arms {
        Arms::Nil => false,
        Arms::Cons(a, t) => find_nested_arm(a) || find_nested_arms(t),
    }
}

fn find_nested_local(l: &Local) -> (r: bool)
    ensures
        r == nested_local(*l),
    decreases l,
{
    if any_attr(&l.attrs, "auto_enum") {
        false
    } else if any_empty_attr(&l.attrs, "nested") {
        true
    } else {
        find_nested_opt(&l.init) || find_nested_opt(&l.diverge)
    }
}

/// Whether a `#[nested]` annotation stands in one of the statements.
pub fn find_nested_stmts(stmts: &Stmts) -> (r: bool)
    ensures
        r == nested_stmts(*stmts),
    decreases stmts,
{
    match stmts {
        Stmts::Nil => false,
        Stmts::Cons(s, t) => {
            let here = match &**s {
                Stmt::Expr(e, _) => find_nested(e),
                Stmt::Local(l) => find_nested_local(l),
                _ => false,
            };
            here || find_nested_stmts(t)
        },
    }
}

/// Componentwise sum of two counts.
pub open spec fn add2(a: (nat, nat), b: (nat, nat)) -> (nat, nat) {
    (a.0 + b.0, a.1 + b.1)
}

/// The `?` and `return` counted at the expression itself, whose scope is
/// inside a closure where `c` holds: none inside a closure or under
/// `#[never]`; one whose operand is a marker macro does not count.
pub open spec fn own_count(ms: MarkerView, c: bool, e: Expr) -> (nat, nat) {
    if c || has_empty_attr(e.attrs, "never"@) {
        (0, 0)
    } else {
        match e.kind {
            ExprKind::Try(x) => if marker_expr(ms, *x) { (0, 0) } else { (1, 0) },
            ExprKind::Return(v) => match v {
                Some(x) => if marker_expr(ms, *x) { (0, 0) } else { (0, 1) },
                None => (0, 1),
            },
            _ => (0, 0),
        }
    }
}

/// The numbers of `?` operators and of `return` expressions in the
/// expression, outside closures and nested items and not under `#[never]`;
/// `c` says whether the expression stands inside a closure. The `return` of
/// a rewritten `?` counts.
pub open spec fn count_expr(ms: MarkerView, c: bool, e: Expr) -> (nat, nat)
    decreases e, 1nat,
{
    let c1 = c || e.kind is Closure;
    add2(own_count(ms, c1, e), count_inner(ms, c1, e))
}

/// The counts of the parts of the expression, whose scope is inside a
/// closure where `c` holds.
pub open spec fn count_inner(ms: MarkerView, c1: bool, e: Expr) -> (nat, nat)
    decreases e, 0nat,
{
    match e.kind {
        ExprKind::Block(b) => count_stmts(ms, c1, b.stmts),
        ExprKind::Unsafe(b) => count_stmts(ms, c1, b.stmts),
        ExprKind::Async(b) => count_stmts(ms, c1, b.stmts),
        ExprKind::TryBlock(b) => count_stmts(ms, c1, b.stmts),
        ExprKind::Match(x, arms) => add2(count_expr(ms, c1, *x), count_arms(ms, c1, arms)),
        ExprKind::If(x, t, el) => add2(
            count_expr(ms, c1, *x),
            add2(count_stmts(ms, c1, t.stmts), count_opt(ms, c1, el)),
        ),
        ExprKind::Loop(_, b) => count_stmts(ms, c1, b.stmts),
        ExprKind::ForLoop(_, x, b) => add2(count_expr(ms, c1, *x), count_stmts(ms, c1, b.stmts)),
        ExprKind::While(_, x, b) => add2(count_expr(ms, c1, *x), count_stmts(ms, c1, b.stmts)),
        ExprKind::Closure(body) => count_expr(ms, c1, *body),
        ExprKind::MethodCall(r, args) => add2(count_expr(ms, c1, *r), count_exprs(ms, c1, args)),
        ExprKind::Paren(x) => count_expr(ms, c1, *x),
        ExprKind::Break(_, v) => count_opt(ms, c1, v),
        ExprKind::Return(v) => count_opt(ms, c1, v),
        ExprKind::Try(x) => count_expr(ms, c1, *x),
        ExprKind::Call(f, args) => add2(count_expr(ms, c1, *f), count_exprs(ms, c1, args)),
        ExprKind::Other(parts) => count_parts(ms, c1, parts),
        ExprKind::Variant(_, _, x) => count_expr(ms, c1, *x),
        ExprKind::TryMatch(x, ok, ret) => add2(
            add2(count_expr(ms, c1, *x), count_expr(ms, c1, *ok)),
            add2(
                if c1 || marker_expr(ms, *ret) { (0nat, 0nat) } else { (0nat, 1nat) },
                count_expr(ms, c1, *ret),
            ),
        ),
        ExprKind::ErrCall(x) => count_expr(ms, c1, *x),
        ExprKind::WithEnum(_, x) => count_expr(ms, c1, *x),
        _ => (0, 0),
    }
}

/// The counts of an optional expression.
pub open spec fn count_opt(ms: MarkerView, c: bool, x: Option<Box<Expr>>) -> (nat, nat)
    decreases x, 0nat,
{
    match x {
        Some(e) => count_expr(ms, c, *e),
        None => (0, 0),
    }
}

/// The counts of a list of expressions.
pub open spec fn count_exprs(ms: MarkerView, c: bool, es: Exprs) -> (nat, nat)
    decreases es, 0nat,
{
    match es {
        Exprs::Nil => (0, 0),
        Exprs::Cons(e, t) => add2(count_expr(ms, c, *e), count_exprs(ms, c, *t)),
    }
}

/// The counts of a list of parts.
pub open spec fn count_parts(ms: MarkerView, c: bool, ps: Parts) -> (nat, nat)
    decreases ps, 0nat,
{
    match ps {
        Parts::Nil => (0, 0),
        Parts::Cons(p, t) => add2(count_part(ms, c, *p), count_parts(ms, c, *t)),
    }
}

/// The counts of a list of arms: their guards and bodies.
pub open spec fn count_arms(ms: MarkerView, c: bool, arms: Arms) -> (nat, nat)
    decreases arms, 0nat,
{
    match arms {
        Arms::Nil => (0, 0),
        Arms::Cons(a, t) => add2(
            add2(count_opt(ms, c, a.guard), count_expr(ms, c, *a.body)),
            count_arms(ms, c, *t),
        ),
    }
}

/// The counts of a list of statements: expressions and `let`s; nested items
/// and macros count nothing.
pub open spec fn count_stmts(ms: MarkerView, c: bool, stmts: Stmts) -> (nat, nat)
    decreases stmts, 0nat,
{
    match stmts {
        Stmts::Nil => (0, 0),
        Stmts::Cons(s, t) => add2(count_stmt(ms, c, *s), count_stmts(ms, c, *t)),
    }
}

/// The counts of a part.
pub open spec fn count_part(ms: MarkerView, c: bool, p: Part) -> (nat, nat)
    decreases p, 0nat,
{
    match p {
        Part::Expr(e) => count_expr(ms, c, e),
        Part::Block(b) => count_stmts(ms, c, b.stmts),
    }
}

/// The counts of a statement: an expression or a `let`; nested items and
/// macros count nothing.
pub open spec fn count_stmt(ms: MarkerView, c: bool, s: Stmt) -> (nat, nat)
    decreases s, 0nat,
{
    match s {
        Stmt::Expr(e, _) => count_expr(ms, c, e),
        Stmt::Local(l) => add2(count_opt(ms, c, l.init), count_opt(ms, c, l.diverge)),
        _ => (0, 0),
    }
}

/// `n`, at most `usize::MAX`.
pub open spec fn sat(n: nat) -> usize {
    if n > usize::MAX { usize::MAX } else { n as usize }
}

/// The counts, each at most `usize::MAX`.
pub open spec fn sat2(a: (nat, nat)) -> (usize, usize) {
    (sat(a.0), sat(a.1))
}

fn sum2(a: (usize, usize), b: (usize, usize), Ghost(x): Ghost<(nat, nat)>, Ghost(y): Ghost<(nat, nat)>) -> (r: (usize, usize))
    requires
        a == sat2(x),
        b == sat2(y),
    ensures
        r == sat2(add2(x, y)),
{
    (a.0.saturating_add(b.0), a.1.saturating_add(b.1))
}

/// The numbers of `?` operators and of `return` expressions in the
/// expression, each at most `usize::MAX`.
pub fn count_in_expr(ms: &MarkerScope, c: bool, e: &Expr) -> (r: (usize, usize))
    ensures
        r == sat2(count_expr(ms@, c, *e)),
    decreases e,
{
    let c1 = c || match &e.kind {
        ExprKind::Closure(_) => true,
        _ => false,
    };
    let own: (usize, usize) = if c1 || any_empty_attr(&e.attrs, "never") {
        (0, 0)
    } else {
        match &e.kind {
            ExprKind::Try(x) => if ms.is_marker_expr(x) { (0, 0) } else { (1, 0) },
            ExprKind::Return(v) => match v {
                Some(x) => if ms.is_marker_expr(x) { (0, 0) } else { (0, 1) },
                None => (0, 1),
            },
            _ => (0, 0),
        }
    };
    let ghost own_s = own_count(ms@, c1, *e);
    assert(own == sat2(own_s));
    let z: (usize, usize) = (0, 0);
    let ghost zs: (nat, nat) = (0, 0);
    let inner: (usize, usize) = match &e.kind {
        ExprKind::Block(b) => count_in_stmts(ms, c1, &b.stmts),
        ExprKind::Unsafe(b) => count_in_stmts(ms, c1, &b.stmts),
        ExprKind::Async(b) => count_in_stmts(ms, c1, &b.stmts),
        ExprKind::TryBlock(b) => count_in_stmts(ms, c1, &b.stmts),
        ExprKind::Match(x, arms) => sum2(
            count_in_expr(ms, c1, x),
            count_in_arms(ms, c1, arms),
            Ghost(count_expr(ms@, c1, **x)),
            Ghost(count_arms(ms@, c1, *arms)),
        ),
        ExprKind::If(x, t, el) => {
            let a = count_in_stmts(ms, c1, &t.stmts);
            let b = count_in_opt(ms, c1, el);
            let ab = sum2(a, b, Ghost(count_stmts(ms@, c1, t.stmts)), Ghost(count_opt(ms@, c1, *el)));
            sum2(
                count_in_expr(ms, c1, x),
                ab,
                Ghost(count_expr(ms@, c1, **x)),
                Ghost(add2(count_stmts(ms@, c1, t.stmts), count_opt(ms@, c1, *el))),
            )
        },
        ExprKind::Loop(_, b) => count_in_stmts(ms, c1, &b.stmts),
        ExprKind::ForLoop(_, x, b) => sum2(
            count_in_expr(ms, c1, x),
            count_in_stmts(ms, c1, &b.stmts),
            Ghost(count_expr(ms@, c1, **x)),
            Ghost(count_stmts(ms@, c1, b.stmts)),
        ),
        ExprKind::While(_, x, b) => sum2(
            count_in_expr(ms, c1, x),
            count_in_stmts(ms, c1, &b.stmts),
            Ghost(count_expr(ms@, c1, **x)),
            Ghost(count_stmts(ms@, c1, b.stmts)),
        ),
        ExprKind::Closure(body) => count_in_expr(ms, c1, body),
        ExprKind::MethodCall(r, args) => sum2(
            count_in_expr(ms, c1, r),
            count_in_exprs(ms, c1, args),
            Ghost(count_expr(ms@, c1, **r)),
            Ghost(count_exprs(ms@, c1, *args)),
        ),
        ExprKind::Paren(x) => count_in_expr(ms, c1, x),
        ExprKind::Break(_, v) => count_in_opt(ms, c1, v),
        ExprKind::Return(v) => count_in_opt(ms, c1, v),
        ExprKind::Try(x) => count_in_expr(ms, c1, x),
        ExprKind::Call(f, args) => sum2(
            count_in_expr(ms, c1, f),
            count_in_exprs(ms, c1, args),
            Ghost(count_expr(ms@, c1, **f)),
            Ghost(count_exprs(ms@, c1, *args)),
        ),
        ExprKind::Other(parts) => count_in_parts(ms, c1, parts),
        ExprKind::Variant(_, _, x) => count_in_expr(ms, c1, x),
        ExprKind::TryMatch(x, ok, ret) => {
            let a = sum2(
                count_in_expr(ms, c1, x),
                count_in_expr(ms, c1, ok),
                Ghost(count_expr(ms@, c1, **x)),
                Ghost(count_expr(ms@, c1, **ok)),
            );
            let here: (usize, usize) = if c1 || ms.is_marker_expr(ret) { (0, 0) } else { (0, 1) };
            let ghost here_s: (nat, nat) = if c1 || marker_expr(ms@, **ret) { (0nat, 0nat) } else { (0nat, 1nat) };
            let b = sum2(here, count_in_expr(ms, c1, ret), Ghost(here_s), Ghost(count_expr(ms@, c1, **ret)));
            sum2(
                a,
                b,
                Ghost(add2(count_expr(ms@, c1, **x), count_expr(ms@, c1, **ok))),
                Ghost(add2(here_s, count_expr(ms@, c1, **ret))),
            )
        },
        ExprKind::ErrCall(x) => count_in_expr(ms, c1, x),
        ExprKind::WithEnum(_, x) => count_in_expr(ms, c1, x),
        _ => z,
    };
    let ghost inner_s = count_inner(ms@, c1, *e);
    assert(inner == sat2(inner_s));
    sum2(own, inner, Ghost(own_s), Ghost(inner_s))
}

fn count_in_opt(ms: &MarkerScope, c: bool, x: &Option<Box<Expr>>) -> (r: (usize, usize))
    ensures
        r == sat2(count_opt(ms@, c, *x)),
    decreases x,
{
    match x {
        Some(e) => count_in_expr(ms, c, e),
        None => (0, 0),
    }
}

fn count_in_exprs(ms: &MarkerScope, c: bool, es: &Exprs) -> (r: (usize, usize))
    ensures
        r == sat2(count_exprs(ms@, c, *es)),
    decreases es,
{
    match es {
        Exprs::Nil => (0, 0),
        Exprs::Cons(e, t) => sum2(
            count_in_expr(ms, c, e),
            count_in_exprs(ms, c, t),
            Ghost(count_expr(ms@, c, **e)),
            Ghost(count_exprs(ms@, c, **t)),
        ),
    }
}

fn count_in_parts(ms: &MarkerScope, c: bool, ps: &Parts) -> (r: (usize, usize))
    ensures
        r == sat2(count_parts(ms@, c, *ps)),
    decreases ps,
{
    match ps {
        Parts::Nil => (0, 0),
        Parts::Cons(p, t) => {
            let here = match &**p {
                Part::Expr(e) => count_in_expr(ms, c, e),
                Part::Block(b) => count_in_stmts(ms, c, &b.stmts),
            };
            let ghost here_s = count_part(ms@, c, **p);
            sum2(here, count_in_parts(ms, c, t), Ghost(here_s), Ghost(count_parts(ms@, c, **t)))
        },
    }
}

fn count_in_arms(ms: &MarkerScope, c: bool, arms: &Arms) -> (r: (usize, usize))
    ensures
        r == sat2(count_arms(ms@, c, *arms)),
    decreases arms,
{
    match arms {
        Arms::Nil => (0, 0),
        Arms::Cons(a, t) => {
            let here = sum2(
                count_in_opt(ms, c, &a.guard),
                count_in_expr(ms, c, &a.body),
                Ghost(count_opt(ms@, c, a.guard)),
                Ghost(count_expr(ms@, c, *a.body)),
            );
            sum2(
                here,
                count_in_arms(ms, c, t),
                Ghost(add2(count_opt(ms@, c, a.guard), count_expr(ms@, c, *a.body))),
                Ghost(count_arms(ms@, c, **t)),
            )
        },
    }
}

/// The numbers of `?` operators and of `return` expressions in the
/// statements, each at most `usize::MAX`.
pub fn count_in_stmts(ms: &MarkerScope, c: bool, stmts: &Stmts) -> (r: (usize, usize))
    ensures
        r == sat2(count_stmts(ms@, c, *stmts)),
    decreases stmts,
{
    match stmts {
        Stmts::Nil => (0, 0),
        Stmts::Cons(s, t) => {
            let here: (usize, usize) = match &**s {
                Stmt::Expr(e, _) => count_in_expr(ms, c, e),
                Stmt::Local(l) => sum2(
                    count_in_opt(ms, c, &l.init),
                    count_in_opt(ms, c, &l.diverge),
                    Ghost(count_opt(ms@, c, l.init)),
                    Ghost(count_opt(ms@, c, l.diverge)),
                ),
                _ => (0, 0),
            };
            let ghost here_s = count_stmt(ms@, c, **s);
            sum2(here, count_in_stmts(ms, c, t), Ghost(here_s), Ghost(count_stmts(ms@, c, **t)))
        },
    }
}

} // verus!
