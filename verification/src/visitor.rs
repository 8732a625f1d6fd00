//! The walk of an `#[auto_enum]` attribute over its statement or
//! expression: marker macros, `return`s and `?`s are rewritten, `#[nested]`
//! expressions are expanded, and each `#[auto_enum]` attribute found inside
//! is handled with a context of its own.
//!
//! A walk that meets another attribute handles that attribute's node again,
//! so the depth of the walk is not bounded by the size of the syntax; each
//! step takes one unit of a budget `fuel`, and a walk whose budget is spent
//! leaves the rest unchanged.

use vstd::prelude::*;

use crate::ast::{
    any_attr, any_empty_attr, any_stmt_attr, find_remove_attr, has_attr, has_empty_attr, path_is_ident,
    remove_attr, stmt_attrs, Arm, Arms, AttrMeta, Attribute, Attrs, Block, Expr, ExprKind, Exprs,
    Local, Part, Parts, RawArgs, Stmt, Stmts,
};
use crate::context::{
    boxed, build_st, default_marker, err_st, has_err, join_st, lent_st, marker_expr, new_st, next_st,
    scope_in, visit_last_of, with_child, wrap, Context, Error, ErrorKind, Scope, St, VisitMode,
    VisitLastMode, check_expr,
};
use crate::last_expr::{child, child_expr};
use crate::scan::{count_expr, count_in_expr, sat};
use crate::text::str_eq;

verus! {

/// Which walk runs: the main one, in the given scope, or the one of an
/// attribute without traits, which only looks for nested attributes.
#[derive(Clone, Copy, Debug, PartialEq, Eq, Structural)]
pub enum Pass {
    Main(Scope),
    Dummy,
}

/// The scope at the start of a walk.
pub open spec fn no_scope() -> Scope {
    Scope { closure: false, try_block: false, foreign: false }
}

/// `e` after the enum `d`, in a block.
pub open spec fn with_enum(d: crate::ast::EnumDecl, e: Expr) -> Expr {
    Expr { attrs: Attrs::Nil, kind: ExprKind::WithEnum(d, Box::new(e)), handle: 0 }
}

/// The state after the enum is built, and `e` with the enum before it if one
/// was built.
pub open spec fn build_on(st: St, e: Expr) -> (St, Expr) {
    let (st1, d) = build_st(st);
    (st1, match d {
        Some(d) => with_enum(d, e),
        None => e,
    })
}

/// The value returned in the `Err` arm of a rewritten `?`: the error in
/// variant `n`.
pub open spec fn err_ret(id: u64, n: nat) -> Expr {
    Expr {
        attrs: Attrs::Nil,
        kind: ExprKind::ErrCall(Box::new(wrap(id, n, Attrs::Nil, Expr { attrs: Attrs::Nil, kind: ExprKind::GenErr, handle: 0 }))),
        handle: 0,
    }
}

/// The binding `val` of a rewritten `?`.
pub open spec fn gen_val() -> Expr {
    Expr { attrs: Attrs::Nil, kind: ExprKind::GenVal, handle: 0 }
}

/// The placeholder left where a marker macro could not be read.
pub open spec fn invalid() -> Expr {
    Expr { attrs: Attrs::Nil, kind: ExprKind::Invalid, handle: 0 }
}

/// A `return` in `?`... `return` mode, outside closures and not under
/// `#[never]`: its value (`()` where there is none) is wrapped in the next
/// variant, unless it is a marker macro.
pub open spec fn return_st(st: St, sc: Scope, e: Expr) -> (St, Expr) {
    if sc.closure || has_empty_attr(e.attrs, "never"@) {
        (st, e)
    } else {
        match e.kind {
            ExprKind::Return(v) => if v is Some && marker_expr(st.scope, *v->0) {
                (st, e)
            } else {
                let (st1, x) = boxed(st, v);
                (st1, Expr { kind: ExprKind::Return(Some(Box::new(x))), ..e })
            },
            _ => (st, e),
        }
    }
}

/// A `?` in `?` mode, outside closures and `try` blocks and not under
/// `#[never]`, whose operand is no marker macro: it becomes a `match` whose
/// `Err` arm returns the error in the next variant.
pub open spec fn try_st(st: St, sc: Scope, e: Expr) -> (St, Expr) {
    if sc.try_block || sc.closure || has_empty_attr(e.attrs, "never"@) {
        (st, e)
    } else {
        match e.kind {
            ExprKind::Try(x) => if marker_expr(st.scope, *x) {
                (st, e)
            } else {
                (next_st(st), Expr { kind: ExprKind::TryMatch(x, Box::new(gen_val()), Box::new(err_ret(st.enum_id, st.variants))), ..e })
            },
            _ => (st, e),
        }
    }
}

/// `#[nested]` on `e`: an error if the attribute has arguments; otherwise the
/// last expression of `e` is rewritten.
pub open spec fn nested_st(st: St, a: Attribute, e: Expr) -> (St, Expr) {
    if a.meta != AttrMeta::Path {
        (err_st(st, Error { kind: ErrorKind::PathOnlyRequired, at: a.handle }), e)
    } else {
        child(st, e)
    }
}

/// The marker macro of this scope: its argument, wrapped in the next variant
/// with the macro's attributes, or left bare where an error was found; an
/// argument that cannot be read is an error.
pub open spec fn marker_st(st: St, e: Expr) -> (St, Expr) {
    match e.kind {
        ExprKind::Macro(m) => if path_is_ident(m.path, st.scope.current) {
            match m.body {
                Some(Ok(b)) => if has_err(st) {
                    (st, *b)
                } else {
                    (next_st(st), wrap(st.enum_id, st.variants, e.attrs, *b))
                },
                Some(Err(h)) => (err_st(st, Error { kind: ErrorKind::Syntax(h), at: h }), invalid()),
                None => (st, e),
            }
        } else {
            (st, e)
        },
        _ => (st, e),
    }
}

/// Removes `#[never]` (an error if it has arguments), outside the
/// expressions of other attributes.
pub open spec fn strip_attrs(sc: Scope, st: St, attrs: Attrs) -> (St, Attrs) {
    if sc.foreign {
        (st, attrs)
    } else {
        let (a1, nv) = remove_attr(attrs, "never"@);
        let st1 = match nv {
            Some(a) => if a.meta != AttrMeta::Path {
                err_st(st, Error { kind: ErrorKind::PathOnlyRequired, at: a.handle })
            } else {
                st
            },
            None => st,
        };
        (st1, a1)
    }
}

/// A visit of an expression: nothing once an error was found; the main walk
/// visits it in its scope, the other one notes an `#[auto_enum]` attribute
/// on it and handles that attribute.
pub open spec fn walk_expr(fuel: nat, st: St, p: Pass, e: Expr) -> (St, Expr)
    decreases fuel, 0nat,
{
    if fuel == 0 || has_err(st) {
        (st, e)
    } else {
        let f = (fuel - 1) as nat;
        match p {
            Pass::Main(sc) => main_expr(f, st, sc, e, false),
            Pass::Dummy => sub_expr(f, with_child(st, has_attr(e.attrs, "auto_enum"@)), p, e, false),
        }
    }
}

/// A visit of an optional expression.
pub open spec fn walk_opt(fuel: nat, st: St, p: Pass, x: Option<Box<Expr>>) -> (St, Option<Box<Expr>>)
    decreases fuel, 0nat,
{
    if fuel == 0 {
        (st, x)
    } else {
        match x {
            Some(e) => {
                let (st1, e1) = walk_expr((fuel - 1) as nat, st, p, *e);
                (st1, Some(Box::new(e1)))
            },
            None => (st, x),
        }
    }
}

/// Visits of the expressions, in order.
pub open spec fn walk_exprs(fuel: nat, st: St, p: Pass, es: Exprs) -> (St, Exprs)
    decreases fuel, 0nat,
{
    if fuel == 0 {
        (st, es)
    } else {
        let f = (fuel - 1) as nat;
        match es {
            Exprs::Nil => (st, es),
            Exprs::Cons(e, t) => {
                let (st1, e1) = walk_expr(f, st, p, *e);
                let (st2, t1) = walk_exprs(f, st1, p, *t);
                (st2, Exprs::Cons(Box::new(e1), Box::new(t1)))
            },
        }
    }
}

/// Visits of the parts, in order.
pub open spec fn walk_parts(fuel: nat, st: St, p: Pass, ps: Parts) -> (St, Parts)
    decreases fuel, 0nat,
{
    if fuel == 0 {
        (st, ps)
    } else {
        let f = (fuel - 1) as nat;
        match ps {
            Parts::Nil => (st, ps),
            Parts::Cons(x, t) => {
                let (st1, x1) = match *x {
                    Part::Expr(e) => {
                        let (s, e1) = walk_expr(f, st, p, e);
                        (s, Part::Expr(e1))
                    },
                    Part::Block(b) => {
                        let (s, b1) = walk_block(f, st, p, b);
                        (s, Part::Block(b1))
                    },
                };
                let (st2, t1) = walk_parts(f, st1, p, *t);
                (st2, Parts::Cons(Box::new(x1), Box::new(t1)))
            },
        }
    }
}

/// A visit of a match arm: in the main walk, nothing once an error was found;
/// there `#[nested]` on the arm expands its body, and `#[never]` and `#[rec]`
/// are removed after the guard and the body were visited.
pub open spec fn walk_arm(fuel: nat, st: St, p: Pass, a: Arm) -> (St, Arm)
    decreases fuel, 0nat,
{
    if fuel == 0 {
        (st, a)
    } else {
        let f = (fuel - 1) as nat;
        match p {
            Pass::Main(sc) => if has_err(st) {
                (st, a)
            } else {
                let (st1, a1) = if sc.foreign {
                    (st, a)
                } else {
                    let (at, na) = remove_attr(a.attrs, "nested"@);
                    match na {
                        Some(n) => {
                            let (s, b) = nested_st(st, n, *a.body);
                            (s, Arm { attrs: at, body: Box::new(b), ..a })
                        },
                        None => (st, Arm { attrs: at, ..a }),
                    }
                };
                let (st2, g) = walk_opt(f, st1, p, a1.guard);
                let (st3, b) = walk_expr(f, st2, p, *a1.body);
                let (st4, at4) = strip_attrs(sc, st3, a1.attrs);
                (st4, Arm { attrs: at4, guard: g, body: Box::new(b), ..a1 })
            },
            Pass::Dummy => {
                let (st2, g) = walk_opt(f, st, p, a.guard);
                let (st3, b) = walk_expr(f, st2, p, *a.body);
                (st3, Arm { guard: g, body: Box::new(b), ..a })
            },
        }
    }
}

/// Visits of the arms, in order.
pub open spec fn walk_arms(fuel: nat, st: St, p: Pass, arms: Arms) -> (St, Arms)
    decreases fuel, 0nat,
{
    if fuel == 0 {
        (st, arms)
    } else {
        let f = (fuel - 1) as nat;
        match arms {
            Arms::Nil => (st, arms),
            Arms::Cons(a, t) => {
                let (st1, a1) = walk_arm(f, st, p, *a);
                let (st2, t1) = walk_arms(f, st1, p, *t);
                (st2, Arms::Cons(Box::new(a1), Box::new(t1)))
            },
        }
    }
}

/// A visit of a `let`: in the main walk, nothing once an error was found;
/// there `#[nested]` on it expands its initializer, and `#[never]` and
/// `#[rec]` are removed after the initializer and the `else` block were
/// visited.
pub open spec fn walk_local(fuel: nat, st: St, p: Pass, l: Local) -> (St, Local)
    decreases fuel, 0nat,
{
    if fuel == 0 {
        (st, l)
    } else {
        let f = (fuel - 1) as nat;
        match p {
            Pass::Main(sc) => if has_err(st) {
                (st, l)
            } else {
                let (st1, l1) = local_pre(st, sc, l);
                let (st2, i) = walk_opt(f, st1, p, l1.init);
                let (st3, d) = walk_opt(f, st2, p, l1.diverge);
                let (st4, at4) = strip_attrs(sc, st3, l1.attrs);
                (st4, Local { attrs: at4, init: i, diverge: d, ..l1 })
            },
            Pass::Dummy => {
                let (st2, i) = walk_opt(f, st, p, l.init);
                let (st3, d) = walk_opt(f, st2, p, l.diverge);
                (st3, Local { init: i, diverge: d, ..l })
            },
        }
    }
}

/// `#[nested]` on a `let`, outside the scopes of other attributes: removed,
/// and where the `let` has an initializer, that is expanded.
pub open spec fn local_pre(st: St, sc: Scope, l: Local) -> (St, Local) {
    if sc.foreign {
        (st, l)
    } else {
        let (at, na) = remove_attr(l.attrs, "nested"@);
        match (na, l.init) {
            (Some(n), Some(init)) => {
                let (s, x) = nested_st(st, n, *init);
                (s, Local { attrs: at, init: Some(Box::new(x)), ..l })
            },
            _ => (st, Local { attrs: at, ..l }),
        }
    }
}

/// How an attribute on a `let` is handled: there is none; it is
/// `#[auto_enum = ..]`, an error; or a context is made for it, or the error
/// that making it gives.
pub enum LocalPlan {
    Plain,
    Refused(Error),
    Child(Result<St, Error>),
}

/// The `let` without its `#[auto_enum]` attribute, and how that attribute is
/// handled: it may also have no arguments.
#[verifier::opaque]
pub open spec fn local_plan(st: St, l: Local) -> (Local, LocalPlan) {
    let (at, na) = remove_attr(l.attrs, "auto_enum"@);
    let l1 = Local { attrs: at, ..l };
    match na {
        None => (l1, LocalPlan::Plain),
        Some(a) => if a.meta == AttrMeta::NameValue {
            (l1, LocalPlan::Refused(Error { kind: ErrorKind::ExpectedList, at: a.handle }))
        } else {
            let items = if a.meta == AttrMeta::Path { Seq::empty() } else { a.args.items@ };
            let error = if a.meta == AttrMeta::Path { None } else { a.args.error };
            (l1, LocalPlan::Child(new_st(a.target_text@, l.handle, items, error, false, st.scope.markers, st.errors)))
        },
    }
}

/// A visit of a statement: nothing once an error was found; an expression
/// statement is visited with its semicolon; on another statement, an
/// `#[auto_enum]` attribute is noted, opens the scope of another attribute
/// in the main walk, and is handled.
pub open spec fn walk_stmt(fuel: nat, st: St, p: Pass, s: Stmt) -> (St, Stmt)
    decreases fuel, 0nat,
{
    if fuel == 0 || has_err(st) {
        (st, s)
    } else {
        let f = (fuel - 1) as nat;
        let named = has_attr(stmt_attrs(s), "auto_enum"@);
        match p {
            Pass::Main(sc) => match s {
                Stmt::Expr(e, semi) => {
                    let (st1, e1) = main_expr(f, st, sc, e, semi);
                    (st1, Stmt::Expr(e1, semi))
                },
                _ => sub_stmt(f, with_child(st, named), Pass::Main(if named { Scope { foreign: true, ..sc } } else { sc }), s),
            },
            Pass::Dummy => sub_stmt(f, with_child(st, named), p, s),
        }
    }
}

/// Visits of the statements, in order.
pub open spec fn walk_stmts(fuel: nat, st: St, p: Pass, stmts: Stmts) -> (St, Stmts)
    decreases fuel, 0nat,
{
    if fuel == 0 {
        (st, stmts)
    } else {
        let f = (fuel - 1) as nat;
        match stmts {
            Stmts::Nil => (st, stmts),
            Stmts::Cons(s, t) => {
                let (st1, s1) = walk_stmt(f, st, p, *s);
                let (st2, t1) = walk_stmts(f, st1, p, *t);
                (st2, Stmts::Cons(Box::new(s1), Box::new(t1)))
            },
        }
    }
}

/// A visit of a block: of its statements.
pub open spec fn walk_block(fuel: nat, st: St, p: Pass, b: Block) -> (St, Block)
    decreases fuel, 0nat,
{
    if fuel == 0 {
        (st, b)
    } else {
        let (st1, s1) = walk_stmts((fuel - 1) as nat, st, p, b.stmts);
        (st1, Block { stmts: s1, ..b })
    }
}

/// A visit of the value returned in the `Err` arm of a rewritten `?`: in the
/// main walk in `return` mode, outside closures, that `return` is rewritten
/// as any other.
pub open spec fn walk_ret(fuel: nat, st: St, p: Pass, ret: Expr) -> (St, Expr)
    decreases fuel, 0nat,
{
    if fuel == 0 || has_err(st) {
        (st, ret)
    } else {
        let (st1, r1) = match p {
            Pass::Main(sc) => if st.visit_mode is Return && !sc.closure && !marker_expr(st.scope, ret) {
                (next_st(st), wrap(st.enum_id, st.variants, Attrs::Nil, ret))
            } else {
                (st, ret)
            },
            Pass::Dummy => (st, ret),
        };
        walk_expr((fuel - 1) as nat, st1, p, r1)
    }
}

/// Visits of the parts of an expression, in the order of the syntax.
pub open spec fn walk_children(fuel: nat, st: St, p: Pass, e: Expr) -> (St, Expr)
    decreases fuel, 0nat,
{
    if fuel == 0 {
        (st, e)
    } else {
        let f = (fuel - 1) as nat;
        match e.kind {
            ExprKind::Block(b) => {
                let (st1, b1) = walk_block(f, st, p, b);
                (st1, Expr { kind: ExprKind::Block(b1), ..e })
            },
            ExprKind::Unsafe(b) => {
                let (st1, b1) = walk_block(f, st, p, b);
                (st1, Expr { kind: ExprKind::Unsafe(b1), ..e })
            },
            ExprKind::Async(b) => {
                let (st1, b1) = walk_block(f, st, p, b);
                (st1, Expr { kind: ExprKind::Async(b1), ..e })
            },
            ExprKind::TryBlock(b) => {
                let (st1, b1) = walk_block(f, st, p, b);
                (st1, Expr { kind: ExprKind::TryBlock(b1), ..e })
            },
            ExprKind::Match(x, arms) => {
                let (st1, x1) = walk_expr(f, st, p, *x);
                let (st2, a1) = walk_arms(f, st1, p, arms);
                (st2, Expr { kind: ExprKind::Match(Box::new(x1), a1), ..e })
            },
            ExprKind::If(c, t, el) => {
                let (st1, c1) = walk_expr(f, st, p, *c);
                let (st2, t1) = walk_block(f, st1, p, t);
                let (st3, el1) = walk_opt(f, st2, p, el);
                (st3, Expr { kind: ExprKind::If(Box::new(c1), t1, el1), ..e })
            },
            ExprKind::Loop(l, b) => {
                let (st1, b1) = walk_block(f, st, p, b);
                (st1, Expr { kind: ExprKind::Loop(l, b1), ..e })
            },
            ExprKind::ForLoop(l, x, b) => {
                let (st1, x1) = walk_expr(f, st, p, *x);
                let (st2, b1) = walk_block(f, st1, p, b);
                (st2, Expr { kind: ExprKind::ForLoop(l, Box::new(x1), b1), ..e })
            },
            ExprKind::While(l, x, b) => {
                let (st1, x1) = walk_expr(f, st, p, *x);
                let (st2, b1) = walk_block(f, st1, p, b);
                (st2, Expr { kind: ExprKind::While(l, Box::new(x1), b1), ..e })
            },
            ExprKind::Closure(x) => {
                let (st1, x1) = walk_expr(f, st, p, *x);
                (st1, Expr { kind: ExprKind::Closure(Box::new(x1)), ..e })
            },
            ExprKind::MethodCall(r, args) => {
                let (st1, r1) = walk_expr(f, st, p, *r);
                let (st2, a1) = walk_exprs(f, st1, p, args);
                (st2, Expr { kind: ExprKind::MethodCall(Box::new(r1), a1), ..e })
            },
            ExprKind::Paren(x) => {
                let (st1, x1) = walk_expr(f, st, p, *x);
                (st1, Expr { kind: ExprKind::Paren(Box::new(x1)), ..e })
            },
            ExprKind::Break(l, v) => {
                let (st1, v1) = walk_opt(f, st, p, v);
                (st1, Expr { kind: ExprKind::Break(l, v1), ..e })
            },
            ExprKind::Return(v) => {
                let (st1, v1) = walk_opt(f, st, p, v);
                (st1, Expr { kind: ExprKind::Return(v1), ..e })
            },
            ExprKind::Try(x) => {
                let (st1, x1) = walk_expr(f, st, p, *x);
                (st1, Expr { kind: ExprKind::Try(Box::new(x1)), ..e })
            },
            ExprKind::Call(g, args) => {
                let (st1, g1) = walk_expr(f, st, p, *g);
                let (st2, a1) = walk_exprs(f, st1, p, args);
                (st2, Expr { kind: ExprKind::Call(Box::new(g1), a1), ..e })
            },
            ExprKind::Other(parts) => {
                let (st1, p1) = walk_parts(f, st, p, parts);
                (st1, Expr { kind: ExprKind::Other(p1), ..e })
            },
            ExprKind::Variant(id, i, x) => {
                let (st1, x1) = walk_expr(f, st, p, *x);
                (st1, Expr { kind: ExprKind::Variant(id, i, Box::new(x1)), ..e })
            },
            ExprKind::TryMatch(x, ok, ret) => {
                let (st1, x1) = walk_expr(f, st, p, *x);
                let (st2, ok1) = walk_expr(f, st1, p, *ok);
                let (st3, ret1) = walk_ret(f, st2, p, *ret);
                (st3, Expr { kind: ExprKind::TryMatch(Box::new(x1), Box::new(ok1), Box::new(ret1)), ..e })
            },
            ExprKind::ErrCall(x) => {
                let (st1, x1) = walk_expr(f, st, p, *x);
                (st1, Expr { kind: ExprKind::ErrCall(Box::new(x1)), ..e })
            },
            ExprKind::WithEnum(d, x) => {
                let (st1, x1) = walk_expr(f, st, p, *x);
                (st1, Expr { kind: ExprKind::WithEnum(d, Box::new(x1)), ..e })
            },
            _ => (st, e),
        }
    }
}

/// The main walk's visit of an expression, in scope `sc`, where `semi` says
/// whether a semicolon follows it: an `#[auto_enum]` attribute on it opens
/// the scope of another attribute; a closure or `try` block opens its scope;
/// `return`s or `?`s are rewritten as the mode says; `#[nested]` expands it;
/// then an `#[auto_enum]` attribute on it is handled and its parts visited;
/// last, outside the scopes of other attributes (or where this attribute's
/// marker has a custom name), a marker macro is rewritten and `#[never]` and
/// `#[rec]` are removed.
pub open spec fn main_expr(fuel: nat, st: St, sc: Scope, e: Expr, semi: bool) -> (St, Expr)
    decreases fuel, 0nat,
{
    if fuel == 0 {
        (st, e)
    } else {
        let (st3, sc2, e3) = main_pre(st, sc, e);
        let (st4, e4) = sub_expr((fuel - 1) as nat, st3, Pass::Main(sc2), e3, semi);
        main_post(st4, sc2, e4)
    }
}

/// The first steps of the main walk's visit of an expression: the scope
/// inside it, `return` or `?` rewriting, and `#[nested]`.
pub open spec fn main_pre(st: St, sc: Scope, e: Expr) -> (St, Scope, Expr) {
    let named = has_attr(e.attrs, "auto_enum"@);
    let sc1 = if named { Scope { foreign: true, ..sc } } else { sc };
    let st1 = with_child(st, named);
    let sc2 = scope_in(sc1, e);
    let (st2, e2) = match st1.visit_mode {
        VisitMode::Return(_) => return_st(st1, sc2, e),
        VisitMode::Try => try_st(st1, sc2, e),
        VisitMode::Default => (st1, e),
    };
    if sc2.foreign {
        (st2, sc2, e2)
    } else {
        let (at, na) = remove_attr(e2.attrs, "nested"@);
        let (st3, e3) = match na {
            Some(a) => nested_st(st2, a, Expr { attrs: at, ..e2 }),
            None => (st2, Expr { attrs: at, ..e2 }),
        };
        (st3, sc2, e3)
    }
}

/// The last steps of the main walk's visit of an expression: outside the
/// scopes of other attributes (or where this attribute's marker has a custom
/// name), the marker macro and `#[never]` and `#[rec]`.
pub open spec fn main_post(st: St, sc: Scope, e: Expr) -> (St, Expr) {
    if !sc.foreign || st.scope.current != default_marker() {
        let (st5, e5) = marker_st(st, e);
        let (st6, at6) = strip_attrs(sc, st5, e5.attrs);
        (st6, Expr { attrs: at6, ..e5 })
    } else {
        (st, e)
    }
}

/// An expression that may carry an `#[auto_enum]` attribute: the attribute is
/// removed; without one, the parts are visited. With one, it must have
/// arguments in parentheses (else an error after the parts are visited); a
/// new context is made for it (taking the marker names and errors of this
/// one for the while), the parts are visited, and the expression is expanded
/// in the new context, whose errors then follow those of this one.
pub open spec fn sub_expr(fuel: nat, st: St, p: Pass, e: Expr, semi: bool) -> (St, Expr)
    decreases fuel, 0nat,
{
    if fuel == 0 {
        (st, e)
    } else {
        let f = (fuel - 1) as nat;
        let (at, na) = remove_attr(e.attrs, "auto_enum"@);
        let e1 = Expr { attrs: at, ..e };
        match na {
            None => walk_children(f, st, p, e1),
            Some(a) => if a.meta != AttrMeta::List {
                let (st1, e2) = walk_children(f, st, p, e1);
                (err_st(st1, Error { kind: ErrorKind::ListRequired, at: a.handle }), e2)
            } else {
                let res = new_st(a.target_text@, e.handle, a.args.items@, a.args.error, false, st.scope.markers, st.errors);
                let (st1, e2) = walk_children(f, lent_st(st), p, e1);
                match res {
                    Err(x) => (err_st(st1, x), e2),
                    Ok(c) => {
                        let (c2, e3) = parent_expr(f, c, e2, semi);
                        (join_st(st1, c2), e3)
                    },
                }
            },
        }
    }
}

/// A statement that may carry an `#[auto_enum]` attribute: an expression
/// statement as `sub_expr`; a `let` likewise, where the attribute may also
/// have no arguments and `#[auto_enum = ..]` is an error; macros and nested
/// items are left.
pub open spec fn sub_stmt(fuel: nat, st: St, p: Pass, s: Stmt) -> (St, Stmt)
    decreases fuel, 0nat,
{
    if fuel == 0 {
        (st, s)
    } else {
        let f = (fuel - 1) as nat;
        match s {
            Stmt::Expr(e, semi) => {
                let (st1, e1) = sub_expr(f, st, p, e, semi);
                (st1, Stmt::Expr(e1, semi))
            },
            Stmt::Local(l) => {
                let (st1, l2) = sub_local(f, st, p, l);
                (st1, Stmt::Local(l2))
            },
            _ => (st, s),
        }
    }
}

/// A `let` that may carry an `#[auto_enum]` attribute, with the budget of
/// the statement it stands in: as an expression, where the attribute may
/// also have no arguments and `#[auto_enum = ..]` is an error.
pub open spec fn sub_local(f: nat, st: St, p: Pass, l: Local) -> (St, Local)
    decreases f, 1nat,
{
    let (l1, plan) = local_plan(st, l);
    match plan {
        LocalPlan::Plain => walk_local(f, st, p, l1),
        LocalPlan::Refused(x) => {
            let (st1, l2) = walk_local(f, st, p, l1);
            (err_st(st1, x), l2)
        },
        LocalPlan::Child(res) => {
            let (st1, l2) = walk_local(f, lent_st(st), p, l1);
            match res {
                Err(x) => (err_st(st1, x), l2),
                Ok(c) => {
                    let (c2, l3) = parent_local(f, c, l2);
                    (join_st(st1, c2), l3)
                },
            }
        },
    }
}

/// An expression on which an attribute stands, expanded in the attribute's
/// context: after a semicolon only marker macros count; an attribute without
/// traits only looks for nested attributes; otherwise the expression is
/// rewritten and, where two or more variants were made and no error found,
/// the enum is put before it.
pub open spec fn parent_expr(fuel: nat, st: St, e: Expr, semi: bool) -> (St, Expr)
    decreases fuel, 0nat,
{
    if fuel == 0 {
        (st, e)
    } else {
        let f = (fuel - 1) as nat;
        let st0 = if semi { St { visit_last_mode: VisitLastMode::Never, ..st } } else { st };
        if st0.args.len() == 0 {
            walk_expr(f, st0, Pass::Dummy, e)
        } else {
            let (st1, e1) = expanded(f, st0, e);
            build_on(st1, e1)
        }
    }
}

/// A `let` on which an attribute stands, expanded in the attribute's
/// context: an attribute without traits only looks for nested attributes; a
/// `let` without initializer is an error; otherwise the initializer is
/// rewritten and the enum put before it.
pub open spec fn parent_local(fuel: nat, st: St, l: Local) -> (St, Local)
    decreases fuel, 0nat,
{
    if fuel == 0 {
        (st, l)
    } else {
        let f = (fuel - 1) as nat;
        if st.args.len() == 0 {
            walk_local(f, st, Pass::Dummy, l)
        } else {
            match l.init {
                None => (err_st(st, Error { kind: ErrorKind::UninitializedLet, at: l.handle }), l),
                Some(x) => {
                    let (st1, x1) = expanded(f, st, *x);
                    let (st2, x2) = build_on(st1, x1);
                    (st2, Local { init: Some(Box::new(x2)), ..l })
                },
            }
        }
    }
}

/// The mode for the body of a closure: `?` mode where it has two or more
/// `?`s, else `return` mode with the number of its `return`s.
pub open spec fn closure_mode(st: St, body: Expr) -> St {
    let c = count_expr(st.scope, false, body);
    if c.0 >= 2 {
        St { visit_mode: VisitMode::Try, ..st }
    } else {
        St { visit_mode: VisitMode::Return(sat(c.1)), ..st }
    }
}

/// An expression rewritten in its attribute's context: of a closure whose
/// last expression is rewritten, the body, in the mode that its `?`s and
/// `return`s give; otherwise the expression itself: its last expression,
/// then the main walk from an empty scope.
pub open spec fn expanded(fuel: nat, st: St, e: Expr) -> (St, Expr)
    decreases fuel, 0nat,
{
    if fuel == 0 {
        (st, e)
    } else {
        let f = (fuel - 1) as nat;
        match e.kind {
            ExprKind::Closure(body) => if visit_last_of(st) {
                let (st2, b1) = child(closure_mode(st, *body), *body);
                let (st3, b2) = walk_expr(f, st2, Pass::Main(no_scope()), b1);
                (st3, Expr { kind: ExprKind::Closure(Box::new(b2)), ..e })
            } else {
                let (st1, e1) = child(st, e);
                walk_expr(f, st1, Pass::Main(no_scope()), e1)
            },
            _ => {
                let (st1, e1) = child(st, e);
                walk_expr(f, st1, Pass::Main(no_scope()), e1)
            },
        }
    }
}

/// Rewrites a `return` in `return` mode.
fn visit_return(cx: &mut Context, sc: Scope, e: Expr) -> (r: Expr)
    requires
        old(cx).wf(),
    ensures
        final(cx).wf(),
        (final(cx)@, r) == return_st(old(cx)@, sc, e),
{
    if sc.closure || any_empty_attr(&e.attrs, "never") {
        return e;
    }
    let Expr { attrs, kind, handle } = e;
    match kind {
        ExprKind::Return(v) => {
            let skip = match &v {
                Some(x) => cx.scope.is_marker_expr(x),
                None => false,
            };
            if skip {
                Expr { attrs, kind: ExprKind::Return(v), handle }
            } else {
                let x = cx.replace_boxed_expr(v);
                Expr { attrs, kind: ExprKind::Return(Some(Box::new(x))), handle }
            }
        },
        other => Expr { attrs, kind: other, handle },
    }
}

/// Rewrites a `?` in `?` mode.
fn visit_try(cx: &mut Context, sc: Scope, e: Expr) -> (r: Expr)
    requires
        old(cx).wf(),
    ensures
        final(cx).wf(),
        (final(cx)@, r) == try_st(old(cx)@, sc, e),
{
    if sc.try_block || sc.closure || any_empty_attr(&e.attrs, "never") {
        return e;
    }
    let Expr { attrs, kind, handle } = e;
    match kind {
        ExprKind::Try(x) => {
            if cx.scope.is_marker_expr(&x) {
                Expr { attrs, kind: ExprKind::Try(x), handle }
            } else {
                let err = cx.next_expr(Expr { attrs: Attrs::Nil, kind: ExprKind::GenErr, handle: 0 });
                let ret = Expr { attrs: Attrs::Nil, kind: ExprKind::ErrCall(Box::new(err)), handle: 0 };
                let val = Expr { attrs: Attrs::Nil, kind: ExprKind::GenVal, handle: 0 };
                Expr { attrs, kind: ExprKind::TryMatch(x, Box::new(val), Box::new(ret)), handle }
            }
        },
        other => Expr { attrs, kind: other, handle },
    }
}

/// Handles `#[nested]` on `e`.
fn visit_nested(cx: &mut Context, a: &Attribute, e: Expr) -> (r: Expr)
    requires
        old(cx).wf(),
    ensures
        final(cx).wf(),
        (final(cx)@, r) == nested_st(old(cx)@, *a, e),
{
    if a.meta != AttrMeta::Path {
        cx.error(Error { kind: ErrorKind::PathOnlyRequired, at: a.handle });
        e
    } else {
        child_expr(cx, e)
    }
}

/// Rewrites the marker macro of this scope.
fn visit_marker_macro(cx: &mut Context, e: Expr) -> (r: Expr)
    requires
        old(cx).wf(),
    ensures
        final(cx).wf(),
        (final(cx)@, r) == marker_st(old(cx)@, e),
{
    let exact = match &e.kind {
        ExprKind::Macro(m) => cx.scope.is_marker_macro_exact(m),
        _ => false,
    };
    if !exact {
        return e;
    }
    let Expr { attrs, kind, handle } = e;
    match kind {
        ExprKind::Macro(m) => {
            let crate::ast::Macro { path, body, handle: mh } = m;
            match body {
                Some(Ok(b)) => {
                    if cx.has_error() {
                        *b
                    } else {
                        cx.next_expr_with_attrs(attrs, *b)
                    }
                },
                Some(Err(h)) => {
                    cx.error(Error { kind: ErrorKind::Syntax(h), at: h });
                    Expr { attrs: Attrs::Nil, kind: ExprKind::Invalid, handle: 0 }
                },
                None => Expr { attrs, kind: ExprKind::Macro(crate::ast::Macro { path, body: None, handle: mh }), handle },
            }
        },
        other => Expr { attrs, kind: other, handle },
    }
}

/// Removes `#[never]` and `#[rec]`, outside the expressions of other
/// attributes.
fn find_remove_attrs(cx: &mut Context, sc: Scope, attrs: Attrs) -> (r: Attrs)
    requires
        old(cx).wf(),
    ensures
        final(cx).wf(),
        (final(cx)@, r) == strip_attrs(sc, old(cx)@, attrs),
{
    if sc.foreign {
        return attrs;
    }
    let (a1, nv) = find_remove_attr(attrs, "never");
    match nv {
        Some(a) => {
            if a.meta != AttrMeta::Path {
                cx.error(Error { kind: ErrorKind::PathOnlyRequired, at: a.handle });
            }
        },
        None => {},
    }
    a1
}

/// Visits an expression.
pub fn visit_expr_mut(fuel: u64, cx: &mut Context, p: Pass, e: Expr) -> (r: Expr)
    requires
        old(cx).wf(),
    ensures
        final(cx).wf(),
        (final(cx)@, r) == walk_expr(fuel as nat, old(cx)@, p, e),
    decreases fuel, 0nat,
{
    if fuel == 0 || cx.has_error() {
        return e;
    }
    let f = fuel - 1;
    match p {
        Pass::Main(sc) => visit_expr(f, cx, sc, e, false),
        Pass::Dummy => {
            let named = any_attr(&e.attrs, "auto_enum");
            cx.note_child(named);
            visit_sub_expr(f, cx, p, e, false)
        },
    }
}

fn visit_opt(fuel: u64, cx: &mut Context, p: Pass, x: Option<Box<Expr>>) -> (r: Option<Box<Expr>>)
    requires
        old(cx).wf(),
    ensures
        final(cx).wf(),
        (final(cx)@, r) == walk_opt(fuel as nat, old(cx)@, p, x),
    decreases fuel, 0nat,
{
    if fuel == 0 {
        return x;
    }
    match x {
        Some(e) => Some(Box::new(visit_expr_mut(fuel - 1, cx, p, *e))),
        None => None,
    }
}

fn visit_exprs(fuel: u64, cx: &mut Context, p: Pass, es: Exprs) -> (r: Exprs)
    requires
        old(cx).wf(),
    ensures
        final(cx).wf(),
        (final(cx)@, r) == walk_exprs(fuel as nat, old(cx)@, p, es),
    decreases fuel, 0nat,
{
    if fuel == 0 {
        return es;
    }
    let f = fuel - 1;
    match es {
        Exprs::Nil => Exprs::Nil,
        Exprs::Cons(e, t) => {
            let e1 = visit_expr_mut(f, cx, p, *e);
            let t1 = visit_exprs(f, cx, p, *t);
            Exprs::Cons(Box::new(e1), Box::new(t1))
        },
    }
}

fn visit_parts(fuel: u64, cx: &mut Context, p: Pass, ps: Parts) -> (r: Parts)
    requires
        old(cx).wf(),
    ensures
        final(cx).wf(),
        (final(cx)@, r) == walk_parts(fuel as nat, old(cx)@, p, ps),
    decreases fuel, 0nat,
{
    if fuel == 0 {
        return ps;
    }
    let f = fuel - 1;
    match ps {
        Parts::Nil => Parts::Nil,
        Parts::Cons(x, t) => {
            let x1 = match *x {
                Part::Expr(e) => Part::Expr(visit_expr_mut(f, cx, p, e)),
                Part::Block(b) => Part::Block(visit_block_mut(f, cx, p, b)),
            };
            let t1 = visit_parts(f, cx, p, *t);
            Parts::Cons(Box::new(x1), Box::new(t1))
        },
    }
}

fn visit_arm_mut(fuel: u64, cx: &mut Context, p: Pass, a: Arm) -> (r: Arm)
    requires
        old(cx).wf(),
    ensures
        final(cx).wf(),
        (final(cx)@, r) == walk_arm(fuel as nat, old(cx)@, p, a),
    decreases fuel, 0nat,
{
    if fuel == 0 {
        return a;
    }
    let f = fuel - 1;
    match p {
        Pass::Main(sc) => {
            if cx.has_error() {
                return a;
            }
            let Arm { attrs, guard, body, comma, handle } = a;
            let (at, body1) = if sc.foreign {
                (attrs, body)
            } else {
                let (at, na) = find_remove_attr(attrs, "nested");
                match na {
                    Some(n) => {
                        let b = visit_nested(cx, &n, *body);
                        (at, Box::new(b))
                    },
                    None => (at, body),
                }
            };
            let g = visit_opt(f, cx, p, guard);
            let b = visit_expr_mut(f, cx, p, *body1);
            let at4 = find_remove_attrs(cx, sc, at);
            Arm { attrs: at4, guard: g, body: Box::new(b), comma, handle }
        },
        Pass::Dummy => {
            let Arm { attrs, guard, body, comma, handle } = a;
            let g = visit_opt(f, cx, p, guard);
            let b = visit_expr_mut(f, cx, p, *body);
            Arm { attrs, guard: g, body: Box::new(b), comma, handle }
        },
    }
}

fn visit_arms(fuel: u64, cx: &mut Context, p: Pass, arms: Arms) -> (r: Arms)
    requires
        old(cx).wf(),
    ensures
        final(cx).wf(),
        (final(cx)@, r) == walk_arms(fuel as nat, old(cx)@, p, arms),
    decreases fuel, 0nat,
{
    if fuel == 0 {
        return arms;
    }
    let f = fuel - 1;
    match arms {
        Arms::Nil => Arms::Nil,
        Arms::Cons(a, t) => {
            let a1 = visit_arm_mut(f, cx, p, *a);
            let t1 = visit_arms(f, cx, p, *t);
            Arms::Cons(Box::new(a1), Box::new(t1))
        },
    }
}

fn visit_local_mut(fuel: u64, cx: &mut Context, p: Pass, l: Local) -> (r: Local)
    requires
        old(cx).wf(),
    ensures
        final(cx).wf(),
        (final(cx)@, r) == walk_local(fuel as nat, old(cx)@, p, l),
    decreases fuel, 0nat,
{
    if fuel == 0 {
        return l;
    }
    let f = fuel - 1;
    match p {
        Pass::Main(sc) => {
            if cx.has_error() {
                return l;
            }
            let Local { attrs, init, diverge, handle } = l;
            let (at, init1) = if sc.foreign {
                (attrs, init)
            } else {
                let (at, na) = find_remove_attr(attrs, "nested");
                match na {
                    Some(n) => match init {
                        Some(x) => {
                            let x1 = visit_nested(cx, &n, *x);
                            (at, Some(Box::new(x1)))
                        },
                        None => (at, None),
                    },
                    None => (at, init),
                }
            };
            let i = visit_opt(f, cx, p, init1);
            let d = visit_opt(f, cx, p, diverge);
            let at4 = find_remove_attrs(cx, sc, at);
            Local { attrs: at4, init: i, diverge: d, handle }
        },
        Pass::Dummy => {
            let Local { attrs, init, diverge, handle } = l;
            let i = visit_opt(f, cx, p, init);
            let d = visit_opt(f, cx, p, diverge);
            Local { attrs, init: i, diverge: d, handle }
        },
    }
}

fn visit_stmt_mut(fuel: u64, cx: &mut Context, p: Pass, s: Stmt) -> (r: Stmt)
    requires
        old(cx).wf(),
    ensures
        final(cx).wf(),
        (final(cx)@, r) == walk_stmt(fuel as nat, old(cx)@, p, s),
    decreases fuel, 0nat,
{
    if fuel == 0 || cx.has_error() {
        return s;
    }
    let f = fuel - 1;
    let named = any_stmt_attr(&s, "auto_enum");
    match p {
        Pass::Main(sc) => match s {
            Stmt::Expr(e, semi) => Stmt::Expr(visit_expr(f, cx, sc, e, semi), semi),
            other => {
                cx.note_child(named);
                let sc2 = if named { Scope { foreign: true, ..sc } } else { sc };
                visit_sub_stmt(f, cx, Pass::Main(sc2), other)
            },
        },
        Pass::Dummy => {
            cx.note_child(named);
            visit_sub_stmt(f, cx, p, s)
        },
    }
}

fn visit_stmts(fuel: u64, cx: &mut Context, p: Pass, stmts: Stmts) -> (r: Stmts)
    requires
        old(cx).wf(),
    ensures
        final(cx).wf(),
        (final(cx)@, r) == walk_stmts(fuel as nat, old(cx)@, p, stmts),
    decreases fuel, 0nat,
{
    if fuel == 0 {
        return stmts;
    }
    let f = fuel - 1;
    match stmts {
        Stmts::Nil => Stmts::Nil,
        Stmts::Cons(s, t) => {
            let s1 = visit_stmt_mut(f, cx, p, *s);
            let t1 = visit_stmts(f, cx, p, *t);
            Stmts::Cons(Box::new(s1), Box::new(t1))
        },
    }
}

/// Visits a block.
pub fn visit_block_mut(fuel: u64, cx: &mut Context, p: Pass, b: Block) -> (r: Block)
    requires
        old(cx).wf(),
    ensures
        final(cx).wf(),
        (final(cx)@, r) == walk_block(fuel as nat, old(cx)@, p, b),
    decreases fuel, 0nat,
{
    if fuel == 0 {
        return b;
    }
    let Block { stmts, handle } = b;
    let s1 = visit_stmts(fuel - 1, cx, p, stmts);
    Block { stmts: s1, handle }
}

fn visit_ret(fuel: u64, cx: &mut Context, p: Pass, ret: Expr) -> (r: Expr)
    requires
        old(cx).wf(),
    ensures
        final(cx).wf(),
        (final(cx)@, r) == walk_ret(fuel as nat, old(cx)@, p, ret),
    decreases fuel, 0nat,
{
    if fuel == 0 || cx.has_error() {
        return ret;
    }
    let r1 = match p {
        Pass::Main(sc) => {
            let in_return = match cx.visit_mode {
                VisitMode::Return(_) => true,
                _ => false,
            };
            if in_return && !sc.closure && !cx.scope.is_marker_expr(&ret) {
                cx.next_expr(ret)
            } else {
                ret
            }
        },
        Pass::Dummy => ret,
    };
    visit_expr_mut(fuel - 1, cx, p, r1)
}

fn visit_children(fuel: u64, cx: &mut Context, p: Pass, e: Expr) -> (r: Expr)
    requires
        old(cx).wf(),
    ensures
        final(cx).wf(),
        (final(cx)@, r) == walk_children(fuel as nat, old(cx)@, p, e),
    decreases fuel, 1nat,
{
    if fuel == 0 {
        return e;
    }
    let group: u8 = match &e.kind {
        ExprKind::Block(_) | ExprKind::Unsafe(_) | ExprKind::Async(_) | ExprKind::TryBlock(_) | ExprKind::Loop(_, _) => 0u8,
        ExprKind::Match(_, _) | ExprKind::If(_, _, _) | ExprKind::ForLoop(_, _, _) | ExprKind::While(_, _, _) => 1u8,
        ExprKind::Closure(_) | ExprKind::MethodCall(_, _) | ExprKind::Call(_, _) | ExprKind::Other(_) | ExprKind::Break(_, _) | ExprKind::Return(_) => 2u8,
        ExprKind::Paren(_) | ExprKind::Try(_) | ExprKind::Variant(_, _, _) | ExprKind::TryMatch(_, _, _) | ExprKind::ErrCall(_) | ExprKind::WithEnum(_, _) => 3u8,
        _ => 9u8,
    };
    if group == 0 {
        visit_children_block(fuel, cx, p, e)
    } else if group == 1 {
        visit_children_branch(fuel, cx, p, e)
    } else if group == 2 {
        visit_children_call(fuel, cx, p, e)
    } else if group == 3 {
        visit_children_single(fuel, cx, p, e)
    } else {
        e
    }
}

fn visit_children_block(fuel: u64, cx: &mut Context, p: Pass, e: Expr) -> (r: Expr)
    requires
        old(cx).wf(),
        fuel > 0,
        e.kind is Block || e.kind is Unsafe || e.kind is Async || e.kind is TryBlock || e.kind is Loop,
    ensures
        final(cx).wf(),
        (final(cx)@, r) == walk_children(fuel as nat, old(cx)@, p, e),
    decreases fuel, 0nat,
{
    let f = fuel - 1;
    let Expr { attrs, kind, handle } = e;
    match kind {
        ExprKind::Block(b) => {
            let b1 = visit_block_mut(f, cx, p, b);
            Expr { attrs, kind: ExprKind::Block(b1), handle }
        },
        ExprKind::Unsafe(b) => {
            let b1 = visit_block_mut(f, cx, p, b);
            Expr { attrs, kind: ExprKind::Unsafe(b1), handle }
        },
        ExprKind::Async(b) => {
            let b1 = visit_block_mut(f, cx, p, b);
            Expr { attrs, kind: ExprKind::Async(b1), handle }
        },
        ExprKind::TryBlock(b) => {
            let b1 = visit_block_mut(f, cx, p, b);
            Expr { attrs, kind: ExprKind::TryBlock(b1), handle }
        },
        ExprKind::Loop(l, b) => {
            let b1 = visit_block_mut(f, cx, p, b);
            Expr { attrs, kind: ExprKind::Loop(l, b1), handle }
        },
        other => Expr { attrs, kind: other, handle },
    }
}

fn visit_children_branch(fuel: u64, cx: &mut Context, p: Pass, e: Expr) -> (r: Expr)
    requires
        old(cx).wf(),
        fuel > 0,
        e.kind is Match || e.kind is If || e.kind is ForLoop || e.kind is While,
    ensures
        final(cx).wf(),
        (final(cx)@, r) == walk_children(fuel as nat, old(cx)@, p, e),
    decreases fuel, 0nat,
{
    let f = fuel - 1;
    let Expr { attrs, kind, handle } = e;
    match kind {
        ExprKind::Match(x, arms) => {
            let x1 = visit_expr_mut(f, cx, p, *x);
            let a1 = visit_arms(f, cx, p, arms);
            Expr { attrs, kind: ExprKind::Match(Box::new(x1), a1), handle }
        },
        ExprKind::If(c, t, el) => {
            let c1 = visit_expr_mut(f, cx, p, *c);
            let t1 = visit_block_mut(f, cx, p, t);
            let el1 = visit_opt(f, cx, p, el);
            Expr { attrs, kind: ExprKind::If(Box::new(c1), t1, el1), handle }
        },
        ExprKind::ForLoop(l, x, b) => {
            let x1 = visit_expr_mut(f, cx, p, *x);
            let b1 = visit_block_mut(f, cx, p, b);
            Expr { attrs, kind: ExprKind::ForLoop(l, Box::new(x1), b1), handle }
        },
        ExprKind::While(l, x, b) => {
            let x1 = visit_expr_mut(f, cx, p, *x);
            let b1 = visit_block_mut(f, cx, p, b);
            Expr { attrs, kind: ExprKind::While(l, Box::new(x1), b1), handle }
        },
        other => Expr { attrs, kind: other, handle },
    }
}

fn visit_children_call(fuel: u64, cx: &mut Context, p: Pass, e: Expr) -> (r: Expr)
    requires
        old(cx).wf(),
        fuel > 0,
        e.kind is Closure || e.kind is MethodCall || e.kind is Call || e.kind is Other || e.kind is Break || e.kind is Return,
    ensures
        final(cx).wf(),
        (final(cx)@, r) == walk_children(fuel as nat, old(cx)@, p, e),
    decreases fuel, 0nat,
{
    let f = fuel - 1;
    let Expr { attrs, kind, handle } = e;
    match kind {
        ExprKind::Closure(x) => {
            let x1 = visit_expr_mut(f, cx, p, *x);
            Expr { attrs, kind: ExprKind::Closure(Box::new(x1)), handle }
        },
        ExprKind::MethodCall(r, args) => {
            let r1 = visit_expr_mut(f, cx, p, *r);
            let a1 = visit_exprs(f, cx, p, args);
            Expr { attrs, kind: ExprKind::MethodCall(Box::new(r1), a1), handle }
        },
        ExprKind::Call(g, args) => {
            let g1 = visit_expr_mut(f, cx, p, *g);
            let a1 = visit_exprs(f, cx, p, args);
            Expr { attrs, kind: ExprKind::Call(Box::new(g1), a1), handle }
        },
        ExprKind::Other(parts) => {
            let p1 = visit_parts(f, cx, p, parts);
            Expr { attrs, kind: ExprKind::Other(p1), handle }
        },
        ExprKind::Break(l, v) => {
            let v1 = visit_opt(f, cx, p, v);
            Expr { attrs, kind: ExprKind::Break(l, v1), handle }
        },
        ExprKind::Return(v) => {
            let v1 = visit_opt(f, cx, p, v);
            Expr { attrs, kind: ExprKind::Return(v1), handle }
        },
        other => Expr { attrs, kind: other, handle },
    }
}

fn visit_children_single(fuel: u64, cx: &mut Context, p: Pass, e: Expr) -> (r: Expr)
    requires
        old(cx).wf(),
        fuel > 0,
        e.kind is Paren || e.kind is Try || e.kind is Variant || e.kind is TryMatch || e.kind is ErrCall || e.kind is WithEnum,
    ensures
        final(cx).wf(),
        (final(cx)@, r) == walk_children(fuel as nat, old(cx)@, p, e),
    decreases fuel, 0nat,
{
    let f = fuel - 1;
    let Expr { attrs, kind, handle } = e;
    match kind {
        ExprKind::Paren(x) => {
            let x1 = visit_expr_mut(f, cx, p, *x);
            Expr { attrs, kind: ExprKind::Paren(Box::new(x1)), handle }
        },
        ExprKind::Try(x) => {
            let x1 = visit_expr_mut(f, cx, p, *x);
            Expr { attrs, kind: ExprKind::Try(Box::new(x1)), handle }
        },
        ExprKind::Variant(id, i, x) => {
            let x1 = visit_expr_mut(f, cx, p, *x);
            Expr { attrs, kind: ExprKind::Variant(id, i, Box::new(x1)), handle }
        },
        ExprKind::TryMatch(x, ok, ret) => {
            let x1 = visit_expr_mut(f, cx, p, *x);
            let ok1 = visit_expr_mut(f, cx, p, *ok);
            let ret1 = visit_ret(f, cx, p, *ret);
            Expr { attrs, kind: ExprKind::TryMatch(Box::new(x1), Box::new(ok1), Box::new(ret1)), handle }
        },
        ExprKind::ErrCall(x) => {
            let x1 = visit_expr_mut(f, cx, p, *x);
            Expr { attrs, kind: ExprKind::ErrCall(Box::new(x1)), handle }
        },
        ExprKind::WithEnum(d, x) => {
            let x1 = visit_expr_mut(f, cx, p, *x);
            Expr { attrs, kind: ExprKind::WithEnum(d, Box::new(x1)), handle }
        },
        other => Expr { attrs, kind: other, handle },
    }
}

/// The first steps of the main walk's visit of an expression.
fn visit_expr_pre(cx: &mut Context, sc: Scope, e: Expr) -> (r: (Scope, Expr))
    requires
        old(cx).wf(),
    ensures
        final(cx).wf(),
        (final(cx)@, r.0, r.1) == main_pre(old(cx)@, sc, e),
{
    let named = any_attr(&e.attrs, "auto_enum");
    let sc1 = if named { Scope { foreign: true, ..sc } } else { sc };
    cx.note_child(named);
    let sc2 = check_expr(sc1, &e);
    let e2 = match cx.visit_mode {
        VisitMode::Return(_) => visit_return(cx, sc2, e),
        VisitMode::Try => visit_try(cx, sc2, e),
        VisitMode::Default => e,
    };
    if sc2.foreign {
        (sc2, e2)
    } else {
        let Expr { attrs, kind, handle } = e2;
        let (at, na) = find_remove_attr(attrs, "nested");
        let e2b = Expr { attrs: at, kind, handle };
        let e3 = match na {
            Some(a) => visit_nested(cx, &a, e2b),
            None => e2b,
        };
        (sc2, e3)
    }
}

/// The last steps of the main walk's visit of an expression.
fn visit_expr_post(cx: &mut Context, sc: Scope, e: Expr) -> (r: Expr)
    requires
        old(cx).wf(),
    ensures
        final(cx).wf(),
        (final(cx)@, r) == main_post(old(cx)@, sc, e),
{
    if !sc.foreign || !str_eq(cx.scope.current_marker.as_str(), "marker") {
        let e5 = visit_marker_macro(cx, e);
        let Expr { attrs, kind, handle } = e5;
        let at6 = find_remove_attrs(cx, sc, attrs);
        Expr { attrs: at6, kind, handle }
    } else {
        e
    }
}

/// The main walk's visit of an expression in scope `sc`.
fn visit_expr(fuel: u64, cx: &mut Context, sc: Scope, e: Expr, semi: bool) -> (r: Expr)
    requires
        old(cx).wf(),
    ensures
        final(cx).wf(),
        (final(cx)@, r) == main_expr(fuel as nat, old(cx)@, sc, e, semi),
    decreases fuel, 0nat,
{
    if fuel == 0 {
        return e;
    }
    let (sc2, e3) = visit_expr_pre(cx, sc, e);
    let e4 = visit_sub_expr(fuel - 1, cx, Pass::Main(sc2), e3, semi);
    visit_expr_post(cx, sc2, e4)
}

/// An expression that may carry an `#[auto_enum]` attribute.
fn visit_sub_expr(fuel: u64, cx: &mut Context, p: Pass, e: Expr, semi: bool) -> (r: Expr)
    requires
        old(cx).wf(),
    ensures
        final(cx).wf(),
        (final(cx)@, r) == sub_expr(fuel as nat, old(cx)@, p, e, semi),
    decreases fuel, 0nat,
{
    if fuel == 0 {
        return e;
    }
    let f = fuel - 1;
    let Expr { attrs, kind, handle } = e;
    let (at, na) = find_remove_attr(attrs, "auto_enum");
    let e1 = Expr { attrs: at, kind, handle };
    match na {
        None => visit_children(f, cx, p, e1),
        Some(a) => {
            if a.meta != AttrMeta::List {
                let e2 = visit_children(f, cx, p, e1);
                cx.error(Error { kind: ErrorKind::ListRequired, at: a.handle });
                e2
            } else {
                let Attribute { ident: _, meta: _, args, target_text, handle: _ } = a;
                let res = cx.make_child(target_text.as_str(), handle, args);
                let e2 = visit_children(f, cx, p, e1);
                match res {
                    Err(x) => {
                        cx.error(x);
                        e2
                    },
                    Ok(c) => {
                        let mut c = c;
                        let e3 = expand_parent_expr(f, &mut c, e2, semi);
                        cx.join_child(c);
                        e3
                    },
                }
            }
        },
    }
}

/// A statement that may carry an `#[auto_enum]` attribute.
fn visit_sub_stmt(fuel: u64, cx: &mut Context, p: Pass, s: Stmt) -> (r: Stmt)
    requires
        old(cx).wf(),
    ensures
        final(cx).wf(),
        (final(cx)@, r) == sub_stmt(fuel as nat, old(cx)@, p, s),
    decreases fuel, 0nat,
{
    proof {
        reveal(local_plan);
    }
    if fuel == 0 {
        return s;
    }
    let f = fuel - 1;
    match s {
        Stmt::Expr(e, semi) => {
            let e1 = visit_sub_expr(f, cx, p, e, semi);
            Stmt::Expr(e1, semi)
        },
        Stmt::Local(l) => {
            let r = {
                let Local { attrs, init, diverge, handle } = l;
                let (at, na) = find_remove_attr(attrs, "auto_enum");
                let l1 = Local { attrs: at, init, diverge, handle };
                match na {
                    None => visit_local_mut(f, cx, p, l1),
                    Some(a) => {
                        if a.meta == AttrMeta::NameValue {
                            let l2 = visit_local_mut(f, cx, p, l1);
                            cx.error(Error { kind: ErrorKind::ExpectedList, at: a.handle });
                            l2
                        } else {
                            let Attribute { ident: _, meta, args, target_text, handle: _ } = a;
                            let raw = if meta == AttrMeta::Path {
                                RawArgs { items: Vec::new(), error: None }
                            } else {
                                args
                            };
                            let res = cx.make_child(target_text.as_str(), handle, raw);
                            let l2 = visit_local_mut(f, cx, p, l1);
                            match res {
                                Err(x) => {
                                    cx.error(x);
                                    l2
                                },
                                Ok(c) => {
                                    let mut c = c;
                                    let l3 = expand_parent_local(f, &mut c, l2);
                                    cx.join_child(c);
                                    l3
                                },
                            }
                        }
                    },
                }
            };
            Stmt::Local(r)
        },
        Stmt::Item(h) => Stmt::Item(h),
        Stmt::Enum(d) => Stmt::Enum(d),
        Stmt::Macro(a, m) => Stmt::Macro(a, m),
    }
}

/// Expands an expression on which an attribute stands, in the attribute's
/// context.
pub fn expand_parent_expr(fuel: u64, cx: &mut Context, e: Expr, semi: bool) -> (r: Expr)
    requires
        old(cx).wf(),
    ensures
        final(cx).wf(),
        (final(cx)@, r) == parent_expr(fuel as nat, old(cx)@, e, semi),
    decreases fuel, 0nat,
{
    if fuel == 0 {
        return e;
    }
    let f = fuel - 1;
    if semi {
        cx.visit_last_mode = VisitLastMode::Never;
    }
    if cx.is_dummy() {
        return visit_expr_mut(f, cx, Pass::Dummy, e);
    }
    let e1 = expand_expr(f, cx, e);
    match cx.build() {
        Some(d) => Expr { attrs: Attrs::Nil, kind: ExprKind::WithEnum(d, Box::new(e1)), handle: 0 },
        None => e1,
    }
}

/// Expands a `let` on which an attribute stands, in the attribute's context.
pub fn expand_parent_local(fuel: u64, cx: &mut Context, l: Local) -> (r: Local)
    requires
        old(cx).wf(),
    ensures
        final(cx).wf(),
        (final(cx)@, r) == parent_local(fuel as nat, old(cx)@, l),
    decreases fuel, 0nat,
{
    if fuel == 0 {
        return l;
    }
    let f = fuel - 1;
    if cx.is_dummy() {
        return visit_local_mut(f, cx, Pass::Dummy, l);
    }
    let Local { attrs, init, diverge, handle } = l;
    match init {
        None => {
            cx.error(Error { kind: ErrorKind::UninitializedLet, at: handle });
            Local { attrs, init: None, diverge, handle }
        },
        Some(x) => {
            let x1 = expand_expr(f, cx, *x);
            let x2 = match cx.build() {
                Some(d) => Expr { attrs: Attrs::Nil, kind: ExprKind::WithEnum(d, Box::new(x1)), handle: 0 },
                None => x1,
            };
            Local { attrs, init: Some(Box::new(x2)), diverge, handle }
        },
    }
}

/// Rewrites an expression in its attribute's context.
fn expand_expr(fuel: u64, cx: &mut Context, e: Expr) -> (r: Expr)
    requires
        old(cx).wf(),
    ensures
        final(cx).wf(),
        (final(cx)@, r) == expanded(fuel as nat, old(cx)@, e),
    decreases fuel, 0nat,
{
    if fuel == 0 {
        return e;
    }
    let f = fuel - 1;
    let is_closure = match &e.kind {
        ExprKind::Closure(_) => true,
        _ => false,
    };
    if is_closure && cx.visit_last() {
        let Expr { attrs, kind, handle } = e;
        match kind {
            ExprKind::Closure(body) => {
                let c = count_in_expr(&cx.scope, false, &body);
                if c.0 >= 2 {
                    cx.visit_mode = VisitMode::Try;
                } else {
                    cx.visit_mode = VisitMode::Return(c.1);
                }
                let b1 = child_expr(cx, *body);
                let b2 = visit_expr_mut(f, cx, Pass::Main(Scope { closure: false, try_block: false, foreign: false }), b1);
                Expr { attrs, kind: ExprKind::Closure(Box::new(b2)), handle }
            },
            other => Expr { attrs, kind: other, handle },
        }
    } else {
        let e1 = child_expr(cx, e);
        visit_expr_mut(f, cx, Pass::Main(Scope { closure: false, try_block: false, foreign: false }), e1)
    }
}

} // verus!
