//! The `#[auto_enum]` attribute on the statement, function or expression it
//! stands on: the outermost attribute's context, the expansion of its input,
//! and the errors that come out of it.

use vstd::prelude::*;

use crate::ast::{path_eq, path_matches, Block, EnumDecl, Expr, GenericArg, ItemFn, RawArgs, ReturnType, Stmt, Stmts};
use crate::context::{build_st, err_st, new_st, Context, Error, ErrorKind, St, VisitLastMode, VisitMode};
use crate::last_expr::child_last;
use crate::scan::{count_in_stmts, count_stmts, sat, std_crates};
use crate::visitor::{
    expand_parent_expr, expand_parent_local, no_scope, parent_expr, parent_local, visit_block_mut, walk_block,
    Pass,
};

verus! {

/// The input of an `#[auto_enum]` attribute, as far as it could be read.
pub enum Input {
    /// A statement; a nested item stands for an item other than a function.
    Stmt(Stmt),
    /// A function item.
    Fn(ItemFn),
    /// An expression that is no statement.
    Expr(Expr),
    /// Neither a statement nor an expression: the handle of the error that
    /// reading a statement gave.
    Invalid(u64),
}

/// The step budget of an expansion: the most that a `u64` holds.
pub open spec fn full_fuel() -> nat {
    u64::MAX as nat
}

/// Whether the arguments are `T, impl Trait`: a type, then an `impl Trait`
/// type.
pub open spec fn result_impl_args(args: Seq<GenericArg>) -> bool {
    args.len() == 2 && args[0] != GenericArg::NotType && args[1] == GenericArg::ImplTraitType
}

/// The mode of a function's body: `return` mode, with the number of its
/// `return`s, for a function returning `impl Trait`; `?` mode for one
/// returning `Result<T, impl Trait>` (as `Result`, `std::result::Result` or
/// `core::result::Result`) with two or more `?`s in its body.
pub open spec fn fn_mode(st: St, f: ItemFn) -> St {
    if st.visit_last_mode == VisitLastMode::Never {
        st
    } else {
        let c = count_stmts(st.scope, false, f.block.stmts);
        match f.output {
            ReturnType::ImplTrait => St { visit_mode: VisitMode::Return(sat(c.1)), ..st },
            ReturnType::Path(p, Some(args)) => if result_impl_args(args@) && path_matches(
                p,
                std_crates(),
                seq!["result"@, "Result"@],
            ) && c.0 >= 2 {
                St { visit_mode: VisitMode::Try, ..st }
            } else {
                st
            },
            _ => st,
        }
    }
}

/// The block with the enum `d` as its first statement.
pub open spec fn with_enum_first(d: EnumDecl, b: Block) -> Block {
    Block { stmts: Stmts::Cons(Box::new(Stmt::Enum(d)), Box::new(b.stmts)), ..b }
}

/// A function on which the attribute stands: its body is rewritten in the
/// mode that its return type gives (an attribute without traits only looks
/// for nested attributes): the last expression of the body (an empty body is
/// an error), then the main walk over the body; where the enum is built, it
/// becomes the body's first statement.
pub open spec fn parent_fn(fuel: nat, st: St, f: ItemFn) -> (St, ItemFn) {
    let st1 = fn_mode(st, f);
    if st1.args.len() == 0 {
        let (st2, b) = walk_block(fuel, st1, Pass::Dummy, f.block);
        (st2, ItemFn { block: b, ..f })
    } else {
        let (st2, s2) = if f.block.stmts is Nil {
            (err_st(st1, Error { kind: ErrorKind::EmptyFunction, at: f.block.handle }), f.block.stmts)
        } else {
            child_last(st1, f.block.stmts)
        };
        let (st3, b3) = walk_block(fuel, st2, Pass::Main(no_scope()), Block { stmts: s2, ..f.block });
        let (st4, d) = build_st(st3);
        (st4, ItemFn {
            block: match d {
                Some(d) => with_enum_first(d, b3),
                None => b3,
            },
            ..f
        })
    }
}

/// A statement on which the attribute stands: an expression statement or a
/// `let` is expanded; an item other than a function is an error; a macro is
/// left.
pub open spec fn parent_stmt(fuel: nat, st: St, s: Stmt) -> (St, Stmt) {
    match s {
        Stmt::Expr(e, semi) => {
            let (st1, e1) = parent_expr(fuel, st, e, semi);
            (st1, Stmt::Expr(e1, semi))
        },
        Stmt::Local(l) => {
            let (st1, l1) = parent_local(fuel, st, l);
            (st1, Stmt::Local(l1))
        },
        Stmt::Item(h) => (err_st(st, Error { kind: ErrorKind::UnsupportedItem, at: h }), s),
        Stmt::Enum(_) => (err_st(st, Error { kind: ErrorKind::UnsupportedItem, at: st.span }), s),
        Stmt::Macro(_, _) => (st, s),
    }
}

/// The input expanded in the context `st`: input that is neither statement
/// nor expression gives its error and an error at the input.
pub open spec fn expand_input(fuel: nat, st: St, input: Input) -> (St, Input) {
    match input {
        Input::Stmt(s) => {
            let (st1, s1) = parent_stmt(fuel, st, s);
            (st1, Input::Stmt(s1))
        },
        Input::Fn(f) => {
            let (st1, f1) = parent_fn(fuel, st, f);
            (st1, Input::Fn(f1))
        },
        Input::Expr(e) => {
            let (st1, e1) = parent_expr(fuel, st, e, false);
            (st1, Input::Expr(e1))
        },
        Input::Invalid(h) => (
            err_st(err_st(st, Error { kind: ErrorKind::Syntax(h), at: h }), Error { kind: ErrorKind::UnsupportedItem, at: st.span }),
            input,
        ),
    }
}

/// What `#[auto_enum(<args>)]` on the input with text `text` and handle
/// `span` gives: the error in the arguments, or the input rewritten where no
/// error was found, or the errors found, in order.
pub open spec fn attribute_result(text: Seq<char>, span: u64, raw: RawArgs, input: Input) -> Result<Input, Seq<Error>> {
    match new_st(text, span, raw.items@, raw.error, true, seq![], seq![]) {
        Err(e) => Err(seq![e]),
        Ok(st) => {
            let (st1, out) = expand_input(full_fuel(), st, input);
            if st1.errors.len() == 0 {
                Ok(out)
            } else {
                Err(st1.errors)
            }
        },
    }
}

/// The mode of a function's body.
fn set_fn_mode(cx: &mut Context, f: &ItemFn)
    requires
        old(cx).wf(),
    ensures
        final(cx).wf(),
        final(cx)@ == fn_mode(old(cx)@, *f),
{
    if cx.visit_last_mode == VisitLastMode::Never {
        return;
    }
    let c = count_in_stmts(&cx.scope, false, &f.block.stmts);
    match &f.output {
        ReturnType::ImplTrait => {
            cx.visit_mode = VisitMode::Return(c.1);
        },
        ReturnType::Path(p, Some(args)) => {
            let crates = vec!["std", "core"];
            let expected = vec!["result", "Result"];
            proof {
                assert(crates@.map_values(|c: &str| c@) =~= std_crates());
                assert(expected@.map_values(|c: &str| c@) =~= seq!["result"@, "Result"@]);
            }
            if args.len() == 2 && args[0] != GenericArg::NotType && args[1] == GenericArg::ImplTraitType
                && path_eq(p, &crates, &expected) && c.0 >= 2 {
                cx.visit_mode = VisitMode::Try;
            }
        },
        _ => {},
    }
}

/// Expands a function on which the attribute stands.
pub fn expand_parent_item_fn(fuel: u64, cx: &mut Context, f: ItemFn) -> (r: ItemFn)
    requires
        old(cx).wf(),
    ensures
        final(cx).wf(),
        (final(cx)@, r) == parent_fn(fuel as nat, old(cx)@, f),
{
    set_fn_mode(cx, &f);
    let ItemFn { output, block, handle } = f;
    if cx.is_dummy() {
        let b = visit_block_mut(fuel, cx, Pass::Dummy, block);
        return ItemFn { output, block: b, handle };
    }
    let Block { stmts, handle: bh } = block;
    let s2 = match stmts {
        Stmts::Nil => {
            cx.error(Error { kind: ErrorKind::EmptyFunction, at: bh });
            Stmts::Nil
        },
        other => crate::last_expr::child_last_stmt(cx, other),
    };
    let b3 = visit_block_mut(fuel, cx, Pass::Main(crate::context::Scope { closure: false, try_block: false, foreign: false }), Block { stmts: s2, handle: bh });
    let block = match cx.build() {
        Some(d) => {
            let Block { stmts, handle } = b3;
            Block { stmts: Stmts::Cons(Box::new(Stmt::Enum(d)), Box::new(stmts)), handle }
        },
        None => b3,
    };
    ItemFn { output, block, handle }
}

/// Expands a statement on which the attribute stands.
fn expand_parent_stmt(fuel: u64, cx: &mut Context, s: Stmt) -> (r: Stmt)
    requires
        old(cx).wf(),
    ensures
        final(cx).wf(),
        (final(cx)@, r) == parent_stmt(fuel as nat, old(cx)@, s),
{
    match s {
        Stmt::Expr(e, semi) => Stmt::Expr(expand_parent_expr(fuel, cx, e, semi), semi),
        Stmt::Local(l) => Stmt::Local(expand_parent_local(fuel, cx, l)),
        Stmt::Item(h) => {
            cx.error(Error { kind: ErrorKind::UnsupportedItem, at: h });
            Stmt::Item(h)
        },
        Stmt::Enum(d) => {
            let at = cx.span;
            cx.error(Error { kind: ErrorKind::UnsupportedItem, at });
            Stmt::Enum(d)
        },
        other => other,
    }
}

/// Expands the input in the outermost attribute's context.
fn expand_input_in(fuel: u64, cx: &mut Context, input: Input) -> (r: Input)
    requires
        old(cx).wf(),
    ensures
        final(cx).wf(),
        (final(cx)@, r) == expand_input(fuel as nat, old(cx)@, input),
{
    match input {
        Input::Stmt(s) => Input::Stmt(expand_parent_stmt(fuel, cx, s)),
        Input::Fn(f) => Input::Fn(expand_parent_item_fn(fuel, cx, f)),
        Input::Expr(e) => Input::Expr(expand_parent_expr(fuel, cx, e, false)),
        Input::Invalid(h) => {
            let at = cx.span;
            cx.error(Error { kind: ErrorKind::Syntax(h), at: h });
            cx.error(Error { kind: ErrorKind::UnsupportedItem, at });
            Input::Invalid(h)
        },
    }
}

/// Rewrites the input of `#[auto_enum(<args>)]`, where `text` is the input's
/// text (which names the enum) and `span` its handle: the input with the
/// enums put in, or the errors found.
pub fn attribute(text: &str, span: u64, raw: RawArgs, input: Input) -> (r: Result<Input, Vec<Error>>)
    ensures
        match r {
            Ok(out) => attribute_result(text@, span, raw, input) == Ok::<Input, Seq<Error>>(out),
            Err(es) => attribute_result(text@, span, raw, input) == Err::<Input, Seq<Error>>(es@),
        },
{
    let mut cx = match Context::root(text, span, raw) {
        Ok(cx) => cx,
        Err(e) => {
            let v = vec![e];
            assert(v@ =~= seq![e]);
            return Err(v);
        },
    };
    let out = expand_input_in(u64::MAX, &mut cx, input);
    assert(u64::MAX as nat == full_fuel());
    match cx.check() {
        Ok(()) => Ok(out),
        Err(es) => Err(es),
    }
}

} // verus!
