//! The syntax that `#[auto_enum]` reads and rewrites.
//!
//! Each node keeps a `handle`: a number by which the caller finds the node it
//! was made from again, with the tokens and spans that the rules here do not
//! read. A handle of `0` marks a node that the rules made themselves.

use vstd::prelude::*;

use crate::text::str_eq;

verus! {

/// The form of an attribute's arguments.
#[derive(Clone, Copy, Debug, PartialEq, Eq, Structural)]
pub enum AttrMeta {
    /// `#[name]`
    Path,
    /// `#[name(...)]`
    List,
    /// `#[name = ...]`
    NameValue,
}

/// One path segment: its identifier and whether generic arguments follow it.
pub struct Segment {
    pub ident: String,
    pub has_args: bool,
}

/// A path such as `std::result::Result`.
pub struct Path {
    pub leading_colon: bool,
    pub segments: Vec<Segment>,
    pub handle: u64,
}

/// An argument of `#[auto_enum(...)]`.
pub enum ArgItem {
    /// `marker = ident`
    Marker { ident: String, handle: u64 },
    /// A trait path.
    Trait(Path),
}

/// The arguments of an `#[auto_enum(...)]` attribute as far as they could be
/// read: the items before the first syntax error, and the handle of that
/// error, if any.
pub struct RawArgs {
    pub items: Vec<ArgItem>,
    pub error: Option<u64>,
}

/// An attribute on an expression, statement or match arm.
pub struct Attribute {
    /// The name, where the attribute's path is a single plain identifier.
    pub ident: Option<String>,
    pub meta: AttrMeta,
    /// For an `auto_enum` attribute of the `#[auto_enum(...)]` form: its
    /// arguments as read (no items for the other forms and attributes).
    pub args: RawArgs,
    /// For an `auto_enum` attribute: the text of the node it stands on,
    /// without this attribute.
    pub target_text: String,
    pub handle: u64,
}

/// A list of attributes.
pub enum Attrs {
    Nil,
    Cons(Box<Attribute>, Box<Attrs>),
}

/// A macro invocation.
pub struct Macro {
    pub path: Path,
    /// Where the path is a single identifier: the macro's tokens read as an
    /// expression, or the handle of the error that reading them gave.
    pub body: Option<Result<Box<Expr>, u64>>,
    pub handle: u64,
}

/// A block of statements.
pub struct Block {
    pub stmts: Stmts,
    pub handle: u64,
}

/// A `let` statement.
pub struct Local {
    pub attrs: Attrs,
    /// The initializer.
    pub init: Option<Box<Expr>>,
    /// The `else` block of a `let ... else`.
    pub diverge: Option<Box<Expr>>,
    pub handle: u64,
}

/// The enum that an `#[auto_enum]` attribute generates: named `__Enum<id>`,
/// with variants `__Variant0` .. `__Variant<n-1>`, each holding a value of
/// the type parameter of the same name, and the given traits to implement.
pub struct EnumDecl {
    pub id: u64,
    pub variants: usize,
    pub traits: Paths,
}

/// A list of paths.
pub enum Paths {
    Nil,
    Cons(Box<Path>, Box<Paths>),
}

/// A statement.
pub enum Stmt {
    Local(Local),
    /// A nested item; the rules do not look inside it.
    Item(u64),
    /// An expression, and whether a semicolon follows it.
    Expr(Expr, bool),
    /// A macro in statement position, with its attributes.
    Macro(Attrs, Macro),
    /// The generated enum.
    Enum(EnumDecl),
}

/// A list of statements.
pub enum Stmts {
    Nil,
    Cons(Box<Stmt>, Box<Stmts>),
}

/// A match arm.
pub struct Arm {
    pub attrs: Attrs,
    pub guard: Option<Box<Expr>>,
    pub body: Box<Expr>,
    /// Whether a comma follows the arm.
    pub comma: bool,
    pub handle: u64,
}

/// A list of match arms.
pub enum Arms {
    Nil,
    Cons(Box<Arm>, Box<Arms>),
}

/// A direct part of an expression that the rules do not read otherwise.
pub enum Part {
    Expr(Expr),
    Block(Block),
}

/// A list of parts.
pub enum Parts {
    Nil,
    Cons(Box<Part>, Box<Parts>),
}

/// A list of expressions.
pub enum Exprs {
    Nil,
    Cons(Box<Expr>, Box<Exprs>),
}

/// An expression with its attributes.
pub struct Expr {
    pub attrs: Attrs,
    pub kind: ExprKind,
    pub handle: u64,
}

/// The kinds of expression that the rules tell apart.
pub enum ExprKind {
    Block(Block),
    Unsafe(Block),
    Async(Block),
    TryBlock(Block),
    Match(Box<Expr>, Arms),
    /// The condition, the `then` block, and the `else` branch.
    If(Box<Expr>, Block, Option<Box<Expr>>),
    /// The label, and the body.
    Loop(Option<String>, Block),
    /// The label, the iterated expression, and the body.
    ForLoop(Option<String>, Box<Expr>, Block),
    /// The label, the condition, and the body.
    While(Option<String>, Box<Expr>, Block),
    /// The closure's body.
    Closure(Box<Expr>),
    /// The receiver, and the arguments.
    MethodCall(Box<Expr>, Exprs),
    Paren(Box<Expr>),
    /// The label, and the value.
    Break(Option<String>, Option<Box<Expr>>),
    Continue,
    Return(Option<Box<Expr>>),
    Macro(Macro),
    /// `<expr>?`
    Try(Box<Expr>),
    /// A path without a qualified self type.
    Path(Path),
    /// The function, and the arguments.
    Call(Box<Expr>, Exprs),
    /// Any other expression, with its direct sub-expressions and blocks in
    /// source order.
    Other(Parts),
    /// `()`
    Unit,
    /// `__EnumN::__VariantI(<expr>)`: the value wrapped in variant `I` of the
    /// enum numbered `N`.
    Variant(u64, usize, Box<Expr>),
    /// `match <expr> { Ok(val) => <ok>, Err(err) => { return <ret>; } }`, the
    /// rewriting of `<expr>?`: the scrutinee, the body of the `Ok` arm, and
    /// the value returned in the `Err` arm.
    TryMatch(Box<Expr>, Box<Expr>, Box<Expr>),
    /// The binding `val` of a rewritten `?`.
    GenVal,
    /// The binding `err` of a rewritten `?`.
    GenErr,
    /// `::core::result::Result::Err(<expr>)`
    ErrCall(Box<Expr>),
    /// A placeholder where reading a marker macro failed.
    Invalid,
    /// `{ <enum>; <expr> }`: the generated enum followed by the expression.
    WithEnum(EnumDecl, Box<Expr>),
}

/// A function item: its return type and its body.
pub struct ItemFn {
    pub output: ReturnType,
    pub block: Block,
    pub handle: u64,
}

/// The return type of a function, as far as the rules read it.
pub enum ReturnType {
    /// No return type, or one the rules do not look at.
    Other,
    /// `impl Trait`
    ImplTrait,
    /// A path type without a qualified self: the path, and, where its last
    /// segment has angle-bracketed arguments (without a leading `::`), the
    /// kinds of those arguments.
    Path(Path, Option<Vec<GenericArg>>),
}

/// A generic argument of a path type.
#[derive(Clone, Copy, Debug, PartialEq, Eq, Structural)]
pub enum GenericArg {
    /// A type that is `impl Trait`.
    ImplTraitType,
    /// Another type.
    Type,
    /// Not a type (a lifetime, constant, binding or constraint).
    NotType,
}

/// The attributes of a statement; a nested item has none.
pub open spec fn stmt_attrs(s: Stmt) -> Attrs {
    match s {
        Stmt::Local(l) => l.attrs,
        Stmt::Expr(e, _) => e.attrs,
        Stmt::Macro(attrs, _) => attrs,
        _ => Attrs::Nil,
    }
}

/// Whether some attribute of the statement is named `name`.
pub fn any_stmt_attr(s: &Stmt, name: &str) -> (r: bool)
    ensures
        r == has_attr(stmt_attrs(*s), name@),
{
    match s {
        Stmt::Local(l) => any_attr(&l.attrs, name),
        Stmt::Expr(e, _) => any_attr(&e.attrs, name),
        Stmt::Macro(attrs, _) => any_attr(attrs, name),
        _ => false,
    }
}

/// Whether the attribute's path is the single identifier `name`.
pub open spec fn attr_is(a: Attribute, name: Seq<char>) -> bool {
    match a.ident {
        Some(s) => name_matches(s@, name),
        None => false,
    }
}

/// Whether an attribute named `ident` answers to `name`: its own name, and
/// `rec`, the older name of `nested`, for `nested`.
pub open spec fn name_matches(ident: Seq<char>, name: Seq<char>) -> bool {
    ident == name || (name == "nested"@ && ident == "rec"@)
}

/// Whether an attribute named `ident` answers to `name`.
pub fn ident_matches(ident: &str, name: &str) -> (r: bool)
    ensures
        r == name_matches(ident@, name@),
{
    str_eq(ident, name) || (str_eq(name, "nested") && str_eq(ident, "rec"))
}

/// Whether some attribute is named `name`.
pub open spec fn has_attr(l: Attrs, name: Seq<char>) -> bool
    decreases l,
{
    match l {
        Attrs::Nil => false,
        Attrs::Cons(a, t) => attr_is(*a, name) || has_attr(*t, name),
    }
}

/// Whether some attribute is named `name` and has no arguments.
pub open spec fn has_empty_attr(l: Attrs, name: Seq<char>) -> bool
    decreases l,
{
    match l {
        Attrs::Nil => false,
        Attrs::Cons(a, t) => (attr_is(*a, name) && a.meta == AttrMeta::Path) || has_empty_attr(*t, name),
    }
}

/// The list without its first attribute named `name`, and that attribute.
pub open spec fn remove_attr(l: Attrs, name: Seq<char>) -> (Attrs, Option<Attribute>)
    decreases l,
{
    match l {
        Attrs::Nil => (Attrs::Nil, None),
        Attrs::Cons(a, t) => if attr_is(*a, name) {
            (*t, Some(*a))
        } else {
            let (t2, r) = remove_attr(*t, name);
            (Attrs::Cons(a, Box::new(t2)), r)
        },
    }
}

/// Whether the path is the single plain identifier `name`.
pub open spec fn path_is_ident(p: Path, name: Seq<char>) -> bool {
    &&& !p.leading_colon
    &&& p.segments@.len() == 1
    &&& !p.segments@[0].has_args
    &&& p.segments@[0].ident@ == name
}

/// The identifiers of a path's segments.
pub open spec fn path_idents(p: Path) -> Seq<Seq<char>> {
    p.segments@.map_values(|s: Segment| s.ident@)
}

/// Whether `path` is `expected`'s last name alone, or `expected` behind one of
/// the crate names `crates`.
pub open spec fn path_matches(p: Path, crates: Seq<Seq<char>>, expected: Seq<Seq<char>>) -> bool {
    let ids = path_idents(p);
    ||| ids.len() == 1 && ids[0] == expected.last()
    ||| ids.len() == expected.len() + 1 && crates.contains(ids[0]) && forall|i: int|
        1 <= i < ids.len() ==> #[trigger] ids[i] == expected[i - 1]
}

/// Whether some attribute is named `name`.
pub fn any_attr(l: &Attrs, name: &str) -> (r: bool)
    ensures
        r == has_attr(*l, name@),
    decreases l,
{
    match l {
        Attrs::Nil => false,
        Attrs::Cons(a, t) => {
            let here = match &a.ident {
                Some(s) => ident_matches(s.as_str(), name),
                None => false,
            };
            here || any_attr(t, name)
        },
    }
}

/// Whether some attribute is named `name` and has no arguments.
pub fn any_empty_attr(l: &Attrs, name: &str) -> (r: bool)
    ensures
        r == has_empty_attr(*l, name@),
    decreases l,
{
    match l {
        Attrs::Nil => false,
        Attrs::Cons(a, t) => {
            let here = match &a.ident {
                Some(s) => ident_matches(s.as_str(), name) && a.meta == AttrMeta::Path,
                None => false,
            };
            here || any_empty_attr(t, name)
        },
    }
}

/// Removes the first attribute named `name`, and returns it.
pub fn find_remove_attr(l: Attrs, name: &str) -> (r: (Attrs, Option<Attribute>))
    ensures
        r == remove_attr(l, name@),
    decreases l,
{
    match l {
        Attrs::Nil => (Attrs::Nil, None),
        Attrs::Cons(a, t) => {
            let here = match &a.ident {
                Some(s) => ident_matches(s.as_str(), name),
                None => false,
            };
            if here {
                (*t, Some(*a))
            } else {
                let (t2, r) = find_remove_attr(*t, name);
                (Attrs::Cons(a, Box::new(t2)), r)
            }
        },
    }
}

/// Whether the path is the single plain identifier `name`.
pub fn is_ident(p: &Path, name: &str) -> (r: bool)
    ensures
        r == path_is_ident(*p, name@),
{
    !p.leading_colon && p.segments.len() == 1 && !p.segments[0].has_args && str_eq(
        p.segments[0].ident.as_str(),
        name,
    )
}

/// Whether `path` is `expected`'s last name alone, or `expected` behind one of
/// `crates` (`Result`, `std::result::Result` and `core::result::Result`).
pub fn path_eq(p: &Path, crates: &Vec<&str>, expected: &Vec<&str>) -> (r: bool)
    requires
        expected@.len() >= 1,
    ensures
        r == path_matches(*p, crates@.map_values(|c: &str| c@), expected@.map_values(|c: &str| c@)),
{
    let ghost ids = path_idents(*p);
    let ghost cs = crates@.map_values(|c: &str| c@);
    let ghost ex = expected@.map_values(|c: &str| c@);
    let n = p.segments.len();
    if n == 1 && str_eq(p.segments[0].ident.as_str(), expected[expected.len() - 1]) {
        return true;
    }
    if n >= 1 && n - 1 == expected.len() {
        let mut found = false;
        let mut k: usize = 0;
        while k < crates.len()
            invariant
                n == p.segments@.len(),
                n >= 1,
                k <= crates.len(),
                cs == crates@.map_values(|c: &str| c@),
                ids == path_idents(*p),
                found == exists|t: int| 0 <= t < k && cs[t] == ids[0],
            decreases crates.len() - k,
        {
            if str_eq(p.segments[0].ident.as_str(), crates[k]) {
                assert(cs[k as int] == ids[0]);
                found = true;
            }
            k = k + 1;
        }
        if !found {
            assert(!cs.contains(ids[0]));
            return false;
        }
        let mut i: usize = 1;
        while i < n
            invariant
                n == p.segments@.len(),
                n == expected@.len() + 1,
                1 <= i <= n,
                ids == path_idents(*p),
                ex == expected@.map_values(|c: &str| c@),
                forall|t: int| 1 <= t < i ==> #[trigger] ids[t] == ex[t - 1],
            decreases n - i,
        {
            if !str_eq(p.segments[i].ident.as_str(), expected[i - 1]) {
                assert(ids[i as int] != ex[i - 1]);
                return false;
            }
            i = i + 1;
        }
        return true;
    }
    false
}

} // verus!
