//! The state of one `#[auto_enum]` attribute while its statement or
//! expression is rewritten: the variants created so far, the marker names in
//! scope, and the errors found.

use vstd::prelude::*;

use crate::ast::{is_ident, path_is_ident, ArgItem, Attrs, EnumDecl, Expr, ExprKind, Macro, Path, Paths, RawArgs};
use crate::text::str_eq;
use std::collections::hash_map::DefaultHasher;
use std::hash::Hasher;
use vstd::std_specs::hash::DefaultHasherAdditionalSpecFns;

verus! {

/// Which expressions `Visitor` rewrites besides marker macros.
#[derive(Clone, Copy, Debug, PartialEq, Eq, Structural)]
pub enum VisitMode {
    Default,
    /// `return` expressions, of which there are the given number.
    Return(usize),
    /// `?` operators.
    Try,
}

/// Where a visitor stands: inside a closure, inside a `try` block, inside the
/// expression of another `#[auto_enum]` attribute.
#[derive(Clone, Copy, Debug, PartialEq, Eq, Structural)]
pub struct Scope {
    pub closure: bool,
    pub try_block: bool,
    pub foreign: bool,
}

/// The scope inside the expression `e`: a closure or a `try` block opens one.
pub open spec fn scope_in(sc: Scope, e: Expr) -> Scope {
    match e.kind {
        ExprKind::Closure(_) => Scope { closure: true, ..sc },
        ExprKind::TryBlock(_) => Scope { try_block: true, ..sc },
        _ => sc,
    }
}

/// The scope inside the expression `e`.
pub fn check_expr(sc: Scope, e: &Expr) -> (r: Scope)
    ensures
        r == scope_in(sc, *e),
{
    match &e.kind {
        ExprKind::Closure(_) => Scope { closure: true, ..sc },
        ExprKind::TryBlock(_) => Scope { try_block: true, ..sc },
        _ => sc,
    }
}

/// Whether the last expression is rewritten.
#[derive(Clone, Copy, Debug, PartialEq, Eq, Structural)]
pub enum VisitLastMode {
    Default,
    /// The statement ends with a semicolon: only marker macros count.
    Never,
}

/// What went wrong.
#[derive(Clone, Copy, Debug, PartialEq, Eq, Structural)]
pub enum ErrorKind {
    /// An error that reading the syntax gave; the handle names it.
    Syntax(u64),
    /// The attribute may not have arguments.
    PathOnlyRequired,
    /// The attribute needs arguments in parentheses.
    ListRequired,
    /// `expected list`
    ExpectedList,
    /// `duplicate `marker` argument`
    DuplicateMarker,
    /// A custom marker name that a parent scope already uses.
    MarkerInUse,
    /// The attribute is on an item other than a function.
    UnsupportedItem,
    /// The attribute is on a `let` without initializer.
    UninitializedLet,
    /// The attribute is on a function with an empty body.
    EmptyFunction,
    /// An `if` without `else` in a position that is rewritten.
    IfWithoutElse,
    /// Fewer than two variants: whether only marker macros counted
    /// (a statement with a semicolon), and whether there was none at all.
    TooFewBranches { markers_only: bool, none: bool },
}

/// An error, and the handle of the node it is reported at.
#[derive(Clone, Copy, Debug, PartialEq, Eq, Structural)]
pub struct Error {
    pub kind: ErrorKind,
    pub at: u64,
}

/// The default name of the marker macro.
pub open spec fn default_marker() -> Seq<char> {
    "marker"@
}

/// The number that names the enum of the attribute whose input has the text
/// `text`: what the standard library's `DefaultHasher` gives after one write
/// of the text's UTF-8 bytes.
pub open spec fn input_hash(text: Seq<char>) -> u64 {
    <DefaultHasher as DefaultHasherAdditionalSpecFns>::spec_finish(seq![vstd::utf8::encode_utf8(text)])
}

/// Hashes the bytes of `text` with a new `DefaultHasher`.
fn text_hash(text: &str) -> (r: u64)
    ensures
        r == input_hash(text@),
{
    let mut h = DefaultHasher::new();
    let bytes = text.as_bytes();
    h.write(bytes);
    assert(h@ =~= seq![vstd::utf8::encode_utf8(text@)]);
    h.finish()
}

/// The arguments of an `#[auto_enum]` attribute: the trait paths, and the
/// marker name with its handle.
pub struct Args {
    pub traits: Vec<Path>,
    pub marker: Option<(String, u64)>,
}

/// The trait paths among the argument items, in order.
pub open spec fn trait_items(items: Seq<ArgItem>) -> Seq<Path>
    decreases items.len(),
{
    if items.len() == 0 {
        seq![]
    } else {
        let p = trait_items(items.drop_last());
        match items.last() {
            ArgItem::Trait(t) => p.push(t),
            _ => p,
        }
    }
}

/// The `marker = ...` items among the argument items, in order.
pub open spec fn marker_items(items: Seq<ArgItem>) -> Seq<(String, u64)>
    decreases items.len(),
{
    if items.len() == 0 {
        seq![]
    } else {
        let p = marker_items(items.drop_last());
        match items.last() {
            ArgItem::Marker { ident, handle } => p.push((ident, handle)),
            _ => p,
        }
    }
}

/// What reading the arguments gives: a second `marker = ...` is an error at
/// it; otherwise a syntax error after the items is the error; otherwise the
/// trait paths in order and the marker name, if one was given.
pub open spec fn args_result_ok(items: Seq<ArgItem>, error: Option<u64>, a: Args) -> bool {
    &&& marker_items(items).len() <= 1
    &&& error is None
    &&& a.traits@ == trait_items(items)
    &&& a.marker == (if marker_items(items).len() == 1 {
        Some(marker_items(items)[0])
    } else {
        None
    })
}

/// The error that reading the arguments gives, if any.
pub open spec fn args_error(items: Seq<ArgItem>, error: Option<u64>) -> Option<Error> {
    if marker_items(items).len() >= 2 {
        Some(Error { kind: ErrorKind::DuplicateMarker, at: marker_items(items)[1].1 })
    } else {
        match error {
            Some(h) => Some(Error { kind: ErrorKind::Syntax(h), at: h }),
            None => None,
        }
    }
}

/// Reads the items of an attribute's arguments.
pub fn collect_args(raw: RawArgs) -> (r: Result<Args, Error>)
    ensures
        match r {
            Ok(a) => args_error(raw.items@, raw.error) is None && args_result_ok(raw.items@, raw.error, a),
            Err(e) => args_error(raw.items@, raw.error) == Some(e),
        },
{
    let ghost raw0 = raw;
    let RawArgs { items, error } = raw;
    let ghost all = items@;
    let mut traits: Vec<Path> = Vec::new();
    let mut marker: Option<(String, u64)> = None;
    let mut rest = items;
    let mut i: usize = 0;
    let n = rest.len();
    assert(all.skip(0) =~= all);
    assert(all.take(0) =~= Seq::<ArgItem>::empty());
    while i < n
        invariant
            n == all.len(),
            raw0 == raw,
            raw0.items@ == all,
            i <= n,
            rest@ == all.skip(i as int),
            traits@ == trait_items(all.take(i as int)),
            marker_items(all.take(i as int)).len() <= 1,
            marker == (if marker_items(all.take(i as int)).len() == 1 {
                Some(marker_items(all.take(i as int))[0])
            } else {
                None
            }),
        decreases n - i,
    {
        assert(all.take(i + 1).drop_last() =~= all.take(i as int));
        assert(all.take(i + 1).last() == all[i as int]);
        assert(rest@[0] == all[i as int]);
        let item = rest.remove(0);
        assert(rest@ =~= all.skip(i + 1));
        match item {
            ArgItem::Trait(t) => {
                traits.push(t);
            },
            ArgItem::Marker { ident, handle } => {
                if marker.is_some() {
                    proof {
                        let m = marker_items(all.take(i + 1));
                        assert(m.len() == 2);
                        lemma_marker_items_prefix(all, i + 1, n as int);
                        assert(all.take(n as int) =~= all);
                        assert(marker_items(all).len() >= 2);
                        assert(marker_items(all)[1] == m[1]);
                        assert(m[1] == (ident, handle));
                        assert(raw0.items@ == all);
                        assert(args_error(raw0.items@, raw0.error) == Some(Error { kind: ErrorKind::DuplicateMarker, at: handle }));
                    }
                    return Err(Error { kind: ErrorKind::DuplicateMarker, at: handle });
                }
                marker = Some((ident, handle));
            },
        }
        i = i + 1;
    }
    assert(all.take(n as int) =~= all);
    match error {
        Some(h) => Err(Error { kind: ErrorKind::Syntax(h), at: h }),
        None => Ok(Args { traits, marker }),
    }
}

proof fn lemma_marker_items_prefix(all: Seq<ArgItem>, i: int, k: int)
    requires
        0 <= i <= k <= all.len(),
    ensures
        marker_items(all.take(i)).len() <= marker_items(all.take(k)).len(),
        forall|j: int| 0 <= j < marker_items(all.take(i)).len() ==> #[trigger] marker_items(all.take(k))[j] == marker_items(all.take(i))[j],
    decreases k - i,
{
    if i < k {
        lemma_marker_items_prefix(all, i, k - 1);
        assert(all.take(k).drop_last() =~= all.take(k - 1));
    }
}


/// The marker macros that have effect in a scope, as plain values.
#[verifier::ext_equal]
pub struct MarkerView {
    /// The name of the marker macro of this scope.
    pub current: Seq<char>,
    /// The marker names that may have effect in this scope.
    pub markers: Seq<Seq<char>>,
    /// Whether this is the outermost attribute.
    pub root: bool,
}

/// The marker macros that have effect in a scope.
pub struct MarkerScope {
    pub current_marker: String,
    pub markers: Vec<String>,
    pub root: bool,
}

/// The texts of a list of strings.
pub open spec fn strings_view(v: Seq<String>) -> Seq<Seq<char>> {
    v.map_values(|s: String| s@)
}

impl View for MarkerScope {
    type V = MarkerView;

    open spec fn view(&self) -> MarkerView {
        MarkerView { current: self.current_marker@, markers: strings_view(self.markers@), root: self.root }
    }
}

/// Whether the macro is a marker macro that may have effect in the scope
/// `s`: the marker of this scope, or, below the outermost attribute, one of
/// the markers of the enclosing ones.
pub open spec fn marker_macro(s: MarkerView, mac: Macro) -> bool {
    ||| path_is_ident(mac.path, s.current)
    ||| !s.root && exists|j: int| 0 <= j < s.markers.len() && path_is_ident(mac.path, #[trigger] s.markers[j])
}

/// Whether the expression is a marker macro that may have effect in the
/// scope `s`.
pub open spec fn marker_expr(s: MarkerView, e: Expr) -> bool {
    match e.kind {
        ExprKind::Macro(m) => marker_macro(s, m),
        _ => false,
    }
}

impl MarkerScope {
    /// Whether the macro is the marker macro of this scope.
    pub fn is_marker_macro_exact(&self, mac: &Macro) -> (r: bool)
        ensures
            r == path_is_ident(mac.path, self@.current),
    {
        is_ident(&mac.path, self.current_marker.as_str())
    }

    /// Whether the macro is a marker macro that may have effect here.
    pub fn is_marker_macro(&self, mac: &Macro) -> (r: bool)
        ensures
            r == marker_macro(self@, *mac),
    {
        let exact = self.is_marker_macro_exact(mac);
        if exact || self.root {
            return exact;
        }
        let mut i: usize = 0;
        while i < self.markers.len()
            invariant
                i <= self.markers@.len(),
                !self.root,
                !path_is_ident(mac.path, self@.current),
                forall|j: int| 0 <= j < i ==> !path_is_ident(mac.path, #[trigger] self@.markers[j]),
            decreases self.markers@.len() - i,
        {
            if is_ident(&mac.path, self.markers[i].as_str()) {
                assert(path_is_ident(mac.path, self@.markers[i as int]));
                return true;
            }
            i = i + 1;
        }
        false
    }

    /// Whether the expression is a marker macro that may have effect here.
    pub fn is_marker_expr(&self, e: &Expr) -> (r: bool)
        ensures
            r == marker_expr(self@, *e),
    {
        match &e.kind {
            ExprKind::Macro(m) => self.is_marker_macro(m),
            _ => false,
        }
    }
}

/// The state of one `#[auto_enum]` attribute, as plain values.
#[verifier::ext_equal]
pub struct St {
    /// The number of variants made so far.
    pub variants: nat,
    /// The errors found so far, in order.
    pub errors: Seq<Error>,
    pub scope: MarkerView,
    /// Whether another `#[auto_enum]` attribute was found inside.
    pub has_child: bool,
    pub visit_mode: VisitMode,
    pub visit_last_mode: VisitLastMode,
    /// The handle of the statement or expression the attribute is on.
    pub span: u64,
    /// The number in the name of the generated enum.
    pub enum_id: u64,
    /// The traits to implement.
    pub args: Seq<Path>,
}

/// The state of one `#[auto_enum]` attribute.
pub struct Context {
    pub enum_id: u64,
    /// The variants made so far; the `i`-th is `__Variant<i>`.
    pub variants: Vec<usize>,
    pub scope: MarkerScope,
    pub has_child: bool,
    pub visit_mode: VisitMode,
    pub visit_last_mode: VisitLastMode,
    pub span: u64,
    pub errors: Vec<Error>,
    pub args: Vec<Path>,
}

impl View for Context {
    type V = St;

    open spec fn view(&self) -> St {
        St {
            variants: self.variants@.len(),
            errors: self.errors@,
            scope: self.scope@,
            has_child: self.has_child,
            visit_mode: self.visit_mode,
            visit_last_mode: self.visit_last_mode,
            span: self.span,
            enum_id: self.enum_id,
            args: self.args@,
        }
    }
}

/// The state of a new attribute with arguments `raw` on the input with the
/// text `text` and handle `span`, below scopes with the marker names
/// `markers`, after the errors `errors`: an error in the arguments, a custom
/// marker name that an enclosing scope already uses, or the state with no
/// variants, the given marker name (or `marker`) added to the marker names,
/// and the trait arguments.
pub open spec fn new_st(
    text: Seq<char>,
    span: u64,
    items: Seq<ArgItem>,
    error: Option<u64>,
    root: bool,
    markers: Seq<Seq<char>>,
    errors: Seq<Error>,
) -> Result<St, Error> {
    match args_error(items, error) {
        Some(e) => Err(e),
        None => {
            let m = marker_items(items);
            if m.len() == 1 && markers.contains(m[0].0@) {
                Err(Error { kind: ErrorKind::MarkerInUse, at: m[0].1 })
            } else {
                let cur = if m.len() == 1 { m[0].0@ } else { default_marker() };
                Ok(St {
                    variants: 0,
                    errors,
                    scope: MarkerView { current: cur, markers: markers.push(cur), root },
                    has_child: false,
                    visit_mode: VisitMode::Default,
                    visit_last_mode: VisitLastMode::Default,
                    span,
                    enum_id: input_hash(text),
                    args: trait_items(items),
                })
            }
        },
    }
}

/// The state of a scope while an attribute inside it is handled: its marker
/// names and its errors have moved to the inner attribute.
pub open spec fn lent_st(st: St) -> St {
    St { errors: seq![], scope: MarkerView { markers: seq![], ..st.scope }, ..st }
}

/// The state of a scope after the attribute inside it, in state `child`, is
/// done: the marker names come back without the inner one, and the inner
/// errors follow those of the scope.
pub open spec fn join_st(st: St, child: St) -> St {
    St {
        errors: st.errors + child.errors,
        scope: MarkerView {
            markers: if child.scope.markers.len() > 0 {
                child.scope.markers.drop_last()
            } else {
                child.scope.markers
            },
            ..st.scope
        },
        ..st
    }
}

/// The state after another `#[auto_enum]` attribute was found inside, where
/// `yes` holds.
pub open spec fn with_child(st: St, yes: bool) -> St {
    if yes { St { has_child: true, ..st } } else { st }
}

/// What a walk keeps of its context: the mode, the span, the enum's number
/// and traits stay, the variant count and the child flag only grow, an error
/// found stays found, and the marker scope stays unless an error was found.
pub open spec fn keeps(a: St, b: St) -> bool {
    &&& b.visit_mode == a.visit_mode
    &&& b.visit_last_mode == a.visit_last_mode
    &&& b.span == a.span
    &&& b.enum_id == a.enum_id
    &&& b.args == a.args
    &&& b.variants >= a.variants
    &&& (a.has_child ==> b.has_child)
    &&& (a.errors.len() > 0 ==> b.errors.len() > 0)
    &&& (b.scope == a.scope || b.errors.len() > 0)
}

/// What an expansion in a context keeps of it: the variant count only grows,
/// an error found stays found, and the marker scope stays unless an error was
/// found.
pub open spec fn keeps_scope(a: St, b: St) -> bool {
    &&& b.variants >= a.variants
    &&& (a.errors.len() > 0 ==> b.errors.len() > 0)
    &&& (b.scope == a.scope || b.errors.len() > 0)
}

/// The errors of `a` are the first errors of `b`.
pub open spec fn errs_kept(a: St, b: St) -> bool {
    &&& a.errors.len() <= b.errors.len()
    &&& forall|i: int| 0 <= i < a.errors.len() ==> #[trigger] b.errors[i] == a.errors[i]
}

/// Handing the marker names to an attribute inside and taking them back
/// undoes itself: where the inner attribute's marker names are those of the
/// scope and one more, and both walks kept their scopes, joining gives the
/// scope back, with everything else that the walk of the scope kept.
pub proof fn lemma_join_keeps(st: St, st1: St, c: St, c2: St)
    requires
        keeps(lent_st(st), st1),
        c.scope.markers.len() > 0,
        c.scope.markers.drop_last() == st.scope.markers,
        c.errors == st.errors,
        keeps_scope(c, c2),
    ensures
        keeps(st, join_st(st1, c2)),
{
    let j = join_st(st1, c2);
    if j.errors.len() == 0 {
        assert(st1.errors.len() == 0);
        assert(c2.errors.len() == 0);
        assert(j.scope =~= st.scope);
    }
}

/// Whether an error was found.
pub open spec fn has_err(st: St) -> bool {
    st.errors.len() > 0
}

/// The state after the error `e`.
pub open spec fn err_st(st: St, e: Error) -> St {
    St { errors: st.errors.push(e), ..st }
}

/// `e` wrapped in variant `n`, with the attributes `attrs`.
pub open spec fn wrap(id: u64, n: nat, attrs: Attrs, e: Expr) -> Expr {
    Expr { attrs, kind: ExprKind::Variant(id, n as usize, Box::new(e)), handle: 0 }
}

/// `()`.
pub open spec fn unit() -> Expr {
    Expr { attrs: Attrs::Nil, kind: ExprKind::Unit, handle: 0 }
}

/// The state after a variant is made.
pub open spec fn next_st(st: St) -> St {
    St { variants: st.variants + 1, ..st }
}

/// The value of `return` or `break` after wrapping: a missing value is `()`,
/// and a marker macro is left as it is.
pub open spec fn boxed(st: St, e: Option<Box<Expr>>) -> (St, Expr) {
    match e {
        Some(b) => if marker_expr(st.scope, *b) {
            (st, *b)
        } else {
            (next_st(st), wrap(st.enum_id, st.variants, Attrs::Nil, *b))
        },
        None => (next_st(st), wrap(st.enum_id, st.variants, Attrs::Nil, unit())),
    }
}

/// A list of the given paths.
pub open spec fn paths_of(v: Seq<Path>) -> Paths
    decreases v.len(),
{
    if v.len() == 0 {
        Paths::Nil
    } else {
        Paths::Cons(Box::new(v[0]), Box::new(paths_of(v.drop_first())))
    }
}

/// The enum to generate, if there are at least two variants and no error;
/// with fewer variants an error, unless there are none and another
/// `#[auto_enum]` attribute was found inside.
pub open spec fn build_st(st: St) -> (St, Option<EnumDecl>) {
    if st.errors.len() > 0 {
        (st, None)
    } else if st.variants >= 2 {
        (St { args: seq![], ..st }, Some(EnumDecl { id: st.enum_id, variants: st.variants as usize, traits: paths_of(st.args) }))
    } else if st.variants == 0 && st.has_child {
        (st, None)
    } else {
        (err_st(st, Error {
            kind: ErrorKind::TooFewBranches {
                markers_only: st.visit_last_mode == VisitLastMode::Never,
                none: st.variants == 0,
            },
            at: st.span,
        }), None)
    }
}

/// Whether `m` is among `markers`.
fn contains_marker(markers: &Vec<String>, m: &str) -> (r: bool)
    ensures
        r == strings_view(markers@).contains(m@),
{
    let mut i: usize = 0;
    while i < markers.len()
        invariant
            i <= markers.len(),
            forall|j: int| 0 <= j < i ==> markers@[j]@ != m@,
        decreases markers.len() - i,
    {
        if str_eq(markers[i].as_str(), m) {
            assert(strings_view(markers@)[i as int] == m@);
            return true;
        }
        i = i + 1;
    }
    assert(!strings_view(markers@).contains(m@)) by {
        if strings_view(markers@).contains(m@) {
            let j = choose|j: int| 0 <= j < strings_view(markers@).len() && strings_view(markers@)[j] == m@;
            assert(markers@[j]@ == m@);
        }
    }
    false
}

/// Moves the paths of `v` into a list.
fn paths_list(v: Vec<Path>) -> (r: Paths)
    ensures
        r == paths_of(v@),
{
    let ghost all = v@;
    let mut v = v;
    let mut acc = Paths::Nil;
    assert(all.skip(all.len() as int) =~= Seq::<Path>::empty());
    while v.len() > 0
        invariant
            v@ == all.take(v@.len() as int),
            v@.len() <= all.len(),
            acc == paths_of(all.skip(v@.len() as int)),
        decreases v@.len(),
    {
        let ghost k = v@.len();
        let p = v.pop().unwrap();
        assert(all.skip(k - 1).drop_first() =~= all.skip(k as int));
        assert(all.skip(k - 1)[0] == p);
        acc = Paths::Cons(Box::new(p), Box::new(acc));
        assert(v@ =~= all.take(v@.len() as int));
    }
    assert(all.skip(0) =~= all);
    acc
}

impl Context {
    /// Every variant is named by its position.
    pub open spec fn wf(&self) -> bool {
        forall|i: int| 0 <= i < self.variants@.len() ==> #[trigger] self.variants@[i] == i
    }

    /// A context for the attribute with arguments `raw` on the input with the
    /// text `text` and handle `span`.
    pub fn new(
        text: &str,
        span: u64,
        raw: RawArgs,
        root: bool,
        markers: Vec<String>,
        errors: Vec<Error>,
    ) -> (r: Result<Context, Error>)
        ensures
            match r {
                Ok(cx) => new_st(text@, span, raw.items@, raw.error, root, strings_view(markers@), errors@) == Ok::<St, Error>(cx@) && cx.wf(),
                Err(e) => new_st(text@, span, raw.items@, raw.error, root, strings_view(markers@), errors@) == Err::<St, Error>(e),
            },
    {
        let ghost raw0 = raw;
        let a = match collect_args(raw) {
            Ok(a) => a,
            Err(e) => return Err(e),
        };
        let Args { traits, marker } = a;
        let current_marker = match marker {
            Some((m, h)) => {
                if contains_marker(&markers, m.as_str()) {
                    return Err(Error { kind: ErrorKind::MarkerInUse, at: h });
                }
                m
            },
            None => "marker".to_owned(),
        };
        let ghost m0 = strings_view(markers@);
        let mut markers = markers;
        markers.push(current_marker.clone());
        let cx = Context {
            enum_id: text_hash(text),
            variants: Vec::new(),
            scope: MarkerScope { current_marker, markers, root },
            has_child: false,
            visit_mode: VisitMode::Default,
            visit_last_mode: VisitLastMode::Default,
            span,
            errors,
            args: traits,
        };
        assert(strings_view(cx.scope.markers@) =~= m0.push(cx.scope.current_marker@));
        Ok(cx)
    }

    /// A context for the outermost attribute.
    pub fn root(text: &str, span: u64, raw: RawArgs) -> (r: Result<Context, Error>)
        ensures
            match r {
                Ok(cx) => new_st(text@, span, raw.items@, raw.error, true, seq![], seq![]) == Ok::<St, Error>(cx@) && cx.wf(),
                Err(e) => new_st(text@, span, raw.items@, raw.error, true, seq![], seq![]) == Err::<St, Error>(e),
            },
    {
        let m: Vec<String> = Vec::new();
        let e: Vec<Error> = Vec::new();
        assert(strings_view(m@) =~= Seq::<Seq<char>>::empty());
        Self::new(text, span, raw, true, m, e)
    }

    /// A context for an attribute inside the scope of `self`. The marker names
    /// and the errors found so far move into it, also where it fails.
    pub fn make_child(&mut self, text: &str, span: u64, raw: RawArgs) -> (r: Result<Context, Error>)
        requires
            old(self).wf(),
        ensures
            final(self).wf(),
            final(self)@ == lent_st(old(self)@),
            match r {
                Ok(cx) => new_st(text@, span, raw.items@, raw.error, false, old(self)@.scope.markers, old(self)@.errors) == Ok::<St, Error>(cx@) && cx.wf(),
                Err(e) => new_st(text@, span, raw.items@, raw.error, false, old(self)@.scope.markers, old(self)@.errors) == Err::<St, Error>(e),
            },
    {
        let mut markers: Vec<String> = Vec::new();
        std::mem::swap(&mut markers, &mut self.scope.markers);
        let mut errors: Vec<Error> = Vec::new();
        std::mem::swap(&mut errors, &mut self.errors);
        assert(strings_view(self.scope.markers@) =~= Seq::<Seq<char>>::empty());
        assert(self@ =~= lent_st(old(self)@));
        Self::new(text, span, raw, false, markers, errors)
    }

    /// Ends the scope of `child`: its marker name is dropped, the marker names
    /// come back, and its errors follow those found meanwhile.
    pub fn join_child(&mut self, child: Context)
        requires
            old(self).wf(),
        ensures
            final(self).wf(),
            final(self)@ == join_st(old(self)@, child@),
    {
        let ghost c0 = child@;
        let ghost v0 = child.scope.markers@;
        let mut child = child;
        child.scope.markers.pop();
        assert(child.scope.markers@ == (if v0.len() > 0 { v0.drop_last() } else { v0 }));
        let mut markers: Vec<String> = Vec::new();
        std::mem::swap(&mut markers, &mut child.scope.markers);
        self.scope.markers = markers;
        let ghost e0 = child.errors@;
        self.errors.append(&mut child.errors);
        assert(e0 == c0.errors);
        assert(strings_view(self.scope.markers@) =~= join_st(old(self)@, c0).scope.markers);
        assert(self@ =~= join_st(old(self)@, c0));
    }

    /// Records that another `#[auto_enum]` attribute was found inside, where
    /// `yes` holds.
    pub fn note_child(&mut self, yes: bool)
        requires
            old(self).wf(),
        ensures
            final(self).wf(),
            final(self)@ == with_child(old(self)@, yes),
    {
        if yes {
            self.has_child = true;
        }
    }

    /// Records an error.
    pub fn error(&mut self, e: Error)
        requires
            old(self).wf(),
        ensures
            final(self).wf(),
            final(self)@ == err_st(old(self)@, e),
    {
        self.errors.push(e);
    }

    /// The errors found, if any.
    pub fn check(self) -> (r: Result<(), Vec<Error>>)
        ensures
            match r {
                Ok(()) => self@.errors.len() == 0,
                Err(es) => self@.errors.len() > 0 && es@ == self@.errors,
            },
    {
        if self.errors.len() == 0 {
            Ok(())
        } else {
            Err(self.errors)
        }
    }

    /// Whether an error was found.
    pub fn has_error(&self) -> (r: bool)
        ensures
            r == (self@.errors.len() > 0),
    {
        self.errors.len() > 0
    }

    /// Whether the last expression is rewritten.
    pub fn visit_last(&self) -> (r: bool)
        ensures
            r == visit_last_of(self@),
    {
        self.visit_last_mode != VisitLastMode::Never && self.visit_mode != VisitMode::Try
    }

    /// Whether the attribute has no traits to implement, so that it only
    /// looks for nested attributes.
    pub fn is_dummy(&self) -> (r: bool)
        ensures
            r == (self@.args.len() == 0),
    {
        self.args.len() == 0
    }

    /// Wraps `e` in the next variant, with the attributes `attrs`.
    pub fn next_expr_with_attrs(&mut self, attrs: Attrs, e: Expr) -> (r: Expr)
        requires
            old(self).wf(),
        ensures
            final(self).wf(),
            final(self)@ == next_st(old(self)@),
            r == wrap(old(self)@.enum_id, old(self)@.variants, attrs, e),
    {
        let n = self.variants.len();
        self.variants.push(n);
        Expr { attrs, kind: ExprKind::Variant(self.enum_id, n, Box::new(e)), handle: 0 }
    }

    /// Wraps `e` in the next variant.
    pub fn next_expr(&mut self, e: Expr) -> (r: Expr)
        requires
            old(self).wf(),
        ensures
            final(self).wf(),
            final(self)@ == next_st(old(self)@),
            r == wrap(old(self)@.enum_id, old(self)@.variants, Attrs::Nil, e),
    {
        self.next_expr_with_attrs(Attrs::Nil, e)
    }

    /// The value of `return` or `break` wrapped in the next variant: a missing
    /// value is `()`, and a marker macro is left as it is.
    pub fn replace_boxed_expr(&mut self, e: Option<Box<Expr>>) -> (r: Expr)
        requires
            old(self).wf(),
        ensures
            final(self).wf(),
            (final(self)@, r) == boxed(old(self)@, e),
    {
        match e {
            None => self.next_expr(Expr { attrs: Attrs::Nil, kind: ExprKind::Unit, handle: 0 }),
            Some(b) => {
                if self.scope.is_marker_expr(&b) {
                    *b
                } else {
                    self.next_expr(*b)
                }
            },
        }
    }

    /// The enum to generate, if there are at least two variants and no error;
    /// with fewer variants it records an error, unless there are none and
    /// another `#[auto_enum]` attribute was found inside.
    pub fn build(&mut self) -> (r: Option<EnumDecl>)
        requires
            old(self).wf(),
        ensures
            final(self).wf(),
            (final(self)@, r) == build_st(old(self)@),
    {
        if self.errors.len() > 0 {
            return None;
        }
        let n = self.variants.len();
        if n >= 2 {
            let mut args: Vec<Path> = Vec::new();
            std::mem::swap(&mut args, &mut self.args);
            assert(self@ =~= build_st(old(self)@).0);
            return Some(EnumDecl { id: self.enum_id, variants: n, traits: paths_list(args) });
        }
        if n == 0 && self.has_child {
            return None;
        }
        let e = Error {
            kind: ErrorKind::TooFewBranches {
                markers_only: self.visit_last_mode == VisitLastMode::Never,
                none: n == 0,
            },
            at: self.span,
        };
        self.error(e);
        None
    }
}

/// Whether the last expression is rewritten in the state `st`.
pub open spec fn visit_last_of(st: St) -> bool {
    st.visit_last_mode != VisitLastMode::Never && st.visit_mode != VisitMode::Try
}

} // verus!
