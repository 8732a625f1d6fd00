//! What `#[enum_derive]` does with its arguments: which traits it adds as
//! requirements of others, which it implements itself, which it hands on to
//! `#[derive]`, and whether the enum needs the structural pinning guards.

use vstd::prelude::*;

use crate::derive_table::{derive_for, get_derive, kind_needs_pin, DeriveKind, alias_of, get_alias, get_trait_deps, strs_view, trait_deps, Features};
use crate::text::str_eq;

verus! {

/// One trait that `#[enum_derive]` will handle: its name, and the index of
/// the argument that named it, or `None` where it was added as a requirement
/// of another argument.
pub struct ResolvedArg {
    pub name: String,
    pub arg: Option<usize>,
}

/// The plain value of a resolved trait.
pub open spec fn entry_view(e: ResolvedArg) -> (Seq<char>, Option<usize>) {
    (e.name@, e.arg)
}

/// The plain values of a list of resolved traits.
pub open spec fn entries_view(v: Seq<ResolvedArg>) -> Seq<(Seq<char>, Option<usize>)> {
    v.map_values(|e: ResolvedArg| entry_view(e))
}

/// The texts of a list of strings.
pub open spec fn names_view(args: Seq<String>) -> Seq<Seq<char>> {
    args.map_values(|a: String| a@)
}

/// Whether `names` holds `s`.
pub open spec fn names_contain(v: Seq<(Seq<char>, Option<usize>)>, s: Seq<char>) -> bool {
    exists|j: int| 0 <= j < v.len() && #[trigger] v[j].0 == s
}

/// Whether the other name of `s` is already among the resolved traits `v`.
pub open spec fn has_alias_in(f: Features, s: Seq<char>, v: Seq<(Seq<char>, Option<usize>)>) -> bool {
    match alias_of(f, s) {
        Some(a) => names_contain(v, a),
        None => false,
    }
}

/// Appends to `v` each requirement in `deps` that no argument names and that
/// is not in `v` yet, under its own name or its other name, in order.
pub open spec fn add_deps(
    f: Features,
    args: Seq<Seq<char>>,
    v: Seq<(Seq<char>, Option<usize>)>,
    deps: Seq<Seq<char>>,
) -> Seq<(Seq<char>, Option<usize>)>
    decreases deps.len(),
{
    if deps.len() == 0 {
        v
    } else {
        let d = deps[0];
        let v1 = if !args.contains(d) && !names_contain(v, d) && !has_alias_in(f, d, v) {
            v.push((d, None))
        } else {
            v
        };
        add_deps(f, args, v1, deps.drop_first())
    }
}

/// The traits resolved from the first `n` arguments: for each argument in
/// turn, its requirements (see `add_deps`), then the argument itself unless
/// its other name is already there.
pub open spec fn resolved(f: Features, args: Seq<Seq<char>>, n: nat) -> Seq<(Seq<char>, Option<usize>)>
    decreases n,
{
    if n == 0 {
        seq![]
    } else {
        let v = resolved(f, args, (n - 1) as nat);
        let s = args[n - 1];
        let v1 = match trait_deps(f, s) {
            Some(deps) => add_deps(f, args, v, deps),
            None => v,
        };
        if has_alias_in(f, s, v1) {
            v1
        } else {
            v1.push((s, Some((n - 1) as usize)))
        }
    }
}

/// The traits resolved from all of `args`.
pub open spec fn resolve_all(f: Features, args: Seq<Seq<char>>) -> Seq<(Seq<char>, Option<usize>)> {
    resolved(f, args, args.len())
}

/// Whether the other name of `s` is among the resolved traits `v`.
pub fn exists_alias(f: &Features, s: &str, v: &Vec<ResolvedArg>) -> (r: bool)
    ensures
        r == has_alias_in(*f, s@, entries_view(v@)),
{
    match get_alias(f, s) {
        None => false,
        Some(a) => {
            let mut i: usize = 0;
            while i < v.len()
                invariant
                    i <= v.len(),
                    alias_of(*f, s@) == Some(a@),
                    forall|j: int| 0 <= j < i ==> v@[j].name@ != a@,
                decreases v.len() - i,
            {
                if str_eq(v[i].name.as_str(), a) {
                    assert(entries_view(v@)[i as int].0 == a@);
                    return true;
                }
                i = i + 1;
            }
            assert(!names_contain(entries_view(v@), a@)) by {
                if names_contain(entries_view(v@), a@) {
                    let j = choose|j: int|
                        0 <= j < entries_view(v@).len() && #[trigger] entries_view(v@)[j].0 == a@;
                    assert(v@[j].name@ == a@);
                }
            }
            false
        },
    }
}

/// Whether some resolved trait has the name `d`.
fn resolved_contain(v: &Vec<ResolvedArg>, d: &str) -> (r: bool)
    ensures
        r == names_contain(entries_view(v@), d@),
{
    let mut i: usize = 0;
    while i < v.len()
        invariant
            i <= v.len(),
            forall|j: int| 0 <= j < i ==> v@[j].name@ != d@,
        decreases v.len() - i,
    {
        if str_eq(v[i].name.as_str(), d) {
            assert(entries_view(v@)[i as int].0 == d@);
            return true;
        }
        i = i + 1;
    }
    assert(!names_contain(entries_view(v@), d@)) by {
        if names_contain(entries_view(v@), d@) {
            let j = choose|j: int| 0 <= j < entries_view(v@).len() && #[trigger] entries_view(v@)[j].0 == d@;
            assert(v@[j].name@ == d@);
        }
    }
    false
}

/// Whether some argument has the text `d`.
fn args_contain(args: &Vec<String>, d: &str) -> (r: bool)
    ensures
        r == names_view(args@).contains(d@),
{
    let mut i: usize = 0;
    while i < args.len()
        invariant
            i <= args.len(),
            forall|j: int| 0 <= j < i ==> args@[j]@ != d@,
        decreases args.len() - i,
    {
        if str_eq(args[i].as_str(), d) {
            assert(names_view(args@)[i as int] == d@);
            return true;
        }
        i = i + 1;
    }
    assert(!names_view(args@).contains(d@)) by {
        if names_view(args@).contains(d@) {
            let j = choose|j: int| 0 <= j < names_view(args@).len() && names_view(args@)[j] == d@;
            assert(args@[j]@ == d@);
        }
    }
    false
}

/// Resolves the argument names of `#[enum_derive]`: each argument is preceded
/// by the traits it requires that no argument names and that are not resolved
/// yet, and an argument or requirement whose other name (such as `fmt::Debug`
/// for `Debug`) is already resolved is left out.
pub fn resolve_args(f: &Features, args: &Vec<String>) -> (r: Vec<ResolvedArg>)
    ensures
        entries_view(r@) == resolve_all(*f, names_view(args@)),
{
    let ghost names = names_view(args@);
    let mut v: Vec<ResolvedArg> = Vec::new();
    let mut i: usize = 0;
    assert(entries_view(v@) =~= resolved(*f, names, 0));
    while i < args.len()
        invariant
            names == names_view(args@),
            i <= args.len(),
            entries_view(v@) == resolved(*f, names, i as nat),
        decreases args.len() - i,
    {
        let s = args[i].as_str();
        let ghost before = entries_view(v@);
        match get_trait_deps(f, s) {
            Some(deps) => {
                let ghost dv = strs_view(deps@);
                let mut j: usize = 0;
                assert(dv.skip(0) =~= dv);
                while j < deps.len()
                    invariant
                        names == names_view(args@),
                        j <= deps.len(),
                        dv == strs_view(deps@),
                        add_deps(*f, names, entries_view(v@), dv.skip(j as int)) == add_deps(
                            *f,
                            names,
                            before,
                            dv,
                        ),
                    decreases deps.len() - j,
                {
                    let d = deps[j];
                    assert(dv.skip(j as int)[0] == d@);
                    assert(dv.skip(j as int).drop_first() =~= dv.skip(j + 1));
                    if !args_contain(args, d) && !resolved_contain(&v, d) && !exists_alias(f, d, &v) {
                        let ghost old_v = v@;
                        v.push(ResolvedArg { name: d.to_owned(), arg: None });
                        assert(entries_view(v@) =~= entries_view(old_v).push((d@, None)));
                    }
                    j = j + 1;
                }
                assert(dv.skip(deps.len() as int) =~= Seq::<Seq<char>>::empty());
            },
            None => {},
        }
        if !exists_alias(f, s, &v) {
            let ghost old_v = v@;
            v.push(ResolvedArg { name: args[i].clone(), arg: Some(i) });
            assert(entries_view(v@) =~= entries_view(old_v).push((names[i as int], Some(i))));
        }
        i = i + 1;
    }
    v
}


/// Records, while the implementations are generated, whether the enum needs
/// the structural pinning guards.
pub struct DeriveContext {
    pub pin_projection: bool,
}

impl DeriveContext {
    /// A context in which no implementation has asked for pinning guards.
    pub fn new() -> (r: DeriveContext)
        ensures
            !r.pin_projection,
    {
        DeriveContext { pin_projection: false }
    }

    /// Records that an implementation has `Pin<&mut Self>` receivers.
    pub fn needs_pin_projection(&mut self)
        ensures
            final(self).pin_projection,
    {
        self.pin_projection = true;
    }
}

/// The bookkeeping part of implementing `kind`: an implementation with
/// `Pin<&mut Self>` receivers records that the enum needs pinning guards.
pub fn derive(cx: &mut DeriveContext, kind: DeriveKind)
    ensures
        final(cx).pin_projection == (old(cx).pin_projection || kind_needs_pin(kind)),
{
    if kind.needs_pin() {
        cx.needs_pin_projection();
    }
}

/// An implementation to generate: the trait, and the name it was asked for by.
pub struct PlannedImpl {
    pub kind: DeriveKind,
    pub name: String,
}

/// What `#[enum_derive]` does with its arguments.
pub struct DerivePlan {
    /// The implementations it generates itself, in order.
    pub impls: Vec<PlannedImpl>,
    /// The traits it hands on to `#[derive]`, in order, each with the index
    /// of the argument that named it (`None` for an added requirement).
    pub passthrough: Vec<ResolvedArg>,
    /// Whether the enum needs the structural pinning guards.
    pub needs_pin_projection: bool,
}

/// The plain values of the planned implementations.
pub open spec fn impls_view(v: Seq<PlannedImpl>) -> Seq<(DeriveKind, Seq<char>)> {
    v.map_values(|p: PlannedImpl| (p.kind, p.name@))
}

/// The implementations generated for the resolved traits `r`: those that a
/// supported trait name selects.
pub open spec fn plan_impls(f: Features, r: Seq<(Seq<char>, Option<usize>)>) -> Seq<(DeriveKind, Seq<char>)>
    decreases r.len(),
{
    if r.len() == 0 {
        seq![]
    } else {
        let prev = plan_impls(f, r.drop_last());
        match derive_for(f, r.last().0) {
            Some(k) => prev.push((k, r.last().0)),
            None => prev,
        }
    }
}

/// The traits handed on to `#[derive]`: those among the resolved traits `r`,
/// arguments and added requirements alike, that select none of the
/// implementations of `#[enum_derive]`.
pub open spec fn plan_passthrough(f: Features, r: Seq<(Seq<char>, Option<usize>)>) -> Seq<(Seq<char>, Option<usize>)>
    decreases r.len(),
{
    if r.len() == 0 {
        seq![]
    } else {
        let prev = plan_passthrough(f, r.drop_last());
        match derive_for(f, r.last().0) {
            None => prev.push(r.last()),
            Some(_) => prev,
        }
    }
}

/// Whether some planned implementation needs the pinning guards.
pub open spec fn plan_needs_pin(p: Seq<(DeriveKind, Seq<char>)>) -> bool {
    exists|j: int| 0 <= j < p.len() && kind_needs_pin(#[trigger] p[j].0)
}

/// Decides, for the argument names `args` of `#[enum_derive]`, which traits it
/// implements itself, which arguments it hands on to `#[derive]`, and whether
/// the enum needs the structural pinning guards.
pub fn plan_derives(f: &Features, args: &Vec<String>) -> (p: DerivePlan)
    ensures
        impls_view(p.impls@) == plan_impls(*f, resolve_all(*f, names_view(args@))),
        entries_view(p.passthrough@) == plan_passthrough(*f, resolve_all(*f, names_view(args@))),
        p.needs_pin_projection == plan_needs_pin(impls_view(p.impls@)),
{
    let resolved = resolve_args(f, args);
    let ghost r = entries_view(resolved@);
    let mut impls: Vec<PlannedImpl> = Vec::new();
    let mut passthrough: Vec<ResolvedArg> = Vec::new();
    let mut cx = DeriveContext::new();
    let mut i: usize = 0;
    assert(r.take(0) =~= Seq::<(Seq<char>, Option<usize>)>::empty());
    while i < resolved.len()
        invariant
            r == entries_view(resolved@),
            i <= resolved.len(),
            impls_view(impls@) == plan_impls(*f, r.take(i as int)),
            entries_view(passthrough@) == plan_passthrough(*f, r.take(i as int)),
            cx.pin_projection == plan_needs_pin(impls_view(impls@)),
        decreases resolved.len() - i,
    {
        assert(r.take(i + 1).drop_last() =~= r.take(i as int));
        assert(r.take(i + 1).last() == r[i as int]);
        let name = resolved[i].name.as_str();
        let ghost old_impls = impls_view(impls@);
        match get_derive(f, name) {
            Some(k) => {
                derive(&mut cx, k);
                impls.push(PlannedImpl { kind: k, name: resolved[i].name.clone() });
                assert(impls_view(impls@) =~= old_impls.push((k, r[i as int].0)));
                assert(impls_view(impls@)[old_impls.len() as int].0 == k);
                assert(plan_needs_pin(impls_view(impls@)) == (plan_needs_pin(old_impls)
                    || kind_needs_pin(k))) by {
                    let nv = impls_view(impls@);
                    if plan_needs_pin(nv) {
                        let j = choose|j: int| 0 <= j < nv.len() && kind_needs_pin(#[trigger] nv[j].0);
                        if j < old_impls.len() {
                            assert(old_impls[j] == nv[j]);
                        }
                    }
                    if plan_needs_pin(old_impls) {
                        let j = choose|j: int| 0 <= j < old_impls.len() && kind_needs_pin(#[trigger] old_impls[j].0);
                        assert(old_impls[j] == nv[j]);
                    }
                }
            },
            None => {
                let ghost old_pass = entries_view(passthrough@);
                passthrough.push(ResolvedArg { name: resolved[i].name.clone(), arg: resolved[i].arg });
                assert(entries_view(passthrough@) =~= old_pass.push(r[i as int]));
            },
        }
        i = i + 1;
    }
    assert(r.take(resolved.len() as int) =~= r);
    DerivePlan { impls, passthrough, needs_pin_projection: cx.pin_projection }
}

} // verus!
