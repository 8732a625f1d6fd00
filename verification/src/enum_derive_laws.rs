//! Properties of the argument resolution of `#[enum_derive]` that hold for
//! every list of arguments.

use vstd::prelude::*;

use crate::derive_table::{all_kinds, derive_for, first_supported, kind_enabled, kind_names, trait_deps, DeriveKind, Features};
use crate::enum_derive::{
    add_deps, has_alias_in, names_contain, plan_impls, plan_passthrough, resolve_all, resolved,
};

verus! {

/// `w` begins with `v`.
pub open spec fn extends(v: Seq<(Seq<char>, Option<usize>)>, w: Seq<(Seq<char>, Option<usize>)>) -> bool {
    &&& v.len() <= w.len()
    &&& forall|j: int| 0 <= j < v.len() ==> #[trigger] w[j] == v[j]
}

proof fn lemma_extends_keeps(
    f: Features,
    v: Seq<(Seq<char>, Option<usize>)>,
    w: Seq<(Seq<char>, Option<usize>)>,
)
    requires
        extends(v, w),
    ensures
        forall|x: Seq<char>| names_contain(v, x) ==> names_contain(w, x),
        forall|x: Seq<char>| has_alias_in(f, x, v) ==> has_alias_in(f, x, w),
{
    assert forall|x: Seq<char>| names_contain(v, x) implies names_contain(w, x) by {
        let j = choose|j: int| 0 <= j < v.len() && #[trigger] v[j].0 == x;
        assert(w[j] == v[j]);
    }
}

proof fn lemma_extends_trans(
    a: Seq<(Seq<char>, Option<usize>)>,
    b: Seq<(Seq<char>, Option<usize>)>,
    c: Seq<(Seq<char>, Option<usize>)>,
)
    requires
        extends(a, b),
        extends(b, c),
    ensures
        extends(a, c),
{
    assert forall|j: int| 0 <= j < a.len() implies #[trigger] c[j] == a[j] by {
        assert(c[j] == b[j]);
    }
}

proof fn lemma_add_deps(
    f: Features,
    args: Seq<Seq<char>>,
    v: Seq<(Seq<char>, Option<usize>)>,
    deps: Seq<Seq<char>>,
)
    ensures
        extends(v, add_deps(f, args, v, deps)),
        forall|j: int|
            v.len() <= j < add_deps(f, args, v, deps).len() ==> {
                &&& (#[trigger] add_deps(f, args, v, deps)[j]).1 is None
                &&& deps.contains(add_deps(f, args, v, deps)[j].0)
                &&& !args.contains(add_deps(f, args, v, deps)[j].0)
            },
        forall|k: int|
            0 <= k < deps.len() ==> args.contains(#[trigger] deps[k]) || names_contain(
                add_deps(f, args, v, deps),
                deps[k],
            ) || has_alias_in(f, deps[k], add_deps(f, args, v, deps)),
        forall|i: int, j: int|
            0 <= i < j && v.len() <= j < add_deps(f, args, v, deps).len() ==> (#[trigger] add_deps(
                f,
                args,
                v,
                deps,
            )[i]).0 != (#[trigger] add_deps(f, args, v, deps)[j]).0,
    decreases deps.len(),
{
    if deps.len() > 0 {
        let d = deps[0];
        let v1 = if !args.contains(d) && !names_contain(v, d) && !has_alias_in(f, d, v) {
            v.push((d, None))
        } else {
            v
        };
        let rest = deps.drop_first();
        let r = add_deps(f, args, v1, rest);
        lemma_add_deps(f, args, v1, rest);
        assert(extends(v, v1));
        lemma_extends_trans(v, v1, r);
        lemma_extends_keeps(f, v, r);
        lemma_extends_keeps(f, v1, r);
        assert forall|j: int| v.len() <= j < r.len() implies {
            &&& (#[trigger] r[j]).1 is None
            &&& deps.contains(r[j].0)
            &&& !args.contains(r[j].0)
        } by {
            if j < v1.len() {
                assert(r[j] == v1[j]);
                assert(deps[0] == d);
            } else {
                let x = r[j].0;
                let t = choose|t: int| 0 <= t < rest.len() && rest[t] == x;
                assert(deps[t + 1] == x);
            }
        }
        assert forall|k: int| 0 <= k < deps.len() implies args.contains(#[trigger] deps[k])
            || names_contain(r, deps[k]) || has_alias_in(f, deps[k], r) by {
            if k == 0 {
                if !args.contains(d) && !names_contain(v, d) && !has_alias_in(f, d, v) {
                    assert(v1[v.len() as int].0 == d);
                    assert(names_contain(v1, d));
                }
            } else {
                assert(rest[k - 1] == deps[k]);
            }
        }
        assert forall|i: int, j: int|
            0 <= i < j && v.len() <= j < r.len() implies (#[trigger] r[i]).0 != (#[trigger] r[j]).0 by {
            if j < v1.len() {
                assert(r[j] == v1[j]);
                assert(r[i] == v1[i]);
                assert(v1[i] == v[i]);
                assert(v1[j].0 == d);
                if v[i].0 == d {
                    assert(names_contain(v, d));
                }
            }
        }
    }
}

proof fn lemma_resolved(f: Features, args: Seq<Seq<char>>, n: nat)
    requires
        n <= args.len(),
        args.len() <= usize::MAX,
    ensures
        forall|m: nat| m <= n ==> extends(#[trigger] resolved(f, args, m), resolved(f, args, n)),
        forall|i: int|
            0 <= i < n ==> (exists|j: int|
                0 <= j < resolved(f, args, n).len() && #[trigger] resolved(f, args, n)[j] == (
                args[i],
                Some(i as usize),
            )) || has_alias_in(f, #[trigger] args[i], resolved(f, args, n)),
        forall|i: int, k: int|
            0 <= i < n && trait_deps(f, args[i]) is Some && 0 <= k < trait_deps(
                f,
                args[i],
            ).unwrap().len() ==> args.contains(#[trigger] trait_deps(f, args[i]).unwrap()[k])
                || names_contain(resolved(f, args, n), trait_deps(f, args[i]).unwrap()[k])
                || has_alias_in(f, trait_deps(f, args[i]).unwrap()[k], resolved(f, args, n)),
        forall|j: int|
            0 <= j < resolved(f, args, n).len() ==> match (#[trigger] resolved(f, args, n)[j]).1 {
                Some(a) => a < n && resolved(f, args, n)[j].0 == args[a as int],
                None => exists|i: int|
                    0 <= i < n && trait_deps(f, #[trigger] args[i]) is Some && trait_deps(
                        f,
                        args[i],
                    ).unwrap().contains(resolved(f, args, n)[j].0) && !args.contains(
                        resolved(f, args, n)[j].0,
                    ),
            },
        forall|i: int, j: int|
            0 <= i < j < resolved(f, args, n).len() && resolved(f, args, n)[j].1 is None ==> (
            #[trigger] resolved(f, args, n)[i]).0 != (#[trigger] resolved(f, args, n)[j]).0,
    decreases n,
{
    let rn = resolved(f, args, n);
    if n == 0 {
        assert forall|m: nat| m <= n implies extends(#[trigger] resolved(f, args, m), rn) by {}
    } else {
        let p = (n - 1) as nat;
        lemma_resolved(f, args, p);
        let v = resolved(f, args, p);
        let s = args[p as int];
        let v1 = match trait_deps(f, s) {
            Some(deps) => add_deps(f, args, v, deps),
            None => v,
        };
        if let Some(deps) = trait_deps(f, s) {
            lemma_add_deps(f, args, v, deps);
        }
        assert(extends(v, v1));
        assert(extends(v1, rn));
        lemma_extends_trans(v, v1, rn);
        lemma_extends_keeps(f, v, rn);
        lemma_extends_keeps(f, v1, rn);
        assert forall|m: nat| m <= n implies extends(#[trigger] resolved(f, args, m), rn) by {
            if m < n {
                lemma_extends_trans(resolved(f, args, m), v, rn);
            }
        }
        assert forall|i: int| 0 <= i < n implies (exists|j: int|
            0 <= j < rn.len() && #[trigger] rn[j] == (args[i], Some(i as usize))) || has_alias_in(
            f,
            #[trigger] args[i],
            rn,
        ) by {
            if i < p {
                if exists|j: int| 0 <= j < v.len() && #[trigger] v[j] == (args[i], Some(i as usize)) {
                    let j = choose|j: int| 0 <= j < v.len() && #[trigger] v[j] == (args[i], Some(i as usize));
                    assert(rn[j] == v[j]);
                }
            } else {
                if !has_alias_in(f, s, v1) {
                    assert(rn[v1.len() as int] == (args[i], Some(i as usize)));
                }
            }
        }
        assert forall|i: int, k: int|
            0 <= i < n && trait_deps(f, args[i]) is Some && 0 <= k < trait_deps(
                f,
                args[i],
            ).unwrap().len() implies args.contains(#[trigger] trait_deps(f, args[i]).unwrap()[k])
            || names_contain(rn, trait_deps(f, args[i]).unwrap()[k]) || has_alias_in(
            f,
            trait_deps(f, args[i]).unwrap()[k],
            rn,
        ) by {
            let x = trait_deps(f, args[i]).unwrap()[k];
            if i < p {
                assert(args.contains(x) || names_contain(v, x) || has_alias_in(f, x, v));
            } else {
                assert(args.contains(x) || names_contain(v1, x) || has_alias_in(f, x, v1));
            }
        }
        assert forall|j: int| 0 <= j < rn.len() implies match (#[trigger] rn[j]).1 {
            Some(a) => a < n && rn[j].0 == args[a as int],
            None => exists|i: int|
                0 <= i < n && trait_deps(f, #[trigger] args[i]) is Some && trait_deps(
                    f,
                    args[i],
                ).unwrap().contains(rn[j].0) && !args.contains(rn[j].0),
        } by {
            if j < v.len() {
                assert(rn[j] == v[j]);
                match v[j].1 {
                    Some(a) => {},
                    None => {
                        let i = choose|i: int|
                            0 <= i < p && trait_deps(f, #[trigger] args[i]) is Some && trait_deps(
                                f,
                                args[i],
                            ).unwrap().contains(v[j].0) && !args.contains(v[j].0);
                        assert(0 <= i < n && trait_deps(f, args[i]) is Some);
                    },
                }
            } else if j < v1.len() {
                let deps = trait_deps(f, s).unwrap();
                assert(v1 == add_deps(f, args, v, deps));
                assert(add_deps(f, args, v, deps)[j].1 is None);
                assert(rn[j] == v1[j]);
                assert(deps.contains(rn[j].0));
                assert(trait_deps(f, args[p as int]) is Some);
            } else {
                assert(rn[j] == (s, Some(p as usize)));
            }
        }
        assert forall|i: int, j: int|
            0 <= i < j < rn.len() && rn[j].1 is None implies (#[trigger] rn[i]).0 != (
            #[trigger] rn[j]).0 by {
            assert(rn[i] == v1[i]);
            if j < v.len() {
                assert(rn[j] == v[j]);
                assert(v1[i] == v[i]);
                assert(v[i] == resolved(f, args, p)[i]);
            } else if j < v1.len() {
                assert(rn[j] == v1[j]);
                let deps = trait_deps(f, s).unwrap();
                assert(v1 == add_deps(f, args, v, deps));
                assert(v1[i].0 != v1[j].0);
            } else {
                assert(rn[j] == (s, Some(p as usize)));
            }
        }
    }
}

/// Every argument of `#[enum_derive]` is resolved under its own name, unless
/// its other name (such as `fmt::Debug` for `Debug`) was resolved before it.
pub proof fn law_arguments_kept(f: Features, args: Seq<Seq<char>>)
    requires
        args.len() <= usize::MAX,
    ensures
        forall|i: int|
            0 <= i < args.len() ==> (exists|j: int|
                0 <= j < resolve_all(f, args).len() && #[trigger] resolve_all(f, args)[j] == (
                args[i],
                Some(i as usize),
            )) || has_alias_in(f, #[trigger] args[i], resolve_all(f, args)),
{
    lemma_resolved(f, args, args.len());
}

/// Every trait that an argument requires (such as `Clone` for `Copy`) is
/// named by an argument or resolved, under its own name or its other name.
pub proof fn law_requirements_present(f: Features, args: Seq<Seq<char>>)
    requires
        args.len() <= usize::MAX,
    ensures
        forall|i: int, k: int|
            0 <= i < args.len() && trait_deps(f, args[i]) is Some && 0 <= k < trait_deps(
                f,
                args[i],
            ).unwrap().len() ==> args.contains(#[trigger] trait_deps(f, args[i]).unwrap()[k])
                || names_contain(resolve_all(f, args), trait_deps(f, args[i]).unwrap()[k])
                || has_alias_in(f, trait_deps(f, args[i]).unwrap()[k], resolve_all(f, args)),
{
    lemma_resolved(f, args, args.len());
}

/// A resolved trait is either an argument, under the index of that argument,
/// or a requirement of an argument that no argument names.
pub proof fn law_resolution_sound(f: Features, args: Seq<Seq<char>>)
    requires
        args.len() <= usize::MAX,
    ensures
        forall|j: int|
            0 <= j < resolve_all(f, args).len() ==> match (#[trigger] resolve_all(f, args)[j]).1 {
                Some(a) => a < args.len() && resolve_all(f, args)[j].0 == args[a as int],
                None => exists|i: int|
                    0 <= i < args.len() && trait_deps(f, #[trigger] args[i]) is Some
                        && trait_deps(f, args[i]).unwrap().contains(resolve_all(f, args)[j].0)
                        && !args.contains(resolve_all(f, args)[j].0),
            },
{
    lemma_resolved(f, args, args.len());
}

proof fn lemma_plan(f: Features, r: Seq<(Seq<char>, Option<usize>)>)
    ensures
        forall|j: int|
            0 <= j < plan_impls(f, r).len() ==> derive_for(f, (#[trigger] plan_impls(f, r)[j]).1)
                == Some(plan_impls(f, r)[j].0),
        forall|j: int|
            0 <= j < plan_passthrough(f, r).len() ==> derive_for(f, (#[trigger] plan_passthrough(f, r)[j]).0) is None
                && exists|t: int| 0 <= t < r.len() && r[t] == plan_passthrough(f, r)[j],
    decreases r.len(),
{
    if r.len() > 0 {
        lemma_plan(f, r.drop_last());
        let pp = plan_passthrough(f, r.drop_last());
        assert forall|j: int| 0 <= j < plan_passthrough(f, r).len() implies derive_for(f, (#[trigger] plan_passthrough(f, r)[j]).0) is None
            && exists|t: int| 0 <= t < r.len() && r[t] == plan_passthrough(f, r)[j] by {
            if j < pp.len() {
                assert(plan_passthrough(f, r)[j] == pp[j]);
                let t = choose|t: int| 0 <= t < r.drop_last().len() && r.drop_last()[t] == pp[j];
                assert(r[t] == r.drop_last()[t]);
            } else {
                assert(r[r.len() - 1] == r.last());
            }
        }
    }
}

/// `#[enum_derive]` implements a trait itself exactly under the name that
/// selects it, and hands on to `#[derive]` only traits that select none of its
/// own implementations: an argument under its own index, or a requirement
/// that no argument names.
pub proof fn law_plan_partition(f: Features, args: Seq<Seq<char>>)
    requires
        args.len() <= usize::MAX,
    ensures
        forall|j: int|
            0 <= j < plan_impls(f, resolve_all(f, args)).len() ==> derive_for(
                f,
                (#[trigger] plan_impls(f, resolve_all(f, args))[j]).1,
            ) == Some(plan_impls(f, resolve_all(f, args))[j].0),
        forall|j: int|
            0 <= j < plan_passthrough(f, resolve_all(f, args)).len() ==> {
                let e = #[trigger] plan_passthrough(f, resolve_all(f, args))[j];
                &&& derive_for(f, e.0) is None
                &&& match e.1 {
                    Some(i) => i < args.len() && args[i as int] == e.0,
                    None => !args.contains(e.0),
                }
            },
{
    let r = resolve_all(f, args);
    lemma_plan(f, r);
    law_resolution_sound(f, args);
    assert forall|j: int| 0 <= j < plan_passthrough(f, r).len() implies {
        let e = #[trigger] plan_passthrough(f, r)[j];
        &&& derive_for(f, e.0) is None
        &&& match e.1 {
            Some(i) => i < args.len() && args[i as int] == e.0,
            None => !args.contains(e.0),
        }
    } by {
        let e = plan_passthrough(f, r)[j];
        let t = choose|t: int| 0 <= t < r.len() && r[t] == e;
        assert(r[t] == e);
    }
}

/// A requirement that `#[enum_derive]` adds (such as `Iterator` for both
/// `DoubleEndedIterator` and `ExactSizeIterator`) is resolved once: no other
/// resolved trait has its name.
pub proof fn law_requirements_added_once(f: Features, args: Seq<Seq<char>>)
    requires
        args.len() <= usize::MAX,
    ensures
        forall|j: int, k: int|
            0 <= j < resolve_all(f, args).len() && 0 <= k < resolve_all(f, args).len()
                && (#[trigger] resolve_all(f, args)[j]).1 is None
                && (#[trigger] resolve_all(f, args)[k]).0 == resolve_all(f, args)[j].0 ==> j == k,
{
    lemma_resolved(f, args, args.len());
    let r = resolve_all(f, args);
    assert forall|j: int, k: int|
        0 <= j < r.len() && 0 <= k < r.len() && (#[trigger] r[j]).1 is None
            && (#[trigger] r[k]).0 == r[j].0 implies j == k by {
        if k < j {
            assert(r[k].0 != r[j].0);
        } else if k > j {
            match r[k].1 {
                None => {
                    assert(r[j].0 != r[k].0);
                },
                Some(a) => {
                    assert(r[k].0 == args[a as int]);
                    assert(args.contains(r[j].0));
                },
            }
        }
    }
}

/// The length and first two characters of each trait name that the
/// requirement table mentions, which tell them apart.
proof fn lemma_trait_names()
    ensures
        "Copy"@.len() == 4 && "Copy"@[0] == 'C' && "Copy"@[1] == 'o',
        "Clone"@.len() == 5 && "Clone"@[0] == 'C' && "Clone"@[1] == 'l',
        "Eq"@.len() == 2 && "Eq"@[0] == 'E' && "Eq"@[1] == 'q',
        "PartialOrd"@.len() == 10 && "PartialOrd"@[0] == 'P' && "PartialOrd"@[1] == 'a',
        "PartialEq"@.len() == 9 && "PartialEq"@[0] == 'P' && "PartialEq"@[1] == 'a',
        "Ord"@.len() == 3 && "Ord"@[0] == 'O' && "Ord"@[1] == 'r',
        "DerefMut"@.len() == 8 && "DerefMut"@[0] == 'D' && "DerefMut"@[1] == 'e',
        "Deref"@.len() == 5 && "Deref"@[0] == 'D' && "Deref"@[1] == 'e',
        "IndexMut"@.len() == 8 && "IndexMut"@[0] == 'I' && "IndexMut"@[1] == 'n',
        "Index"@.len() == 5 && "Index"@[0] == 'I' && "Index"@[1] == 'n',
        "Fn"@.len() == 2 && "Fn"@[0] == 'F' && "Fn"@[1] == 'n',
        "FnMut"@.len() == 5 && "FnMut"@[0] == 'F' && "FnMut"@[1] == 'n',
        "FnOnce"@.len() == 6 && "FnOnce"@[0] == 'F' && "FnOnce"@[1] == 'n',
        "DoubleEndedIterator"@.len() == 19 && "DoubleEndedIterator"@[0] == 'D' && "DoubleEndedIterator"@[1] == 'o',
        "ExactSizeIterator"@.len() == 17 && "ExactSizeIterator"@[0] == 'E' && "ExactSizeIterator"@[1] == 'x',
        "FusedIterator"@.len() == 13 && "FusedIterator"@[0] == 'F' && "FusedIterator"@[1] == 'u',
        "Iterator"@.len() == 8 && "Iterator"@[0] == 'I' && "Iterator"@[1] == 't',
        "TrustedLen"@.len() == 10 && "TrustedLen"@[0] == 'T' && "TrustedLen"@[1] == 'r',
        "BufRead"@.len() == 7 && "BufRead"@[0] == 'B' && "BufRead"@[1] == 'u',
        "io::BufRead"@.len() == 11 && "io::BufRead"@[0] == 'i' && "io::BufRead"@[1] == 'o',
        "Read"@.len() == 4 && "Read"@[0] == 'R' && "Read"@[1] == 'e',
        "Error"@.len() == 5 && "Error"@[0] == 'E' && "Error"@[1] == 'r',
        "Display"@.len() == 7 && "Display"@[0] == 'D' && "Display"@[1] == 'i',
        "Debug"@.len() == 5 && "Debug"@[0] == 'D' && "Debug"@[1] == 'e',
        "rayon::IndexedParallelIterator"@.len() == 30 && "rayon::IndexedParallelIterator"@[0] == 'r' && "rayon::IndexedParallelIterator"@[1] == 'a',
        "rayon::ParallelIterator"@.len() == 23 && "rayon::ParallelIterator"@[0] == 'r' && "rayon::ParallelIterator"@[1] == 'a',
{
    reveal_strlit("Copy");
    reveal_strlit("Clone");
    reveal_strlit("Eq");
    reveal_strlit("PartialOrd");
    reveal_strlit("PartialEq");
    reveal_strlit("Ord");
    reveal_strlit("DerefMut");
    reveal_strlit("Deref");
    reveal_strlit("IndexMut");
    reveal_strlit("Index");
    reveal_strlit("Fn");
    reveal_strlit("FnMut");
    reveal_strlit("FnOnce");
    reveal_strlit("DoubleEndedIterator");
    reveal_strlit("ExactSizeIterator");
    reveal_strlit("FusedIterator");
    reveal_strlit("Iterator");
    reveal_strlit("TrustedLen");
    reveal_strlit("BufRead");
    reveal_strlit("io::BufRead");
    reveal_strlit("Read");
    reveal_strlit("Error");
    reveal_strlit("Display");
    reveal_strlit("Debug");
    reveal_strlit("rayon::IndexedParallelIterator");
    reveal_strlit("rayon::ParallelIterator");
}

/// The requirements of a trait are closed: a trait that has requirements has
/// at least one, does not require itself, and each trait it requires has no
/// requirements beyond those it lists, so one level of requirements is all
/// that `#[enum_derive]` needs to add.
pub proof fn law_requirements_closed(f: Features, s: Seq<char>)
    ensures
        trait_deps(f, s) matches Some(d) ==> {
            &&& d.len() > 0
            &&& !d.contains(s)
            &&& forall|k: int| 0 <= k < d.len() ==> match trait_deps(f, #[trigger] d[k]) {
                None => true,
                Some(e) => forall|m: int| 0 <= m < e.len() ==> d.contains(#[trigger] e[m]),
            }
        },
{
    lemma_trait_names();
    if let Some(d) = trait_deps(f, s) {
        assert forall|k: int| 0 <= k < d.len() implies match trait_deps(f, #[trigger] d[k]) {
            None => true,
            Some(e) => forall|m: int| 0 <= m < e.len() ==> d.contains(#[trigger] e[m]),
        } by {
            if s == "Ord"@ {
                assert(trait_deps(f, s) == Some(seq!["PartialOrd"@, "Eq"@, "PartialEq"@]));
                assert(d == seq!["PartialOrd"@, "Eq"@, "PartialEq"@]);
                assert(d[2] == "PartialEq"@);
                if k < 2 {
                    assert(trait_deps(f, d[k]) == Some(seq!["PartialEq"@]));
                }
            } else if f.fn_traits && s == "Fn"@ {
                assert(d == seq!["FnMut"@, "FnOnce"@]);
                assert(d[1] == "FnOnce"@);
                if k == 0 {
                    assert(trait_deps(f, d[k]) == Some(seq!["FnOnce"@]));
                }
            }
        }
    }
}

/// Rust's own supertraits among the traits that `#[enum_derive]` handles:
/// `x` is a supertrait of the trait named `s`, where the feature that
/// enables `s` is on (`Clone` of `Copy`, `PartialEq` of `Eq` and
/// `PartialOrd`, `Eq` and `PartialOrd` of `Ord`, `Deref` of `DerefMut`,
/// `Index` of `IndexMut`, `FnMut` of `Fn`, `FnOnce` of `FnMut`, `Iterator` of
/// its subtraits, `Read` of `BufRead`, `Debug` and `Display` of `Error`,
/// `ParallelIterator` of `IndexedParallelIterator`).
pub open spec fn supertrait_of(f: Features, s: Seq<char>, x: Seq<char>) -> bool {
    ||| s == "Copy"@ && x == "Clone"@
    ||| (s == "Eq"@ || s == "PartialOrd"@) && x == "PartialEq"@
    ||| s == "Ord"@ && (x == "Eq"@ || x == "PartialOrd"@)
    ||| f.ops && s == "DerefMut"@ && x == "Deref"@
    ||| f.ops && s == "IndexMut"@ && x == "Index"@
    ||| f.fn_traits && s == "Fn"@ && x == "FnMut"@
    ||| f.fn_traits && s == "FnMut"@ && x == "FnOnce"@
    ||| (s == "DoubleEndedIterator"@ || s == "ExactSizeIterator"@ || s == "FusedIterator"@) && x == "Iterator"@
    ||| f.trusted_len && s == "TrustedLen"@ && x == "Iterator"@
    ||| f.std && (s == "BufRead"@ || s == "io::BufRead"@) && x == "Read"@
    ||| f.std && s == "Error"@ && (x == "Debug"@ || x == "Display"@)
    ||| f.rayon && s == "rayon::IndexedParallelIterator"@ && x == "rayon::ParallelIterator"@
}

/// Every supertrait of a trait is among the requirements that
/// `#[enum_derive]` adds for it, so the implementation of an iterator
/// subtrait always comes with one of `Iterator`, that of `Copy` with `Clone`,
/// and so on.
pub proof fn law_supertraits_are_required(f: Features, s: Seq<char>, x: Seq<char>)
    requires
        supertrait_of(f, s, x),
    ensures
        trait_deps(f, s) matches Some(d) && d.contains(x),
{
    lemma_trait_names();
    let d = trait_deps(f, s)->0;
    if s == "Ord"@ {
        if x == "Eq"@ {
            assert(d[1] == x);
        } else {
            assert(d[0] == x);
        }
    } else if f.fn_traits && s == "Fn"@ {
        assert(d[0] == x);
    } else if f.std && s == "Error"@ {
        if x == "Display"@ {
            assert(d[0] == x);
        } else {
            assert(d[1] == x);
        }
    } else {
        assert(d[0] == x);
    }
}

/// Which feature enables each implementation, as the documentation groups
/// them: the traits of `core` without a feature of their own (`Debug`,
/// `Display`, `fmt::Write`, the iterator traits, `Extend`, `Future`) always;
/// the other `fmt` traits with `fmt`; the `std::io` traits and `Error` with
/// `std`; `AsRef`/`AsMut` with `convert`; the `ops` traits with `ops`; the
/// `Fn` traits with `fn_traits`; `TrustedLen` with `trusted_len`;
/// `Coroutine` with `coroutine_trait`; `Transpose` with `transpose_methods`;
/// and each outside crate's traits with that crate's feature.
pub proof fn law_features_enable_their_traits(f: Features)
    ensures
        kind_enabled(f, DeriveKind::Debug) && kind_enabled(f, DeriveKind::Display) && kind_enabled(f, DeriveKind::FmtWrite),
        kind_enabled(f, DeriveKind::Iterator) && kind_enabled(f, DeriveKind::DoubleEndedIterator)
            && kind_enabled(f, DeriveKind::ExactSizeIterator) && kind_enabled(f, DeriveKind::FusedIterator)
            && kind_enabled(f, DeriveKind::Extend) && kind_enabled(f, DeriveKind::Future),
        forall|k: DeriveKind|
            (k == DeriveKind::Pointer || k == DeriveKind::Binary || k == DeriveKind::Octal || k == DeriveKind::UpperHex
                || k == DeriveKind::LowerHex || k == DeriveKind::UpperExp || k == DeriveKind::LowerExp)
                ==> #[trigger] kind_enabled(f, k) == f.fmt,
        forall|k: DeriveKind|
            (k == DeriveKind::IoRead || k == DeriveKind::IoBufRead || k == DeriveKind::IoSeek || k == DeriveKind::IoWrite
                || k == DeriveKind::Error) ==> #[trigger] kind_enabled(f, k) == f.std,
        kind_enabled(f, DeriveKind::AsRef) == f.convert && kind_enabled(f, DeriveKind::AsMut) == f.convert,
        forall|k: DeriveKind|
            (k == DeriveKind::Deref || k == DeriveKind::DerefMut || k == DeriveKind::Index || k == DeriveKind::IndexMut
                || k == DeriveKind::RangeBounds) ==> #[trigger] kind_enabled(f, k) == f.ops,
        forall|k: DeriveKind|
            (k == DeriveKind::Fn || k == DeriveKind::FnMut || k == DeriveKind::FnOnce) ==> #[trigger] kind_enabled(f, k) == f.fn_traits,
        kind_enabled(f, DeriveKind::TrustedLen) == f.trusted_len,
        kind_enabled(f, DeriveKind::Coroutine) == f.coroutine_trait,
        kind_enabled(f, DeriveKind::Transpose) == f.transpose_methods,
        forall|k: DeriveKind|
            (k == DeriveKind::Futures03Stream || k == DeriveKind::Futures03Sink || k == DeriveKind::Futures03AsyncRead
                || k == DeriveKind::Futures03AsyncWrite || k == DeriveKind::Futures03AsyncSeek
                || k == DeriveKind::Futures03AsyncBufRead) ==> #[trigger] kind_enabled(f, k) == f.futures03,
        forall|k: DeriveKind|
            (k == DeriveKind::Futures01Future || k == DeriveKind::Futures01Stream || k == DeriveKind::Futures01Sink)
                ==> #[trigger] kind_enabled(f, k) == f.futures01,
        forall|k: DeriveKind|
            (k == DeriveKind::RayonParallelIterator || k == DeriveKind::RayonIndexedParallelIterator
                || k == DeriveKind::RayonParallelExtend) ==> #[trigger] kind_enabled(f, k) == f.rayon,
        kind_enabled(f, DeriveKind::SerdeSerialize) == f.serde,
        forall|k: DeriveKind|
            (k == DeriveKind::Tokio1AsyncRead || k == DeriveKind::Tokio1AsyncWrite || k == DeriveKind::Tokio1AsyncSeek
                || k == DeriveKind::Tokio1AsyncBufRead) ==> #[trigger] kind_enabled(f, k) == f.tokio1,
        forall|k: DeriveKind|
            (k == DeriveKind::Tokio03AsyncRead || k == DeriveKind::Tokio03AsyncWrite || k == DeriveKind::Tokio03AsyncSeek
                || k == DeriveKind::Tokio03AsyncBufRead) ==> #[trigger] kind_enabled(f, k) == f.tokio03,
        forall|k: DeriveKind|
            (k == DeriveKind::Tokio02AsyncRead || k == DeriveKind::Tokio02AsyncWrite || k == DeriveKind::Tokio02AsyncSeek
                || k == DeriveKind::Tokio02AsyncBufRead) ==> #[trigger] kind_enabled(f, k) == f.tokio02,
        forall|k: DeriveKind|
            (k == DeriveKind::Tokio01AsyncRead || k == DeriveKind::Tokio01AsyncWrite) ==> #[trigger] kind_enabled(f, k) == f.tokio01,
        kind_enabled(f, DeriveKind::HttpBody1Body) == f.http_body1,
{
}


/// The length and the characters that tell apart the names of the
/// implementations that need no feature or only `std` from the names
/// listed before them.
proof fn lemma_name_facts()
    ensures
        "AsMut"@.len() == 5 && "AsMut"@[0] == 'A',
        "AsRef"@.len() == 5 && "AsRef"@[0] == 'A',
        "BufRead"@.len() == 7 && "BufRead"@[0] == 'B',
        "Coroutine"@.len() == 9 && "Coroutine"@[0] == 'C',
        "Debug"@.len() == 5 && "Debug"@[0] == 'D',
        "Deref"@.len() == 5 && "Deref"@[0] == 'D',
        "DerefMut"@.len() == 8 && "DerefMut"@[0] == 'D',
        "Display"@.len() == 7 && "Display"@[0] == 'D',
        "DoubleEndedIterator"@.len() == 19 && "DoubleEndedIterator"@[0] == 'D',
        "Error"@.len() == 5 && "Error"@[0] == 'E',
        "ExactSizeIterator"@.len() == 17 && "ExactSizeIterator"@[0] == 'E',
        "Extend"@.len() == 6 && "Extend"@[0] == 'E',
        "Fn"@.len() == 2 && "Fn"@[0] == 'F',
        "FnMut"@.len() == 5 && "FnMut"@[0] == 'F',
        "FnOnce"@.len() == 6 && "FnOnce"@[0] == 'F' && "FnOnce"@[1] == 'n',
        "FusedIterator"@.len() == 13 && "FusedIterator"@[0] == 'F',
        "Future"@.len() == 6 && "Future"@[0] == 'F' && "Future"@[1] == 'u',
        "Index"@.len() == 5 && "Index"@[0] == 'I',
        "IndexMut"@.len() == 8 && "IndexMut"@[0] == 'I',
        "Iterator"@.len() == 8 && "Iterator"@[0] == 'I',
        "RangeBounds"@.len() == 11 && "RangeBounds"@[0] == 'R',
        "Read"@.len() == 4 && "Read"@[0] == 'R',
        "Seek"@.len() == 4 && "Seek"@[0] == 'S',
        "TrustedLen"@.len() == 10 && "TrustedLen"@[0] == 'T',
        "Write"@.len() == 5 && "Write"@[0] == 'W',
        "fmt::Binary"@.len() == 11 && "fmt::Binary"@[0] == 'f',
        "fmt::Debug"@.len() == 10 && "fmt::Debug"@[0] == 'f' && "fmt::Debug"@[5] == 'D',
        "fmt::Display"@.len() == 12 && "fmt::Display"@[0] == 'f',
        "fmt::LowerExp"@.len() == 13 && "fmt::LowerExp"@[0] == 'f',
        "fmt::LowerHex"@.len() == 13 && "fmt::LowerHex"@[0] == 'f',
        "fmt::Octal"@.len() == 10 && "fmt::Octal"@[0] == 'f' && "fmt::Octal"@[5] == 'O',
        "fmt::Pointer"@.len() == 12 && "fmt::Pointer"@[0] == 'f',
        "fmt::UpperExp"@.len() == 13 && "fmt::UpperExp"@[0] == 'f',
        "fmt::UpperHex"@.len() == 13 && "fmt::UpperHex"@[0] == 'f',
        "fmt::Write"@.len() == 10 && "fmt::Write"@[0] == 'f' && "fmt::Write"@[5] == 'W',
        "io::BufRead"@.len() == 11 && "io::BufRead"@[0] == 'i',
        "io::Read"@.len() == 8 && "io::Read"@[0] == 'i' && "io::Read"@[4] == 'R',
        "io::Seek"@.len() == 8 && "io::Seek"@[0] == 'i' && "io::Seek"@[4] == 'S',
        "io::Write"@.len() == 9 && "io::Write"@[0] == 'i',
{
    reveal_strlit("AsMut");
    reveal_strlit("AsRef");
    reveal_strlit("BufRead");
    reveal_strlit("Coroutine");
    reveal_strlit("Debug");
    reveal_strlit("Deref");
    reveal_strlit("DerefMut");
    reveal_strlit("Display");
    reveal_strlit("DoubleEndedIterator");
    reveal_strlit("Error");
    reveal_strlit("ExactSizeIterator");
    reveal_strlit("Extend");
    reveal_strlit("Fn");
    reveal_strlit("FnMut");
    reveal_strlit("FnOnce");
    reveal_strlit("FusedIterator");
    reveal_strlit("Future");
    reveal_strlit("Index");
    reveal_strlit("IndexMut");
    reveal_strlit("Iterator");
    reveal_strlit("RangeBounds");
    reveal_strlit("Read");
    reveal_strlit("Seek");
    reveal_strlit("TrustedLen");
    reveal_strlit("Write");
    reveal_strlit("fmt::Binary");
    reveal_strlit("fmt::Debug");
    reveal_strlit("fmt::Display");
    reveal_strlit("fmt::LowerExp");
    reveal_strlit("fmt::LowerHex");
    reveal_strlit("fmt::Octal");
    reveal_strlit("fmt::Pointer");
    reveal_strlit("fmt::UpperExp");
    reveal_strlit("fmt::UpperHex");
    reveal_strlit("fmt::Write");
    reveal_strlit("io::BufRead");
    reveal_strlit("io::Read");
    reveal_strlit("io::Seek");
    reveal_strlit("io::Write");
}

/// The first implementation in `ks` that is enabled and answers to `s` is
/// the one at `j`, where it is enabled and answers to `s` and none before it
/// answers to `s`.
proof fn lemma_first_supported_at(f: Features, s: Seq<char>, ks: Seq<DeriveKind>, j: int)
    requires
        0 <= j < ks.len(),
        kind_enabled(f, ks[j]),
        kind_names(ks[j]).contains(s),
        forall|i: int| 0 <= i < j ==> !kind_names(#[trigger] ks[i]).contains(s),
    ensures
        first_supported(f, s, ks) == Some(ks[j]),
    decreases j,
{
    if j > 0 {
        assert(!kind_names(ks[0]).contains(s));
        lemma_first_supported_at(f, s, ks.drop_first(), j - 1);
    }
}

/// With the `std` feature on, each name of a `std::io` trait (`Read`,
/// `BufRead`, `Seek`, `Write`, alone or behind `io::`) and `Error` selects
/// that trait's own implementation, whatever other features are on; so
/// `Write` is implemented by `#[enum_derive]`, not handed on to `#[derive]`.
pub proof fn law_io_names_select_io_traits(f: Features)
    requires
        f.std,
    ensures
        derive_for(f, "Read"@) == Some(DeriveKind::IoRead),
        derive_for(f, "io::Read"@) == Some(DeriveKind::IoRead),
        derive_for(f, "BufRead"@) == Some(DeriveKind::IoBufRead),
        derive_for(f, "io::BufRead"@) == Some(DeriveKind::IoBufRead),
        derive_for(f, "Seek"@) == Some(DeriveKind::IoSeek),
        derive_for(f, "io::Seek"@) == Some(DeriveKind::IoSeek),
        derive_for(f, "Write"@) == Some(DeriveKind::IoWrite),
        derive_for(f, "io::Write"@) == Some(DeriveKind::IoWrite),
        derive_for(f, "Error"@) == Some(DeriveKind::Error),
{
    lemma_name_facts();
    let ks = all_kinds();
    assert(ks[28] == DeriveKind::IoRead);
    assert(kind_names(ks[28])[0] == "Read"@);
    assert(!kind_names(ks[0]).contains("Read"@));
    assert(!kind_names(ks[1]).contains("Read"@));
    assert(!kind_names(ks[2]).contains("Read"@));
    assert(!kind_names(ks[3]).contains("Read"@));
    assert(!kind_names(ks[4]).contains("Read"@));
    assert(!kind_names(ks[5]).contains("Read"@));
    assert(!kind_names(ks[6]).contains("Read"@));
    assert(!kind_names(ks[7]).contains("Read"@));
    assert(!kind_names(ks[8]).contains("Read"@));
    assert(!kind_names(ks[9]).contains("Read"@));
    assert(!kind_names(ks[10]).contains("Read"@));
    assert(!kind_names(ks[11]).contains("Read"@));
    assert(!kind_names(ks[12]).contains("Read"@));
    assert(!kind_names(ks[13]).contains("Read"@));
    assert(!kind_names(ks[14]).contains("Read"@));
    assert(!kind_names(ks[15]).contains("Read"@));
    assert(!kind_names(ks[16]).contains("Read"@));
    assert(!kind_names(ks[17]).contains("Read"@));
    assert(!kind_names(ks[18]).contains("Read"@));
    assert(!kind_names(ks[19]).contains("Read"@));
    assert(!kind_names(ks[20]).contains("Read"@));
    assert(!kind_names(ks[21]).contains("Read"@));
    assert(!kind_names(ks[22]).contains("Read"@));
    assert(!kind_names(ks[23]).contains("Read"@));
    assert(!kind_names(ks[24]).contains("Read"@));
    assert(!kind_names(ks[25]).contains("Read"@));
    assert(!kind_names(ks[26]).contains("Read"@));
    assert(!kind_names(ks[27]).contains("Read"@));
    lemma_first_supported_at(f, "Read"@, ks, 28);
    assert(ks[28] == DeriveKind::IoRead);
    assert(kind_names(ks[28])[1] == "io::Read"@);
    assert(!kind_names(ks[0]).contains("io::Read"@));
    assert(!kind_names(ks[1]).contains("io::Read"@));
    assert(!kind_names(ks[2]).contains("io::Read"@));
    assert(!kind_names(ks[3]).contains("io::Read"@));
    assert(!kind_names(ks[4]).contains("io::Read"@));
    assert(!kind_names(ks[5]).contains("io::Read"@));
    assert(!kind_names(ks[6]).contains("io::Read"@));
    assert(!kind_names(ks[7]).contains("io::Read"@));
    assert(!kind_names(ks[8]).contains("io::Read"@));
    assert(!kind_names(ks[9]).contains("io::Read"@));
    assert(!kind_names(ks[10]).contains("io::Read"@));
    assert(!kind_names(ks[11]).contains("io::Read"@));
    assert(!kind_names(ks[12]).contains("io::Read"@));
    assert(!kind_names(ks[13]).contains("io::Read"@));
    assert(!kind_names(ks[14]).contains("io::Read"@));
    assert(!kind_names(ks[15]).contains("io::Read"@));
    assert(!kind_names(ks[16]).contains("io::Read"@));
    assert(!kind_names(ks[17]).contains("io::Read"@));
    assert(!kind_names(ks[18]).contains("io::Read"@));
    assert(!kind_names(ks[19]).contains("io::Read"@));
    assert(!kind_names(ks[20]).contains("io::Read"@));
    assert(!kind_names(ks[21]).contains("io::Read"@));
    assert(!kind_names(ks[22]).contains("io::Read"@));
    assert(!kind_names(ks[23]).contains("io::Read"@));
    assert(!kind_names(ks[24]).contains("io::Read"@));
    assert(!kind_names(ks[25]).contains("io::Read"@));
    assert(!kind_names(ks[26]).contains("io::Read"@));
    assert(!kind_names(ks[27]).contains("io::Read"@));
    lemma_first_supported_at(f, "io::Read"@, ks, 28);
    assert(ks[29] == DeriveKind::IoBufRead);
    assert(kind_names(ks[29])[0] == "BufRead"@);
    assert(!kind_names(ks[0]).contains("BufRead"@));
    assert(!kind_names(ks[1]).contains("BufRead"@));
    assert(!kind_names(ks[2]).contains("BufRead"@));
    assert(!kind_names(ks[3]).contains("BufRead"@));
    assert(!kind_names(ks[4]).contains("BufRead"@));
    assert(!kind_names(ks[5]).contains("BufRead"@));
    assert(!kind_names(ks[6]).contains("BufRead"@));
    assert(!kind_names(ks[7]).contains("BufRead"@));
    assert(!kind_names(ks[8]).contains("BufRead"@));
    assert(!kind_names(ks[9]).contains("BufRead"@));
    assert(!kind_names(ks[10]).contains("BufRead"@));
    assert(!kind_names(ks[11]).contains("BufRead"@));
    assert(!kind_names(ks[12]).contains("BufRead"@));
    assert(!kind_names(ks[13]).contains("BufRead"@));
    assert(!kind_names(ks[14]).contains("BufRead"@));
    assert(!kind_names(ks[15]).contains("BufRead"@));
    assert(!kind_names(ks[16]).contains("BufRead"@));
    assert(!kind_names(ks[17]).contains("BufRead"@));
    assert(!kind_names(ks[18]).contains("BufRead"@));
    assert(!kind_names(ks[19]).contains("BufRead"@));
    assert(!kind_names(ks[20]).contains("BufRead"@));
    assert(!kind_names(ks[21]).contains("BufRead"@));
    assert(!kind_names(ks[22]).contains("BufRead"@));
    assert(!kind_names(ks[23]).contains("BufRead"@));
    assert(!kind_names(ks[24]).contains("BufRead"@));
    assert(!kind_names(ks[25]).contains("BufRead"@));
    assert(!kind_names(ks[26]).contains("BufRead"@));
    assert(!kind_names(ks[27]).contains("BufRead"@));
    assert(!kind_names(ks[28]).contains("BufRead"@));
    lemma_first_supported_at(f, "BufRead"@, ks, 29);
    assert(ks[29] == DeriveKind::IoBufRead);
    assert(kind_names(ks[29])[1] == "io::BufRead"@);
    assert(!kind_names(ks[0]).contains("io::BufRead"@));
    assert(!kind_names(ks[1]).contains("io::BufRead"@));
    assert(!kind_names(ks[2]).contains("io::BufRead"@));
    assert(!kind_names(ks[3]).contains("io::BufRead"@));
    assert(!kind_names(ks[4]).contains("io::BufRead"@));
    assert(!kind_names(ks[5]).contains("io::BufRead"@));
    assert(!kind_names(ks[6]).contains("io::BufRead"@));
    assert(!kind_names(ks[7]).contains("io::BufRead"@));
    assert(!kind_names(ks[8]).contains("io::BufRead"@));
    assert(!kind_names(ks[9]).contains("io::BufRead"@));
    assert(!kind_names(ks[10]).contains("io::BufRead"@));
    assert(!kind_names(ks[11]).contains("io::BufRead"@));
    assert(!kind_names(ks[12]).contains("io::BufRead"@));
    assert(!kind_names(ks[13]).contains("io::BufRead"@));
    assert(!kind_names(ks[14]).contains("io::BufRead"@));
    assert(!kind_names(ks[15]).contains("io::BufRead"@));
    assert(!kind_names(ks[16]).contains("io::BufRead"@));
    assert(!kind_names(ks[17]).contains("io::BufRead"@));
    assert(!kind_names(ks[18]).contains("io::BufRead"@));
    assert(!kind_names(ks[19]).contains("io::BufRead"@));
    assert(!kind_names(ks[20]).contains("io::BufRead"@));
    assert(!kind_names(ks[21]).contains("io::BufRead"@));
    assert(!kind_names(ks[22]).contains("io::BufRead"@));
    assert(!kind_names(ks[23]).contains("io::BufRead"@));
    assert(!kind_names(ks[24]).contains("io::BufRead"@));
    assert(!kind_names(ks[25]).contains("io::BufRead"@));
    assert(!kind_names(ks[26]).contains("io::BufRead"@));
    assert(!kind_names(ks[27]).contains("io::BufRead"@));
    assert(!kind_names(ks[28]).contains("io::BufRead"@));
    lemma_first_supported_at(f, "io::BufRead"@, ks, 29);
    assert(ks[30] == DeriveKind::IoSeek);
    assert(kind_names(ks[30])[0] == "Seek"@);
    assert(!kind_names(ks[0]).contains("Seek"@));
    assert(!kind_names(ks[1]).contains("Seek"@));
    assert(!kind_names(ks[2]).contains("Seek"@));
    assert(!kind_names(ks[3]).contains("Seek"@));
    assert(!kind_names(ks[4]).contains("Seek"@));
    assert(!kind_names(ks[5]).contains("Seek"@));
    assert(!kind_names(ks[6]).contains("Seek"@));
    assert(!kind_names(ks[7]).contains("Seek"@));
    assert(!kind_names(ks[8]).contains("Seek"@));
    assert(!kind_names(ks[9]).contains("Seek"@));
    assert(!kind_names(ks[10]).contains("Seek"@));
    assert(!kind_names(ks[11]).contains("Seek"@));
    assert(!kind_names(ks[12]).contains("Seek"@));
    assert(!kind_names(ks[13]).contains("Seek"@));
    assert(!kind_names(ks[14]).contains("Seek"@));
    assert(!kind_names(ks[15]).contains("Seek"@));
    assert(!kind_names(ks[16]).contains("Seek"@));
    assert(!kind_names(ks[17]).contains("Seek"@));
    assert(!kind_names(ks[18]).contains("Seek"@));
    assert(!kind_names(ks[19]).contains("Seek"@));
    assert(!kind_names(ks[20]).contains("Seek"@));
    assert(!kind_names(ks[21]).contains("Seek"@));
    assert(!kind_names(ks[22]).contains("Seek"@));
    assert(!kind_names(ks[23]).contains("Seek"@));
    assert(!kind_names(ks[24]).contains("Seek"@));
    assert(!kind_names(ks[25]).contains("Seek"@));
    assert(!kind_names(ks[26]).contains("Seek"@));
    assert(!kind_names(ks[27]).contains("Seek"@));
    assert(!kind_names(ks[28]).contains("Seek"@));
    assert(!kind_names(ks[29]).contains("Seek"@));
    lemma_first_supported_at(f, "Seek"@, ks, 30);
    assert(ks[30] == DeriveKind::IoSeek);
    assert(kind_names(ks[30])[1] == "io::Seek"@);
    assert(!kind_names(ks[0]).contains("io::Seek"@));
    assert(!kind_names(ks[1]).contains("io::Seek"@));
    assert(!kind_names(ks[2]).contains("io::Seek"@));
    assert(!kind_names(ks[3]).contains("io::Seek"@));
    assert(!kind_names(ks[4]).contains("io::Seek"@));
    assert(!kind_names(ks[5]).contains("io::Seek"@));
    assert(!kind_names(ks[6]).contains("io::Seek"@));
    assert(!kind_names(ks[7]).contains("io::Seek"@));
    assert(!kind_names(ks[8]).contains("io::Seek"@));
    assert(!kind_names(ks[9]).contains("io::Seek"@));
    assert(!kind_names(ks[10]).contains("io::Seek"@));
    assert(!kind_names(ks[11]).contains("io::Seek"@));
    assert(!kind_names(ks[12]).contains("io::Seek"@));
    assert(!kind_names(ks[13]).contains("io::Seek"@));
    assert(!kind_names(ks[14]).contains("io::Seek"@));
    assert(!kind_names(ks[15]).contains("io::Seek"@));
    assert(!kind_names(ks[16]).contains("io::Seek"@));
    assert(!kind_names(ks[17]).contains("io::Seek"@));
    assert(!kind_names(ks[18]).contains("io::Seek"@));
    assert(!kind_names(ks[19]).contains("io::Seek"@));
    assert(!kind_names(ks[20]).contains("io::Seek"@));
    assert(!kind_names(ks[21]).contains("io::Seek"@));
    assert(!kind_names(ks[22]).contains("io::Seek"@));
    assert(!kind_names(ks[23]).contains("io::Seek"@));
    assert(!kind_names(ks[24]).contains("io::Seek"@));
    assert(!kind_names(ks[25]).contains("io::Seek"@));
    assert(!kind_names(ks[26]).contains("io::Seek"@));
    assert(!kind_names(ks[27]).contains("io::Seek"@));
    assert(!kind_names(ks[28]).contains("io::Seek"@));
    assert(!kind_names(ks[29]).contains("io::Seek"@));
    lemma_first_supported_at(f, "io::Seek"@, ks, 30);
    assert(ks[31] == DeriveKind::IoWrite);
    assert(kind_names(ks[31])[0] == "Write"@);
    assert(!kind_names(ks[0]).contains("Write"@));
    assert(!kind_names(ks[1]).contains("Write"@));
    assert(!kind_names(ks[2]).contains("Write"@));
    assert(!kind_names(ks[3]).contains("Write"@));
    assert(!kind_names(ks[4]).contains("Write"@));
    assert(!kind_names(ks[5]).contains("Write"@));
    assert(!kind_names(ks[6]).contains("Write"@));
    assert(!kind_names(ks[7]).contains("Write"@));
    assert(!kind_names(ks[8]).contains("Write"@));
    assert(!kind_names(ks[9]).contains("Write"@));
    assert(!kind_names(ks[10]).contains("Write"@));
    assert(!kind_names(ks[11]).contains("Write"@));
    assert(!kind_names(ks[12]).contains("Write"@));
    assert(!kind_names(ks[13]).contains("Write"@));
    assert(!kind_names(ks[14]).contains("Write"@));
    assert(!kind_names(ks[15]).contains("Write"@));
    assert(!kind_names(ks[16]).contains("Write"@));
    assert(!kind_names(ks[17]).contains("Write"@));
    assert(!kind_names(ks[18]).contains("Write"@));
    assert(!kind_names(ks[19]).contains("Write"@));
    assert(!kind_names(ks[20]).contains("Write"@));
    assert(!kind_names(ks[21]).contains("Write"@));
    assert(!kind_names(ks[22]).contains("Write"@));
    assert(!kind_names(ks[23]).contains("Write"@));
    assert(!kind_names(ks[24]).contains("Write"@));
    assert(!kind_names(ks[25]).contains("Write"@));
    assert(!kind_names(ks[26]).contains("Write"@));
    assert(!kind_names(ks[27]).contains("Write"@));
    assert(!kind_names(ks[28]).contains("Write"@));
    assert(!kind_names(ks[29]).contains("Write"@));
    assert(!kind_names(ks[30]).contains("Write"@));
    lemma_first_supported_at(f, "Write"@, ks, 31);
    assert(ks[31] == DeriveKind::IoWrite);
    assert(kind_names(ks[31])[1] == "io::Write"@);
    assert(!kind_names(ks[0]).contains("io::Write"@));
    assert(!kind_names(ks[1]).contains("io::Write"@));
    assert(!kind_names(ks[2]).contains("io::Write"@));
    assert(!kind_names(ks[3]).contains("io::Write"@));
    assert(!kind_names(ks[4]).contains("io::Write"@));
    assert(!kind_names(ks[5]).contains("io::Write"@));
    assert(!kind_names(ks[6]).contains("io::Write"@));
    assert(!kind_names(ks[7]).contains("io::Write"@));
    assert(!kind_names(ks[8]).contains("io::Write"@));
    assert(!kind_names(ks[9]).contains("io::Write"@));
    assert(!kind_names(ks[10]).contains("io::Write"@));
    assert(!kind_names(ks[11]).contains("io::Write"@));
    assert(!kind_names(ks[12]).contains("io::Write"@));
    assert(!kind_names(ks[13]).contains("io::Write"@));
    assert(!kind_names(ks[14]).contains("io::Write"@));
    assert(!kind_names(ks[15]).contains("io::Write"@));
    assert(!kind_names(ks[16]).contains("io::Write"@));
    assert(!kind_names(ks[17]).contains("io::Write"@));
    assert(!kind_names(ks[18]).contains("io::Write"@));
    assert(!kind_names(ks[19]).contains("io::Write"@));
    assert(!kind_names(ks[20]).contains("io::Write"@));
    assert(!kind_names(ks[21]).contains("io::Write"@));
    assert(!kind_names(ks[22]).contains("io::Write"@));
    assert(!kind_names(ks[23]).contains("io::Write"@));
    assert(!kind_names(ks[24]).contains("io::Write"@));
    assert(!kind_names(ks[25]).contains("io::Write"@));
    assert(!kind_names(ks[26]).contains("io::Write"@));
    assert(!kind_names(ks[27]).contains("io::Write"@));
    assert(!kind_names(ks[28]).contains("io::Write"@));
    assert(!kind_names(ks[29]).contains("io::Write"@));
    assert(!kind_names(ks[30]).contains("io::Write"@));
    lemma_first_supported_at(f, "io::Write"@, ks, 31);
    assert(ks[32] == DeriveKind::Error);
    assert(kind_names(ks[32])[0] == "Error"@);
    assert(!kind_names(ks[0]).contains("Error"@));
    assert(!kind_names(ks[1]).contains("Error"@));
    assert(!kind_names(ks[2]).contains("Error"@));
    assert(!kind_names(ks[3]).contains("Error"@));
    assert(!kind_names(ks[4]).contains("Error"@));
    assert(!kind_names(ks[5]).contains("Error"@));
    assert(!kind_names(ks[6]).contains("Error"@));
    assert(!kind_names(ks[7]).contains("Error"@));
    assert(!kind_names(ks[8]).contains("Error"@));
    assert(!kind_names(ks[9]).contains("Error"@));
    assert(!kind_names(ks[10]).contains("Error"@));
    assert(!kind_names(ks[11]).contains("Error"@));
    assert(!kind_names(ks[12]).contains("Error"@));
    assert(!kind_names(ks[13]).contains("Error"@));
    assert(!kind_names(ks[14]).contains("Error"@));
    assert(!kind_names(ks[15]).contains("Error"@));
    assert(!kind_names(ks[16]).contains("Error"@));
    assert(!kind_names(ks[17]).contains("Error"@));
    assert(!kind_names(ks[18]).contains("Error"@));
    assert(!kind_names(ks[19]).contains("Error"@));
    assert(!kind_names(ks[20]).contains("Error"@));
    assert(!kind_names(ks[21]).contains("Error"@));
    assert(!kind_names(ks[22]).contains("Error"@));
    assert(!kind_names(ks[23]).contains("Error"@));
    assert(!kind_names(ks[24]).contains("Error"@));
    assert(!kind_names(ks[25]).contains("Error"@));
    assert(!kind_names(ks[26]).contains("Error"@));
    assert(!kind_names(ks[27]).contains("Error"@));
    assert(!kind_names(ks[28]).contains("Error"@));
    assert(!kind_names(ks[29]).contains("Error"@));
    assert(!kind_names(ks[30]).contains("Error"@));
    assert(!kind_names(ks[31]).contains("Error"@));
    lemma_first_supported_at(f, "Error"@, ks, 32);
}

/// Under every feature set, each name of a trait of `core` that needs no
/// feature (`Debug`, `Display`, alone or behind `fmt::`, `fmt::Write`, the
/// iterator traits, `Extend`, `Future`) selects that trait's own
/// implementation.
pub proof fn law_core_names_select_core_traits(f: Features)
    ensures
        derive_for(f, "Debug"@) == Some(DeriveKind::Debug),
        derive_for(f, "fmt::Debug"@) == Some(DeriveKind::Debug),
        derive_for(f, "Display"@) == Some(DeriveKind::Display),
        derive_for(f, "fmt::Display"@) == Some(DeriveKind::Display),
        derive_for(f, "fmt::Write"@) == Some(DeriveKind::FmtWrite),
        derive_for(f, "Iterator"@) == Some(DeriveKind::Iterator),
        derive_for(f, "DoubleEndedIterator"@) == Some(DeriveKind::DoubleEndedIterator),
        derive_for(f, "ExactSizeIterator"@) == Some(DeriveKind::ExactSizeIterator),
        derive_for(f, "FusedIterator"@) == Some(DeriveKind::FusedIterator),
        derive_for(f, "Extend"@) == Some(DeriveKind::Extend),
        derive_for(f, "Future"@) == Some(DeriveKind::Future),
{
    lemma_name_facts();
    let ks = all_kinds();
    assert(ks[2] == DeriveKind::Debug);
    assert(kind_names(ks[2])[0] == "Debug"@);
    assert(!kind_names(ks[0]).contains("Debug"@));
    assert(!kind_names(ks[1]).contains("Debug"@));
    lemma_first_supported_at(f, "Debug"@, ks, 2);
    assert(ks[2] == DeriveKind::Debug);
    assert(kind_names(ks[2])[1] == "fmt::Debug"@);
    assert(!kind_names(ks[0]).contains("fmt::Debug"@));
    assert(!kind_names(ks[1]).contains("fmt::Debug"@));
    lemma_first_supported_at(f, "fmt::Debug"@, ks, 2);
    assert(ks[3] == DeriveKind::Display);
    assert(kind_names(ks[3])[0] == "Display"@);
    assert(!kind_names(ks[0]).contains("Display"@));
    assert(!kind_names(ks[1]).contains("Display"@));
    assert(!kind_names(ks[2]).contains("Display"@));
    lemma_first_supported_at(f, "Display"@, ks, 3);
    assert(ks[3] == DeriveKind::Display);
    assert(kind_names(ks[3])[1] == "fmt::Display"@);
    assert(!kind_names(ks[0]).contains("fmt::Display"@));
    assert(!kind_names(ks[1]).contains("fmt::Display"@));
    assert(!kind_names(ks[2]).contains("fmt::Display"@));
    lemma_first_supported_at(f, "fmt::Display"@, ks, 3);
    assert(ks[11] == DeriveKind::FmtWrite);
    assert(kind_names(ks[11])[0] == "fmt::Write"@);
    assert(!kind_names(ks[0]).contains("fmt::Write"@));
    assert(!kind_names(ks[1]).contains("fmt::Write"@));
    assert(!kind_names(ks[2]).contains("fmt::Write"@));
    assert(!kind_names(ks[3]).contains("fmt::Write"@));
    assert(!kind_names(ks[4]).contains("fmt::Write"@));
    assert(!kind_names(ks[5]).contains("fmt::Write"@));
    assert(!kind_names(ks[6]).contains("fmt::Write"@));
    assert(!kind_names(ks[7]).contains("fmt::Write"@));
    assert(!kind_names(ks[8]).contains("fmt::Write"@));
    assert(!kind_names(ks[9]).contains("fmt::Write"@));
    assert(!kind_names(ks[10]).contains("fmt::Write"@));
    lemma_first_supported_at(f, "fmt::Write"@, ks, 11);
    assert(ks[12] == DeriveKind::Iterator);
    assert(kind_names(ks[12])[0] == "Iterator"@);
    assert(!kind_names(ks[0]).contains("Iterator"@));
    assert(!kind_names(ks[1]).contains("Iterator"@));
    assert(!kind_names(ks[2]).contains("Iterator"@));
    assert(!kind_names(ks[3]).contains("Iterator"@));
    assert(!kind_names(ks[4]).contains("Iterator"@));
    assert(!kind_names(ks[5]).contains("Iterator"@));
    assert(!kind_names(ks[6]).contains("Iterator"@));
    assert(!kind_names(ks[7]).contains("Iterator"@));
    assert(!kind_names(ks[8]).contains("Iterator"@));
    assert(!kind_names(ks[9]).contains("Iterator"@));
    assert(!kind_names(ks[10]).contains("Iterator"@));
    assert(!kind_names(ks[11]).contains("Iterator"@));
    lemma_first_supported_at(f, "Iterator"@, ks, 12);
    assert(ks[13] == DeriveKind::DoubleEndedIterator);
    assert(kind_names(ks[13])[0] == "DoubleEndedIterator"@);
    assert(!kind_names(ks[0]).contains("DoubleEndedIterator"@));
    assert(!kind_names(ks[1]).contains("DoubleEndedIterator"@));
    assert(!kind_names(ks[2]).contains("DoubleEndedIterator"@));
    assert(!kind_names(ks[3]).contains("DoubleEndedIterator"@));
    assert(!kind_names(ks[4]).contains("DoubleEndedIterator"@));
    assert(!kind_names(ks[5]).contains("DoubleEndedIterator"@));
    assert(!kind_names(ks[6]).contains("DoubleEndedIterator"@));
    assert(!kind_names(ks[7]).contains("DoubleEndedIterator"@));
    assert(!kind_names(ks[8]).contains("DoubleEndedIterator"@));
    assert(!kind_names(ks[9]).contains("DoubleEndedIterator"@));
    assert(!kind_names(ks[10]).contains("DoubleEndedIterator"@));
    assert(!kind_names(ks[11]).contains("DoubleEndedIterator"@));
    assert(!kind_names(ks[12]).contains("DoubleEndedIterator"@));
    lemma_first_supported_at(f, "DoubleEndedIterator"@, ks, 13);
    assert(ks[14] == DeriveKind::ExactSizeIterator);
    assert(kind_names(ks[14])[0] == "ExactSizeIterator"@);
    assert(!kind_names(ks[0]).contains("ExactSizeIterator"@));
    assert(!kind_names(ks[1]).contains("ExactSizeIterator"@));
    assert(!kind_names(ks[2]).contains("ExactSizeIterator"@));
    assert(!kind_names(ks[3]).contains("ExactSizeIterator"@));
    assert(!kind_names(ks[4]).contains("ExactSizeIterator"@));
    assert(!kind_names(ks[5]).contains("ExactSizeIterator"@));
    assert(!kind_names(ks[6]).contains("ExactSizeIterator"@));
    assert(!kind_names(ks[7]).contains("ExactSizeIterator"@));
    assert(!kind_names(ks[8]).contains("ExactSizeIterator"@));
    assert(!kind_names(ks[9]).contains("ExactSizeIterator"@));
    assert(!kind_names(ks[10]).contains("ExactSizeIterator"@));
    assert(!kind_names(ks[11]).contains("ExactSizeIterator"@));
    assert(!kind_names(ks[12]).contains("ExactSizeIterator"@));
    assert(!kind_names(ks[13]).contains("ExactSizeIterator"@));
    lemma_first_supported_at(f, "ExactSizeIterator"@, ks, 14);
    assert(ks[15] == DeriveKind::FusedIterator);
    assert(kind_names(ks[15])[0] == "FusedIterator"@);
    assert(!kind_names(ks[0]).contains("FusedIterator"@));
    assert(!kind_names(ks[1]).contains("FusedIterator"@));
    assert(!kind_names(ks[2]).contains("FusedIterator"@));
    assert(!kind_names(ks[3]).contains("FusedIterator"@));
    assert(!kind_names(ks[4]).contains("FusedIterator"@));
    assert(!kind_names(ks[5]).contains("FusedIterator"@));
    assert(!kind_names(ks[6]).contains("FusedIterator"@));
    assert(!kind_names(ks[7]).contains("FusedIterator"@));
    assert(!kind_names(ks[8]).contains("FusedIterator"@));
    assert(!kind_names(ks[9]).contains("FusedIterator"@));
    assert(!kind_names(ks[10]).contains("FusedIterator"@));
    assert(!kind_names(ks[11]).contains("FusedIterator"@));
    assert(!kind_names(ks[12]).contains("FusedIterator"@));
    assert(!kind_names(ks[13]).contains("FusedIterator"@));
    assert(!kind_names(ks[14]).contains("FusedIterator"@));
    lemma_first_supported_at(f, "FusedIterator"@, ks, 15);
    assert(ks[17] == DeriveKind::Extend);
    assert(kind_names(ks[17])[0] == "Extend"@);
    assert(!kind_names(ks[0]).contains("Extend"@));
    assert(!kind_names(ks[1]).contains("Extend"@));
    assert(!kind_names(ks[2]).contains("Extend"@));
    assert(!kind_names(ks[3]).contains("Extend"@));
    assert(!kind_names(ks[4]).contains("Extend"@));
    assert(!kind_names(ks[5]).contains("Extend"@));
    assert(!kind_names(ks[6]).contains("Extend"@));
    assert(!kind_names(ks[7]).contains("Extend"@));
    assert(!kind_names(ks[8]).contains("Extend"@));
    assert(!kind_names(ks[9]).contains("Extend"@));
    assert(!kind_names(ks[10]).contains("Extend"@));
    assert(!kind_names(ks[11]).contains("Extend"@));
    assert(!kind_names(ks[12]).contains("Extend"@));
    assert(!kind_names(ks[13]).contains("Extend"@));
    assert(!kind_names(ks[14]).contains("Extend"@));
    assert(!kind_names(ks[15]).contains("Extend"@));
    assert(!kind_names(ks[16]).contains("Extend"@));
    lemma_first_supported_at(f, "Extend"@, ks, 17);
    assert(ks[27] == DeriveKind::Future);
    assert(kind_names(ks[27])[0] == "Future"@);
    assert(!kind_names(ks[0]).contains("Future"@));
    assert(!kind_names(ks[1]).contains("Future"@));
    assert(!kind_names(ks[2]).contains("Future"@));
    assert(!kind_names(ks[3]).contains("Future"@));
    assert(!kind_names(ks[4]).contains("Future"@));
    assert(!kind_names(ks[5]).contains("Future"@));
    assert(!kind_names(ks[6]).contains("Future"@));
    assert(!kind_names(ks[7]).contains("Future"@));
    assert(!kind_names(ks[8]).contains("Future"@));
    assert(!kind_names(ks[9]).contains("Future"@));
    assert(!kind_names(ks[10]).contains("Future"@));
    assert(!kind_names(ks[11]).contains("Future"@));
    assert(!kind_names(ks[12]).contains("Future"@));
    assert(!kind_names(ks[13]).contains("Future"@));
    assert(!kind_names(ks[14]).contains("Future"@));
    assert(!kind_names(ks[15]).contains("Future"@));
    assert(!kind_names(ks[16]).contains("Future"@));
    assert(!kind_names(ks[17]).contains("Future"@));
    assert(!kind_names(ks[18]).contains("Future"@));
    assert(!kind_names(ks[19]).contains("Future"@));
    assert(!kind_names(ks[20]).contains("Future"@));
    assert(!kind_names(ks[21]).contains("Future"@));
    assert(!kind_names(ks[22]).contains("Future"@));
    assert(!kind_names(ks[23]).contains("Future"@));
    assert(!kind_names(ks[24]).contains("Future"@));
    assert(!kind_names(ks[25]).contains("Future"@));
    assert(!kind_names(ks[26]).contains("Future"@));
    lemma_first_supported_at(f, "Future"@, ks, 27);
}

} // verus!
