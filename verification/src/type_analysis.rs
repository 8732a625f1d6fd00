//! The `type_analysis` feature: the traits of the `impl Trait` types in a
//! function's return type or a `let` binding's type are implemented by the
//! generated enum without being named as arguments.

use vstd::prelude::*;

use crate::ast::{path_idents, Path, Segment};
use crate::text::str_eq;

verus! {

/// A type, as far as this feature reads it: the trait bounds of the
/// `impl Trait` types in it, in the order in which a walk over the type
/// finishes them (inner `impl Trait` types first).
pub struct TypeModel {
    pub bounds: Vec<Path>,
}

/// The traits that a single name selects.
pub open spec fn plain_names() -> Seq<Seq<char>> {
    seq![
        "Clone"@, "Copy"@, "PartialEq"@, "Eq"@, "PartialOrd"@, "Ord"@, "Hash"@, "AsRef"@,
        "AsMut"@, "Into"@, "Debug"@, "Display"@, "Iterator"@, "DoubleEndedIterator"@,
        "ExactSizeIterator"@, "FusedIterator"@, "TrustedLen"@, "Extend"@, "Deref"@,
        "DerefMut"@, "Index"@, "IndexMut"@, "RangeBounds"@, "Fn"@, "FnMut"@, "FnOnce"@,
        "Coroutine"@, "Future"@, "Read"@, "BufRead"@, "Write"@, "Seek"@, "Error"@,
    ]
}

/// The traits named `fmt::X`.
pub open spec fn fmt_names() -> Seq<Seq<char>> {
    seq![
        "Debug"@, "Display"@, "Binary"@, "LowerExp"@, "LowerHex"@, "Octal"@, "Pointer"@,
        "UpperExp"@, "UpperHex"@, "Write"@,
    ]
}

/// The traits named `io::X`.
pub open spec fn io_names() -> Seq<Seq<char>> {
    seq!["Read"@, "BufRead"@, "Write"@, "Seek"@]
}

/// Whether the path with the identifiers `ids` names a trait that the
/// generated enum can implement.
pub open spec fn known_trait(ids: Seq<Seq<char>>) -> bool {
    ||| ids.len() == 1 && plain_names().contains(ids[0])
    ||| ids.len() == 2 && ids[0] == "fmt"@ && fmt_names().contains(ids[1])
    ||| ids.len() == 2 && ids[0] == "io"@ && io_names().contains(ids[1])
    ||| ids.len() == 2 && ids[0] == "error"@ && ids[1] == "Error"@
}

/// `q` is `p` without a leading `::` and without generic arguments.
pub open spec fn is_bare_of(q: Path, p: Path) -> bool {
    &&& !q.leading_colon
    &&& q.handle == p.handle
    &&& q.segments@.len() == p.segments@.len()
    &&& forall|i: int|
        0 <= i < q.segments@.len() ==> (#[trigger] q.segments@[i]).ident@ == p.segments@[i].ident@
            && !q.segments@[i].has_args
}

/// Whether some argument has the identifiers of `b`.
pub open spec fn named_by(args: Seq<Path>, b: Path) -> bool {
    exists|i: int| 0 <= i < args.len() && path_idents(#[trigger] args[i]) == path_idents(b)
}

/// The `impl Trait` bounds among `bounds` whose traits the generated enum
/// adds, in order: each bound that names a trait the enum can implement and
/// that no argument names (arguments and bounds compared by their
/// identifiers).
pub open spec fn bounds_to_add(args: Seq<Path>, bounds: Seq<Path>) -> Seq<Path>
    decreases bounds.len(),
{
    if bounds.len() == 0 {
        seq![]
    } else {
        let prev = bounds_to_add(args, bounds.drop_last());
        let b = bounds.last();
        if known_trait(path_idents(b)) && !named_by(args, b) {
            prev.push(b)
        } else {
            prev
        }
    }
}

/// The bounds of the type `ty` whose traits are added for an attribute with
/// the arguments `args`.
pub open spec fn impl_bounds_to_add(args: Seq<Path>, ty: TypeModel) -> Seq<Path> {
    bounds_to_add(args, ty.bounds@)
}

/// The texts of a list of names.
pub open spec fn list_view(v: Seq<&str>) -> Seq<Seq<char>> {
    v.map_values(|x: &str| x@)
}

fn plain_list() -> (r: Vec<&'static str>)
    ensures
        list_view(r@) == plain_names(),
{
    let r = vec![
        "Clone", "Copy", "PartialEq", "Eq", "PartialOrd", "Ord", "Hash", "AsRef",
        "AsMut", "Into", "Debug", "Display", "Iterator", "DoubleEndedIterator",
        "ExactSizeIterator", "FusedIterator", "TrustedLen", "Extend", "Deref",
        "DerefMut", "Index", "IndexMut", "RangeBounds", "Fn", "FnMut", "FnOnce",
        "Coroutine", "Future", "Read", "BufRead", "Write", "Seek", "Error",
    ];
    assert(list_view(r@) =~= plain_names());
    r
}

fn fmt_list() -> (r: Vec<&'static str>)
    ensures
        list_view(r@) == fmt_names(),
{
    let r = vec![
        "Debug", "Display", "Binary", "LowerExp", "LowerHex", "Octal", "Pointer",
        "UpperExp", "UpperHex", "Write",
    ];
    assert(list_view(r@) =~= fmt_names());
    r
}

fn io_list() -> (r: Vec<&'static str>)
    ensures
        list_view(r@) == io_names(),
{
    let r = vec!["Read", "BufRead", "Write", "Seek"];
    assert(list_view(r@) =~= io_names());
    r
}

/// Whether `s` is in `list`.
fn in_list(list: &Vec<&str>, s: &str) -> (r: bool)
    ensures
        r == list_view(list@).contains(s@),
{
    let mut i: usize = 0;
    while i < list.len()
        invariant
            i <= list.len(),
            forall|j: int| 0 <= j < i ==> list@[j]@ != s@,
        decreases list.len() - i,
    {
        if str_eq(list[i], s) {
            assert(list_view(list@)[i as int] == s@);
            return true;
        }
        i = i + 1;
    }
    assert(!list_view(list@).contains(s@)) by {
        if list_view(list@).contains(s@) {
            let j = choose|j: int| 0 <= j < list_view(list@).len() && list_view(list@)[j] == s@;
            assert(list@[j]@ == s@);
        }
    }
    false
}

/// Whether `p` names a trait that the generated enum can implement.
pub fn is_known_trait(p: &Path) -> (r: bool)
    ensures
        r == known_trait(path_idents(*p)),
{
    let ghost ids = path_idents(*p);
    let n = p.segments.len();
    if n == 1 {
        assert(ids[0] == p.segments@[0].ident@);
        in_list(&plain_list(), p.segments[0].ident.as_str())
    } else if n == 2 {
        assert(ids[0] == p.segments@[0].ident@);
        assert(ids[1] == p.segments@[1].ident@);
        proof {
            reveal_strlit("fmt");
            reveal_strlit("io");
            reveal_strlit("error");
        }
        let first = p.segments[0].ident.as_str();
        let second = p.segments[1].ident.as_str();
        if str_eq(first, "fmt") {
            in_list(&fmt_list(), second)
        } else if str_eq(first, "io") {
            in_list(&io_list(), second)
        } else {
            str_eq(first, "error") && str_eq(second, "Error")
        }
    } else {
        false
    }
}

/// Whether `a` and `b` have the same identifiers.
fn same_idents(a: &Path, b: &Path) -> (r: bool)
    ensures
        r == (path_idents(*a) == path_idents(*b)),
{
    if a.segments.len() != b.segments.len() {
        assert(path_idents(*a).len() != path_idents(*b).len());
        return false;
    }
    let mut i: usize = 0;
    while i < a.segments.len()
        invariant
            i <= a.segments.len(),
            a.segments.len() == b.segments.len(),
            forall|j: int| 0 <= j < i ==> a.segments@[j].ident@ == b.segments@[j].ident@,
        decreases a.segments.len() - i,
    {
        if !str_eq(a.segments[i].ident.as_str(), b.segments[i].ident.as_str()) {
            assert(path_idents(*a)[i as int] != path_idents(*b)[i as int]);
            return false;
        }
        i = i + 1;
    }
    assert(path_idents(*a) =~= path_idents(*b));
    true
}

/// Whether some argument has the identifiers of `b`.
fn is_named_by(args: &Vec<Path>, b: &Path) -> (r: bool)
    ensures
        r == named_by(args@, *b),
{
    let mut i: usize = 0;
    while i < args.len()
        invariant
            i <= args.len(),
            forall|j: int| 0 <= j < i ==> path_idents(#[trigger] args@[j]) != path_idents(*b),
        decreases args.len() - i,
    {
        if same_idents(&args[i], b) {
            return true;
        }
        i = i + 1;
    }
    false
}

/// `p` without a leading `::` and without generic arguments.
fn bare_path(p: &Path) -> (r: Path)
    ensures
        is_bare_of(r, *p),
{
    let mut segs: Vec<Segment> = Vec::new();
    let mut i: usize = 0;
    while i < p.segments.len()
        invariant
            i <= p.segments.len(),
            segs@.len() == i,
            forall|j: int|
                0 <= j < i ==> (#[trigger] segs@[j]).ident@ == p.segments@[j].ident@
                    && !segs@[j].has_args,
        decreases p.segments.len() - i,
    {
        segs.push(Segment { ident: p.segments[i].ident.clone(), has_args: false });
        i = i + 1;
    }
    Path { leading_colon: false, segments: segs, handle: p.handle }
}

/// Adds to `traits` the traits of the `impl Trait` bounds of `ty` that the
/// generated enum can implement and that no argument in `args` names, each
/// without generic arguments, and tells whether it added any.
pub fn collect_impl_trait(args: &Vec<Path>, traits: &mut Vec<Path>, ty: &TypeModel) -> (r: bool)
    ensures
        final(traits)@.len() == old(traits)@.len() + impl_bounds_to_add(args@, *ty).len(),
        forall|i: int| 0 <= i < old(traits)@.len() ==> final(traits)@[i] == old(traits)@[i],
        forall|j: int|
            0 <= j < impl_bounds_to_add(args@, *ty).len() ==> is_bare_of(
                #[trigger] final(traits)@[old(traits)@.len() + j],
                impl_bounds_to_add(args@, *ty)[j],
            ),
        r == (impl_bounds_to_add(args@, *ty).len() > 0),
{
    let ghost bs = ty.bounds@;
    let ghost start = traits@;
    let mut added: bool = false;
    let mut i: usize = 0;
    assert(bs.take(0) =~= Seq::<Path>::empty());
    while i < ty.bounds.len()
        invariant
            bs == ty.bounds@,
            i <= bs.len(),
            traits@.len() == start.len() + bounds_to_add(args@, bs.take(i as int)).len(),
            forall|k: int| 0 <= k < start.len() ==> traits@[k] == start[k],
            forall|j: int|
                0 <= j < bounds_to_add(args@, bs.take(i as int)).len() ==> is_bare_of(
                    #[trigger] traits@[start.len() + j],
                    bounds_to_add(args@, bs.take(i as int))[j],
                ),
            added == (bounds_to_add(args@, bs.take(i as int)).len() > 0),
        decreases bs.len() - i,
    {
        let ghost prev = bounds_to_add(args@, bs.take(i as int));
        assert(bs.take(i + 1).drop_last() =~= bs.take(i as int));
        assert(bs.take(i + 1).last() == bs[i as int]);
        let b = &ty.bounds[i];
        if is_known_trait(b) && !is_named_by(args, b) {
            let q = bare_path(b);
            let ghost before = traits@;
            traits.push(q);
            added = true;
            assert(bounds_to_add(args@, bs.take(i + 1)) == prev.push(bs[i as int]));
            assert forall|j: int| 0 <= j < prev.len() + 1 implies is_bare_of(
                #[trigger] traits@[start.len() + j],
                prev.push(bs[i as int])[j],
            ) by {
                if j < prev.len() {
                    assert(traits@[start.len() + j] == before[start.len() + j]);
                }
            }
        }
        i = i + 1;
    }
    assert(bs.take(bs.len() as int) =~= bs);
    added
}

} // verus!
