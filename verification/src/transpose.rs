//! The shape that the `Transpose` implementation asks of an enum.

use vstd::prelude::*;

use crate::text::str_eq;

verus! {

/// Whether `t` is the type text `g`.
pub open spec fn field_is(t: Option<String>, g: String) -> bool {
    match t {
        Some(s) => s@ == g@,
        None => false,
    }
}

/// Whether every field is a generic parameter of the enum, in order: the
/// `i`-th variant's single field has the type of the `i`-th generic
/// parameter, and there are as many variants as parameters. `generics` holds
/// the texts of the enum's generic parameters, and `field_tys` the text of
/// each variant's field type (`None` for a variant without a single field).
pub fn check_fields(generics: &Vec<String>, field_tys: &Vec<Option<String>>) -> (r: bool)
    ensures
        r == (field_tys@.len() == generics@.len() && forall|i: int|
            0 <= i < generics@.len() ==> field_is(#[trigger] field_tys@[i], generics@[i])),
{
    if field_tys.len() != generics.len() {
        return false;
    }
    let mut i: usize = 0;
    while i < generics.len()
        invariant
            i <= generics.len(),
            field_tys@.len() == generics@.len(),
            forall|j: int| 0 <= j < i ==> field_is(#[trigger] field_tys@[j], generics@[j]),
        decreases generics.len() - i,
    {
        match &field_tys[i] {
            Some(t) => {
                if !str_eq(t.as_str(), generics[i].as_str()) {
                    assert(!field_is(field_tys@[i as int], generics@[i as int]));
                    return false;
                }
                assert(field_is(field_tys@[i as int], generics@[i as int]));
            },
            None => {
                assert(!field_is(field_tys@[i as int], generics@[i as int]));
                return false;
            },
        }
        i = i + 1;
    }
    true
}

} // verus!
