//! When two descriptions of a props record compare equal: exactly when every
//! part of the one is the same as in the other. This is about the records
//! as lowering writes them. Values of a record type, once it is compiled,
//! compare by the `PartialEq` that the record derives.

use vstd::prelude::*;
use vstd::std_specs::cmp::PartialEqSpec;
use crate::values::views;
use crate::items::{PropsField, PropsRecord};

verus! {

/// Two descriptions of a props record compare equal exactly when every part
/// of the one has the value of the same part of the other.
pub proof fn lemma_props_equal_by_parts(a: PropsRecord, b: PropsRecord)
    ensures
        PropsRecord::obeys_eq_spec(),
        a.eq_spec(&b) <==> {
            &&& views(a.attrs@) == views(b.attrs@)
            &&& a.vis@ == b.vis@
            &&& a.ident@ == b.ident@
            &&& a.generics@ == b.generics@
            &&& views(a.fields@) == views(b.fields@)
        },
        a.eq_spec(&a),
{
}

/// A description in which one field differs from the same field of `a`
/// does not compare equal to `a`.
pub proof fn lemma_changed_field_unequal(a: PropsRecord, b: PropsRecord, i: int)
    requires
        0 <= i < a.fields.len(),
        a.fields.len() == b.fields.len(),
        a.fields[i]@ != b.fields[i]@,
    ensures
        !a.eq_spec(&b),
        !b.eq_spec(&a),
{
    assert(views(a.fields@)[i] == a.fields[i]@);
    assert(views(b.fields@)[i] == b.fields[i]@);
}

/// Two fields compare equal exactly when attributes, visibility, name and
/// type are the same.
pub proof fn lemma_field_equal_by_parts(a: PropsField, b: PropsField)
    ensures
        a.eq_spec(&b) <==> {
            &&& views(a.attrs@) == views(b.attrs@)
            &&& a.vis@ == b.vis@
            &&& a.name@ == b.name@
            &&& a.ty@ == b.ty@
        },
{
}

} // verus!
