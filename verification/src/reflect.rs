//! Generic object services the foreign runtime offers for every object:
//! equality, hashing, display rendering, class lookup and enum reflection.
//!
//! The foreign equals/hashCode pair is modeled by each record's abstract
//! identity (`value_id`): two objects are foreign-equal exactly when their
//! identities agree, and the foreign hash is a function of the same
//! identity, which is precisely the consistency Java requires of the pair.

use vstd::prelude::*;

use crate::handles::OwnedKotlinPtr;
use crate::runtime::ForeignRuntime;
use crate::runtime::rec_meta_eq;
use crate::runtime::records_unchanged_except;
use crate::text::decode_utf16;
use crate::text::str_of_utf16;

verus! {

/// Foreign equality of two objects, via the runtime's generic equals entry
/// point.
pub fn equals(rt: &ForeignRuntime, x: usize, y: usize) -> (r: bool)
    requires
        (x as int) < rt.records@.len(),
        (y as int) < rt.records@.len(),
    ensures
        r == (rt.records@[x as int].value_id == rt.records@[y as int].value_id),
{
    rt.records[x].value_id == rt.records[y].value_id
}

/// Feed an object's foreign hash code into a host-side hasher, modeled as
/// the sequence of words written to it.  The hash is a function of the same
/// identity that backs [`equals`], so foreign-equal objects hash alike.
pub fn apply_hash_code(rt: &ForeignRuntime, x: usize, hasher: &mut Vec<u64>)
    requires
        (x as int) < rt.records@.len(),
        old(hasher)@.len() < usize::MAX,
    ensures
        final(hasher)@ == old(hasher)@.push(rt.records@[x as int].value_id),
{
    hasher.push(rt.records[x].value_id);
}

/// An object's fully-qualified foreign class name.
pub fn class_name(rt: &ForeignRuntime, obj: usize) -> (r: String)
    requires
        (obj as int) < rt.records@.len(),
    ensures
        r@ == rt.records@[obj as int].class_name@,
{
    rt.records[obj].class_name.clone()
}

/// An object's display rendering, via the runtime's generic to-string entry
/// point, transcoded to host text.
pub fn to_string(rt: &ForeignRuntime, x: usize) -> (r: String)
    requires
        (x as int) < rt.records@.len(),
    ensures
        r@ == decode_utf16(rt.records@[x as int].display@),
{
    str_of_utf16(&rt.records[x].display)
}

/// The name of a foreign enum constant.  The call consumes the transient
/// reference it was handed and releases it, as every transient reference
/// must be released once read.
pub fn enum_name(rt: &mut ForeignRuntime, value: OwnedKotlinPtr) -> (r: String)
    requires
        old(rt).wf(),
        0 <= value.id() < old(rt).records@.len(),
    ensures
        final(rt).wf(),
        r@ == decode_utf16(old(rt).records@[value.id()].display@),
        records_unchanged_except(old(rt).records@, final(rt).records@, value.id()),
        rec_meta_eq(old(rt).records@[value.id()], final(rt).records@[value.id()]),
        final(rt).records@[value.id()].releases == crate::runtime::bump(
            old(rt).records@[value.id()].releases,
        ),
        final(rt).records@[value.id()].roots == old(rt).records@[value.id()].roots,
        final(rt).cells@ == old(rt).cells@,
        final(rt).replies@ == old(rt).replies@,
        final(rt).calls@ == old(rt).calls@,
        final(rt).classes@ == old(rt).classes@,
        final(rt).pending_fault == old(rt).pending_fault,
{
    let h = value.record_id();
    let r = str_of_utf16(&rt.records[h].display);
    value.dispose(rt);
    r
}

/// The ordinal of a foreign enum constant.  Consumes and releases the
/// transient reference, like [`enum_name`].
pub fn enum_ordinal(rt: &mut ForeignRuntime, value: OwnedKotlinPtr) -> (r: u64)
    requires
        old(rt).wf(),
        0 <= value.id() < old(rt).records@.len(),
    ensures
        final(rt).wf(),
        r == old(rt).records@[value.id()].ordinal,
        records_unchanged_except(old(rt).records@, final(rt).records@, value.id()),
        rec_meta_eq(old(rt).records@[value.id()], final(rt).records@[value.id()]),
        final(rt).records@[value.id()].releases == crate::runtime::bump(
            old(rt).records@[value.id()].releases,
        ),
        final(rt).records@[value.id()].roots == old(rt).records@[value.id()].roots,
        final(rt).cells@ == old(rt).cells@,
        final(rt).replies@ == old(rt).replies@,
        final(rt).calls@ == old(rt).calls@,
        final(rt).classes@ == old(rt).classes@,
        final(rt).pending_fault == old(rt).pending_fault,
{
    let h = value.record_id();
    let r = rt.records[h].ordinal;
    value.dispose(rt);
    r
}

} // verus!
