//! The flag calculator: derives the type-flags bitmask from cycle-collector
//! participation, presence of collector-protocol slots and subclassability.

use vstd::prelude::*;
use crate::defs::{PY_TPFLAGS_BASETYPE, PY_TPFLAGS_DEFAULT, PY_TPFLAGS_HAVE_GC};

verus! {

/// The flag bitmask a descriptor yields: the default flags, the collector
/// flag when the type participates in cycle collection (explicitly or
/// through a traverse/clear slot), and the basetype flag when subclassing is
/// permitted.
pub open spec fn spec_flags(has_gc_methods: bool, is_gc: bool, is_basetype: bool) -> u32 {
    let base = if has_gc_methods || is_gc {
        PY_TPFLAGS_DEFAULT | PY_TPFLAGS_HAVE_GC
    } else {
        PY_TPFLAGS_DEFAULT
    };
    if is_basetype {
        base | PY_TPFLAGS_BASETYPE
    } else {
        base
    }
}

/// Compute the type-flags bitmask. Total over its three inputs; no error path.
pub fn py_class_flags(has_gc_methods: bool, is_gc: bool, is_basetype: bool) -> (r: u32)
    ensures
        r == spec_flags(has_gc_methods, is_gc, is_basetype),
{
    let mut flags: u32 = if has_gc_methods || is_gc {
        PY_TPFLAGS_DEFAULT | PY_TPFLAGS_HAVE_GC
    } else {
        PY_TPFLAGS_DEFAULT
    };
    if is_basetype {
        flags = flags | PY_TPFLAGS_BASETYPE;
    }
    flags
}

/// The collector flag is set in the computed bitmask exactly when the type
/// participates in cycle collection explicitly or has collector-protocol
/// slots.
pub proof fn lemma_gc_flag_iff(has_gc_methods: bool, is_gc: bool, is_basetype: bool)
    ensures
        (spec_flags(has_gc_methods, is_gc, is_basetype) & PY_TPFLAGS_HAVE_GC != 0)
            <==> (has_gc_methods || is_gc),
{
    assert(0x40000u32 & 0x4000u32 == 0) by (bit_vector);
    assert((0x40000u32 | 0x4000u32) & 0x4000u32 != 0) by (bit_vector);
    assert((0x40000u32 | 0x400u32) & 0x4000u32 == 0) by (bit_vector);
    assert((0x40000u32 | 0x4000u32 | 0x400u32) & 0x4000u32 != 0) by (bit_vector);
}

/// The basetype flag is set in the computed bitmask exactly when subclassing
/// is permitted.
pub proof fn lemma_basetype_flag_iff(has_gc_methods: bool, is_gc: bool, is_basetype: bool)
    ensures
        (spec_flags(has_gc_methods, is_gc, is_basetype) & PY_TPFLAGS_BASETYPE != 0)
            <==> is_basetype,
{
    assert(0x40000u32 & 0x400u32 == 0) by (bit_vector);
    assert((0x40000u32 | 0x4000u32) & 0x400u32 == 0) by (bit_vector);
    assert((0x40000u32 | 0x400u32) & 0x400u32 != 0) by (bit_vector);
    assert((0x40000u32 | 0x4000u32 | 0x400u32) & 0x400u32 != 0) by (bit_vector);
}

} // verus!
