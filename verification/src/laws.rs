//! Laws of the assembly, stated and proved over the spec-level models: what
//! the flag calculator, the table builders and the assembler guarantee for
//! every descriptor.

use vstd::prelude::*;
use crate::defs::{
    getset_sentinel, member_sentinel, method_sentinel, ClassDescriptorModel, GetSetterDefModel,
    HostConfig, MethodDefTypeModel, PY_TPFLAGS_BASETYPE, PY_TPFLAGS_HAVE_GC, PY_TP_CLEAR,
    PY_TP_TRAVERSE,
};
use crate::flags::{lemma_basetype_flag_iff, lemma_gc_flag_iff};
use crate::patch::{spec_patched, TypeObjectModel};
use crate::slots::{
    proto_slots_model, ptr_slot, spec_assembled_slots, spec_has_gc_methods, spec_mandatory_slots,
    spec_table_slots, spec_type_spec, BufferProcs, SlotPayloadModel,
};
use crate::tables::{
    getset_name, spec_apply_getset, spec_getset_names, spec_member_entries, spec_member_table,
    spec_merged_entry, spec_merged_getsets, spec_method_table, spec_property_table,
};

verus! {

/// A descriptor with no method definitions yields a slot list with no method
/// table at all — the slot is omitted entirely, not present with a lone
/// sentinel.
pub proof fn lemma_empty_method_defs_no_method_slot(d: ClassDescriptorModel, config: HostConfig)
    requires
        d.method_defs.len() == 0,
    ensures
        forall|k: int|
            0 <= k < spec_assembled_slots(d, config).len() ==> !(
            #[trigger] spec_assembled_slots(d, config)[k].payload is Methods),
{
    lemma_no_empty_table_slots(d, config);
    assert(spec_method_table(d.method_defs).len() == 0);
}

/// The flag bitmask of an assembled specification has the collector flag set
/// exactly when the descriptor opts into cycle collection or some protocol
/// slot implements the traverse/clear protocol.
pub proof fn lemma_spec_gc_flag(d: ClassDescriptorModel, config: HostConfig)
    ensures
        (spec_type_spec(d, config).flags & PY_TPFLAGS_HAVE_GC != 0) <==> (d.is_gc || exists|i: int|
            0 <= i < d.proto_slots.len() && (#[trigger] d.proto_slots[i].slot == PY_TP_CLEAR
                || d.proto_slots[i].slot == PY_TP_TRAVERSE)),
{
    lemma_gc_flag_iff(spec_has_gc_methods(d.proto_slots), d.is_gc, d.is_basetype);
}

/// The flag bitmask of an assembled specification has the basetype flag set
/// exactly when the descriptor permits subclassing.
pub proof fn lemma_spec_basetype_flag(d: ClassDescriptorModel, config: HostConfig)
    ensures
        (spec_type_spec(d, config).flags & PY_TPFLAGS_BASETYPE != 0) <==> d.is_basetype,
{
    lemma_basetype_flag_iff(spec_has_gc_methods(d.proto_slots), d.is_gc, d.is_basetype);
}

/// The member table holds an entry exactly for each of the two offsets that
/// is present: none and the table is empty; one and it is that entry plus
/// the sentinel; both and it is the two entries plus the sentinel.
pub proof fn lemma_member_table_entries(
    dict_offset: Option<isize>,
    weaklist_offset: Option<isize>,
)
    ensures
        spec_member_entries(dict_offset, weaklist_offset).len() == (if dict_offset is Some {
            1int
        } else {
            0int
        }) + (if weaklist_offset is Some {
            1int
        } else {
            0int
        }),
        spec_member_table(dict_offset, weaklist_offset).len() == (if spec_member_entries(
            dict_offset,
            weaklist_offset,
        ).len() == 0 {
            0int
        } else {
            spec_member_entries(dict_offset, weaklist_offset).len() + 1int
        }),
{
}

/// When the host registers members through slots, the assembled slot list
/// carries a member table exactly when some offset is present; when it does
/// not, the slot list carries none and the patcher writes the present
/// offsets onto the created type object instead.
pub proof fn lemma_member_registration(
    d: ClassDescriptorModel,
    config: HostConfig,
    t: TypeObjectModel,
    tp_doc: Seq<u8>,
    buffer_procs: BufferProcs,
)
    ensures
        !config.supports_slot_based_members ==> forall|k: int|
            0 <= k < spec_assembled_slots(d, config).len() ==> !(
            #[trigger] spec_assembled_slots(d, config)[k].payload is Members),
        !config.supports_slot_based_members && d.dict_offset is Some ==> spec_patched(
            t,
            tp_doc,
            buffer_procs,
            d.dict_offset,
            d.weaklist_offset,
            config,
        ).tp_dictoffset == d.dict_offset.unwrap(),
        !config.supports_slot_based_members && d.weaklist_offset is Some ==> spec_patched(
            t,
            tp_doc,
            buffer_procs,
            d.dict_offset,
            d.weaklist_offset,
            config,
        ).tp_weaklistoffset == d.weaklist_offset.unwrap(),
        config.supports_slot_based_members && (d.dict_offset is Some
            || d.weaklist_offset is Some) ==> exists|k: int|
            0 <= k < spec_assembled_slots(d, config).len()
                && #[trigger] spec_assembled_slots(d, config)[k].payload == SlotPayloadModel::Members(
                spec_member_table(d.dict_offset, d.weaklist_offset),
            ),
{
    let m = spec_mandatory_slots(d, config);
    let t2 = spec_table_slots(d, config);
    let full = spec_assembled_slots(d, config);
    if !config.supports_slot_based_members {
        assert forall|k: int| 0 <= k < full.len() implies !(#[trigger] full[k].payload is Members) by {
            lemma_slot_region_payloads(d, config, k);
        }
    } else if d.dict_offset is Some || d.weaklist_offset is Some {
        lemma_member_table_entries(d.dict_offset, d.weaklist_offset);
        assert(spec_member_table(d.dict_offset, d.weaklist_offset).len() > 0);
        assert(t2[0].payload == SlotPayloadModel::Members(
            spec_member_table(d.dict_offset, d.weaklist_offset),
        ));
        assert(full[m.len() as int].payload == SlotPayloadModel::Members(
            spec_member_table(d.dict_offset, d.weaklist_offset),
        ));
    }
}

/// Any one position of the assembled slot list is either a plain pointer or
/// documentation slot of the mandatory head, one of the generated tables,
/// a protocol slot, or the sentinel; every table payload standing in the
/// list is the corresponding generated table, and it is non-empty.
proof fn lemma_slot_region_payloads(d: ClassDescriptorModel, config: HostConfig, k: int)
    requires
        0 <= k < spec_assembled_slots(d, config).len(),
    ensures
        (spec_assembled_slots(d, config)[k].payload matches SlotPayloadModel::Members(mt)
            ==> config.supports_slot_based_members && mt == spec_member_table(
            d.dict_offset,
            d.weaklist_offset,
        ) && mt.len() > 0),
        (spec_assembled_slots(d, config)[k].payload matches SlotPayloadModel::Methods(mt)
            ==> mt == spec_method_table(d.method_defs) && mt.len() > 0),
        (spec_assembled_slots(d, config)[k].payload matches SlotPayloadModel::GetSet(gt) ==> gt
            == spec_property_table(d.method_defs, d.dict_offset is None, config) && gt.len() > 0),
{
    let m = spec_mandatory_slots(d, config);
    let t = spec_table_slots(d, config);
    let p = proto_slots_model(d.proto_slots);
    let full = spec_assembled_slots(d, config);
    if k < m.len() {
        assert(full[k] == m[k]);
    } else if k < m.len() + t.len() {
        assert(full[k] == t[k - m.len()]);
    } else if k < m.len() + t.len() + p.len() {
        assert(full[k] == p[k - m.len() - t.len()]);
        assert(p[k - m.len() - t.len()] == ptr_slot(
            d.proto_slots[k - m.len() - t.len()].slot,
            d.proto_slots[k - m.len() - t.len()].pfunc,
        ));
    } else {
        assert(full[k] == ptr_slot(0, 0));
    }
}

/// No empty generated table stands in the assembled slot list: a table slot
/// is present only when the table it carries is non-empty.
pub proof fn lemma_no_empty_table_slots(d: ClassDescriptorModel, config: HostConfig)
    ensures
        forall|k: int|
            0 <= k < spec_assembled_slots(d, config).len()
                ==> ((#[trigger] spec_assembled_slots(d, config)[k].payload matches
            SlotPayloadModel::Members(mt) ==> mt == spec_member_table(
                d.dict_offset,
                d.weaklist_offset,
            ) && mt.len() > 0) && (spec_assembled_slots(d, config)[k].payload matches
            SlotPayloadModel::Methods(mt) ==> mt == spec_method_table(d.method_defs) && mt.len()
                > 0) && (spec_assembled_slots(d, config)[k].payload matches
            SlotPayloadModel::GetSet(gt) ==> gt == spec_property_table(
                d.method_defs,
                d.dict_offset is None,
                config,
            ) && gt.len() > 0)),
{
    assert forall|k: int| 0 <= k < spec_assembled_slots(d, config).len() implies ((
    #[trigger] spec_assembled_slots(d, config)[k].payload matches SlotPayloadModel::Members(mt)
        ==> mt == spec_member_table(d.dict_offset, d.weaklist_offset) && mt.len() > 0) && (
    spec_assembled_slots(d, config)[k].payload matches SlotPayloadModel::Methods(mt) ==> mt
        == spec_method_table(d.method_defs) && mt.len() > 0) && (spec_assembled_slots(
        d,
        config,
    )[k].payload matches SlotPayloadModel::GetSet(gt) ==> gt == spec_property_table(
        d.method_defs,
        d.dict_offset is None,
        config,
    ) && gt.len() > 0)) by {
        lemma_slot_region_payloads(d, config, k);
    }
}

/// Every non-empty generated table ends with its all-zero sentinel, and the
/// assembled slot list itself ends with the sentinel slot.
pub proof fn lemma_sentinel_termination(d: ClassDescriptorModel, config: HostConfig)
    ensures
        spec_method_table(d.method_defs).len() > 0 ==> spec_method_table(d.method_defs).last()
            == method_sentinel(),
        spec_member_table(d.dict_offset, d.weaklist_offset).len() > 0 ==> spec_member_table(
            d.dict_offset,
            d.weaklist_offset,
        ).last() == member_sentinel(),
        spec_property_table(d.method_defs, d.dict_offset is None, config).len() > 0
            ==> spec_property_table(d.method_defs, d.dict_offset is None, config).last()
            == getset_sentinel(),
        spec_assembled_slots(d, config).len() > 0,
        spec_assembled_slots(d, config).last() == ptr_slot(0, 0),
{
}

/// The merged property entries carry pairwise distinct names: getters and
/// setters sharing a name are deduplicated into one entry.
pub proof fn lemma_property_names_unique(defs: Seq<MethodDefTypeModel>)
    ensures
        forall|j1: int, j2: int|
            0 <= j1 < j2 < spec_getset_names(defs).len() ==> spec_getset_names(defs)[j1]
                != spec_getset_names(defs)[j2],
    decreases defs.len(),
{
    if defs.len() > 0 {
        lemma_property_names_unique(defs.drop_last());
        let rest = spec_getset_names(defs.drop_last());
        let names = spec_getset_names(defs);
        match getset_name(defs.last()) {
            Some(n) => {
                if !rest.contains(n) {
                    assert forall|j1: int, j2: int|
                        0 <= j1 < j2 < names.len() implies names[j1] != names[j2] by {
                        if j2 == rest.len() {
                            assert(names[j2] == n);
                            assert(names[j1] == rest[j1]);
                        } else {
                            assert(names[j1] == rest[j1]);
                            assert(names[j2] == rest[j2]);
                        }
                    }
                }
            },
            None => {},
        }
    }
}

/// A descriptor holding exactly one getter and one setter for the same name
/// merges them into a single property entry that carries both accessors.
pub proof fn lemma_getter_setter_merge(g: GetSetterDefModel, s: GetSetterDefModel)
    requires
        g.name == s.name,
    ensures
        ({
            let defs = seq![MethodDefTypeModel::Getter(g), MethodDefTypeModel::Setter(s)];
            let merged = spec_merged_getsets(defs);
            &&& merged.len() == 1
            &&& merged[0].name == g.name
            &&& merged[0].get == g.meth
            &&& merged[0].set == s.meth
        }),
{
    let defs = seq![MethodDefTypeModel::Getter(g), MethodDefTypeModel::Setter(s)];
    let d1 = seq![MethodDefTypeModel::Getter(g)];
    let d0 = Seq::<MethodDefTypeModel>::empty();
    assert(defs.drop_last() =~= d1);
    assert(d1.drop_last() =~= d0);
    assert(spec_getset_names(d0) =~= Seq::<Seq<u8>>::empty());
    assert(d1.last() == MethodDefTypeModel::Getter(g));
    assert(spec_getset_names(d1) =~= seq![g.name]);
    assert(defs.last() == MethodDefTypeModel::Setter(s));
    assert(spec_getset_names(d1)[0] == g.name);
    assert(spec_getset_names(d1).contains(s.name));
    assert(spec_getset_names(defs) == spec_getset_names(d1));
    let e0 = spec_merged_entry(d0, g.name);
    assert(e0 == crate::tables::getset_init(g.name));
    let e1 = spec_merged_entry(d1, g.name);
    assert(e1 == spec_apply_getset(e0, MethodDefTypeModel::Getter(g)));
    assert(e1.get == g.meth);
    let e2 = spec_merged_entry(defs, g.name);
    assert(e2 == spec_apply_getset(e1, MethodDefTypeModel::Setter(s)));
    assert(e2.get == g.meth && e2.set == s.meth && e2.name == g.name);
    assert(spec_merged_getsets(defs).len() == 1);
    assert(spec_merged_getsets(defs)[0] == e2);
}

} // verus!
