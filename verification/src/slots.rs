//! The slot collector and the descriptor assembler: walk the protocol-slot
//! overrides, detect cycle-collector participation, intercept buffer-protocol
//! hooks on hosts whose slot mechanism ignores them, and concatenate the
//! mandatory slots, the generated tables and the protocol slots into the one
//! ordered, sentinel-terminated slot list of the type specification.

use vstd::prelude::*;
use crate::bytes::{nul_free, nul_free_interior, nul_terminated};
use crate::defs::{
    ClassDescriptorModel, ClassDescriptor, ConfigError, GetSetRawModel, HostConfig,
    MemberRawModel, MethodRawModel, PyGetSetDefRaw, PyMemberDefRaw, PyMethodDefRaw, TypeSlot,
    PY_BF_GETBUFFER, PY_BF_RELEASEBUFFER, PY_TP_ALLOC, PY_TP_BASE,
    PY_TP_CLEAR, PY_TP_DEALLOC, PY_TP_DOC, PY_TP_FREE, PY_TP_GETSET, PY_TP_MEMBERS,
    PY_TP_METHODS, PY_TP_NEW, PY_TP_TRAVERSE,
};
use crate::flags::{py_class_flags, spec_flags};
use crate::names::{
    is_doc_sentinel, py_class_doc, py_class_qualified_name, spec_module_bytes,
    spec_qualified_name,
};
use crate::tables::{
    all_callable_convertible, getset_raws_view, member_raws_view, method_raws_view,
    py_class_members, py_class_method_defs, py_class_properties, spec_member_table,
    spec_method_table, spec_property_table,
};

verus! {

/// Buffer-protocol hook addresses intercepted from the protocol-slot stream,
/// to be patched onto the finished type object on hosts whose slot mechanism
/// ignores them. `0` stands for "no hook".
#[derive(Clone, Copy, Debug, PartialEq, Eq, Structural)]
pub struct BufferProcs {
    pub bf_getbuffer: usize,
    pub bf_releasebuffer: usize,
}

/// Whether some protocol slot implements the cycle-collector traverse/clear
/// protocol.
pub open spec fn spec_has_gc_methods(slots: Seq<TypeSlot>) -> bool {
    exists|i: int|
        0 <= i < slots.len() && (#[trigger] slots[i].slot == PY_TP_CLEAR || slots[i].slot
            == PY_TP_TRAVERSE)
}

/// The hook address of the last protocol slot with the given identifier,
/// or `0` when there is none.
pub open spec fn spec_last_slot_func(slots: Seq<TypeSlot>, id: i32) -> usize
    decreases slots.len(),
{
    if slots.len() == 0 {
        0
    } else if slots.last().slot == id {
        slots.last().pfunc
    } else {
        spec_last_slot_func(slots.drop_last(), id)
    }
}

/// The buffer-protocol hooks the collector intercepts: the get-buffer and
/// release-buffer addresses from the slot stream when the host needs them
/// patched manually, and none otherwise.
pub open spec fn spec_buffer_procs(slots: Seq<TypeSlot>, config: HostConfig) -> BufferProcs {
    if config.requires_manual_buffer_protocol_patch {
        BufferProcs {
            bf_getbuffer: spec_last_slot_func(slots, PY_BF_GETBUFFER),
            bf_releasebuffer: spec_last_slot_func(slots, PY_BF_RELEASEBUFFER),
        }
    } else {
        BufferProcs { bf_getbuffer: 0, bf_releasebuffer: 0 }
    }
}

/// Walk the protocol-slot overrides: report whether any of them implement
/// the cycle-collector protocol, and intercept the buffer-protocol hook
/// addresses on hosts whose slot mechanism ignores buffer slots.
pub fn collect_proto_slots(proto_slots: &Vec<TypeSlot>, config: &HostConfig) -> (r: (
    bool,
    BufferProcs,
))
    ensures
        r.0 == spec_has_gc_methods(proto_slots@),
        r.1 == spec_buffer_procs(proto_slots@, *config),
{
    let mut has_gc_methods = false;
    let mut procs = BufferProcs { bf_getbuffer: 0, bf_releasebuffer: 0 };
    let mut i: usize = 0;
    while i < proto_slots.len()
        invariant
            i <= proto_slots@.len(),
            has_gc_methods == spec_has_gc_methods(proto_slots@.take(i as int)),
            config.requires_manual_buffer_protocol_patch ==> procs.bf_getbuffer
                == spec_last_slot_func(proto_slots@.take(i as int), PY_BF_GETBUFFER),
            config.requires_manual_buffer_protocol_patch ==> procs.bf_releasebuffer
                == spec_last_slot_func(proto_slots@.take(i as int), PY_BF_RELEASEBUFFER),
            !config.requires_manual_buffer_protocol_patch ==> procs == (BufferProcs {
                bf_getbuffer: 0,
                bf_releasebuffer: 0,
            }),
        decreases proto_slots@.len() - i,
    {
        let slot = proto_slots[i];
        if slot.slot == PY_TP_CLEAR || slot.slot == PY_TP_TRAVERSE {
            has_gc_methods = true;
        }
        if config.requires_manual_buffer_protocol_patch {
            if slot.slot == PY_BF_GETBUFFER {
                procs.bf_getbuffer = slot.pfunc;
            }
            if slot.slot == PY_BF_RELEASEBUFFER {
                procs.bf_releasebuffer = slot.pfunc;
            }
        }
        proof {
            let t0 = proto_slots@.take(i as int);
            let t1 = proto_slots@.take(i + 1);
            assert(t1.drop_last() =~= t0);
            assert(t1.last() == proto_slots@[i as int]);
            if has_gc_methods && !spec_has_gc_methods(t0) {
                assert(t1[i as int].slot == PY_TP_CLEAR || t1[i as int].slot == PY_TP_TRAVERSE);
            }
            if spec_has_gc_methods(t0) {
                let w = choose|j: int|
                    0 <= j < t0.len() && (#[trigger] t0[j].slot == PY_TP_CLEAR || t0[j].slot
                        == PY_TP_TRAVERSE);
                assert(t1[w].slot == PY_TP_CLEAR || t1[w].slot == PY_TP_TRAVERSE);
            }
        }
        i = i + 1;
    }
    proof {
        assert(proto_slots@.take(proto_slots@.len() as int) =~= proto_slots@);
    }
    (has_gc_methods, procs)
}

/// One entry of the assembled slot list: a slot identifier together with
/// what the host will find behind its pointer — a plain hook address, the
/// leaked documentation buffer, or one of the leaked generated tables.
/// Ownership of the payload passes to the host runtime for the remaining
/// life of the process.
#[derive(Clone, Debug, PartialEq, Eq)]
pub enum SlotPayload {
    Ptr(usize),
    Doc(Vec<u8>),
    Methods(Vec<PyMethodDefRaw>),
    Members(Vec<PyMemberDefRaw>),
    GetSet(Vec<PyGetSetDefRaw>),
}

/// Mathematical value of a slot payload.
#[verifier::ext_equal]
pub enum SlotPayloadModel {
    Ptr(usize),
    Doc(Seq<u8>),
    Methods(Seq<MethodRawModel>),
    Members(Seq<MemberRawModel>),
    GetSet(Seq<GetSetRawModel>),
}

impl View for SlotPayload {
    type V = SlotPayloadModel;

    open spec fn view(&self) -> SlotPayloadModel {
        match self {
            SlotPayload::Ptr(p) => SlotPayloadModel::Ptr(*p),
            SlotPayload::Doc(d) => SlotPayloadModel::Doc(d@),
            SlotPayload::Methods(m) => SlotPayloadModel::Methods(method_raws_view(m@)),
            SlotPayload::Members(m) => SlotPayloadModel::Members(member_raws_view(m@)),
            SlotPayload::GetSet(g) => SlotPayloadModel::GetSet(getset_raws_view(g@)),
        }
    }
}

/// One assembled slot: identifier and payload. The pair with identifier `0`
/// and a null pointer is the slot-list sentinel.
#[derive(Clone, Debug, PartialEq, Eq)]
pub struct TypeSpecSlot {
    pub slot: i32,
    pub payload: SlotPayload,
}

/// Mathematical value of one assembled slot.
#[verifier::ext_equal]
pub struct TypeSpecSlotModel {
    pub slot: i32,
    pub payload: SlotPayloadModel,
}

impl View for TypeSpecSlot {
    type V = TypeSpecSlotModel;

    open spec fn view(&self) -> TypeSpecSlotModel {
        TypeSpecSlotModel { slot: self.slot, payload: self.payload@ }
    }
}

/// The mathematical value of an assembled slot list.
pub open spec fn slots_view(v: Seq<TypeSpecSlot>) -> Seq<TypeSpecSlotModel> {
    v.map_values(|s: TypeSpecSlot| s@)
}

/// A slot holding a plain hook address.
pub open spec fn ptr_slot(slot: i32, pfunc: usize) -> TypeSpecSlotModel {
    TypeSpecSlotModel { slot, payload: SlotPayloadModel::Ptr(pfunc) }
}

/// The construction hook registered for a descriptor: its own, or the host's
/// fallback hook that refuses direct construction.
pub open spec fn spec_new_func(d: ClassDescriptorModel, config: HostConfig) -> usize {
    match d.tp_new {
        Some(f) => f,
        None => config.fallback_new,
    }
}

/// The mandatory head of the slot list: base type, documentation (only when
/// the descriptor carries one), construction, deallocation, and the optional
/// allocation and free hooks.
pub open spec fn spec_mandatory_slots(
    d: ClassDescriptorModel,
    config: HostConfig,
) -> Seq<TypeSpecSlotModel> {
    seq![ptr_slot(PY_TP_BASE, d.base_type)] + (if !is_doc_sentinel(d.doc) {
        seq![
            TypeSpecSlotModel {
                slot: PY_TP_DOC,
                payload: SlotPayloadModel::Doc(nul_terminated(d.doc)),
            },
        ]
    } else {
        Seq::empty()
    }) + seq![
        ptr_slot(PY_TP_NEW, spec_new_func(d, config)),
        ptr_slot(PY_TP_DEALLOC, d.tp_dealloc),
    ] + (match d.tp_alloc {
        Some(f) => seq![ptr_slot(PY_TP_ALLOC, f)],
        None => Seq::empty(),
    }) + (match d.tp_free {
        Some(f) => seq![ptr_slot(PY_TP_FREE, f)],
        None => Seq::empty(),
    })
}

/// The table slots of the slot list: member, method and property tables,
/// each present only when non-empty, the member table only on hosts that
/// register members through slots.
pub open spec fn spec_table_slots(
    d: ClassDescriptorModel,
    config: HostConfig,
) -> Seq<TypeSpecSlotModel> {
    (if config.supports_slot_based_members && spec_member_table(
        d.dict_offset,
        d.weaklist_offset,
    ).len() > 0 {
        seq![
            TypeSpecSlotModel {
                slot: PY_TP_MEMBERS,
                payload: SlotPayloadModel::Members(
                    spec_member_table(d.dict_offset, d.weaklist_offset),
                ),
            },
        ]
    } else {
        Seq::empty()
    }) + (if spec_method_table(d.method_defs).len() > 0 {
        seq![
            TypeSpecSlotModel {
                slot: PY_TP_METHODS,
                payload: SlotPayloadModel::Methods(spec_method_table(d.method_defs)),
            },
        ]
    } else {
        Seq::empty()
    }) + (if spec_property_table(d.method_defs, d.dict_offset is None, config).len() > 0 {
        seq![
            TypeSpecSlotModel {
                slot: PY_TP_GETSET,
                payload: SlotPayloadModel::GetSet(
                    spec_property_table(d.method_defs, d.dict_offset is None, config),
                ),
            },
        ]
    } else {
        Seq::empty()
    })
}

/// The protocol slots as assembled-slot entries, in original order.
pub open spec fn proto_slots_model(slots: Seq<TypeSlot>) -> Seq<TypeSpecSlotModel> {
    slots.map_values(|s: TypeSlot| ptr_slot(s.slot, s.pfunc))
}

/// The whole assembled slot list: mandatory slots, table slots, the protocol
/// slots in original order, and the terminating sentinel.
pub open spec fn spec_assembled_slots(
    d: ClassDescriptorModel,
    config: HostConfig,
) -> Seq<TypeSpecSlotModel> {
    spec_mandatory_slots(d, config) + spec_table_slots(d, config) + proto_slots_model(
        d.proto_slots,
    ) + seq![ptr_slot(0, 0)]
}

/// The assembled type specification handed to the host runtime's
/// type-creation entry point.
#[derive(Clone, Debug, PartialEq, Eq)]
pub struct TypeSpec {
    /// Qualified type name, nul-terminated.
    pub name: Vec<u8>,
    /// Size in bytes of one instance.
    pub basicsize: i32,
    /// Size in bytes of one variable-length item; always zero here.
    pub itemsize: i32,
    /// The derived type-flags bitmask.
    pub flags: u32,
    /// The ordered slot list, terminated by the sentinel.
    pub slots: Vec<TypeSpecSlot>,
}

/// Mathematical value of a type specification.
#[verifier::ext_equal]
pub struct TypeSpecModel {
    pub name: Seq<u8>,
    pub basicsize: i32,
    pub itemsize: i32,
    pub flags: u32,
    pub slots: Seq<TypeSpecSlotModel>,
}

impl View for TypeSpec {
    type V = TypeSpecModel;

    open spec fn view(&self) -> TypeSpecModel {
        TypeSpecModel {
            name: self.name@,
            basicsize: self.basicsize,
            itemsize: self.itemsize,
            flags: self.flags,
            slots: slots_view(self.slots@),
        }
    }
}

/// Whether a descriptor converts to a type specification: its doc, its
/// callable definitions and its names must all admit the host's
/// nul-terminated string form.
pub open spec fn descriptor_convertible(d: ClassDescriptorModel) -> bool {
    &&& nul_free_interior(d.doc)
    &&& all_callable_convertible(d.method_defs)
    &&& nul_free(spec_module_bytes(d.module))
    &&& nul_free(d.name)
}

/// The error a malformed descriptor yields, in the order the assembler
/// meets its parts: the doc, then the method definitions, then the names.
pub open spec fn spec_build_error(d: ClassDescriptorModel) -> ConfigError {
    if !nul_free_interior(d.doc) {
        ConfigError::InteriorNulInDoc
    } else if !all_callable_convertible(d.method_defs) {
        ConfigError::InteriorNulInMethodDef
    } else {
        ConfigError::InteriorNulInName
    }
}

/// The type specification a convertible descriptor assembles to.
pub open spec fn spec_type_spec(d: ClassDescriptorModel, config: HostConfig) -> TypeSpecModel {
    TypeSpecModel {
        name: spec_qualified_name(d.module, d.name),
        basicsize: d.basicsize as i32,
        itemsize: 0,
        flags: spec_flags(spec_has_gc_methods(d.proto_slots), d.is_gc, d.is_basetype),
        slots: spec_assembled_slots(d, config),
    }
}

/// Append one plain hook-address slot.
fn push_ptr_slot(slots: &mut Vec<TypeSpecSlot>, slot: i32, pfunc: usize)
    ensures
        final(slots)@.len() == old(slots)@.len() + 1,
        final(slots)@[old(slots)@.len() as int]@ == ptr_slot(slot, pfunc),
        forall|i: int|
            0 <= i < old(slots)@.len() ==> #[trigger] final(slots)@[i] == old(slots)@[i],
{
    slots.push(TypeSpecSlot { slot, payload: SlotPayload::Ptr(pfunc) });
}

/// The mandatory head of the slot list as a vector: base type, optional
/// documentation buffer, construction, deallocation, optional allocation
/// and free hooks.
fn mandatory_slots_vec(desc: &ClassDescriptor, config: &HostConfig) -> (r: Vec<TypeSpecSlot>)
    requires
        nul_free_interior(desc@.doc),
    ensures
        slots_view(r@) == spec_mandatory_slots(desc@, *config),
{
    let ghost d = desc@;
    let ghost doc_part = if !is_doc_sentinel(d.doc) {
        seq![
            TypeSpecSlotModel {
                slot: PY_TP_DOC,
                payload: SlotPayloadModel::Doc(nul_terminated(d.doc)),
            },
        ]
    } else {
        Seq::<TypeSpecSlotModel>::empty()
    };
    let ghost alloc_part = match d.tp_alloc {
        Some(f) => seq![ptr_slot(PY_TP_ALLOC, f)],
        None => Seq::<TypeSpecSlotModel>::empty(),
    };
    let ghost free_part = match d.tp_free {
        Some(f) => seq![ptr_slot(PY_TP_FREE, f)],
        None => Seq::<TypeSpecSlotModel>::empty(),
    };
    let mut slots: Vec<TypeSpecSlot> = Vec::new();
    push_ptr_slot(&mut slots, PY_TP_BASE, desc.base_type);
    match py_class_doc(&desc.doc) {
        Some(doc) => {
            proof {
                assert(doc@ == nul_terminated(d.doc));
            }
            slots.push(TypeSpecSlot { slot: PY_TP_DOC, payload: SlotPayload::Doc(doc) });
        },
        None => {},
    }
    assert(slots_view(slots@) =~= seq![ptr_slot(PY_TP_BASE, d.base_type)] + doc_part);
    let new_func = match desc.tp_new {
        Some(f) => f,
        None => config.fallback_new,
    };
    push_ptr_slot(&mut slots, PY_TP_NEW, new_func);
    push_ptr_slot(&mut slots, PY_TP_DEALLOC, desc.tp_dealloc);
    assert(slots_view(slots@) =~= seq![ptr_slot(PY_TP_BASE, d.base_type)] + doc_part + seq![
        ptr_slot(PY_TP_NEW, spec_new_func(d, *config)),
        ptr_slot(PY_TP_DEALLOC, d.tp_dealloc),
    ]);
    if let Some(f) = desc.tp_alloc {
        push_ptr_slot(&mut slots, PY_TP_ALLOC, f);
    }
    if let Some(f) = desc.tp_free {
        push_ptr_slot(&mut slots, PY_TP_FREE, f);
    }
    assert(slots_view(slots@) =~= seq![ptr_slot(PY_TP_BASE, d.base_type)] + doc_part + seq![
        ptr_slot(PY_TP_NEW, spec_new_func(d, *config)),
        ptr_slot(PY_TP_DEALLOC, d.tp_dealloc),
    ] + alloc_part + free_part);
    assert(slots_view(slots@) =~= spec_mandatory_slots(d, *config));
    slots
}

/// The table slots as a vector: member, method and property tables, each
/// present only when non-empty. Fails exactly when some callable method
/// definition cannot be converted.
fn table_slots_vec(desc: &ClassDescriptor, config: &HostConfig) -> (r: Result<
    Vec<TypeSpecSlot>,
    ConfigError,
>)
    ensures
        match r {
            Ok(v) => all_callable_convertible(desc@.method_defs) && slots_view(v@)
                == spec_table_slots(desc@, *config),
            Err(e) => e == ConfigError::InteriorNulInMethodDef && !all_callable_convertible(
                desc@.method_defs,
            ),
        },
{
    let ghost d = desc@;
    let mut slots: Vec<TypeSpecSlot> = Vec::new();
    if config.supports_slot_based_members {
        let members = py_class_members(desc.dict_offset, desc.weaklist_offset);
        if members.len() > 0 {
            slots.push(
                TypeSpecSlot { slot: PY_TP_MEMBERS, payload: SlotPayload::Members(members) },
            );
        }
    }
    let methods = match py_class_method_defs(&desc.method_defs) {
        Ok(m) => m,
        Err(e) => {
            return Err(e);
        },
    };
    if methods.len() > 0 {
        slots.push(TypeSpecSlot { slot: PY_TP_METHODS, payload: SlotPayload::Methods(methods) });
    }
    let props = py_class_properties(desc.dict_offset.is_none(), &desc.method_defs, config);
    if props.len() > 0 {
        slots.push(TypeSpecSlot { slot: PY_TP_GETSET, payload: SlotPayload::GetSet(props) });
    }
    assert(slots_view(slots@) =~= spec_table_slots(d, *config));
    Ok(slots)
}

/// Assemble the full type specification from a class descriptor: the
/// qualified name, the size, the derived flags, and the ordered slot list —
/// mandatory slots, generated tables, protocol slots, sentinel — together
/// with the buffer-protocol hooks intercepted for the post-creation patcher.
/// Fails exactly when the descriptor is malformed (a nul byte where the host
/// ABI admits none), naming the first malformed part; the embedding program
/// treats that as fatal.
pub fn build_type_spec(desc: &ClassDescriptor, config: &HostConfig) -> (r: Result<
    (TypeSpec, BufferProcs),
    ConfigError,
>)
    requires
        desc@.basicsize <= 0x7fffffff,
    ensures
        match r {
            Ok(sp) => descriptor_convertible(desc@) && sp.0@ == spec_type_spec(desc@, *config)
                && sp.1 == spec_buffer_procs(desc@.proto_slots, *config),
            Err(e) => !descriptor_convertible(desc@) && e == spec_build_error(desc@),
        },
{
    let ghost d = desc@;
    if !crate::bytes::bytes_nul_free_interior(&desc.doc) {
        return Err(ConfigError::InteriorNulInDoc);
    }
    let mut slots = mandatory_slots_vec(desc, config);
    let mut tables = match table_slots_vec(desc, config) {
        Ok(v) => v,
        Err(e) => {
            return Err(e);
        },
    };
    slots.append(&mut tables);
    assert(slots_view(slots@) =~= spec_mandatory_slots(d, *config) + spec_table_slots(d, *config));
    let collected = collect_proto_slots(&desc.proto_slots, config);
    let has_gc_methods = collected.0;
    let buffer_procs = collected.1;
    let ghost head = spec_mandatory_slots(d, *config) + spec_table_slots(d, *config);
    let mut i: usize = 0;
    while i < desc.proto_slots.len()
        invariant
            i <= desc.proto_slots@.len(),
            d == desc@,
            slots@.len() == head.len() + i,
            slots_view(slots@) == head + proto_slots_model(d.proto_slots.take(i as int)),
        decreases desc.proto_slots@.len() - i,
    {
        let s = desc.proto_slots[i];
        let ghost s0 = slots@;
        push_ptr_slot(&mut slots, s.slot, s.pfunc);
        proof {
            let rhs = head + proto_slots_model(d.proto_slots.take(i + 1));
            assert(slots@.len() == rhs.len());
            assert forall|k: int| 0 <= k < slots@.len() implies #[trigger] slots_view(slots@)[k]
                == rhs[k] by {
                assert(slots_view(slots@)[k] == slots@[k]@);
                if k < s0.len() {
                    assert(slots@[k] == s0[k]);
                    assert(slots_view(s0)[k] == s0[k]@);
                    assert(slots_view(s0)[k] == (head + proto_slots_model(
                        d.proto_slots.take(i as int),
                    ))[k]);
                    if k >= head.len() {
                        assert(proto_slots_model(d.proto_slots.take(i as int))[k - head.len()]
                            == ptr_slot(
                            d.proto_slots.take(i as int)[k - head.len()].slot,
                            d.proto_slots.take(i as int)[k - head.len()].pfunc,
                        ));
                        assert(proto_slots_model(d.proto_slots.take(i + 1))[k - head.len()]
                            == ptr_slot(
                            d.proto_slots.take(i + 1)[k - head.len()].slot,
                            d.proto_slots.take(i + 1)[k - head.len()].pfunc,
                        ));
                    }
                } else {
                    assert(slots@[k]@ == ptr_slot(s.slot, s.pfunc));
                    assert(proto_slots_model(d.proto_slots.take(i + 1))[k - head.len()]
                        == ptr_slot(
                        d.proto_slots.take(i + 1)[k - head.len()].slot,
                        d.proto_slots.take(i + 1)[k - head.len()].pfunc,
                    ));
                    assert(d.proto_slots.take(i + 1)[i as int] == d.proto_slots[i as int]);
                }
            }
            assert(slots_view(slots@) =~= rhs);
        }
        i = i + 1;
    }
    proof {
        assert(d.proto_slots.take(d.proto_slots.len() as int) =~= d.proto_slots);
    }
    let ghost s1 = slots@;
    push_ptr_slot(&mut slots, 0, 0);
    proof {
        let rhs = spec_assembled_slots(d, *config);
        assert(rhs == head + proto_slots_model(d.proto_slots) + seq![ptr_slot(0, 0)]);
        assert(slots@.len() == rhs.len());
        assert forall|k: int| 0 <= k < slots@.len() implies #[trigger] slots_view(slots@)[k]
            == rhs[k] by {
            assert(slots_view(slots@)[k] == slots@[k]@);
            if k < s1.len() {
                assert(slots@[k] == s1[k]);
                assert(slots_view(s1)[k] == s1[k]@);
                assert(slots_view(s1)[k] == (head + proto_slots_model(d.proto_slots))[k]);
            } else {
                assert(slots@[k]@ == ptr_slot(0, 0));
            }
        }
        assert(slots_view(slots@) =~= rhs);
    }
    let name = match py_class_qualified_name(&desc.module, &desc.name) {
        Ok(n) => n,
        Err(e) => {
            return Err(e);
        },
    };
    let flags = py_class_flags(has_gc_methods, desc.is_gc, desc.is_basetype);
    let spec = TypeSpec { name, basicsize: desc.basicsize as i32, itemsize: 0, flags, slots };
    assert(spec@ =~= spec_type_spec(d, *config));
    Ok((spec, buffer_procs))
}

} // verus!
