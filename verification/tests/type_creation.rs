//! Tests of the type-descriptor assembly: flags, names, documentation
//! handling, the three table builders, the slot collector, the assembler,
//! the post-creation patcher and the creation-outcome handling.

use typespec::create::{
    finish_type_object, type_object_creation_failed, HostError, TypeCreationOutcome,
};
use typespec::defs::{
    ClassDescriptor, ConfigError, GetSetterDef, HostConfig, MethodDef, PyMethodDefType, TypeSlot,
    PY_BF_GETBUFFER, PY_BF_RELEASEBUFFER, PY_TPFLAGS_BASETYPE, PY_TPFLAGS_DEFAULT,
    PY_TPFLAGS_HAVE_GC, PY_TP_ALLOC, PY_TP_BASE, PY_TP_DEALLOC, PY_TP_DOC, PY_TP_FREE,
    PY_TP_GETSET, PY_TP_MEMBERS, PY_TP_METHODS, PY_TP_NEW, PY_TP_TRAVERSE, READONLY, T_PYSSIZET,
};
use typespec::flags::py_class_flags;
use typespec::names::{py_class_doc, py_class_qualified_name};
use typespec::patch::{tp_init_additional, TypeObject};
use typespec::slots::{build_type_spec, collect_proto_slots, BufferProcs, SlotPayload};
use typespec::tables::{
    push_dict_getset, py_class_members, py_class_method_defs, py_class_properties,
};

fn modern_config() -> HostConfig {
    HostConfig {
        supports_slot_based_members: true,
        requires_manual_buffer_protocol_patch: false,
        requires_manual_doc_patch: false,
        has_generic_dict_accessor: true,
        fallback_new: 7001,
        generic_getdict: 7002,
        generic_setdict: 7003,
    }
}

fn legacy_config() -> HostConfig {
    HostConfig {
        supports_slot_based_members: false,
        requires_manual_buffer_protocol_patch: true,
        requires_manual_doc_patch: true,
        has_generic_dict_accessor: true,
        fallback_new: 7001,
        generic_getdict: 7002,
        generic_setdict: 7003,
    }
}

fn plain_descriptor() -> ClassDescriptor {
    ClassDescriptor {
        name: b"Point".to_vec(),
        module: None,
        doc: b"\0".to_vec(),
        base_type: 100,
        basicsize: 16,
        tp_new: None,
        tp_dealloc: 200,
        tp_alloc: None,
        tp_free: None,
        dict_offset: None,
        weaklist_offset: None,
        method_defs: Vec::new(),
        proto_slots: Vec::new(),
        is_gc: false,
        is_basetype: true,
    }
}

#[test]
fn flags_default_only() {
    assert_eq!(py_class_flags(false, false, false), PY_TPFLAGS_DEFAULT);
}

#[test]
fn flags_gc_from_methods() {
    assert_eq!(
        py_class_flags(true, false, false),
        PY_TPFLAGS_DEFAULT | PY_TPFLAGS_HAVE_GC
    );
}

#[test]
fn flags_gc_from_descriptor_and_basetype() {
    assert_eq!(
        py_class_flags(false, true, true),
        PY_TPFLAGS_DEFAULT | PY_TPFLAGS_HAVE_GC | PY_TPFLAGS_BASETYPE
    );
}

#[test]
fn flags_basetype_only() {
    assert_eq!(
        py_class_flags(false, false, true),
        PY_TPFLAGS_DEFAULT | PY_TPFLAGS_BASETYPE
    );
}

#[test]
fn qualified_name_default_module() {
    let r = py_class_qualified_name(&None, &b"Foo".to_vec()).unwrap();
    assert_eq!(r, b"builtins.Foo\0".to_vec());
}

#[test]
fn qualified_name_explicit_module() {
    let r = py_class_qualified_name(&Some(b"geometry".to_vec()), &b"Point".to_vec()).unwrap();
    assert_eq!(r, b"geometry.Point\0".to_vec());
}

#[test]
fn qualified_name_rejects_nul() {
    let r = py_class_qualified_name(&None, &b"Fo\0o".to_vec());
    assert_eq!(r, Err(ConfigError::InteriorNulInName));
}

#[test]
fn doc_sentinel_means_no_doc() {
    assert_eq!(py_class_doc(&b"\0".to_vec()), None);
}

#[test]
fn doc_keeps_existing_terminator() {
    assert_eq!(
        py_class_doc(&b"A point.\0".to_vec()),
        Some(b"A point.\0".to_vec())
    );
}

#[test]
fn doc_appends_terminator() {
    assert_eq!(py_class_doc(&b"A point.".to_vec()), Some(b"A point.\0".to_vec()));
}

#[test]
fn method_table_empty_stays_empty() {
    let defs: Vec<PyMethodDefType> = Vec::new();
    let table = py_class_method_defs(&defs).unwrap();
    assert!(table.is_empty());
}

#[test]
fn method_table_filters_and_terminates() {
    let defs = vec![
        PyMethodDefType::Method(MethodDef {
            name: b"area".to_vec(),
            meth: 301,
            flags: 2,
            doc: b"the area".to_vec(),
        }),
        PyMethodDefType::Getter(GetSetterDef { name: b"x".to_vec(), meth: 302, doc: None }),
        PyMethodDefType::ClassAttribute(b"kind".to_vec()),
        PyMethodDefType::Static(MethodDef {
            name: b"origin".to_vec(),
            meth: 303,
            flags: 4,
            doc: b"\0".to_vec(),
        }),
    ];
    let table = py_class_method_defs(&defs).unwrap();
    assert_eq!(table.len(), 3);
    assert_eq!(table[0].ml_name, b"area\0".to_vec());
    assert_eq!(table[0].ml_meth, 301);
    assert_eq!(table[0].ml_flags, 2);
    assert_eq!(table[0].ml_doc, b"the area\0".to_vec());
    assert_eq!(table[1].ml_name, b"origin\0".to_vec());
    assert_eq!(table[1].ml_meth, 303);
    // the sentinel is all-zero
    assert!(table[2].ml_name.is_empty());
    assert_eq!(table[2].ml_meth, 0);
    assert_eq!(table[2].ml_flags, 0);
    assert!(table[2].ml_doc.is_empty());
}

#[test]
fn method_table_rejects_interior_nul() {
    let defs = vec![PyMethodDefType::Method(MethodDef {
        name: b"ar\0ea".to_vec(),
        meth: 301,
        flags: 2,
        doc: b"doc".to_vec(),
    })];
    assert_eq!(
        py_class_method_defs(&defs),
        Err(ConfigError::InteriorNulInMethodDef)
    );
}

#[test]
fn member_table_both_offsets() {
    let table = py_class_members(Some(24), Some(32));
    assert_eq!(table.len(), 3);
    assert_eq!(table[0].name, b"__dictoffset__\0".to_vec());
    assert_eq!(table[0].type_code, T_PYSSIZET);
    assert_eq!(table[0].offset, 24);
    assert_eq!(table[0].flags, READONLY);
    assert_eq!(table[1].name, b"__weaklistoffset__\0".to_vec());
    assert_eq!(table[1].offset, 32);
    assert_eq!(table[2].type_code, 0);
    assert!(table[2].name.is_empty());
}

#[test]
fn member_table_single_offset() {
    let table = py_class_members(None, Some(32));
    assert_eq!(table.len(), 2);
    assert_eq!(table[0].name, b"__weaklistoffset__\0".to_vec());
}

#[test]
fn member_table_empty() {
    let table = py_class_members(None, None);
    assert!(table.is_empty());
}

#[test]
fn properties_merge_getter_setter() {
    let defs = vec![
        PyMethodDefType::Getter(GetSetterDef {
            name: b"x".to_vec(),
            meth: 401,
            doc: Some(b"the x\0".to_vec()),
        }),
        PyMethodDefType::Setter(GetSetterDef { name: b"x".to_vec(), meth: 402, doc: None }),
    ];
    let mut config = modern_config();
    config.has_generic_dict_accessor = false;
    let table = py_class_properties(true, &defs, &config);
    assert_eq!(table.len(), 2);
    assert_eq!(table[0].name, b"x".to_vec());
    assert_eq!(table[0].get, 401);
    assert_eq!(table[0].set, 402);
    assert_eq!(table[0].doc, b"the x\0".to_vec());
    assert!(table[1].name.is_empty());
    assert_eq!(table[1].get, 0);
    assert_eq!(table[1].set, 0);
}

#[test]
fn properties_synthesize_dict_accessor() {
    let defs: Vec<PyMethodDefType> = Vec::new();
    let config = modern_config();
    let table = py_class_properties(false, &defs, &config);
    assert_eq!(table.len(), 2);
    assert_eq!(table[0].name, b"__dict__\0".to_vec());
    assert_eq!(table[0].get, config.generic_getdict);
    assert_eq!(table[0].set, config.generic_setdict);
    assert!(table[1].name.is_empty());
}

#[test]
fn properties_empty_without_dict() {
    let defs: Vec<PyMethodDefType> = Vec::new();
    let table = py_class_properties(true, &defs, &modern_config());
    assert!(table.is_empty());
}

#[test]
fn push_dict_getset_respects_dummy() {
    let config = modern_config();
    let mut props = Vec::new();
    push_dict_getset(&mut props, true, &config);
    assert!(props.is_empty());
    push_dict_getset(&mut props, false, &config);
    assert_eq!(props.len(), 1);
    assert_eq!(props[0].name, b"__dict__\0".to_vec());
}

#[test]
fn collector_detects_gc_protocol() {
    let slots = vec![TypeSlot { slot: PY_TP_TRAVERSE, pfunc: 501 }];
    let (has_gc, procs) = collect_proto_slots(&slots, &modern_config());
    assert!(has_gc);
    assert_eq!(procs, BufferProcs { bf_getbuffer: 0, bf_releasebuffer: 0 });
}

#[test]
fn collector_intercepts_buffer_procs_on_legacy_host() {
    let slots = vec![
        TypeSlot { slot: PY_BF_GETBUFFER, pfunc: 601 },
        TypeSlot { slot: PY_BF_RELEASEBUFFER, pfunc: 602 },
    ];
    let (has_gc, procs) = collect_proto_slots(&slots, &legacy_config());
    assert!(!has_gc);
    assert_eq!(procs, BufferProcs { bf_getbuffer: 601, bf_releasebuffer: 602 });
    let (_, procs_modern) = collect_proto_slots(&slots, &modern_config());
    assert_eq!(procs_modern, BufferProcs { bf_getbuffer: 0, bf_releasebuffer: 0 });
}

#[test]
fn assembles_plain_descriptor() {
    // A class with no doc, no methods, no slots: flags are default+basetype,
    // there is no doc slot and no table slot, and the construction slot falls
    // back to the host's "not constructible" hook.
    let desc = plain_descriptor();
    let config = modern_config();
    let (spec, procs) = build_type_spec(&desc, &config).unwrap();
    assert_eq!(spec.name, b"builtins.Point\0".to_vec());
    assert_eq!(spec.basicsize, 16);
    assert_eq!(spec.itemsize, 0);
    assert_eq!(spec.flags, PY_TPFLAGS_DEFAULT | PY_TPFLAGS_BASETYPE);
    assert_eq!(procs, BufferProcs { bf_getbuffer: 0, bf_releasebuffer: 0 });
    assert_eq!(spec.slots.len(), 4);
    assert_eq!(spec.slots[0].slot, PY_TP_BASE);
    assert_eq!(spec.slots[0].payload, SlotPayload::Ptr(100));
    assert_eq!(spec.slots[1].slot, PY_TP_NEW);
    assert_eq!(spec.slots[1].payload, SlotPayload::Ptr(config.fallback_new));
    assert_eq!(spec.slots[2].slot, PY_TP_DEALLOC);
    assert_eq!(spec.slots[2].payload, SlotPayload::Ptr(200));
    assert_eq!(spec.slots[3].slot, 0);
    assert_eq!(spec.slots[3].payload, SlotPayload::Ptr(0));
}

#[test]
fn assembles_gc_flag_from_proto_slot() {
    let mut desc = plain_descriptor();
    desc.proto_slots = vec![TypeSlot { slot: PY_TP_TRAVERSE, pfunc: 501 }];
    let (spec, _) = build_type_spec(&desc, &modern_config()).unwrap();
    assert_ne!(spec.flags & PY_TPFLAGS_HAVE_GC, 0);
    // the protocol slot stands before the sentinel, in original order
    assert_eq!(spec.slots[spec.slots.len() - 2].slot, PY_TP_TRAVERSE);
    assert_eq!(
        spec.slots[spec.slots.len() - 2].payload,
        SlotPayload::Ptr(501)
    );
}

#[test]
fn assembles_tables_when_present() {
    let mut desc = plain_descriptor();
    desc.dict_offset = Some(24);
    desc.method_defs = vec![PyMethodDefType::Method(MethodDef {
        name: b"area".to_vec(),
        meth: 301,
        flags: 2,
        doc: b"\0".to_vec(),
    })];
    let (spec, _) = build_type_spec(&desc, &modern_config()).unwrap();
    let method_slots: Vec<_> = spec.slots.iter().filter(|s| s.slot == PY_TP_METHODS).collect();
    assert_eq!(method_slots.len(), 1);
    match &method_slots[0].payload {
        SlotPayload::Methods(t) => {
            assert_eq!(t.len(), 2);
            assert_eq!(t[0].ml_name, b"area\0".to_vec());
        }
        other => panic!("method slot carries {:?}", other),
    }
    // dict_offset present: a member table and a synthesized __dict__ property
    let getset_slots: Vec<_> = spec.slots.iter().filter(|s| s.slot == PY_TP_GETSET).collect();
    assert_eq!(getset_slots.len(), 1);
    match &getset_slots[0].payload {
        SlotPayload::GetSet(t) => {
            assert_eq!(t.len(), 2);
            assert_eq!(t[0].name, b"__dict__\0".to_vec());
        }
        other => panic!("property slot carries {:?}", other),
    }
}

#[test]
fn empty_method_table_slot_omitted() {
    let desc = plain_descriptor();
    let (spec, _) = build_type_spec(&desc, &modern_config()).unwrap();
    assert!(spec.slots.iter().all(|s| s.slot != PY_TP_METHODS));
}

#[test]
fn assembler_reports_bad_doc() {
    let mut desc = plain_descriptor();
    desc.doc = b"bad\0doc".to_vec();
    assert_eq!(
        build_type_spec(&desc, &modern_config()),
        Err(ConfigError::InteriorNulInDoc)
    );
}

#[test]
fn patcher_replaces_doc_on_legacy_host() {
    // On a legacy host the auto-generated doc buffer is replaced with an
    // exact byte-for-byte copy of the supplied text.
    let mut t = TypeObject {
        tp_doc: b"stripped by the host\0".to_vec(),
        bf_getbuffer: 0,
        bf_releasebuffer: 0,
        tp_dictoffset: 0,
        tp_weaklistoffset: 0,
    };
    let procs = BufferProcs { bf_getbuffer: 601, bf_releasebuffer: 602 };
    tp_init_additional(&mut t, &b"A point.\0".to_vec(), &procs, Some(24), Some(32), &legacy_config());
    assert_eq!(t.tp_doc, b"A point.\0".to_vec());
    assert_eq!(t.bf_getbuffer, 601);
    assert_eq!(t.bf_releasebuffer, 602);
    assert_eq!(t.tp_dictoffset, 24);
    assert_eq!(t.tp_weaklistoffset, 32);
}

#[test]
fn patcher_is_noop_on_modern_host() {
    let original = TypeObject {
        tp_doc: b"host doc\0".to_vec(),
        bf_getbuffer: 1,
        bf_releasebuffer: 2,
        tp_dictoffset: 3,
        tp_weaklistoffset: 4,
    };
    let mut t = original.clone();
    let procs = BufferProcs { bf_getbuffer: 601, bf_releasebuffer: 602 };
    tp_init_additional(&mut t, &b"A point.\0".to_vec(), &procs, Some(24), Some(32), &modern_config());
    assert_eq!(t, original);
}

#[test]
fn patcher_keeps_doc_for_sentinel() {
    let mut t = TypeObject {
        tp_doc: b"host doc\0".to_vec(),
        bf_getbuffer: 0,
        bf_releasebuffer: 0,
        tp_dictoffset: 0,
        tp_weaklistoffset: 0,
    };
    let procs = BufferProcs { bf_getbuffer: 0, bf_releasebuffer: 0 };
    tp_init_additional(&mut t, &b"\0".to_vec(), &procs, None, None, &legacy_config());
    assert_eq!(t.tp_doc, b"host doc\0".to_vec());
}

#[test]
fn creation_failure_is_fatal() {
    // A failure outcome yields the report the embedding program aborts with;
    // no type object is returned.
    let err = HostError { message: b"spec rejected".to_vec() };
    let r = finish_type_object(
        TypeCreationOutcome::Failed(err),
        &b"\0".to_vec(),
        &BufferProcs { bf_getbuffer: 0, bf_releasebuffer: 0 },
        None,
        None,
        &modern_config(),
        &b"Point".to_vec(),
    );
    let report = r.expect_err("creation failure must not yield a type object");
    assert_eq!(report.class_name, b"Point".to_vec());
    assert_eq!(report.host_error.message, b"spec rejected".to_vec());
}

#[test]
fn creation_success_is_patched() {
    let t = TypeObject {
        tp_doc: b"stripped\0".to_vec(),
        bf_getbuffer: 0,
        bf_releasebuffer: 0,
        tp_dictoffset: 0,
        tp_weaklistoffset: 0,
    };
    let r = finish_type_object(
        TypeCreationOutcome::Created(t),
        &b"A point.\0".to_vec(),
        &BufferProcs { bf_getbuffer: 0, bf_releasebuffer: 0 },
        Some(24),
        None,
        &legacy_config(),
        &b"Point".to_vec(),
    );
    let obj = r.unwrap();
    assert_eq!(obj.tp_doc, b"A point.\0".to_vec());
    assert_eq!(obj.tp_dictoffset, 24);
    assert_eq!(obj.tp_weaklistoffset, 0);
}

#[test]
fn fatal_report_names_class() {
    let err = HostError { message: b"boom".to_vec() };
    let report = type_object_creation_failed(err, &b"Circle".to_vec());
    assert_eq!(report.class_name, b"Circle".to_vec());
    assert_eq!(report.host_error.message, b"boom".to_vec());
}

#[test]
fn doc_empty_string_becomes_lone_terminator() {
    // An empty doc is not the "no documentation" sentinel: it yields a
    // buffer holding just the terminator, and a doc slot is registered.
    assert_eq!(py_class_doc(&Vec::new()), Some(b"\0".to_vec()));
}

#[test]
fn properties_later_definition_overwrites_field() {
    let defs = vec![
        PyMethodDefType::Getter(GetSetterDef { name: b"x".to_vec(), meth: 401, doc: None }),
        PyMethodDefType::Getter(GetSetterDef { name: b"x".to_vec(), meth: 403, doc: None }),
    ];
    let mut config = modern_config();
    config.has_generic_dict_accessor = false;
    let table = py_class_properties(true, &defs, &config);
    assert_eq!(table.len(), 2);
    assert_eq!(table[0].get, 403);
    assert_eq!(table[0].set, 0);
}

#[test]
fn properties_keep_first_occurrence_order() {
    let defs = vec![
        PyMethodDefType::Getter(GetSetterDef { name: b"a".to_vec(), meth: 401, doc: None }),
        PyMethodDefType::Getter(GetSetterDef { name: b"b".to_vec(), meth: 402, doc: None }),
        PyMethodDefType::Setter(GetSetterDef { name: b"a".to_vec(), meth: 403, doc: None }),
    ];
    let mut config = modern_config();
    config.has_generic_dict_accessor = false;
    let table = py_class_properties(true, &defs, &config);
    assert_eq!(table.len(), 3);
    assert_eq!(table[0].name, b"a".to_vec());
    assert_eq!(table[0].get, 401);
    assert_eq!(table[0].set, 403);
    assert_eq!(table[1].name, b"b".to_vec());
    assert_eq!(table[1].get, 402);
}

#[test]
fn assembles_doc_slot_and_hooks() {
    let mut desc = plain_descriptor();
    desc.doc = b"A point.\0".to_vec();
    desc.tp_new = Some(210);
    desc.tp_alloc = Some(220);
    desc.tp_free = Some(230);
    let (spec, _) = build_type_spec(&desc, &modern_config()).unwrap();
    assert_eq!(spec.slots.len(), 7);
    assert_eq!(spec.slots[1].slot, PY_TP_DOC);
    assert_eq!(spec.slots[1].payload, SlotPayload::Doc(b"A point.\0".to_vec()));
    assert_eq!(spec.slots[2].slot, PY_TP_NEW);
    assert_eq!(spec.slots[2].payload, SlotPayload::Ptr(210));
    assert_eq!(spec.slots[4].slot, PY_TP_ALLOC);
    assert_eq!(spec.slots[4].payload, SlotPayload::Ptr(220));
    assert_eq!(spec.slots[5].slot, PY_TP_FREE);
    assert_eq!(spec.slots[5].payload, SlotPayload::Ptr(230));
}

#[test]
fn member_slot_gated_by_host_version() {
    let mut desc = plain_descriptor();
    desc.dict_offset = Some(24);
    desc.weaklist_offset = Some(32);
    let (modern_spec, _) = build_type_spec(&desc, &modern_config()).unwrap();
    assert!(modern_spec.slots.iter().any(|s| s.slot == PY_TP_MEMBERS));
    let (legacy_spec, _) = build_type_spec(&desc, &legacy_config()).unwrap();
    assert!(legacy_spec.slots.iter().all(|s| s.slot != PY_TP_MEMBERS));
}
