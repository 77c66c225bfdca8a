//! The table builders: the method table, the member table and the property
//! table, each a flat array that, when non-empty, ends with an all-zero
//! sentinel entry.

use vstd::prelude::*;
use crate::bytes::{
    bytes_eq, bytes_nul_free_interior, copy_bytes, nul_free_interior, nul_terminated, to_c_string,
};
use crate::defs::{
    getset_sentinel, member_sentinel, method_sentinel, ConfigError, GetSetRawModel, GetSetterDef,
    HostConfig, MemberRawModel, MethodDefModel, MethodDefTypeModel, MethodRawModel,
    PyGetSetDefRaw, PyMemberDefRaw, PyMethodDefRaw, PyMethodDefType, READONLY, T_PYSSIZET,
};

verus! {

/// The mathematical value of a sequence of method definitions.
pub open spec fn method_defs_view(defs: Seq<PyMethodDefType>) -> Seq<MethodDefTypeModel> {
    defs.map_values(|d: PyMethodDefType| d@)
}

/// The callable definition a descriptor entry carries, if it is one of the
/// kinds that reach the method table.
pub open spec fn callable_def(d: MethodDefTypeModel) -> Option<MethodDefModel> {
    match d {
        MethodDefTypeModel::Method(m) => Some(m),
        MethodDefTypeModel::Class(m) => Some(m),
        MethodDefTypeModel::Static(m) => Some(m),
        _ => None,
    }
}

/// Whether a callable definition converts to the host's raw representation:
/// its name and doc must both admit a nul-terminated form.
pub open spec fn method_convertible(m: MethodDefModel) -> bool {
    nul_free_interior(m.name) && nul_free_interior(m.doc)
}

/// The raw method-table entry a callable definition converts to.
pub open spec fn spec_method_raw(m: MethodDefModel) -> MethodRawModel {
    MethodRawModel {
        ml_name: nul_terminated(m.name),
        ml_meth: m.meth,
        ml_flags: m.flags,
        ml_doc: nul_terminated(m.doc),
    }
}

/// Every callable definition among `defs` converts to the raw representation.
pub open spec fn all_callable_convertible(defs: Seq<MethodDefTypeModel>) -> bool {
    forall|i: int|
        0 <= i < defs.len() ==> (#[trigger] callable_def(defs[i]) matches Some(m)
            ==> method_convertible(m))
}

/// The raw entries of the callable definitions among `defs`, in descriptor
/// order, without sentinel.
pub open spec fn spec_callable_raws(defs: Seq<MethodDefTypeModel>) -> Seq<MethodRawModel>
    decreases defs.len(),
{
    if defs.len() == 0 {
        Seq::empty()
    } else {
        let rest = spec_callable_raws(defs.drop_last());
        match callable_def(defs.last()) {
            Some(m) => rest.push(spec_method_raw(m)),
            None => rest,
        }
    }
}

/// The finished method table: the converted callable definitions, followed
/// by the all-zero sentinel when there is at least one; an empty table stays
/// entirely empty.
pub open spec fn spec_method_table(defs: Seq<MethodDefTypeModel>) -> Seq<MethodRawModel> {
    let raws = spec_callable_raws(defs);
    if raws.len() == 0 {
        raws
    } else {
        raws.push(method_sentinel())
    }
}

/// The mathematical value of a raw method table.
pub open spec fn method_raws_view(v: Seq<PyMethodDefRaw>) -> Seq<MethodRawModel> {
    v.map_values(|d: PyMethodDefRaw| d@)
}

/// Build the flat method table: keeps the callable kinds (instance, class,
/// static) in descriptor order, converts each to the host's raw entry and
/// terminates the table with the all-zero sentinel exactly when it is
/// non-empty. Fails exactly when some callable definition cannot be
/// converted, which marks a malformed descriptor.
pub fn py_class_method_defs(method_defs: &Vec<PyMethodDefType>) -> (r: Result<
    Vec<PyMethodDefRaw>,
    ConfigError,
>)
    ensures
        match r {
            Ok(v) => all_callable_convertible(method_defs_view(method_defs@))
                && method_raws_view(v@) == spec_method_table(method_defs_view(method_defs@)),
            Err(e) => e == ConfigError::InteriorNulInMethodDef
                && !all_callable_convertible(method_defs_view(method_defs@)),
        },
{
    let ghost ms = method_defs_view(method_defs@);
    let mut defs: Vec<PyMethodDefRaw> = Vec::new();
    let mut i: usize = 0;
    while i < method_defs.len()
        invariant
            i <= method_defs.len(),
            ms == method_defs_view(method_defs@),
            ms.len() == method_defs@.len(),
            all_callable_convertible(ms.take(i as int)),
            method_raws_view(defs@) == spec_callable_raws(ms.take(i as int)),
        decreases method_defs.len() - i,
    {
        let def = &method_defs[i];
        match def {
            PyMethodDefType::Method(m) | PyMethodDefType::Class(m) | PyMethodDefType::Static(
                m,
            ) => {
                if !bytes_nul_free_interior(&m.name) || !bytes_nul_free_interior(&m.doc) {
                    assert(callable_def(ms[i as int]) matches Some(mm) && !method_convertible(mm));
                    return Err(ConfigError::InteriorNulInMethodDef);
                }
                let raw = PyMethodDefRaw {
                    ml_name: to_c_string(&m.name),
                    ml_meth: m.meth,
                    ml_flags: m.flags,
                    ml_doc: to_c_string(&m.doc),
                };
                assert(raw@ == spec_method_raw(callable_def(ms[i as int]).unwrap()));
                defs.push(raw);
            },
            _ => {
                assert(callable_def(ms[i as int]) is None);
            },
        }
        proof {
            assert(ms.take(i + 1).drop_last() =~= ms.take(i as int));
            assert(ms.take(i + 1).last() == ms[i as int]);
            assert(method_raws_view(defs@) =~= spec_callable_raws(ms.take(i + 1)));
            assert forall|j: int| 0 <= j < i + 1 implies (#[trigger] callable_def(
                ms.take(i + 1)[j],
            ) matches Some(m) ==> method_convertible(m)) by {
                assert(ms.take(i + 1)[j] == ms[j]);
            }
        }
        i = i + 1;
    }
    proof {
        assert(ms.take(ms.len() as int) =~= ms);
    }
    if defs.len() > 0 {
        let sentinel = PyMethodDefRaw {
            ml_name: Vec::new(),
            ml_meth: 0,
            ml_flags: 0,
            ml_doc: Vec::new(),
        };
        assert(sentinel@ =~= method_sentinel());
        defs.push(sentinel);
        assert(method_raws_view(defs@) =~= spec_method_table(ms));
    }
    Ok(defs)
}

/// The name of the read-only member that carries the instance-dictionary
/// offset: `__dictoffset__`, nul-terminated.
pub open spec fn dictoffset_name_bytes() -> Seq<u8> {
    seq![
        95u8, 95u8, 100u8, 105u8, 99u8, 116u8, 111u8, 102u8, 102u8, 115u8, 101u8, 116u8, 95u8,
        95u8, 0u8,
    ]
}

/// The name of the read-only member that carries the weak-reference list
/// offset: `__weaklistoffset__`, nul-terminated.
pub open spec fn weaklistoffset_name_bytes() -> Seq<u8> {
    seq![
        95u8, 95u8, 119u8, 101u8, 97u8, 107u8, 108u8, 105u8, 115u8, 116u8, 111u8, 102u8, 102u8,
        115u8, 101u8, 116u8, 95u8, 95u8, 0u8,
    ]
}

/// A read-only, signed-size member entry at the given offset.
pub open spec fn spec_member_entry(name: Seq<u8>, offset: isize) -> MemberRawModel {
    MemberRawModel { name, type_code: T_PYSSIZET, offset, flags: READONLY, doc: Seq::empty() }
}

/// The member entries a descriptor yields: one for each of the dictionary
/// and weak-reference offsets that is present, without sentinel.
pub open spec fn spec_member_entries(
    dict_offset: Option<isize>,
    weaklist_offset: Option<isize>,
) -> Seq<MemberRawModel> {
    (match dict_offset {
        Some(o) => seq![spec_member_entry(dictoffset_name_bytes(), o)],
        None => Seq::empty(),
    }) + (match weaklist_offset {
        Some(o) => seq![spec_member_entry(weaklistoffset_name_bytes(), o)],
        None => Seq::empty(),
    })
}

/// The finished member table: the present offset entries, followed by the
/// all-zero sentinel when there is at least one; an empty table stays
/// entirely empty.
pub open spec fn spec_member_table(
    dict_offset: Option<isize>,
    weaklist_offset: Option<isize>,
) -> Seq<MemberRawModel> {
    let entries = spec_member_entries(dict_offset, weaklist_offset);
    if entries.len() == 0 {
        entries
    } else {
        entries.push(member_sentinel())
    }
}

/// The mathematical value of a raw member table.
pub open spec fn member_raws_view(v: Seq<PyMemberDefRaw>) -> Seq<MemberRawModel> {
    v.map_values(|d: PyMemberDefRaw| d@)
}

/// The `__dictoffset__` member name as a byte vector.
fn dictoffset_name() -> (r: Vec<u8>)
    ensures
        r@ == dictoffset_name_bytes(),
{
    let mut r: Vec<u8> = Vec::new();
    r.push(95);
    r.push(95);
    r.push(100);
    r.push(105);
    r.push(99);
    r.push(116);
    r.push(111);
    r.push(102);
    r.push(102);
    r.push(115);
    r.push(101);
    r.push(116);
    r.push(95);
    r.push(95);
    r.push(0);
    assert(r@ =~= dictoffset_name_bytes());
    r
}

/// The `__weaklistoffset__` member name as a byte vector.
fn weaklistoffset_name() -> (r: Vec<u8>)
    ensures
        r@ == weaklistoffset_name_bytes(),
{
    let mut r: Vec<u8> = Vec::new();
    r.push(95);
    r.push(95);
    r.push(119);
    r.push(101);
    r.push(97);
    r.push(107);
    r.push(108);
    r.push(105);
    r.push(115);
    r.push(116);
    r.push(111);
    r.push(102);
    r.push(102);
    r.push(115);
    r.push(101);
    r.push(116);
    r.push(95);
    r.push(95);
    r.push(0);
    assert(r@ =~= weaklistoffset_name_bytes());
    r
}

/// Build the member table: a read-only `__dictoffset__` entry when the
/// descriptor names a dictionary offset, a read-only `__weaklistoffset__`
/// entry when it names a weak-reference offset, and the all-zero sentinel
/// exactly when the table is non-empty. Meaningful only on host versions
/// that register members through the slot mechanism; the assembler gates it.
pub fn py_class_members(dict_offset: Option<isize>, weaklist_offset: Option<isize>) -> (r: Vec<
    PyMemberDefRaw,
>)
    ensures
        member_raws_view(r@) == spec_member_table(dict_offset, weaklist_offset),
{
    let mut members: Vec<PyMemberDefRaw> = Vec::new();
    if let Some(o) = dict_offset {
        members.push(
            PyMemberDefRaw {
                name: dictoffset_name(),
                type_code: T_PYSSIZET,
                offset: o,
                flags: READONLY,
                doc: Vec::new(),
            },
        );
    }
    if let Some(o) = weaklist_offset {
        members.push(
            PyMemberDefRaw {
                name: weaklistoffset_name(),
                type_code: T_PYSSIZET,
                offset: o,
                flags: READONLY,
                doc: Vec::new(),
            },
        );
    }
    assert(member_raws_view(members@) =~= spec_member_entries(dict_offset, weaklist_offset));
    if members.len() > 0 {
        let sentinel = PyMemberDefRaw {
            name: Vec::new(),
            type_code: 0,
            offset: 0,
            flags: 0,
            doc: Vec::new(),
        };
        assert(sentinel@ =~= member_sentinel());
        members.push(sentinel);
        assert(member_raws_view(members@) =~= spec_member_table(dict_offset, weaklist_offset));
    }
    members
}

/// The property name a descriptor entry speaks of, if it is a getter or a
/// setter.
pub open spec fn getset_name(d: MethodDefTypeModel) -> Option<Seq<u8>> {
    match d {
        MethodDefTypeModel::Getter(g) => Some(g.name),
        MethodDefTypeModel::Setter(s) => Some(s.name),
        _ => None,
    }
}

/// A fresh property-table entry for the given name, with no accessors yet.
pub open spec fn getset_init(name: Seq<u8>) -> GetSetRawModel {
    GetSetRawModel { name, get: 0, set: 0, doc: Seq::empty(), closure: 0 }
}

/// One getter or setter definition folded into a property entry of the same
/// name: a getter supplies the getter hook, a setter the setter hook, and
/// either supplies the doc when it carries one; the other fields stay.
pub open spec fn spec_apply_getset(e: GetSetRawModel, d: MethodDefTypeModel) -> GetSetRawModel {
    match d {
        MethodDefTypeModel::Getter(g) => GetSetRawModel {
            name: e.name,
            get: g.meth,
            set: e.set,
            doc: match g.doc {
                Some(doc) => doc,
                None => e.doc,
            },
            closure: e.closure,
        },
        MethodDefTypeModel::Setter(s) => GetSetRawModel {
            name: e.name,
            get: e.get,
            set: s.meth,
            doc: match s.doc {
                Some(doc) => doc,
                None => e.doc,
            },
            closure: e.closure,
        },
        _ => e,
    }
}

/// The distinct getter/setter names among `defs`, each at the position of
/// its first occurrence.
pub open spec fn spec_getset_names(defs: Seq<MethodDefTypeModel>) -> Seq<Seq<u8>>
    decreases defs.len(),
{
    if defs.len() == 0 {
        Seq::empty()
    } else {
        let rest = spec_getset_names(defs.drop_last());
        match getset_name(defs.last()) {
            Some(n) => if rest.contains(n) {
                rest
            } else {
                rest.push(n)
            },
            None => rest,
        }
    }
}

/// The property entry for `name` after all of `defs` have been folded in,
/// in order.
pub open spec fn spec_merged_entry(defs: Seq<MethodDefTypeModel>, name: Seq<u8>) -> GetSetRawModel
    decreases defs.len(),
{
    if defs.len() == 0 {
        getset_init(name)
    } else {
        let prev = spec_merged_entry(defs.drop_last(), name);
        if getset_name(defs.last()) == Some(name) {
            spec_apply_getset(prev, defs.last())
        } else {
            prev
        }
    }
}

/// The merged property entries of `defs`: one entry per distinct
/// getter/setter name, in first-occurrence order, without sentinel.
pub open spec fn spec_merged_getsets(defs: Seq<MethodDefTypeModel>) -> Seq<GetSetRawModel> {
    spec_getset_names(defs).map_values(|n: Seq<u8>| spec_merged_entry(defs, n))
}

/// A name seen among the first `defs.len() - 1` definitions is still among
/// the names of all of `defs`.
pub proof fn lemma_names_contains_drop(defs: Seq<MethodDefTypeModel>, name: Seq<u8>)
    requires
        defs.len() > 0,
        spec_getset_names(defs.drop_last()).contains(name),
    ensures
        spec_getset_names(defs).contains(name),
{
    let rest = spec_getset_names(defs.drop_last());
    match getset_name(defs.last()) {
        Some(n) => {
            if !rest.contains(n) {
                let j = choose|j: int| 0 <= j < rest.len() && rest[j] == name;
                assert(rest.push(n)[j] == name);
            }
        },
        None => {},
    }
}

/// A name that never occurs among the getter/setter definitions leaves the
/// fresh entry untouched.
pub proof fn lemma_unseen_name_entry(defs: Seq<MethodDefTypeModel>, name: Seq<u8>)
    requires
        !spec_getset_names(defs).contains(name),
    ensures
        spec_merged_entry(defs, name) == getset_init(name),
    decreases defs.len(),
{
    if defs.len() > 0 {
        let rest = spec_getset_names(defs.drop_last());
        if getset_name(defs.last()) == Some(name) {
            if rest.contains(name) {
                assert(spec_getset_names(defs).contains(name));
            } else {
                assert(spec_getset_names(defs)[rest.len() as int] == name);
                assert(spec_getset_names(defs).contains(name));
            }
            assert(false);
        }
        if rest.contains(name) {
            lemma_names_contains_drop(defs, name);
            assert(false);
        }
        lemma_unseen_name_entry(defs.drop_last(), name);
    }
}

/// A merged property entry carries the name it was merged for.
pub proof fn lemma_merged_entry_name(defs: Seq<MethodDefTypeModel>, name: Seq<u8>)
    ensures
        spec_merged_entry(defs, name).name == name,
    decreases defs.len(),
{
    if defs.len() > 0 {
        lemma_merged_entry_name(defs.drop_last(), name);
    }
}

/// The index of the property entry named `name`, if one is present.
fn find_getset(props: &Vec<PyGetSetDefRaw>, name: &Vec<u8>) -> (r: Option<usize>)
    ensures
        match r {
            Some(k) => k < props@.len() && props@[k as int].name@ == name@,
            None => forall|j: int| 0 <= j < props@.len() ==> props@[j].name@ != name@,
        },
{
    let mut i: usize = 0;
    while i < props.len()
        invariant
            i <= props@.len(),
            forall|j: int| 0 <= j < i ==> props@[j].name@ != name@,
        decreases props@.len() - i,
    {
        if bytes_eq(&props[i].name, name) {
            return Some(i);
        }
        i = i + 1;
    }
    None
}

/// Fold one getter or setter definition into the property table: update the
/// entry sharing its name, or append a fresh one.
fn upsert_getset(props: &mut Vec<PyGetSetDefRaw>, d: &GetSetterDef, is_getter: bool)
    requires
        forall|j1: int, j2: int|
            0 <= j1 < j2 < old(props)@.len() ==> old(props)@[j1].name@ != old(props)@[j2].name@,
    ensures
        ({
            let n = d.name@;
            let dm = if is_getter {
                MethodDefTypeModel::Getter(d@)
            } else {
                MethodDefTypeModel::Setter(d@)
            };
            if exists|j: int| 0 <= j < old(props)@.len() && #[trigger] old(props)@[j].name@ == n {
                &&& final(props)@.len() == old(props)@.len()
                &&& forall|j: int|
                    0 <= j < old(props)@.len() ==> #[trigger] final(props)@[j]@ == (
                    if old(props)@[j].name@ == n {
                        spec_apply_getset(old(props)@[j]@, dm)
                    } else {
                        old(props)@[j]@
                    })
            } else {
                &&& final(props)@.len() == old(props)@.len() + 1
                &&& forall|j: int|
                    0 <= j < old(props)@.len() ==> #[trigger] final(props)@[j]@ == old(props)@[j]@
                &&& final(props)@[old(props)@.len() as int]@ == spec_apply_getset(
                    getset_init(n),
                    dm,
                )
            }
        }),
{
    let ghost dm = if is_getter {
        MethodDefTypeModel::Getter(d@)
    } else {
        MethodDefTypeModel::Setter(d@)
    };
    match find_getset(props, &d.name) {
        Some(k) => {
            let e = &props[k];
            let name = copy_bytes(&e.name);
            let doc = match &d.doc {
                Some(dd) => copy_bytes(dd),
                None => copy_bytes(&e.doc),
            };
            let get = if is_getter {
                d.meth
            } else {
                e.get
            };
            let set = if is_getter {
                e.set
            } else {
                d.meth
            };
            let closure = e.closure;
            let new_e = PyGetSetDefRaw { name, get, set, doc, closure };
            assert(new_e@ == spec_apply_getset(old(props)@[k as int]@, dm));
            props.set(k, new_e);
        },
        None => {
            let name = copy_bytes(&d.name);
            let doc = match &d.doc {
                Some(dd) => copy_bytes(dd),
                None => Vec::new(),
            };
            let get = if is_getter {
                d.meth
            } else {
                0
            };
            let set = if is_getter {
                0
            } else {
                d.meth
            };
            let new_e = PyGetSetDefRaw { name, get, set, doc, closure: 0 };
            assert(new_e@ == spec_apply_getset(getset_init(d.name@), dm));
            props.push(new_e);
        },
    }
}

/// The name of the synthesized instance-dictionary property: `__dict__`,
/// nul-terminated.
pub open spec fn dict_name_bytes() -> Seq<u8> {
    seq![95u8, 95u8, 100u8, 105u8, 99u8, 116u8, 95u8, 95u8, 0u8]
}

/// The synthesized `__dict__` property entry: the host's generic
/// instance-dictionary accessors under the canonical name.
pub open spec fn spec_dict_getset_entry(config: HostConfig) -> GetSetRawModel {
    GetSetRawModel {
        name: dict_name_bytes(),
        get: config.generic_getdict,
        set: config.generic_setdict,
        doc: Seq::empty(),
        closure: 0,
    }
}

/// The property entries of a descriptor: the merged getter/setter entries,
/// then the synthesized `__dict__` entry when the host offers generic
/// dictionary accessors and the class has an instance dictionary; without
/// sentinel.
pub open spec fn spec_property_entries(
    defs: Seq<MethodDefTypeModel>,
    is_dummy: bool,
    config: HostConfig,
) -> Seq<GetSetRawModel> {
    spec_merged_getsets(defs) + if config.has_generic_dict_accessor && !is_dummy {
        seq![spec_dict_getset_entry(config)]
    } else {
        Seq::empty()
    }
}

/// The finished property table: the property entries, followed by the
/// all-zero sentinel when there is at least one; an empty table stays
/// entirely empty.
pub open spec fn spec_property_table(
    defs: Seq<MethodDefTypeModel>,
    is_dummy: bool,
    config: HostConfig,
) -> Seq<GetSetRawModel> {
    let entries = spec_property_entries(defs, is_dummy, config);
    if entries.len() == 0 {
        entries
    } else {
        entries.push(getset_sentinel())
    }
}

/// The mathematical value of a raw property table.
pub open spec fn getset_raws_view(v: Seq<PyGetSetDefRaw>) -> Seq<GetSetRawModel> {
    v.map_values(|e: PyGetSetDefRaw| e@)
}

/// The names of a raw property table, in order.
pub open spec fn getset_names_of(v: Seq<PyGetSetDefRaw>) -> Seq<Seq<u8>> {
    v.map_values(|e: PyGetSetDefRaw| e.name@)
}

/// The `__dict__` property name as a byte vector.
fn dict_name() -> (r: Vec<u8>)
    ensures
        r@ == dict_name_bytes(),
{
    let mut r: Vec<u8> = Vec::new();
    r.push(95);
    r.push(95);
    r.push(100);
    r.push(105);
    r.push(99);
    r.push(116);
    r.push(95);
    r.push(95);
    r.push(0);
    assert(r@ =~= dict_name_bytes());
    r
}

/// Append the synthesized `__dict__` property to the table, unless the class
/// has no instance dictionary (`is_dummy`) or the host offers no generic
/// dictionary accessors.
pub fn push_dict_getset(props: &mut Vec<PyGetSetDefRaw>, is_dummy: bool, config: &HostConfig)
    ensures
        getset_raws_view(final(props)@) == getset_raws_view(old(props)@) + (
        if config.has_generic_dict_accessor && !is_dummy {
            seq![spec_dict_getset_entry(*config)]
        } else {
            Seq::<GetSetRawModel>::empty()
        }),
{
    if config.has_generic_dict_accessor && !is_dummy {
        let entry = PyGetSetDefRaw {
            name: dict_name(),
            get: config.generic_getdict,
            set: config.generic_setdict,
            doc: Vec::new(),
            closure: 0,
        };
        assert(entry@ == spec_dict_getset_entry(*config));
        props.push(entry);
        assert(getset_raws_view(props@) =~= getset_raws_view(old(props)@) + seq![
            spec_dict_getset_entry(*config),
        ]);
    } else {
        assert(getset_raws_view(props@) =~= getset_raws_view(old(props)@)
            + Seq::<GetSetRawModel>::empty());
    }
}

/// Build the property table: merge getter and setter definitions that share
/// a name into one entry each (later definitions overwrite the fields they
/// supply, not the whole entry), in first-occurrence order; synthesize the
/// `__dict__` accessor pair unless the class has no instance dictionary or
/// the host lacks generic accessors; terminate with the all-zero sentinel
/// exactly when the table is non-empty.
pub fn py_class_properties(
    is_dummy: bool,
    method_defs: &Vec<PyMethodDefType>,
    config: &HostConfig,
) -> (r: Vec<PyGetSetDefRaw>)
    ensures
        getset_raws_view(r@) == spec_property_table(
            method_defs_view(method_defs@),
            is_dummy,
            *config,
        ),
{
    let ghost ms = method_defs_view(method_defs@);
    let mut props: Vec<PyGetSetDefRaw> = Vec::new();
    let mut i: usize = 0;
    while i < method_defs.len()
        invariant
            i <= method_defs.len(),
            ms == method_defs_view(method_defs@),
            ms.len() == method_defs@.len(),
            getset_names_of(props@) == spec_getset_names(ms.take(i as int)),
            getset_raws_view(props@) == spec_getset_names(ms.take(i as int)).map_values(
                |n: Seq<u8>| spec_merged_entry(ms.take(i as int), n),
            ),
            forall|j1: int, j2: int|
                0 <= j1 < j2 < props@.len() ==> props@[j1].name@ != props@[j2].name@,
        decreases method_defs.len() - i,
    {
        let def = &method_defs[i];
        let gs: Option<(&GetSetterDef, bool)> = match def {
            PyMethodDefType::Getter(g) => Some((g, true)),
            PyMethodDefType::Setter(s) => Some((s, false)),
            _ => None,
        };
        proof {
            assert(ms[i as int] == method_defs@[i as int]@);
            assert(ms.take(i + 1).drop_last() =~= ms.take(i as int));
            assert(ms.take(i + 1).last() == ms[i as int]);
        }
        match gs {
            Some((d2, is_getter)) => {
                let ghost props0 = props@;
                let ghost n = d2.name@;
                let ghost dm = if is_getter {
                    MethodDefTypeModel::Getter(d2@)
                } else {
                    MethodDefTypeModel::Setter(d2@)
                };
                proof {
                    assert(ms[i as int] == dm);
                    assert(getset_name(dm) == Some(n));
                }
                upsert_getset(&mut props, d2, is_getter);
                proof {
                    let t0 = ms.take(i as int);
                    let t1 = ms.take(i + 1);
                    let names0 = spec_getset_names(t0);
                    let names1 = spec_getset_names(t1);
                    if exists|j: int| 0 <= j < props0.len() && #[trigger] props0[j].name@ == n {
                        let j0 = choose|j: int|
                            0 <= j < props0.len() && #[trigger] props0[j].name@ == n;
                        assert(getset_names_of(props0)[j0] == n);
                        assert(names0.contains(n));
                        assert(names1 == names0);
                        assert forall|j: int| 0 <= j < names1.len() implies #[trigger] getset_raws_view(
                            props@,
                        )[j] == spec_merged_entry(t1, names1[j]) by {
                            assert(names0[j] == props0[j].name@);
                            assert(getset_raws_view(props0)[j] == spec_merged_entry(t0, names0[j]));
                            lemma_merged_entry_name(t0, names0[j]);
                            assert(getset_raws_view(props@)[j] == props@[j]@);
                            if props0[j].name@ == n {
                                assert(props@[j]@ == spec_apply_getset(props0[j]@, dm));
                            } else {
                                assert(props@[j]@ == props0[j]@);
                                assert(getset_name(t1.last()) != Some(names1[j]));
                            }
                        }
                        assert(getset_raws_view(props@) =~= names1.map_values(
                            |m: Seq<u8>| spec_merged_entry(t1, m),
                        ));
                        assert forall|j: int| 0 <= j < names1.len() implies #[trigger] getset_names_of(
                            props@,
                        )[j] == names1[j] by {
                            assert(getset_names_of(props@)[j] == props@[j].name@);
                            assert(getset_raws_view(props@)[j] == props@[j]@);
                            lemma_merged_entry_name(t1, names1[j]);
                        }
                        assert(getset_names_of(props@) =~= names1);
                        assert forall|j1: int, j2: int|
                            0 <= j1 < j2 < props@.len() implies props@[j1].name@
                            != props@[j2].name@ by {
                            assert(props@[j1]@ == (if props0[j1].name@ == n {
                                spec_apply_getset(props0[j1]@, dm)
                            } else {
                                props0[j1]@
                            }));
                            assert(props@[j2]@ == (if props0[j2].name@ == n {
                                spec_apply_getset(props0[j2]@, dm)
                            } else {
                                props0[j2]@
                            }));
                            assert(props@[j1].name@ == props0[j1].name@);
                            assert(props@[j2].name@ == props0[j2].name@);
                        }
                    } else {
                        assert forall|j: int| 0 <= j < names0.len() implies names0[j] != n by {
                            assert(names0[j] == props0[j].name@);
                        }
                        assert(!names0.contains(n));
                        assert(names1 == names0.push(n));
                        lemma_unseen_name_entry(t0, n);
                        assert forall|j: int| 0 <= j < names1.len() implies #[trigger] getset_raws_view(
                            props@,
                        )[j] == spec_merged_entry(t1, names1[j]) by {
                            if j < names0.len() {
                                assert(names1[j] == names0[j]);
                                assert(names0[j] == props0[j].name@);
                                assert(getset_raws_view(props0)[j] == spec_merged_entry(
                                    t0,
                                    names0[j],
                                ));
                                assert(props@[j]@ == props0[j]@);
                                assert(getset_name(t1.last()) != Some(names1[j]));
                            } else {
                                assert(names1[j] == n);
                                assert(props@[j]@ == spec_apply_getset(getset_init(n), dm));
                                assert(spec_merged_entry(t1, n) == spec_apply_getset(
                                    spec_merged_entry(t0, n),
                                    dm,
                                ));
                            }
                        }
                        assert(getset_raws_view(props@) =~= names1.map_values(
                            |m: Seq<u8>| spec_merged_entry(t1, m),
                        ));
                        assert forall|j: int| 0 <= j < names1.len() implies #[trigger] getset_names_of(
                            props@,
                        )[j] == names1[j] by {
                            assert(getset_names_of(props@)[j] == props@[j].name@);
                            assert(getset_raws_view(props@)[j] == props@[j]@);
                            lemma_merged_entry_name(t1, names1[j]);
                        }
                        assert(getset_names_of(props@) =~= names1);
                        assert forall|j1: int, j2: int|
                            0 <= j1 < j2 < props@.len() implies props@[j1].name@
                            != props@[j2].name@ by {
                            assert(props@[j1]@ == props0[j1]@);
                            assert(props@[j1].name@ == props0[j1].name@);
                            if j2 == props@.len() - 1 {
                                assert(props@[j2]@ == spec_apply_getset(getset_init(n), dm));
                                assert(props@[j2].name@ == n);
                                assert(props0[j1].name@ != n);
                            } else {
                                assert(props@[j2]@ == props0[j2]@);
                                assert(props@[j2].name@ == props0[j2].name@);
                            }
                        }
                    }
                }
            },
            None => {
                proof {
                    let t0 = ms.take(i as int);
                    let t1 = ms.take(i + 1);
                    assert(getset_name(ms[i as int]) is None);
                    assert(spec_getset_names(t1) == spec_getset_names(t0));
                    assert forall|j: int| 0 <= j < spec_getset_names(t1).len() implies #[trigger] spec_merged_entry(
                        t1,
                        spec_getset_names(t1)[j],
                    ) == spec_merged_entry(t0, spec_getset_names(t0)[j]) by {
                        assert(getset_name(t1.last()) != Some(spec_getset_names(t1)[j]));
                    }
                    assert(spec_getset_names(t1).map_values(
                        |m: Seq<u8>| spec_merged_entry(t1, m),
                    ) =~= spec_getset_names(t0).map_values(|m: Seq<u8>| spec_merged_entry(t0, m)));
                }
            },
        }
        i = i + 1;
    }
    proof {
        assert(ms.take(ms.len() as int) =~= ms);
        assert(getset_raws_view(props@) == spec_merged_getsets(ms));
    }
    push_dict_getset(&mut props, is_dummy, config);
    proof {
        assert(getset_raws_view(props@) =~= spec_property_entries(ms, is_dummy, *config));
    }
    if props.len() > 0 {
        let sentinel = PyGetSetDefRaw {
            name: Vec::new(),
            get: 0,
            set: 0,
            doc: Vec::new(),
            closure: 0,
        };
        assert(sentinel@ =~= getset_sentinel());
        props.push(sentinel);
        assert(getset_raws_view(props@) =~= spec_property_table(ms, is_dummy, *config));
    } else {
        assert(getset_raws_view(props@) =~= spec_property_table(ms, is_dummy, *config));
    }
    props
}

} // verus!
