//! Data model: slot identifiers, flag bits, raw table entries, the class
//! descriptor, the host configuration and the model of a live type object.
//!
//! Host addresses (function pointers, base-type handles) are carried as plain
//! `usize` values; `0` stands for the null pointer. Strings are byte vectors,
//! exactly as the host ABI consumes them; a terminating `0` byte is explicit.

use vstd::prelude::*;

verus! {

/// Slot identifier for the buffer-protocol "get buffer" hook.
pub const PY_BF_GETBUFFER: i32 = 1;
/// Slot identifier for the buffer-protocol "release buffer" hook.
pub const PY_BF_RELEASEBUFFER: i32 = 2;
/// Slot identifier for the allocation hook.
pub const PY_TP_ALLOC: i32 = 47;
/// Slot identifier for the base type.
pub const PY_TP_BASE: i32 = 48;
/// Slot identifier for the cycle-collector "clear" hook.
pub const PY_TP_CLEAR: i32 = 51;
/// Slot identifier for the deallocation hook.
pub const PY_TP_DEALLOC: i32 = 52;
/// Slot identifier for the documentation string.
pub const PY_TP_DOC: i32 = 56;
/// Slot identifier for the method table.
pub const PY_TP_METHODS: i32 = 64;
/// Slot identifier for the construction hook.
pub const PY_TP_NEW: i32 = 65;
/// Slot identifier for the cycle-collector "traverse" hook.
pub const PY_TP_TRAVERSE: i32 = 71;
/// Slot identifier for the member table.
pub const PY_TP_MEMBERS: i32 = 72;
/// Slot identifier for the property (getter/setter) table.
pub const PY_TP_GETSET: i32 = 73;
/// Slot identifier for the free hook.
pub const PY_TP_FREE: i32 = 74;

/// Flags every type carries by default.
pub const PY_TPFLAGS_DEFAULT: u32 = 0x40000;
/// Flag marking participation in the host's cycle collector.
pub const PY_TPFLAGS_HAVE_GC: u32 = 0x4000;
/// Flag permitting subclassing of the type.
pub const PY_TPFLAGS_BASETYPE: u32 = 0x400;

/// Member type code for a signed size-typed field.
pub const T_PYSSIZET: i32 = 19;
/// Member flag marking a read-only field.
pub const READONLY: i32 = 1;

/// Error for a malformed class descriptor (for example an interior nul byte
/// in a string destined for the host ABI). Reflects a defect in the
/// descriptor producer; the embedding program treats it as fatal.
#[derive(Clone, Copy, Debug, PartialEq, Eq)]
pub enum ConfigError {
    /// A documentation string holds a nul byte before its final position.
    InteriorNulInDoc,
    /// A method or property name, or a method doc, cannot be converted to a
    /// nul-terminated host string.
    InteriorNulInMethodDef,
    /// The module or class name holds a nul byte.
    InteriorNulInName,
}

/// A raw method-table entry as the host ABI reads it.
/// `ml_name` is nul-terminated; the all-zero value is the table sentinel.
#[derive(Clone, Debug, PartialEq, Eq)]
pub struct PyMethodDefRaw {
    pub ml_name: Vec<u8>,
    pub ml_meth: usize,
    pub ml_flags: i32,
    pub ml_doc: Vec<u8>,
}

/// Mathematical value of a raw method-table entry.
#[verifier::ext_equal]
pub struct MethodRawModel {
    pub ml_name: Seq<u8>,
    pub ml_meth: usize,
    pub ml_flags: i32,
    pub ml_doc: Seq<u8>,
}

impl View for PyMethodDefRaw {
    type V = MethodRawModel;

    open spec fn view(&self) -> MethodRawModel {
        MethodRawModel {
            ml_name: self.ml_name@,
            ml_meth: self.ml_meth,
            ml_flags: self.ml_flags,
            ml_doc: self.ml_doc@,
        }
    }
}

/// The all-zero method-table sentinel.
pub open spec fn method_sentinel() -> MethodRawModel {
    MethodRawModel { ml_name: Seq::empty(), ml_meth: 0, ml_flags: 0, ml_doc: Seq::empty() }
}

/// A raw property-table entry as the host ABI reads it.
/// The all-zero value is the table sentinel.
#[derive(Clone, Debug, PartialEq, Eq)]
pub struct PyGetSetDefRaw {
    pub name: Vec<u8>,
    pub get: usize,
    pub set: usize,
    pub doc: Vec<u8>,
    pub closure: usize,
}

/// Mathematical value of a raw property-table entry.
#[verifier::ext_equal]
pub struct GetSetRawModel {
    pub name: Seq<u8>,
    pub get: usize,
    pub set: usize,
    pub doc: Seq<u8>,
    pub closure: usize,
}

impl View for PyGetSetDefRaw {
    type V = GetSetRawModel;

    open spec fn view(&self) -> GetSetRawModel {
        GetSetRawModel {
            name: self.name@,
            get: self.get,
            set: self.set,
            doc: self.doc@,
            closure: self.closure,
        }
    }
}

/// The all-zero property-table sentinel.
pub open spec fn getset_sentinel() -> GetSetRawModel {
    GetSetRawModel { name: Seq::empty(), get: 0, set: 0, doc: Seq::empty(), closure: 0 }
}

/// A raw member-table entry as the host ABI reads it.
/// The all-zero value is the table sentinel.
#[derive(Clone, Debug, PartialEq, Eq)]
pub struct PyMemberDefRaw {
    pub name: Vec<u8>,
    pub type_code: i32,
    pub offset: isize,
    pub flags: i32,
    pub doc: Vec<u8>,
}

/// Mathematical value of a raw member-table entry.
#[verifier::ext_equal]
pub struct MemberRawModel {
    pub name: Seq<u8>,
    pub type_code: i32,
    pub offset: isize,
    pub flags: i32,
    pub doc: Seq<u8>,
}

impl View for PyMemberDefRaw {
    type V = MemberRawModel;

    open spec fn view(&self) -> MemberRawModel {
        MemberRawModel {
            name: self.name@,
            type_code: self.type_code,
            offset: self.offset,
            flags: self.flags,
            doc: self.doc@,
        }
    }
}

/// The all-zero member-table sentinel.
pub open spec fn member_sentinel() -> MemberRawModel {
    MemberRawModel { name: Seq::empty(), type_code: 0, offset: 0, flags: 0, doc: Seq::empty() }
}

/// A callable method definition: name, native hook address, calling
/// convention flags and documentation, all still in descriptor form (the
/// name need not be nul-terminated yet).
#[derive(Clone, Debug, PartialEq, Eq)]
pub struct MethodDef {
    pub name: Vec<u8>,
    pub meth: usize,
    pub flags: i32,
    pub doc: Vec<u8>,
}

/// Mathematical value of a callable method definition.
#[verifier::ext_equal]
pub struct MethodDefModel {
    pub name: Seq<u8>,
    pub meth: usize,
    pub flags: i32,
    pub doc: Seq<u8>,
}

impl View for MethodDef {
    type V = MethodDefModel;

    open spec fn view(&self) -> MethodDefModel {
        MethodDefModel { name: self.name@, meth: self.meth, flags: self.flags, doc: self.doc@ }
    }
}

/// A getter or setter definition: property name, native hook address and an
/// optional documentation string.
#[derive(Clone, Debug, PartialEq, Eq)]
pub struct GetSetterDef {
    pub name: Vec<u8>,
    pub meth: usize,
    pub doc: Option<Vec<u8>>,
}

/// Mathematical value of a getter or setter definition.
#[verifier::ext_equal]
pub struct GetSetterDefModel {
    pub name: Seq<u8>,
    pub meth: usize,
    pub doc: Option<Seq<u8>>,
}

impl View for GetSetterDef {
    type V = GetSetterDefModel;

    open spec fn view(&self) -> GetSetterDefModel {
        GetSetterDefModel {
            name: self.name@,
            meth: self.meth,
            doc: match self.doc {
                Some(d) => Some(d@),
                None => None,
            },
        }
    }
}

/// One method definition of a class descriptor. Only the callable kinds
/// (instance, class, static) reach the method table; getters and setters
/// reach the property table; class attributes are intentionally ignored by
/// the table builders (they are not type-object members).
#[derive(Clone, Debug, PartialEq, Eq)]
pub enum PyMethodDefType {
    Method(MethodDef),
    Class(MethodDef),
    Static(MethodDef),
    Getter(GetSetterDef),
    Setter(GetSetterDef),
    ClassAttribute(Vec<u8>),
}

/// Mathematical value of one method definition.
#[verifier::ext_equal]
pub enum MethodDefTypeModel {
    Method(MethodDefModel),
    Class(MethodDefModel),
    Static(MethodDefModel),
    Getter(GetSetterDefModel),
    Setter(GetSetterDefModel),
    ClassAttribute(Seq<u8>),
}

impl View for PyMethodDefType {
    type V = MethodDefTypeModel;

    open spec fn view(&self) -> MethodDefTypeModel {
        match self {
            PyMethodDefType::Method(d) => MethodDefTypeModel::Method(d@),
            PyMethodDefType::Class(d) => MethodDefTypeModel::Class(d@),
            PyMethodDefType::Static(d) => MethodDefTypeModel::Static(d@),
            PyMethodDefType::Getter(d) => MethodDefTypeModel::Getter(d@),
            PyMethodDefType::Setter(d) => MethodDefTypeModel::Setter(d@),
            PyMethodDefType::ClassAttribute(n) => MethodDefTypeModel::ClassAttribute(n@),
        }
    }
}

/// One protocol-slot override of a class descriptor: a slot identifier and
/// the address of the hook implementing it.
#[derive(Clone, Copy, Debug, PartialEq, Eq, Structural)]
pub struct TypeSlot {
    pub slot: i32,
    pub pfunc: usize,
}

/// Build-time capabilities of the host runtime, resolved once and threaded
/// into the version-gated builders and the post-creation patcher, together
/// with the addresses of the host hooks the library registers on the
/// descriptor's behalf.
#[derive(Clone, Copy, Debug, PartialEq, Eq, Structural)]
pub struct HostConfig {
    /// The host accepts a member table through the slot mechanism; when it
    /// does not, dict/weak-reference offsets are patched after creation.
    pub supports_slot_based_members: bool,
    /// The host's slot mechanism silently ignores buffer-protocol slots;
    /// they must be patched onto the finished type object directly.
    pub requires_manual_buffer_protocol_patch: bool,
    /// The host strips parts of a supplied documentation string when it
    /// builds the type; the exact text must be patched in after creation.
    pub requires_manual_doc_patch: bool,
    /// The host offers generic instance-dictionary accessor hooks.
    pub has_generic_dict_accessor: bool,
    /// Host hook used as the construction slot when the descriptor names
    /// none: it refuses direct construction.
    pub fallback_new: usize,
    /// Host's generic instance-dictionary getter hook.
    pub generic_getdict: usize,
    /// Host's generic instance-dictionary setter hook.
    pub generic_setdict: usize,
}

/// The declarative description of one class, produced once per class and
/// consumed exactly once by the assembler.
#[derive(Clone, Debug, PartialEq, Eq)]
pub struct ClassDescriptor {
    /// Class name, without module prefix and without terminating nul.
    pub name: Vec<u8>,
    /// Module name; the host's canonical "no module" name stands in when absent.
    pub module: Option<Vec<u8>>,
    /// Documentation string; the single byte `0` means "no documentation".
    pub doc: Vec<u8>,
    /// Handle of the base type inside the host runtime.
    pub base_type: usize,
    /// Size in bytes of one instance.
    pub basicsize: usize,
    /// Construction hook, if any.
    pub tp_new: Option<usize>,
    /// Deallocation hook (mandatory).
    pub tp_dealloc: usize,
    /// Allocation hook, if any.
    pub tp_alloc: Option<usize>,
    /// Free hook, if any.
    pub tp_free: Option<usize>,
    /// Byte offset of the instance dictionary field, if the class has one.
    pub dict_offset: Option<isize>,
    /// Byte offset of the weak-reference list field, if the class has one.
    pub weaklist_offset: Option<isize>,
    /// Ordered method and property definitions.
    pub method_defs: Vec<PyMethodDefType>,
    /// Ordered protocol-slot overrides.
    pub proto_slots: Vec<TypeSlot>,
    /// The class participates in the host's cycle collector.
    pub is_gc: bool,
    /// The class permits subclassing.
    pub is_basetype: bool,
}

/// Mathematical value of a class descriptor.
#[verifier::ext_equal]
pub struct ClassDescriptorModel {
    pub name: Seq<u8>,
    pub module: Option<Seq<u8>>,
    pub doc: Seq<u8>,
    pub base_type: usize,
    pub basicsize: usize,
    pub tp_new: Option<usize>,
    pub tp_dealloc: usize,
    pub tp_alloc: Option<usize>,
    pub tp_free: Option<usize>,
    pub dict_offset: Option<isize>,
    pub weaklist_offset: Option<isize>,
    pub method_defs: Seq<MethodDefTypeModel>,
    pub proto_slots: Seq<TypeSlot>,
    pub is_gc: bool,
    pub is_basetype: bool,
}

impl View for ClassDescriptor {
    type V = ClassDescriptorModel;

    open spec fn view(&self) -> ClassDescriptorModel {
        ClassDescriptorModel {
            name: self.name@,
            module: match self.module {
                Some(m) => Some(m@),
                None => None,
            },
            doc: self.doc@,
            base_type: self.base_type,
            basicsize: self.basicsize,
            tp_new: self.tp_new,
            tp_dealloc: self.tp_dealloc,
            tp_alloc: self.tp_alloc,
            tp_free: self.tp_free,
            dict_offset: self.dict_offset,
            weaklist_offset: self.weaklist_offset,
            method_defs: self.method_defs@.map_values(|d: PyMethodDefType| d@),
            proto_slots: self.proto_slots@,
            is_gc: self.is_gc,
            is_basetype: self.is_basetype,
        }
    }
}

/// A class supplies its declarative description through this trait; the
/// assembler turns it into the host runtime's type specification.
pub trait PyClass {
    /// The description this class stands for.
    spec fn spec_descriptor(&self) -> ClassDescriptorModel;

    /// Produce the class descriptor consumed by the assembler.
    fn class_descriptor(&self) -> (d: ClassDescriptor)
        ensures
            d@ == self.spec_descriptor(),
    ;
}

} // verus!
