//! The post-creation patcher and the handling of the host's creation
//! outcome.
//!
//! On host versions where slot-based construction is fully sufficient the
//! patcher changes nothing. On older versions it replaces the documentation
//! buffer the host auto-generated with an exact copy of the supplied text,
//! copies the intercepted buffer-protocol hooks onto the finished type
//! object, and writes the dictionary and weak-reference offsets that the
//! member-table mechanism could not register. It runs after creation
//! succeeds and before the handle reaches any caller.

use vstd::prelude::*;
use crate::bytes::copy_bytes;
use crate::defs::HostConfig;
use crate::names::is_doc_sentinel;
use crate::slots::BufferProcs;

verus! {

/// The mutable state of a finished type object that the patcher may touch.
/// The real object lives inside the host runtime; the embedding program
/// reads the patched values out of this model and writes them through the
/// host's ABI.
#[derive(Clone, Debug, PartialEq, Eq)]
pub struct TypeObject {
    /// The documentation buffer the host generated during creation.
    pub tp_doc: Vec<u8>,
    /// Buffer-protocol "get buffer" hook address; `0` when absent.
    pub bf_getbuffer: usize,
    /// Buffer-protocol "release buffer" hook address; `0` when absent.
    pub bf_releasebuffer: usize,
    /// Byte offset of the instance dictionary field; `0` when unset.
    pub tp_dictoffset: isize,
    /// Byte offset of the weak-reference list field; `0` when unset.
    pub tp_weaklistoffset: isize,
}

/// Mathematical value of a type object's patchable state.
#[verifier::ext_equal]
pub struct TypeObjectModel {
    pub tp_doc: Seq<u8>,
    pub bf_getbuffer: usize,
    pub bf_releasebuffer: usize,
    pub tp_dictoffset: isize,
    pub tp_weaklistoffset: isize,
}

impl View for TypeObject {
    type V = TypeObjectModel;

    open spec fn view(&self) -> TypeObjectModel {
        TypeObjectModel {
            tp_doc: self.tp_doc@,
            bf_getbuffer: self.bf_getbuffer,
            bf_releasebuffer: self.bf_releasebuffer,
            tp_dictoffset: self.tp_dictoffset,
            tp_weaklistoffset: self.tp_weaklistoffset,
        }
    }
}

/// What the patcher leaves behind: the exact supplied documentation when the
/// host needs the manual doc patch and the descriptor carries one; the
/// intercepted buffer-protocol hooks when the host needs the manual buffer
/// patch; the present offsets when the host lacks slot-based members; and
/// the created state everywhere else.
pub open spec fn spec_patched(
    t: TypeObjectModel,
    tp_doc: Seq<u8>,
    buffer_procs: BufferProcs,
    dict_offset: Option<isize>,
    weaklist_offset: Option<isize>,
    config: HostConfig,
) -> TypeObjectModel {
    TypeObjectModel {
        tp_doc: if config.requires_manual_doc_patch && !is_doc_sentinel(tp_doc) {
            tp_doc
        } else {
            t.tp_doc
        },
        bf_getbuffer: if config.requires_manual_buffer_protocol_patch {
            buffer_procs.bf_getbuffer
        } else {
            t.bf_getbuffer
        },
        bf_releasebuffer: if config.requires_manual_buffer_protocol_patch {
            buffer_procs.bf_releasebuffer
        } else {
            t.bf_releasebuffer
        },
        tp_dictoffset: if !config.supports_slot_based_members && dict_offset is Some {
            dict_offset.unwrap()
        } else {
            t.tp_dictoffset
        },
        tp_weaklistoffset: if !config.supports_slot_based_members && weaklist_offset is Some {
            weaklist_offset.unwrap()
        } else {
            t.tp_weaklistoffset
        },
    }
}

/// Apply the version-gated patches to a freshly created type object: replace
/// the auto-generated documentation buffer with a byte-for-byte copy of the
/// supplied text (unless it is the "no documentation" sentinel), install the
/// intercepted buffer-protocol hooks, and write the offsets the member
/// table could not carry. A no-op on hosts whose slot-based construction is
/// fully sufficient.
pub fn tp_init_additional(
    type_object: &mut TypeObject,
    tp_doc: &Vec<u8>,
    buffer_procs: &BufferProcs,
    dict_offset: Option<isize>,
    weaklist_offset: Option<isize>,
    config: &HostConfig,
)
    ensures
        final(type_object)@ == spec_patched(
            old(type_object)@,
            tp_doc@,
            *buffer_procs,
            dict_offset,
            weaklist_offset,
            *config,
        ),
{
    if config.requires_manual_doc_patch {
        let is_sentinel = tp_doc.len() == 1 && tp_doc[0] == 0;
        if !is_sentinel {
            type_object.tp_doc = copy_bytes(tp_doc);
        }
    }
    if config.requires_manual_buffer_protocol_patch {
        type_object.bf_getbuffer = buffer_procs.bf_getbuffer;
        type_object.bf_releasebuffer = buffer_procs.bf_releasebuffer;
    }
    if !config.supports_slot_based_members {
        if let Some(o) = dict_offset {
            type_object.tp_dictoffset = o;
        }
        if let Some(o) = weaklist_offset {
            type_object.tp_weaklistoffset = o;
        }
    }
    assert(type_object@ =~= spec_patched(
        old(type_object)@,
        tp_doc@,
        *buffer_procs,
        dict_offset,
        weaklist_offset,
        *config,
    ));
}

} // verus!
