//! The final step of type construction: deciding what becomes of the host
//! runtime's creation outcome.
//!
//! The host call itself (`CreateTypeFromSpec`, error fetching) is the
//! embedding program's to make; this module takes its outcome and either
//! finishes the type object — running the post-creation patcher before the
//! handle reaches any caller — or turns the failure into the fatal report
//! the embedding program aborts with. Type-creation failure has no safe
//! recovery: the host may have partially registered the type under its name.

use vstd::prelude::*;
use crate::bytes::copy_bytes;
use crate::defs::{ClassDescriptor, ConfigError, HostConfig, PyClass};
use crate::patch::{spec_patched, tp_init_additional, TypeObject};
use crate::slots::{
    build_type_spec, descriptor_convertible, spec_buffer_procs, spec_build_error, spec_type_spec,
    BufferProcs, TypeSpec,
};

verus! {

/// An error fetched from the host runtime after a failed creation call.
#[derive(Clone, Debug, PartialEq, Eq)]
pub struct HostError {
    /// The host's diagnostic text.
    pub message: Vec<u8>,
}

impl View for HostError {
    type V = Seq<u8>;

    open spec fn view(&self) -> Seq<u8> {
        self.message@
    }
}

/// What the host runtime's type-creation entry point came back with: a
/// created type object, or the error fetched after a failure result.
#[derive(Clone, Debug, PartialEq, Eq)]
pub enum TypeCreationOutcome {
    Created(TypeObject),
    Failed(HostError),
}

/// The report the embedding program aborts the process with: the class being
/// initialized and the host's error. There is no recovery path — a
/// half-built type must never be handed to callers.
#[derive(Clone, Debug, PartialEq, Eq)]
pub struct FatalReport {
    /// Name of the class whose initialization failed.
    pub class_name: Vec<u8>,
    /// The error the host reported.
    pub host_error: HostError,
}

/// Turn a failed creation call into the fatal report naming the class. The
/// embedding program prints the report and terminates the process: the
/// failure reflects a structural mismatch in the specification, which no
/// retry can fix.
pub fn type_object_creation_failed(e: HostError, name: &Vec<u8>) -> (r: FatalReport)
    ensures
        r.class_name@ == name@,
        r.host_error@ == e@,
{
    FatalReport { class_name: copy_bytes(name), host_error: e }
}

/// Decide what becomes of the host's creation outcome: on success, run the
/// post-creation patcher and hand the finished type object out; on failure,
/// hand out the fatal report naming the class. No type object is ever
/// returned on the failure path.
pub fn finish_type_object(
    outcome: TypeCreationOutcome,
    tp_doc: &Vec<u8>,
    buffer_procs: &BufferProcs,
    dict_offset: Option<isize>,
    weaklist_offset: Option<isize>,
    config: &HostConfig,
    class_name: &Vec<u8>,
) -> (r: Result<TypeObject, FatalReport>)
    ensures
        match outcome {
            TypeCreationOutcome::Created(t) => r matches Ok(p) && p@ == spec_patched(
                t@,
                tp_doc@,
                *buffer_procs,
                dict_offset,
                weaklist_offset,
                *config,
            ),
            TypeCreationOutcome::Failed(e) => r matches Err(rep) && rep.class_name@ == class_name@
                && rep.host_error@ == e@,
        },
{
    match outcome {
        TypeCreationOutcome::Created(t) => {
            let mut type_object = t;
            tp_init_additional(
                &mut type_object,
                tp_doc,
                buffer_procs,
                dict_offset,
                weaklist_offset,
                config,
            );
            Ok(type_object)
        },
        TypeCreationOutcome::Failed(e) => Err(type_object_creation_failed(e, class_name)),
    }
}

/// Assemble the type specification for a class that describes itself through
/// the `PyClass` trait. The embedding program hands the specification to the
/// host runtime and brings the outcome back to `finish_type_object`.
pub fn create_type_spec<T: PyClass>(class: &T, config: &HostConfig) -> (r: Result<
    (TypeSpec, BufferProcs),
    ConfigError,
>)
    requires
        class.spec_descriptor().basicsize <= 0x7fffffff,
    ensures
        match r {
            Ok(sp) => descriptor_convertible(class.spec_descriptor()) && sp.0@ == spec_type_spec(
                class.spec_descriptor(),
                *config,
            ) && sp.1 == spec_buffer_procs(class.spec_descriptor().proto_slots, *config),
            Err(e) => !descriptor_convertible(class.spec_descriptor()) && e == spec_build_error(
                class.spec_descriptor(),
            ),
        },
{
    let desc: ClassDescriptor = class.class_descriptor();
    build_type_spec(&desc, config)
}

} // verus!
