//! Documentation-string handling and the qualified type name.

use vstd::prelude::*;
use crate::bytes::{
    append_bytes, bytes_nul_free, copy_bytes, nul_free, nul_free_interior, nul_terminated,
    to_c_string,
};
use crate::defs::ConfigError;

verus! {

/// The byte that separates module and class name: `.`.
pub const NAME_SEPARATOR: u8 = 46;

/// The single-byte string that means "no documentation".
pub open spec fn is_doc_sentinel(s: Seq<u8>) -> bool {
    s.len() == 1 && s[0] == 0
}

/// What the documentation string becomes: nothing for the "no documentation"
/// sentinel, otherwise its nul-terminated form, whose buffer is handed to
/// the host for the life of the process.
pub open spec fn spec_class_doc(s: Seq<u8>) -> Option<Seq<u8>> {
    if is_doc_sentinel(s) {
        None
    } else {
        Some(nul_terminated(s))
    }
}

/// Turn the descriptor's documentation string into the buffer registered
/// with the host: `None` for the "no documentation" sentinel, otherwise a
/// nul-terminated copy. A nul byte anywhere before the last position marks
/// a defect in the descriptor producer and is excluded up front.
pub fn py_class_doc(class_doc: &Vec<u8>) -> (r: Option<Vec<u8>>)
    requires
        nul_free_interior(class_doc@),
    ensures
        match r {
            None => spec_class_doc(class_doc@) is None,
            Some(v) => spec_class_doc(class_doc@) == Some(v@),
        },
{
    if class_doc.len() == 1 && class_doc[0] == 0 {
        None
    } else {
        Some(to_c_string(class_doc))
    }
}

/// The host runtime's canonical "no module" name: `builtins`.
pub open spec fn default_module_bytes() -> Seq<u8> {
    seq![98u8, 117u8, 105u8, 108u8, 116u8, 105u8, 110u8, 115u8]
}

/// The module part of the qualified name: the descriptor's module when one
/// is named, else the host's canonical "no module" name.
pub open spec fn spec_module_bytes(module: Option<Seq<u8>>) -> Seq<u8> {
    match module {
        Some(m) => m,
        None => default_module_bytes(),
    }
}

/// The qualified type name as registered with the host:
/// `module.name`, nul-terminated.
pub open spec fn spec_qualified_name(module: Option<Seq<u8>>, name: Seq<u8>) -> Seq<u8> {
    spec_module_bytes(module) + seq![NAME_SEPARATOR] + name + seq![0u8]
}

/// The host's canonical "no module" name as a byte vector.
pub fn default_module_name() -> (r: Vec<u8>)
    ensures
        r@ == default_module_bytes(),
{
    let mut r: Vec<u8> = Vec::new();
    r.push(98);
    r.push(117);
    r.push(105);
    r.push(108);
    r.push(116);
    r.push(105);
    r.push(110);
    r.push(115);
    assert(r@ =~= default_module_bytes());
    r
}

/// The view of an optional module name.
pub open spec fn view_module(module: Option<Vec<u8>>) -> Option<Seq<u8>> {
    match module {
        Some(m) => Some(m@),
        None => None,
    }
}

/// Build the qualified type name handed to the host: `module.name` with a
/// terminating nul, the module defaulting to the host's canonical "no
/// module" name. Fails exactly when the module or class name holds a nul
/// byte, which no host string may.
pub fn py_class_qualified_name(module_name: &Option<Vec<u8>>, class_name: &Vec<u8>) -> (r: Result<
    Vec<u8>,
    ConfigError,
>)
    ensures
        match r {
            Ok(v) => nul_free(spec_module_bytes(view_module(*module_name)))
                && nul_free(class_name@)
                && v@ == spec_qualified_name(view_module(*module_name), class_name@),
            Err(e) => e == ConfigError::InteriorNulInName
                && !(nul_free(spec_module_bytes(view_module(*module_name)))
                    && nul_free(class_name@)),
        },
{
    let module: Vec<u8> = match module_name {
        Some(m) => copy_bytes(m),
        None => default_module_name(),
    };
    if !bytes_nul_free(&module) || !bytes_nul_free(class_name) {
        return Err(ConfigError::InteriorNulInName);
    }
    let mut r = module;
    r.push(NAME_SEPARATOR);
    append_bytes(&mut r, class_name);
    r.push(0);
    assert(r@ =~= spec_qualified_name(view_module(*module_name), class_name@));
    Ok(r)
}

} // verus!
