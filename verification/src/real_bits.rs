//! Real numbers cross the boundary as bit patterns: the runtime's `struct`
//! module packs a number as a big-endian double and unpacks the same eight
//! bytes as an unsigned integer, and back.
use vstd::prelude::*;
use cpython::{GILGuard, PyObject};
use crate::runtime::{as_uint, clone_ref, get_item, import_module, module_call, text_object, uint_object};

verus! {

/// Packs `value` under the format `packed_as` and unpacks the bytes under the
/// format `read_as`; the one item that comes out, or nothing where the runtime
/// refused a step.
pub fn repack(gil: &GILGuard, packed_as: &str, value: PyObject, read_as: &str) -> (r: Option<
    PyObject,
>) {
    proof {
        reveal_strlit("struct");
    }
    let packer = match import_module(gil, "struct") {
        Ok(packer) => packer,
        Err(_) => {
            return None;
        },
    };
    let mut args: Vec<PyObject> = Vec::new();
    args.push(text_object(gil, packed_as));
    args.push(value);
    let packed = match module_call(gil, &packer, "pack", &args, None) {
        Ok(packed) => packed,
        Err(_) => {
            return None;
        },
    };
    let mut args: Vec<PyObject> = Vec::new();
    args.push(text_object(gil, read_as));
    args.push(packed);
    let items = match module_call(gil, &packer, "unpack", &args, None) {
        Ok(items) => items,
        Err(_) => {
            return None;
        },
    };
    get_item(gil, &items, &uint_object(gil, 0))
}

/// The bit pattern of the double that a runtime number converts to, or
/// nothing where the object is no number.
pub fn as_real_bits(gil: &GILGuard, obj: &PyObject) -> (r: Option<u64>) {
    match repack(gil, ">d", clone_ref(gil, obj), ">Q") {
        Some(word) => as_uint(gil, &word),
        None => None,
    }
}

/// The runtime's floating-point number with the given bit pattern, or
/// nothing where the runtime built none.
pub fn real_object(gil: &GILGuard, bits: u64) -> (r: Option<PyObject>) {
    repack(gil, ">Q", uint_object(gil, bits), ">d")
}

} // verus!
