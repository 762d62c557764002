//! The calls into the embedded Python runtime. Each function here makes one
//! call of the `cpython` crate; none of them is verified, and none promises
//! anything about what the runtime hands back. Those that build an object
//! fail only where the runtime cannot allocate it.
use vstd::prelude::*;
use cpython::{GILGuard, ObjectProtocol, PyClone, PyDict, PyErr, PyModule, PyObject, PyTuple, Python, PythonObject, ToPyObject};

verus! {

#[verifier::external_type_specification]
#[verifier::external_body]
pub struct ExPyObject(PyObject);

#[verifier::external_type_specification]
#[verifier::external_body]
pub struct ExGILGuard(GILGuard);

#[verifier::external_type_specification]
#[verifier::external_body]
pub struct ExPyDict(PyDict);

#[verifier::external_type_specification]
#[verifier::external_body]
pub struct ExPyModule(PyModule);

#[verifier::external_type_specification]
#[verifier::external_body]
pub struct ExPyErr(PyErr);

/// `Python::acquire_gil`: takes the runtime's lock, starting the runtime if it
/// is not running yet.
#[verifier::external_body]
pub(crate) fn acquire_gil() -> (gil: GILGuard) {
    Python::acquire_gil()
}

/// The text holds no NUL character.
pub open spec fn no_nul(text: Seq<char>) -> bool {
    forall|i: int| 0 <= i < text.len() ==> text[i] != '\0'
}

/// `Python::import`: the module of that name, or the runtime's error. The
/// crate hands the name over as a C string and panics on a NUL inside it, so
/// such a name is left out.
#[verifier::external_body]
pub(crate) fn import_module(gil: &GILGuard, name: &str) -> (r: Result<PyModule, PyErr>)
    requires
        no_nul(name@),
{
    gil.python().import(name)
}

/// `PyModule::get`: the member of the module under that name.
#[verifier::external_body]
pub(crate) fn module_get(gil: &GILGuard, module: &PyModule, name: &str) -> (r: Option<PyObject>) {
    module.get(gil.python(), name).ok()
}

/// `PyModule::call`: calls the module's function of that name with the given
/// positional and keyword arguments; the result, or the runtime's error.
#[verifier::external_body]
pub(crate) fn module_call(
    gil: &GILGuard,
    module: &PyModule,
    name: &str,
    args: &Vec<PyObject>,
    kwargs: Option<&PyDict>,
) -> (r: Result<PyObject, PyErr>) {
    let py = gil.python();
    module.call(py, name, PyTuple::new(py, args.as_slice()), kwargs)
}

/// `PyDict::new`: a fresh, empty dictionary.
#[verifier::external_body]
pub(crate) fn new_dict(gil: &GILGuard) -> (dict: PyDict) {
    PyDict::new(gil.python())
}

/// `PyDict::set_item`: stores the value under the key; `false` where the
/// runtime refused.
#[verifier::external_body]
pub(crate) fn dict_set(gil: &GILGuard, dict: &PyDict, key: &str, value: &PyObject) -> (done: bool) {
    dict.set_item(gil.python(), key, value).is_ok()
}

/// `PythonObject::into_object` on a dictionary: the same dictionary, as a
/// plain object.
#[verifier::external_body]
pub(crate) fn dict_object(dict: PyDict) -> (obj: PyObject) {
    dict.into_object()
}

/// `PyDict::items` behind `PyObject::cast_as`: the pairs of a dictionary, or
/// nothing where the object is no dictionary.
#[verifier::external_body]
pub(crate) fn dict_items(gil: &GILGuard, obj: &PyObject) -> (r: Option<Vec<(PyObject, PyObject)>>) {
    let py = gil.python();
    obj.cast_as::<PyDict>(py).ok().map(|d| d.items(py))
}

/// `ObjectProtocol::getattr`: the attribute of that name.
#[verifier::external_body]
pub(crate) fn get_attr(gil: &GILGuard, obj: &PyObject, name: &str) -> (r: Option<PyObject>) {
    obj.getattr(gil.python(), name).ok()
}

/// `ObjectProtocol::get_item`: the item under that key or index.
#[verifier::external_body]
pub(crate) fn get_item(gil: &GILGuard, obj: &PyObject, key: &PyObject) -> (r: Option<PyObject>) {
    obj.get_item(gil.python(), key).ok()
}

/// `ObjectProtocol::call_method`: calls the method of that name with the
/// given positional and keyword arguments.
#[verifier::external_body]
pub(crate) fn call_method(
    gil: &GILGuard,
    obj: &PyObject,
    name: &str,
    args: &Vec<PyObject>,
    kwargs: Option<&PyDict>,
) -> (r: Option<PyObject>) {
    let py = gil.python();
    obj.call_method(py, name, PyTuple::new(py, args.as_slice()), kwargs).ok()
}

/// `PyObject::get_type` and `PyType::name`: the name of the object's class.
#[verifier::external_body]
pub(crate) fn class_name(gil: &GILGuard, obj: &PyObject) -> (name: String) {
    let py = gil.python();
    obj.get_type(py).name(py).into_owned()
}

/// `PyObject::extract` to a vector of objects: the items of a sequence, in
/// order, or nothing where the object cannot be walked.
#[verifier::external_body]
pub(crate) fn sequence_items(gil: &GILGuard, obj: &PyObject) -> (r: Option<Vec<PyObject>>) {
    obj.extract::<Vec<PyObject>>(gil.python()).ok()
}

/// `PyObject::extract` to `i64`: the integer that the object is, or nothing
/// where it is none or does not fit.
#[verifier::external_body]
pub(crate) fn as_int(gil: &GILGuard, obj: &PyObject) -> (r: Option<i64>) {
    obj.extract::<i64>(gil.python()).ok()
}

/// `PyObject::extract` to `bool`: the truth value that the object is, or
/// nothing where it is no boolean.
#[verifier::external_body]
pub(crate) fn as_bool(gil: &GILGuard, obj: &PyObject) -> (r: Option<bool>) {
    obj.extract::<bool>(gil.python()).ok()
}

/// `PyObject::extract` to `String`: the text that the object is, or nothing
/// where it is no text.
#[verifier::external_body]
pub(crate) fn as_text(gil: &GILGuard, obj: &PyObject) -> (r: Option<String>) {
    obj.extract::<String>(gil.python()).ok()
}

/// `PyObject::extract` to `u64`: the unsigned integer that the object is, or
/// nothing where it is none or does not fit.
#[verifier::external_body]
pub(crate) fn as_uint(gil: &GILGuard, obj: &PyObject) -> (r: Option<u64>) {
    obj.extract::<u64>(gil.python()).ok()
}

/// `PyClone::clone_ref`: one more handle to the same object.
#[verifier::external_body]
pub(crate) fn clone_ref(gil: &GILGuard, obj: &PyObject) -> (same: PyObject) {
    obj.clone_ref(gil.python())
}

/// `ToPyObject::to_py_object` of `i64`: the runtime's integer of that value.
#[verifier::external_body]
pub(crate) fn int_object(gil: &GILGuard, n: i64) -> (obj: PyObject) {
    n.to_py_object(gil.python()).into_object()
}

/// `ToPyObject::to_py_object` of `bool`: the runtime's truth value.
#[verifier::external_body]
pub(crate) fn bool_object(gil: &GILGuard, b: bool) -> (obj: PyObject) {
    b.to_py_object(gil.python()).into_object()
}

/// `ToPyObject::to_py_object` of `u64`: the runtime's integer of that value.
#[verifier::external_body]
pub(crate) fn uint_object(gil: &GILGuard, n: u64) -> (obj: PyObject) {
    n.to_py_object(gil.python()).into_object()
}

/// `ToPyObject::to_py_object` of `str`: the runtime's text with those
/// characters.
#[verifier::external_body]
pub(crate) fn text_object(gil: &GILGuard, text: &str) -> (obj: PyObject) {
    text.to_py_object(gil.python()).into_object()
}

/// `PyTuple::new`: the runtime's tuple of the given items, in order.
#[verifier::external_body]
pub(crate) fn tuple_object(gil: &GILGuard, items: &Vec<PyObject>) -> (obj: PyObject) {
    PyTuple::new(gil.python(), items.as_slice()).into_object()
}

/// `ToPyObject::to_py_object` of a vector: the runtime's list of the given
/// items, in order.
#[verifier::external_body]
pub(crate) fn list_object(gil: &GILGuard, items: &Vec<PyObject>) -> (obj: PyObject) {
    items.to_py_object(gil.python()).into_object()
}

} // verus!
