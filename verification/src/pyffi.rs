//! The trusted boundary to the host runtime. Each function here makes one
//! host call under the host's execution lock and converts its arguments and
//! result; nothing else. The host runtime may run arbitrary code behind any
//! of these calls, so apart from the identity of retained handles nothing is
//! promised about the values that come back.

use vstd::prelude::*;

use pyo3::exceptions::{PyAttributeError, PyLookupError, PyTypeError};
use pyo3::types::{PyAnyMethods, PyTypeMethods};
use pyo3::types::{PyAny, PyBytes, PyDict, PyDictMethods, PyFloat, PyFloatMethods, PyList, PyListMethods};
use pyo3::types::{PySequence, PyString, PyTuple};
use pyo3::IntoPyObjectExt;
use pyo3::{Py, PyErr, Python};

use crate::value::HostOrdering;

verus! {

#[verifier::external_type_specification]
#[verifier::external_body]
#[verifier::reject_recursive_types(T)]
pub struct ExPy<T>(Py<T>);

#[verifier::external_type_specification]
#[verifier::external_body]
pub struct ExPyAny(PyAny);

#[verifier::external_type_specification]
#[verifier::external_body]
pub struct ExPyDict(PyDict);

#[verifier::external_type_specification]
#[verifier::external_body]
pub struct ExPyList(PyList);

#[verifier::external_type_specification]
#[verifier::external_body]
pub struct ExPyErr(PyErr);

/// Relies on `Py::clone_ref`: the returned handle retains the same host
/// object, so it is the same raw handle value with one more host-side
/// reference.
#[verifier::external_body]
pub(crate) fn host_clone_ref(obj: &Py<PyAny>) -> (r: Py<PyAny>)
    ensures
        r == *obj,
{
    Python::attach(|py| obj.clone_ref(py))
}

/// Relies on `PyAnyMethods::is_none`: whether the object is the host's null.
#[verifier::external_body]
pub(crate) fn host_is_none(obj: &Py<PyAny>) -> bool {
    Python::attach(|py| obj.bind(py).is_none())
}

/// Relies on `PyAnyMethods::extract` for booleans.
#[verifier::external_body]
pub(crate) fn host_extract_bool(obj: &Py<PyAny>) -> Option<bool> {
    Python::attach(|py| obj.bind(py).extract::<bool>().ok())
}

/// Relies on `PyAnyMethods::extract` for 64-bit signed integers.
#[verifier::external_body]
pub(crate) fn host_extract_i64(obj: &Py<PyAny>) -> Option<i64> {
    Python::attach(|py| obj.bind(py).extract::<i64>().ok())
}

/// Relies on the host's float protocol: an exact host float's value through
/// `PyFloat::value`, else the result of the object's own `__float__`
/// conversion when it has one — the path the host's float coercion takes.
/// In either case the double's bit pattern.
#[verifier::external_body]
pub(crate) fn host_extract_float_bits(obj: &Py<PyAny>) -> Option<u64> {
    Python::attach(|py| {
        let bound = obj.bind(py);
        if let Ok(f) = bound.cast::<PyFloat>() {
            return Some(f.value().to_bits());
        }
        match bound.call_method0("__float__") {
            Ok(f) => f.cast::<PyFloat>().ok().map(|f| f.value().to_bits()),
            Err(_) => None,
        }
    })
}

/// Relies on `PyAnyMethods::extract` for string-like scalars.
#[verifier::external_body]
pub(crate) fn host_extract_string(obj: &Py<PyAny>) -> Option<String> {
    Python::attach(|py| match obj.bind(py).extract::<pyo3::pybacked::PyBackedStr>() {
        Ok(s) => Some(s.to_string()),
        Err(_) => None,
    })
}

/// Relies on `PyAnyMethods::getattr`: host attribute lookup.
#[verifier::external_body]
pub(crate) fn host_getattr(obj: &Py<PyAny>, name: &str) -> Result<Py<PyAny>, PyErr> {
    Python::attach(|py| obj.bind(py).getattr(name).map(|v| v.unbind()))
}

/// Relies on `PyAnyMethods::hasattr`; a failed probe counts as absent.
#[verifier::external_body]
pub(crate) fn host_hasattr(obj: &Py<PyAny>, name: &str) -> bool {
    Python::attach(|py| obj.bind(py).hasattr(name).unwrap_or(false))
}

/// Relies on `PyAnyMethods::is_callable`.
#[verifier::external_body]
pub(crate) fn host_is_callable(obj: &Py<PyAny>) -> bool {
    Python::attach(|py| obj.bind(py).is_callable())
}

/// Relies on `PyAnyMethods::call0`: calls the object with no arguments.
#[verifier::external_body]
pub(crate) fn host_call0(obj: &Py<PyAny>) -> Result<Py<PyAny>, PyErr> {
    Python::attach(|py| obj.bind(py).call0().map(|v| v.unbind()))
}

/// Relies on `PyAnyMethods::cast` to the host's generic sequence
/// protocol.
#[verifier::external_body]
pub(crate) fn host_is_sequence(obj: &Py<PyAny>) -> bool {
    Python::attach(|py| obj.bind(py).cast::<PySequence>().is_ok())
}

/// Relies on `PyAnyMethods::len`.
#[verifier::external_body]
pub(crate) fn host_len(obj: &Py<PyAny>) -> Option<usize> {
    Python::attach(|py| obj.bind(py).len().ok())
}

/// Relies on `PyAnyMethods::try_iter`: asks the object for an iterator over
/// itself.
#[verifier::external_body]
pub(crate) fn host_try_iter(obj: &Py<PyAny>) -> Result<Py<PyAny>, PyErr> {
    Python::attach(|py| obj.bind(py).try_iter().map(|i| i.into_any().unbind()))
}

/// Relies on `PyIterator::next` through `try_iter` on an iterator object
/// (the host's iterator protocol returns the iterator itself): one step of
/// the iteration, advancing the live host iterator.
#[verifier::external_body]
pub(crate) fn host_iter_next(it: &Py<PyAny>) -> Option<Result<Py<PyAny>, PyErr>> {
    Python::attach(|py| match it.bind(py).try_iter() {
        Ok(mut i) => i.next().map(|r| r.map(|v| v.unbind())),
        Err(e) => Some(Err(e)),
    })
}

/// Relies on `PyAnyMethods::get_item`: host subscript lookup.
#[verifier::external_body]
pub(crate) fn host_get_item(obj: &Py<PyAny>, key: &Py<PyAny>) -> Result<Py<PyAny>, PyErr> {
    Python::attach(|py| obj.bind(py).get_item(key.bind(py)).map(|v| v.unbind()))
}

/// Relies on `PyErr::is_instance_of` for the host's "missing attribute"
/// exception class.
#[verifier::external_body]
pub(crate) fn host_err_is_attribute_error(e: &PyErr) -> bool {
    Python::attach(|py| e.is_instance_of::<PyAttributeError>(py))
}

/// Relies on `PyErr::is_instance_of` for the host's "missing key or index"
/// exception class.
#[verifier::external_body]
pub(crate) fn host_err_is_lookup_error(e: &PyErr) -> bool {
    Python::attach(|py| e.is_instance_of::<PyLookupError>(py))
}

/// Relies on `PyErr::is_instance_of` for the host's "wrong type" exception
/// class.
#[verifier::external_body]
pub(crate) fn host_err_is_type_error(e: &PyErr) -> bool {
    Python::attach(|py| e.is_instance_of::<PyTypeError>(py))
}

/// Relies on the exception value's type name and string rendering; a
/// failure of either rendering falls back to what did render, so a hostile
/// exception type cannot abort the wrapping.
#[verifier::external_body]
pub(crate) fn host_err_message(e: &PyErr) -> String {
    Python::attach(|py| {
        let value = e.value(py);
        let exc_class = match value.get_type().name() {
            Ok(n) => n.to_string(),
            Err(_) => String::from("exception"),
        };
        match value.str() {
            Ok(text) => format!("{}: {}", exc_class, text),
            Err(_) => exc_class,
        }
    })
}

/// Relies on `PyAnyMethods::compare`: the host's rich comparison; `None`
/// when the host reports the pair unsupported.
#[verifier::external_body]
pub(crate) fn host_compare(a: &Py<PyAny>, b: &Py<PyAny>) -> Option<HostOrdering> {
    Python::attach(|py| match a.bind(py).compare(b.bind(py)) {
        Ok(core::cmp::Ordering::Less) => Some(HostOrdering::Less),
        Ok(core::cmp::Ordering::Equal) => Some(HostOrdering::Equal),
        Ok(core::cmp::Ordering::Greater) => Some(HostOrdering::Greater),
        Err(_) => None,
    })
}

/// Relies on `PyAnyMethods::is_truthy`: the host's truthiness protocol;
/// `None` when the host fails to decide.
#[verifier::external_body]
pub(crate) fn host_is_truthy(obj: &Py<PyAny>) -> Option<bool> {
    Python::attach(|py| obj.bind(py).is_truthy().ok())
}

/// Relies on the host object's display rendering (its own string
/// conversion).
#[verifier::external_body]
pub(crate) fn host_display(obj: &Py<PyAny>) -> String {
    Python::attach(|py| obj.bind(py).to_string())
}

/// Relies on `Python::None`.
#[verifier::external_body]
pub(crate) fn host_none() -> Py<PyAny> {
    Python::attach(|py| py.None())
}

/// Relies on the host conversion for booleans.
#[verifier::external_body]
pub(crate) fn host_from_bool(b: bool) -> Py<PyAny> {
    Python::attach(|py| b.into_py_any(py).expect("infallible conversion"))
}

/// Relies on the host conversion for 64-bit signed integers.
#[verifier::external_body]
pub(crate) fn host_from_i64(v: i64) -> Py<PyAny> {
    Python::attach(|py| v.into_py_any(py).expect("infallible conversion"))
}

/// Relies on the host conversion for 64-bit unsigned integers.
#[verifier::external_body]
pub(crate) fn host_from_u64(v: u64) -> Py<PyAny> {
    Python::attach(|py| v.into_py_any(py).expect("infallible conversion"))
}

/// Relies on the host's `struct.unpack`: a host float from the given
/// IEEE-754 bit pattern, handed over as a little-endian packed double.
#[verifier::external_body]
pub(crate) fn host_float_from_bits(bits: u64) -> Result<Py<PyAny>, PyErr> {
    Python::attach(|py| {
        let module = py.import("struct")?;
        let unpack = module.getattr("unpack")?;
        let packed = PyBytes::new(py, &bits.to_le_bytes());
        let values = unpack.call1(("<d", packed))?;
        values.get_item(0).map(|v| v.unbind())
    })
}

/// Relies on `PyString::new`.
#[verifier::external_body]
pub(crate) fn host_from_str(s: &str) -> Py<PyAny> {
    Python::attach(|py| PyString::new(py, s).into_any().unbind())
}

/// Relies on `PyBytes::new`.
#[verifier::external_body]
pub(crate) fn host_from_bytes(b: &[u8]) -> Py<PyAny> {
    Python::attach(|py| PyBytes::new(py, b).into_any().unbind())
}

/// Relies on the host-side safe-string constructor exposed by the engine's
/// host package (`minijinja._internal.mark_safe`): wraps a string so the
/// host recognizes it as pre-escaped markup.
#[verifier::external_body]
pub(crate) fn mark_string_safe(value: &str) -> Result<Py<PyAny>, PyErr> {
    Python::attach(|py| {
        let module = py.import("minijinja._internal")?;
        let mark_safe = module.getattr("mark_safe")?;
        mark_safe.call1((value,)).map(|v| v.unbind())
    })
}

/// Relies on `PyDict::new`.
#[verifier::external_body]
pub(crate) fn host_new_dict() -> Py<PyDict> {
    Python::attach(|py| PyDict::new(py).unbind())
}

/// Relies on `PyDictMethods::set_item`.
#[verifier::external_body]
pub(crate) fn host_dict_set(d: &Py<PyDict>, k: &Py<PyAny>, v: &Py<PyAny>) -> Result<(), PyErr> {
    Python::attach(|py| d.bind(py).set_item(k.bind(py), v.bind(py)))
}

/// Converts the handle's static type; same host object.
#[verifier::external_body]
pub(crate) fn host_dict_into_any(d: Py<PyDict>) -> Py<PyAny> {
    d.into_any()
}

/// Relies on `PyList::empty`.
#[verifier::external_body]
pub(crate) fn host_new_list() -> Py<PyList> {
    Python::attach(|py| PyList::empty(py).unbind())
}

/// Relies on `PyListMethods::append`.
#[verifier::external_body]
pub(crate) fn host_list_append(l: &Py<PyList>, v: &Py<PyAny>) -> Result<(), PyErr> {
    Python::attach(|py| l.bind(py).append(v.bind(py)))
}

/// Converts the handle's static type; same host object.
#[verifier::external_body]
pub(crate) fn host_list_into_any(l: Py<PyList>) -> Py<PyAny> {
    l.into_any()
}

/// Relies on `PyAnyMethods::call`: calls the host object with the given
/// positional arguments and optional keyword mapping.
#[verifier::external_body]
pub(crate) fn host_call(
    obj: &Py<PyAny>,
    args: &Vec<Py<PyAny>>,
    kwargs: Option<&Py<PyDict>>,
) -> Result<Py<PyAny>, PyErr> {
    Python::attach(|py| {
        let tuple = PyTuple::new(py, args)?;
        obj.bind(py).call(tuple, kwargs.map(|k| k.bind(py))).map(|v| v.unbind())
    })
}

/// Relies on `PyAnyMethods::call_method`: calls the named method of the host
/// object with the given positional arguments and optional keyword mapping.
#[verifier::external_body]
pub(crate) fn host_call_method(
    obj: &Py<PyAny>,
    name: &str,
    args: &Vec<Py<PyAny>>,
    kwargs: Option<&Py<PyDict>>,
) -> Result<Py<PyAny>, PyErr> {
    Python::attach(|py| {
        let tuple = PyTuple::new(py, args)?;
        obj.bind(py).call_method(name, tuple, kwargs.map(|k| k.bind(py))).map(|v| v.unbind())
    })
}

} // verus!
