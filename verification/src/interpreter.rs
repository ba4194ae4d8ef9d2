//! The embedded interpreter, as far as the conversions use it.
//!
//! Nothing in this module is proved. Its types are handles of `pyo3` that
//! the conversions carry and never look into. Each of its functions makes one
//! call into `pyo3`. What the interpreter answers depends on its state, so no
//! contract here says what an import or an evaluation gives, and the
//! conversions are verified for every answer. Only `owned`, which makes a
//! second handle to an object and asks the interpreter nothing, has its
//! result named.
use pyo3::types::{IntoPyDict, PyDict, PyModule};
use pyo3::{Bound, IntoPy, Py, PyAny, PyErr, PyObject, Python, ToPyObject};
use vstd::prelude::*;

verus! {

/// `pyo3::Python`: the token that shows that the interpreter's lock is held.
#[verifier::external_type_specification]
#[verifier::external_body]
pub struct ExPython<'py>(Python<'py>);

/// `pyo3::Py`: an owned handle to a Python object, free of the lock's
/// lifetime. `PyObject` is `Py<PyAny>`.
#[verifier::external_type_specification]
#[verifier::external_body]
#[verifier::reject_recursive_types(T)]
pub struct ExPy<T>(Py<T>);

/// `pyo3::Bound`: a handle to a Python object that lasts while the lock is
/// held.
#[verifier::external_type_specification]
#[verifier::external_body]
#[verifier::reject_recursive_types(T)]
pub struct ExBound<'py, T>(Bound<'py, T>);

/// `pyo3::PyAny`: marks a handle to a Python object of any type.
#[verifier::external_type_specification]
#[verifier::external_body]
pub struct ExPyAny(PyAny);

/// `pyo3::types::PyDict`: marks a handle to a Python dict.
#[verifier::external_type_specification]
#[verifier::external_body]
pub struct ExPyDict(PyDict);

/// `pyo3::types::PyModule`: marks a handle to a Python module.
#[verifier::external_type_specification]
#[verifier::external_body]
pub struct ExPyModule(PyModule);

/// `IntoPy<PyObject>` of `Vec<&str>`: a new Python list that holds one Python
/// string for each name, in order. Nothing is stated of the handle.
#[verifier::external_body]
pub(crate) fn name_list(py: Python<'_>, names: Vec<&str>) -> PyObject {
    names.into_py(py)
}

/// `ToPyObject` of `str`: a new Python string with the characters of `text`.
/// Nothing is stated of the handle.
#[verifier::external_body]
pub(crate) fn text_object(py: Python<'_>, text: &str) -> PyObject {
    text.to_object(py)
}

/// `IntoPyDict::into_py_dict_bound` of an array of two pairs: a new Python
/// dict in which `first_name` is set to `first` and then `second_name` to
/// `second`. Nothing is stated of the handle.
#[verifier::external_body]
pub(crate) fn scope_of<'py>(
    py: Python<'py>,
    first_name: &str,
    first: PyObject,
    second_name: &str,
    second: PyObject,
) -> Bound<'py, PyDict> {
    [(first_name, first), (second_name, second)].into_py_dict_bound(py)
}

/// `Python::eval_bound` with the globals of `__main__` and `scope` as the
/// local scope. The expression runs code of the interpreter: it may raise,
/// which comes back as `Err`, and it returns only when that code does. A Rust
/// panic that the interpreter carries as an exception goes on unwinding.
/// Nothing is stated of the answer.
#[verifier::external_body]
pub(crate) fn evaluate<'py>(
    py: Python<'py>,
    expression: &str,
    scope: &Bound<'py, PyDict>,
) -> Result<Bound<'py, PyAny>, PyErr> {
    py.eval_bound(expression, None, Some(scope))
}

/// `Python::import_bound`: the module that the interpreter's import machinery
/// finds under `path`, or the exception that was raised. Importing runs the
/// module's own code, as `evaluate` runs an expression. Nothing is stated of
/// the answer.
#[verifier::external_body]
pub(crate) fn import_module<'py>(py: Python<'py>, path: &str) -> Result<
    Bound<'py, PyModule>,
    PyErr,
> {
    py.import_bound(path)
}

/// `IntoPy<PyObject>` of `Bound`: the handle to the module as an owned handle
/// to an object of any type. Nothing is stated of the handle: no contract
/// speaks of the module.
#[verifier::external_body]
pub(crate) fn module_object<'py>(py: Python<'py>, module: Bound<'py, PyModule>) -> PyObject {
    module.into_py(py)
}

/// The owned handle that `ToPyObject` makes of the handle `value`: it refers
/// to the same Python object.
pub uninterp spec fn owned_object(value: Bound<'_, PyAny>) -> PyObject;

/// `ToPyObject` of `Bound`: a second handle to the object of `value`, owned
/// and no longer tied to the time for which the lock is held. The object's
/// reference count is raised and no code of the interpreter runs, so the
/// result is `owned_object` of the argument.
#[verifier::external_body]
pub(crate) fn owned<'py>(py: Python<'py>, value: &Bound<'py, PyAny>) -> (object: PyObject)
    ensures
        object == owned_object(*value),
{
    value.to_object(py)
}

} // verus!
