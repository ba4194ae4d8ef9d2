//! The two conversions between a model instance inside the interpreter and
//! the JSON text of a native value.
//!
//! Each conversion is a chain of steps, and each step that asks the
//! interpreter or the codec is followed by a function that takes the answer
//! and says, for every answer, what the conversion makes of it. No step is
//! tried twice and no failure is replaced by a default: the first failure is
//! what the conversion returns.
use crate::error::Error;
use crate::interpreter::{
    evaluate, import_module, module_object, name_list, owned, owned_object, scope_of, text_object,
};
use crate::template::{
    construction_expression, extraction_expression, EXCLUDE, MODEL_JSON, MODEL_PACKAGE,
    TARGET_MODEL,
};
use pyo3::types::PyModule;
use pyo3::{Bound, PyAny, PyErr, PyObject, Python};
use serde_json::Error as JsonError;
use vstd::prelude::*;
use vstd::string::to_string_from_display_ensures;

verus! {

/// An answer of the JSON codec as a conversion hands it on: a value passes, a
/// failure to encode or to decode becomes `Error::SerdeError` and is carried
/// unchanged.
///
/// A caller of `from_pydantic_model` decodes the text into a native type and
/// passes the codec's answer through here; `to_pydantic_model` does the same
/// with the answer to encoding.
pub fn codec_result<T>(answer: Result<T, JsonError>) -> (result: Result<T, Error>)
    ensures
        answer matches Ok(value) ==> result == Ok::<T, Error>(value),
        answer matches Err(failure) ==> result == Err::<T, Error>(Error::SerdeError(failure)),
{
    match answer {
        Ok(value) => Ok(value),
        Err(failure) => Err(Error::from(failure)),
    }
}

/// The last step of extraction: what it returns for the interpreter's answer
/// to the extraction expression. A value is printed as Python's `str()`
/// prints it; an exception becomes `Error::Pyo3Error` and is carried
/// unchanged.
///
/// Printing runs the value's own Python code. The call returns when that
/// code does, which it need not, and a Rust panic that the interpreter
/// carries as an exception goes on unwinding through the call.
pub fn dumped_text<'py>(answer: Result<Bound<'py, PyAny>, PyErr>) -> (dumped: Result<String, Error>)
    ensures
        answer matches Ok(value) ==> dumped matches Ok(text) && to_string_from_display_ensures::<
            Bound<'py, PyAny>,
        >(&value, text),
        answer matches Err(raised) ==> dumped == Err::<String, Error>(Error::Pyo3Error(raised)),
{
    match answer {
        Ok(value) => Ok(value.to_string()),
        Err(raised) => Err(Error::from(raised)),
    }
}

/// Asks the model instance `pydantic_model` for its JSON text without the
/// fields named in `exclude`.
///
/// The instance and the exclusions are bound as `TARGET_MODEL` and `EXCLUDE`
/// in a fresh scope, and `extraction_expression` is evaluated there; the
/// field names are handed over as values and never become part of the
/// expression. The result is what `dumped_text` makes of the interpreter's
/// answer: a text is the printed form of a value that the interpreter
/// answered, and a failure is always an `Error::Pyo3Error`. Decoding the text
/// is left to the caller, who passes the codec's answer through
/// `codec_result`.
///
/// The evaluation and the printing run Python code of the model. The call
/// returns when that code does, which it need not, and a Rust panic that the
/// interpreter carries as an exception goes on unwinding through the call.
pub fn from_pydantic_model<'py>(
    py: Python<'py>,
    pydantic_model: PyObject,
    exclude: Vec<&str>,
) -> (dumped: Result<String, Error>)
    ensures
        dumped matches Ok(text) ==> exists|value: Bound<'py, PyAny>| #[trigger]
            to_string_from_display_ensures::<Bound<'py, PyAny>>(&value, text),
        dumped matches Err(err) ==> err is Pyo3Error,
{
    let excluded = name_list(py, exclude);
    let scope = scope_of(py, TARGET_MODEL, pydantic_model, EXCLUDE, excluded);
    dumped_text(evaluate(py, extraction_expression(), &scope))
}

/// The last step of construction: what it returns for the interpreter's
/// answer to the construction expression. A value is the new instance, and
/// the owned handle to that very object is returned; an exception, such as
/// the model's refusal of the text, becomes `Error::Pyo3Error` and is carried
/// unchanged. The interpreter is not asked anything here.
pub fn validated_instance<'py>(
    py: Python<'py>,
    answer: Result<Bound<'py, PyAny>, PyErr>,
) -> (instance: Result<PyObject, Error>)
    ensures
        answer matches Ok(value) ==> instance == Ok::<PyObject, Error>(owned_object(value)),
        answer matches Err(raised) ==> instance == Err::<PyObject, Error>(Error::Pyo3Error(raised)),
{
    match answer {
        Ok(value) => Ok(owned(py, &value)),
        Err(raised) => Err(Error::from(raised)),
    }
}

/// Construction from the interpreter's answer to the import of the module.
///
/// An exception, such as that of a module that does not exist, becomes
/// `Error::Pyo3Error` and is carried unchanged; nothing is evaluated then.
/// Otherwise the module and `model_json` are bound as `MODEL_PACKAGE` and
/// `MODEL_JSON` in a fresh scope, `construction_expression(model_name)` is
/// evaluated there, and the result is what `validated_instance` makes of the
/// answer: an instance is the owned handle to an object that the interpreter
/// answered, and a failure is always an `Error::Pyo3Error`.
///
/// The evaluation runs Python code of the module. The call returns when that
/// code does, which it need not, and a Rust panic that the interpreter
/// carries as an exception goes on unwinding through the call.
pub fn construct_in_package<'py>(
    py: Python<'py>,
    package: Result<Bound<'py, PyModule>, PyErr>,
    model_json: &str,
    model_name: &str,
) -> (instance: Result<PyObject, Error>)
    ensures
        package matches Err(raised) ==> instance == Err::<PyObject, Error>(
            Error::Pyo3Error(raised),
        ),
        instance matches Ok(object) ==> exists|value: Bound<'py, PyAny>|
            object == #[trigger] owned_object(value),
        instance matches Err(err) ==> err is Pyo3Error,
{
    match package {
        Ok(package) => {
            let text = text_object(py, model_json);
            let scope = scope_of(py, MODEL_PACKAGE, module_object(py, package), MODEL_JSON, text);
            let expression = construction_expression(model_name);
            validated_instance(py, evaluate(py, expression.as_str(), &scope))
        },
        Err(raised) => Err(Error::from(raised)),
    }
}

/// Builds an instance of the model type `model_name`, defined in the module
/// `python_package_path`, from the JSON text of a native value.
///
/// `model_json` is the codec's answer to encoding the value. A failure to
/// encode is returned at once as `Error::SerdeError`, and the interpreter is
/// not asked anything. Otherwise the module is imported and the result is
/// what `construct_in_package` makes of the import's answer: a module that
/// cannot be imported and a text that the model rejects both come back as
/// `Error::Pyo3Error`, with the exception that the interpreter raised, and an
/// instance is the owned handle to an object that the interpreter answered.
///
/// The import and the evaluation run Python code of the module. The call
/// returns when that code does, which it need not, and a Rust panic that the
/// interpreter carries as an exception goes on unwinding through the call.
pub fn to_pydantic_model<'py>(
    py: Python<'py>,
    model_json: Result<String, JsonError>,
    python_package_path: &str,
    model_name: &str,
) -> (instance: Result<PyObject, Error>)
    ensures
        model_json matches Err(failure) ==> instance == Err::<PyObject, Error>(
            Error::SerdeError(failure),
        ),
        model_json is Ok ==> (instance matches Err(err) ==> err is Pyo3Error),
        instance matches Ok(object) ==> exists|value: Bound<'py, PyAny>|
            object == #[trigger] owned_object(value),
{
    match codec_result(model_json) {
        Ok(text) => {
            let package = import_module(py, python_package_path);
            construct_in_package(py, package, text.as_str(), model_name)
        },
        Err(err) => Err(err),
    }
}

} // verus!
