//! The two kinds of failure, and how they turn into one another and into a
//! Python exception.
use pyo3::exceptions::PyValueError;
use pyo3::PyErr;
use serde_json::Error as JsonError;
use vstd::prelude::*;
use vstd::std_specs::convert::FromSpecImpl;
use vstd::string::to_string_from_display_ensures;

verus! {

/// `pyo3::PyErr`: an exception of the interpreter. It is carried and never
/// looked into.
#[verifier::external_type_specification]
#[verifier::external_body]
pub struct ExPyErr(PyErr);

/// `serde_json::Error`: a failure of the JSON codec. It is carried and never
/// looked into.
#[verifier::external_type_specification]
#[verifier::external_body]
pub struct ExJsonError(JsonError);

/// The two ways in which a conversion can fail. A caller tells a shape that
/// does not fit the native type (`SerdeError`) from a refusal by the
/// interpreter (`Pyo3Error`) by the variant alone.
#[derive(Debug)]
pub enum Error {
    /// The interpreter raised an exception: a module was not found, an
    /// attribute was missing, the model refused the text. The exception is
    /// carried as it was raised, so that its type can still be asked.
    Pyo3Error(PyErr),
    /// The codec could not encode a native value as JSON text or decode JSON
    /// text into one. The codec's own failure is carried.
    SerdeError(JsonError),
}

impl From<PyErr> for Error {
    /// An exception of the interpreter is a `Pyo3Error`.
    fn from(err: PyErr) -> (wrapped: Error) {
        Error::Pyo3Error(err)
    }
}

impl FromSpecImpl<PyErr> for Error {
    open spec fn obeys_from_spec() -> bool {
        true
    }

    open spec fn from_spec(err: PyErr) -> Error {
        Error::Pyo3Error(err)
    }
}

impl From<JsonError> for Error {
    /// A failure of the codec is a `SerdeError`.
    fn from(err: JsonError) -> (wrapped: Error) {
        Error::SerdeError(err)
    }
}

impl FromSpecImpl<JsonError> for Error {
    open spec fn obeys_from_spec() -> bool {
        true
    }

    open spec fn from_spec(err: JsonError) -> Error {
        Error::SerdeError(err)
    }
}

/// The exception that `PyErr::new::<PyValueError, String>` makes of
/// `message`: a Python `ValueError` with `message` as its only argument.
pub uninterp spec fn value_error(message: Seq<char>) -> PyErr;

/// `PyErr::new::<PyValueError, String>`. The exception is built from the
/// message alone: it keeps the message and only becomes a Python object when
/// it is raised or looked at, so the interpreter has no part in the result.
#[verifier::external_body]
fn new_value_error(message: String) -> (raised: PyErr)
    ensures
        raised == value_error(message@),
{
    PyErr::new::<PyValueError, String>(message)
}

impl From<Error> for PyErr {
    /// An interpreter failure is raised again unchanged; a codec failure is
    /// raised as a `ValueError` that carries the codec's own message.
    fn from(err: Error) -> (raised: PyErr)
        ensures
            err matches Error::Pyo3Error(inner) ==> raised == inner,
            err matches Error::SerdeError(inner) ==> exists|message: String|
                #[trigger] to_string_from_display_ensures::<JsonError>(&inner, message)
                    && raised == value_error(message@),
    {
        match err {
            Error::Pyo3Error(inner) => inner,
            Error::SerdeError(inner) => new_value_error(inner.to_string()),
        }
    }
}

/// `from` states its own contract above. It has no `from_spec`: the message
/// that the codec prints for a failure is known as a relation between the
/// failure and the text, not as a function of the failure.
impl FromSpecImpl<Error> for PyErr {
    open spec fn obeys_from_spec() -> bool {
        false
    }

    open spec fn from_spec(err: Error) -> PyErr {
        arbitrary()
    }
}

} // verus!
