//! The two kinds of failure and the conversions between them and exceptions.

use pyo3::exceptions::{PyKeyError, PyValueError};
use pyo3::types::PyAnyMethods;
use pyo3::{PyErr, Python};
use pyo3_pydantic::convert::codec_result;
use pyo3_pydantic::Error;

fn codec_failure() -> serde_json::Error {
    serde_json::from_str::<Vec<u64>>("[").unwrap_err()
}

#[test]
fn an_exception_becomes_a_pyo3_error() {
    pyo3::prepare_freethreaded_python();
    let raised = PyKeyError::new_err("missing");
    match Error::from(raised) {
        Error::Pyo3Error(carried) => Python::with_gil(|py| {
            assert!(carried.is_instance_of::<PyKeyError>(py));
            assert_eq!(carried.value_bound(py).to_string(), "'missing'");
        }),
        other => panic!("expected Pyo3Error, got {:?}", other),
    }
}

#[test]
fn a_codec_failure_becomes_a_serde_error() {
    let failure = codec_failure();
    let message = failure.to_string();
    assert_eq!(message, "EOF while parsing a list at line 1 column 1");
    match Error::from(failure) {
        Error::SerdeError(carried) => assert_eq!(carried.to_string(), message),
        other => panic!("expected SerdeError, got {:?}", other),
    }
}

#[test]
fn a_pyo3_error_is_raised_again_as_it_was() {
    pyo3::prepare_freethreaded_python();
    Python::with_gil(|py| {
        let raised = py.eval_bound("{}['missing']", None, None).unwrap_err();
        let value = raised.value_bound(py).clone();
        let back = PyErr::from(Error::Pyo3Error(raised));
        assert!(back.value_bound(py).is(&value));
        assert!(back.is_instance_of::<PyKeyError>(py));
    });
}

#[test]
fn a_serde_error_is_raised_as_a_value_error_with_its_message() {
    pyo3::prepare_freethreaded_python();
    let back = PyErr::from(Error::SerdeError(codec_failure()));
    Python::with_gil(|py| {
        assert!(back.is_instance_of::<PyValueError>(py));
        assert_eq!(
            back.get_type_bound(py).to_string(),
            "<class 'ValueError'>"
        );
        assert_eq!(
            back.value_bound(py).to_string(),
            "EOF while parsing a list at line 1 column 1"
        );
    });
}

#[test]
fn codec_result_passes_a_value() {
    match codec_result(serde_json::from_str::<Vec<u64>>("[1, 2]")) {
        Ok(value) => assert_eq!(value, vec![1, 2]),
        other => panic!("expected Ok, got {:?}", other),
    }
}

#[test]
fn codec_result_wraps_a_failure() {
    match codec_result(serde_json::from_str::<u64>("\"text\"")) {
        Err(Error::SerdeError(carried)) => assert_eq!(
            carried.to_string(),
            "invalid type: string \"text\", expected u64 at line 1 column 6"
        ),
        other => panic!("expected SerdeError, got {:?}", other),
    }
}
