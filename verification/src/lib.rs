//! A bridge between pydantic models that live in an embedded Python
//! interpreter and native values.
//!
//! A model instance is asked for its JSON text (`from_pydantic_model`), and
//! a model instance is built from JSON text by the model's own validation
//! (`to_pydantic_model`). The rules of the model stay on the Python side.
//! Turning native values into JSON text and back is the caller's part, done
//! with `serde_json` for the caller's own types; `convert::codec_result`
//! takes the codec's answer into this crate's `Error`.
//!
//! The interpreter is reached through `pyo3`. What it answers is not known
//! to the proofs: every function that takes an answer is verified for all
//! answers.
pub mod convert;
pub mod error;
pub mod interpreter;
pub mod template;

pub use convert::{from_pydantic_model, to_pydantic_model};
pub use error::Error;
