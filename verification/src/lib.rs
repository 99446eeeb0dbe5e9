//! Runtime-binding core for a dynamically loaded native inference library.
//!
//! The verified core decides everything that does not itself require a
//! foreign call: the semantic-version compatibility gate, the all-or-nothing
//! binding of the required symbol set, the all-or-nothing probe of the
//! optional accelerator extension, and the state machine of the native
//! handles (model, options, delegate, interpreter, tensor). An unverified
//! shell performs the actual library loading and foreign calls and hands
//! their outcomes to this core as plain values.
use vstd::prelude::*;

pub mod sys;
pub mod tflite;

pub use crate::tflite::{
    Delegate, DelegateKind, Interpreter, InterpreterOptions, Model, Tensor, TensorInfo, TfLite,
};

verus! {

/// The three recoverable failure kinds of this layer.
///
/// Absence (a null tensor, an out-of-range index, a missing accelerator
/// extension) is never an error: it is modeled as `Option::None` by the
/// functions concerned.
#[derive(Debug, PartialEq, Eq, Structural, Clone, Copy)]
pub enum Error {
    /// The shared library could not be opened, a required symbol is missing,
    /// the version string is unparseable, or the version is incompatible.
    FailedToLoad,
    /// A native constructor returned a null handle.
    Generic,
    /// A native operation returned a non-OK status code, passed through.
    ErrorStatus(crate::sys::tflite::TfLiteStatus),
}

} // verus!
