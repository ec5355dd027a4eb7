//! Error taxonomy of the library, and the classification of the signed
//! status codes the native engine reports: positive codes are hard
//! failures, negative codes are advisory warnings, zero is success.

use vstd::prelude::*;
use vstd::string::StringExecFns;

verus! {

/// Everything that can go wrong in a property query.
#[derive(Debug, Clone)]
pub enum RefpropError {
    /// Hard error reported by an engine routine (status code > 0).
    Refprop { code: i32, message: String },
    /// Advisory warning reported by an engine routine (status code < 0).
    /// The accompanying result may still be usable.
    Warning { code: i32, message: String },
    /// The engine's shared library could not be found or loaded.
    LibraryNotFound(String),
    /// A fluid definition file was not found.
    FluidNotFound(String),
    /// Invalid or out-of-range input, rejected before any engine call.
    InvalidInput(String),
    /// Catch-all for calculation failures.
    CalculationFailed(String),
}

impl RefpropError {
    /// The view of the human-readable description returned by
    /// [`RefpropError::message`].
    pub open spec fn spec_message(&self) -> Seq<char> {
        match self {
            RefpropError::Refprop { code, message } => "engine error: "@ + message@,
            RefpropError::Warning { code, message } => "engine warning: "@ + message@,
            RefpropError::LibraryNotFound(m) => "engine library not found: "@ + m@,
            RefpropError::FluidNotFound(m) => "fluid file not found: "@ + m@,
            RefpropError::InvalidInput(m) => "invalid input: "@ + m@,
            RefpropError::CalculationFailed(m) => "calculation failed: "@ + m@,
        }
    }

    /// A human-readable description: a fixed prefix naming the error
    /// kind, followed by the carried detail text.
    pub fn message(&self) -> (r: String)
        ensures
            r@ == self.spec_message(),
    {
        match self {
            RefpropError::Refprop { code: _, message } => {
                String::from_str("engine error: ").concat(message.as_str())
            },
            RefpropError::Warning { code: _, message } => {
                String::from_str("engine warning: ").concat(message.as_str())
            },
            RefpropError::LibraryNotFound(m) => {
                String::from_str("engine library not found: ").concat(m.as_str())
            },
            RefpropError::FluidNotFound(m) => {
                String::from_str("fluid file not found: ").concat(m.as_str())
            },
            RefpropError::InvalidInput(m) => {
                String::from_str("invalid input: ").concat(m.as_str())
            },
            RefpropError::CalculationFailed(m) => {
                String::from_str("calculation failed: ").concat(m.as_str())
            },
        }
    }
}

/// Classifies an engine status code.  A positive code is a hard failure
/// and becomes [`RefpropError::Refprop`] carrying the code and the
/// engine's message verbatim; zero and negative codes (success and
/// advisory warnings) leave the computed result usable.
pub fn check_err(code: i32, message: String) -> (r: Result<(), RefpropError>)
    ensures
        code > 0 ==> r == Result::<(), RefpropError>::Err(
            RefpropError::Refprop { code, message },
        ),
        code <= 0 ==> r == Result::<(), RefpropError>::Ok(()),
{
    if code > 0 {
        Err(RefpropError::Refprop { code, message })
    } else {
        Ok(())
    }
}

/// Failures of the engine's dynamic-loading layer.
#[derive(Debug, Clone)]
pub enum RefpropSysError {
    /// The shared library could not be found or loaded.
    LibraryLoadFailed(String),
    /// A required symbol was not found in the library.
    SymbolNotFound(String),
}

impl RefpropSysError {
    /// The view of the description returned by
    /// [`RefpropSysError::message`].
    pub open spec fn spec_message(&self) -> Seq<char> {
        match self {
            RefpropSysError::LibraryLoadFailed(m) => "engine library load failed: "@ + m@,
            RefpropSysError::SymbolNotFound(m) => "symbol not found in engine library: "@ + m@,
        }
    }

    /// A human-readable description of the loading failure.
    pub fn message(&self) -> (r: String)
        ensures
            r@ == self.spec_message(),
    {
        match self {
            RefpropSysError::LibraryLoadFailed(m) => {
                String::from_str("engine library load failed: ").concat(m.as_str())
            },
            RefpropSysError::SymbolNotFound(m) => {
                String::from_str("symbol not found in engine library: ").concat(m.as_str())
            },
        }
    }
}

} // verus!
