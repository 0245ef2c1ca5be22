//! The library's error type.

use vstd::prelude::*;

verus! {

/// What can go wrong in the input pipeline or around its configuration.
#[derive(Debug, Clone)]
pub enum VKeyError {
    InputError(String),
    ConfigError(String),
    SystemError(String),
}

impl VKeyError {
    /// A human-readable description of the error.
    pub fn message(&self) -> (r: String)
        ensures
            self matches VKeyError::InputError(m) ==> r@ == "Input error: "@ + m@,
            self matches VKeyError::ConfigError(m) ==> r@ == "Configuration error: "@ + m@,
            self matches VKeyError::SystemError(m) ==> r@ == "System error: "@ + m@,
    {
        match self {
            VKeyError::InputError(m) => String::from_str("Input error: ").concat(m.as_str()),
            VKeyError::ConfigError(m) => String::from_str("Configuration error: ").concat(
                m.as_str(),
            ),
            VKeyError::SystemError(m) => String::from_str("System error: ").concat(m.as_str()),
        }
    }
}

} // verus!
