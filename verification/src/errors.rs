use vstd::prelude::*;

verus! {

/// The error taxonomy of the library. Every failure is caught at its origin
/// and converted into one of these kinds, each carrying a human-readable
/// message; none is silently suppressed.
#[derive(Debug, Clone)]
pub enum ChurOnError {
    /// Model loading related errors
    ModelLoad(String),
    /// Inference execution errors
    Inference(String),
    /// Data conversion errors between host values and tensors
    DataConversion(String),
    /// Input data validation errors
    Validation(String),
    /// Execution provider related errors
    Provider(String),
}

/// Result type used throughout the library.
pub type ChurOnResult<T> = core::result::Result<T, ChurOnError>;

impl ChurOnError {
    /// The message carried by the error, without the kind prefix.
    pub open spec fn spec_msg(&self) -> Seq<char> {
        match self {
            ChurOnError::ModelLoad(m) => m@,
            ChurOnError::Inference(m) => m@,
            ChurOnError::DataConversion(m) => m@,
            ChurOnError::Validation(m) => m@,
            ChurOnError::Provider(m) => m@,
        }
    }

    /// The rendered form of the error: a kind prefix followed by the message.
    pub open spec fn spec_render(&self) -> Seq<char> {
        match self {
            ChurOnError::ModelLoad(m) => "Model load error: "@ + m@,
            ChurOnError::Inference(m) => "Inference error: "@ + m@,
            ChurOnError::DataConversion(m) => "Data conversion error: "@ + m@,
            ChurOnError::Validation(m) => "Validation error: "@ + m@,
            ChurOnError::Provider(m) => "Provider error: "@ + m@,
        }
    }

    /// Render the error as a kind prefix followed by the carried message.
    pub fn message(&self) -> (r: String)
        ensures
            r@ == self.spec_render(),
    {
        match self {
            ChurOnError::ModelLoad(m) => String::from_str("Model load error: ").concat(m.as_str()),
            ChurOnError::Inference(m) => String::from_str("Inference error: ").concat(m.as_str()),
            ChurOnError::DataConversion(m) => {
                String::from_str("Data conversion error: ").concat(m.as_str())
            },
            ChurOnError::Validation(m) => {
                String::from_str("Validation error: ").concat(m.as_str())
            },
            ChurOnError::Provider(m) => String::from_str("Provider error: ").concat(m.as_str()),
        }
    }
}

} // verus!
