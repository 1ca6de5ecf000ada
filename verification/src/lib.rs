//! An inference session manager: it resolves execution backends, records a
//! loaded model's declared interface, validates and encodes caller-supplied
//! named values into the tensor layout the inference engine expects, and
//! orders and decodes the engine's results. The engine itself is an opaque
//! collaborator that the surrounding host glue drives; everything decided
//! here (provider resolution, the closed-world input check, shape
//! inference and element-count checks, output ordering) is verified.

pub mod errors;
pub mod marshal;
pub mod provider;
pub mod run;
pub mod session;
pub mod tensor;
pub mod text;
