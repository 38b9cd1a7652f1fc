//! Native-side bridge that runs an audio worker process and speaks its
//! JSON Lines protocol: runtime resolution, request framing, stdout relay
//! and the reconciliation of the exit status with the completion document.
pub mod commands;
pub mod error;
pub mod json;
pub mod launch;
pub mod laws;
pub mod lifecycle;
pub mod payload;
pub mod protocol;
pub mod request;
pub mod runtime;

pub use commands::{log_line, ping};
pub use error::ConversionError;
pub use payload::{BackendResult, ConvertPayload};
pub use runtime::{derive_python_home, embedded_python_candidates, FsPath};
