//! A client for the PaperCache protocol: how requests are written to the
//! wire, and how the server's replies are read back.

pub mod arg;
pub mod command;
pub mod policy;
pub mod reply;
pub mod status;
pub mod text;
pub mod value;
pub mod wire;

pub use crate::arg::{AsPaperAuthToken, AsPaperKey};
pub use crate::command::Command;
pub use crate::policy::{PaperPolicy, PolicyForm, PolicyRatio};
pub use crate::reply::{Field, FieldKind, PaperClientError, PaperClientResult};
pub use crate::status::Status;
pub use crate::value::PaperValue;
