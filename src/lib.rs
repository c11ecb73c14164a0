//! Typed access to a virtual-reality runtime's native interface.
//!
//! The native calls themselves are made by the application around this
//! library; what is here is the translation between the runtime's raw codes and
//! fixed-layout records and the typed values that callers see, together with
//! the process-wide init/shutdown lifecycle.
pub mod common;
pub mod event;
pub mod error;
pub mod runtime;
pub mod system;
pub mod tracking;

pub use common::Eye;
pub use error::Error;
pub use runtime::Runtime;
pub use system::IVRSystem;
