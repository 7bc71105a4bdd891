//! Operations against a remote device over a shell, planned as command lines
//! for the `adb` device bridge.

pub mod backend;
pub mod connection;
pub mod device;
pub mod error;
pub mod invocation;
pub mod laws;
pub mod outcome;
pub mod remote_op;
pub mod text;

pub use device::Adb;
pub use error::AdbError;
pub use invocation::{ExecKind, Invocation};
pub use remote_op::RemoteOp;
