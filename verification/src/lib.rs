//! Verified core of a thin MPI binding: the arguments that its MPI calls
//! receive, the plain state of its communicators and windows, and the meaning
//! of the integer codes that the calls return.

pub mod calls;
pub mod comm;
pub mod convert;
pub mod ffi;
pub mod ops;
pub mod status;
pub mod window;

pub use comm::{MPIComm, MPIStatus};
pub use ops::{ElementKind, MPIDataTypeExt, MPIReduceOp};
pub use status::MPIResult;
pub use window::WindowState;
