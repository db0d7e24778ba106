//! MPICH handle types and the constants of `mpi.h` that the library uses.
#![allow(non_camel_case_types)]
#![allow(non_upper_case_globals)]

use vstd::prelude::*;

verus! {

/// Communicator handle (an `int` in MPICH).
pub type MPI_Comm = i32;

/// Datatype handle (an `int` in MPICH).
pub type MPI_Datatype = i32;

/// Reduction operation handle (an `int` in MPICH).
pub type MPI_Op = i32;

/// Info object handle (an `int` in MPICH).
pub type MPI_Info = i32;

/// One-sided window handle (an `int` in MPICH).
pub type MPI_Win = i32;

/// Return code of every MPI call that succeeded.
pub const MPI_SUCCESS: u32 = 0;

/// File access mode: read only.
pub const MPI_MODE_RDONLY: u32 = 2;

/// Lock type of `MPI_Win_lock`: exclusive.
pub const MPI_LOCK_EXCLUSIVE: u32 = 234;

/// Lock type of `MPI_Win_lock`: shared.
pub const MPI_LOCK_SHARED: u32 = 235;

pub const MPI_THREAD_SINGLE: i32 = 0;
pub const MPI_THREAD_FUNNELED: i32 = 1;
pub const MPI_THREAD_SERIALIZED: i32 = 2;
pub const MPI_THREAD_MULTIPLE: i32 = 3;

pub const MPI_CHAR: MPI_Datatype = 0x4c000101;
pub const MPI_BYTE: MPI_Datatype = 0x4c00010d;
pub const MPI_FLOAT: MPI_Datatype = 0x4c00040a;
pub const MPI_DOUBLE: MPI_Datatype = 0x4c00080b;
pub const MPI_UNSIGNED_LONG_LONG: MPI_Datatype = 0x4c000819;

pub const MPI_COMM_NULL: MPI_Comm = 0x04000000;
pub const MPI_COMM_WORLD: MPI_Comm = 0x44000000;
pub const MPI_COMM_SELF: MPI_Comm = 0x44000001;

pub const MPI_MAX: MPI_Op = 0x58000001;
pub const MPI_MIN: MPI_Op = 0x58000002;
pub const MPI_SUM: MPI_Op = 0x58000003;
pub const MPI_PROD: MPI_Op = 0x58000004;

pub const MPI_INFO_NULL: MPI_Info = 0x1c000000;
pub const MPI_INFO_ENV: MPI_Info = 0x5c000001;

} // verus!
