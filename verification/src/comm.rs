//! Communicators and receive status.
use vstd::prelude::*;
use crate::ffi::{MPI_Comm, MPI_COMM_SELF, MPI_COMM_WORLD};

verus! {

/// A communicator handle. `owned` says whether the handle must be
/// disconnected when it is released; the predefined communicators are not.
pub struct MPIComm {
    raw: MPI_Comm,
    owned: bool,
}

impl MPIComm {
    /// The communicator's handle.
    pub closed spec fn spec_raw(&self) -> MPI_Comm {
        self.raw
    }

    /// Whether the communicator must be disconnected when released.
    pub closed spec fn spec_owned(&self) -> bool {
        self.owned
    }

    /// The predefined communicator of all processes.
    pub fn world() -> (c: Self)
        ensures
            c.spec_raw() == MPI_COMM_WORLD,
            !c.spec_owned(),
    {
        MPIComm { raw: MPI_COMM_WORLD, owned: false }
    }

    /// The predefined communicator of the calling process alone.
    pub fn self_() -> (c: Self)
        ensures
            c.spec_raw() == MPI_COMM_SELF,
            !c.spec_owned(),
    {
        MPIComm { raw: MPI_COMM_SELF, owned: false }
    }

    /// The communicator's handle, as MPI calls take it.
    pub fn raw(&self) -> (r: MPI_Comm)
        ensures
            r == self.spec_raw(),
    {
        self.raw
    }

    /// Whether the communicator must be disconnected when released.
    pub fn owned(&self) -> (r: bool)
        ensures
            r == self.spec_owned(),
    {
        self.owned
    }
}

/// The status of a receive, with the fields of MPICH's `MPI_Status`.
pub struct MPIStatus {
    pub count_lo: i32,
    pub count_hi_and_cancelled: i32,
    pub source: i32,
    pub tag: i32,
    pub error: i32,
}

impl MPIStatus {
    /// A status with every field zero.
    pub fn new() -> (s: Self)
        ensures
            s.count_lo == 0,
            s.count_hi_and_cancelled == 0,
            s.source == 0,
            s.tag == 0,
            s.error == 0,
    {
        MPIStatus { count_lo: 0, count_hi_and_cancelled: 0, source: 0, tag: 0, error: 0 }
    }
}

} // verus!
