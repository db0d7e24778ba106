//! Return codes of MPI calls.
use vstd::prelude::*;
use crate::ffi::MPI_SUCCESS;

verus! {

/// The result of an MPI call: `Err` holds the MPI error code.
pub type MPIResult<T> = Result<T, u32>;

/// What an MPI return code means: success, or the code as an error.
pub open spec fn spec_mpi_result(res: i32) -> MPIResult<()> {
    if res == 0 {
        Ok(())
    } else {
        Err(res as u32)
    }
}

/// Turns the return code of an MPI call into a result.
pub fn mpi_result(res: i32) -> (r: MPIResult<()>)
    ensures
        r == spec_mpi_result(res),
        r is Ok <==> res == 0,
        r matches Err(e) ==> e != MPI_SUCCESS && e as i32 == res,
{
    let code: u32 = #[verifier::truncate] (res as u32);
    proof {
        lemma_error_code_round_trip(res);
    }
    if code == MPI_SUCCESS {
        Ok(())
    } else {
        Err(code)
    }
}

/// A failing call's error code is never the success code, and read back as
/// an MPI `int` it is the call's return code again.
pub proof fn lemma_error_code_round_trip(res: i32)
    ensures
        (res as u32 == 0) <==> (res == 0),
        spec_mpi_result(res) matches Err(e) ==> e != MPI_SUCCESS && e as i32 == res,
{
    assert((res as u32 == 0) <==> (res == 0)) by (bit_vector);
    assert(((res as u32) as i32) == res) by (bit_vector);
}

} // verus!
