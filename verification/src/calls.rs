//! The integer arguments of each MPI call the library makes, and the meaning
//! of what the calls return. The calls themselves cross into the C library
//! and are made by the application around this crate.
use vstd::prelude::*;
use crate::comm::MPIComm;
use crate::convert::{sz2int, sz2longint};
use crate::ffi::{
    MPI_Comm, MPI_Datatype, MPI_Info, MPI_Op, MPI_BYTE, MPI_INFO_NULL, MPI_MODE_RDONLY,
    MPI_THREAD_SERIALIZED,
};
use crate::ops::{spec_element_type, spec_raw_op, ElementKind, MPIReduceOp};
use crate::status::{mpi_result, spec_mpi_result, MPIResult};

verus! {

// ---------------------------------------------------------------------------
// Initialisation
// ---------------------------------------------------------------------------

/// Arguments of `MPI_Init_thread`, besides the argument vector itself.
pub struct InitThreadArgs {
    pub argc: i32,
    pub required: i32,
}

/// `MPI_Init_thread` gets the number of program arguments, converted as C's
/// `int` conversion does, and asks for serialized thread support.
pub fn init_thread_args(num_args: usize) -> (a: InitThreadArgs)
    ensures
        a.argc == num_args as i32,
        a.required == MPI_THREAD_SERIALIZED,
{
    InitThreadArgs { argc: #[verifier::truncate] (num_args as i32), required: MPI_THREAD_SERIALIZED }
}

/// The outcome of `MPI_Init_thread`: its return code, given that a successful
/// initialisation provides the serialized thread level asked for.
pub fn init_thread_result(res: i32, provided: i32) -> (r: MPIResult<()>)
    requires
        res == 0 ==> provided == MPI_THREAD_SERIALIZED,
    ensures
        r == spec_mpi_result(res),
        r is Ok <==> res == 0,
        r matches Err(e) ==> e != 0 && e as i32 == res,
{
    mpi_result(res)
}

// ---------------------------------------------------------------------------
// Memory allocated by MPI
// ---------------------------------------------------------------------------

/// Arguments of `MPI_Alloc_mem` for `size` bytes: the size as an address-sized
/// integer, and no hints.
pub fn alloc_mem_args(size: usize) -> (r: (i64, MPI_Info))
    requires
        size <= i64::MAX,
    ensures
        r.0 == size,
        r.1 == MPI_INFO_NULL,
{
    (sz2longint(size), MPI_INFO_NULL)
}

// ---------------------------------------------------------------------------
// Point-to-point and collective communication
// ---------------------------------------------------------------------------

/// Arguments of `MPI_Send` (the peer is the destination) and of `MPI_Recv`
/// (the peer is the source).
pub struct TransferArgs {
    pub count: i32,
    pub datatype: MPI_Datatype,
    pub peer: i32,
    pub tag: i32,
    pub comm: MPI_Comm,
}

/// Arguments of a send or receive of `len` elements.
pub fn transfer_args(
    kind: ElementKind,
    len: usize, peer: i32, tag: i32, comm: &MPIComm) -> (a:
    TransferArgs)
    requires
        len <= i32::MAX,
    ensures
        a.count == len,
        a.datatype == spec_element_type(kind),
        a.peer == peer,
        a.tag == tag,
        a.comm == comm.spec_raw(),
{
    TransferArgs {
        count: sz2int(len),
        datatype: kind.to_raw_type(),
        peer,
        tag,
        comm: comm.raw(),
    }
}

/// Arguments of `MPI_Bcast`.
pub struct BcastArgs {
    pub count: i32,
    pub datatype: MPI_Datatype,
    pub root: i32,
    pub comm: MPI_Comm,
}

/// Arguments of a broadcast of `len` elements from `root`.
pub fn bcast_args(
    kind: ElementKind,
    len: usize, root: i32, comm: &MPIComm) -> (a: BcastArgs)
    requires
        len <= i32::MAX,
    ensures
        a.count == len,
        a.datatype == spec_element_type(kind),
        a.root == root,
        a.comm == comm.spec_raw(),
{
    BcastArgs { count: sz2int(len), datatype: kind.to_raw_type(), root, comm: comm.raw() }
}

/// Arguments of `MPI_Reduce`.
pub struct ReduceArgs {
    pub count: i32,
    pub datatype: MPI_Datatype,
    pub op: MPI_Op,
    pub root: i32,
    pub comm: MPI_Comm,
}

/// Arguments of a reduction onto `root` of a source buffer of `src_len`
/// elements into a destination buffer of `dst_len` elements; the two
/// lengths must be equal.
pub fn reduce_args(
    kind: ElementKind,
    src_len: usize,
    dst_len: usize,
    op: MPIReduceOp,
    root: i32,
    comm: &MPIComm,
) -> (a: ReduceArgs)
    requires
        src_len == dst_len,
        src_len <= i32::MAX,
    ensures
        a.count == src_len,
        a.count == dst_len,
        a.datatype == spec_element_type(kind),
        a.op == spec_raw_op(op),
        a.root == root,
        a.comm == comm.spec_raw(),
{
    ReduceArgs {
        count: sz2int(src_len),
        datatype: kind.to_raw_type(),
        op: op.to_raw_op(),
        root,
        comm: comm.raw(),
    }
}

/// Arguments of `MPI_Allreduce`. With `in_place`, the send buffer passed is
/// `MPI_IN_PLACE` and the data is taken from the receive buffer.
pub struct AllreduceArgs {
    pub in_place: bool,
    pub count: i32,
    pub datatype: MPI_Datatype,
    pub op: MPI_Op,
    pub comm: MPI_Comm,
}

/// Arguments of a reduction to all processes; `same_buffer` says whether the
/// source and the destination are the same buffer, which is then reduced in
/// place.
pub fn allreduce_args(
    kind: ElementKind,
    src_len: usize,
    dst_len: usize,
    same_buffer: bool,
    op: MPIReduceOp,
    comm: &MPIComm,
) -> (a: AllreduceArgs)
    requires
        src_len == dst_len,
        src_len <= i32::MAX,
    ensures
        a.in_place == same_buffer,
        a.count == src_len,
        a.count == dst_len,
        a.datatype == spec_element_type(kind),
        a.op == spec_raw_op(op),
        a.comm == comm.spec_raw(),
{
    AllreduceArgs {
        in_place: same_buffer,
        count: sz2int(src_len),
        datatype: kind.to_raw_type(),
        op: op.to_raw_op(),
        comm: comm.raw(),
    }
}

// ---------------------------------------------------------------------------
// Files
// ---------------------------------------------------------------------------

/// Access mode and info object of `MPI_File_open`: files are opened read only,
/// with no hints.
pub fn file_open_args() -> (r: (i32, MPI_Info))
    ensures
        r.0 == MPI_MODE_RDONLY,
        r.1 == MPI_INFO_NULL,
{
    (MPI_MODE_RDONLY as i32, MPI_INFO_NULL)
}

/// Arguments of `MPI_File_read_at` besides the file and the buffer.
pub struct ReadAtArgs {
    pub offset: i64,
    pub count: i32,
    pub datatype: MPI_Datatype,
}

/// Arguments of a read of `buf_len` bytes at byte `offset`.
pub fn read_at_args(offset: i64, buf_len: usize) -> (a: ReadAtArgs)
    requires
        buf_len <= i32::MAX,
    ensures
        a.offset == offset,
        a.count == buf_len,
        a.datatype == MPI_BYTE,
{
    ReadAtArgs { offset, count: buf_len as i32, datatype: MPI_BYTE }
}

/// What a read gives back, from the return code of `MPI_File_read_at`, then
/// the return code of `MPI_Get_count` and the number of bytes it reports: the
/// first failing code, else the number of bytes.
pub open spec fn spec_read_at_result(read_res: i32, count_res: i32, recv_count: i32) -> MPIResult<usize> {
    if read_res != 0 {
        Err(read_res as u32)
    } else if count_res != 0 {
        Err(count_res as u32)
    } else {
        Ok(recv_count as usize)
    }
}

/// What follows `MPI_File_read_at`: asking `MPI_Get_count`, with the given
/// datatype, how many elements were read; or the read's outcome.
pub enum ReadStep {
    QueryCount { datatype: MPI_Datatype },
    Done(MPIResult<usize>),
}

/// The step after `MPI_File_read_at` returned `read_res`: the count is asked
/// for, in bytes, exactly when the read succeeded; a failed read ends with
/// its code.
pub fn read_at_next(read_res: i32) -> (s: ReadStep)
    ensures
        s is QueryCount <==> read_res == 0,
        s matches ReadStep::QueryCount { datatype } ==> datatype == MPI_BYTE,
        read_res != 0 ==> s == ReadStep::Done(Err(read_res as u32)),
        s matches ReadStep::Done(r) ==> r matches Err(e) && e != 0 && e as i32 == read_res,
        s matches ReadStep::Done(r) ==> forall|count_res: i32, recv_count: i32|
            r == #[trigger] spec_read_at_result(read_res, count_res, recv_count),
{
    proof {
        crate::status::lemma_error_code_round_trip(read_res);
    }
    match mpi_result(read_res) {
        Ok(()) => ReadStep::QueryCount { datatype: MPI_BYTE },
        Err(e) => ReadStep::Done(Err(e)),
    }
}

/// The outcome of a successful read of `count` bytes after `MPI_Get_count`
/// returned `count_res` and reported `recv_count` bytes. A successful count
/// is at most what was asked for.
pub fn read_at_result(count: i32, count_res: i32, recv_count: i32) -> (r: MPIResult<usize>)
    requires
        count_res == 0 ==> 0 <= recv_count <= count,
    ensures
        r == spec_read_at_result(0, count_res, recv_count),
        r matches Ok(n) ==> n <= count,
        count_res == 0 ==> r == Ok::<usize, u32>(recv_count as usize),
        count_res != 0 ==> r == Err::<usize, u32>(count_res as u32),
        r matches Ok(n) ==> n == recv_count,
        r matches Err(e) ==> e != 0 && e as i32 == count_res,
{
    proof {
        crate::status::lemma_error_code_round_trip(count_res);
    }
    match mpi_result(count_res) {
        Err(e) => Err(e),
        Ok(()) => Ok(recv_count as usize),
    }
}

/// A read's outcome: a failed read ends with its own error code, which is
/// never the success code; after a successful read, a failed count query ends
/// with the query's code; when both succeed, the outcome is exactly the number
/// of bytes the query reported.
pub proof fn lemma_read_at_outcome(read_res: i32, count_res: i32, recv_count: i32)
    ensures
        read_res != 0 ==> spec_read_at_result(read_res, count_res, recv_count)
            == Err::<usize, u32>(read_res as u32),
        read_res == 0 && count_res != 0 ==> spec_read_at_result(read_res, count_res, recv_count)
            == Err::<usize, u32>(count_res as u32),
        read_res == 0 && count_res == 0 && 0 <= recv_count ==> spec_read_at_result(
            read_res,
            count_res,
            recv_count,
        ) == Ok::<usize, u32>(recv_count as usize) && recv_count as usize == recv_count,
        spec_read_at_result(read_res, count_res, recv_count) matches Err(e) ==> e != 0,
{
    crate::status::lemma_error_code_round_trip(read_res);
    crate::status::lemma_error_code_round_trip(count_res);
}

} // verus!
