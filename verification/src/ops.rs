//! Reduction operations and element datatypes, and their MPICH handles.
use vstd::prelude::*;
use crate::ffi::{
    MPI_Datatype, MPI_Op, MPI_BYTE, MPI_DOUBLE, MPI_FLOAT, MPI_MAX, MPI_MIN, MPI_PROD, MPI_SUM,
    MPI_UNSIGNED_LONG_LONG,
};

verus! {

/// A reduction operation of `MPI_Reduce` and `MPI_Allreduce`.
#[derive(Clone, Copy, Debug)]
pub enum MPIReduceOp {
    Max,
    Min,
    Sum,
    Prod,
}

/// The MPICH handle of each reduction operation.
pub open spec fn spec_raw_op(op: MPIReduceOp) -> MPI_Op {
    match op {
        MPIReduceOp::Max => MPI_MAX,
        MPIReduceOp::Min => MPI_MIN,
        MPIReduceOp::Sum => MPI_SUM,
        MPIReduceOp::Prod => MPI_PROD,
    }
}

impl MPIReduceOp {
    /// The MPICH handle of this operation.
    pub fn to_raw_op(&self) -> (r: MPI_Op)
        ensures
            r == spec_raw_op(*self),
            *self == MPIReduceOp::Max ==> r == MPI_MAX,
            *self == MPIReduceOp::Min ==> r == MPI_MIN,
            *self == MPIReduceOp::Sum ==> r == MPI_SUM,
            *self == MPIReduceOp::Prod ==> r == MPI_PROD,
    {
        match *self {
            MPIReduceOp::Max => MPI_MAX,
            MPIReduceOp::Min => MPI_MIN,
            MPIReduceOp::Sum => MPI_SUM,
            MPIReduceOp::Prod => MPI_PROD,
        }
    }
}

/// Different reduction operations are handed to MPI as different handles.
pub proof fn lemma_raw_op_injective(a: MPIReduceOp, b: MPIReduceOp)
    ensures
        spec_raw_op(a) == spec_raw_op(b) <==> a == b,
{
}

/// The kinds of element that the binding transfers: bytes, 64-bit unsigned
/// integers, and single and double precision IEEE numbers.
#[derive(Clone, Copy, Debug)]
pub enum ElementKind {
    Byte,
    UnsignedLongLong,
    Float,
    Double,
}

/// The MPICH datatype handle of each element kind.
pub open spec fn spec_element_type(kind: ElementKind) -> MPI_Datatype {
    match kind {
        ElementKind::Byte => MPI_BYTE,
        ElementKind::UnsignedLongLong => MPI_UNSIGNED_LONG_LONG,
        ElementKind::Float => MPI_FLOAT,
        ElementKind::Double => MPI_DOUBLE,
    }
}

impl ElementKind {
    /// The MPICH datatype handle of this element kind.
    pub fn to_raw_type(&self) -> (r: MPI_Datatype)
        ensures
            r == spec_element_type(*self),
            *self == ElementKind::Byte ==> r == MPI_BYTE,
            *self == ElementKind::UnsignedLongLong ==> r == MPI_UNSIGNED_LONG_LONG,
            *self == ElementKind::Float ==> r == MPI_FLOAT,
            *self == ElementKind::Double ==> r == MPI_DOUBLE,
    {
        match *self {
            ElementKind::Byte => MPI_BYTE,
            ElementKind::UnsignedLongLong => MPI_UNSIGNED_LONG_LONG,
            ElementKind::Float => MPI_FLOAT,
            ElementKind::Double => MPI_DOUBLE,
        }
    }
}

/// Different element kinds are described by different datatype handles.
pub proof fn lemma_element_type_injective(a: ElementKind, b: ElementKind)
    ensures
        spec_element_type(a) == spec_element_type(b) <==> a == b,
{
}

/// An element type that MPI can transfer, with the datatype handle that
/// describes it.
pub trait MPIDataTypeExt: Copy {
    /// The datatype handle of `Self`.
    spec fn spec_data_type() -> MPI_Datatype;

    /// The datatype handle of `Self`.
    fn mpi_data_type() -> (r: MPI_Datatype)
        ensures
            r == Self::spec_data_type(),
    ;
}

impl MPIDataTypeExt for u8 {
    open spec fn spec_data_type() -> MPI_Datatype {
        MPI_BYTE
    }

    fn mpi_data_type() -> (r: MPI_Datatype) {
        MPI_BYTE
    }
}

impl MPIDataTypeExt for u64 {
    open spec fn spec_data_type() -> MPI_Datatype {
        MPI_UNSIGNED_LONG_LONG
    }

    fn mpi_data_type() -> (r: MPI_Datatype) {
        MPI_UNSIGNED_LONG_LONG
    }
}

/// Bytes and 64-bit unsigned integers are described by different datatypes,
/// the same ones as their element kinds.
pub proof fn lemma_data_types_distinct()
    ensures
        <u8 as MPIDataTypeExt>::spec_data_type() != <u64 as MPIDataTypeExt>::spec_data_type(),
        <u8 as MPIDataTypeExt>::spec_data_type() == spec_element_type(ElementKind::Byte),
        <u64 as MPIDataTypeExt>::spec_data_type() == spec_element_type(ElementKind::UnsignedLongLong),
{
}

} // verus!
