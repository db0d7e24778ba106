use lib::convert::{sz2int, sz2longint};
use lib::ffi::{
    MPI_BYTE, MPI_DOUBLE, MPI_FLOAT, MPI_COMM_SELF, MPI_COMM_WORLD, MPI_MAX, MPI_MIN, MPI_PROD, MPI_SUM,
    MPI_UNSIGNED_LONG_LONG,
};
use lib::status::mpi_result;
use lib::{ElementKind, MPIComm, MPIDataTypeExt, MPIReduceOp, MPIStatus};

#[test]
fn success_code_is_ok() {
    assert_eq!(mpi_result(0), Ok(()));
}

#[test]
fn error_code_is_passed_on() {
    assert_eq!(mpi_result(15), Err(15));
    assert_eq!(mpi_result(-1), Err(u32::MAX));
}

#[test]
fn error_code_round_trips() {
    for res in [1i32, 7, -1, i32::MIN, i32::MAX] {
        let e = mpi_result(res).unwrap_err();
        assert_ne!(e, 0);
        assert_eq!(e as i32, res);
    }
}

#[test]
fn sizes_convert_exactly() {
    assert_eq!(sz2int(0), 0);
    assert_eq!(sz2int(12345), 12345);
    assert_eq!(sz2int(i32::MAX as usize), i32::MAX);
    assert_eq!(sz2longint(1 << 40), 1i64 << 40);
    assert_eq!(sz2longint(i64::MAX as usize), i64::MAX);
}

#[test]
fn predefined_communicators() {
    let w = MPIComm::world();
    let s = MPIComm::self_();
    assert_eq!(w.raw(), MPI_COMM_WORLD);
    assert_eq!(s.raw(), MPI_COMM_SELF);
    assert_ne!(w.raw(), s.raw());
    assert!(!w.owned());
    assert!(!s.owned());
}

#[test]
fn reduce_ops_map_to_handles() {
    assert_eq!(MPIReduceOp::Max.to_raw_op(), MPI_MAX);
    assert_eq!(MPIReduceOp::Min.to_raw_op(), MPI_MIN);
    assert_eq!(MPIReduceOp::Sum.to_raw_op(), MPI_SUM);
    assert_eq!(MPIReduceOp::Prod.to_raw_op(), MPI_PROD);
    assert_eq!(MPIReduceOp::Sum.to_raw_op(), 0x58000003);
}

#[test]
fn reduce_ops_are_distinct() {
    let ops = [MPIReduceOp::Max, MPIReduceOp::Min, MPIReduceOp::Sum, MPIReduceOp::Prod];
    for (i, a) in ops.iter().enumerate() {
        for (j, b) in ops.iter().enumerate() {
            assert_eq!(a.to_raw_op() == b.to_raw_op(), i == j);
        }
    }
}

#[test]
fn data_types() {
    assert_eq!(<u8 as MPIDataTypeExt>::mpi_data_type(), MPI_BYTE);
    assert_eq!(<u64 as MPIDataTypeExt>::mpi_data_type(), MPI_UNSIGNED_LONG_LONG);
    assert_ne!(u8::mpi_data_type(), u64::mpi_data_type());
}

#[test]
fn new_status_is_zero() {
    let s = MPIStatus::new();
    assert_eq!(
        (s.count_lo, s.count_hi_and_cancelled, s.source, s.tag, s.error),
        (0, 0, 0, 0, 0)
    );
}

#[test]
fn element_kinds() {
    assert_eq!(ElementKind::Byte.to_raw_type(), MPI_BYTE);
    assert_eq!(ElementKind::UnsignedLongLong.to_raw_type(), MPI_UNSIGNED_LONG_LONG);
    assert_eq!(ElementKind::Float.to_raw_type(), MPI_FLOAT);
    assert_eq!(ElementKind::Double.to_raw_type(), MPI_DOUBLE);
    assert_eq!(ElementKind::Double.to_raw_type(), 0x4c00080b);
    assert_eq!(u8::mpi_data_type(), ElementKind::Byte.to_raw_type());
    assert_eq!(u64::mpi_data_type(), ElementKind::UnsignedLongLong.to_raw_type());
}
