use lib::ffi::{MPI_BYTE, MPI_DOUBLE, MPI_INFO_NULL, MPI_UNSIGNED_LONG_LONG};
use lib::window::window_args;
use lib::{ElementKind, WindowState};

#[test]
fn window_geometry() {
    let w = window_args(8, 100);
    assert_eq!((w.size, w.size_arg, w.disp_unit, w.info), (800, 800, 8, MPI_INFO_NULL));
    let e = window_args(1, 0);
    assert_eq!((e.size, e.size_arg, e.disp_unit), (0, 0, 1));
}

#[test]
fn window_state_keeps_geometry() {
    let w = WindowState::new(3, 8, 100, 17);
    assert_eq!((w.rank(), w.len(), w.size(), w.raw()), (3, 100, 800, 17));
}

#[test]
fn lock_kinds() {
    let w = WindowState::new(3, 1, 10, 17);
    let s = w.lock_args(false);
    assert_eq!((s.lock_type, s.rank, s.assert, s.win), (235, 3, 0, 17));
    let x = w.lock_args(true);
    assert_eq!((x.lock_type, x.rank, x.assert, x.win), (234, 3, 0, 17));
}

#[test]
fn unlock_matches_lock() {
    let w = WindowState::new(5, 4, 2, 99);
    let l = w.lock_args(true);
    let u = w.unlock_args();
    assert_eq!((u.rank, u.win), (l.rank, l.win));
    assert_eq!((u.rank, u.win), (5, 99));
}

#[test]
fn get_args() {
    let w = WindowState::new(0, 8, 16, 77);
    let g = w.get_mem_args(ElementKind::UnsignedLongLong, 4, 2, 10, 3);
    assert_eq!(g.origin_count, 4);
    assert_eq!(g.origin_datatype, MPI_UNSIGNED_LONG_LONG);
    assert_eq!(g.target_rank, 2);
    assert_eq!(g.target_disp, 10);
    assert_eq!(g.target_count, 3);
    assert_eq!(g.target_datatype, MPI_UNSIGNED_LONG_LONG);
    assert_eq!(g.win, 77);
    let b = w.get_mem_args(ElementKind::Byte, 1, 0, 0, 1);
    assert_eq!((b.origin_datatype, b.target_datatype), (MPI_BYTE, MPI_BYTE));
    let d = w.get_mem_args(ElementKind::Double, 1, 0, 0, 1);
    assert_eq!(d.origin_datatype, MPI_DOUBLE);
}
