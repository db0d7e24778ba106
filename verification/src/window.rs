//! One-sided windows: the plain state of a window over `len` elements of
//! `elem_size` bytes, and the arguments of the calls made on it.
use vstd::prelude::*;
use crate::convert::{sz2int, sz2longint};
use crate::ffi::{MPI_Datatype, MPI_Info, MPI_Win, MPI_INFO_NULL, MPI_LOCK_EXCLUSIVE, MPI_LOCK_SHARED};
use crate::ops::{spec_element_type, ElementKind};

verus! {

/// The sizes that a window over `len` elements of `elem_size` bytes can have:
/// its byte size fits in a `usize` and in an `i64`, and one element fits in
/// an `i32`.
pub open spec fn window_fits(elem_size: int, len: int) -> bool {
    &&& elem_size * len <= usize::MAX
    &&& elem_size * len <= i64::MAX
    &&& elem_size <= i32::MAX
}

/// Arguments of `MPI_Win_create` besides the base address and communicator.
pub struct WindowArgs {
    /// Size of the window in bytes.
    pub size: usize,
    /// The size as `MPI_Win_create` takes it.
    pub size_arg: i64,
    /// The displacement unit: one element.
    pub disp_unit: i32,
    /// No hints.
    pub info: MPI_Info,
}

/// Arguments of `MPI_Win_create` for a window of `len` elements of
/// `elem_size` bytes.
pub fn window_args(elem_size: usize, len: usize) -> (a: WindowArgs)
    requires
        window_fits(elem_size as int, len as int),
    ensures
        a.size == elem_size * len,
        a.size_arg == elem_size * len,
        a.disp_unit == elem_size,
        a.info == MPI_INFO_NULL,
{
    let size: usize = elem_size * len;
    let size_arg: i64 = sz2longint(size);
    let disp_unit: i32 = sz2int(elem_size);
    WindowArgs { size, size_arg, disp_unit, info: MPI_INFO_NULL }
}

/// Arguments of `MPI_Win_lock`.
pub struct LockArgs {
    pub lock_type: i32,
    pub rank: i32,
    pub assert: i32,
    pub win: MPI_Win,
}

/// Arguments of `MPI_Win_unlock`.
pub struct UnlockArgs {
    pub rank: i32,
    pub win: MPI_Win,
}

/// Arguments of `MPI_Get`.
pub struct GetArgs {
    pub origin_count: i32,
    pub origin_datatype: MPI_Datatype,
    pub target_rank: i32,
    pub target_disp: i64,
    pub target_count: i32,
    pub target_datatype: MPI_Datatype,
    pub win: MPI_Win,
}

/// A created window: the rank of the process that owns it, its element size,
/// its length in elements, its size in bytes, and its handle. The size is
/// always the element size times the length.
pub struct WindowState {
    rank: i32,
    elem_size: usize,
    len: usize,
    size: usize,
    raw: MPI_Win,
}

impl WindowState {
    #[verifier::type_invariant]
    spec fn inv(self) -> bool {
        &&& window_fits(self.elem_size as int, self.len as int)
        &&& self.size == self.elem_size * self.len
    }

    pub closed spec fn spec_rank(&self) -> i32 {
        self.rank
    }

    pub closed spec fn spec_elem_size(&self) -> usize {
        self.elem_size
    }

    pub closed spec fn spec_len(&self) -> usize {
        self.len
    }

    pub closed spec fn spec_size(&self) -> usize {
        self.size
    }

    pub closed spec fn spec_raw(&self) -> MPI_Win {
        self.raw
    }

    /// The state of the window `raw`, created by the process of rank `rank`
    /// over `len` elements of `elem_size` bytes.
    pub fn new(rank: i32, elem_size: usize, len: usize, raw: MPI_Win) -> (w: Self)
        requires
            window_fits(elem_size as int, len as int),
        ensures
            w.spec_rank() == rank,
            w.spec_elem_size() == elem_size,
            w.spec_len() == len,
            w.spec_size() == elem_size * len,
            w.spec_raw() == raw,
    {
        WindowState { rank, elem_size, len, size: elem_size * len, raw }
    }

    /// The rank of the process that owns the window.
    pub fn rank(&self) -> (r: i32)
        ensures
            r == self.spec_rank(),
    {
        self.rank
    }

    /// The window's length in elements.
    pub fn len(&self) -> (r: usize)
        ensures
            r == self.spec_len(),
    {
        self.len
    }

    /// The window's size in bytes: its element size times its length.
    pub fn size(&self) -> (r: usize)
        ensures
            r == self.spec_size(),
            r == self.spec_elem_size() * self.spec_len(),
    {
        proof {
            use_type_invariant(self);
        }
        self.size
    }

    /// The window's handle.
    pub fn raw(&self) -> (r: MPI_Win)
        ensures
            r == self.spec_raw(),
    {
        self.raw
    }

    /// Arguments of `MPI_Win_lock` that lock the owner's window, shared or
    /// exclusive, with no assertion.
    pub fn lock_args(&self, exclusive: bool) -> (a: LockArgs)
        ensures
            a.lock_type == (if exclusive { MPI_LOCK_EXCLUSIVE } else { MPI_LOCK_SHARED }),
            a.rank == self.spec_rank(),
            a.assert == 0,
            a.win == self.spec_raw(),
    {
        let lock_type: i32 = if exclusive {
            MPI_LOCK_EXCLUSIVE as i32
        } else {
            MPI_LOCK_SHARED as i32
        };
        LockArgs { lock_type, rank: self.rank, assert: 0, win: self.raw }
    }

    /// Arguments of `MPI_Win_unlock` that release the lock taken by
    /// `lock_args`.
    pub fn unlock_args(&self) -> (a: UnlockArgs)
        ensures
            a.rank == self.spec_rank(),
            a.win == self.spec_raw(),
    {
        UnlockArgs { rank: self.rank, win: self.raw }
    }

    /// Arguments of `MPI_Get` that read `tg_len` elements of kind `kind` at
    /// element offset `tg_offset` of the window of `tg_rank` into a buffer of
    /// `len` elements.
    pub fn get_mem_args(
        &self,
        kind: ElementKind,
        len: usize,
        tg_rank: i32,
        tg_offset: usize,
        tg_len: usize,
    ) -> (a: GetArgs)
        requires
            len <= i32::MAX,
            tg_offset <= i64::MAX,
            tg_len <= i32::MAX,
        ensures
            a.origin_count == len,
            a.origin_datatype == spec_element_type(kind),
            a.target_rank == tg_rank,
            a.target_disp == tg_offset,
            a.target_count == tg_len,
            a.target_datatype == spec_element_type(kind),
            a.win == self.spec_raw(),
    {
        let datatype: MPI_Datatype = kind.to_raw_type();
        GetArgs {
            origin_count: sz2int(len),
            origin_datatype: datatype,
            target_rank: tg_rank,
            target_disp: sz2longint(tg_offset),
            target_count: sz2int(tg_len),
            target_datatype: datatype,
            win: self.raw,
        }
    }
}

} // verus!
