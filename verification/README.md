# lib — verified core of an MPICH binding

`src/` (verified with Verus) holds what the binding decides:

- the handles and constants of MPICH (`ffi`);
- reduction operations and element kinds, with their handles (`ops`);
- the predefined communicators and the receive status (`comm`);
- the state of a one-sided window, whose byte size is always its element size
  times its length, and the arguments of creating, locking, unlocking and
  reading a window (`window`);
- the arguments of initialisation, memory allocation, sends, receives,
  broadcasts, reductions and file opening and reading, and the steps of a file
  read (`calls`);
- what a call's return code means (`status`).

`app/` is the binding proper. It declares the MPICH C functions and makes the
calls with the arguments that `src/` computes; a communicator's handle, which
`MPI_Comm_rank`, `MPI_Comm_size` and `MPI_Barrier` take alone, comes from
`MPIComm::raw`. It also turns the return codes into results through `src/`,
and it owns the C resources whose release needs `Drop` (windows, allocated
memory, files).
