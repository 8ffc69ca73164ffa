pub mod alltoall_mem;
