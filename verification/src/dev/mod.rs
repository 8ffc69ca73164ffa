pub mod mpi;
