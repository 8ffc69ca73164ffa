pub mod communicator;
pub mod datatype;
pub mod error;
pub mod mpi_coll;
pub mod mpi_com;
pub mod mpi_rma;
pub mod mpi_sched;
pub mod send;
pub mod window;
