use crate::coll::traits::CollDevice;
use crate::rma::traits::RmaDevice;
use crate::ProcInt;
use vstd::prelude::*;

verus! {

/// What every device knows of the process group: which process this is and
/// how many there are. Neither changes while the device lives.
pub trait ComBaseDevice {
    /// What the device's transport reports when it refuses a call.
    type Error;

    /// The rank of this process.
    spec fn spec_this_proc_id(&self) -> ProcInt;

    /// The number of processes in the group.
    spec fn spec_num_procs(&self) -> ProcInt;

    /// Get the ID of this process.
    fn this_proc_id(&self) -> (r: ProcInt)
        ensures
            r == self.spec_this_proc_id(),
            r < self.spec_num_procs(),
    ;

    /// Get the number of processes.
    fn num_procs(&self) -> (r: ProcInt)
        ensures
            r == self.spec_num_procs(),
    ;
}

/// A device that offers both remote memory access and collectives.
pub trait ComDevice: RmaDevice + CollDevice {

}

} // verus!
