use crate::dev::mpi::error::MpiError;
use crate::traits::{ComBaseDevice, ComDevice};
use crate::ProcInt;
use vstd::prelude::*;

verus! {

/// The device over the transport's world group, as far as it decides without
/// the network: it knows this process's rank and the size of the group, and
/// turns every operation into the transport call that carries it out.
pub struct MpiCom {
    rank: ProcInt,
    size: ProcInt,
}

impl MpiCom {
    #[verifier::type_invariant]
    spec fn in_group(self) -> bool {
        self.rank < self.size <= i32::MAX
    }

    /// The device of the process that the transport reports as `rank` out of
    /// `size`. Every process of the group makes its own.
    pub fn coll_new(rank: i32, size: i32) -> (r: Self)
        requires
            0 <= rank < size,
        ensures
            r.spec_this_proc_id() == rank,
            r.spec_num_procs() == size,
    {
        MpiCom { rank: rank as usize, size: size as usize }
    }

}

impl ComBaseDevice for MpiCom {
    type Error = MpiError;

    closed spec fn spec_this_proc_id(&self) -> ProcInt {
        self.rank
    }

    closed spec fn spec_num_procs(&self) -> ProcInt {
        self.size
    }

    fn this_proc_id(&self) -> (r: ProcInt) {
        proof {
            use_type_invariant(self);
        }
        self.rank
    }

    /// The transport counts the group in a 32-bit signed number.
    fn num_procs(&self) -> (r: ProcInt)
        ensures
            r <= i32::MAX,
    {
        proof {
            use_type_invariant(self);
        }
        self.size
    }
}

impl ComDevice for MpiCom {

}

} // verus!
