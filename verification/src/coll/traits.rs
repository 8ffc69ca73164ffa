use crate::dev::mpi::datatype::{Datatype, Equivalence};
use crate::traits::ComBaseDevice;
use crate::util::ptr::{SendPtr, SendPtrMut};
use vstd::layout::size_of;
use vstd::prelude::*;

verus! {

/// The reductions a collective can apply, element by element. Each is
/// commutative and associative.
#[derive(Clone, Copy, Debug, PartialEq, Eq, Structural)]
pub enum SystemOperation {
    Max,
    Min,
    Sum,
    Product,
    LogicalAnd,
    BitwiseAnd,
    LogicalOr,
    BitwiseOr,
    LogicalXor,
    BitwiseXor,
}

/// What an allgather leaves in every receive buffer: the contributions of all
/// processes, one after the other in rank order.
pub open spec fn gathered<T>(contributions: Seq<Seq<T>>) -> Seq<T> {
    contributions.flatten()
}

/// The collectives, as far as they can be decided without the network: each
/// says which call the device's transport is to be given. Every process of
/// the group has to make the same collectives in the same order, which no
/// device can check.
pub trait CollDevice: ComBaseDevice {
    /// The call that starts a barrier.
    type Barrier;

    /// The call that starts an allgather.
    type Allgather;

    /// The call that starts an allreduce.
    type Allreduce;

    /// The call that starts a barrier.
    spec fn barrier_call(&self) -> Self::Barrier;

    /// Whether the device can gather contributions of `len` elements of
    /// `elem` bytes.
    spec fn allgather_ok(&self, len: usize, elem: nat) -> bool;

    /// The call that gathers `len` elements of `elem` bytes from `send` in
    /// every process into `recv`.
    spec fn allgather_call(&self, send: usize, len: usize, recv: usize, elem: nat) -> Self::Allgather;

    /// Whether the device can reduce buffers of `len` elements.
    spec fn allreduce_ok(&self, len: usize) -> bool;

    /// The call that reduces the `len` elements of type `datatype` at `send`
    /// in every process with `op` into `recv`.
    spec fn allreduce_call(
        &self,
        send: usize,
        recv: usize,
        len: usize,
        datatype: Datatype,
        op: SystemOperation,
    ) -> Self::Allreduce;

    /// No process gets past the barrier before every process has reached it.
    fn barrier(&self) -> (call: Self::Barrier)
        ensures
            call == self.barrier_call(),
    ;

    /// Every process contributes the `send_len` elements at `send_buf`; every
    /// process receives the contributions of all, in rank order, at
    /// `recv_buf`, which has to have room for them.
    fn allgather<T: Copy>(
        &self,
        send_buf: SendPtr<T>,
        send_len: usize,
        recv_buf: SendPtrMut<T>,
        recv_len: usize,
    ) -> (call: Self::Allgather)
        requires
            recv_len >= send_len * self.spec_num_procs(),
            self.allgather_ok(send_len, size_of::<T>()),
        ensures
            call == self.allgather_call(send_buf.addr(), send_len, recv_buf.addr(), size_of::<T>()),
    ;

    /// Every process contributes the `send_len` elements at `send_buf`; every
    /// process receives, at `recv_buf`, the reduction of the contributions
    /// with `op`, element by element. The two buffers are of one length.
    fn allreduce<T: Copy + Equivalence>(
        &self,
        send_buf: SendPtr<T>,
        send_len: usize,
        recv_buf: SendPtrMut<T>,
        recv_len: usize,
        op: SystemOperation,
    ) -> (call: Self::Allreduce)
        requires
            send_len == recv_len,
            self.allreduce_ok(send_len),
        ensures
            call == self.allreduce_call(
                send_buf.addr(),
                recv_buf.addr(),
                send_len,
                T::equivalent_datatype(),
                op,
            ),
    ;
}

} // verus!
