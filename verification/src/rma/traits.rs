use crate::rma::ptr::{
    SimpleLocalAttach, SimpleLocalPtr, SimpleLocalPtrMut, SimpleProcRemotePtr,
    SimpleProcRemotePtrMut, SimpleRemotePtr, SimpleRemotePtrMut,
};
use crate::traits::ComBaseDevice;
use crate::util::ptr::{
    to_negated, to_signed, negated_of, offset_addr, offset_in_bounds, signed_of,
    SendPtr, SendPtrMut,
};
use crate::ProcInt;
use vstd::layout::size_of;
use vstd::prelude::*;

verus! {

/// What a pointer of this layer may point at.
pub trait RmaPointable: Send + Sync + core::fmt::Debug {

}

impl<T> RmaPointable for T where T: ?Sized + Send + Sync + core::fmt::Debug {

}

/// The access tokens of a device: what it hands out for a region on the
/// owner's side (`LocalKey`) and what a peer has to present to reach that
/// region (`RemoteKey`). A device that needs none uses a unit type.
pub trait RmaKeys {
    type LocalKey: Copy + Default;

    type RemoteKey: Copy + Default;
}

/// The key of a device that needs none.
#[derive(Clone, Copy, Debug, PartialEq, Eq, Structural)]
pub struct NoKey;

impl Default for NoKey {
    fn default() -> (r: Self)
        ensures
            r == NoKey,
    {
        NoKey
    }
}

/// What the six pointer kinds share: an address, the rest of what the pointer
/// carries (its tag: keys, owning process), and arithmetic that moves the
/// address by whole elements and leaves the tag alone.
pub trait RmaPtr<T: RmaPointable, D: RmaKeys + ?Sized>: Sized + Copy + Default {
    /// Everything the pointer carries besides its address.
    type Tag;

    /// The address pointed at.
    spec fn addr(self) -> usize;

    /// What the pointer carries besides its address.
    spec fn tag(self) -> Self::Tag;

    /// The pointer `count` elements further on (back, where `count` is
    /// negative). The caller keeps the result inside the region the pointer
    /// came from.
    fn offset(self, count: isize) -> (r: Self)
        requires
            offset_in_bounds(self.addr(), count as int, size_of::<T>()),
        ensures
            r.addr() == offset_addr(self.addr(), count as int, size_of::<T>()),
            r.tag() == self.tag(),
    ;

    /// `offset` by `count` read as a signed distance.
    fn add(self, count: usize) -> (r: Self)
        requires
            offset_in_bounds(self.addr(), signed_of(count), size_of::<T>()),
        ensures
            r.addr() == offset_addr(self.addr(), signed_of(count), size_of::<T>()),
            r.tag() == self.tag(),
    {
        self.offset(to_signed(count))
    }

    /// `offset` by the negation of `count` read as a signed distance.
    fn sub(self, count: usize) -> (r: Self)
        requires
            offset_in_bounds(self.addr(), negated_of(count), size_of::<T>()),
        ensures
            r.addr() == offset_addr(self.addr(), negated_of(count), size_of::<T>()),
            r.tag() == self.tag(),
    {
        self.offset(to_negated(count))
    }
}

/// A read-only pointer into this process's own memory.
pub trait RmaLocalPtr<T: RmaPointable, D: RmaKeys + ?Sized>: RmaPtr<T, D, Tag = D::LocalKey> {
    fn new(ptr: usize, key: D::LocalKey) -> (r: Self)
        ensures
            r.addr() == ptr,
            r.tag() == key,
    ;

    fn as_mut(&self) -> (r: SimpleLocalPtrMut<T, D>)
        ensures
            r.addr() == self.addr(),
            r.tag() == self.tag(),
    ;

    fn ptr(&self) -> (r: usize)
        ensures
            r == self.addr(),
    ;

    fn lkey(&self) -> (r: D::LocalKey)
        ensures
            r == self.tag(),
    ;
}

/// A writable pointer into this process's own memory.
pub trait RmaLocalPtrMut<T: RmaPointable, D: RmaKeys + ?Sized>: RmaPtr<T, D, Tag = D::LocalKey> {
    fn new(ptr: usize, key: D::LocalKey) -> (r: Self)
        ensures
            r.addr() == ptr,
            r.tag() == key,
    ;

    fn as_const(&self) -> (r: SimpleLocalPtr<T, D>)
        ensures
            r.addr() == self.addr(),
            r.tag() == self.tag(),
    ;

    fn ptr(&self) -> (r: usize)
        ensures
            r == self.addr(),
    ;

    fn ptr_mut(&self) -> (r: usize)
        ensures
            r == self.addr(),
    ;

    fn lkey(&self) -> (r: D::LocalKey)
        ensures
            r == self.tag(),
    ;
}

/// A read-only pointer into the memory of some other process. Which process
/// is not part of it, and nothing can be read through it directly.
pub trait RmaRemotePtr<T: RmaPointable, D: RmaKeys + ?Sized>: RmaPtr<T, D, Tag = D::RemoteKey> {
    fn new(ptr: usize, key: D::RemoteKey) -> (r: Self)
        ensures
            r.addr() == ptr,
            r.tag() == key,
    ;

    fn ptr(&self) -> (r: usize)
        ensures
            r == self.addr(),
    ;

    fn rkey(&self) -> (r: D::RemoteKey)
        ensures
            r == self.tag(),
    ;
}

/// A writable pointer into the memory of some other process.
pub trait RmaRemotePtrMut<T: RmaPointable, D: RmaKeys + ?Sized>: RmaPtr<
    T,
    D,
    Tag = D::RemoteKey,
> {
    fn new(ptr: usize, key: D::RemoteKey) -> (r: Self)
        ensures
            r.addr() == ptr,
            r.tag() == key,
    ;

    fn as_const(&self) -> (r: SimpleRemotePtr<T, D>)
        ensures
            r.addr() == self.addr(),
            r.tag() == self.tag(),
    ;

    fn ptr(&self) -> (r: usize)
        ensures
            r == self.addr(),
    ;

    fn ptr_mut(&self) -> (r: usize)
        ensures
            r == self.addr(),
    ;

    fn rkey(&self) -> (r: D::RemoteKey)
        ensures
            r == self.tag(),
    ;
}

/// A read-only remote pointer together with the process whose memory it
/// points into: the one pointer kind that says where, group-wide.
pub trait RmaProcRemotePtr<T: RmaPointable, D: RmaKeys + ?Sized>: RmaPtr<
    T,
    D,
    Tag = (ProcInt, D::RemoteKey),
> {
    fn new(proc: ProcInt, rptr: SimpleRemotePtr<T, D>) -> (r: Self)
        ensures
            r.addr() == rptr.addr(),
            r.tag() == (proc, rptr.tag()),
    ;

    fn proc(&self) -> (r: ProcInt)
        ensures
            r == self.tag().0,
    ;

    /// The pointer without its process.
    fn rptr(&self) -> (r: SimpleRemotePtr<T, D>)
        ensures
            r.addr() == self.addr(),
            r.tag() == self.tag().1,
    ;

    fn ptr(&self) -> (r: usize)
        ensures
            r == self.addr(),
    ;

    fn rkey(&self) -> (r: D::RemoteKey)
        ensures
            r == self.tag().1,
    ;
}

/// A writable remote pointer together with the process whose memory it points
/// into.
pub trait RmaProcRemotePtrMut<T: RmaPointable, D: RmaKeys + ?Sized>: RmaPtr<
    T,
    D,
    Tag = (ProcInt, D::RemoteKey),
> {
    fn new(proc: ProcInt, rptr: SimpleRemotePtrMut<T, D>) -> (r: Self)
        ensures
            r.addr() == rptr.addr(),
            r.tag() == (proc, rptr.tag()),
    ;

    fn proc(&self) -> (r: ProcInt)
        ensures
            r == self.tag().0,
    ;

    /// The pointer without its process, read-only.
    fn rptr(&self) -> (r: SimpleRemotePtr<T, D>)
        ensures
            r.addr() == self.addr(),
            r.tag() == self.tag().1,
    ;

    /// The pointer without its process.
    fn rptr_mut(&self) -> (r: SimpleRemotePtrMut<T, D>)
        ensures
            r.addr() == self.addr(),
            r.tag() == self.tag().1,
    ;

    fn ptr(&self) -> (r: usize)
        ensures
            r == self.addr(),
    ;

    fn ptr_mut(&self) -> (r: usize)
        ensures
            r == self.addr(),
    ;

    fn rkey(&self) -> (r: D::RemoteKey)
        ensures
            r == self.tag().1,
    ;
}

/// The record of a region that was registered for remote access: where it
/// starts, and the two keys the registration gave. It is made when the region
/// is attached and handed back when the region is detached.
pub trait RmaLocalAttach<T: RmaPointable, D: RmaKeys + ?Sized>: Sized + Default {
    /// Where the registered region starts; 0 in a record that stands for no
    /// registration.
    spec fn addr(&self) -> usize;

    spec fn lkey(&self) -> D::LocalKey;

    spec fn rkey(&self) -> D::RemoteKey;

    /// The record of a registration that the transport has made. The caller
    /// answers for that: nothing here can check it.
    fn new(ptr: usize, lkey: D::LocalKey, rkey: D::RemoteKey) -> (r: Self)
        ensures
            r.addr() == ptr,
            r.lkey() == lkey,
            r.rkey() == rkey,
    ;

    fn lptr(&self) -> (r: SimpleLocalPtr<T, D>)
        ensures
            r.addr() == self.addr(),
            r.tag() == self.lkey(),
    ;

    fn lptr_mut(&self) -> (r: SimpleLocalPtrMut<T, D>)
        ensures
            r.addr() == self.addr(),
            r.tag() == self.lkey(),
    ;

    /// What a peer needs to reach the region, short of the owner's rank.
    fn rptr(&self) -> (r: SimpleRemotePtr<T, D>)
        ensures
            r.addr() == self.addr(),
            r.tag() == self.rkey(),
    ;

    fn rptr_mut(&self) -> (r: SimpleRemotePtrMut<T, D>)
        ensures
            r.addr() == self.addr(),
            r.tag() == self.rkey(),
    ;
}

/// The operations of one-sided access, as far as they can be decided without
/// the network: each says which call the device's transport is to be given.
/// The caller hands that call to the transport and, where the call yields a
/// completion token, waits on it.
///
/// A device states the five untyped operations (`*_void`) and the three
/// single-element ones; the typed operations follow from the untyped ones by
/// a cast to bytes and a size scaled by the element's size.
pub trait RmaDevice: ComBaseDevice + RmaKeys + Sized {
    /// The call that registers a region.
    type Attach;

    /// The call that ends a registration.
    type Detach;

    /// The call that copies local memory into a remote region.
    type Put;

    /// The call that copies a remote region into local memory.
    type Get;

    /// The call that compares and swaps one remote element.
    type Swap;

    /// Whether the device can register `size` bytes at `addr`.
    spec fn attach_void_ok(&self, addr: usize, size: nat) -> bool;

    /// The call that registers `size` bytes at `addr`.
    spec fn attach_void_call(&self, addr: usize, size: nat) -> Self::Attach;

    /// The keys under which a registration at `addr` is recorded.
    spec fn attach_keys(&self, addr: usize) -> (Self::LocalKey, Self::RemoteKey);

    /// Whether the device can end the registration recorded at `addr`.
    spec fn detach_void_ok(&self, addr: usize, lkey: Self::LocalKey, rkey: Self::RemoteKey) -> bool;

    /// The call that ends the registration recorded at `addr`.
    spec fn detach_void_call(
        &self,
        addr: usize,
        lkey: Self::LocalKey,
        rkey: Self::RemoteKey,
    ) -> Self::Detach;

    /// Whether the device can copy `size` bytes from `src` to `dest` in
    /// process `proc`.
    spec fn write_void_ok(
        &self,
        src: usize,
        proc: ProcInt,
        dest: usize,
        rkey: Self::RemoteKey,
        size: nat,
    ) -> bool;

    /// The call that copies `size` bytes from `src`, a local address with the
    /// key `lkey`, to `dest` in process `proc`.
    spec fn write_void_call(
        &self,
        src: usize,
        lkey: Self::LocalKey,
        proc: ProcInt,
        dest: usize,
        rkey: Self::RemoteKey,
        size: nat,
    ) -> Self::Put;

    /// The call that copies `size` bytes from `src`, a local address outside
    /// any registered region, to `dest` in process `proc`.
    spec fn buf_write_void_call(
        &self,
        src: usize,
        proc: ProcInt,
        dest: usize,
        rkey: Self::RemoteKey,
        size: nat,
    ) -> Self::Put;

    /// Whether the device can copy `size` bytes from `src` in process `proc`
    /// to `dest`.
    spec fn read_void_ok(
        &self,
        proc: ProcInt,
        src: usize,
        rkey: Self::RemoteKey,
        dest: usize,
        size: nat,
    ) -> bool;

    /// The call that copies `size` bytes from `src` in process `proc` to
    /// `dest`, a local address with the key `lkey`.
    spec fn read_void_call(
        &self,
        proc: ProcInt,
        src: usize,
        rkey: Self::RemoteKey,
        dest: usize,
        lkey: Self::LocalKey,
        size: nat,
    ) -> Self::Get;

    /// Whether the device can compare and swap an element of `size` bytes at
    /// `target` in process `proc`.
    spec fn compare_and_swap_ok(
        &self,
        proc: ProcInt,
        target: usize,
        rkey: Self::RemoteKey,
        size: nat,
    ) -> bool;

    /// The call that compares the element of `size` bytes at `target` in
    /// process `proc` with the one at `expected`, replaces it with the one at
    /// `desired` where they are equal, and leaves what it was at `result`.
    spec fn compare_and_swap_call(
        &self,
        proc: ProcInt,
        target: usize,
        rkey: Self::RemoteKey,
        expected: usize,
        desired: usize,
        result: usize,
        size: nat,
    ) -> Self::Swap;

    /// The call that reads the element of `size` bytes at `src` in process
    /// `proc` into `result`.
    spec fn atomic_read_call(
        &self,
        proc: ProcInt,
        src: usize,
        rkey: Self::RemoteKey,
        result: usize,
        size: nat,
    ) -> Self::Get;

    /// The call that writes the element of `size` bytes at `src` to `dest` in
    /// process `proc`.
    spec fn atomic_write_call(
        &self,
        proc: ProcInt,
        dest: usize,
        rkey: Self::RemoteKey,
        src: usize,
        size: nat,
    ) -> Self::Put;

    /// Registers `size` bytes at `ptr` for access by every process of the
    /// group. Each process registers its own regions; this is no collective.
    fn attach_void(&self, ptr: SendPtrMut<u8>, size: usize) -> (call: Self::Attach)
        requires
            self.attach_void_ok(ptr.addr(), size as nat),
        ensures
            call == self.attach_void_call(ptr.addr(), size as nat),
    ;

    /// What the registration of the bytes at `ptr` came to: the record of the
    /// region where the transport made it, the transport's error where it
    /// refused.
    fn attached_void(&self, ptr: SendPtrMut<u8>, reply: Result<(), Self::Error>) -> (r: Result<
        SimpleLocalAttach<u8, Self>,
        Self::Error,
    >)
        ensures
            match reply {
                Ok(_) => r is Ok && r->Ok_0.addr() == ptr.addr() && (
                r->Ok_0.lkey(),
                r->Ok_0.rkey(),
            ) == self.attach_keys(ptr.addr()),
                Err(e) => r == Err::<SimpleLocalAttach<u8, Self>, Self::Error>(e),
            },
    ;

    /// Registers `size` elements at `ptr`.
    fn attach<T: RmaPointable>(&self, ptr: SendPtrMut<T>, size: usize) -> (call: Self::Attach)
        requires
            size * size_of::<T>() <= usize::MAX,
            self.attach_void_ok(ptr.addr(), (size * size_of::<T>()) as nat),
        ensures
            call == self.attach_void_call(ptr.addr(), (size * size_of::<T>()) as nat),
    {
        self.attach_void(ptr.cast::<u8>(), size * core::mem::size_of::<T>())
    }

    /// What the registration of the elements at `ptr` came to.
    fn attached<T: RmaPointable>(
        &self,
        ptr: SendPtrMut<T>,
        reply: Result<(), Self::Error>,
    ) -> (r: Result<SimpleLocalAttach<T, Self>, Self::Error>)
        ensures
            match reply {
                Ok(_) => r is Ok && r->Ok_0.addr() == ptr.addr() && (
                r->Ok_0.lkey(),
                r->Ok_0.rkey(),
            ) == self.attach_keys(ptr.addr()),
                Err(e) => r == Err::<SimpleLocalAttach<T, Self>, Self::Error>(e),
            },
    {
        match self.attached_void(ptr.cast::<u8>(), reply) {
            Ok(la) => Ok(la.cast::<T>()),
            Err(e) => Err(e),
        }
    }

    /// Ends the registration that `la` records. The record is used up: it is
    /// reset here, so that letting go of it is in order.
    fn detach_void(&self, la: SimpleLocalAttach<u8, Self>) -> (call: Self::Detach)
        requires
            la.is_attached(),
            self.detach_void_ok(la.addr(), la.lkey(), la.rkey()),
        ensures
            call == self.detach_void_call(la.addr(), la.lkey(), la.rkey()),
    ;

    /// Ends the registration that `la` records.
    fn detach<T: RmaPointable>(&self, la: SimpleLocalAttach<T, Self>) -> (call: Self::Detach)
        requires
            la.is_attached(),
            self.detach_void_ok(la.addr(), la.lkey(), la.rkey()),
        ensures
            call == self.detach_void_call(la.addr(), la.lkey(), la.rkey()),
    {
        self.detach_void(la.cast::<u8>())
    }

    /// Copies `size` bytes from `src_lptr` to `dest_rptr`.
    fn write_void(
        &self,
        src_lptr: SimpleLocalPtr<u8, Self>,
        dest_rptr: SimpleProcRemotePtrMut<u8, Self>,
        size: usize,
    ) -> (call: Self::Put)
        requires
            self.write_void_ok(
                src_lptr.addr(),
                dest_rptr.tag().0,
                dest_rptr.addr(),
                dest_rptr.tag().1,
                size as nat,
            ),
        ensures
            call == self.write_void_call(
                src_lptr.addr(),
                src_lptr.tag(),
                dest_rptr.tag().0,
                dest_rptr.addr(),
                dest_rptr.tag().1,
                size as nat,
            ),
    ;

    /// Copies `size` elements from `src_lptr` to `dest_rptr`.
    fn write<T: RmaPointable>(
        &self,
        src_lptr: SimpleLocalPtr<T, Self>,
        dest_rptr: SimpleProcRemotePtrMut<T, Self>,
        size: usize,
    ) -> (call: Self::Put)
        requires
            size * size_of::<T>() <= usize::MAX,
            self.write_void_ok(
                src_lptr.addr(),
                dest_rptr.tag().0,
                dest_rptr.addr(),
                dest_rptr.tag().1,
                (size * size_of::<T>()) as nat,
            ),
        ensures
            call == self.write_void_call(
                src_lptr.addr(),
                src_lptr.tag(),
                dest_rptr.tag().0,
                dest_rptr.addr(),
                dest_rptr.tag().1,
                (size * size_of::<T>()) as nat,
            ),
    {
        self.write_void(
            src_lptr.cast::<u8>(),
            dest_rptr.cast::<u8>(),
            size * core::mem::size_of::<T>(),
        )
    }

    /// Copies `size` bytes from `src_ptr`, which need not lie in a registered
    /// region, to `dest_rptr`.
    fn buf_write_void(
        &self,
        src_ptr: SendPtr<u8>,
        dest_rptr: SimpleProcRemotePtrMut<u8, Self>,
        size: usize,
    ) -> (call: Self::Put)
        requires
            self.write_void_ok(
                src_ptr.addr(),
                dest_rptr.tag().0,
                dest_rptr.addr(),
                dest_rptr.tag().1,
                size as nat,
            ),
        ensures
            call == self.buf_write_void_call(
                src_ptr.addr(),
                dest_rptr.tag().0,
                dest_rptr.addr(),
                dest_rptr.tag().1,
                size as nat,
            ),
    ;

    /// Copies `size` elements from `src_ptr` to `dest_rptr`.
    fn buf_write<T: RmaPointable>(
        &self,
        src_ptr: SendPtr<T>,
        dest_rptr: SimpleProcRemotePtrMut<T, Self>,
        size: usize,
    ) -> (call: Self::Put)
        requires
            size * size_of::<T>() <= usize::MAX,
            self.write_void_ok(
                src_ptr.addr(),
                dest_rptr.tag().0,
                dest_rptr.addr(),
                dest_rptr.tag().1,
                (size * size_of::<T>()) as nat,
            ),
        ensures
            call == self.buf_write_void_call(
                src_ptr.addr(),
                dest_rptr.tag().0,
                dest_rptr.addr(),
                dest_rptr.tag().1,
                (size * size_of::<T>()) as nat,
            ),
    {
        self.buf_write_void(
            src_ptr.cast::<u8>(),
            dest_rptr.cast::<u8>(),
            size * core::mem::size_of::<T>(),
        )
    }

    /// Copies `size` bytes from `src_rptr` to `dest_lptr`.
    fn read_void(
        &self,
        src_rptr: SimpleProcRemotePtr<u8, Self>,
        dest_lptr: SimpleLocalPtrMut<u8, Self>,
        size: usize,
    ) -> (call: Self::Get)
        requires
            self.read_void_ok(
                src_rptr.tag().0,
                src_rptr.addr(),
                src_rptr.tag().1,
                dest_lptr.addr(),
                size as nat,
            ),
        ensures
            call == self.read_void_call(
                src_rptr.tag().0,
                src_rptr.addr(),
                src_rptr.tag().1,
                dest_lptr.addr(),
                dest_lptr.tag(),
                size as nat,
            ),
    ;

    /// Copies `size` elements from `src_rptr` to `dest_lptr`.
    fn read<T: RmaPointable>(
        &self,
        src_rptr: SimpleProcRemotePtr<T, Self>,
        dest_lptr: SimpleLocalPtrMut<T, Self>,
        size: usize,
    ) -> (call: Self::Get)
        requires
            size * size_of::<T>() <= usize::MAX,
            self.read_void_ok(
                src_rptr.tag().0,
                src_rptr.addr(),
                src_rptr.tag().1,
                dest_lptr.addr(),
                (size * size_of::<T>()) as nat,
            ),
        ensures
            call == self.read_void_call(
                src_rptr.tag().0,
                src_rptr.addr(),
                src_rptr.tag().1,
                dest_lptr.addr(),
                dest_lptr.tag(),
                (size * size_of::<T>()) as nat,
            ),
    {
        self.read_void(
            src_rptr.cast::<u8>(),
            dest_lptr.cast::<u8>(),
            size * core::mem::size_of::<T>(),
        )
    }

    /// Compares the element at `target_rptr` with the one at `expected` and,
    /// where they are equal, replaces it with the one at `desired`; what the
    /// element was before is left at `result` either way. One element only.
    fn compare_and_swap<T: RmaPointable>(
        &self,
        target_rptr: SimpleProcRemotePtrMut<T, Self>,
        expected: SendPtr<T>,
        desired: SendPtr<T>,
        result: SendPtrMut<T>,
    ) -> (call: Self::Swap)
        requires
            self.compare_and_swap_ok(
                target_rptr.tag().0,
                target_rptr.addr(),
                target_rptr.tag().1,
                size_of::<T>(),
            ),
        ensures
            call == self.compare_and_swap_call(
                target_rptr.tag().0,
                target_rptr.addr(),
                target_rptr.tag().1,
                expected.addr(),
                desired.addr(),
                result.addr(),
                size_of::<T>(),
            ),
    ;

    /// Reads the element at `src_rptr` into `result`. No more atomic than the
    /// device's `read`.
    fn atomic_read<T: RmaPointable>(
        &self,
        src_rptr: SimpleProcRemotePtr<T, Self>,
        result: SendPtrMut<T>,
    ) -> (call: Self::Get)
        requires
            self.read_void_ok(
                src_rptr.tag().0,
                src_rptr.addr(),
                src_rptr.tag().1,
                result.addr(),
                size_of::<T>(),
            ),
        ensures
            call == self.atomic_read_call(
                src_rptr.tag().0,
                src_rptr.addr(),
                src_rptr.tag().1,
                result.addr(),
                size_of::<T>(),
            ),
    ;

    /// Writes the element at `src` to `dest_rptr`. No more atomic than the
    /// device's `write`.
    fn atomic_write<T: RmaPointable>(
        &self,
        dest_rptr: SimpleProcRemotePtrMut<T, Self>,
        src: SendPtr<T>,
    ) -> (call: Self::Put)
        requires
            self.write_void_ok(
                src.addr(),
                dest_rptr.tag().0,
                dest_rptr.addr(),
                dest_rptr.tag().1,
                size_of::<T>(),
            ),
        ensures
            call == self.atomic_write_call(
                dest_rptr.tag().0,
                dest_rptr.addr(),
                dest_rptr.tag().1,
                src.addr(),
                size_of::<T>(),
            ),
    ;
}

} // verus!
