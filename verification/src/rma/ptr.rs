use crate::rma::traits::{
    RmaKeys, RmaLocalAttach, RmaLocalPtr, RmaLocalPtrMut, RmaPointable, RmaProcRemotePtr,
    RmaProcRemotePtrMut, RmaPtr, RmaRemotePtr, RmaRemotePtrMut,
};
use crate::util::ptr::{SendPtr, SendPtrMut, UndropPtr};
use crate::ProcInt;
use vstd::prelude::*;

verus! {

/// A read-only local pointer: an address in this process and the local key of
/// the region it lies in.
pub struct SimpleLocalPtr<T: RmaPointable, D: RmaKeys + ?Sized> {
    ptr: SendPtr<T>,
    lkey: D::LocalKey,
}

/// A writable local pointer.
pub struct SimpleLocalPtrMut<T: RmaPointable, D: RmaKeys + ?Sized> {
    ptr: SendPtrMut<T>,
    lkey: D::LocalKey,
}

/// A read-only remote pointer: an address in some other process and the
/// remote key of the region it lies in.
pub struct SimpleRemotePtr<T: RmaPointable, D: RmaKeys + ?Sized> {
    ptr: SendPtr<T>,
    rkey: D::RemoteKey,
}

/// A writable remote pointer.
pub struct SimpleRemotePtrMut<T: RmaPointable, D: RmaKeys + ?Sized> {
    ptr: SendPtrMut<T>,
    rkey: D::RemoteKey,
}

/// A read-only remote pointer and the rank of the process it points into.
pub struct SimpleProcRemotePtr<T: RmaPointable, D: RmaKeys + ?Sized> {
    proc: ProcInt,
    rptr: SimpleRemotePtr<T, D>,
}

/// A writable remote pointer and the rank of the process it points into.
pub struct SimpleProcRemotePtrMut<T: RmaPointable, D: RmaKeys + ?Sized> {
    proc: ProcInt,
    rptr: SimpleRemotePtrMut<T, D>,
}

impl<T: RmaPointable, D: RmaKeys + ?Sized> Clone for SimpleLocalPtr<T, D> {
    fn clone(&self) -> (r: Self)
        ensures
            r == *self,
    {
        *self
    }
}

impl<T: RmaPointable, D: RmaKeys + ?Sized> Copy for SimpleLocalPtr<T, D> {

}

impl<T: RmaPointable, D: RmaKeys + ?Sized> Clone for SimpleLocalPtrMut<T, D> {
    fn clone(&self) -> (r: Self)
        ensures
            r == *self,
    {
        *self
    }
}

impl<T: RmaPointable, D: RmaKeys + ?Sized> Copy for SimpleLocalPtrMut<T, D> {

}

impl<T: RmaPointable, D: RmaKeys + ?Sized> Clone for SimpleRemotePtr<T, D> {
    fn clone(&self) -> (r: Self)
        ensures
            r == *self,
    {
        *self
    }
}

impl<T: RmaPointable, D: RmaKeys + ?Sized> Copy for SimpleRemotePtr<T, D> {

}

impl<T: RmaPointable, D: RmaKeys + ?Sized> Clone for SimpleRemotePtrMut<T, D> {
    fn clone(&self) -> (r: Self)
        ensures
            r == *self,
    {
        *self
    }
}

impl<T: RmaPointable, D: RmaKeys + ?Sized> Copy for SimpleRemotePtrMut<T, D> {

}

impl<T: RmaPointable, D: RmaKeys + ?Sized> Clone for SimpleProcRemotePtr<T, D> {
    fn clone(&self) -> (r: Self)
        ensures
            r == *self,
    {
        *self
    }
}

impl<T: RmaPointable, D: RmaKeys + ?Sized> Copy for SimpleProcRemotePtr<T, D> {

}

impl<T: RmaPointable, D: RmaKeys + ?Sized> Clone for SimpleProcRemotePtrMut<T, D> {
    fn clone(&self) -> (r: Self)
        ensures
            r == *self,
    {
        *self
    }
}

impl<T: RmaPointable, D: RmaKeys + ?Sized> Copy for SimpleProcRemotePtrMut<T, D> {

}

impl<T: RmaPointable, D: RmaKeys + ?Sized> Default for SimpleLocalPtr<T, D> {
    /// The null pointer, with the key's own default.
    fn default() -> (r: Self)
        ensures
            r.addr() == 0,
    {
        SimpleLocalPtr { ptr: SendPtr::null(), lkey: D::LocalKey::default() }
    }
}

impl<T: RmaPointable, D: RmaKeys + ?Sized> Default for SimpleLocalPtrMut<T, D> {
    /// The null pointer, with the key's own default.
    fn default() -> (r: Self)
        ensures
            r.addr() == 0,
    {
        SimpleLocalPtrMut { ptr: SendPtrMut::null(), lkey: D::LocalKey::default() }
    }
}

impl<T: RmaPointable, D: RmaKeys + ?Sized> Default for SimpleRemotePtr<T, D> {
    /// The null pointer, with the key's own default.
    fn default() -> (r: Self)
        ensures
            r.addr() == 0,
    {
        SimpleRemotePtr { ptr: SendPtr::null(), rkey: D::RemoteKey::default() }
    }
}

impl<T: RmaPointable, D: RmaKeys + ?Sized> Default for SimpleRemotePtrMut<T, D> {
    /// The null pointer, with the key's own default.
    fn default() -> (r: Self)
        ensures
            r.addr() == 0,
    {
        SimpleRemotePtrMut { ptr: SendPtrMut::null(), rkey: D::RemoteKey::default() }
    }
}

impl<T: RmaPointable, D: RmaKeys + ?Sized> Default for SimpleProcRemotePtr<T, D> {
    /// The null pointer into process 0, with the key's own default.
    fn default() -> (r: Self)
        ensures
            r.addr() == 0,
            r.tag().0 == 0,
    {
        SimpleProcRemotePtr { proc: 0, rptr: SimpleRemotePtr::default() }
    }
}

impl<T: RmaPointable, D: RmaKeys + ?Sized> Default for SimpleProcRemotePtrMut<T, D> {
    /// The null pointer into process 0, with the key's own default.
    fn default() -> (r: Self)
        ensures
            r.addr() == 0,
            r.tag().0 == 0,
    {
        SimpleProcRemotePtrMut { proc: 0, rptr: SimpleRemotePtrMut::default() }
    }
}

impl<T: RmaPointable, D: RmaKeys + ?Sized> RmaPtr<T, D> for SimpleLocalPtr<T, D> {
    type Tag = D::LocalKey;

    closed spec fn addr(self) -> usize {
        self.ptr.addr()
    }

    closed spec fn tag(self) -> D::LocalKey {
        self.lkey
    }

    fn offset(self, count: isize) -> (r: Self) {
        SimpleLocalPtr { ptr: self.ptr.offset(count), lkey: self.lkey }
    }
}

impl<T: RmaPointable, D: RmaKeys + ?Sized> RmaPtr<T, D> for SimpleLocalPtrMut<T, D> {
    type Tag = D::LocalKey;

    closed spec fn addr(self) -> usize {
        self.ptr.addr()
    }

    closed spec fn tag(self) -> D::LocalKey {
        self.lkey
    }

    fn offset(self, count: isize) -> (r: Self) {
        SimpleLocalPtrMut { ptr: self.ptr.offset(count), lkey: self.lkey }
    }
}

impl<T: RmaPointable, D: RmaKeys + ?Sized> RmaPtr<T, D> for SimpleRemotePtr<T, D> {
    type Tag = D::RemoteKey;

    closed spec fn addr(self) -> usize {
        self.ptr.addr()
    }

    closed spec fn tag(self) -> D::RemoteKey {
        self.rkey
    }

    fn offset(self, count: isize) -> (r: Self) {
        SimpleRemotePtr { ptr: self.ptr.offset(count), rkey: self.rkey }
    }
}

impl<T: RmaPointable, D: RmaKeys + ?Sized> RmaPtr<T, D> for SimpleRemotePtrMut<T, D> {
    type Tag = D::RemoteKey;

    closed spec fn addr(self) -> usize {
        self.ptr.addr()
    }

    closed spec fn tag(self) -> D::RemoteKey {
        self.rkey
    }

    fn offset(self, count: isize) -> (r: Self) {
        SimpleRemotePtrMut { ptr: self.ptr.offset(count), rkey: self.rkey }
    }
}

impl<T: RmaPointable, D: RmaKeys + ?Sized> RmaPtr<T, D> for SimpleProcRemotePtr<T, D> {
    type Tag = (ProcInt, D::RemoteKey);

    closed spec fn addr(self) -> usize {
        self.rptr.addr()
    }

    closed spec fn tag(self) -> (ProcInt, D::RemoteKey) {
        (self.proc, self.rptr.tag())
    }

    fn offset(self, count: isize) -> (r: Self) {
        SimpleProcRemotePtr { proc: self.proc, rptr: self.rptr.offset(count) }
    }
}

impl<T: RmaPointable, D: RmaKeys + ?Sized> RmaPtr<T, D> for SimpleProcRemotePtrMut<T, D> {
    type Tag = (ProcInt, D::RemoteKey);

    closed spec fn addr(self) -> usize {
        self.rptr.addr()
    }

    closed spec fn tag(self) -> (ProcInt, D::RemoteKey) {
        (self.proc, self.rptr.tag())
    }

    fn offset(self, count: isize) -> (r: Self) {
        SimpleProcRemotePtrMut { proc: self.proc, rptr: self.rptr.offset(count) }
    }
}

impl<T: RmaPointable, D: RmaKeys + ?Sized> SimpleLocalPtr<T, D> {
    /// The same pointer, seen as pointing at a `U`.
    pub fn cast<U: RmaPointable>(&self) -> (r: SimpleLocalPtr<U, D>)
        ensures
            r.addr() == self.addr(),
            r.tag() == self.tag(),
    {
        SimpleLocalPtr { ptr: self.ptr.cast::<U>(), lkey: self.lkey }
    }
}

impl<T: RmaPointable, D: RmaKeys + ?Sized> SimpleLocalPtrMut<T, D> {
    /// The same pointer, seen as pointing at a `U`.
    pub fn cast<U: RmaPointable>(&self) -> (r: SimpleLocalPtrMut<U, D>)
        ensures
            r.addr() == self.addr(),
            r.tag() == self.tag(),
    {
        SimpleLocalPtrMut { ptr: self.ptr.cast::<U>(), lkey: self.lkey }
    }
}

impl<T: RmaPointable, D: RmaKeys + ?Sized> SimpleRemotePtr<T, D> {
    /// The same pointer, seen as pointing at a `U`.
    pub fn cast<U: RmaPointable>(&self) -> (r: SimpleRemotePtr<U, D>)
        ensures
            r.addr() == self.addr(),
            r.tag() == self.tag(),
    {
        SimpleRemotePtr { ptr: self.ptr.cast::<U>(), rkey: self.rkey }
    }
}

impl<T: RmaPointable, D: RmaKeys + ?Sized> SimpleRemotePtrMut<T, D> {
    /// The same pointer, seen as pointing at a `U`.
    pub fn cast<U: RmaPointable>(&self) -> (r: SimpleRemotePtrMut<U, D>)
        ensures
            r.addr() == self.addr(),
            r.tag() == self.tag(),
    {
        SimpleRemotePtrMut { ptr: self.ptr.cast::<U>(), rkey: self.rkey }
    }
}

impl<T: RmaPointable, D: RmaKeys + ?Sized> SimpleProcRemotePtr<T, D> {
    /// The same pointer, seen as pointing at a `U`.
    pub fn cast<U: RmaPointable>(&self) -> (r: SimpleProcRemotePtr<U, D>)
        ensures
            r.addr() == self.addr(),
            r.tag() == self.tag(),
    {
        SimpleProcRemotePtr { proc: self.proc, rptr: self.rptr.cast::<U>() }
    }
}

impl<T: RmaPointable, D: RmaKeys + ?Sized> SimpleProcRemotePtrMut<T, D> {
    /// The same pointer, seen as pointing at a `U`.
    pub fn cast<U: RmaPointable>(&self) -> (r: SimpleProcRemotePtrMut<U, D>)
        ensures
            r.addr() == self.addr(),
            r.tag() == self.tag(),
    {
        SimpleProcRemotePtrMut { proc: self.proc, rptr: self.rptr.cast::<U>() }
    }
}

impl<T: RmaPointable, D: RmaKeys + ?Sized> RmaLocalPtr<T, D> for SimpleLocalPtr<T, D> {
    fn new(ptr: usize, lkey: D::LocalKey) -> (r: Self) {
        SimpleLocalPtr { ptr: SendPtr::new(ptr), lkey }
    }

    fn as_mut(&self) -> (r: SimpleLocalPtrMut<T, D>) {
        SimpleLocalPtrMut { ptr: self.ptr.cast_mut(), lkey: self.lkey }
    }

    fn ptr(&self) -> (r: usize) {
        self.ptr.get()
    }

    fn lkey(&self) -> (r: D::LocalKey) {
        self.lkey
    }
}

impl<T: RmaPointable, D: RmaKeys + ?Sized> RmaLocalPtrMut<T, D> for SimpleLocalPtrMut<T, D> {
    fn new(ptr: usize, lkey: D::LocalKey) -> (r: Self) {
        SimpleLocalPtrMut { ptr: SendPtrMut::new(ptr), lkey }
    }

    fn as_const(&self) -> (r: SimpleLocalPtr<T, D>) {
        SimpleLocalPtr { ptr: self.ptr.cast_const(), lkey: self.lkey }
    }

    fn ptr(&self) -> (r: usize) {
        self.ptr.get()
    }

    fn ptr_mut(&self) -> (r: usize) {
        self.ptr.get()
    }

    fn lkey(&self) -> (r: D::LocalKey) {
        self.lkey
    }
}

impl<T: RmaPointable, D: RmaKeys + ?Sized> RmaRemotePtr<T, D> for SimpleRemotePtr<T, D> {
    fn new(ptr: usize, rkey: D::RemoteKey) -> (r: Self) {
        SimpleRemotePtr { ptr: SendPtr::new(ptr), rkey }
    }

    fn ptr(&self) -> (r: usize) {
        self.ptr.get()
    }

    fn rkey(&self) -> (r: D::RemoteKey) {
        self.rkey
    }
}

impl<T: RmaPointable, D: RmaKeys + ?Sized> RmaRemotePtrMut<T, D> for SimpleRemotePtrMut<T, D> {
    fn new(ptr: usize, rkey: D::RemoteKey) -> (r: Self) {
        SimpleRemotePtrMut { ptr: SendPtrMut::new(ptr), rkey }
    }

    fn as_const(&self) -> (r: SimpleRemotePtr<T, D>) {
        SimpleRemotePtr { ptr: self.ptr.cast_const(), rkey: self.rkey }
    }

    fn ptr(&self) -> (r: usize) {
        self.ptr.get()
    }

    fn ptr_mut(&self) -> (r: usize) {
        self.ptr.get()
    }

    fn rkey(&self) -> (r: D::RemoteKey) {
        self.rkey
    }
}

impl<T: RmaPointable, D: RmaKeys + ?Sized> RmaProcRemotePtr<T, D> for SimpleProcRemotePtr<T, D> {
    fn new(proc: ProcInt, rptr: SimpleRemotePtr<T, D>) -> (r: Self) {
        SimpleProcRemotePtr { proc, rptr }
    }

    fn proc(&self) -> (r: ProcInt) {
        self.proc
    }

    fn rptr(&self) -> (r: SimpleRemotePtr<T, D>) {
        self.rptr
    }

    fn ptr(&self) -> (r: usize) {
        self.rptr.ptr()
    }

    fn rkey(&self) -> (r: D::RemoteKey) {
        self.rptr.rkey()
    }
}

impl<T: RmaPointable, D: RmaKeys + ?Sized> RmaProcRemotePtrMut<T, D> for SimpleProcRemotePtrMut<T, D> {
    fn new(proc: ProcInt, rptr: SimpleRemotePtrMut<T, D>) -> (r: Self) {
        SimpleProcRemotePtrMut { proc, rptr }
    }

    fn proc(&self) -> (r: ProcInt) {
        self.proc
    }

    fn rptr(&self) -> (r: SimpleRemotePtr<T, D>) {
        self.rptr.as_const()
    }

    fn rptr_mut(&self) -> (r: SimpleRemotePtrMut<T, D>) {
        self.rptr
    }

    fn ptr(&self) -> (r: usize) {
        self.rptr.ptr()
    }

    fn ptr_mut(&self) -> (r: usize) {
        self.rptr.ptr_mut()
    }

    fn rkey(&self) -> (r: D::RemoteKey) {
        self.rptr.rkey()
    }
}

/// The record of one registered region. While its address is not null the
/// registration is in force and the record must not be let go of: it is to be
/// handed to the device for detaching, which resets it.
pub struct SimpleLocalAttach<T: RmaPointable, D: RmaKeys + ?Sized> {
    ptr: UndropPtr<T>,
    lkey: D::LocalKey,
    rkey: D::RemoteKey,
}

impl<T: RmaPointable, D: RmaKeys + ?Sized> SimpleLocalAttach<T, D> {
    /// Whether the record stands for a registration that is still in force.
    pub open spec fn is_attached(&self) -> bool {
        self.addr() != 0
    }

    /// Ends the record's claim on the registration: afterwards it is null and
    /// may be dropped. The keys stay.
    pub fn reset(&mut self)
        ensures
            final(self).addr() == 0,
            final(self).lkey() == old(self).lkey(),
            final(self).rkey() == old(self).rkey(),
    {
        self.ptr.reset();
    }

    /// The same registration, recorded as a region of `U`s. The record given
    /// is used up.
    pub fn cast<U: RmaPointable>(self) -> (r: SimpleLocalAttach<U, D>)
        ensures
            r.addr() == self.addr(),
            r.lkey() == self.lkey(),
            r.rkey() == self.rkey(),
    {
        let mut from = self;
        let r = SimpleLocalAttach { ptr: from.ptr.cast::<U>(), lkey: from.lkey, rkey: from.rkey };
        from.reset();
        r
    }

    /// Whether the record may be let go of: only one that stands for no
    /// registration may.
    pub fn may_drop(&self) -> (r: bool)
        ensures
            r == !self.is_attached(),
    {
        self.ptr.may_drop()
    }
}

impl<T: RmaPointable, D: RmaKeys + ?Sized> Default for SimpleLocalAttach<T, D> {
    /// A record that stands for no registration.
    fn default() -> (r: Self)
        ensures
            !r.is_attached(),
    {
        SimpleLocalAttach {
            ptr: UndropPtr::null(),
            lkey: D::LocalKey::default(),
            rkey: D::RemoteKey::default(),
        }
    }
}

impl<T: RmaPointable, D: RmaKeys + ?Sized> RmaLocalAttach<T, D> for SimpleLocalAttach<T, D> {
    closed spec fn addr(&self) -> usize {
        self.ptr.addr()
    }

    closed spec fn lkey(&self) -> D::LocalKey {
        self.lkey
    }

    closed spec fn rkey(&self) -> D::RemoteKey {
        self.rkey
    }

    fn new(ptr: usize, lkey: D::LocalKey, rkey: D::RemoteKey) -> (r: Self) {
        SimpleLocalAttach { ptr: UndropPtr::new(ptr), lkey, rkey }
    }

    fn lptr(&self) -> (r: SimpleLocalPtr<T, D>) {
        SimpleLocalPtr::new(self.ptr.get(), self.lkey)
    }

    fn lptr_mut(&self) -> (r: SimpleLocalPtrMut<T, D>) {
        SimpleLocalPtrMut::new(self.ptr.get(), self.lkey)
    }

    fn rptr(&self) -> (r: SimpleRemotePtr<T, D>) {
        SimpleRemotePtr::new(self.ptr.get(), self.rkey)
    }

    fn rptr_mut(&self) -> (r: SimpleRemotePtrMut<T, D>) {
        SimpleRemotePtrMut::new(self.ptr.get(), self.rkey)
    }
}

} // verus!
