use core::marker::PhantomData;
use vstd::layout::size_of;
use vstd::prelude::*;

verus! {

/// The address `count` elements of `size` bytes away from `addr`.
pub open spec fn offset_addr(addr: usize, count: int, size: nat) -> int {
    addr + count * size
}

/// Whether the address `count` elements of `size` bytes away from `addr` is an
/// address at all.
pub open spec fn offset_in_bounds(addr: usize, count: int, size: nat) -> bool {
    0 <= offset_addr(addr, count, size) <= usize::MAX
}

/// An unsigned word read as a signed one, the way a two's complement machine
/// reads it: the upper half of the range stands for the negative numbers.
pub open spec fn signed_of(word: usize) -> int {
    if word <= isize::MAX {
        word as int
    } else {
        word - (usize::MAX + 1)
    }
}

/// The negation of `signed_of(word)`, wrapping at the lower end of `isize`.
pub open spec fn negated_of(word: usize) -> int {
    if signed_of(word) == isize::MIN {
        isize::MIN as int
    } else {
        -signed_of(word)
    }
}

/// Moves `addr` by `count` elements of `size` bytes.
pub fn offset_address(addr: usize, count: isize, size: usize) -> (r: usize)
    requires
        offset_in_bounds(addr, count as int, size as nat),
    ensures
        r == offset_addr(addr, count as int, size as nat),
{
    if count >= 0 {
        let forward: usize = count as usize;
        assert(forward * size == count * size);
        addr + forward * size
    } else {
        let back: usize = (-(count + 1)) as usize + 1;
        assert(back * size == -(count * size)) by (nonlinear_arith)
            requires
                back == -count,
        ;
        addr - back * size
    }
}

/// Reads an unsigned word as a signed one.
pub fn to_signed(word: usize) -> (r: isize)
    ensures
        r == signed_of(word),
{
    if word <= isize::MAX as usize {
        word as isize
    } else {
        let over: usize = word - isize::MAX as usize - 1;
        over as isize + isize::MIN
    }
}

/// Reads an unsigned word as a signed one and negates it, wrapping at the
/// lower end of `isize`.
pub fn to_negated(word: usize) -> (r: isize)
    ensures
        r == negated_of(word),
{
    let signed: isize = to_signed(word);
    if signed == isize::MIN {
        signed
    } else {
        -signed
    }
}

/// The address of a read-only location, tagged with the type of the element
/// that lives there. The address is a plain number: nothing is read or
/// written through it here.
pub struct SendPtr<T> {
    addr: usize,
    _elem: PhantomData<T>,
}

/// The address of a writable location, tagged with the type of the element
/// that lives there.
pub struct SendPtrMut<T> {
    addr: usize,
    _elem: PhantomData<T>,
}

impl<T> Clone for SendPtr<T> {
    fn clone(&self) -> (r: Self)
        ensures
            r == *self,
    {
        *self
    }
}

impl<T> Copy for SendPtr<T> {

}

impl<T> Clone for SendPtrMut<T> {
    fn clone(&self) -> (r: Self)
        ensures
            r == *self,
    {
        *self
    }
}

impl<T> Copy for SendPtrMut<T> {

}

impl<T> SendPtr<T> {
    /// The address held.
    pub closed spec fn addr(self) -> usize {
        self.addr
    }

    pub fn new(ptr: usize) -> (r: Self)
        ensures
            r.addr() == ptr,
    {
        SendPtr { addr: ptr, _elem: PhantomData }
    }

    pub fn null() -> (r: Self)
        ensures
            r.addr() == 0,
    {
        SendPtr { addr: 0, _elem: PhantomData }
    }

    pub fn get(&self) -> (r: usize)
        ensures
            r == self.addr(),
    {
        self.addr
    }

    /// The same address, seen as the place of a `U`.
    pub fn cast<U>(&self) -> (r: SendPtr<U>)
        ensures
            r.addr() == self.addr(),
    {
        SendPtr { addr: self.addr, _elem: PhantomData }
    }

    pub fn cast_mut(&self) -> (r: SendPtrMut<T>)
        ensures
            r.addr() == self.addr(),
    {
        SendPtrMut { addr: self.addr, _elem: PhantomData }
    }

    /// The address `count` elements further on (back, where `count` is
    /// negative).
    pub fn offset(&self, count: isize) -> (r: Self)
        requires
            offset_in_bounds(self.addr(), count as int, size_of::<T>()),
        ensures
            r.addr() == offset_addr(self.addr(), count as int, size_of::<T>()),
    {
        SendPtr { addr: offset_address(self.addr, count, core::mem::size_of::<T>()), _elem: PhantomData }
    }
}

impl<T> SendPtrMut<T> {
    /// The address held.
    pub closed spec fn addr(self) -> usize {
        self.addr
    }

    pub fn new(ptr: usize) -> (r: Self)
        ensures
            r.addr() == ptr,
    {
        SendPtrMut { addr: ptr, _elem: PhantomData }
    }

    pub fn null() -> (r: Self)
        ensures
            r.addr() == 0,
    {
        SendPtrMut { addr: 0, _elem: PhantomData }
    }

    pub fn get(&self) -> (r: usize)
        ensures
            r == self.addr(),
    {
        self.addr
    }

    /// The same address, seen as the place of a `U`.
    pub fn cast<U>(&self) -> (r: SendPtrMut<U>)
        ensures
            r.addr() == self.addr(),
    {
        SendPtrMut { addr: self.addr, _elem: PhantomData }
    }

    pub fn cast_const(&self) -> (r: SendPtr<T>)
        ensures
            r.addr() == self.addr(),
    {
        SendPtr { addr: self.addr, _elem: PhantomData }
    }

    /// The address `count` elements further on (back, where `count` is
    /// negative).
    pub fn offset(&self, count: isize) -> (r: Self)
        requires
            offset_in_bounds(self.addr(), count as int, size_of::<T>()),
        ensures
            r.addr() == offset_addr(self.addr(), count as int, size_of::<T>()),
    {
        SendPtrMut {
            addr: offset_address(self.addr, count, core::mem::size_of::<T>()),
            _elem: PhantomData,
        }
    }
}

impl<T> Default for SendPtr<T> {
    fn default() -> (r: Self)
        ensures
            r.addr() == 0,
    {
        Self::null()
    }
}

impl<T> Default for SendPtrMut<T> {
    fn default() -> (r: Self)
        ensures
            r.addr() == 0,
    {
        Self::null()
    }
}

/// An address that stands for a registration still in force. Its owner has to
/// bring it back to null before letting go of it: `may_drop` says whether that
/// has happened.
pub struct UndropPtr<T> {
    addr: usize,
    _elem: PhantomData<T>,
}

impl<T> UndropPtr<T> {
    /// The address held; 0 once the registration is over.
    pub closed spec fn addr(self) -> usize {
        self.addr
    }

    pub fn new(ptr: usize) -> (r: Self)
        ensures
            r.addr() == ptr,
    {
        UndropPtr { addr: ptr, _elem: PhantomData }
    }

    pub fn null() -> (r: Self)
        ensures
            r.addr() == 0,
    {
        UndropPtr { addr: 0, _elem: PhantomData }
    }

    pub fn get(&self) -> (r: usize)
        ensures
            r == self.addr(),
    {
        self.addr
    }

    /// A second handle on the same address, seen as the place of a `U`. Both
    /// handles then stand for the registration, and both have to be reset.
    pub fn cast<U>(&self) -> (r: UndropPtr<U>)
        ensures
            r.addr() == self.addr(),
    {
        UndropPtr { addr: self.addr, _elem: PhantomData }
    }

    /// Ends this handle's claim: afterwards it is null and may be dropped.
    pub fn reset(&mut self)
        ensures
            final(self).addr() == 0,
    {
        self.addr = 0;
    }

    /// Whether the handle may be let go of: only a null handle may.
    pub fn may_drop(&self) -> (r: bool)
        ensures
            r == (self.addr() == 0),
    {
        self.addr == 0
    }
}

impl<T> Default for UndropPtr<T> {
    fn default() -> (r: Self)
        ensures
            r.addr() == 0,
    {
        Self::null()
    }
}

} // verus!
