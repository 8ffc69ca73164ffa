use vstd::prelude::*;

verus! {

/// A handle of the transport, wrapped so that it can go wherever the task
/// that holds it goes.
pub struct UnsafeSend<T: Copy>(T);

impl<T: Copy> Clone for UnsafeSend<T> {
    fn clone(&self) -> (r: Self)
        ensures
            r == *self,
    {
        *self
    }
}

impl<T: Copy> Copy for UnsafeSend<T> {

}

impl<T: Copy> View for UnsafeSend<T> {
    type V = T;

    closed spec fn view(&self) -> T {
        self.0
    }
}

impl<T: Copy> UnsafeSend<T> {
    pub fn new(arg: T) -> (r: Self)
        ensures
            r@ == arg,
    {
        UnsafeSend(arg)
    }

    pub fn get(&self) -> (r: T)
        ensures
            r == self@,
    {
        self.0
    }

    pub fn as_ref(&self) -> (r: &T)
        ensures
            *r == self@,
    {
        &self.0
    }

    pub fn as_mut(&mut self) -> (r: &mut T)
        ensures
            *r == old(self)@,
            final(self)@ == *final(r),
    {
        &mut self.0
    }
}

impl<T: Copy> From<T> for UnsafeSend<T> {
    fn from(arg: T) -> (r: Self) {
        UnsafeSend(arg)
    }
}

impl<T: Copy> vstd::std_specs::convert::FromSpecImpl<T> for UnsafeSend<T> {
    open spec fn obeys_from_spec() -> bool {
        true
    }

    closed spec fn from_spec(arg: T) -> Self {
        UnsafeSend(arg)
    }
}

/// What `from` makes holds what it was made from.
pub proof fn lemma_from_holds<T: Copy>(arg: T)
    ensures
        <UnsafeSend<T> as vstd::std_specs::convert::FromSpec<T>>::from_spec(arg)@ == arg,
{
}

} // verus!
