use crate::coll::traits::{gathered, CollDevice};
use crate::rma::ptr::{
    SimpleLocalAttach, SimpleLocalPtrMut, SimpleProcRemotePtrMut, SimpleRemotePtrMut,
};
use crate::rma::traits::{
    RmaDevice, RmaKeys, RmaLocalAttach, RmaLocalPtrMut, RmaPointable, RmaProcRemotePtrMut, RmaPtr,
    RmaRemotePtrMut,
};
use crate::traits::{ComBaseDevice, ComDevice};
use crate::util::ptr::{offset_addr, offset_in_bounds, signed_of, SendPtr, SendPtrMut};
use crate::ProcInt;
use vstd::layout::size_of;
use vstd::prelude::*;

verus! {

/// Whether `size` elements of `elem` bytes from `base` on are a region that a
/// process can hold: it is no larger than the largest object, and it ends
/// inside the address space.
pub open spec fn region_ok(base: usize, size: usize, elem: nat) -> bool {
    size * elem <= isize::MAX && base + size * elem <= usize::MAX
}

/// Tests `region_ok`.
pub fn region_fits(base: usize, size: usize, elem: usize) -> (r: bool)
    ensures
        r == region_ok(base, size, elem as nat),
{
    if elem == 0 {
        assert(size * elem == 0) by (nonlinear_arith)
            requires
                elem == 0,
        ;
        true
    } else if size > isize::MAX as usize / elem {
        assert(size * elem > isize::MAX) by (nonlinear_arith)
            requires
                elem > 0,
                size > isize::MAX as usize / elem,
        ;
        false
    } else {
        assert(size * elem <= isize::MAX) by (nonlinear_arith)
            requires
                elem > 0,
                size <= isize::MAX as usize / elem,
        ;
        size * elem <= usize::MAX - base
    }
}

/// A table of remote pointers as plain values: for each process the address
/// and the remote key.
pub open spec fn entries<D: RmaKeys, T: RmaPointable>(
    ptrs: Seq<SimpleRemotePtrMut<T, D>>,
) -> Seq<(usize, D::RemoteKey)> {
    ptrs.map_values(|p: SimpleRemotePtrMut<T, D>| (p.addr(), p.tag()))
}

/// Whether every pointer of a table starts a region of `size` elements that a
/// process can hold.
pub open spec fn table_ok<D: RmaKeys, T: RmaPointable>(
    ptrs: Seq<SimpleRemotePtrMut<T, D>>,
    size: usize,
) -> bool {
    forall|p: int| 0 <= p < ptrs.len() ==> region_ok(#[trigger] ptrs[p].addr(), size, size_of::<T>())
}

/// Tests `table_ok`.
pub fn table_fits<D: RmaKeys, T: RmaPointable>(
    ptrs: &Vec<SimpleRemotePtrMut<T, D>>,
    size: usize,
) -> (r: bool)
    ensures
        r == table_ok(ptrs@, size),
{
    let elem = core::mem::size_of::<T>();
    let mut p: usize = 0;
    while p < ptrs.len()
        invariant
            p <= ptrs.len(),
            elem == size_of::<T>(),
            forall|q: int| 0 <= q < p ==> region_ok(#[trigger] ptrs@[q].addr(), size, size_of::<T>()),
        decreases ptrs.len() - p,
    {
        if !region_fits(ptrs[p].ptr(), size, elem) {
            return false;
        }
        p += 1;
    }
    true
}

/// Symmetric memory: every process of the group holds a buffer of the same
/// size, and each holds, for every process, a pointer to that process's
/// buffer. The buffer itself is raw memory that the network writes into; its
/// owner keeps it alive from before `coll_new` until after `detach`.
pub struct AlltoallMem<D: ComDevice, T: RmaPointable + Default + Clone> {
    size: usize,
    la: SimpleLocalAttach<T, D>,
    ptrs: Vec<SimpleRemotePtrMut<T, D>>,
}

/// A symmetric memory in the making: the transport has been asked to register
/// the buffer.
pub struct Attaching<D: ComDevice, T: RmaPointable + Default + Clone> {
    base: SendPtrMut<T>,
    size: usize,
    _dev: core::marker::PhantomData<D>,
}

/// A symmetric memory in the making: the buffer is registered, and the
/// pointers to it are to be gathered from all processes.
pub struct Gathering<D: ComDevice, T: RmaPointable + Default + Clone> {
    size: usize,
    procs: ProcInt,
    la: SimpleLocalAttach<T, D>,
}

impl<D: ComDevice, T: RmaPointable + Default + Clone> Attaching<D, T> {
    /// Where the buffer starts.
    pub closed spec fn base(&self) -> usize {
        self.base.addr()
    }

    /// The number of elements in the buffer.
    pub closed spec fn size(&self) -> usize {
        self.size
    }

    #[verifier::type_invariant]
    spec fn wf(self) -> bool {
        self.base.addr() != 0 && region_ok(self.base.addr(), self.size, size_of::<T>())
    }

    /// Takes in the transport's answer to the registration. Where it made
    /// the registration, the pointers are next to be gathered; where it
    /// refused, there is nothing to undo.
    pub fn attached(self, dev: &D, reply: Result<(), D::Error>) -> (r: Result<
        Gathering<D, T>,
        D::Error,
    >)
        ensures
            match reply {
                Ok(_) => r is Ok && r->Ok_0.own() == (
                    self.base(),
                    dev.attach_keys(self.base()).1,
                ) && r->Ok_0.lkey() == dev.attach_keys(self.base()).0 && r->Ok_0.size()
                    == self.size() && r->Ok_0.num_procs() == dev.spec_num_procs(),
                Err(e) => r == Err::<Gathering<D, T>, D::Error>(e),
            },
    {
        proof {
            use_type_invariant(&self);
        }
        match dev.attached(self.base, reply) {
            Ok(la) => Ok(Gathering { size: self.size, procs: dev.num_procs(), la }),
            Err(e) => Err(e),
        }
    }
}

impl<D: ComDevice, T: RmaPointable + Default + Clone> Gathering<D, T> {
    /// This process's entry in every table: where its buffer starts and the
    /// remote key of the registration.
    pub closed spec fn own(&self) -> (usize, D::RemoteKey) {
        (self.la.addr(), self.la.rkey())
    }

    /// The local key of the registration.
    pub closed spec fn lkey(&self) -> D::LocalKey {
        self.la.lkey()
    }

    /// The number of elements in the buffer.
    pub closed spec fn size(&self) -> usize {
        self.size
    }

    /// The number of processes in the group.
    pub closed spec fn num_procs(&self) -> ProcInt {
        self.procs
    }

    #[verifier::type_invariant]
    spec fn wf(self) -> bool {
        self.la.addr() != 0 && region_ok(self.la.addr(), self.size, size_of::<T>())
    }

    /// The pointer that this process contributes to the gather: the remote
    /// pointer to its own buffer.
    pub fn send(&self) -> (r: SimpleRemotePtrMut<T, D>)
        ensures
            (r.addr(), r.tag()) == self.own(),
    {
        self.la.rptr_mut()
    }

    /// A table to gather into: one null pointer for each process.
    pub fn table(&self) -> (r: Vec<SimpleRemotePtrMut<T, D>>)
        ensures
            r@.len() == self.num_procs(),
            forall|p: int| 0 <= p < r@.len() ==> (#[trigger] r@[p]).addr() == 0,
    {
        let mut ptrs: Vec<SimpleRemotePtrMut<T, D>> = Vec::new();
        let mut p: usize = 0;
        while p < self.procs
            invariant
                p <= self.procs,
                ptrs@.len() == p,
                forall|q: int| 0 <= q < ptrs@.len() ==> (#[trigger] ptrs@[q]).addr() == 0,
            decreases self.procs - p,
        {
            ptrs.push(SimpleRemotePtrMut::default());
            p += 1;
        }
        ptrs
    }

    /// The gather of the pointers: one goes out from `send`, and one from
    /// each process comes in at `recv`, which is a table made by `table`.
    pub fn allgather(
        &self,
        dev: &D,
        send: SendPtr<SimpleRemotePtrMut<T, D>>,
        recv: SendPtrMut<SimpleRemotePtrMut<T, D>>,
    ) -> (call: D::Allgather)
        requires
            dev.spec_num_procs() == self.num_procs(),
            dev.allgather_ok(1, size_of::<SimpleRemotePtrMut<T, D>>()),
        ensures
            call == dev.allgather_call(
                send.addr(),
                1,
                recv.addr(),
                size_of::<SimpleRemotePtrMut<T, D>>(),
            ),
    {
        dev.allgather(send, 1, recv, self.procs)
    }

    /// Takes in the outcome of the gather and the table it filled. Where the
    /// gather went well the memory is complete. Where it failed, the buffer
    /// is still registered: the record comes back with the error, to be
    /// detached.
    pub fn gathered(self, reply: Result<(), D::Error>, ptrs: Vec<SimpleRemotePtrMut<T, D>>) -> (r:
        Result<AlltoallMem<D, T>, (D::Error, SimpleLocalAttach<T, D>)>)
        requires
            reply is Ok ==> ptrs@.len() == self.num_procs() && table_ok(ptrs@, self.size()),
        ensures
            match reply {
                Ok(_) => r is Ok && r->Ok_0.table() == entries(ptrs@) && r->Ok_0.own()
                    == self.own() && r->Ok_0.lkey() == self.lkey() && r->Ok_0.size()
                    == self.size(),
                Err(e) => r is Err && r->Err_0.0 == e && r->Err_0.1.is_attached() && (
                    r->Err_0.1.addr(),
                    r->Err_0.1.rkey(),
                ) == self.own() && r->Err_0.1.lkey() == self.lkey(),
            },
    {
        proof {
            use_type_invariant(&self);
        }
        match reply {
            Ok(_) => Ok(AlltoallMem { size: self.size, la: self.la, ptrs }),
            Err(e) => Err((e, self.la)),
        }
    }
}

impl<D: ComDevice, T: RmaPointable + Default + Clone> AlltoallMem<D, T> {
    /// The table: for each process, where its buffer starts and the remote
    /// key of its registration.
    pub closed spec fn table(&self) -> Seq<(usize, D::RemoteKey)> {
        entries(self.ptrs@)
    }

    /// This process's own entry: where its buffer starts and the remote key
    /// of its registration.
    pub closed spec fn own(&self) -> (usize, D::RemoteKey) {
        (self.la.addr(), self.la.rkey())
    }

    /// The local key of this process's registration.
    pub closed spec fn lkey(&self) -> D::LocalKey {
        self.la.lkey()
    }

    /// The number of elements in each process's buffer.
    pub closed spec fn size(&self) -> usize {
        self.size
    }

    /// Where element `index` of process `proc`'s buffer lies, in that
    /// process's address space.
    pub open spec fn remote_addr(&self, proc: int, index: int) -> int {
        offset_addr(self.table()[proc].0, index, size_of::<T>())
    }

    /// Where element `index` of this process's buffer lies.
    pub open spec fn local_addr(&self, index: int) -> int {
        offset_addr(self.own().0, index, size_of::<T>())
    }

    #[verifier::type_invariant]
    spec fn wf(self) -> bool {
        &&& self.la.addr() != 0
        &&& region_ok(self.la.addr(), self.size, size_of::<T>())
        &&& table_ok(self.ptrs@, self.size)
    }

    /// A buffer to make a symmetric memory over: `size` elements, each a
    /// clone of the default of `T`. Once its address has been handed out it
    /// is raw memory that other processes write to: whoever holds it reads it
    /// through the pointers that `lptr` gives, and keeps it until the memory
    /// is detached.
    pub fn new_buf(size: usize) -> (buf: Vec<T>)
        ensures
            buf@.len() == size,
            exists|d: T|
                call_ensures(T::default, (), d) && forall|i: int|
                    0 <= i < size ==> cloned(d, #[trigger] buf@[i]),
    {
        let d = T::default();
        let mut buf: Vec<T> = Vec::new();
        let mut filled: usize = 0;
        while filled < size
            invariant
                filled <= size,
                buf@.len() == filled,
                forall|i: int| 0 <= i < filled ==> cloned(d, #[trigger] buf@[i]),
            decreases size - filled,
        {
            buf.push(d.clone());
            filled += 1;
        }
        buf
    }

    /// Starts making the symmetric memory over the buffer of `size` elements
    /// at `base`: the transport is to register the buffer. Every process of
    /// the group has to do so, with the same `size`.
    pub fn coll_new(dev: &D, base: SendPtrMut<T>, size: usize) -> (r: (Attaching<D, T>, D::Attach))
        requires
            base.addr() != 0,
            region_ok(base.addr(), size, size_of::<T>()),
            dev.attach_void_ok(base.addr(), (size * size_of::<T>()) as nat),
        ensures
            r.0.base() == base.addr(),
            r.0.size() == size,
            r.1 == dev.attach_void_call(base.addr(), (size * size_of::<T>()) as nat),
    {
        let call = dev.attach(base, size);
        (Attaching { base, size, _dev: core::marker::PhantomData }, call)
    }

    /// The number of processes that the table covers.
    pub fn num_procs(&self) -> (r: ProcInt)
        ensures
            r == self.table().len(),
    {
        self.ptrs.len()
    }

    /// The number of elements in each process's buffer.
    pub fn len(&self) -> (r: usize)
        ensures
            r == self.size(),
    {
        self.size
    }

    /// The pointer to element `index` of process `proc`'s buffer.
    pub fn prptr(&self, proc: ProcInt, index: usize) -> (r: SimpleProcRemotePtrMut<T, D>)
        requires
            proc < self.table().len(),
            index < self.size(),
        ensures
            r.addr() == self.remote_addr(proc as int, index as int),
            r.tag() == (proc, self.table()[proc as int].1),
    {
        proof {
            use_type_invariant(self);
            lemma_index_in_region(self.ptrs@[proc as int].addr(), self.size, index, size_of::<T>());
        }
        SimpleProcRemotePtrMut::new(proc, self.ptrs[proc].add(index))
    }

    /// The pointer to element `index` of this process's own buffer.
    pub fn lptr(&self, index: usize) -> (r: SimpleLocalPtrMut<T, D>)
        requires
            index < self.size(),
        ensures
            r.addr() == self.local_addr(index as int),
            r.tag() == self.lkey(),
    {
        proof {
            use_type_invariant(self);
            lemma_index_in_region(self.la.addr(), self.size, index, size_of::<T>());
        }
        self.la.lptr_mut().add(index)
    }

    /// Ends the memory: the transport is to end the registration of the
    /// buffer. The buffer may be given up once that call has gone well, and
    /// not before.
    pub fn detach(self, dev: &D) -> (call: D::Detach)
        requires
            dev.detach_void_ok(self.own().0, self.lkey(), self.own().1),
        ensures
            call == dev.detach_void_call(self.own().0, self.lkey(), self.own().1),
    {
        proof {
            use_type_invariant(&self);
        }
        dev.detach(self.la)
    }
}

/// Inside a region that a process can hold, the index of an element is the
/// same number read as a signed distance, and the element lies inside the
/// address space.
pub proof fn lemma_index_in_region(base: usize, size: usize, index: usize, elem: nat)
    requires
        region_ok(base, size, elem),
        index < size,
    ensures
        offset_in_bounds(base, signed_of(index), elem),
        offset_addr(base, signed_of(index), elem) == offset_addr(base, index as int, elem),
{
    if elem == 0 {
        assert(signed_of(index) * elem == 0) by (nonlinear_arith)
            requires
                elem == 0,
        ;
        assert(index * elem == 0) by (nonlinear_arith)
            requires
                elem == 0,
        ;
    } else {
        assert(index * elem <= size * elem && index <= size * elem) by (nonlinear_arith)
            requires
                index < size,
                elem >= 1,
        ;
    }
}

/// What a gather of one value from each process leaves: the values, in rank
/// order.
pub proof fn lemma_gathered_one_each<A>(values: Seq<A>, upto: int)
    requires
        0 <= upto <= values.len(),
    ensures
        gathered(Seq::new(upto as nat, |q: int| seq![values[q]])) == values.take(upto),
    decreases upto,
{
    let one_each = Seq::new(upto as nat, |q: int| seq![values[q]]);
    if upto == 0 {
        assert(one_each.flatten() =~= values.take(upto));
    } else {
        let before = Seq::new((upto - 1) as nat, |q: int| seq![values[q]]);
        lemma_gathered_one_each(values, upto - 1);
        assert(one_each =~= before.push(seq![values[upto - 1]]));
        before.lemma_flatten_push(seq![values[upto - 1]]);
        assert(one_each.flatten() =~= values.take(upto));
    }
}

/// Whether the memories of a group, listed by rank, were made together: the
/// table of each is what the gather of every member's own entry leaves.
pub open spec fn made_together<D: ComDevice, T: RmaPointable + Default + Clone>(
    group: Seq<AlltoallMem<D, T>>,
) -> bool {
    forall|p: int|
        0 <= p < group.len() ==> (#[trigger] group[p]).table() == gathered(
            Seq::new(group.len(), |q: int| seq![group[q].own()]),
        )
}

/// In a group whose memories were made together, what `prptr(q, index)`
/// points at on any member `p` is what `lptr(index)` points at on member `q`:
/// the same address in the same process, under the key of `q`'s
/// registration.
pub proof fn lemma_prptr_is_lptr_there<D: ComDevice, T: RmaPointable + Default + Clone>(
    group: Seq<AlltoallMem<D, T>>,
    p: int,
    q: int,
    index: int,
)
    requires
        made_together(group),
        0 <= p < group.len(),
        0 <= q < group.len(),
    ensures
        group[p].table().len() == group.len(),
        group[p].table()[q] == group[q].own(),
        group[p].remote_addr(q, index) == group[q].local_addr(index),
{
    let own = Seq::new(group.len(), |r: int| group[r].own());
    lemma_gathered_one_each(own, own.len() as int);
    assert(Seq::new(own.len(), |r: int| seq![own[r]]) =~= Seq::new(
        group.len(),
        |r: int| seq![group[r].own()],
    ));
    assert(own.take(own.len() as int) =~= own);
    assert(group[p].table() == own);
}

} // verus!
