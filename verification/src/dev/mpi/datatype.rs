use vstd::layout::{layout_of_primitives, size_of};
use vstd::prelude::*;

verus! {

/// The element types the transport knows how to move and to reduce.
#[derive(Clone, Copy, Debug, PartialEq, Eq, Structural)]
pub enum Datatype {
    Int8,
    Int16,
    Int32,
    Int64,
    Uint8,
    Uint16,
    Uint32,
    Uint64,
    Float,
    Double,
}

impl Datatype {
    /// The number of bytes one element takes.
    pub open spec fn size(self) -> nat {
        match self {
            Datatype::Int8 | Datatype::Uint8 => 1,
            Datatype::Int16 | Datatype::Uint16 => 2,
            Datatype::Int32 | Datatype::Uint32 | Datatype::Float => 4,
            Datatype::Int64 | Datatype::Uint64 | Datatype::Double => 8,
        }
    }
}

/// The signed integer datatype of `size` bytes, for the sizes that have one:
/// 1, 2, 4 and 8.
pub open spec fn datatype_of_size(size: nat) -> Option<Datatype> {
    if size == 1 {
        Some(Datatype::Int8)
    } else if size == 2 {
        Some(Datatype::Int16)
    } else if size == 4 {
        Some(Datatype::Int32)
    } else if size == 8 {
        Some(Datatype::Int64)
    } else {
        None
    }
}

/// Looks up the datatype by which an element of `size` bytes is moved as one
/// unit.
pub fn datatype_for_size(size: usize) -> (r: Option<Datatype>)
    ensures
        r == datatype_of_size(size as nat),
{
    if size == 1 {
        Some(Datatype::Int8)
    } else if size == 2 {
        Some(Datatype::Int16)
    } else if size == 4 {
        Some(Datatype::Int32)
    } else if size == 8 {
        Some(Datatype::Int64)
    } else {
        None
    }
}

/// Get the datatype based on the size of `T`. `T` has to be 1, 2, 4 or 8
/// bytes wide.
pub fn get_datatype_from_size<T>() -> (r: Datatype)
    requires
        datatype_of_size(size_of::<T>()) is Some,
    ensures
        Some(r) == datatype_of_size(size_of::<T>()),
{
    datatype_for_size(core::mem::size_of::<T>()).unwrap()
}

/// Whatever size has a datatype has one of that size.
pub proof fn lemma_datatype_of_size_fits(size: nat)
    ensures
        datatype_of_size(size) matches Some(datatype) ==> datatype.size() == size,
        datatype_of_size(size) is Some <==> size == 1 || size == 2 || size == 4 || size == 8,
{
}

/// An element type that the transport knows as one of its datatypes.
pub trait Equivalence: Copy {
    /// The datatype that stands for `Self`.
    spec fn equivalent_datatype() -> Datatype;

    fn datatype() -> (r: Datatype)
        ensures
            r == Self::equivalent_datatype(),
    ;

    /// The datatype is as wide as the type.
    proof fn lemma_equivalent_size()
        ensures
            Self::equivalent_datatype().size() == size_of::<Self>(),
    ;
}

impl Equivalence for i8 {
    open spec fn equivalent_datatype() -> Datatype {
        Datatype::Int8
    }

    fn datatype() -> (r: Datatype) {
        Datatype::Int8
    }

    proof fn lemma_equivalent_size() {
        broadcast use layout_of_primitives;

    }
}

impl Equivalence for i16 {
    open spec fn equivalent_datatype() -> Datatype {
        Datatype::Int16
    }

    fn datatype() -> (r: Datatype) {
        Datatype::Int16
    }

    proof fn lemma_equivalent_size() {
        broadcast use layout_of_primitives;

    }
}

impl Equivalence for i32 {
    open spec fn equivalent_datatype() -> Datatype {
        Datatype::Int32
    }

    fn datatype() -> (r: Datatype) {
        Datatype::Int32
    }

    proof fn lemma_equivalent_size() {
        broadcast use layout_of_primitives;

    }
}

impl Equivalence for i64 {
    open spec fn equivalent_datatype() -> Datatype {
        Datatype::Int64
    }

    fn datatype() -> (r: Datatype) {
        Datatype::Int64
    }

    proof fn lemma_equivalent_size() {
        broadcast use layout_of_primitives;

    }
}

impl Equivalence for u8 {
    open spec fn equivalent_datatype() -> Datatype {
        Datatype::Uint8
    }

    fn datatype() -> (r: Datatype) {
        Datatype::Uint8
    }

    proof fn lemma_equivalent_size() {
        broadcast use layout_of_primitives;

    }
}

impl Equivalence for u16 {
    open spec fn equivalent_datatype() -> Datatype {
        Datatype::Uint16
    }

    fn datatype() -> (r: Datatype) {
        Datatype::Uint16
    }

    proof fn lemma_equivalent_size() {
        broadcast use layout_of_primitives;

    }
}

impl Equivalence for u32 {
    open spec fn equivalent_datatype() -> Datatype {
        Datatype::Uint32
    }

    fn datatype() -> (r: Datatype) {
        Datatype::Uint32
    }

    proof fn lemma_equivalent_size() {
        broadcast use layout_of_primitives;

    }
}

impl Equivalence for u64 {
    open spec fn equivalent_datatype() -> Datatype {
        Datatype::Uint64
    }

    fn datatype() -> (r: Datatype) {
        Datatype::Uint64
    }

    proof fn lemma_equivalent_size() {
        broadcast use layout_of_primitives;

    }
}

/// Get the datatype that stands for `T`.
pub fn get_datatype<T: Equivalence>() -> (r: Datatype)
    ensures
        r == T::equivalent_datatype(),
        r.size() == size_of::<T>(),
{
    proof {
        T::lemma_equivalent_size();
    }
    T::datatype()
}

} // verus!
