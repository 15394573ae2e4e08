//! Typed regions: the memory a container describes, with the element type
//! kept as a runtime tag.

use vstd::prelude::*;

use crate::types::{Binary32, Binary64, DTYPE};

verus! {

/// A contiguous run of elements and how the container holds it: as its
/// owner, through a shared borrow, or through an exclusive borrow.
pub enum Region<'a, T> {
    Owned(Vec<T>),
    Shared(&'a [T]),
    Exclusive(&'a mut [T]),
}

impl<'a, T> Region<'a, T> {
    /// The elements of the region.
    pub open spec fn view(&self) -> Seq<T> {
        match self {
            Region::Owned(v) => v@,
            Region::Shared(s) => s@,
            Region::Exclusive(s) => (**s)@,
        }
    }

    /// Read-only view of the elements.
    pub fn as_slice<'b>(&'b self) -> (r: &'b [T])
        ensures
            r@ == self@,
    {
        match self {
            Region::Owned(v) => v.as_slice(),
            Region::Shared(s) => s,
            Region::Exclusive(s) => s,
        }
    }

    /// Writable view of the elements; none for a shared borrow. Writes through
    /// the view land in the region, which otherwise keeps its kind.
    pub fn as_mut_slice<'b>(&'b mut self) -> (r: Option<&'b mut [T]>)
        ensures
            (*old(self) is Shared) <==> r is None,
            r is None ==> *final(self) == *old(self),
            r matches Some(s) ==> {
                &&& (*s)@ == old(self)@
                &&& final(self)@ == (*final(s))@
                &&& (*final(self) is Owned) == (*old(self) is Owned)
                &&& (*final(self) is Exclusive) == (*old(self) is Exclusive)
            },
    {
        match self {
            Region::Owned(v) => Some(v.as_mut_slice()),
            Region::Shared(_) => None,
            Region::Exclusive(s) => Some(&mut **s),
        }
    }
}

/// A region whose element type is known only by its tag.
pub enum Store<'a> {
    Float32(Region<'a, Binary32>),
    Float64(Region<'a, Binary64>),
    Unsigned8(Region<'a, u8>),
    Unsigned32(Region<'a, u32>),
    Unsigned64(Region<'a, u64>),
    Int8(Region<'a, i8>),
    Int32(Region<'a, i32>),
    Int64(Region<'a, i64>),
}

impl<'a> Store<'a> {
    /// The element type of the region held.
    pub open spec fn dtype(&self) -> DTYPE {
        match self {
            Store::Float32(_) => DTYPE::Float32,
            Store::Float64(_) => DTYPE::Float64,
            Store::Unsigned8(_) => DTYPE::Unsigned8,
            Store::Unsigned32(_) => DTYPE::Unsigned32,
            Store::Unsigned64(_) => DTYPE::Unsigned64,
            Store::Int8(_) => DTYPE::Int8,
            Store::Int32(_) => DTYPE::Int32,
            Store::Int64(_) => DTYPE::Int64,
        }
    }

    /// Number of elements in the region held.
    pub open spec fn len(&self) -> nat {
        match self {
            Store::Float32(r) => r@.len(),
            Store::Float64(r) => r@.len(),
            Store::Unsigned8(r) => r@.len(),
            Store::Unsigned32(r) => r@.len(),
            Store::Unsigned64(r) => r@.len(),
            Store::Int8(r) => r@.len(),
            Store::Int32(r) => r@.len(),
            Store::Int64(r) => r@.len(),
        }
    }

    /// The region held is owned.
    pub open spec fn is_owned(&self) -> bool {
        match self {
            Store::Float32(r) => r is Owned,
            Store::Float64(r) => r is Owned,
            Store::Unsigned8(r) => r is Owned,
            Store::Unsigned32(r) => r is Owned,
            Store::Unsigned64(r) => r is Owned,
            Store::Int8(r) => r is Owned,
            Store::Int32(r) => r is Owned,
            Store::Int64(r) => r is Owned,
        }
    }

    /// The region held is a shared borrow.
    pub open spec fn is_shared(&self) -> bool {
        match self {
            Store::Float32(r) => r is Shared,
            Store::Float64(r) => r is Shared,
            Store::Unsigned8(r) => r is Shared,
            Store::Unsigned32(r) => r is Shared,
            Store::Unsigned64(r) => r is Shared,
            Store::Int8(r) => r is Shared,
            Store::Int32(r) => r is Shared,
            Store::Int64(r) => r is Shared,
        }
    }
}

/// An element type of the closed set: its tag, its zero, and how its regions
/// are put into and taken out of a [`Store`].
pub trait ConversionType: Sized + 'static {
    /// The tag of this element type.
    spec fn spec_dtype() -> DTYPE;

    /// The region of this element type that `s` holds, if it holds one.
    spec fn spec_region<'a>(s: Store<'a>) -> Option<Region<'a, Self>>;

    /// The zero element.
    spec fn spec_zero() -> Self;

    /// A store holds a region of this type exactly when its tag is this
    /// type's tag, and then that region has the store's length and kind.
    proof fn lemma_region(s: Store)
        ensures
            Self::spec_region(s) is Some <==> s.dtype() == Self::spec_dtype(),
            Self::spec_region(s) matches Some(x) ==> {
                &&& x@.len() == s.len()
                &&& (x is Owned) == s.is_owned()
                &&& (x is Shared) == s.is_shared()
            },
    ;

    /// The tag of this element type.
    fn dtype() -> (r: DTYPE)
        ensures
            r == Self::spec_dtype(),
    ;

    /// The zero element.
    fn zero() -> (r: Self)
        ensures
            r == Self::spec_zero(),
    ;

    /// The store that holds `r`.
    fn pack<'a>(r: Region<'a, Self>) -> (s: Store<'a>)
        ensures
            Self::spec_region(s) == Some(r),
            has_resolved(s) ==> has_resolved(r),
    ;

    /// The region that `s` holds, if it is of this type.
    fn unpack<'a>(s: Store<'a>) -> (r: Option<Region<'a, Self>>)
        ensures
            r == Self::spec_region(s),
    ;

    /// A reference to the region that `s` holds, if it is of this type.
    fn unpack_ref<'a, 'b>(s: &'b Store<'a>) -> (r: Option<&'b Region<'a, Self>>)
        ensures
            r == (match Self::spec_region(*s) {
                Some(x) => Some(&x),
                None => None,
            }),
    ;

    /// A mutable reference to the region that `s` holds, if it is of this
    /// type; what is left in it is what `s` holds afterwards.
    fn unpack_mut<'a, 'b>(s: &'b mut Store<'a>) -> (r: Option<&'b mut Region<'a, Self>>)
        ensures
            r matches Some(x) ==> {
                &&& Self::spec_region(*old(s)) == Some(*x)
                &&& Self::spec_region(*final(s)) == Some(*final(x))
                &&& (*final(s)).dtype() == Self::spec_dtype()
                &&& (*final(s)).len() == (*final(x))@.len()
                &&& (*final(s)).is_owned() == (*final(x) is Owned)
                &&& (*final(s)).is_shared() == (*final(x) is Shared)
            },
            r is None ==> Self::spec_region(*old(s)) is None && *final(s) == *old(s),
    ;
}

impl ConversionType for u8 {
    open spec fn spec_dtype() -> DTYPE {
        DTYPE::Unsigned8
    }

    open spec fn spec_region<'a>(s: Store<'a>) -> Option<Region<'a, u8>> {
        match s {
            Store::Unsigned8(r) => Some(r),
            _ => None,
        }
    }

    open spec fn spec_zero() -> u8 {
        0
    }

    proof fn lemma_region(s: Store) {
    }

    fn dtype() -> DTYPE {
        DTYPE::Unsigned8
    }

    fn zero() -> u8 {
        0
    }

    fn pack<'a>(r: Region<'a, u8>) -> Store<'a> {
        let s = Store::Unsigned8(r);
        assert(has_resolved(s) ==> has_resolved(s->Unsigned8_0));
        s
    }

    fn unpack<'a>(s: Store<'a>) -> Option<Region<'a, u8>> {
        match s {
            Store::Unsigned8(r) => Some(r),
            _ => None,
        }
    }

    fn unpack_ref<'a, 'b>(s: &'b Store<'a>) -> Option<&'b Region<'a, u8>> {
        match s {
            Store::Unsigned8(r) => Some(r),
            _ => None,
        }
    }

    fn unpack_mut<'a, 'b>(s: &'b mut Store<'a>) -> Option<&'b mut Region<'a, u8>> {
        match s {
            Store::Unsigned8(r) => Some(r),
            _ => None,
        }
    }
}

impl ConversionType for Binary32 {
    open spec fn spec_dtype() -> DTYPE {
        DTYPE::Float32
    }

    open spec fn spec_region<'a>(s: Store<'a>) -> Option<Region<'a, Binary32>> {
        match s {
            Store::Float32(r) => Some(r),
            _ => None,
        }
    }

    open spec fn spec_zero() -> Binary32 {
        Binary32(0)
    }

    proof fn lemma_region(s: Store) {
    }

    fn dtype() -> DTYPE {
        DTYPE::Float32
    }

    fn zero() -> Binary32 {
        Binary32(0)
    }

    fn pack<'a>(r: Region<'a, Binary32>) -> Store<'a> {
        let s = Store::Float32(r);
        assert(has_resolved(s) ==> has_resolved(s->Float32_0));
        s
    }

    fn unpack<'a>(s: Store<'a>) -> Option<Region<'a, Binary32>> {
        match s {
            Store::Float32(r) => Some(r),
            _ => None,
        }
    }

    fn unpack_ref<'a, 'b>(s: &'b Store<'a>) -> Option<&'b Region<'a, Binary32>> {
        match s {
            Store::Float32(r) => Some(r),
            _ => None,
        }
    }

    fn unpack_mut<'a, 'b>(s: &'b mut Store<'a>) -> Option<&'b mut Region<'a, Binary32>> {
        match s {
            Store::Float32(r) => Some(r),
            _ => None,
        }
    }
}

impl ConversionType for Binary64 {
    open spec fn spec_dtype() -> DTYPE {
        DTYPE::Float64
    }

    open spec fn spec_region<'a>(s: Store<'a>) -> Option<Region<'a, Binary64>> {
        match s {
            Store::Float64(r) => Some(r),
            _ => None,
        }
    }

    open spec fn spec_zero() -> Binary64 {
        Binary64(0)
    }

    proof fn lemma_region(s: Store) {
    }

    fn dtype() -> DTYPE {
        DTYPE::Float64
    }

    fn zero() -> Binary64 {
        Binary64(0)
    }

    fn pack<'a>(r: Region<'a, Binary64>) -> Store<'a> {
        let s = Store::Float64(r);
        assert(has_resolved(s) ==> has_resolved(s->Float64_0));
        s
    }

    fn unpack<'a>(s: Store<'a>) -> Option<Region<'a, Binary64>> {
        match s {
            Store::Float64(r) => Some(r),
            _ => None,
        }
    }

    fn unpack_ref<'a, 'b>(s: &'b Store<'a>) -> Option<&'b Region<'a, Binary64>> {
        match s {
            Store::Float64(r) => Some(r),
            _ => None,
        }
    }

    fn unpack_mut<'a, 'b>(s: &'b mut Store<'a>) -> Option<&'b mut Region<'a, Binary64>> {
        match s {
            Store::Float64(r) => Some(r),
            _ => None,
        }
    }
}

impl ConversionType for u32 {
    open spec fn spec_dtype() -> DTYPE {
        DTYPE::Unsigned32
    }

    open spec fn spec_region<'a>(s: Store<'a>) -> Option<Region<'a, u32>> {
        match s {
            Store::Unsigned32(r) => Some(r),
            _ => None,
        }
    }

    open spec fn spec_zero() -> u32 {
        0
    }

    proof fn lemma_region(s: Store) {
    }

    fn dtype() -> DTYPE {
        DTYPE::Unsigned32
    }

    fn zero() -> u32 {
        0
    }

    fn pack<'a>(r: Region<'a, u32>) -> Store<'a> {
        let s = Store::Unsigned32(r);
        assert(has_resolved(s) ==> has_resolved(s->Unsigned32_0));
        s
    }

    fn unpack<'a>(s: Store<'a>) -> Option<Region<'a, u32>> {
        match s {
            Store::Unsigned32(r) => Some(r),
            _ => None,
        }
    }

    fn unpack_ref<'a, 'b>(s: &'b Store<'a>) -> Option<&'b Region<'a, u32>> {
        match s {
            Store::Unsigned32(r) => Some(r),
            _ => None,
        }
    }

    fn unpack_mut<'a, 'b>(s: &'b mut Store<'a>) -> Option<&'b mut Region<'a, u32>> {
        match s {
            Store::Unsigned32(r) => Some(r),
            _ => None,
        }
    }
}

impl ConversionType for u64 {
    open spec fn spec_dtype() -> DTYPE {
        DTYPE::Unsigned64
    }

    open spec fn spec_region<'a>(s: Store<'a>) -> Option<Region<'a, u64>> {
        match s {
            Store::Unsigned64(r) => Some(r),
            _ => None,
        }
    }

    open spec fn spec_zero() -> u64 {
        0
    }

    proof fn lemma_region(s: Store) {
    }

    fn dtype() -> DTYPE {
        DTYPE::Unsigned64
    }

    fn zero() -> u64 {
        0
    }

    fn pack<'a>(r: Region<'a, u64>) -> Store<'a> {
        let s = Store::Unsigned64(r);
        assert(has_resolved(s) ==> has_resolved(s->Unsigned64_0));
        s
    }

    fn unpack<'a>(s: Store<'a>) -> Option<Region<'a, u64>> {
        match s {
            Store::Unsigned64(r) => Some(r),
            _ => None,
        }
    }

    fn unpack_ref<'a, 'b>(s: &'b Store<'a>) -> Option<&'b Region<'a, u64>> {
        match s {
            Store::Unsigned64(r) => Some(r),
            _ => None,
        }
    }

    fn unpack_mut<'a, 'b>(s: &'b mut Store<'a>) -> Option<&'b mut Region<'a, u64>> {
        match s {
            Store::Unsigned64(r) => Some(r),
            _ => None,
        }
    }
}

impl ConversionType for i8 {
    open spec fn spec_dtype() -> DTYPE {
        DTYPE::Int8
    }

    open spec fn spec_region<'a>(s: Store<'a>) -> Option<Region<'a, i8>> {
        match s {
            Store::Int8(r) => Some(r),
            _ => None,
        }
    }

    open spec fn spec_zero() -> i8 {
        0
    }

    proof fn lemma_region(s: Store) {
    }

    fn dtype() -> DTYPE {
        DTYPE::Int8
    }

    fn zero() -> i8 {
        0
    }

    fn pack<'a>(r: Region<'a, i8>) -> Store<'a> {
        let s = Store::Int8(r);
        assert(has_resolved(s) ==> has_resolved(s->Int8_0));
        s
    }

    fn unpack<'a>(s: Store<'a>) -> Option<Region<'a, i8>> {
        match s {
            Store::Int8(r) => Some(r),
            _ => None,
        }
    }

    fn unpack_ref<'a, 'b>(s: &'b Store<'a>) -> Option<&'b Region<'a, i8>> {
        match s {
            Store::Int8(r) => Some(r),
            _ => None,
        }
    }

    fn unpack_mut<'a, 'b>(s: &'b mut Store<'a>) -> Option<&'b mut Region<'a, i8>> {
        match s {
            Store::Int8(r) => Some(r),
            _ => None,
        }
    }
}

impl ConversionType for i32 {
    open spec fn spec_dtype() -> DTYPE {
        DTYPE::Int32
    }

    open spec fn spec_region<'a>(s: Store<'a>) -> Option<Region<'a, i32>> {
        match s {
            Store::Int32(r) => Some(r),
            _ => None,
        }
    }

    open spec fn spec_zero() -> i32 {
        0
    }

    proof fn lemma_region(s: Store) {
    }

    fn dtype() -> DTYPE {
        DTYPE::Int32
    }

    fn zero() -> i32 {
        0
    }

    fn pack<'a>(r: Region<'a, i32>) -> Store<'a> {
        let s = Store::Int32(r);
        assert(has_resolved(s) ==> has_resolved(s->Int32_0));
        s
    }

    fn unpack<'a>(s: Store<'a>) -> Option<Region<'a, i32>> {
        match s {
            Store::Int32(r) => Some(r),
            _ => None,
        }
    }

    fn unpack_ref<'a, 'b>(s: &'b Store<'a>) -> Option<&'b Region<'a, i32>> {
        match s {
            Store::Int32(r) => Some(r),
            _ => None,
        }
    }

    fn unpack_mut<'a, 'b>(s: &'b mut Store<'a>) -> Option<&'b mut Region<'a, i32>> {
        match s {
            Store::Int32(r) => Some(r),
            _ => None,
        }
    }
}

impl ConversionType for i64 {
    open spec fn spec_dtype() -> DTYPE {
        DTYPE::Int64
    }

    open spec fn spec_region<'a>(s: Store<'a>) -> Option<Region<'a, i64>> {
        match s {
            Store::Int64(r) => Some(r),
            _ => None,
        }
    }

    open spec fn spec_zero() -> i64 {
        0
    }

    proof fn lemma_region(s: Store) {
    }

    fn dtype() -> DTYPE {
        DTYPE::Int64
    }

    fn zero() -> i64 {
        0
    }

    fn pack<'a>(r: Region<'a, i64>) -> Store<'a> {
        let s = Store::Int64(r);
        assert(has_resolved(s) ==> has_resolved(s->Int64_0));
        s
    }

    fn unpack<'a>(s: Store<'a>) -> Option<Region<'a, i64>> {
        match s {
            Store::Int64(r) => Some(r),
            _ => None,
        }
    }

    fn unpack_ref<'a, 'b>(s: &'b Store<'a>) -> Option<&'b Region<'a, i64>> {
        match s {
            Store::Int64(r) => Some(r),
            _ => None,
        }
    }

    fn unpack_mut<'a, 'b>(s: &'b mut Store<'a>) -> Option<&'b mut Region<'a, i64>> {
        match s {
            Store::Int64(r) => Some(r),
            _ => None,
        }
    }
}

} // verus!
