//! The data container: a handle that describes a typed array together with
//! its length, element size, capacity, ownership and mutability.
//!
//! A container either owns its region (built from a `Vec`) or borrows it
//! (built from a slice). Only an owning container releases its region, and
//! only a mutable one hands out a writable view. A typed view or conversion
//! names its element type, which must be the container's own; asking for a
//! view or a conversion that the container does not allow is a caller error,
//! excluded by the preconditions.
//!
//! A container is not synchronised: callers that share one between threads
//! provide their own exclusion.

use vstd::prelude::*;

use crate::region::{ConversionType, Region, Store};
use crate::types::{get_itemsize, spec_itemsize, DTYPE, MUTABILITY, OWNERSHIP};

verus! {

/// The metadata of a container, as seen by both sides of the boundary.
pub struct ContainerView {
    pub nitems: nat,
    pub itemsize: nat,
    pub capacity: nat,
    pub dtype: DTYPE,
    pub is_owner: OWNERSHIP,
    pub is_mutable: MUTABILITY,
    pub address: nat,
}

/// A data container for communication with a C ABI.
pub struct RustyDataContainer<'a> {
    /// The number of elements.
    nitems: usize,
    /// The size in bytes of each element.
    itemsize: usize,
    /// The number of elements the region has room for.
    capacity: usize,
    /// The element type.
    dtype: DTYPE,
    /// Whether the container releases the region when destroyed.
    is_owner: OWNERSHIP,
    /// Whether the region may be written through the container.
    is_mutable: MUTABILITY,
    /// The address of the first element of the region.
    addr: usize,
    /// The region itself.
    data: Store<'a>,
}

/// Relies on Vec::capacity: a vector has room for at least the elements it holds.
#[verifier::external_body]
fn vec_capacity<T>(v: &Vec<T>) -> (r: usize)
    ensures
        r >= v@.len(),
{
    v.capacity()
}

/// Relies on slice::as_ptr: the data pointer of a slice is never null, even
/// for an empty slice.
#[verifier::external_body]
fn slice_address<T>(s: &[T]) -> (r: usize)
    ensures
        r != 0,
{
    s.as_ptr() as usize
}

impl<'a> View for RustyDataContainer<'a> {
    type V = ContainerView;

    closed spec fn view(&self) -> ContainerView {
        ContainerView {
            nitems: self.nitems as nat,
            itemsize: self.itemsize as nat,
            capacity: self.capacity as nat,
            dtype: self.dtype,
            is_owner: self.is_owner,
            is_mutable: self.is_mutable,
            address: self.addr as nat,
        }
    }
}

impl<'a> RustyDataContainer<'a> {
    /// The metadata agrees with the region: its length, element type and
    /// size, room, and the way the region is held.
    pub closed spec fn wf(self) -> bool {
        &&& self.nitems as nat == self.data.len()
        &&& self.itemsize as nat == spec_itemsize(self.dtype)
        &&& self.data.dtype() == self.dtype
        &&& self.nitems <= self.capacity
        &&& (self.is_owner == OWNERSHIP::Owner) == self.data.is_owned()
        &&& (self.is_mutable == MUTABILITY::NotMutable) == self.data.is_shared()
        &&& !self.data.is_owned() ==> self.capacity == self.nitems
        &&& self.addr != 0
    }

    /// The elements of the region, read as `T`; empty when `T` is not the
    /// container's element type.
    pub closed spec fn elements<T: ConversionType>(self) -> Seq<T> {
        match T::spec_region(self.data) {
            Some(r) => r@,
            None => Seq::empty(),
        }
    }

    /// Create a new non-owning and non-mutable container from a given slice.
    pub fn from_slice<T: ConversionType>(slice: &'a [T]) -> (r: Self)
        ensures
            r.wf(),
            r@ == wrapped_readonly(T::spec_dtype(), slice@.len(), r@.address),
            r@.address != 0,
            r.elements::<T>() == slice@,
    {
        let itemsize = get_itemsize(T::dtype());
        let addr = slice_address(slice);
        let data = T::pack(Region::Shared(slice));
        proof {
            T::lemma_region(data);
        }
        RustyDataContainer {
            nitems: slice.len(),
            capacity: slice.len(),
            itemsize,
            dtype: T::dtype(),
            is_owner: OWNERSHIP::NotOwner,
            is_mutable: MUTABILITY::NotMutable,
            addr,
            data,
        }
    }

    /// Create a new non-owning but mutable container from a given slice.
    /// The container holds the caller's slice itself, not a copy; left
    /// unwritten, the slice keeps its contents once the container is done
    /// with.
    pub fn from_slice_mut<T: ConversionType>(slice: &'a mut [T]) -> (r: Self)
        ensures
            r.wf(),
            r@ == wrapped_mutable(T::spec_dtype(), old(slice)@.len(), r@.address),
            r@.address != 0,
            r.elements::<T>() == old(slice)@,
            has_resolved(r) ==> (*final(slice))@ == r.elements::<T>(),
    {
        let itemsize = get_itemsize(T::dtype());
        let nitems = slice.len();
        let addr = slice_address(slice);
        let data = T::pack(Region::Exclusive(slice));
        proof {
            T::lemma_region(data);
        }
        RustyDataContainer {
            nitems,
            capacity: nitems,
            itemsize,
            dtype: T::dtype(),
            is_owner: OWNERSHIP::NotOwner,
            is_mutable: MUTABILITY::Mutable,
            addr,
            data,
        }
    }

    /// Create a new owning and mutable container from a vector.
    /// The vector is consumed by this method; its spare capacity is kept and
    /// recorded, not shrunk away.
    pub fn from_vec<T: ConversionType>(vec: Vec<T>) -> (r: Self)
        ensures
            r.wf(),
            adopted(r@, T::spec_dtype(), vec@.len()),
            r.elements::<T>() == vec@,
    {
        let itemsize = get_itemsize(T::dtype());
        let nitems = vec.len();
        let capacity = vec_capacity(&vec);
        let addr = slice_address(vec.as_slice());
        let data = T::pack(Region::Owned(vec));
        proof {
            T::lemma_region(data);
        }
        RustyDataContainer {
            nitems,
            capacity,
            itemsize,
            dtype: T::dtype(),
            is_owner: OWNERSHIP::Owner,
            is_mutable: MUTABILITY::Mutable,
            addr,
            data,
        }
    }

    /// Create a new owning and mutable container of `nitems` zero elements.
    pub fn new_zeroed<T: ConversionType>(nitems: usize) -> (r: Self)
        ensures
            r.wf(),
            adopted(r@, T::spec_dtype(), nitems as nat),
            r.elements::<T>() == Seq::new(nitems as nat, |i: int| T::spec_zero()),
    {
        let mut vec: Vec<T> = Vec::with_capacity(nitems);
        let mut i: usize = 0;
        while i < nitems
            invariant
                i <= nitems,
                vec@ == Seq::new(i as nat, |j: int| T::spec_zero()),
            decreases nitems - i,
        {
            vec.push(T::zero());
            i = i + 1;
        }
        Self::from_vec(vec)
    }

    /// Take back the vector that an owning container was built from.
    /// The container is consumed by this method.
    pub fn to_vec<T: ConversionType>(self) -> (r: Vec<T>)
        requires
            self.wf(),
            can_take_vec::<T>(self@),
        ensures
            r@ == self.elements::<T>(),
            r@.len() == self@.nitems,
    {
        proof {
            T::lemma_region(self.data);
        }
        match T::unpack(self.data) {
            Some(Region::Owned(v)) => v,
            _ => {
                proof {
                    assert(false);
                }
                Vec::new()
            },
        }
    }

    /// Read-only view of the region as elements of type `T`.
    pub fn as_slice<T: ConversionType>(&self) -> (r: &[T])
        requires
            self.wf(),
            can_view::<T>(self@),
        ensures
            r@ == self.elements::<T>(),
            r@.len() == self@.nitems,
    {
        proof {
            T::lemma_region(self.data);
        }
        match T::unpack_ref(&self.data) {
            Some(region) => region.as_slice(),
            None => {
                proof {
                    assert(false);
                }
                &[]
            },
        }
    }

    /// Writable view of the region as elements of type `T`. Writes through
    /// the view are what the container holds afterwards; the container stays
    /// well formed as long as the view keeps its length.
    pub fn as_slice_mut<T: ConversionType>(&mut self) -> (r: &mut [T])
        requires
            old(self).wf(),
            can_view_mut::<T>(old(self)@),
        ensures
            final(self)@ == old(self)@,
            r@ == old(self).elements::<T>(),
            r@.len() == old(self)@.nitems,
            final(self).elements::<T>() == (*final(r))@,
            (*final(r))@.len() == r@.len() ==> final(self).wf(),
    {
        proof {
            T::lemma_region(self.data);
        }
        match T::unpack_mut(&mut self.data) {
            Some(region) => match region.as_mut_slice() {
                Some(s) => s,
                None => {
                    proof {
                        assert(false);
                    }
                    &mut []
                },
            },
            None => {
                proof {
                    assert(false);
                }
                &mut []
            },
        }
    }

    /// Destroy the container. An owning container releases its region; a
    /// borrowing one leaves the region to its owner. Every borrow that the
    /// container holds has ended once this returns.
    pub fn destroy(self)
        ensures
            has_resolved(self),
    {
    }

    /// The number of elements.
    pub fn nitems(&self) -> (r: usize)
        ensures
            r as nat == self@.nitems,
    {
        self.nitems
    }

    /// The size in bytes of each element.
    pub fn itemsize(&self) -> (r: usize)
        ensures
            r as nat == self@.itemsize,
    {
        self.itemsize
    }

    /// The number of elements the region has room for.
    pub fn capacity(&self) -> (r: usize)
        ensures
            r as nat == self@.capacity,
    {
        self.capacity
    }

    /// The element type.
    pub fn dtype(&self) -> (r: DTYPE)
        ensures
            r == self@.dtype,
    {
        self.dtype
    }

    /// Whether the container owns its region.
    pub fn is_owner(&self) -> (r: OWNERSHIP)
        ensures
            r == self@.is_owner,
    {
        self.is_owner
    }

    /// Whether the region may be written through the container.
    pub fn is_mutable(&self) -> (r: MUTABILITY)
        ensures
            r == self@.is_mutable,
    {
        self.is_mutable
    }

    /// Address of the first element of the region, as recorded when the
    /// container was built.
    pub fn data(&self) -> (r: usize)
        ensures
            r as nat == self@.address,
    {
        self.addr
    }
}

/// A well-formed container records the element size that the size table
/// gives for its element type, and has room for at least its elements; one
/// that borrows its region has room for exactly those.
pub proof fn lemma_metadata(c: RustyDataContainer)
    requires
        c.wf(),
    ensures
        c@.itemsize == spec_itemsize(c@.dtype),
        c@.nitems <= c@.capacity,
        c@.is_owner == OWNERSHIP::NotOwner ==> c@.capacity == c@.nitems,
        c@.address != 0,
{
}

/// Metadata of a container that borrows a region of `n` elements of type
/// `dtype`, at `address`, for reading only.
pub open spec fn wrapped_readonly(dtype: DTYPE, n: nat, address: nat) -> ContainerView {
    ContainerView {
        nitems: n,
        itemsize: spec_itemsize(dtype),
        capacity: n,
        dtype,
        is_owner: OWNERSHIP::NotOwner,
        is_mutable: MUTABILITY::NotMutable,
        address,
    }
}

/// Metadata of a container that borrows a region of `n` elements of type
/// `dtype`, at `address`, for reading and writing.
pub open spec fn wrapped_mutable(dtype: DTYPE, n: nat, address: nat) -> ContainerView {
    ContainerView { is_mutable: MUTABILITY::Mutable, ..wrapped_readonly(dtype, n, address) }
}

/// Metadata of a container that owns a region of `n` elements of type
/// `dtype`, with room for at least those.
pub open spec fn adopted(v: ContainerView, dtype: DTYPE, n: nat) -> bool {
    &&& v.nitems == n
    &&& v.itemsize == spec_itemsize(dtype)
    &&& v.capacity >= n
    &&& v.dtype == dtype
    &&& v.is_owner == OWNERSHIP::Owner
    &&& v.is_mutable == MUTABILITY::Mutable
    &&& v.address != 0
}

/// A container with metadata `v` may be viewed as elements of type `T`:
/// `T` is its element type.
pub open spec fn can_view<T: ConversionType>(v: ContainerView) -> bool {
    v.dtype == T::spec_dtype()
}

/// A container with metadata `v` may be viewed and written as elements of
/// type `T`: it is mutable and `T` is its element type.
pub open spec fn can_view_mut<T: ConversionType>(v: ContainerView) -> bool {
    v.is_mutable == MUTABILITY::Mutable && can_view::<T>(v)
}

/// The vector of a container with metadata `v` may be taken back as a
/// `Vec<T>`: it owns its region and `T` is its element type.
pub open spec fn can_take_vec<T: ConversionType>(v: ContainerView) -> bool {
    v.is_owner == OWNERSHIP::Owner && can_view::<T>(v)
}

} // verus!
