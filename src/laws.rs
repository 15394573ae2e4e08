//! Properties that hold across the container's operations.

use vstd::prelude::*;

use crate::containers::{
    adopted, can_take_vec, can_view, can_view_mut, wrapped_mutable, wrapped_readonly,
    ContainerView, RustyDataContainer,
};
use crate::region::ConversionType;

verus! {

/// A container built from a vector of elements `v` may give its vector back
/// as a `Vec<T>`, with the element type it was built with, and what it gives
/// back is exactly `v`.
pub proof fn lemma_round_trip<T: ConversionType>(c: RustyDataContainer, v: Seq<T>)
    requires
        c.wf(),
        adopted(c@, T::spec_dtype(), v.len()),
        c.elements::<T>() == v,
    ensures
        can_take_vec::<T>(c@),
        c.elements::<T>() == v,
        c@.nitems == v.len(),
{
}

/// A writable view is not allowed of a container that borrows its region
/// for reading, and is allowed, for its own element type, of one that
/// borrows it mutably or owns it.
pub proof fn lemma_mutability<T: ConversionType>(n: nat, address: nat, v: ContainerView)
    ensures
        !can_view_mut::<T>(wrapped_readonly(T::spec_dtype(), n, address)),
        can_view_mut::<T>(wrapped_mutable(T::spec_dtype(), n, address)),
        adopted(v, T::spec_dtype(), n) ==> can_view_mut::<T>(v),
{
}

/// What was written through a writable view is what a later read-only view
/// of the same container shows. `before` is the container when the writable
/// view was granted, `after` the container once the view, holding `written`,
/// has been given up.
pub proof fn lemma_writes_visible<T: ConversionType>(
    before: RustyDataContainer,
    after: RustyDataContainer,
    written: Seq<T>,
)
    requires
        before.wf(),
        can_view_mut::<T>(before@),
        after@ == before@,
        after.elements::<T>() == written,
    ensures
        can_view::<T>(after@),
        after.elements::<T>() == written,
{
}

/// No view and no conversion is allowed that names an element type other
/// than the container's.
pub proof fn lemma_dtype_mismatch<T: ConversionType>(v: ContainerView)
    requires
        v.dtype != T::spec_dtype(),
    ensures
        !can_view::<T>(v),
        !can_view_mut::<T>(v),
        !can_take_vec::<T>(v),
{
}

} // verus!
