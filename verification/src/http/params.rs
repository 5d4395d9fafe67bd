//! The query parameters of a request, kept in a fixed-capacity vector so that
//! assembling a request allocates nothing for the list itself.

use arrayvec::ArrayVec;
use vstd::prelude::*;

verus! {

/// `ArrayVec` of the crate `arrayvec`: a vector of at most `CAP` elements
/// that are stored inline. Nothing is claimed of what is inside it but
/// through [`query_pairs`].
#[verifier::external_type_specification]
#[verifier::external_body]
#[verifier::reject_recursive_types(T)]
pub struct ExArrayVec<T, const CAP: usize>(ArrayVec<T, CAP>);

/// The most query parameters that a request can have.
pub const MAX_PARAMS: usize = 7;

/// The query parameters of a request: pairs of a name and a value, in the
/// order in which they are written into the address.
pub type QueryParams = ArrayVec<(&'static str, String), 7>;

/// The pairs that a list of query parameters holds, in order, each as the
/// text of its name and the text of its value.
pub uninterp spec fn query_pairs(params: ArrayVec<(&'static str, String), 7>) -> Seq<
    (Seq<char>, Seq<char>),
>;

/// One pair if there is a value, none if there is not: how an optional
/// parameter enters a query.
pub open spec fn optional_pair(
    name: Seq<char>,
    value: Option<Seq<char>>,
) -> Seq<(Seq<char>, Seq<char>)> {
    match value {
        Some(v) => seq![(name, v)],
        None => Seq::empty(),
    }
}

/// An empty list of query parameters.
///
/// Calls `ArrayVec::new`, which gives a vector without elements.
#[verifier::external_body]
pub(crate) fn params_new() -> (p: QueryParams)
    ensures
        query_pairs(p) == Seq::<(Seq<char>, Seq<char>)>::empty(),
{
    ArrayVec::new()
}

/// Appends a parameter to the list.
///
/// Calls `ArrayVec::push`, which puts the element at the end and panics if
/// the vector is full; so the list must hold fewer than seven.
#[verifier::external_body]
pub(crate) fn params_push(p: &mut QueryParams, name: &'static str, value: String)
    requires
        query_pairs(*old(p)).len() < MAX_PARAMS,
    ensures
        query_pairs(*final(p)) == query_pairs(*old(p)).push((name@, value@)),
{
    p.push((name, value))
}

/// The parameters of the list as a slice.
///
/// Calls `ArrayVec::as_slice`, which gives the elements in order.
#[verifier::external_body]
pub(crate) fn params_slice(p: &QueryParams) -> (s: &[(&'static str, String)])
    ensures
        s@.len() == query_pairs(*p).len(),
        forall|i: int| 0 <= i < s@.len()
            ==> (#[trigger] s@[i]).0@ == query_pairs(*p)[i].0 && s@[i].1@ == query_pairs(*p)[i].1,
{
    p.as_slice()
}

} // verus!
