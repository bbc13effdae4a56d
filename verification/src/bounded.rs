//! Declarations of the fixed-capacity collections of the `heapless` crate
//! that the library's state and results are held in.
//!
//! Verus sees these types as opaque values. What a value holds is given by a
//! name for its contents, declared next to the code that uses each
//! instantiation, and the operations the library calls are wrappers whose
//! contracts speak of those names.

use vstd::prelude::*;

verus! {

/// `heapless::Vec<T, N>`: a vector with inline storage for at most `N` items.
#[verifier::external_type_specification]
#[verifier::external_body]
#[verifier::reject_recursive_types(T)]
pub struct ExHeaplessVec<T, const N: usize>(heapless::Vec<T, N>);

/// `heapless::String<N>`: a UTF-8 string with inline storage for at most
/// `N` bytes.
#[verifier::external_type_specification]
#[verifier::external_body]
pub struct ExHeaplessString<const N: usize>(heapless::String<N>);

} // verus!
