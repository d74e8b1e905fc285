//! Hashing arbitrary bytes into the scalar field.

use vstd::prelude::*;
use crate::group::{h2s_of, sc_hash_to_scalar, Scalar};

verus! {

/// A field element type whose values can be derived by hashing arbitrary
/// bytes under the curve's domain-separation tag.
pub trait ScalarHash: View<V = Seq<u8>> + Sized {
    /// Hash arbitrary bytes to a field element.
    fn hash_to_scalar(bytes: &Vec<u8>) -> (r: Self)
        ensures
            r@ == h2s_of(bytes@),
    ;
}

impl ScalarHash for Scalar {
    fn hash_to_scalar(bytes: &Vec<u8>) -> (r: Scalar) {
        sc_hash_to_scalar(bytes)
    }
}

} // verus!
