//! The ordered map type of the `indexmap` crate, as the verifier sees it: an
//! opaque value whose contents are described by the wrappers that use it.
use vstd::prelude::*;

use indexmap::IndexMap;

verus! {

/// `indexmap::IndexMap`, declared opaque.
#[verifier::external_type_specification]
#[verifier::external_body]
#[verifier::reject_recursive_types(K)]
#[verifier::reject_recursive_types(V)]
#[verifier::reject_recursive_types(S)]
pub struct ExIndexMap<K, V, S>(IndexMap<K, V, S>);

} // verus!
