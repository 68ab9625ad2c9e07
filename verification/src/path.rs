//! The path type of the standard library, made known to the verifier.

use vstd::prelude::*;

verus! {

/// [`std::path::Path`], which every path-like value can be borrowed as.
///
/// Nothing is stated of it: a path is only ever handed on, never inspected.
#[verifier::external_type_specification]
#[verifier::external_body]
pub struct ExPath(std::path::Path);

} // verus!
