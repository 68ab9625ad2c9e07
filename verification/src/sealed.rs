//! The seal of the extension trait.

use vstd::prelude::*;

verus! {

/// Supertrait of the extension trait, out of reach for other crates.
pub trait Sealed {}

impl<P: ?Sized> Sealed for P {}

} // verus!
