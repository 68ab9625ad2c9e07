//! Loading values from paths.
//!
//! The [`FromPath`] trait is for types whose values can be loaded from paths.
//! The [`load`] function and the [`Load`] extension trait call it where the
//! type to load is known from the context:
//!
//! ```text
//! let content: Content = load("hello-world")?;
//! let extended: Content = "hello-world".load()?;
//! ```
//!
//! Neither adds anything of its own: what they return is what the type's
//! [`from_path`](FromPath::from_path) returned for the path they were given.

use std::path::Path;
use vstd::prelude::*;

mod path;
mod sealed;

verus! {

/// Loading values from paths.
///
/// What loading does (which bytes it reads, how it decodes them, when and how
/// it fails) is the implementing type's business. The trait fixes the shape
/// only: one error type for each implementing type, and one operation from a
/// path-like value to a value of the type or an error of that type.
pub trait FromPath: Sized {
    /// The error returned from [`from_path`](Self::from_path) on failure.
    type Error;

    /// Loads the value of this type from the given path.
    ///
    /// # Errors
    ///
    /// Returns [`Error`](Self::Error) when loading fails.
    fn from_path<P: AsRef<Path>>(path: P) -> Result<Self, Self::Error>;
}

/// Whether `outcome` is a result that `F::from_path` may return for `path`.
///
/// This is the postcondition of `F::from_path` itself, taken at `path` and
/// `outcome`. Loading may read the world outside the program, so a path does
/// not determine its outcome; what is said of [`load`] and [`Load::load`] is
/// said through this relation.
pub open spec fn loaded<F: FromPath, P: AsRef<Path>>(path: P, outcome: Result<F, F::Error>) -> bool {
    call_ensures(F::from_path::<P>, (path,), outcome)
}

/// Loads the value of the given type from the given path.
///
/// This is `F::from_path(path)` with `F` left to inference. The value or the
/// error that comes back is the one `F::from_path` produced for this `path`.
///
/// # Errors
///
/// Returns [`Error`](FromPath::Error) when loading fails.
pub fn load<F: FromPath, P: AsRef<Path>>(path: P) -> (outcome: Result<F, F::Error>)
    ensures
        loaded::<F, P>(path, outcome),
{
    F::from_path(path)
}

/// Loading values from paths (sealed extension trait).
///
/// Every type has this trait and no other crate can implement it; the method
/// is there for the path-like ones, sized or not.
pub trait Load: sealed::Sealed {
    /// Loads the value of type `F` from the path.
    ///
    /// This is [`load`](crate::load) called on `self`.
    ///
    /// # Errors
    ///
    /// Returns [`F::Error`](FromPath::Error) when loading fails.
    fn load<F: FromPath>(&self) -> (outcome: Result<F, F::Error>) where Self: AsRef<Path>
        ensures
            loaded::<F, &Self>(self, outcome),
    ;
}

impl<P: ?Sized> Load for P {
    fn load<F: FromPath>(&self) -> (outcome: Result<F, F::Error>) where Self: AsRef<Path> {
        load(self)
    }
}

/// Whatever [`load`] may return for a path, the type's own `from_path` may
/// return for that path.
pub proof fn lemma_load_passes_through<F: FromPath, P: AsRef<Path>>(
    path: P,
    outcome: Result<F, F::Error>,
)
    requires
        call_ensures(load::<F, P>, (path,), outcome),
    ensures
        loaded::<F, P>(path, outcome),
{
}

/// Whatever the method [`Load::load`] may return on a path-like value is
/// bound by what [`load`] promises for a reference to that value.
pub proof fn lemma_method_agrees_with_load<F: FromPath, P: AsRef<Path> + ?Sized>(
    path: &P,
    outcome: Result<F, F::Error>,
)
    requires
        call_ensures(<P as Load>::load::<F>, (path,), outcome),
    ensures
        loaded::<F, &P>(path, outcome),
{
}

/// Neither [`load`] nor [`Load::load`] fails on its own account: an error
/// that either of them may return is one that the type's `from_path` may
/// return for the same path.
pub proof fn lemma_no_failure_of_its_own<F: FromPath, P: AsRef<Path>>(path: P, error: F::Error)
    ensures
        call_ensures(load::<F, P>, (path,), Err::<F, F::Error>(error)) ==> loaded::<F, P>(
            path,
            Err(error),
        ),
        call_ensures(<P as Load>::load::<F>, (&path,), Err::<F, F::Error>(error)) ==> loaded::<
            F,
            &P,
        >(&path, Err(error)),
{
}

} // verus!
