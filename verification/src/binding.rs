//! The types of `libloading` that the session carries.
//!
//! Nothing here is looked into: a loaded library is kept so that the caller
//! can resolve entry points in it, and a loading error is kept so that the
//! caller can read it.

use vstd::prelude::*;

verus! {

/// `libloading::Library`, a loaded dynamic library. Opaque: the session only
/// holds it and hands it out.
#[verifier::external_type_specification]
#[verifier::external_body]
pub struct ExLibrary(libloading::Library);

/// `libloading::Error`, what loading a library or resolving a symbol failed
/// with. Opaque: it is only carried inside an error of this crate.
#[verifier::external_type_specification]
#[verifier::external_body]
pub struct ExLoadingError(libloading::Error);

} // verus!
