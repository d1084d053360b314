//! The standard I/O error type, carried opaquely by error enums of the crate.
use vstd::prelude::*;

verus! {

/// `std::io::Error`, declared so that error types may hold one.
#[verifier::external_type_specification]
#[verifier::external_body]
pub struct ExIoError(std::io::Error);

} // verus!
