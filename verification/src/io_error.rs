//! The standard I/O error type, which some operations report failures with.

use vstd::prelude::*;

verus! {

/// `std::io::Error`, carried through unchanged.
#[verifier::external_type_specification]
#[verifier::external_body]
pub struct ExIoError(std::io::Error);

/// `std::io::Error::new(ErrorKind::NotFound, what)`: an error of kind `NotFound`
/// whose message is `what`. Its kind and message are not stated here.
#[verifier::external_body]
pub(crate) fn not_found(what: String) -> std::io::Error {
    std::io::Error::new(std::io::ErrorKind::NotFound, what)
}

/// `std::io::Error::from(ErrorKind::InvalidData)`: an error of kind `InvalidData`.
/// Its kind is not stated here.
#[verifier::external_body]
pub(crate) fn invalid_data() -> std::io::Error {
    std::io::Error::from(std::io::ErrorKind::InvalidData)
}

} // verus!
