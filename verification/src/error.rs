//! The one kind of failure in the pipeline: an I/O error of the platform.

use vstd::prelude::*;

verus! {

/// `std::io::Error`, carried through the pipeline as it came from the channel.
/// Nothing is known of what it holds: the stages hand it on and never read it.
#[verifier::external_type_specification]
#[verifier::external_body]
pub struct ExIoError(std::io::Error);

/// The failure of a read or of a write, with the platform's own detail.
pub type IoError = std::io::Error;

} // verus!
