//! Standard-library types that the library carries without looking inside.

use vstd::prelude::*;

verus! {

/// A filesystem path; the library only stores and hands paths back.
#[verifier::external_type_specification]
#[verifier::external_body]
pub struct ExPathBuf(std::path::PathBuf);

/// An operating-system I/O error, carried inside [`crate::SessionError`].
#[verifier::external_type_specification]
#[verifier::external_body]
pub struct ExIoError(std::io::Error);

} // verus!
