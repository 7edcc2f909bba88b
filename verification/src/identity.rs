//! Identities of records, as the `uuid` crate represents them.

use vstd::prelude::*;

verus! {

/// `uuid::Uuid`, the database identity of a record. Opaque here: a value is
/// drawn once and carried through unchanged, and its bytes are never read.
#[verifier::external_type_specification]
#[verifier::external_body]
pub struct ExUuid(uuid::Uuid);

/// `uuid::Uuid::new_v4` draws a random identity from the operating system's
/// generator. Nothing is claimed of the value. The call panics where the
/// system cannot supply random bytes, and nowhere else.
pub assume_specification[ uuid::Uuid::new_v4 ]() -> (id: uuid::Uuid)
;

} // verus!
