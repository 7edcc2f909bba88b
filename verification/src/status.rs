//! Transport status codes, as the `http` crate represents them.

use vstd::prelude::*;

verus! {

/// `http::StatusCode`, a three-digit status of a response. Opaque here: all
/// that is known of a value is its number, [`status_as_u16`].
#[verifier::external_type_specification]
#[verifier::external_body]
pub struct ExStatusCode(http::StatusCode);

/// `http::status::InvalidStatusCode`, the error of a number that is no status.
#[verifier::external_type_specification]
#[verifier::external_body]
pub struct ExInvalidStatusCode(http::status::InvalidStatusCode);

/// The number that `http::StatusCode::as_u16` returns for a status.
pub uninterp spec fn status_as_u16(status: http::StatusCode) -> u16;

/// `http::StatusCode::from_u16` accepts exactly the numbers from 100 to 999,
/// and the status it returns carries the number it was given.
pub assume_specification[ http::StatusCode::from_u16 ](src: u16) -> (status: Result<
    http::StatusCode,
    http::status::InvalidStatusCode,
>)
    ensures
        status is Ok <==> 100 <= src <= 999,
        status matches Ok(s) ==> status_as_u16(s) == src,
;

} // verus!
