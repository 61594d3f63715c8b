//! Decisions of the identity-delete endpoint: which delete to perform for a
//! route's name parameter, and the status answered for each outcome.  The
//! surrounding process owns the HTTP plumbing.

use vstd::prelude::*;

use crate::error::Error;
use crate::module::IdentitySpec;

verus! {

/// A present name parameter names the identity to delete; a missing one is
/// a bad parameter, and nothing is deleted.
pub fn delete_identity_request(name: Option<&String>) -> (r: Result<IdentitySpec, Error>)
    ensures
        name matches Some(n) ==> (r matches Ok(s) && s.name@ == n@),
        name is None ==> (r matches Err(e) && e == Error::BadParam),
{
    match name {
        Some(n) => Ok(IdentitySpec::new(n.clone())),
        None => Err(Error::BadParam),
    }
}

/// The HTTP status of a delete outcome: no content on success, not found
/// for a vanished identity, bad request for a validation failure, and a
/// server error otherwise.
pub fn delete_identity_status(outcome: &Result<(), Error>) -> (r: u16)
    ensures
        outcome is Ok ==> r == 204,
        outcome matches Err(e) ==> r == (if e is NotFound {
            404int
        } else if e.is_validation() {
            400int
        } else {
            500int
        }),
{
    match outcome {
        Ok(_) => 204,
        Err(e) => {
            if e.is_not_found() {
                404
            } else if e.validation() {
                400
            } else {
                500
            }
        },
    }
}

} // verus!
