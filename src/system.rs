use vstd::prelude::*;
use crate::error::UpdateError;

verus! {

/// Relies on `nix::unistd::Uid::effective` (geteuid) and `Uid::as_raw`:
/// the effective user id of this process, which only the system knows.
#[verifier::external_body]
fn effective_uid() -> (r: u32) {
    nix::unistd::Uid::effective().as_raw()
}

/// Accepts only the root user (id 0).
pub fn root_check(uid: u32) -> (r: Result<(), UpdateError>)
    ensures
        r is Ok <==> uid == 0,
        r is Err ==> (r matches Err(UpdateError::NotRoot)),
{
    if uid == 0 {
        Ok(())
    } else {
        Err(UpdateError::NotRoot)
    }
}

/// Checks that the process runs as root; otherwise `NotRoot`.
pub fn check_root() -> (r: Result<(), UpdateError>)
    ensures
        r is Ok || (r matches Err(UpdateError::NotRoot)),
{
    let uid = effective_uid();
    root_check(uid)
}

} // verus!
