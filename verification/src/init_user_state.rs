//! Registration: creates the per-participant record. The host's storage
//! primitive guarantees a record is allocated at most once per identity;
//! here only the identity itself is validated and the fresh record built.

use vstd::prelude::*;

use crate::error::BeanError;
use crate::identity::Identity;
use crate::states::is_fresh_user;
use crate::states::UserState;

verus! {

/// Builds the fresh record for `user_key`, refusing the reserved null
/// identity.
pub fn handle(user_key: Identity) -> (r: Result<UserState, BeanError>)
    ensures
        r is Ok <==> !user_key.spec_is_zero(),
        r is Err ==> r == Err::<UserState, BeanError>(BeanError::ZeroAddressDetected),
        r matches Ok(u) ==> is_fresh_user(u@, user_key) && u@.wf(),
{
    if user_key.is_zero() {
        return Err(BeanError::ZeroAddressDetected);
    }
    Ok(UserState::new(user_key))
}

} // verus!
