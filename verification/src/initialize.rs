//! Initialization of the global registry. The first call may come from
//! anyone; once the registry is initialized, only the recorded administrator
//! may run it again. Besides writing the registry, the operation computes the
//! top-up the caller must transfer to the pool so that it holds at least the
//! minimum nonzero balance the host's rent rule demands.

use vstd::prelude::*;

use crate::error::BeanError;
use crate::identity::Identity;
use crate::states::GlobalState;

verus! {

/// The lamports the caller must move to the pool so that it holds at least
/// `max(rent_floor, 1)`: the shortfall, or nothing if already covered.
pub open spec fn spec_rent_topup(vault_balance: int, rent_floor: int) -> int {
    let needed = if rent_floor > 1 {
        rent_floor
    } else {
        1
    };
    if needed > vault_balance {
        needed - vault_balance
    } else {
        0
    }
}

/// Whether `caller` may (re-)initialize the registry: always before the
/// first initialization, afterwards only the recorded administrator.
pub open spec fn may_initialize(g: GlobalState, caller: Identity) -> bool {
    g.is_initialized != 1 || g.authority == caller
}

/// Refuses re-initialization by anyone but the administrator.
pub fn validate(global_state: &GlobalState, caller: Identity) -> (r: Result<(), BeanError>)
    ensures
        r is Ok <==> may_initialize(*global_state, caller),
        r is Err ==> r == Err::<(), BeanError>(BeanError::NotAllowedAuthority),
{
    if global_state.is_initialized == 1 && !(global_state.authority == caller) {
        Err(BeanError::NotAllowedAuthority)
    } else {
        Ok(())
    }
}

/// Writes administrator and recipient identities to the registry and returns
/// the lamports the caller must transfer to the pool to keep it rent-alive.
/// On refusal the registry is untouched.
pub fn handle(
    global_state: &mut GlobalState,
    caller: Identity,
    new_authority: Identity,
    vault: Identity,
    dev_account: Identity,
    marketing_account: Identity,
    ceo_account: Identity,
    giveaway_account: Identity,
    vault_balance: u64,
    rent_floor: u64,
) -> (r: Result<u64, BeanError>)
    ensures
        r is Ok <==> may_initialize(*old(global_state), caller),
        r is Err ==> *final(global_state) == *old(global_state) && r == Err::<u64, BeanError>(
            BeanError::NotAllowedAuthority,
        ),
        r is Ok ==> *final(global_state) == (GlobalState {
            is_initialized: 1,
            authority: new_authority,
            vault,
            dev_account,
            marketing_account,
            giveaway_account,
            ceo_account,
            total_bakers: old(global_state).total_bakers,
        }),
        r matches Ok(topup) ==> topup == spec_rent_topup(vault_balance as int, rent_floor as int),
{
    match validate(global_state, caller) {
        Err(e) => Err(e),
        Ok(()) => {
            global_state.is_initialized = 1;
            global_state.authority = new_authority;
            global_state.vault = vault;
            global_state.dev_account = dev_account;
            global_state.marketing_account = marketing_account;
            global_state.ceo_account = ceo_account;
            global_state.giveaway_account = giveaway_account;
            let needed = if rent_floor > 1 {
                rent_floor
            } else {
                1
            };
            let topup = if needed > vault_balance {
                needed - vault_balance
            } else {
                0
            };
            Ok(topup)
        },
    }
}

} // verus!
