//! What only the owner may change.
use vstd::prelude::*;

use crate::contract::Contract;
use crate::errors::VaultError;

verus! {

impl Contract {
    /// Succeeds exactly when `caller` is the owner.
    pub fn is_the_owner(&self, caller: &String) -> (r: Result<(), VaultError>)
        ensures
            r is Ok <==> caller@ == self@.owner_id,
            r matches Err(e) ==> e == VaultError::NotOwner,
    {
        if *caller == self.owner_id {
            Ok(())
        } else {
            Err(VaultError::NotOwner)
        }
    }

    /// The owner names a new treasury; the new treasury is returned.
    pub fn set_treasury(&mut self, caller: &String, new_treasury_id: String) -> (r: Result<
        String,
        VaultError,
    >)
        ensures
            caller@ != old(self)@.owner_id ==> r == Err::<String, VaultError>(VaultError::NotOwner)
                && final(self)@ == old(self)@,
            caller@ == old(self)@.owner_id ==> final(self)@.treasury_id == new_treasury_id@,
            caller@ == old(self)@.owner_id ==> (r matches Ok(t) && t@ == new_treasury_id@)
                && final(self)@ == old(self)@.with_governance(
                new_treasury_id@,
                old(self)@.countdown_period_withdraw,
                old(self)@.owner_id,
            ),
    {
        match self.is_the_owner(caller) {
            Err(e) => Err(e),
            Ok(()) => {
                self.treasury_id = new_treasury_id;
                Ok(self.treasury_id.clone())
            },
        }
    }

    /// The owner sets how long a winner waits after a vault closes; the new period is returned.
    pub fn set_countdown_period_withdraw(&mut self, caller: &String, new_countdown: u64) -> (r:
        Result<u64, VaultError>)
        ensures
            caller@ != old(self)@.owner_id ==> r == Err::<u64, VaultError>(VaultError::NotOwner)
                && final(self)@ == old(self)@,
            caller@ == old(self)@.owner_id ==> final(self)@.countdown_period_withdraw
                == new_countdown,
            caller@ == old(self)@.owner_id ==> r == Ok::<u64, VaultError>(new_countdown)
                && final(self)@ == old(self)@.with_governance(
                old(self)@.treasury_id,
                new_countdown,
                old(self)@.owner_id,
            ),
    {
        match self.is_the_owner(caller) {
            Err(e) => Err(e),
            Ok(()) => {
                self.countdown_period_withdraw = new_countdown;
                Ok(self.countdown_period_withdraw)
            },
        }
    }

    /// The owner hands the contract to a new owner; the new owner is returned.
    pub fn change_owner(&mut self, caller: &String, new_owner_id: String) -> (r: Result<
        String,
        VaultError,
    >)
        ensures
            caller@ != old(self)@.owner_id ==> r == Err::<String, VaultError>(VaultError::NotOwner)
                && final(self)@ == old(self)@,
            caller@ == old(self)@.owner_id ==> final(self)@.owner_id == new_owner_id@,
            caller@ == old(self)@.owner_id ==> (r matches Ok(t) && t@ == new_owner_id@)
                && final(self)@ == old(self)@.with_governance(
                old(self)@.treasury_id,
                old(self)@.countdown_period_withdraw,
                new_owner_id@,
            ),
    {
        match self.is_the_owner(caller) {
            Err(e) => Err(e),
            Ok(()) => {
                self.owner_id = new_owner_id;
                Ok(self.owner_id.clone())
            },
        }
    }
}

} // verus!
