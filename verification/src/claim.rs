//! Claims: the winner takes what a closed vault holds.
use vstd::prelude::*;

use crate::contract::{vault_records, Contract, VaultState};
use crate::errors::VaultError;
use crate::types::{FtTransfer, VaultRecord, FT_TRANSFER_DEPOSIT, FT_TRANSFER_GAS};

verus! {

impl VaultState {
    /// Why a claim of vault `index` by `caller` at `now` is refused, checked in this order;
    /// `None` when it is accepted.
    pub open spec fn claim_error(self, index: u64, caller: Seq<char>, now: u64) -> Option<
        VaultError,
    > {
        if index >= self.vaults.len() {
            Some(VaultError::InvalidVaultIndex)
        } else if self.vaults[index as int].claimed {
            Some(VaultError::VaultAlreadyClaimed)
        } else if caller != self.vaults[index as int].winner {
            Some(VaultError::NotWinner)
        } else if self.vaults[index as int].date_end + self.countdown_period_withdraw > u64::MAX {
            Some(VaultError::ArithmeticOverflow)
        } else if !(self.vaults[index as int].date_end + self.countdown_period_withdraw < now) {
            Some(VaultError::WithdrawPeriodNotOver)
        } else {
            None
        }
    }

    /// The state after vault `index` is claimed: that vault is marked claimed, nothing else
    /// changes.
    pub open spec fn after_claim(self, index: u64) -> VaultState {
        VaultState {
            vaults: self.vaults.update(
                index as int,
                VaultRecord { claimed: true, ..self.vaults[index as int] },
            ),
            ..self
        }
    }
}

impl Contract {
    /// The winner `caller` claims vault `index` at `now`: it is refused for the first
    /// reason that `claim_error` gives, and then nothing changes; else the vault is marked
    /// claimed and what it owes its winner is sent to `signer_id`, who signed the
    /// transaction.
    pub fn claim_vault(&mut self, index: u64, caller: &String, signer_id: String, now: u64) -> (r:
        Result<FtTransfer, VaultError>)
        ensures
            r is Err <==> old(self)@.claim_error(index, caller@, now) is Some,
            r matches Err(e) ==> old(self)@.claim_error(index, caller@, now) == Some(e)
                && final(self)@ == old(self)@,
            r matches Ok(t) ==> {
                &&& t.token_id@ == old(self)@.ft_token_id
                &&& t.receiver_id@ == signer_id@
                &&& t.amount == old(self)@.vaults[index as int].token_amount
                &&& t.is_plain()
                &&& final(self)@ == old(self)@.after_claim(index)
            },
            old(self)@.wf() ==> final(self)@.wf(),
    {
        let ghost s = self@;
        if index >= self.vaults.len() as u64 {
            return Err(VaultError::InvalidVaultIndex);
        }
        let i = index as usize;
        assert(self.vaults@[i as int]@ == s.vaults[index as int]);
        if self.vaults[i].claimed {
            return Err(VaultError::VaultAlreadyClaimed);
        }
        if !(*caller == self.vaults[i].winner) {
            return Err(VaultError::NotWinner);
        }
        let opens_after: u64 = match self.vaults[i].date_end.checked_add(
            self.countdown_period_withdraw,
        ) {
            Some(t) => t,
            None => return Err(VaultError::ArithmeticOverflow),
        };
        if !(opens_after < now) {
            return Err(VaultError::WithdrawPeriodNotOver);
        }
        let mut vault = self.vaults[i].clone();
        let transfer = FtTransfer {
            token_id: self.ft_token_id.clone(),
            receiver_id: signer_id,
            amount: vault.token_amount,
            memo: None,
            attached_deposit: FT_TRANSFER_DEPOSIT,
            static_gas: FT_TRANSFER_GAS,
        };
        vault.claimed = true;
        self.vaults.set(i, vault);
        proof {
            assert(vault_records(self.vaults@) =~= s.after_claim(index).vaults);
            assert(self@ == s.after_claim(index));
            if s.wf() {
                let t = s.after_claim(index);
                assert forall|j: int| 0 <= j < t.vaults.len() implies #[trigger] t.vaults[j].token_amount
                    <= t.vaults[j].token_amount_complete by {
                    assert(s.vaults[j].token_amount <= s.vaults[j].token_amount_complete);
                }
            }
        }
        Ok(transfer)
    }
}

} // verus!
