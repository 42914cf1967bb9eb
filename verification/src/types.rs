//! The records that the vault keeps and hands out.
use vstd::prelude::*;

verus! {

/// One entry of the deposit history.
#[derive(Debug)]
pub struct DepositInfo {
    pub account_id: String,
    pub date: u64,
    /// The deposited amount, written in base 10.
    pub ft_amount: String,
    /// `true` for a deposit, `false` for a withdrawal.
    pub deposit_or_withdraw: bool,
}

/// A deposit entry as a mathematical value.
pub struct DepositRecord {
    pub account_id: Seq<char>,
    pub date: u64,
    pub ft_amount: Seq<char>,
    pub deposit_or_withdraw: bool,
}

impl View for DepositInfo {
    type V = DepositRecord;

    open spec fn view(&self) -> DepositRecord {
        DepositRecord {
            account_id: self.account_id@,
            date: self.date,
            ft_amount: self.ft_amount@,
            deposit_or_withdraw: self.deposit_or_withdraw,
        }
    }
}

impl Clone for DepositInfo {
    fn clone(&self) -> (res: Self)
        ensures
            res@ == self@,
    {
        DepositInfo {
            account_id: self.account_id.clone(),
            date: self.date,
            ft_amount: self.ft_amount.clone(),
            deposit_or_withdraw: self.deposit_or_withdraw,
        }
    }
}

/// One vault: the current winner, what it holds and when it closes.
#[derive(Debug)]
pub struct VaultInfo {
    pub winner: String,
    /// What the winner receives: the deposits less the treasury fee.
    pub token_amount: u128,
    /// The deposits in full.
    pub token_amount_complete: u128,
    pub date_start: u64,
    pub date_end: u64,
    pub claimed: bool,
}

/// A vault as a mathematical value.
pub struct VaultRecord {
    pub winner: Seq<char>,
    pub token_amount: u128,
    pub token_amount_complete: u128,
    pub date_start: u64,
    pub date_end: u64,
    pub claimed: bool,
}

impl View for VaultInfo {
    type V = VaultRecord;

    open spec fn view(&self) -> VaultRecord {
        VaultRecord {
            winner: self.winner@,
            token_amount: self.token_amount,
            token_amount_complete: self.token_amount_complete,
            date_start: self.date_start,
            date_end: self.date_end,
            claimed: self.claimed,
        }
    }
}

impl Clone for VaultInfo {
    fn clone(&self) -> (res: Self)
        ensures
            res@ == self@,
    {
        VaultInfo {
            winner: self.winner.clone(),
            token_amount: self.token_amount,
            token_amount_complete: self.token_amount_complete,
            date_start: self.date_start,
            date_end: self.date_end,
            claimed: self.claimed,
        }
    }
}

/// A vault together with its position in the list of vaults.
#[derive(Debug)]
pub struct VaultWithIndex {
    pub index: u64,
    pub vault_info: VaultInfo,
}

/// The message that comes with a token transfer to the vault.
#[derive(Debug)]
pub struct MsgInput {
    pub action_to_execute: String,
}

impl Clone for MsgInput {
    fn clone(&self) -> (res: Self)
        ensures
            res.action_to_execute@ == self.action_to_execute@,
    {
        MsgInput { action_to_execute: self.action_to_execute.clone() }
    }
}

/// The yoctoNEAR attached to each token transfer that the vault asks for.
pub const FT_TRANSFER_DEPOSIT: u128 = 1;
/// The gas given to each token transfer that the vault asks for.
pub const FT_TRANSFER_GAS: u64 = 100_000_000_000_000;

/// A transfer of `amount` tokens of the token contract `token_id` to `receiver_id`,
/// which the contract asks the token contract to make, attaching `attached_deposit`
/// and `static_gas` to the call.
#[derive(Debug)]
pub struct FtTransfer {
    pub token_id: String,
    pub receiver_id: String,
    pub amount: u128,
    pub memo: Option<String>,
    pub attached_deposit: u128,
    pub static_gas: u64,
}

impl FtTransfer {
    /// A transfer as the vault makes them: no memo, one yoctoNEAR attached and a fixed gas.
    pub open spec fn is_plain(self) -> bool {
        &&& self.memo is None
        &&& self.attached_deposit == FT_TRANSFER_DEPOSIT
        &&& self.static_gas == FT_TRANSFER_GAS
    }
}

} // verus!
