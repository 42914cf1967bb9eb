//! The state of the vault contract, its abstract view and its invariant.
use vstd::prelude::*;

use crate::types::{DepositInfo, DepositRecord, VaultInfo, VaultRecord};

verus! {

/// The state of the vault contract.
pub struct Contract {
    /// When the last deposit was made.
    pub time_last_deposit: u64,
    /// When the active vault closes.
    pub countdown_period: u64,
    /// How long after a vault closes its winner has to wait to claim it.
    pub countdown_period_withdraw: u64,
    /// Who made the last deposit.
    pub account_last_deposit: String,
    /// The tokens deposited into the active vault.
    pub ft_token_balance: u128,
    /// The token contract whose tokens the vault accepts.
    pub ft_token_id: String,
    /// Who receives the fee of each deposit.
    pub treasury_id: String,
    pub owner_id: String,
    /// The largest single deposit so far.
    pub highest_deposit: u128,
    /// The largest single withdrawal so far.
    pub highest_withdraw: u128,
    /// Every distinct deposit, in the order in which they were made.
    pub deposit_history: Vec<DepositInfo>,
    /// Every vault, the active one last.
    pub vaults: Vec<VaultInfo>,
    /// The percentage of each deposit that goes to the treasury.
    pub treasury_fee: u128,
}

/// The state that an earlier layout of the contract kept; it holds the same fields.
pub struct OldContract {
    pub time_last_deposit: u64,
    pub countdown_period: u64,
    pub countdown_period_withdraw: u64,
    pub account_last_deposit: String,
    pub ft_token_balance: u128,
    pub ft_token_id: String,
    pub treasury_id: String,
    pub owner_id: String,
    pub highest_deposit: u128,
    pub highest_withdraw: u128,
    pub deposit_history: Vec<DepositInfo>,
    pub vaults: Vec<VaultInfo>,
    pub treasury_fee: u128,
}

/// The contract's state as a mathematical value.
pub struct VaultState {
    pub time_last_deposit: u64,
    pub countdown_period: u64,
    pub countdown_period_withdraw: u64,
    pub account_last_deposit: Seq<char>,
    pub ft_token_balance: u128,
    pub ft_token_id: Seq<char>,
    pub treasury_id: Seq<char>,
    pub owner_id: Seq<char>,
    pub highest_deposit: u128,
    pub highest_withdraw: u128,
    pub deposit_history: Seq<DepositRecord>,
    pub vaults: Seq<VaultRecord>,
    pub treasury_fee: u128,
}

pub open spec fn deposit_records(history: Seq<DepositInfo>) -> Seq<DepositRecord> {
    history.map_values(|d: DepositInfo| d@)
}

pub open spec fn vault_records(vaults: Seq<VaultInfo>) -> Seq<VaultRecord> {
    vaults.map_values(|v: VaultInfo| v@)
}

impl View for Contract {
    type V = VaultState;

    open spec fn view(&self) -> VaultState {
        VaultState {
            time_last_deposit: self.time_last_deposit,
            countdown_period: self.countdown_period,
            countdown_period_withdraw: self.countdown_period_withdraw,
            account_last_deposit: self.account_last_deposit@,
            ft_token_balance: self.ft_token_balance,
            ft_token_id: self.ft_token_id@,
            treasury_id: self.treasury_id@,
            owner_id: self.owner_id@,
            highest_deposit: self.highest_deposit,
            highest_withdraw: self.highest_withdraw,
            deposit_history: deposit_records(self.deposit_history@),
            vaults: vault_records(self.vaults@),
            treasury_fee: self.treasury_fee,
        }
    }
}

/// No entry occurs twice.
pub open spec fn distinct<T>(s: Seq<T>) -> bool {
    forall|i: int, j: int| 0 <= i < j < s.len() ==> s[i] != s[j]
}

impl VaultState {
    /// What every state reached from `Contract::new` satisfies:
    /// - the deposit history holds no entry twice;
    /// - the balance is that of the active (last) vault, and 0 before the first vault;
    /// - the countdown is the end date of the active vault;
    /// - no vault owes its winner more than was deposited into it.
    pub open spec fn wf(self) -> bool {
        &&& distinct(self.deposit_history)
        &&& self.vaults.len() == 0 ==> self.ft_token_balance == 0
        &&& self.vaults.len() > 0 ==> {
            &&& self.ft_token_balance == self.vaults.last().token_amount_complete
            &&& self.countdown_period == self.vaults.last().date_end
        }
        &&& forall|i: int|
            0 <= i < self.vaults.len() ==> #[trigger] self.vaults[i].token_amount
                <= self.vaults[i].token_amount_complete
    }

    /// The same state, except for the given fields of governance.
    pub open spec fn with_governance(
        self,
        treasury_id: Seq<char>,
        countdown_period_withdraw: u64,
        owner_id: Seq<char>,
    ) -> VaultState {
        VaultState { treasury_id, countdown_period_withdraw, owner_id, ..self }
    }
}

impl Contract {
    /// A new vault contract: no vault and no deposit yet.
    pub fn new(
        ft_token_id: String,
        countdown_period_withdraw: u64,
        owner_id: String,
        treasury_id: String,
        treasury_fee: u128,
    ) -> (c: Self)
        ensures
            c@.time_last_deposit == 0,
            c@.countdown_period == 0,
            c@.countdown_period_withdraw == countdown_period_withdraw,
            c@.account_last_deposit == owner_id@,
            c@.ft_token_balance == 0,
            c@.ft_token_id == ft_token_id@,
            c@.treasury_id == treasury_id@,
            c@.owner_id == owner_id@,
            c@.highest_deposit == 0,
            c@.highest_withdraw == 0,
            c@.deposit_history == Seq::<DepositRecord>::empty(),
            c@.vaults == Seq::<VaultRecord>::empty(),
            c@.treasury_fee == treasury_fee,
            c@.wf(),
    {
        let c = Contract {
            time_last_deposit: 0,
            countdown_period: 0,
            countdown_period_withdraw,
            account_last_deposit: owner_id.clone(),
            ft_token_balance: 0,
            ft_token_id,
            treasury_id,
            owner_id,
            highest_deposit: 0,
            highest_withdraw: 0,
            deposit_history: Vec::new(),
            vaults: Vec::new(),
            treasury_fee,
        };
        assert(c@.deposit_history =~= Seq::<DepositRecord>::empty());
        assert(c@.vaults =~= Seq::<VaultRecord>::empty());
        c
    }
}

} // verus!
