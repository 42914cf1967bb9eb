//! Deposits: the tokens that a transfer brings into the vault.
use vstd::prelude::*;

use crate::contract::{deposit_records, vault_records, Contract, VaultState};
use crate::decimal::{decimal, u128_to_decimal};
use crate::errors::VaultError;
use crate::types::{
    DepositInfo, DepositRecord, FtTransfer, MsgInput, VaultInfo, VaultRecord, FT_TRANSFER_DEPOSIT,
    FT_TRANSFER_GAS,
};

verus! {

/// Nanoseconds in a day, an hour and five minutes.
pub const ONE_DAY: u64 = 86_400_000_000_000;
pub const ONE_HOUR: u64 = 3_600_000_000_000;
pub const FIVE_MINUTES: u64 = 300_000_000_000;

/// The smallest unit of the accepted token that makes one whole token.
pub const TOKEN_UNIT: u128 = 1_000_000_000_000_000_000;
/// The least that any deposit brings: 10,000 tokens.
pub const MIN_DEPOSIT: u128 = 10_000_000_000_000_000_000_000;
/// The least that a deposit which opens a new vault brings: 100,000 tokens.
pub const MIN_NEW_VAULT_DEPOSIT: u128 = 100_000_000_000_000_000_000_000;
/// Deposits up to 500,000 tokens only keep at least five minutes on the clock.
pub const SMALL_DEPOSIT_LIMIT: u128 = 500_000_000_000_000_000_000_000;
/// Deposits up to 1,000,000 tokens set the clock to one day.
pub const DAY_DEPOSIT_LIMIT: u128 = 1_000_000_000_000_000_000_000_000;
/// Deposits up to 5,000,000 tokens set the clock to half a day.
pub const HALF_DAY_DEPOSIT_LIMIT: u128 = 5_000_000_000_000_000_000_000_000;
/// Deposits under 20,000,000 tokens set the clock to one hour, larger ones to a quarter hour.
pub const HOUR_DEPOSIT_LIMIT: u128 = 20_000_000_000_000_000_000_000_000;

/// What a token transfer to the vault gives back: the tokens to hand back to the
/// sender, and the fee transfer to the treasury that the contract asks for.
#[derive(Debug)]
pub struct DepositOutcome {
    pub refund: u128,
    pub fee_transfer: Option<FtTransfer>,
}

/// The message names the one action that the vault knows.
pub open spec fn is_increase_deposit(action: Seq<char>) -> bool {
    action == "increase_deposit"@
}

/// The part of a deposit of `amount` that goes to the treasury, for a fee in percent.
pub open spec fn treasury_share(amount: u128, fee: u128) -> int {
    amount * fee / 100
}

/// The part of a deposit of `amount` that the winner of the vault receives.
pub open spec fn vault_share(amount: u128, fee: u128) -> int {
    amount * (100 - fee) / 100
}

/// The countdown after a deposit of `amount` at `now`, where `base` was the countdown
/// before it.
pub open spec fn countdown_after(base: int, amount: u128, now: u64) -> int {
    if amount <= SMALL_DEPOSIT_LIMIT {
        if base - now <= FIVE_MINUTES {
            now + FIVE_MINUTES
        } else {
            base
        }
    } else if amount <= DAY_DEPOSIT_LIMIT {
        now + ONE_DAY
    } else if amount <= HALF_DAY_DEPOSIT_LIMIT {
        now + ONE_DAY / 2
    } else if amount < HOUR_DEPOSIT_LIMIT {
        now + ONE_HOUR
    } else {
        now + ONE_HOUR / 4
    }
}

/// A vault opened by `user` at `now`, before the opening deposit is counted.
pub open spec fn fresh_vault(user: Seq<char>, now: u64) -> VaultRecord {
    VaultRecord {
        winner: user,
        token_amount: 0,
        token_amount_complete: 0,
        date_start: now,
        date_end: now,
        claimed: false,
    }
}

/// The history entry of a deposit of `amount` by `user` at `now`.
pub open spec fn deposit_record(user: Seq<char>, now: u64, amount: u128) -> DepositRecord {
    DepositRecord {
        account_id: user,
        date: now,
        ft_amount: decimal(amount as nat),
        deposit_or_withdraw: true,
    }
}

impl VaultState {
    /// A deposit at `now` opens a new vault: there is none yet, or the active one has closed.
    pub open spec fn starts_new_vault(self, now: u64) -> bool {
        self.vaults.len() == 0 || self.countdown_period <= now
    }

    /// The countdown before the deposit's own effect: two days from now for a new vault.
    pub open spec fn opening_countdown(self, now: u64) -> int {
        if self.starts_new_vault(now) {
            now + 2 * ONE_DAY
        } else {
            self.countdown_period as int
        }
    }

    /// The vault that a deposit at `now` goes into, as it was before the deposit.
    pub open spec fn vault_before_deposit(self, user: Seq<char>, now: u64) -> VaultRecord {
        if self.starts_new_vault(now) {
            fresh_vault(user, now)
        } else {
            self.vaults.last()
        }
    }

    /// The balance that a deposit at `now` adds to.
    pub open spec fn balance_before_deposit(self, now: u64) -> int {
        if self.starts_new_vault(now) {
            0
        } else {
            self.ft_token_balance as int
        }
    }

    /// Every amount and date that a deposit of `amount` at `now` computes stays in range,
    /// and the fee is at most 100 percent.
    pub open spec fn deposit_fits(self, amount: u128, now: u64) -> bool {
        let base = self.opening_countdown(now);
        let before = self.vault_before_deposit(Seq::empty(), now);
        &&& base <= u64::MAX
        &&& countdown_after(base, amount, now) <= u64::MAX
        &&& amount * self.treasury_fee <= u128::MAX
        &&& self.treasury_fee <= 100
        &&& amount * (100 - self.treasury_fee) <= u128::MAX
        &&& self.balance_before_deposit(now) + amount <= u128::MAX
        &&& before.token_amount + vault_share(amount, self.treasury_fee) <= u128::MAX
        &&& before.token_amount_complete + amount <= u128::MAX
    }

    /// Why a deposit of `amount`, sent by the token contract `token_caller` at `now`,
    /// is refused, checked in this order; `None` when it is accepted.
    pub open spec fn deposit_error(self, amount: u128, token_caller: Seq<char>, now: u64) -> Option<
        VaultError,
    > {
        if amount % TOKEN_UNIT != 0 {
            Some(VaultError::DepositNotInteger)
        } else if amount < MIN_DEPOSIT {
            Some(VaultError::DepositBelowMinimum)
        } else if self.ft_token_id != token_caller {
            Some(VaultError::TokenNotAccepted)
        } else if self.starts_new_vault(now) && amount < MIN_NEW_VAULT_DEPOSIT {
            Some(VaultError::NewVaultDepositBelowMinimum)
        } else if !self.deposit_fits(amount, now) {
            Some(VaultError::ArithmeticOverflow)
        } else {
            None
        }
    }

    /// The state after an accepted deposit of `amount` by `user` at `now`: the deposit goes
    /// into the active vault (a new one if the last has closed), whose winner `user` becomes
    /// and whose end moves with the new countdown; the balance, the last deposit, the highest
    /// deposit and the history follow.
    pub open spec fn after_deposit(self, amount: u128, user: Seq<char>, now: u64) -> VaultState {
        let countdown = countdown_after(self.opening_countdown(now), amount, now) as u64;
        let before = self.vault_before_deposit(user, now);
        let updated = VaultRecord {
            winner: user,
            token_amount: (before.token_amount + vault_share(amount, self.treasury_fee)) as u128,
            token_amount_complete: (before.token_amount_complete + amount) as u128,
            date_start: before.date_start,
            date_end: countdown,
            claimed: before.claimed,
        };
        let record = deposit_record(user, now, amount);
        VaultState {
            time_last_deposit: now,
            countdown_period: countdown,
            account_last_deposit: user,
            ft_token_balance: (self.balance_before_deposit(now) + amount) as u128,
            highest_deposit: if amount > self.highest_deposit {
                amount
            } else {
                self.highest_deposit
            },
            deposit_history: if self.deposit_history.contains(record) {
                self.deposit_history
            } else {
                self.deposit_history.push(record)
            },
            vaults: if self.starts_new_vault(now) {
                self.vaults.push(updated)
            } else {
                self.vaults.update(self.vaults.len() - 1, updated)
            },
            ..self
        }
    }
}

/// The share of the winner is at most the deposit, and with the treasury's share it makes
/// no more than the deposit.
pub proof fn lemma_shares_within_deposit(amount: u128, fee: u128)
    requires
        fee <= 100,
    ensures
        0 <= vault_share(amount, fee) <= amount,
        0 <= treasury_share(amount, fee),
        treasury_share(amount, fee) + vault_share(amount, fee) <= amount,
{
    let a = amount as int;
    let f = fee as int;
    assert(a * f / 100 + a * (100 - f) / 100 <= a) by (nonlinear_arith)
        requires
            0 <= a,
            0 <= f <= 100,
    {
        assert(a * f + a * (100 - f) == a * 100);
    }
    assert(0 <= a * (100 - f) / 100) by (nonlinear_arith)
        requires
            0 <= a,
            0 <= f <= 100,
    ;
    assert(0 <= a * f / 100) by (nonlinear_arith)
        requires
            0 <= a,
            0 <= f,
    ;
}

/// Whether `history` holds an entry equal to `d`.
fn history_contains(history: &Vec<DepositInfo>, d: &DepositInfo) -> (b: bool)
    ensures
        b == deposit_records(history@).contains(d@),
{
    let ghost records = deposit_records(history@);
    let mut i: usize = 0;
    while i < history.len()
        invariant
            i <= history.len(),
            records == deposit_records(history@),
            forall|j: int| 0 <= j < i ==> records[j] != d@,
        decreases history.len() - i,
    {
        let e = &history[i];
        if e.account_id == d.account_id && e.date == d.date && e.ft_amount == d.ft_amount
            && e.deposit_or_withdraw == d.deposit_or_withdraw {
            assert(records[i as int] == d@);
            return true;
        }
        assert(records[i as int] != d@);
        i = i + 1;
    }
    assert forall|x: DepositRecord| records.contains(x) implies x != d@ by {
        let j = choose|j: int| 0 <= j < records.len() && records[j] == x;
    }
    false
}


impl Contract {
    /// Called by a token contract when `sender_id` transfers `amount` of its tokens to the
    /// vault with `msg`; `signer_id` signed the transaction, `predecessor_id` is the token
    /// contract that calls, `now` is the block time.
    ///
    /// A message with another action than `increase_deposit` is answered by handing all
    /// tokens back. An `increase_deposit` is refused for the first reason that
    /// `deposit_error` gives, and then nothing changes; else the deposit is made as
    /// `after_deposit` says, nothing is handed back and the treasury's share is sent to it.
    #[allow(unused_variables)]
    pub fn ft_on_transfer(
        &mut self,
        sender_id: String,
        amount: u128,
        msg: MsgInput,
        signer_id: String,
        predecessor_id: String,
        now: u64,
    ) -> (r: Result<DepositOutcome, VaultError>)
        ensures
            !is_increase_deposit(msg.action_to_execute@) ==> (r matches Ok(o) && o.refund == amount
                && o.fee_transfer is None) && final(self)@ == old(self)@,
            is_increase_deposit(msg.action_to_execute@) ==> {
                &&& r is Err <==> old(self)@.deposit_error(amount, predecessor_id@, now) is Some
                &&& r matches Err(e) ==> old(self)@.deposit_error(amount, predecessor_id@, now)
                    == Some(e) && final(self)@ == old(self)@
                &&& r matches Ok(o) ==> {
                    &&& o.refund == 0
                    &&& o.fee_transfer matches Some(t) && t.token_id@ == old(self)@.ft_token_id
                        && t.receiver_id@ == old(self)@.treasury_id && t.amount == amount * old(self)@.treasury_fee / 100
                        && t.is_plain()
                    &&& final(self)@ == old(self)@.after_deposit(amount, signer_id@, now)
                }
            },
            old(self)@.wf() ==> final(self)@.wf(),
    {
        let ghost s = self@;
        let action = String::from_str("increase_deposit");
        if !(msg.action_to_execute == action) {
            return Ok(DepositOutcome { refund: amount, fee_transfer: None });
        }
        if amount % TOKEN_UNIT != 0 {
            return Err(VaultError::DepositNotInteger);
        }
        if amount < MIN_DEPOSIT {
            return Err(VaultError::DepositBelowMinimum);
        }
        if !(self.ft_token_id == predecessor_id) {
            return Err(VaultError::TokenNotAccepted);
        }
        let n = self.vaults.len();
        let new_vault = n == 0 || self.countdown_period <= now;
        assert(new_vault == s.starts_new_vault(now));
        if new_vault && amount < MIN_NEW_VAULT_DEPOSIT {
            return Err(VaultError::NewVaultDepositBelowMinimum);
        }
        // Every amount and date is computed before anything changes.
        let base: u64 = if new_vault {
            match now.checked_add(2 * ONE_DAY) {
                Some(b) => b,
                None => return Err(VaultError::ArithmeticOverflow),
            }
        } else {
            self.countdown_period
        };
        let countdown: u64 = if amount <= SMALL_DEPOSIT_LIMIT {
            if base - now <= FIVE_MINUTES {
                match now.checked_add(FIVE_MINUTES) {
                    Some(c) => c,
                    None => return Err(VaultError::ArithmeticOverflow),
                }
            } else {
                base
            }
        } else if amount <= DAY_DEPOSIT_LIMIT {
            match now.checked_add(ONE_DAY) {
                Some(c) => c,
                None => return Err(VaultError::ArithmeticOverflow),
            }
        } else if amount <= HALF_DAY_DEPOSIT_LIMIT {
            match now.checked_add(ONE_DAY / 2) {
                Some(c) => c,
                None => return Err(VaultError::ArithmeticOverflow),
            }
        } else if amount < HOUR_DEPOSIT_LIMIT {
            match now.checked_add(ONE_HOUR) {
                Some(c) => c,
                None => return Err(VaultError::ArithmeticOverflow),
            }
        } else {
            match now.checked_add(ONE_HOUR / 4) {
                Some(c) => c,
                None => return Err(VaultError::ArithmeticOverflow),
            }
        };
        let fee = self.treasury_fee;
        let covered_fees: u128 = match amount.checked_mul(fee) {
            Some(p) => p / 100,
            None => return Err(VaultError::ArithmeticOverflow),
        };
        if fee > 100 {
            return Err(VaultError::ArithmeticOverflow);
        }
        let deposit_without_fees: u128 = match amount.checked_mul(100 - fee) {
            Some(p) => p / 100,
            None => return Err(VaultError::ArithmeticOverflow),
        };
        let balance_before: u128 = if new_vault {
            0
        } else {
            self.ft_token_balance
        };
        let balance: u128 = match balance_before.checked_add(amount) {
            Some(b) => b,
            None => return Err(VaultError::ArithmeticOverflow),
        };
        let token_amount_before: u128 = if new_vault {
            0
        } else {
            self.vaults[n - 1].token_amount
        };
        let complete_before: u128 = if new_vault {
            0
        } else {
            self.vaults[n - 1].token_amount_complete
        };
        let token_amount: u128 = match token_amount_before.checked_add(deposit_without_fees) {
            Some(t) => t,
            None => return Err(VaultError::ArithmeticOverflow),
        };
        let complete: u128 = match complete_before.checked_add(amount) {
            Some(t) => t,
            None => return Err(VaultError::ArithmeticOverflow),
        };
        assert(s.deposit_error(amount, predecessor_id@, now) is None);

        // The deposit is accepted: from here on nothing fails.
        if new_vault {
            self.vaults.push(
                VaultInfo {
                    winner: signer_id.clone(),
                    token_amount: 0,
                    token_amount_complete: 0,
                    date_start: now,
                    date_end: now,
                    claimed: false,
                },
            );
        }
        let idx = self.vaults.len() - 1;
        let mut active = self.vaults[idx].clone();
        active.winner = signer_id.clone();
        active.token_amount = token_amount;
        active.token_amount_complete = complete;
        active.date_end = countdown;
        self.vaults.set(idx, active);
        self.countdown_period = countdown;
        self.ft_token_balance = balance;
        self.time_last_deposit = now;
        self.account_last_deposit = signer_id.clone();
        if amount > self.highest_deposit {
            self.highest_deposit = amount;
        }
        let record = DepositInfo {
            account_id: signer_id,
            date: now,
            ft_amount: u128_to_decimal(amount),
            deposit_or_withdraw: true,
        };
        let ghost before_history = self.deposit_history@;
        if !history_contains(&self.deposit_history, &record) {
            self.deposit_history.push(record);
            assert(deposit_records(self.deposit_history@) =~= deposit_records(before_history).push(
                record@,
            ));
        }
        proof {
            let before = s.vault_before_deposit(signer_id@, now);
            let updated = VaultRecord {
                winner: signer_id@,
                token_amount: (before.token_amount + vault_share(amount, s.treasury_fee)) as u128,
                token_amount_complete: (before.token_amount_complete + amount) as u128,
                date_start: before.date_start,
                date_end: countdown,
                claimed: before.claimed,
            };
            if new_vault {
                assert(vault_records(self.vaults@) =~= s.vaults.push(updated));
            } else {
                assert(vault_records(self.vaults@) =~= s.vaults.update(s.vaults.len() - 1, updated));
            }
            assert(self@ == s.after_deposit(amount, signer_id@, now));
            lemma_shares_within_deposit(amount, fee);
            if s.wf() {
                lemma_deposit_keeps_wf(s, amount, signer_id@, now);
            }
        }
        Ok(
            DepositOutcome {
                refund: 0,
                fee_transfer: Some(
                    FtTransfer {
                        token_id: self.ft_token_id.clone(),
                        receiver_id: self.treasury_id.clone(),
                        amount: covered_fees,
                        memo: None,
                        attached_deposit: FT_TRANSFER_DEPOSIT,
                        static_gas: FT_TRANSFER_GAS,
                    },
                ),
            },
        )
    }
}

/// An accepted deposit keeps the contract's invariant.
pub proof fn lemma_deposit_keeps_wf(s: VaultState, amount: u128, user: Seq<char>, now: u64)
    requires
        s.wf(),
        s.deposit_fits(amount, now),
    ensures
        s.after_deposit(amount, user, now).wf(),
{
    let t = s.after_deposit(amount, user, now);
    lemma_shares_within_deposit(amount, s.treasury_fee);
    let record = deposit_record(user, now, amount);
    if !s.deposit_history.contains(record) {
        assert forall|i: int, j: int| 0 <= i < j < t.deposit_history.len() implies
            t.deposit_history[i] != t.deposit_history[j] by {
            if j == s.deposit_history.len() {
                assert(s.deposit_history.contains(s.deposit_history[i]));
            }
        }
    }
    assert forall|i: int| 0 <= i < t.vaults.len() implies #[trigger] t.vaults[i].token_amount
        <= t.vaults[i].token_amount_complete by {
        if i < s.vaults.len() {
            assert(s.vaults[i].token_amount <= s.vaults[i].token_amount_complete);
        }
    }
}

} // verus!
