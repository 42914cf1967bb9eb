//! Properties that relate the operations of the vault to one another.
use vstd::prelude::*;

use crate::contract::VaultState;
use crate::deposit::{deposit_record, FIVE_MINUTES, ONE_DAY, ONE_HOUR};
use crate::errors::VaultError;
use crate::types::{FtTransfer, VaultRecord};
use crate::decimal::decimal;
use crate::views::{deposits_page, vaults_page_index, vaults_page_len};
use crate::types::DepositRecord;
use crate::deposit::lemma_shares_within_deposit;

verus! {

/// An accepted deposit leaves every earlier vault as it was, adds at most one vault, and
/// keeps the earlier history as a prefix of the new one: the entry of the deposit (the
/// depositor, the time, the amount in base 10, marked as a deposit) is appended unless an
/// equal entry is there already.
pub proof fn lemma_deposit_only_touches_active_vault(
    s: VaultState,
    amount: u128,
    user: Seq<char>,
    now: u64,
)
    requires
        s.deposit_fits(amount, now),
    ensures
        ({
            let t = s.after_deposit(amount, user, now);
            &&& t.vaults.len() == s.vaults.len() + if s.starts_new_vault(now) { 1int } else { 0int }
            &&& forall|i: int| 0 <= i < t.vaults.len() - 1 ==> #[trigger] t.vaults[i] == s.vaults[i]
            &&& t.deposit_history.len() >= s.deposit_history.len()
            &&& t.deposit_history.subrange(0, s.deposit_history.len() as int) == s.deposit_history
            &&& t.deposit_history.contains(deposit_record(user, now, amount))
            &&& {
                let entry = DepositRecord {
                    account_id: user,
                    date: now,
                    ft_amount: decimal(amount as nat),
                    deposit_or_withdraw: true,
                };
                ||| s.deposit_history.contains(entry) && t.deposit_history == s.deposit_history
                ||| !s.deposit_history.contains(entry) && t.deposit_history
                    == s.deposit_history.push(entry)
            }
        }),
{
    let t = s.after_deposit(amount, user, now);
    let record = deposit_record(user, now, amount);
    if s.deposit_history.contains(record) {
        assert(t.deposit_history.subrange(0, s.deposit_history.len() as int) =~= s.deposit_history);
    } else {
        assert(t.deposit_history.subrange(0, s.deposit_history.len() as int) =~= s.deposit_history);
        assert(t.deposit_history[s.deposit_history.len() as int] == record);
    }
}

/// After an accepted deposit the depositor is the winner of the active vault, that vault
/// ends when the new countdown does, which is at least five minutes after the deposit, and
/// the highest deposit is the larger of the old one and this one.
pub proof fn lemma_deposit_makes_depositor_winner(
    s: VaultState,
    amount: u128,
    user: Seq<char>,
    now: u64,
)
    requires
        s.deposit_fits(amount, now),
    ensures
        ({
            let t = s.after_deposit(amount, user, now);
            &&& t.vaults.len() > 0
            &&& t.vaults.last().winner == user
            &&& t.vaults.last().date_end == t.countdown_period
            &&& t.countdown_period >= now + FIVE_MINUTES
            &&& t.highest_deposit >= amount
            &&& t.highest_deposit >= s.highest_deposit
            &&& (t.highest_deposit == amount || t.highest_deposit == s.highest_deposit)
        }),
{
    assert(ONE_HOUR / 4 >= FIVE_MINUTES);
    assert(ONE_DAY / 2 >= FIVE_MINUTES);
}

/// Neither a deposit nor a claim ever clears the mark of a claimed vault.
pub proof fn lemma_claimed_stays_claimed(
    s: VaultState,
    amount: u128,
    user: Seq<char>,
    now: u64,
    index: u64,
    i: int,
)
    requires
        s.deposit_fits(amount, now),
        0 <= i < s.vaults.len(),
        s.vaults[i].claimed,
    ensures
        s.after_deposit(amount, user, now).vaults[i].claimed,
        index < s.vaults.len() ==> s.after_claim(index).vaults[i].claimed,
{
}

/// A vault is claimed at most once: after an accepted claim, any further claim of the same
/// vault, by anyone at any time, is refused as already claimed.
pub proof fn lemma_claim_only_once(
    s: VaultState,
    index: u64,
    caller: Seq<char>,
    now: u64,
    other_caller: Seq<char>,
    later: u64,
)
    requires
        s.claim_error(index, caller, now) is None,
    ensures
        s.after_claim(index).claim_error(index, other_caller, later) == Some(
            VaultError::VaultAlreadyClaimed,
        ),
{
}

/// An accepted claim comes from the winner of an existing, unclaimed vault, after the
/// vault's end date plus the withdraw period.
pub proof fn lemma_claim_only_by_winner_after_period(
    s: VaultState,
    index: u64,
    caller: Seq<char>,
    now: u64,
)
    requires
        s.claim_error(index, caller, now) is None,
    ensures
        index < s.vaults.len(),
        !s.vaults[index as int].claimed,
        caller == s.vaults[index as int].winner,
        s.vaults[index as int].date_end + s.countdown_period_withdraw < now,
{
}

/// While the active vault is open (its countdown has not passed), nobody can claim it.
pub proof fn lemma_open_vault_cannot_be_claimed(
    s: VaultState,
    index: u64,
    caller: Seq<char>,
    now: u64,
)
    requires
        s.wf(),
        index + 1 == s.vaults.len(),
        now <= s.countdown_period,
    ensures
        s.claim_error(index, caller, now) is Some,
{
}

/// Once the owner hands the contract to `new_owner`, exactly `new_owner` passes the owner
/// check, and the hand-over touches nothing but the owner.
pub proof fn lemma_owner_change_hands_over_control(s: VaultState, new_owner: Seq<char>)
    ensures
        ({
            let t = s.with_governance(s.treasury_id, s.countdown_period_withdraw, new_owner);
            &&& t.owner_id == new_owner
            &&& t.vaults == s.vaults
            &&& t.deposit_history == s.deposit_history
            &&& t.ft_token_balance == s.ft_token_balance
            &&& t.treasury_id == s.treasury_id
            &&& t.countdown_period_withdraw == s.countdown_period_withdraw
        }),
{
}

/// When a deposit is accepted and when it is refused, in terms of its inputs: a deposit
/// must be a whole number of tokens (10^18 units), at least 10,000 tokens, come from the
/// accepted token contract, and be at least 100,000 tokens when no vault is open (none yet,
/// or the countdown has passed); every such deposit is accepted as long as the fee is at
/// most 100 percent and the dates and amounts stay in range.
pub proof fn lemma_deposit_acceptance(s: VaultState, amount: u128, token_caller: Seq<char>, now: u64)
    ensures
        amount % 1_000_000_000_000_000_000 != 0 ==> s.deposit_error(amount, token_caller, now)
            == Some(VaultError::DepositNotInteger),
        amount % 1_000_000_000_000_000_000 == 0 && amount < 10_000_000_000_000_000_000_000
            ==> s.deposit_error(amount, token_caller, now) == Some(
            VaultError::DepositBelowMinimum,
        ),
        amount % 1_000_000_000_000_000_000 == 0 && amount >= 10_000_000_000_000_000_000_000
            && s.ft_token_id != token_caller ==> s.deposit_error(amount, token_caller, now)
            == Some(VaultError::TokenNotAccepted),
        amount % 1_000_000_000_000_000_000 == 0 && amount >= 10_000_000_000_000_000_000_000
            && s.ft_token_id == token_caller && (s.vaults.len() == 0 || s.countdown_period <= now)
            && amount < 100_000_000_000_000_000_000_000 ==> s.deposit_error(
            amount,
            token_caller,
            now,
        ) == Some(VaultError::NewVaultDepositBelowMinimum),
        s.deposit_error(amount, token_caller, now) is None ==> {
            &&& amount % 1_000_000_000_000_000_000 == 0
            &&& amount >= 10_000_000_000_000_000_000_000
            &&& s.ft_token_id == token_caller
            &&& (s.vaults.len() > 0 && s.countdown_period > now) || amount
                >= 100_000_000_000_000_000_000_000
            &&& s.treasury_fee <= 100
        },
        ({
            let open = s.vaults.len() > 0 && s.countdown_period > now;
            &&& amount % 1_000_000_000_000_000_000 == 0
            &&& amount >= 10_000_000_000_000_000_000_000
            &&& s.ft_token_id == token_caller
            &&& open || amount >= 100_000_000_000_000_000_000_000
            &&& s.treasury_fee <= 100
            &&& amount as int * 100 <= u128::MAX
            &&& now + 172_800_000_000_000 <= u64::MAX
            &&& open ==> s.ft_token_balance + amount <= u128::MAX
            &&& open ==> s.vaults.last().token_amount + amount <= u128::MAX
            &&& open ==> s.vaults.last().token_amount_complete + amount <= u128::MAX
        }) ==> s.deposit_error(amount, token_caller, now) is None,
{
    let f = s.treasury_fee as int;
    let a = amount as int;
    if f <= 100 {
        lemma_shares_within_deposit(amount, s.treasury_fee);
        assert(a * f <= a * 100) by (nonlinear_arith)
            requires
                0 <= a,
                0 <= f <= 100,
        ;
        assert(a * (100 - f) <= a * 100) by (nonlinear_arith)
            requires
                0 <= a,
                0 <= f <= 100,
        ;
    }
    assert(ONE_HOUR / 4 <= 2 * ONE_DAY);
    assert(ONE_DAY / 2 <= 2 * ONE_DAY);
}

/// What an accepted deposit of `amount` by `user` at `now` does, in terms of its inputs.
///
/// While a vault is open (`countdown_period > now`), the deposit goes into it: the winner
/// becomes `user`, its `token_amount` grows by the deposit less the fee,
/// `amount * (100 - fee) / 100`, its full total and the balance grow by `amount`, and its
/// start and claim mark stay. Else a new vault is appended, started now by `user`, holding
/// exactly this deposit, and the balance restarts at `amount`. Earlier vaults never change.
///
/// The new countdown, which is also the active vault's end, is `now` plus the period of
/// the deposit's tier: one day up to 1,000,000 tokens, half a day up to 5,000,000, an hour
/// under 20,000,000, a quarter hour from 20,000,000 on. A deposit of at most 500,000 tokens
/// keeps an open vault's countdown unless at most five minutes are left, in which case it
/// becomes five minutes from now; opening a vault, such a deposit sets two days.
///
/// The last deposit is `user` at `now`, the highest deposit is the larger of the old one
/// and `amount`, and token, treasury, owner, fee, withdraw period and highest withdrawal
/// stay.
pub proof fn lemma_deposit_effect(
    s: VaultState,
    amount: u128,
    token_caller: Seq<char>,
    user: Seq<char>,
    now: u64,
)
    requires
        s.deposit_error(amount, token_caller, now) is None,
    ensures
        ({
            let t = s.after_deposit(amount, user, now);
            let open = s.vaults.len() > 0 && s.countdown_period > now;
            let share = amount * (100 - s.treasury_fee) / 100;
            &&& t.time_last_deposit == now
            &&& t.account_last_deposit == user
            &&& t.highest_deposit == if amount > s.highest_deposit {
                amount
            } else {
                s.highest_deposit
            }
            &&& t.ft_token_id == s.ft_token_id
            &&& t.treasury_id == s.treasury_id
            &&& t.owner_id == s.owner_id
            &&& t.treasury_fee == s.treasury_fee
            &&& t.countdown_period_withdraw == s.countdown_period_withdraw
            &&& t.highest_withdraw == s.highest_withdraw
            &&& forall|i: int| 0 <= i < s.vaults.len() && (i < s.vaults.len() - 1 || !open)
                ==> #[trigger] t.vaults[i] == s.vaults[i]
            &&& open ==> {
                &&& t.vaults.len() == s.vaults.len()
                &&& t.vaults.last().winner == user
                &&& t.vaults.last().token_amount == s.vaults.last().token_amount + share
                &&& t.vaults.last().token_amount_complete == s.vaults.last().token_amount_complete
                    + amount
                &&& t.vaults.last().date_start == s.vaults.last().date_start
                &&& t.vaults.last().claimed == s.vaults.last().claimed
                &&& t.ft_token_balance == s.ft_token_balance + amount
            }
            &&& !open ==> {
                &&& t.vaults.len() == s.vaults.len() + 1
                &&& t.vaults.last() == VaultRecord {
                    winner: user,
                    token_amount: share as u128,
                    token_amount_complete: amount,
                    date_start: now,
                    date_end: t.countdown_period,
                    claimed: false,
                }
                &&& t.ft_token_balance == amount
            }
            &&& t.vaults.last().date_end == t.countdown_period
            &&& amount > 500_000_000_000_000_000_000_000 ==> t.countdown_period == now + if amount
                <= 1_000_000_000_000_000_000_000_000 {
                86_400_000_000_000int
            } else if amount <= 5_000_000_000_000_000_000_000_000 {
                43_200_000_000_000int
            } else if amount < 20_000_000_000_000_000_000_000_000 {
                3_600_000_000_000int
            } else {
                900_000_000_000int
            }
            &&& amount <= 500_000_000_000_000_000_000_000 && !open ==> t.countdown_period == now
                + 172_800_000_000_000
            &&& amount <= 500_000_000_000_000_000_000_000 && open ==> t.countdown_period == if s.countdown_period
                - now <= 300_000_000_000 {
                now + 300_000_000_000
            } else {
                s.countdown_period as int
            }
        }),
{
    assert(s.deposit_fits(amount, now));
}

/// When a claim is accepted, in terms of its inputs: exactly when the vault exists, is not
/// claimed yet, the caller is its winner, and its own end date plus the withdraw period
/// lies before `now`. An accepted claim marks that vault claimed and changes nothing else.
pub proof fn lemma_claim_acceptance_and_effect(s: VaultState, index: u64, caller: Seq<char>, now: u64)
    ensures
        s.claim_error(index, caller, now) is None <==> {
            &&& index < s.vaults.len()
            &&& !s.vaults[index as int].claimed
            &&& caller == s.vaults[index as int].winner
            &&& s.vaults[index as int].date_end + s.countdown_period_withdraw < now
        },
        index < s.vaults.len() ==> {
            let t = s.after_claim(index);
            let v = s.vaults[index as int];
            &&& t.vaults.len() == s.vaults.len()
            &&& t.vaults[index as int] == VaultRecord {
                winner: v.winner,
                token_amount: v.token_amount,
                token_amount_complete: v.token_amount_complete,
                date_start: v.date_start,
                date_end: v.date_end,
                claimed: true,
            }
            &&& forall|i: int| 0 <= i < s.vaults.len() && i != index ==> #[trigger] t.vaults[i]
                == s.vaults[i]
            &&& t.time_last_deposit == s.time_last_deposit
            &&& t.countdown_period == s.countdown_period
            &&& t.countdown_period_withdraw == s.countdown_period_withdraw
            &&& t.account_last_deposit == s.account_last_deposit
            &&& t.ft_token_balance == s.ft_token_balance
            &&& t.ft_token_id == s.ft_token_id
            &&& t.treasury_id == s.treasury_id
            &&& t.owner_id == s.owner_id
            &&& t.highest_deposit == s.highest_deposit
            &&& t.highest_withdraw == s.highest_withdraw
            &&& t.deposit_history == s.deposit_history
            &&& t.treasury_fee == s.treasury_fee
        },
{
}

/// The owner's settings take exactly the given values, whatever the old ones and the rest
/// of the state, and nothing else changes.
pub proof fn lemma_governance_effect(
    s: VaultState,
    treasury_id: Seq<char>,
    countdown_period_withdraw: u64,
    owner_id: Seq<char>,
)
    ensures
        ({
            let t = s.with_governance(treasury_id, countdown_period_withdraw, owner_id);
            &&& t.treasury_id == treasury_id
            &&& t.countdown_period_withdraw == countdown_period_withdraw
            &&& t.owner_id == owner_id
            &&& t.time_last_deposit == s.time_last_deposit
            &&& t.countdown_period == s.countdown_period
            &&& t.account_last_deposit == s.account_last_deposit
            &&& t.ft_token_balance == s.ft_token_balance
            &&& t.ft_token_id == s.ft_token_id
            &&& t.highest_deposit == s.highest_deposit
            &&& t.highest_withdraw == s.highest_withdraw
            &&& t.deposit_history == s.deposit_history
            &&& t.vaults == s.vaults
            &&& t.treasury_fee == s.treasury_fee
        }),
{
}

/// The number that a string of decimal digits writes, most significant digit first.
pub open spec fn digits_value(digits: Seq<char>) -> int
    decreases digits.len(),
{
    if digits.len() == 0 {
        0
    } else {
        digits_value(digits.drop_last()) * 10 + (digits.last() as int - 48)
    }
}

/// Amounts are written in base 10: only the digits '0' to '9', no leading zero (except for
/// the number 0 itself, written "0"), and the digits read back as the number.
pub proof fn lemma_decimal_writes_the_number(n: nat)
    ensures
        decimal(n).len() >= 1,
        forall|i: int| 0 <= i < decimal(n).len() ==> '0' <= #[trigger] decimal(n)[i] <= '9',
        decimal(n)[0] == '0' ==> n == 0 && decimal(n).len() == 1,
        digits_value(decimal(n)) == n,
    decreases n,
{
    if n >= 10 {
        lemma_decimal_writes_the_number(n / 10);
        let d = decimal(n);
        assert(d.drop_last() =~= decimal(n / 10));
        assert forall|i: int| 0 <= i < d.len() implies '0' <= #[trigger] d[i] <= '9' by {
            if i < d.len() - 1 {
                assert(d[i] == decimal(n / 10)[i]);
            }
        }
        assert(d[0] == decimal(n / 10)[0]);
        assert(d.last() as int == 48 + n % 10);
        assert(digits_value(d) == digits_value(d.drop_last()) * 10 + (d.last() as int - 48));
    } else {
        let d = decimal(n);
        assert(d[0] as int == 48 + n);
        assert(d.drop_last() =~= Seq::<char>::empty());
        assert(digits_value(d) == digits_value(d.drop_last()) * 10 + (d.last() as int - 48));
    }
}

/// The transfers that the vault asks for carry no memo, one yoctoNEAR and 100 Tgas.
pub proof fn lemma_plain_transfer(t: FtTransfer)
    ensures
        t.is_plain() <==> (t.memo is None && t.attached_deposit == 1 && t.static_gas
            == 100_000_000_000_000),
{
}

/// A page of deposits holds the entries from `from` on, in order, as many as `limit` allows
/// and the history holds.
pub proof fn lemma_deposits_page(history: Seq<DepositRecord>, from: u64, limit: u64)
    ensures
        ({
            let page = deposits_page(history, from as int, limit as int);
            &&& page.len() == if from >= history.len() {
                0
            } else if from + limit <= history.len() {
                limit as int
            } else {
                history.len() - from
            }
            &&& forall|k: int| 0 <= k < page.len() ==> #[trigger] page[k] == history[from + k]
        }),
{
}

/// A page of vaults skips the `start` newest and lists, newest first, as many as `limit`
/// allows and exist: its `k`-th entry is vault `n - 1 - start - k`.
pub proof fn lemma_vaults_page(n: nat, start: u64, limit: u64, k: int)
    ensures
        vaults_page_len(n as int, start as int, limit as int) == if start >= n {
            0
        } else if start + limit <= n {
            limit as int
        } else {
            n - start
        },
        vaults_page_index(n as int, start as int, k) + k + start + 1 == n,
{
}

} // verus!
