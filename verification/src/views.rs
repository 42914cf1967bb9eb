//! Read-only queries on the vault.
use vstd::prelude::*;

use crate::contract::{deposit_records, Contract};
use crate::decimal::{decimal, u128_to_decimal};
use crate::types::{DepositInfo, DepositRecord, VaultInfo, VaultWithIndex};

verus! {

/// The entries `from .. from + limit` of `history`, cut at its end.
pub open spec fn deposits_page(history: Seq<DepositRecord>, from: int, limit: int) -> Seq<
    DepositRecord,
> {
    let end = if from + limit < history.len() {
        from + limit
    } else {
        history.len() as int
    };
    if from < end {
        history.subrange(from, end)
    } else {
        Seq::empty()
    }
}

/// How many vaults a page of `limit` vaults, after skipping the `start` newest, holds.
pub open spec fn vaults_page_len(n_vaults: int, start: int, limit: int) -> int {
    if start >= n_vaults {
        0
    } else if start + limit < n_vaults {
        limit
    } else {
        n_vaults - start
    }
}

/// The index of the `k`-th vault of such a page: newest first.
pub open spec fn vaults_page_index(n_vaults: int, start: int, k: int) -> int {
    n_vaults - 1 - start - k
}

impl Contract {
    /// When the active vault closes.
    pub fn get_end_date(&self) -> (r: u64)
        ensures
            r == self@.countdown_period,
    {
        self.countdown_period
    }

    /// When the last deposit was made (0 before the first).
    pub fn get_time_last_deposit(&self) -> (r: u64)
        ensures
            r == self@.time_last_deposit,
    {
        self.time_last_deposit
    }

    /// When the active vault closes.
    pub fn get_countdown_period(&self) -> (r: u64)
        ensures
            r == self@.countdown_period,
    {
        self.countdown_period
    }

    /// The tokens deposited into the active vault, in base 10.
    pub fn get_vault_balance(&self) -> (r: String)
        ensures
            r@ == decimal(self@.ft_token_balance as nat),
    {
        u128_to_decimal(self.ft_token_balance)
    }

    /// The token contract whose tokens the vault accepts.
    pub fn get_ft_token_id(&self) -> (r: String)
        ensures
            r@ == self@.ft_token_id,
    {
        self.ft_token_id.clone()
    }

    /// The largest single deposit so far.
    pub fn get_highest_deposit(&self) -> (r: u128)
        ensures
            r == self@.highest_deposit,
    {
        self.highest_deposit
    }

    /// The largest single withdrawal so far.
    pub fn get_highest_withdraw(&self) -> (r: u128)
        ensures
            r == self@.highest_withdraw,
    {
        self.highest_withdraw
    }

    /// Who receives the fee of each deposit.
    pub fn get_treasury_id(&self) -> (r: String)
        ensures
            r@ == self@.treasury_id,
    {
        self.treasury_id.clone()
    }

    /// How many distinct deposits were made.
    pub fn get_number_deposits(&self) -> (r: u64)
        ensures
            r == self@.deposit_history.len(),
    {
        self.deposit_history.len() as u64
    }

    /// The deposits `from_index .. from_index + limit`, oldest first, cut at the last one.
    pub fn get_list_deposits(&self, from_index: u64, limit: u64) -> (r: Vec<DepositInfo>)
        requires
            from_index + limit <= u64::MAX,
        ensures
            deposit_records(r@) == deposits_page(
                self@.deposit_history,
                from_index as int,
                limit as int,
            ),
    {
        let len = self.deposit_history.len() as u64;
        let end = if from_index + limit < len {
            from_index + limit
        } else {
            len
        };
        let ghost page = deposits_page(self@.deposit_history, from_index as int, limit as int);
        let mut r: Vec<DepositInfo> = Vec::new();
        let mut i = from_index;
        while i < end
            invariant
                from_index <= i <= end || (from_index >= end && i == from_index),
                end <= len,
                len == self.deposit_history@.len(),
                self.deposit_history@.len() <= usize::MAX,
                page == deposits_page(self@.deposit_history, from_index as int, limit as int),
                from_index < end ==> deposit_records(r@) =~= self@.deposit_history.subrange(
                    from_index as int,
                    i as int,
                ),
                from_index >= end ==> r@.len() == 0,
            decreases end - i,
        {
            let d = self.deposit_history[i as usize].clone();
            let ghost before = r@;
            assert(self@.deposit_history[i as int] == d@);
            r.push(d);
            assert(deposit_records(r@) =~= deposit_records(before).push(d@));
            i = i + 1;
        }
        proof {
            if from_index >= end {
                assert(deposit_records(r@) =~= Seq::<DepositRecord>::empty());
            }
        }
        r
    }

    /// The last deposit, if there is one.
    pub fn get_last_deposit(&self) -> (r: Option<DepositInfo>)
        ensures
            r is None <==> self@.deposit_history.len() == 0,
            r matches Some(d) ==> d@ == self@.deposit_history.last(),
    {
        let n = self.deposit_history.len();
        if n == 0 {
            None
        } else {
            Some(self.deposit_history[n - 1].clone())
        }
    }

    /// A page of vaults, newest first: after skipping the `start_index` newest, up to
    /// `limit` vaults, each with its index.
    pub fn get_vaults(&self, start_index: u64, limit: u64) -> (r: Vec<VaultWithIndex>)
        requires
            start_index < self@.vaults.len() ==> start_index + limit <= u64::MAX,
        ensures
            r@.len() == vaults_page_len(self@.vaults.len() as int, start_index as int, limit as int),
            forall|k: int|
                #![trigger r@[k]]
                0 <= k < r@.len() ==> r@[k].index == vaults_page_index(
                    self@.vaults.len() as int,
                    start_index as int,
                    k,
                ) && r@[k].vault_info@ == self@.vaults[vaults_page_index(
                    self@.vaults.len() as int,
                    start_index as int,
                    k,
                )],
    {
        let vaults_len = self.vaults.len() as u64;
        if start_index >= vaults_len {
            return Vec::new();
        }
        let end_index = if start_index + limit < vaults_len {
            start_index + limit
        } else {
            vaults_len
        };
        let ghost n = self@.vaults.len() as int;
        let mut result: Vec<VaultWithIndex> = Vec::new();
        let mut i = vaults_len - start_index;
        while i > vaults_len - end_index
            invariant
                vaults_len == n,
                n == self.vaults@.len(),
                self.vaults@.len() <= usize::MAX,
                start_index < vaults_len,
                start_index <= end_index <= vaults_len,
                vaults_len - end_index <= i <= vaults_len - start_index,
                result@.len() == vaults_len - start_index - i,
                forall|k: int|
                    #![trigger result@[k]]
                    0 <= k < result@.len() ==> {
                        let j = vaults_page_index(n, start_index as int, k);
                        &&& result@[k].index == j
                        &&& result@[k].vault_info@ == self@.vaults[j]
                    },
            decreases i,
        {
            i = i - 1;
            let v = self.vaults[i as usize].clone();
            assert(self@.vaults[i as int] == v@);
            let ghost before = result@;
            result.push(VaultWithIndex { index: i, vault_info: v });
            assert forall|k: int| #![trigger result@[k]] 0 <= k < result@.len() implies {
                let j = vaults_page_index(n, start_index as int, k);
                &&& result@[k].index == j
                &&& result@[k].vault_info@ == self@.vaults[j]
            } by {
                if k < before.len() {
                    assert(result@[k] == before[k]);
                }
            }
        }
        assert(self@.vaults.len() == n);
        result
    }

    /// The newest vault with its index, if there is one.
    pub fn get_last_vault(&self) -> (r: Option<(u64, VaultInfo)>)
        ensures
            r is None <==> self@.vaults.len() == 0,
            r matches Some(p) ==> p.0 == self@.vaults.len() - 1 && p.1@ == self@.vaults.last(),
    {
        let n = self.vaults.len();
        if n == 0 {
            None
        } else {
            Some(((n - 1) as u64, self.vaults[n - 1].clone()))
        }
    }

    /// How many vaults there have been.
    pub fn get_vaults_number(&self) -> (r: u64)
        ensures
            r == self@.vaults.len(),
    {
        self.vaults.len() as u64
    }

    /// How long after a vault closes its winner has to wait to claim it.
    pub fn get_countdown_period_withdraw(&self) -> (r: u64)
        ensures
            r == self@.countdown_period_withdraw,
    {
        self.countdown_period_withdraw
    }
}

} // verus!
