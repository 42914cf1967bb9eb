use diamond_vault::deposit::{FIVE_MINUTES, ONE_DAY, ONE_HOUR};
use diamond_vault::{Contract, MsgInput, VaultError};

const TOKEN: u128 = 1_000_000_000_000_000_000;
const START: u64 = 1_700_000_000_000_000_000;
const WITHDRAW: u64 = 604_800_000_000_000;

fn s(x: &str) -> String {
    x.to_string()
}

fn vault() -> Contract {
    Contract::new(s("hat.tkn.near"), WITHDRAW, s("owner.near"), s("treasury.near"), 1)
}

fn increase() -> MsgInput {
    MsgInput { action_to_execute: s("increase_deposit") }
}

fn deposit(c: &mut Contract, who: &str, tokens: u128, now: u64) -> Result<diamond_vault::DepositOutcome, VaultError> {
    c.ft_on_transfer(s(who), tokens * TOKEN, increase(), s(who), s("hat.tkn.near"), now)
}

fn snapshot(c: &Contract) -> (u64, u64, u64, String, String, u128, u64, u64, String, String) {
    (
        c.get_end_date(),
        c.get_time_last_deposit(),
        c.get_countdown_period_withdraw(),
        c.get_vault_balance(),
        c.get_treasury_id(),
        c.get_highest_deposit(),
        c.get_number_deposits(),
        c.get_vaults_number(),
        c.get_ft_token_id(),
        c.owner_id.clone(),
    )
}

#[test]
fn new_contract_is_empty() {
    let c = vault();
    assert_eq!(c.get_end_date(), 0);
    assert_eq!(c.get_countdown_period(), 0);
    assert_eq!(c.get_time_last_deposit(), 0);
    assert_eq!(c.get_countdown_period_withdraw(), WITHDRAW);
    assert_eq!(c.get_vault_balance(), "0");
    assert_eq!(c.get_ft_token_id(), "hat.tkn.near");
    assert_eq!(c.get_treasury_id(), "treasury.near");
    assert_eq!(c.get_highest_deposit(), 0);
    assert_eq!(c.get_highest_withdraw(), 0);
    assert_eq!(c.get_number_deposits(), 0);
    assert_eq!(c.get_vaults_number(), 0);
    assert!(c.get_last_vault().is_none());
    assert!(c.get_last_deposit().is_none());
    assert!(c.get_vaults(0, 10).is_empty());
    assert!(c.get_list_deposits(0, 10).is_empty());
    assert_eq!(c.account_last_deposit, "owner.near");
}

#[test]
fn first_deposit_opens_a_vault() {
    let mut c = vault();
    let out = deposit(&mut c, "alice.near", 100_000, START).unwrap();
    assert_eq!(out.refund, 0);
    let fee = out.fee_transfer.unwrap();
    assert_eq!(fee.token_id, "hat.tkn.near");
    assert_eq!(fee.receiver_id, "treasury.near");
    assert_eq!(fee.amount, 1_000 * TOKEN);
    assert!(fee.memo.is_none());
    assert_eq!(fee.attached_deposit, 1);
    assert_eq!(fee.static_gas, 100_000_000_000_000);
    assert_eq!(c.get_vaults_number(), 1);
    assert_eq!(c.get_end_date(), START + 2 * ONE_DAY);
    assert_eq!(c.get_vault_balance(), "100000000000000000000000");
    assert_eq!(c.get_highest_deposit(), 100_000 * TOKEN);
    assert_eq!(c.get_time_last_deposit(), START);
    assert_eq!(c.account_last_deposit, "alice.near");
    let (index, v) = c.get_last_vault().unwrap();
    assert_eq!(index, 0);
    assert_eq!(v.winner, "alice.near");
    assert_eq!(v.token_amount, 99_000 * TOKEN);
    assert_eq!(v.token_amount_complete, 100_000 * TOKEN);
    assert_eq!(v.date_start, START);
    assert_eq!(v.date_end, START + 2 * ONE_DAY);
    assert!(!v.claimed);
    let d = c.get_last_deposit().unwrap();
    assert_eq!(d.account_id, "alice.near");
    assert_eq!(d.date, START);
    assert_eq!(d.ft_amount, "100000000000000000000000");
    assert!(d.deposit_or_withdraw);
}

#[test]
fn deposit_tiers_set_the_countdown() {
    let mut c = vault();
    deposit(&mut c, "alice.near", 100_000, START).unwrap();
    let t = START + 1_000;
    deposit(&mut c, "bob.near", 600_000, t).unwrap();
    assert_eq!(c.get_end_date(), t + ONE_DAY);
    deposit(&mut c, "carol.near", 2_000_000, t + 1).unwrap();
    assert_eq!(c.get_end_date(), t + 1 + ONE_DAY / 2);
    deposit(&mut c, "dave.near", 10_000_000, t + 2).unwrap();
    assert_eq!(c.get_end_date(), t + 2 + ONE_HOUR);
    deposit(&mut c, "erin.near", 20_000_000, t + 3).unwrap();
    assert_eq!(c.get_end_date(), t + 3 + ONE_HOUR / 4);
    deposit(&mut c, "frank.near", 1_000_000, t + 4).unwrap();
    assert_eq!(c.get_end_date(), t + 4 + ONE_DAY);
    deposit(&mut c, "grace.near", 5_000_000, t + 5).unwrap();
    assert_eq!(c.get_end_date(), t + 5 + ONE_DAY / 2);
    // Still one vault, won by the last depositor.
    assert_eq!(c.get_vaults_number(), 1);
    let (_, v) = c.get_last_vault().unwrap();
    assert_eq!(v.winner, "grace.near");
    assert_eq!(v.date_end, c.get_end_date());
    assert_eq!(c.get_highest_deposit(), 20_000_000 * TOKEN);
}

#[test]
fn small_deposit_keeps_or_extends_to_five_minutes() {
    let mut c = vault();
    deposit(&mut c, "alice.near", 100_000, START).unwrap();
    let end = START + 2 * ONE_DAY;
    // Plenty of time left: a small deposit does not move the end.
    deposit(&mut c, "bob.near", 10_000, START + 10).unwrap();
    assert_eq!(c.get_end_date(), end);
    // Less than five minutes left: the clock goes to five minutes.
    let late = end - 60_000_000_000;
    deposit(&mut c, "carol.near", 10_000, late).unwrap();
    assert_eq!(c.get_end_date(), late + FIVE_MINUTES);
    // Exactly five minutes left: also reset to five minutes from now.
    let now = c.get_end_date() - FIVE_MINUTES;
    deposit(&mut c, "dave.near", 10_000, now).unwrap();
    assert_eq!(c.get_end_date(), now + FIVE_MINUTES);
}

#[test]
fn expired_vault_starts_a_new_one() {
    let mut c = vault();
    deposit(&mut c, "alice.near", 100_000, START).unwrap();
    let end = c.get_end_date();
    // At the end date the vault has closed; a small deposit may not open a new one.
    assert_eq!(deposit(&mut c, "bob.near", 50_000, end).err(), Some(VaultError::NewVaultDepositBelowMinimum));
    deposit(&mut c, "bob.near", 200_000, end).unwrap();
    assert_eq!(c.get_vaults_number(), 2);
    assert_eq!(c.get_vault_balance(), "200000000000000000000000");
    let (i, v) = c.get_last_vault().unwrap();
    assert_eq!(i, 1);
    assert_eq!(v.winner, "bob.near");
    assert_eq!(v.date_start, end);
    // The old vault is untouched.
    let page = c.get_vaults(1, 1);
    assert_eq!(page.len(), 1);
    assert_eq!(page[0].index, 0);
    assert_eq!(page[0].vault_info.winner, "alice.near");
    assert_eq!(page[0].vault_info.token_amount_complete, 100_000 * TOKEN);
}

#[test]
fn refused_deposits_change_nothing() {
    let mut c = vault();
    deposit(&mut c, "alice.near", 100_000, START).unwrap();
    let before = snapshot(&c);
    let r = c.ft_on_transfer(s("x"), 100_000 * TOKEN + 1, increase(), s("x"), s("hat.tkn.near"), START + 1);
    assert_eq!(r.err(), Some(VaultError::DepositNotInteger));
    assert_eq!(deposit(&mut c, "x", 9_999, START + 1).err(), Some(VaultError::DepositBelowMinimum));
    let r = c.ft_on_transfer(s("x"), 100_000 * TOKEN, increase(), s("x"), s("other.near"), START + 1);
    assert_eq!(r.err(), Some(VaultError::TokenNotAccepted));
    assert_eq!(snapshot(&c), before);
}

#[test]
fn other_actions_are_refunded() {
    let mut c = vault();
    let before = snapshot(&c);
    let msg = MsgInput { action_to_execute: s("something_else") };
    let out = c.ft_on_transfer(s("a"), 123, msg, s("a"), s("anyone.near"), START).unwrap();
    assert_eq!(out.refund, 123);
    assert!(out.fee_transfer.is_none());
    assert_eq!(snapshot(&c), before);
}

#[test]
fn fee_above_hundred_percent_overflows() {
    let mut c = Contract::new(s("hat.tkn.near"), WITHDRAW, s("owner.near"), s("treasury.near"), 101);
    assert_eq!(deposit(&mut c, "alice.near", 100_000, START).err(), Some(VaultError::ArithmeticOverflow));
    assert_eq!(c.get_vaults_number(), 0);
}

#[test]
fn time_overflow_is_refused() {
    let mut c = vault();
    assert_eq!(deposit(&mut c, "alice.near", 100_000, u64::MAX - ONE_DAY).err(), Some(VaultError::ArithmeticOverflow));
    assert_eq!(c.get_vaults_number(), 0);
}

#[test]
fn fee_and_share_split_the_deposit() {
    let mut c = Contract::new(s("hat.tkn.near"), WITHDRAW, s("owner.near"), s("treasury.near"), 3);
    let out = c.ft_on_transfer(s("a"), 100_001 * TOKEN, increase(), s("a"), s("hat.tkn.near"), START).unwrap();
    let fee = out.fee_transfer.unwrap().amount;
    let share = c.get_last_vault().unwrap().1.token_amount;
    assert_eq!(fee, 100_001 * TOKEN * 3 / 100);
    assert_eq!(share, 100_001 * TOKEN * 97 / 100);
    assert!(fee + share <= 100_001 * TOKEN);
}

#[test]
fn identical_deposits_are_recorded_once() {
    let mut c = vault();
    deposit(&mut c, "alice.near", 100_000, START).unwrap();
    deposit(&mut c, "alice.near", 100_000, START).unwrap();
    assert_eq!(c.get_number_deposits(), 1);
    // The vault still counts both.
    assert_eq!(c.get_vault_balance(), "200000000000000000000000");
    deposit(&mut c, "alice.near", 100_000, START + 1).unwrap();
    assert_eq!(c.get_number_deposits(), 2);
}

#[test]
fn claim_rules() {
    let mut c = vault();
    deposit(&mut c, "alice.near", 100_000, START).unwrap();
    let end = c.get_end_date();
    let alice = s("alice.near");
    assert_eq!(c.claim_vault(1, &alice, s("alice.near"), end + WITHDRAW + 1).err(), Some(VaultError::InvalidVaultIndex));
    assert_eq!(c.claim_vault(0, &s("bob.near"), s("bob.near"), end + WITHDRAW + 1).err(), Some(VaultError::NotWinner));
    assert_eq!(c.claim_vault(0, &alice, s("alice.near"), end + WITHDRAW).err(), Some(VaultError::WithdrawPeriodNotOver));
    let t = c.claim_vault(0, &alice, s("signer.near"), end + WITHDRAW + 1).unwrap();
    assert_eq!(t.token_id, "hat.tkn.near");
    assert_eq!(t.receiver_id, "signer.near");
    assert_eq!(t.amount, 99_000 * TOKEN);
    assert!(t.memo.is_none());
    assert_eq!(t.attached_deposit, 1);
    assert_eq!(t.static_gas, 100_000_000_000_000);
    assert!(c.get_last_vault().unwrap().1.claimed);
    assert_eq!(c.claim_vault(0, &alice, s("alice.near"), end + WITHDRAW + 2).err(), Some(VaultError::VaultAlreadyClaimed));
    // The balance view is not touched by a claim.
    assert_eq!(c.get_vault_balance(), "100000000000000000000000");
    assert_eq!(c.get_highest_withdraw(), 0);
}

#[test]
fn open_vault_cannot_be_claimed() {
    let mut c = vault();
    deposit(&mut c, "alice.near", 100_000, START).unwrap();
    let alice = s("alice.near");
    assert_eq!(c.claim_vault(0, &alice, s("alice.near"), c.get_end_date()).err(), Some(VaultError::WithdrawPeriodNotOver));
}

#[test]
fn claim_with_overflowing_period_is_refused() {
    let mut c = Contract::new(s("hat.tkn.near"), u64::MAX, s("owner.near"), s("treasury.near"), 1);
    deposit(&mut c, "alice.near", 100_000, START).unwrap();
    assert_eq!(c.claim_vault(0, &s("alice.near"), s("alice.near"), u64::MAX).err(), Some(VaultError::ArithmeticOverflow));
}

#[test]
fn claimed_vault_stays_claimed_after_new_deposits() {
    let mut c = vault();
    deposit(&mut c, "alice.near", 100_000, START).unwrap();
    let end = c.get_end_date();
    c.claim_vault(0, &s("alice.near"), s("alice.near"), end + WITHDRAW + 1).unwrap();
    deposit(&mut c, "bob.near", 100_000, end + WITHDRAW + 2).unwrap();
    let page = c.get_vaults(0, 10);
    assert_eq!(page.len(), 2);
    assert_eq!(page[0].index, 1);
    assert!(!page[0].vault_info.claimed);
    assert_eq!(page[1].index, 0);
    assert!(page[1].vault_info.claimed);
}

#[test]
fn governance_only_for_the_owner() {
    let mut c = vault();
    let before = snapshot(&c);
    let mallory = s("mallory.near");
    assert_eq!(c.set_treasury(&mallory, s("m.near")).err(), Some(VaultError::NotOwner));
    assert_eq!(c.set_countdown_period_withdraw(&mallory, 1).err(), Some(VaultError::NotOwner));
    assert_eq!(c.change_owner(&mallory, s("m.near")).err(), Some(VaultError::NotOwner));
    assert_eq!(c.is_the_owner(&mallory), Err(VaultError::NotOwner));
    assert_eq!(snapshot(&c), before);
    let owner = s("owner.near");
    assert_eq!(c.is_the_owner(&owner), Ok(()));
    assert_eq!(c.set_treasury(&owner, s("t2.near")).unwrap(), "t2.near");
    assert_eq!(c.get_treasury_id(), "t2.near");
    assert_eq!(c.set_countdown_period_withdraw(&owner, 3_600_000_000_000).unwrap(), 3_600_000_000_000);
    assert_eq!(c.get_countdown_period_withdraw(), 3_600_000_000_000);
    assert_eq!(c.change_owner(&owner, s("new.near")).unwrap(), "new.near");
    assert_eq!(c.set_treasury(&owner, s("t3.near")).err(), Some(VaultError::NotOwner));
    assert_eq!(c.set_treasury(&s("new.near"), s("t3.near")).unwrap(), "t3.near");
}

#[test]
fn deposit_pages() {
    let mut c = vault();
    for i in 0..5u64 {
        deposit(&mut c, "alice.near", 100_000 + i as u128, START + i).unwrap();
    }
    assert_eq!(c.get_number_deposits(), 5);
    let page = c.get_list_deposits(1, 2);
    assert_eq!(page.len(), 2);
    assert_eq!(page[0].date, START + 1);
    assert_eq!(page[1].date, START + 2);
    assert_eq!(page[1].ft_amount, "100002000000000000000000");
    let tail = c.get_list_deposits(3, 10);
    assert_eq!(tail.len(), 2);
    assert_eq!(tail[1].date, START + 4);
    assert!(c.get_list_deposits(5, 3).is_empty());
    assert!(c.get_list_deposits(9, 3).is_empty());
    assert!(c.get_list_deposits(1, 0).is_empty());
    assert_eq!(c.get_last_deposit().unwrap().date, START + 4);
}

#[test]
fn vault_pages_newest_first() {
    let mut c = vault();
    let mut now = START;
    for _ in 0..4 {
        deposit(&mut c, "alice.near", 100_000, now).unwrap();
        now = c.get_end_date();
    }
    assert_eq!(c.get_vaults_number(), 4);
    let page = c.get_vaults(1, 2);
    assert_eq!(page.iter().map(|v| v.index).collect::<Vec<_>>(), vec![2, 1]);
    let all = c.get_vaults(0, 100);
    assert_eq!(all.iter().map(|v| v.index).collect::<Vec<_>>(), vec![3, 2, 1, 0]);
    assert!(c.get_vaults(4, 1).is_empty());
    assert!(c.get_vaults(0, 0).is_empty());
    assert_eq!(all[3].vault_info.date_start, START);
}

#[test]
fn error_messages() {
    assert_eq!(VaultError::NotOwner.message(), "!you are not the contract owner address¡");
    assert_eq!(VaultError::DepositNotInteger.message(), "Deposit must be integer");
    assert_eq!(VaultError::DepositBelowMinimum.message(), "Deposit must be a minimum of 10,000 $HAT");
    assert_eq!(VaultError::TokenNotAccepted.message(), "This token is not accepted.");
    assert_eq!(
        VaultError::NewVaultDepositBelowMinimum.message(),
        "The deposit to start a new vault must be a minimum of 100,000 $HAT"
    );
    assert_eq!(VaultError::InvalidVaultIndex.message(), "Invalid vault index");
    assert_eq!(VaultError::VaultAlreadyClaimed.message(), "Vault already claimed");
    assert_eq!(VaultError::NotWinner.message(), "Only the winner can claim the vault");
    assert_eq!(VaultError::WithdrawPeriodNotOver.message(), "The time to open the vault is not over yet.");
}

#[test]
fn balance_tracks_active_vault() {
    let mut c = vault();
    let mut now = START;
    for (i, tokens) in [100_000u128, 20_000, 700_000, 100_000].iter().enumerate() {
        deposit(&mut c, "alice.near", *tokens, now).unwrap();
        let (_, v) = c.get_last_vault().unwrap();
        assert_eq!(c.get_vault_balance(), (v.token_amount_complete).to_string());
        assert_eq!(v.date_end, c.get_end_date());
        assert!(v.token_amount <= v.token_amount_complete);
        assert!(c.get_end_date() >= now + FIVE_MINUTES);
        now = if i == 2 { c.get_end_date() } else { now + 1 };
    }
    assert_eq!(c.get_vaults_number(), 2);
    assert_eq!(c.get_vault_balance(), "100000000000000000000000");
}
