//! Why the vault refuses a request.
use vstd::prelude::*;

verus! {

/// The reasons for which a call is refused. A refused call changes nothing.
#[derive(Clone, Copy, Debug, PartialEq, Eq, Structural)]
pub enum VaultError {
    /// The caller is not the owner of the contract.
    NotOwner,
    /// The deposit is not a whole number of tokens.
    DepositNotInteger,
    /// The deposit is under the minimum for any deposit.
    DepositBelowMinimum,
    /// The tokens come from another token contract than the accepted one.
    TokenNotAccepted,
    /// The deposit would open a new vault but is under the minimum for that.
    NewVaultDepositBelowMinimum,
    /// No vault has the given index.
    InvalidVaultIndex,
    /// The vault was claimed already.
    VaultAlreadyClaimed,
    /// The caller is not the winner of the vault.
    NotWinner,
    /// The vault's end date plus the withdraw period has not passed yet.
    WithdrawPeriodNotOver,
    /// An amount or a date would leave the range of its integer type.
    ArithmeticOverflow,
}

impl VaultError {
    /// The text with which the contract reports the refusal.
    pub open spec fn message_text(self) -> Seq<char> {
        match self {
            VaultError::NotOwner => "!you are not the contract owner address¡"@,
            VaultError::DepositNotInteger => "Deposit must be integer"@,
            VaultError::DepositBelowMinimum => "Deposit must be a minimum of 10,000 $HAT"@,
            VaultError::TokenNotAccepted => "This token is not accepted."@,
            VaultError::NewVaultDepositBelowMinimum =>
                "The deposit to start a new vault must be a minimum of 100,000 $HAT"@,
            VaultError::InvalidVaultIndex => "Invalid vault index"@,
            VaultError::VaultAlreadyClaimed => "Vault already claimed"@,
            VaultError::NotWinner => "Only the winner can claim the vault"@,
            VaultError::WithdrawPeriodNotOver => "The time to open the vault is not over yet."@,
            VaultError::ArithmeticOverflow => "arithmetic operation overflowed"@,
        }
    }

    /// The text with which the contract reports the refusal.
    pub fn message(&self) -> (m: &'static str)
        ensures
            m@ == self.message_text(),
    {
        match self {
            VaultError::NotOwner => "!you are not the contract owner address¡",
            VaultError::DepositNotInteger => "Deposit must be integer",
            VaultError::DepositBelowMinimum => "Deposit must be a minimum of 10,000 $HAT",
            VaultError::TokenNotAccepted => "This token is not accepted.",
            VaultError::NewVaultDepositBelowMinimum =>
                "The deposit to start a new vault must be a minimum of 100,000 $HAT",
            VaultError::InvalidVaultIndex => "Invalid vault index",
            VaultError::VaultAlreadyClaimed => "Vault already claimed",
            VaultError::NotWinner => "Only the winner can claim the vault",
            VaultError::WithdrawPeriodNotOver => "The time to open the vault is not over yet.",
            VaultError::ArithmeticOverflow => "arithmetic operation overflowed",
        }
    }
}

} // verus!
