use vstd::prelude::*;

verus! {

/// The failure outcomes of a vault withdrawal.
#[derive(Clone, Copy, PartialEq, Eq, Structural, Debug)]
pub enum VaultError {
    VaultLocked,
    InsufficientBalance,
    Overflow,
}

/// The balance updates of a successful withdrawal, together with the amount
/// to report in the notification record of the transfer.
#[derive(Clone, Copy, PartialEq, Eq, Structural, Debug)]
pub struct WithdrawEffect {
    pub new_vault_balance: u64,
    pub new_authority_balance: u64,
    pub event_amount: u64,
}

/// Decides a withdrawal of `amount` from a vault holding `vault_balance`
/// into an authority account holding `authority_balance`. The ledger host
/// that owns the accounts hands in the lock flag and the balances as plain
/// values, applies the returned balances, and emits the notification record.
///
/// The withdrawal is rejected when the vault is locked, when the amount
/// exceeds the vault's balance, and when the authority's balance cannot take
/// the amount without overflowing; otherwise it moves exactly `amount` from
/// the vault to the authority.
pub fn withdraw(locked: bool, vault_balance: u64, authority_balance: u64, amount: u64) -> (r:
    Result<WithdrawEffect, VaultError>)
    ensures
        locked ==> r == Err::<WithdrawEffect, VaultError>(VaultError::VaultLocked),
        !locked && amount > vault_balance ==> r == Err::<WithdrawEffect, VaultError>(
            VaultError::InsufficientBalance,
        ),
        !locked && amount <= vault_balance && authority_balance + amount > u64::MAX ==> r == Err::<
            WithdrawEffect,
            VaultError,
        >(VaultError::Overflow),
        !locked && amount <= vault_balance && authority_balance + amount <= u64::MAX ==> r == Ok::<
            WithdrawEffect,
            VaultError,
        >(
            WithdrawEffect {
                new_vault_balance: (vault_balance - amount) as u64,
                new_authority_balance: (authority_balance + amount) as u64,
                event_amount: amount,
            },
        ),
        r matches Ok(effect) ==> effect.new_vault_balance + effect.new_authority_balance
            == vault_balance + authority_balance,
{
    if locked {
        Err(VaultError::VaultLocked)
    } else if amount > vault_balance {
        Err(VaultError::InsufficientBalance)
    } else {
        let new_vault_balance = vault_balance - amount;
        match authority_balance.checked_add(amount) {
            Some(new_authority_balance) => Ok(
                WithdrawEffect { new_vault_balance, new_authority_balance, event_amount: amount },
            ),
            None => Err(VaultError::Overflow),
        }
    }
}

} // verus!
