use vstd::prelude::*;

use crate::account::AccountId;

verus! {

/// The persistent record of one escrow instance: the parties, the principal,
/// the timing, the fee rate and the initialization guard. Every field but
/// `is_initialized` is written exactly once, by a successful deposit, and is
/// immutable afterwards.
#[derive(Clone, Copy, Debug, PartialEq, Eq)]
pub struct EscrowAccount {
    /// Identity of the depositor; only this party may cancel.
    pub initializer: AccountId,
    /// The ledger account funds return to on cancellation.
    pub initializer_deposit_token_account: AccountId,
    /// The principal deposited; consumed in full by settlement or reversal.
    pub amount: u64,
    /// Caller-chosen disambiguator; part of the derivation input for the
    /// entry's own address and its vault's address.
    pub escrow_seed: u32,
    /// The derivation bump proving the entry may sign for its vault.
    pub bump: u8,
    /// Guards against re-creation at the same derived address.
    pub is_initialized: bool,
    /// Absolute timestamp after which settlement is refused.
    pub expiration_time: i64,
    /// Fee rate in whole percent, applied at settlement.
    pub fee_percentage: u8,
}

impl EscrowAccount {
    /// What a successful deposit establishes and the other operations keep:
    /// an initialized entry holds a positive principal and a fee rate that
    /// cannot make the settlement arithmetic underflow.
    pub open spec fn well_formed(self) -> bool {
        self.is_initialized ==> self.amount > 0 && self.fee_percentage <= 100
    }

    /// The state of an entry account freshly allocated at its derived
    /// address, before any deposit has initialized it.
    pub open spec fn spec_fresh() -> EscrowAccount {
        EscrowAccount {
            initializer: AccountId::spec_zero(),
            initializer_deposit_token_account: AccountId::spec_zero(),
            amount: 0,
            escrow_seed: 0,
            bump: 0,
            is_initialized: false,
            expiration_time: 0,
            fee_percentage: 0,
        }
    }

    /// A fresh, uninitialized entry.
    pub fn fresh() -> (r: EscrowAccount)
        ensures
            r == EscrowAccount::spec_fresh(),
    {
        EscrowAccount {
            initializer: AccountId::zero(),
            initializer_deposit_token_account: AccountId::zero(),
            amount: 0,
            escrow_seed: 0,
            bump: 0,
            is_initialized: false,
            expiration_time: 0,
            fee_percentage: 0,
        }
    }
}

impl Default for EscrowAccount {
    fn default() -> (r: EscrowAccount)
        ensures
            r == EscrowAccount::spec_fresh(),
    {
        EscrowAccount::fresh()
    }
}

} // verus!
