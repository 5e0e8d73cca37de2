use vstd::prelude::*;

use crate::account::AccountId;

verus! {

/// Notification of a successful deposit, for external observers only; the
/// contract never reads it back.
#[derive(Clone, Copy, Debug, PartialEq, Eq)]
pub struct DepositEvent {
    pub initializer: AccountId,
    pub amount: u64,
    pub escrow_seed: u32,
    pub timestamp: i64,
}

/// Notification of a successful settlement; `amount` is the payout actually
/// credited to the recipient, the principal less the fee.
#[derive(Clone, Copy, Debug, PartialEq, Eq)]
pub struct WithdrawEvent {
    pub recipient: AccountId,
    pub amount: u64,
    pub timestamp: i64,
}

/// Notification of a successful reversal; `amount` is the full principal
/// returned to the initializer's refund account.
#[derive(Clone, Copy, Debug, PartialEq, Eq)]
pub struct CancelEvent {
    pub initializer: AccountId,
    pub amount: u64,
    pub timestamp: i64,
}

/// Notification of a delegated call signed with the entry's authority.
#[derive(Clone, Copy, Debug, PartialEq, Eq)]
pub struct ExternalActionEvent {
    pub initializer: AccountId,
    pub external_program: AccountId,
    pub timestamp: i64,
}

} // verus!
