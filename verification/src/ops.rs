use vstd::prelude::*;

use crate::account::AccountId;
use crate::entry::EscrowAccount;
use crate::errors::EscrowError;
use crate::events::CancelEvent;
use crate::events::DepositEvent;
use crate::events::WithdrawEvent;
use crate::fees::fee_of;
use crate::fees::payout_of;
use crate::fees::settlement_amounts;

verus! {

/// Everything a deposit touches: the signing depositor, the source token
/// account it pays from, the entry being created and the custody vault
/// balance. Balances are the plain numbers the external token ledger holds;
/// the host applies the instructed transfers atomically with the entry
/// mutation.
#[derive(Clone, Copy, Debug, PartialEq, Eq)]
pub struct Deposit {
    /// The signing caller; becomes the entry's initializer.
    pub initializer: AccountId,
    /// The caller's source token account, also the refund account on
    /// cancellation.
    pub initializer_deposit_token_account: AccountId,
    /// Balance of the source token account.
    pub initializer_deposit_token_balance: u64,
    /// The entry at the derived address, fresh or previously initialized.
    pub escrow_account: EscrowAccount,
    /// The derivation bump found for the entry's address.
    pub escrow_account_bump: u8,
    /// Balance of the custody vault.
    pub vault_balance: u64,
}

/// The deposit transition: what `deposit` leaves behind and what it returns,
/// as a function of the starting state and the inputs.
///
/// A deposit is refused for a zero amount, for an entry that is already
/// initialized, and when the ledger could not perform the transfer (source
/// balance too small, or the vault balance would overflow). A refused
/// deposit changes nothing. A successful one populates every entry field,
/// marks the entry initialized and moves `amount` from the source account
/// into the vault.
pub open spec fn deposit_transition(
    ctx: Deposit,
    escrow_seed: u32,
    amount: u64,
    expiration_time: i64,
    fee_percentage: u8,
    now: i64,
) -> (Deposit, Result<DepositEvent, EscrowError>) {
    if amount == 0 {
        (ctx, Err(EscrowError::InvalidAmount))
    } else if ctx.escrow_account.is_initialized {
        (ctx, Err(EscrowError::AlreadyInitialized))
    } else if ctx.initializer_deposit_token_balance < amount || ctx.vault_balance + amount
        > u64::MAX {
        (ctx, Err(EscrowError::InsufficientFunds))
    } else {
        (
            Deposit {
                initializer_deposit_token_balance: (ctx.initializer_deposit_token_balance
                    - amount) as u64,
                vault_balance: (ctx.vault_balance + amount) as u64,
                escrow_account: EscrowAccount {
                    initializer: ctx.initializer,
                    initializer_deposit_token_account: ctx.initializer_deposit_token_account,
                    amount,
                    escrow_seed,
                    bump: ctx.escrow_account_bump,
                    is_initialized: true,
                    expiration_time,
                    fee_percentage,
                },
                ..ctx
            },
            Ok(
                DepositEvent {
                    initializer: ctx.initializer,
                    amount,
                    escrow_seed,
                    timestamp: now,
                },
            ),
        )
    }
}

/// Open an escrow: initialize the entry from the inputs and the caller's
/// identity, and move `amount` from the caller's source account into the
/// custody vault, authorized by the caller's own signature.
pub fn deposit(
    ctx: &mut Deposit,
    escrow_seed: u32,
    amount: u64,
    expiration_time: i64,
    fee_percentage: u8,
    now: i64,
) -> (r: Result<DepositEvent, EscrowError>)
    requires
        fee_percentage <= 100,
    ensures
        (*final(ctx), r) == deposit_transition(
            *old(ctx),
            escrow_seed,
            amount,
            expiration_time,
            fee_percentage,
            now,
        ),
        r is Err ==> *final(ctx) == *old(ctx),
        r is Ok <==> amount > 0 && !old(ctx).escrow_account.is_initialized
            && old(ctx).initializer_deposit_token_balance >= amount
            && old(ctx).vault_balance + amount <= u64::MAX,
        r is Ok ==> final(ctx).vault_balance == old(ctx).vault_balance + amount
            && final(ctx).initializer_deposit_token_balance
                == old(ctx).initializer_deposit_token_balance - amount
            && final(ctx).escrow_account.well_formed(),
{
    if amount == 0 {
        return Err(EscrowError::InvalidAmount);
    }
    if ctx.escrow_account.is_initialized {
        return Err(EscrowError::AlreadyInitialized);
    }
    if ctx.initializer_deposit_token_balance < amount {
        return Err(EscrowError::InsufficientFunds);
    }
    if ctx.vault_balance > u64::MAX - amount {
        return Err(EscrowError::InsufficientFunds);
    }
    ctx.initializer_deposit_token_balance = ctx.initializer_deposit_token_balance - amount;
    ctx.vault_balance = ctx.vault_balance + amount;
    ctx.escrow_account = EscrowAccount {
        initializer: ctx.initializer,
        initializer_deposit_token_account: ctx.initializer_deposit_token_account,
        amount,
        escrow_seed,
        bump: ctx.escrow_account_bump,
        is_initialized: true,
        expiration_time,
        fee_percentage,
    };
    Ok(
        DepositEvent {
            initializer: ctx.initializer,
            amount,
            escrow_seed,
            timestamp: now,
        },
    )
}

/// Everything a settlement touches: the recipient, the destination token
/// account, the fee sink the deducted fee is swept to, the entry and the
/// vault balance. The fee's destination is a deployment decision, so the
/// integrator names the fee sink explicitly.
#[derive(Clone, Copy, Debug, PartialEq, Eq)]
pub struct Withdraw {
    /// The signing caller, acting as recipient.
    pub recipient: AccountId,
    /// The caller's destination token account.
    pub recipient_token_account: AccountId,
    /// Balance of the destination token account.
    pub recipient_token_balance: u64,
    /// Balance of the account the fee is swept to.
    pub fee_balance: u64,
    /// The entry being settled.
    pub escrow_account: EscrowAccount,
    /// Balance of the custody vault.
    pub vault_balance: u64,
}

/// The settlement transition: what `withdraw` leaves behind and what it
/// returns, as a function of the starting state and the clock.
///
/// Settlement is refused after the expiration time, when the fee would
/// exceed the principal (a fee rate above one hundred percent, which
/// construction forbids but corrupt state could hold), and when the ledger
/// could not perform the transfers (vault balance below the principal, or a
/// credited balance would overflow). A refused settlement changes nothing.
/// A successful one debits the vault by the full principal, credits the
/// recipient with the payout and sweeps the fee to the fee sink; the entry
/// itself is untouched, so replaying fails on the exhausted vault.
pub open spec fn withdraw_transition(ctx: Withdraw, now: i64) -> (
    Withdraw,
    Result<WithdrawEvent, EscrowError>,
) {
    let e = ctx.escrow_account;
    if now > e.expiration_time {
        (ctx, Err(EscrowError::EscrowExpired))
    } else if fee_of(e.amount, e.fee_percentage) > e.amount {
        (ctx, Err(EscrowError::InsufficientFunds))
    } else if ctx.vault_balance < e.amount
        || ctx.recipient_token_balance + payout_of(e.amount, e.fee_percentage) > u64::MAX
        || ctx.fee_balance + fee_of(e.amount, e.fee_percentage) > u64::MAX {
        (ctx, Err(EscrowError::InsufficientFunds))
    } else {
        (
            Withdraw {
                vault_balance: (ctx.vault_balance - e.amount) as u64,
                recipient_token_balance: (ctx.recipient_token_balance + payout_of(
                    e.amount,
                    e.fee_percentage,
                )) as u64,
                fee_balance: (ctx.fee_balance + fee_of(e.amount, e.fee_percentage)) as u64,
                ..ctx
            },
            Ok(
                WithdrawEvent {
                    recipient: ctx.recipient,
                    amount: payout_of(e.amount, e.fee_percentage) as u64,
                    timestamp: now,
                },
            ),
        )
    }
}

/// Settle the escrow: pay the principal less the fee out of the custody
/// vault to the recipient, authorized by the entry's own derived signing
/// authority, and sweep the fee to the fee sink. Refused once `now` has
/// passed the entry's expiration time.
pub fn withdraw(ctx: &mut Withdraw, now: i64) -> (r: Result<WithdrawEvent, EscrowError>)
    ensures
        (*final(ctx), r) == withdraw_transition(*old(ctx), now),
        r is Err ==> *final(ctx) == *old(ctx),
        final(ctx).escrow_account == old(ctx).escrow_account,
        r is Ok <==> now <= old(ctx).escrow_account.expiration_time
            && fee_of(old(ctx).escrow_account.amount, old(ctx).escrow_account.fee_percentage)
                <= old(ctx).escrow_account.amount
            && old(ctx).vault_balance >= old(ctx).escrow_account.amount
            && old(ctx).recipient_token_balance + payout_of(
            old(ctx).escrow_account.amount,
            old(ctx).escrow_account.fee_percentage,
        ) <= u64::MAX && old(ctx).fee_balance + fee_of(
            old(ctx).escrow_account.amount,
            old(ctx).escrow_account.fee_percentage,
        ) <= u64::MAX,
        r is Ok ==> final(ctx).vault_balance == old(ctx).vault_balance - old(
            ctx,
        ).escrow_account.amount && final(ctx).recipient_token_balance == old(
            ctx,
        ).recipient_token_balance + payout_of(
            old(ctx).escrow_account.amount,
            old(ctx).escrow_account.fee_percentage,
        ) && final(ctx).fee_balance == old(ctx).fee_balance + fee_of(
            old(ctx).escrow_account.amount,
            old(ctx).escrow_account.fee_percentage,
        ),
{
    let e = ctx.escrow_account;
    if now > e.expiration_time {
        return Err(EscrowError::EscrowExpired);
    }
    let (fee, payout) = match settlement_amounts(e.amount, e.fee_percentage) {
        Ok(p) => p,
        Err(err) => {
            return Err(err);
        },
    };
    if ctx.vault_balance < e.amount {
        return Err(EscrowError::InsufficientFunds);
    }
    if ctx.recipient_token_balance > u64::MAX - payout {
        return Err(EscrowError::InsufficientFunds);
    }
    if ctx.fee_balance > u64::MAX - fee {
        return Err(EscrowError::InsufficientFunds);
    }
    ctx.vault_balance = ctx.vault_balance - e.amount;
    ctx.recipient_token_balance = ctx.recipient_token_balance + payout;
    ctx.fee_balance = ctx.fee_balance + fee;
    Ok(
        WithdrawEvent {
            recipient: ctx.recipient,
            amount: payout,
            timestamp: now,
        },
    )
}

/// Everything a reversal touches: the signing caller, the refund account the
/// caller offers, the entry and the vault balance.
#[derive(Clone, Copy, Debug, PartialEq, Eq)]
pub struct Cancel {
    /// The signing caller; must be the entry's initializer.
    pub initializer: AccountId,
    /// The refund account the caller offers; must be the one stored at
    /// deposit time.
    pub initializer_deposit_token_account: AccountId,
    /// Balance of the refund account.
    pub initializer_deposit_token_balance: u64,
    /// The entry being reversed.
    pub escrow_account: EscrowAccount,
    /// Balance of the custody vault.
    pub vault_balance: u64,
}

/// The reversal transition: what `cancel` leaves behind and what it returns,
/// as a function of the starting state and the clock.
///
/// A reversal is refused when the caller is not the original initializer or
/// offers a refund account other than the stored one, and when the ledger
/// could not perform the transfer (vault balance below the principal, or
/// the refund balance would overflow). There is no time restriction:
/// expiration only blocks settlement. A refused reversal changes nothing.
/// A successful one returns the full principal from the vault to the refund
/// account, with no fee.
pub open spec fn cancel_transition(ctx: Cancel, now: i64) -> (
    Cancel,
    Result<CancelEvent, EscrowError>,
) {
    let e = ctx.escrow_account;
    if !ctx.initializer.eq_spec(e.initializer) || !ctx.initializer_deposit_token_account.eq_spec(
        e.initializer_deposit_token_account,
    ) {
        (ctx, Err(EscrowError::Unauthorized))
    } else if ctx.vault_balance < e.amount || ctx.initializer_deposit_token_balance + e.amount
        > u64::MAX {
        (ctx, Err(EscrowError::InsufficientFunds))
    } else {
        (
            Cancel {
                vault_balance: (ctx.vault_balance - e.amount) as u64,
                initializer_deposit_token_balance: (ctx.initializer_deposit_token_balance
                    + e.amount) as u64,
                ..ctx
            },
            Ok(
                CancelEvent {
                    initializer: ctx.initializer,
                    amount: e.amount,
                    timestamp: now,
                },
            ),
        )
    }
}

/// Reverse the escrow: return the full principal from the custody vault to
/// the stored refund account, authorized by the entry's own derived signing
/// authority. Only the original initializer may reverse; expiration does not
/// restrict it.
pub fn cancel(ctx: &mut Cancel, now: i64) -> (r: Result<CancelEvent, EscrowError>)
    ensures
        (*final(ctx), r) == cancel_transition(*old(ctx), now),
        r is Err ==> *final(ctx) == *old(ctx),
        final(ctx).escrow_account == old(ctx).escrow_account,
        r is Ok <==> old(ctx).initializer.eq_spec(old(ctx).escrow_account.initializer)
            && old(ctx).initializer_deposit_token_account.eq_spec(
            old(ctx).escrow_account.initializer_deposit_token_account,
        ) && old(ctx).vault_balance >= old(ctx).escrow_account.amount
            && old(ctx).initializer_deposit_token_balance + old(ctx).escrow_account.amount
                <= u64::MAX,
        r is Ok ==> final(ctx).vault_balance == old(ctx).vault_balance - old(
            ctx,
        ).escrow_account.amount && final(ctx).initializer_deposit_token_balance == old(
            ctx,
        ).initializer_deposit_token_balance + old(ctx).escrow_account.amount,
{
    let e = ctx.escrow_account;
    if !ctx.initializer.equals(&e.initializer) || !ctx.initializer_deposit_token_account.equals(
        &e.initializer_deposit_token_account,
    ) {
        return Err(EscrowError::Unauthorized);
    }
    if ctx.vault_balance < e.amount {
        return Err(EscrowError::InsufficientFunds);
    }
    if ctx.initializer_deposit_token_balance > u64::MAX - e.amount {
        return Err(EscrowError::InsufficientFunds);
    }
    ctx.vault_balance = ctx.vault_balance - e.amount;
    ctx.initializer_deposit_token_balance = ctx.initializer_deposit_token_balance + e.amount;
    Ok(
        CancelEvent {
            initializer: ctx.initializer,
            amount: e.amount,
            timestamp: now,
        },
    )
}

} // verus!
