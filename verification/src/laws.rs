use vstd::prelude::*;

use crate::errors::EscrowError;
use crate::fees::fee_of;
use crate::fees::lemma_fee_bounds;
use crate::fees::payout_of;
use crate::ops::Cancel;
use crate::ops::Deposit;
use crate::ops::Withdraw;
use crate::ops::cancel_transition;
use crate::ops::deposit_transition;
use crate::ops::withdraw_transition;

verus! {

/// Law: for every valid input — a positive amount, a fee rate of at most
/// one hundred percent, an uninitialized entry, a funded source account and
/// no vault overflow — a deposit succeeds, and a settlement attempted
/// before expiration on the resulting entry and vault succeeds as well,
/// debiting the vault by the full principal and crediting the recipient
/// with the principal less `floor(amount * fee / 100)`.
pub proof fn law_open_then_settle(
    d: Deposit,
    w: Withdraw,
    escrow_seed: u32,
    amount: u64,
    expiration_time: i64,
    fee_percentage: u8,
    t_open: i64,
    t_settle: i64,
)
    requires
        amount > 0,
        fee_percentage <= 100,
        !d.escrow_account.is_initialized,
        d.initializer_deposit_token_balance >= amount,
        d.vault_balance + amount <= u64::MAX,
        w.escrow_account == deposit_transition(
            d,
            escrow_seed,
            amount,
            expiration_time,
            fee_percentage,
            t_open,
        ).0.escrow_account,
        w.vault_balance == deposit_transition(
            d,
            escrow_seed,
            amount,
            expiration_time,
            fee_percentage,
            t_open,
        ).0.vault_balance,
        t_settle <= expiration_time,
        w.recipient_token_balance + payout_of(amount, fee_percentage) <= u64::MAX,
        w.fee_balance + fee_of(amount, fee_percentage) <= u64::MAX,
    ensures
        deposit_transition(d, escrow_seed, amount, expiration_time, fee_percentage, t_open).1
            is Ok,
        withdraw_transition(w, t_settle).1 is Ok,
        withdraw_transition(w, t_settle).0.vault_balance == w.vault_balance - amount,
        withdraw_transition(w, t_settle).0.recipient_token_balance == w.recipient_token_balance
            + amount - fee_of(amount, fee_percentage),
        withdraw_transition(w, t_settle).0.fee_balance == w.fee_balance + fee_of(
            amount,
            fee_percentage,
        ),
{
    lemma_fee_bounds(amount, fee_percentage);
}

/// Law: once an entry is initialized, every further deposit against it
/// fails with `AlreadyInitialized` and changes neither the entry nor any
/// balance, so the vault reflects only the first deposit.
pub proof fn law_reopen_fails(
    d: Deposit,
    escrow_seed: u32,
    amount: u64,
    expiration_time: i64,
    fee_percentage: u8,
    now: i64,
)
    requires
        amount > 0,
        d.escrow_account.is_initialized,
    ensures
        deposit_transition(d, escrow_seed, amount, expiration_time, fee_percentage, now) == (
            d,
            Err::<crate::events::DepositEvent, EscrowError>(EscrowError::AlreadyInitialized),
        ),
{
}

/// Law: a deposit that succeeds leaves the entry initialized, so by
/// [`law_reopen_fails`] a second deposit with any inputs fails with
/// `AlreadyInitialized` and the vault holds only the first deposit's
/// amount.
pub proof fn law_second_open_fails(
    d: Deposit,
    escrow_seed: u32,
    amount: u64,
    expiration_time: i64,
    fee_percentage: u8,
    t1: i64,
    escrow_seed2: u32,
    amount2: u64,
    expiration_time2: i64,
    fee_percentage2: u8,
    t2: i64,
)
    requires
        amount2 > 0,
        deposit_transition(d, escrow_seed, amount, expiration_time, fee_percentage, t1).1 is Ok,
    ensures
        deposit_transition(
            deposit_transition(d, escrow_seed, amount, expiration_time, fee_percentage, t1).0,
            escrow_seed2,
            amount2,
            expiration_time2,
            fee_percentage2,
            t2,
        ).1 == Err::<crate::events::DepositEvent, EscrowError>(EscrowError::AlreadyInitialized),
        deposit_transition(
            deposit_transition(d, escrow_seed, amount, expiration_time, fee_percentage, t1).0,
            escrow_seed2,
            amount2,
            expiration_time2,
            fee_percentage2,
            t2,
        ).0.vault_balance == d.vault_balance + amount,
{
}

/// Law: a settlement attempted after the expiration time fails with
/// `EscrowExpired` and leaves the entry and every balance unchanged.
pub proof fn law_settle_after_expiry_fails(w: Withdraw, now: i64)
    requires
        now > w.escrow_account.expiration_time,
    ensures
        withdraw_transition(w, now) == (
            w,
            Err::<crate::events::WithdrawEvent, EscrowError>(EscrowError::EscrowExpired),
        ),
{
}

/// Law: a reversal attempted by any identity other than the original
/// initializer, or offering a refund account other than the stored one,
/// fails with `Unauthorized` and leaves the entry and every balance
/// unchanged.
pub proof fn law_reverse_unauthorized_fails(c: Cancel, now: i64)
    requires
        !c.initializer.eq_spec(c.escrow_account.initializer) || !c.initializer_deposit_token_account.eq_spec(
            c.escrow_account.initializer_deposit_token_account,
        ),
    ensures
        cancel_transition(c, now) == (
            c,
            Err::<crate::events::CancelEvent, EscrowError>(EscrowError::Unauthorized),
        ),
{
}

/// Law: the custody vault holds exactly the undisbursed principal — the
/// entry's `amount` once a deposit into the empty vault succeeds, and zero
/// once a settlement or a reversal of that principal succeeds.
pub proof fn law_vault_holds_undisbursed_amount(
    d: Deposit,
    w: Withdraw,
    c: Cancel,
    escrow_seed: u32,
    amount: u64,
    expiration_time: i64,
    fee_percentage: u8,
    t1: i64,
    t2: i64,
    t3: i64,
)
    requires
        d.vault_balance == 0,
        deposit_transition(d, escrow_seed, amount, expiration_time, fee_percentage, t1).1 is Ok,
        w.vault_balance == w.escrow_account.amount,
        withdraw_transition(w, t2).1 is Ok,
        c.vault_balance == c.escrow_account.amount,
        cancel_transition(c, t3).1 is Ok,
    ensures
        deposit_transition(
            d,
            escrow_seed,
            amount,
            expiration_time,
            fee_percentage,
            t1,
        ).0.vault_balance == deposit_transition(
            d,
            escrow_seed,
            amount,
            expiration_time,
            fee_percentage,
            t1,
        ).0.escrow_account.amount,
        withdraw_transition(w, t2).0.vault_balance == 0,
        cancel_transition(c, t3).0.vault_balance == 0,
{
}

/// Law: an entry is immutable after creation — a further deposit against it
/// is refused outright, and settlement and reversal, successful or not,
/// never touch its fields.
pub proof fn law_entry_immutable_after_creation(
    d: Deposit,
    w: Withdraw,
    c: Cancel,
    escrow_seed: u32,
    amount: u64,
    expiration_time: i64,
    fee_percentage: u8,
    t1: i64,
    t2: i64,
    t3: i64,
)
    requires
        amount > 0,
        d.escrow_account.is_initialized,
    ensures
        deposit_transition(
            d,
            escrow_seed,
            amount,
            expiration_time,
            fee_percentage,
            t1,
        ).0.escrow_account == d.escrow_account,
        deposit_transition(d, escrow_seed, amount, expiration_time, fee_percentage, t1).1 is Err,
        withdraw_transition(w, t2).0.escrow_account == w.escrow_account,
        cancel_transition(c, t3).0.escrow_account == c.escrow_account,
{
}

/// Law: after a successful settlement of a vault that held exactly the
/// entry's principal, a repeated settlement before expiration and a
/// reversal by the rightful initializer both fail with `InsufficientFunds`
/// and change nothing — the vault is exhausted, so no second payout is
/// possible.
pub proof fn law_no_double_payout_after_settle(w: Withdraw, c: Cancel, t1: i64, t2: i64, t3: i64)
    requires
        w.escrow_account.amount > 0,
        w.vault_balance == w.escrow_account.amount,
        withdraw_transition(w, t1).1 is Ok,
        t2 <= w.escrow_account.expiration_time,
        c.escrow_account == w.escrow_account,
        c.vault_balance == withdraw_transition(w, t1).0.vault_balance,
        c.initializer.eq_spec(c.escrow_account.initializer),
        c.initializer_deposit_token_account.eq_spec(
            c.escrow_account.initializer_deposit_token_account,
        ),
    ensures
        withdraw_transition(withdraw_transition(w, t1).0, t2).1 == Err::<
            crate::events::WithdrawEvent,
            EscrowError,
        >(EscrowError::InsufficientFunds),
        withdraw_transition(withdraw_transition(w, t1).0, t2).0 == withdraw_transition(w, t1).0,
        cancel_transition(c, t3).1 == Err::<crate::events::CancelEvent, EscrowError>(
            EscrowError::InsufficientFunds,
        ),
        cancel_transition(c, t3).0 == c,
{
}

/// Law: after a successful reversal of a vault that held exactly the
/// entry's principal, a repeated reversal by the rightful initializer and a
/// settlement before expiration both fail with `InsufficientFunds` and
/// change nothing — the vault is exhausted, so no second payout is
/// possible.
pub proof fn law_no_double_payout_after_reverse(
    c: Cancel,
    c2: Cancel,
    w: Withdraw,
    t1: i64,
    t2: i64,
    t3: i64,
)
    requires
        c.escrow_account.amount > 0,
        c.vault_balance == c.escrow_account.amount,
        cancel_transition(c, t1).1 is Ok,
        c2.escrow_account == c.escrow_account,
        c2.vault_balance == cancel_transition(c, t1).0.vault_balance,
        c2.initializer.eq_spec(c.escrow_account.initializer),
        c2.initializer_deposit_token_account.eq_spec(
            c.escrow_account.initializer_deposit_token_account,
        ),
        w.escrow_account == c.escrow_account,
        w.vault_balance == cancel_transition(c, t1).0.vault_balance,
        t3 <= c.escrow_account.expiration_time,
        fee_of(c.escrow_account.amount, c.escrow_account.fee_percentage)
            <= c.escrow_account.amount,
    ensures
        cancel_transition(c2, t2).1 == Err::<crate::events::CancelEvent, EscrowError>(
            EscrowError::InsufficientFunds,
        ),
        cancel_transition(c2, t2).0 == c2,
        withdraw_transition(w, t3).1 == Err::<crate::events::WithdrawEvent, EscrowError>(
            EscrowError::InsufficientFunds,
        ),
        withdraw_transition(w, t3).0 == w,
{
}

} // verus!
