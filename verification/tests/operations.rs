use escrow_contract::account::AccountId;
use escrow_contract::entry::EscrowAccount;
use escrow_contract::errors::EscrowError;
use escrow_contract::fees::settlement_amounts;
use escrow_contract::ops::{cancel, deposit, withdraw, Cancel, Deposit, Withdraw};

fn id(b: u8) -> AccountId {
    AccountId { bytes: [b; 32] }
}

fn open_deposit(seed: u32, amount: u64, expiration: i64, fee: u8, now: i64) -> Deposit {
    let mut d = Deposit {
        initializer: id(1),
        initializer_deposit_token_account: id(2),
        initializer_deposit_token_balance: 10_000,
        escrow_account: EscrowAccount::fresh(),
        escrow_account_bump: 254,
        vault_balance: 0,
    };
    let ev = deposit(&mut d, seed, amount, expiration, fee, now).unwrap();
    assert_eq!(ev.amount, amount);
    assert_eq!(ev.escrow_seed, seed);
    assert_eq!(ev.timestamp, now);
    assert_eq!(ev.initializer.bytes, [1; 32]);
    d
}

#[test]
fn open_populates_entry_and_moves_funds() {
    let d = open_deposit(9, 1_000, 3_600, 5, 0);
    assert_eq!(d.vault_balance, 1_000);
    assert_eq!(d.initializer_deposit_token_balance, 9_000);
    let e = d.escrow_account;
    assert!(e.is_initialized);
    assert_eq!(e.amount, 1_000);
    assert_eq!(e.escrow_seed, 9);
    assert_eq!(e.bump, 254);
    assert_eq!(e.expiration_time, 3_600);
    assert_eq!(e.fee_percentage, 5);
    assert_eq!(e.initializer.bytes, [1; 32]);
    assert_eq!(e.initializer_deposit_token_account.bytes, [2; 32]);
}

#[test]
fn open_rejects_zero_amount() {
    let mut d = Deposit {
        initializer: id(1),
        initializer_deposit_token_account: id(2),
        initializer_deposit_token_balance: 10_000,
        escrow_account: EscrowAccount::fresh(),
        escrow_account_bump: 254,
        vault_balance: 0,
    };
    let before = d;
    assert_eq!(deposit(&mut d, 1, 0, 3_600, 5, 0), Err(EscrowError::InvalidAmount));
    assert_eq!(d, before);
}

#[test]
fn open_rejects_unfunded_source() {
    let mut d = Deposit {
        initializer: id(1),
        initializer_deposit_token_account: id(2),
        initializer_deposit_token_balance: 400,
        escrow_account: EscrowAccount::fresh(),
        escrow_account_bump: 254,
        vault_balance: 0,
    };
    let before = d;
    assert_eq!(deposit(&mut d, 1, 500, 3_600, 5, 0), Err(EscrowError::InsufficientFunds));
    assert_eq!(d, before);
}

#[test]
fn second_open_fails_and_keeps_first_deposit() {
    let mut d = open_deposit(9, 1_000, 3_600, 5, 0);
    let before = d;
    assert_eq!(deposit(&mut d, 9, 700, 9_999, 3, 1), Err(EscrowError::AlreadyInitialized));
    assert_eq!(d, before);
    assert_eq!(d.vault_balance, 1_000);
}

#[test]
fn settle_before_expiry_pays_amount_less_fee() {
    // seed=1, amount=1000, fee=5%, expiration=T+3600, settled at T+10.
    let d = open_deposit(1, 1_000, 3_600, 5, 0);
    let mut w = Withdraw {
        recipient: id(3),
        recipient_token_account: id(4),
        recipient_token_balance: 0,
        fee_balance: 0,
        escrow_account: d.escrow_account,
        vault_balance: d.vault_balance,
    };
    let ev = withdraw(&mut w, 10).unwrap();
    assert_eq!(ev.amount, 950);
    assert_eq!(ev.timestamp, 10);
    assert_eq!(ev.recipient.bytes, [3; 32]);
    assert_eq!(w.recipient_token_balance, 950);
    assert_eq!(w.vault_balance, 0);
    assert_eq!(w.fee_balance, 50);
    // A later settlement finds the vault exhausted.
    let before = w;
    assert_eq!(withdraw(&mut w, 20), Err(EscrowError::InsufficientFunds));
    assert_eq!(w, before);
}

#[test]
fn settle_after_expiry_fails_then_reverse_succeeds() {
    // seed=2, amount=500, expiration=T+10; settle attempted at T+20.
    let d = open_deposit(2, 500, 10, 0, 0);
    let mut w = Withdraw {
        recipient: id(3),
        recipient_token_account: id(4),
        recipient_token_balance: 0,
        fee_balance: 0,
        escrow_account: d.escrow_account,
        vault_balance: d.vault_balance,
    };
    let before = w;
    assert_eq!(withdraw(&mut w, 20), Err(EscrowError::EscrowExpired));
    assert_eq!(w, before);
    // Reversal is not blocked by expiration.
    let mut c = Cancel {
        initializer: id(1),
        initializer_deposit_token_account: id(2),
        initializer_deposit_token_balance: 9_500,
        escrow_account: d.escrow_account,
        vault_balance: d.vault_balance,
    };
    let ev = cancel(&mut c, 20).unwrap();
    assert_eq!(ev.amount, 500);
    assert_eq!(ev.timestamp, 20);
    assert_eq!(ev.initializer.bytes, [1; 32]);
    assert_eq!(c.initializer_deposit_token_balance, 10_000);
    assert_eq!(c.vault_balance, 0);
}

#[test]
fn reverse_by_stranger_fails() {
    let d = open_deposit(5, 800, 3_600, 2, 0);
    let mut c = Cancel {
        initializer: id(9),
        initializer_deposit_token_account: id(2),
        initializer_deposit_token_balance: 0,
        escrow_account: d.escrow_account,
        vault_balance: d.vault_balance,
    };
    let before = c;
    assert_eq!(cancel(&mut c, 5), Err(EscrowError::Unauthorized));
    assert_eq!(c, before);
    assert_eq!(c.vault_balance, 800);
}

#[test]
fn reverse_with_wrong_refund_account_fails() {
    let d = open_deposit(5, 800, 3_600, 2, 0);
    let mut c = Cancel {
        initializer: id(1),
        initializer_deposit_token_account: id(8),
        initializer_deposit_token_balance: 0,
        escrow_account: d.escrow_account,
        vault_balance: d.vault_balance,
    };
    assert_eq!(cancel(&mut c, 5), Err(EscrowError::Unauthorized));
    assert_eq!(c.vault_balance, 800);
}

#[test]
fn repeat_reverse_fails_after_success() {
    let d = open_deposit(6, 250, 3_600, 0, 0);
    let mut c = Cancel {
        initializer: id(1),
        initializer_deposit_token_account: id(2),
        initializer_deposit_token_balance: 9_750,
        escrow_account: d.escrow_account,
        vault_balance: d.vault_balance,
    };
    assert!(cancel(&mut c, 5).is_ok());
    assert_eq!(c.vault_balance, 0);
    let before = c;
    assert_eq!(cancel(&mut c, 6), Err(EscrowError::InsufficientFunds));
    assert_eq!(c, before);
    // And a settlement after the reversal fails the same way.
    let mut w = Withdraw {
        recipient: id(3),
        recipient_token_account: id(4),
        recipient_token_balance: 0,
        fee_balance: 0,
        escrow_account: c.escrow_account,
        vault_balance: c.vault_balance,
    };
    assert_eq!(withdraw(&mut w, 5), Err(EscrowError::InsufficientFunds));
}

#[test]
fn corrupt_fee_rate_fails_settlement_without_underflow() {
    // A fee rate above one hundred percent cannot come from deposit; a
    // corrupt entry with one is refused at settlement.
    let mut w = Withdraw {
        recipient: id(3),
        recipient_token_account: id(4),
        recipient_token_balance: 0,
        fee_balance: 0,
        escrow_account: EscrowAccount {
            initializer: id(1),
            initializer_deposit_token_account: id(2),
            amount: 100,
            escrow_seed: 7,
            bump: 255,
            is_initialized: true,
            expiration_time: 1_000,
            fee_percentage: 255,
        },
        vault_balance: 100,
    };
    assert_eq!(withdraw(&mut w, 0), Err(EscrowError::InsufficientFunds));
    assert_eq!(w.vault_balance, 100);
}

#[test]
fn open_with_overflowing_vault_fails() {
    let mut d = Deposit {
        initializer: id(1),
        initializer_deposit_token_account: id(2),
        initializer_deposit_token_balance: 10,
        escrow_account: EscrowAccount::fresh(),
        escrow_account_bump: 254,
        vault_balance: u64::MAX,
    };
    let before = d;
    assert_eq!(deposit(&mut d, 1, 1, 3_600, 0, 0), Err(EscrowError::InsufficientFunds));
    assert_eq!(d, before);
}

#[test]
fn settle_with_overflowing_recipient_fails() {
    let d = open_deposit(4, 10, 3_600, 0, 0);
    let mut w = Withdraw {
        recipient: id(3),
        recipient_token_account: id(4),
        recipient_token_balance: u64::MAX,
        fee_balance: 0,
        escrow_account: d.escrow_account,
        vault_balance: d.vault_balance,
    };
    let before = w;
    assert_eq!(withdraw(&mut w, 0), Err(EscrowError::InsufficientFunds));
    assert_eq!(w, before);
}

#[test]
fn settlement_amounts_are_exact() {
    assert_eq!(settlement_amounts(1_000, 5), Ok((50, 950)));
    assert_eq!(settlement_amounts(1_000, 0), Ok((0, 1_000)));
    assert_eq!(settlement_amounts(1_000, 100), Ok((1_000, 0)));
    assert_eq!(settlement_amounts(99, 1), Ok((0, 99)));
    assert_eq!(settlement_amounts(u64::MAX, 100), Ok((u64::MAX, 0)));
    assert_eq!(settlement_amounts(100, 255), Err(EscrowError::InsufficientFunds));
}

#[test]
fn error_messages_name_each_refusal() {
    assert_eq!(EscrowError::InvalidAmount.message(), "Amount must be greater than zero");
    assert_eq!(EscrowError::AlreadyInitialized.message(), "Escrow account already initialized");
    assert_eq!(EscrowError::EscrowExpired.message(), "Escrow has expired");
    assert_eq!(
        EscrowError::InsufficientFunds.message(),
        "Insufficient funds after fee calculation"
    );
    assert_eq!(EscrowError::Unauthorized.message(), "Unauthorized operation");
}

#[test]
fn fresh_entry_is_uninitialized_default() {
    let e = EscrowAccount::default();
    assert!(!e.is_initialized);
    assert_eq!(e.amount, 0);
    assert_eq!(e.initializer.bytes, [0; 32]);
    assert_eq!(e, EscrowAccount::fresh());
}

#[test]
fn account_id_equality_is_by_bytes() {
    let a = id(7);
    let b = id(7);
    let c = id(8);
    assert!(a.equals(&b));
    assert!(!a.equals(&c));
    assert_eq!(AccountId::zero().bytes, [0; 32]);
}
