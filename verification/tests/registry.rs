use escrow_contract::account::AccountId;
use escrow_contract::delegate::{execute_external_action, CallAccount, ExternalAction};
use escrow_contract::entry::EscrowAccount;
use escrow_contract::errors::EscrowError;
use escrow_contract::ops::{deposit, Deposit};
use escrow_contract::registry::{EscrowRegistry, Located};

fn id(b: u8) -> AccountId {
    AccountId { bytes: [b; 32] }
}

#[test]
fn find_or_create_creates_once_per_seed() {
    let mut reg = EscrowRegistry::new();
    assert_eq!(reg.len(), 0);
    let first = reg.find_or_create(7);
    assert_eq!(first, Located::Created(0));
    assert_eq!(reg.len(), 1);
    assert_eq!(reg.entry_at(0), EscrowAccount::fresh());
    let second = reg.find_or_create(7);
    assert_eq!(second, Located::AlreadyExists(0));
    assert_eq!(reg.len(), 1);
    let other = reg.find_or_create(8);
    assert_eq!(other, Located::Created(1));
    assert_eq!(reg.len(), 2);
}

#[test]
fn registry_backed_open_is_created_then_already_initialized() {
    let mut reg = EscrowRegistry::new();
    let located = reg.find_or_create(3);
    let Located::Created(i) = located else {
        panic!("fresh registry must create");
    };
    let mut d = Deposit {
        initializer: id(1),
        initializer_deposit_token_account: id(2),
        initializer_deposit_token_balance: 1_000,
        escrow_account: reg.entry_at(i),
        escrow_account_bump: 254,
        vault_balance: 0,
    };
    assert!(deposit(&mut d, 3, 600, 100, 1, 0).is_ok());
    reg.set_entry(i, d.escrow_account);
    // The same seed now finds the initialized entry, and a second open fails.
    let located = reg.find_or_create(3);
    assert_eq!(located, Located::AlreadyExists(i));
    let mut d2 = Deposit {
        initializer: id(4),
        initializer_deposit_token_account: id(5),
        initializer_deposit_token_balance: 1_000,
        escrow_account: reg.entry_at(i),
        escrow_account_bump: 254,
        vault_balance: d.vault_balance,
    };
    assert_eq!(deposit(&mut d2, 3, 600, 100, 1, 1), Err(EscrowError::AlreadyInitialized));
    assert_eq!(d2.vault_balance, 600);
}

#[test]
fn delegated_call_requires_the_initializer() {
    let entry = EscrowAccount {
        initializer: id(1),
        initializer_deposit_token_account: id(2),
        amount: 100,
        escrow_seed: 7,
        bump: 250,
        is_initialized: true,
        expiration_time: 1_000,
        fee_percentage: 0,
    };
    let accounts = vec![
        CallAccount { address: id(20), is_signer: false, is_writable: true },
        CallAccount { address: id(21), is_signer: true, is_writable: false },
    ];
    let ctx = ExternalAction {
        initializer: id(9),
        escrow_account: entry,
        external_program: id(30),
        remaining_accounts: accounts.clone(),
    };
    assert_eq!(
        execute_external_action(ctx, vec![1, 2, 3], 50).unwrap_err(),
        EscrowError::Unauthorized
    );
    let ctx = ExternalAction {
        initializer: id(1),
        escrow_account: entry,
        external_program: id(30),
        remaining_accounts: accounts.clone(),
    };
    let (instruction, event) = execute_external_action(ctx, vec![1, 2, 3], 50).unwrap();
    assert_eq!(instruction.program, id(30));
    assert_eq!(instruction.accounts, accounts);
    assert_eq!(instruction.data, vec![1, 2, 3]);
    assert_eq!(event.initializer, id(1));
    assert_eq!(event.external_program, id(30));
    assert_eq!(event.timestamp, 50);
}
