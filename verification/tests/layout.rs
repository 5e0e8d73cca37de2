use escrow_contract::account::AccountId;
use escrow_contract::entry::EscrowAccount;
use escrow_contract::layout::{deserialize_entry, serialize_entry, ENTRY_RECORD_LEN};

fn sample_entry() -> EscrowAccount {
    EscrowAccount {
        initializer: AccountId { bytes: [1; 32] },
        initializer_deposit_token_account: AccountId { bytes: [2; 32] },
        amount: 0x0102_0304_0506_0708,
        escrow_seed: 0xAABB_CCDD,
        bump: 253,
        is_initialized: true,
        expiration_time: -5,
        fee_percentage: 42,
    }
}

#[test]
fn record_layout_is_fixed_and_little_endian() {
    let e = sample_entry();
    let bytes = serialize_entry(&e);
    assert_eq!(bytes.len(), ENTRY_RECORD_LEN);
    assert_eq!(&bytes[0..32], &[1; 32]);
    assert_eq!(&bytes[32..64], &[2; 32]);
    assert_eq!(&bytes[64..72], &[0x08, 0x07, 0x06, 0x05, 0x04, 0x03, 0x02, 0x01]);
    assert_eq!(&bytes[72..76], &[0xDD, 0xCC, 0xBB, 0xAA]);
    assert_eq!(bytes[76], 253);
    assert_eq!(bytes[77], 1);
    assert_eq!(&bytes[78..86], &(-5i64).to_le_bytes());
    assert_eq!(bytes[86], 42);
}

#[test]
fn record_round_trips() {
    let e = sample_entry();
    assert_eq!(deserialize_entry(&serialize_entry(&e)), Some(e));
    let fresh = EscrowAccount::fresh();
    assert_eq!(deserialize_entry(&serialize_entry(&fresh)), Some(fresh));
}

#[test]
fn zeroed_account_reads_as_uninitialized() {
    let zeroed = vec![0u8; ENTRY_RECORD_LEN];
    let e = deserialize_entry(&zeroed).unwrap();
    assert!(!e.is_initialized);
    assert_eq!(e, EscrowAccount::fresh());
}

#[test]
fn malformed_records_are_refused() {
    assert_eq!(deserialize_entry(&[0u8; 10]), None);
    assert_eq!(deserialize_entry(&vec![0u8; ENTRY_RECORD_LEN + 1]), None);
    let mut bad_flag = vec![0u8; ENTRY_RECORD_LEN];
    bad_flag[77] = 2;
    assert_eq!(deserialize_entry(&bad_flag), None);
}
