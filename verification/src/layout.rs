use vstd::prelude::*;

use crate::account::AccountId;
use crate::derivation::u32_le;
use crate::derivation::u32_le_bytes;
use crate::entry::EscrowAccount;

verus! {

/// The little-endian bytes of a 64-bit word.
pub open spec fn u64_le(x: u64) -> Seq<u8> {
    seq![
        (x & 0xff) as u8,
        ((x >> 8u64) & 0xff) as u8,
        ((x >> 16u64) & 0xff) as u8,
        ((x >> 24u64) & 0xff) as u8,
        ((x >> 32u64) & 0xff) as u8,
        ((x >> 40u64) & 0xff) as u8,
        ((x >> 48u64) & 0xff) as u8,
        ((x >> 56u64) & 0xff) as u8,
    ]
}

/// The little-endian bytes of a 64-bit word.
pub fn u64_le_bytes(x: u64) -> (r: Vec<u8>)
    ensures
        r@ == u64_le(x),
{
    proof {
        assert((x & 0xff) < 256 && ((x >> 8u64) & 0xff) < 256 && ((x >> 16u64) & 0xff) < 256 && ((x
            >> 24u64) & 0xff) < 256 && ((x >> 32u64) & 0xff) < 256 && ((x >> 40u64) & 0xff) < 256
            && ((x >> 48u64) & 0xff) < 256 && ((x >> 56u64) & 0xff) < 256) by (bit_vector);
    }
    let mut r: Vec<u8> = Vec::new();
    r.push((x & 0xff) as u8);
    r.push(((x >> 8u64) & 0xff) as u8);
    r.push(((x >> 16u64) & 0xff) as u8);
    r.push(((x >> 24u64) & 0xff) as u8);
    r.push(((x >> 32u64) & 0xff) as u8);
    r.push(((x >> 40u64) & 0xff) as u8);
    r.push(((x >> 48u64) & 0xff) as u8);
    r.push(((x >> 56u64) & 0xff) as u8);
    proof {
        assert(r@ =~= u64_le(x));
    }
    r
}

/// The byte that stands for a flag in the record.
pub open spec fn bool_byte(b: bool) -> u8 {
    if b {
        1u8
    } else {
        0u8
    }
}

/// The length in bytes of one persisted entry record. The account that
/// stores it reserves more space, to tolerate future field additions
/// without relocation.
pub const ENTRY_RECORD_LEN: usize = 87;

/// The fixed-size persisted form of an entry: the two identities, then the
/// principal, the seed, the bump, the initialization flag, the expiration
/// and the fee rate, all integers little-endian.
pub open spec fn entry_record(e: EscrowAccount) -> Seq<u8> {
    e.initializer.bytes@ + e.initializer_deposit_token_account.bytes@ + u64_le(e.amount) + u32_le(
        e.escrow_seed,
    ) + seq![e.bump, bool_byte(e.is_initialized)] + u64_le(e.expiration_time as u64) + seq![
        e.fee_percentage,
    ]
}

/// Every record is exactly [`ENTRY_RECORD_LEN`] bytes.
pub proof fn lemma_entry_record_len(e: EscrowAccount)
    ensures
        entry_record(e).len() == ENTRY_RECORD_LEN,
{
}

/// No two distinct 64-bit words share their little-endian bytes.
pub proof fn lemma_u64_le_injective(x: u64, y: u64)
    requires
        u64_le(x) == u64_le(y),
    ensures
        x == y,
{
    assert(u64_le(x)[0] == u64_le(y)[0] && u64_le(x)[1] == u64_le(y)[1] && u64_le(x)[2] == u64_le(
        y,
    )[2] && u64_le(x)[3] == u64_le(y)[3] && u64_le(x)[4] == u64_le(y)[4] && u64_le(x)[5] == u64_le(
        y,
    )[5] && u64_le(x)[6] == u64_le(y)[6] && u64_le(x)[7] == u64_le(y)[7]);
    assert(x == y) by (bit_vector)
        requires
            (x & 0xff) as u8 == (y & 0xff) as u8,
            ((x >> 8u64) & 0xff) as u8 == ((y >> 8u64) & 0xff) as u8,
            ((x >> 16u64) & 0xff) as u8 == ((y >> 16u64) & 0xff) as u8,
            ((x >> 24u64) & 0xff) as u8 == ((y >> 24u64) & 0xff) as u8,
            ((x >> 32u64) & 0xff) as u8 == ((y >> 32u64) & 0xff) as u8,
            ((x >> 40u64) & 0xff) as u8 == ((y >> 40u64) & 0xff) as u8,
            ((x >> 48u64) & 0xff) as u8 == ((y >> 48u64) & 0xff) as u8,
            ((x >> 56u64) & 0xff) as u8 == ((y >> 56u64) & 0xff) as u8,
    ;
}

/// No two distinct 32-bit words share their little-endian bytes.
pub proof fn lemma_u32_le_injective(x: u32, y: u32)
    requires
        u32_le(x) == u32_le(y),
    ensures
        x == y,
{
    assert(u32_le(x)[0] == u32_le(y)[0] && u32_le(x)[1] == u32_le(y)[1] && u32_le(x)[2] == u32_le(
        y,
    )[2] && u32_le(x)[3] == u32_le(y)[3]);
    assert(x == y) by (bit_vector)
        requires
            (x & 0xff) as u8 == (y & 0xff) as u8,
            ((x >> 8u32) & 0xff) as u8 == ((y >> 8u32) & 0xff) as u8,
            ((x >> 16u32) & 0xff) as u8 == ((y >> 16u32) & 0xff) as u8,
            ((x >> 24u32) & 0xff) as u8 == ((y >> 24u32) & 0xff) as u8,
    ;
}

/// Law: the persisted record is lossless — two entries with the same record
/// are the same entry, so reading a record back yields exactly the entry
/// that was written.
pub proof fn lemma_entry_record_injective(e1: EscrowAccount, e2: EscrowAccount)
    requires
        entry_record(e1) == entry_record(e2),
    ensures
        e1 == e2,
{
    lemma_entry_record_len(e1);
    lemma_entry_record_len(e2);
    assert forall|j: int| 0 <= j < 32 implies e1.initializer.bytes@[j]
        == e2.initializer.bytes@[j] by {
        assert(entry_record(e1)[j] == e1.initializer.bytes@[j]);
        assert(entry_record(e2)[j] == e2.initializer.bytes@[j]);
    }
    assert(e1.initializer.bytes =~= e2.initializer.bytes);
    assert forall|j: int| 0 <= j < 32 implies e1.initializer_deposit_token_account.bytes@[j]
        == e2.initializer_deposit_token_account.bytes@[j] by {
        assert(entry_record(e1)[32 + j] == e1.initializer_deposit_token_account.bytes@[j]);
        assert(entry_record(e2)[32 + j] == e2.initializer_deposit_token_account.bytes@[j]);
    }
    assert(e1.initializer_deposit_token_account.bytes
        =~= e2.initializer_deposit_token_account.bytes);
    assert(u64_le(e1.amount) =~= u64_le(e2.amount)) by {
        assert forall|k: int| 0 <= k < 8 implies u64_le(e1.amount)[k] == u64_le(e2.amount)[k] by {
            assert(entry_record(e1)[64 + k] == u64_le(e1.amount)[k]);
            assert(entry_record(e2)[64 + k] == u64_le(e2.amount)[k]);
        }
    }
    lemma_u64_le_injective(e1.amount, e2.amount);
    assert(u32_le(e1.escrow_seed) =~= u32_le(e2.escrow_seed)) by {
        assert forall|k: int| 0 <= k < 4 implies u32_le(e1.escrow_seed)[k] == u32_le(
            e2.escrow_seed,
        )[k] by {
            assert(entry_record(e1)[72 + k] == u32_le(e1.escrow_seed)[k]);
            assert(entry_record(e2)[72 + k] == u32_le(e2.escrow_seed)[k]);
        }
    }
    lemma_u32_le_injective(e1.escrow_seed, e2.escrow_seed);
    assert(entry_record(e1)[76] == e1.bump && entry_record(e2)[76] == e2.bump);
    assert(entry_record(e1)[77] == bool_byte(e1.is_initialized) && entry_record(e2)[77]
        == bool_byte(e2.is_initialized));
    let x1 = e1.expiration_time as u64;
    let x2 = e2.expiration_time as u64;
    assert(u64_le(x1) =~= u64_le(x2)) by {
        assert(entry_record(e1)[78] == u64_le(x1)[0] && entry_record(e2)[78] == u64_le(x2)[0]);
        assert(entry_record(e1)[79] == u64_le(x1)[1] && entry_record(e2)[79] == u64_le(x2)[1]);
        assert(entry_record(e1)[80] == u64_le(x1)[2] && entry_record(e2)[80] == u64_le(x2)[2]);
        assert(entry_record(e1)[81] == u64_le(x1)[3] && entry_record(e2)[81] == u64_le(x2)[3]);
        assert(entry_record(e1)[82] == u64_le(x1)[4] && entry_record(e2)[82] == u64_le(x2)[4]);
        assert(entry_record(e1)[83] == u64_le(x1)[5] && entry_record(e2)[83] == u64_le(x2)[5]);
        assert(entry_record(e1)[84] == u64_le(x1)[6] && entry_record(e2)[84] == u64_le(x2)[6]);
        assert(entry_record(e1)[85] == u64_le(x1)[7] && entry_record(e2)[85] == u64_le(x2)[7]);
    }
    lemma_u64_le_injective(x1, x2);
    let t1 = e1.expiration_time;
    let t2 = e2.expiration_time;
    assert(t1 == t2) by (bit_vector)
        requires
            t1 as u64 == t2 as u64,
    ;
    assert(entry_record(e1)[86] == e1.fee_percentage && entry_record(e2)[86]
        == e2.fee_percentage);
}

/// Write an entry in its persisted form.
pub fn serialize_entry(e: &EscrowAccount) -> (r: Vec<u8>)
    ensures
        r@ == entry_record(*e),
        r@.len() == ENTRY_RECORD_LEN,
{
    let mut r = crate::derivation::account_id_bytes(&e.initializer);
    let mut refund = crate::derivation::account_id_bytes(&e.initializer_deposit_token_account);
    r.append(&mut refund);
    let mut amount = u64_le_bytes(e.amount);
    r.append(&mut amount);
    let mut seed = u32_le_bytes(e.escrow_seed);
    r.append(&mut seed);
    r.push(e.bump);
    r.push(if e.is_initialized { 1 } else { 0 });
    let mut expiration = u64_le_bytes(e.expiration_time as u64);
    r.append(&mut expiration);
    r.push(e.fee_percentage);
    proof {
        assert(r@ =~= entry_record(*e));
    }
    r
}

/// Read an entry back from its persisted form. `None` exactly on byte
/// strings that are no entry's record: the wrong length, or a flag byte
/// that is neither zero nor one.
pub fn deserialize_entry(b: &[u8]) -> (r: Option<EscrowAccount>)
    ensures
        match r {
            Some(e) => b@ == entry_record(e),
            None => forall|e: EscrowAccount| b@ != entry_record(e),
        },
{
    if b.len() != ENTRY_RECORD_LEN {
        proof {
            assert forall|e: EscrowAccount| b@ != entry_record(e) by {
                lemma_entry_record_len(e);
            }
        }
        return None;
    }
    if b[77] > 1 {
        proof {
            assert forall|e: EscrowAccount| b@ != entry_record(e) by {
                lemma_entry_record_len(e);
                assert(entry_record(e)[77] == bool_byte(e.is_initialized));
            }
        }
        return None;
    }
    let mut initializer = [0u8; 32];
    let mut i: usize = 0;
    while i < 32
        invariant
            i <= 32,
            b@.len() == 87,
            forall|j: int| 0 <= j < i ==> initializer@[j] == b@[j],
        decreases 32 - i,
    {
        initializer[i] = b[i];
        i += 1;
    }
    let mut refund = [0u8; 32];
    let mut i: usize = 0;
    while i < 32
        invariant
            i <= 32,
            b@.len() == 87,
            forall|j: int| 0 <= j < i ==> refund@[j] == b@[32 + j],
        decreases 32 - i,
    {
        refund[i] = b[32 + i];
        i += 1;
    }
    let amount = read_u64_le(b, 64);
    let escrow_seed = read_u32_le(b, 72);
    let bump = b[76];
    let is_initialized = b[77] == 1;
    let expiration_bits = read_u64_le(b, 78);
    let expiration_time = expiration_bits as i64;
    let fee_percentage = b[86];
    let e = EscrowAccount {
        initializer: AccountId { bytes: initializer },
        initializer_deposit_token_account: AccountId { bytes: refund },
        amount,
        escrow_seed,
        bump,
        is_initialized,
        expiration_time,
        fee_percentage,
    };
    proof {
        let bits = expiration_bits;
        assert((bits as i64) as u64 == bits) by (bit_vector);
        assert(b@ =~= entry_record(e));
    }
    Some(e)
}

/// Read the 64-bit little-endian word at `offset`.
fn read_u64_le(b: &[u8], offset: usize) -> (x: u64)
    requires
        offset + 8 <= b@.len(),
    ensures
        u64_le(x) =~= b@.subrange(offset as int, offset + 8),
{
    let c0 = b[offset];
    let c1 = b[offset + 1];
    let c2 = b[offset + 2];
    let c3 = b[offset + 3];
    let c4 = b[offset + 4];
    let c5 = b[offset + 5];
    let c6 = b[offset + 6];
    let c7 = b[offset + 7];
    let x: u64 = (c0 as u64) | ((c1 as u64) << 8u64) | ((c2 as u64) << 16u64) | ((c3 as u64)
        << 24u64) | ((c4 as u64) << 32u64) | ((c5 as u64) << 40u64) | ((c6 as u64) << 48u64) | ((
    c7 as u64) << 56u64);
    proof {
        assert((x & 0xff) as u8 == c0 && ((x >> 8u64) & 0xff) as u8 == c1 && ((x >> 16u64) & 0xff)
            as u8 == c2 && ((x >> 24u64) & 0xff) as u8 == c3 && ((x >> 32u64) & 0xff) as u8 == c4
            && ((x >> 40u64) & 0xff) as u8 == c5 && ((x >> 48u64) & 0xff) as u8 == c6 && ((x
            >> 56u64) & 0xff) as u8 == c7) by (bit_vector)
            requires
                x == (c0 as u64) | ((c1 as u64) << 8u64) | ((c2 as u64) << 16u64) | ((c3 as u64)
                    << 24u64) | ((c4 as u64) << 32u64) | ((c5 as u64) << 40u64) | ((c6 as u64)
                    << 48u64) | ((c7 as u64) << 56u64),
        ;
    }
    x
}

/// Read the 32-bit little-endian word at `offset`.
fn read_u32_le(b: &[u8], offset: usize) -> (x: u32)
    requires
        offset + 4 <= b@.len(),
    ensures
        u32_le(x) =~= b@.subrange(offset as int, offset + 4),
{
    let c0 = b[offset];
    let c1 = b[offset + 1];
    let c2 = b[offset + 2];
    let c3 = b[offset + 3];
    let x: u32 = (c0 as u32) | ((c1 as u32) << 8u32) | ((c2 as u32) << 16u32) | ((c3 as u32)
        << 24u32);
    proof {
        assert((x & 0xff) as u8 == c0 && ((x >> 8u32) & 0xff) as u8 == c1 && ((x >> 16u32) & 0xff)
            as u8 == c2 && ((x >> 24u32) & 0xff) as u8 == c3) by (bit_vector)
            requires
                x == (c0 as u32) | ((c1 as u32) << 8u32) | ((c2 as u32) << 16u32) | ((c3 as u32)
                    << 24u32),
        ;
    }
    x
}

} // verus!
