use vstd::prelude::*;

use crate::account::AccountId;

verus! {

/// The namespace tag under which escrow entry addresses are derived: the
/// bytes of `"escrow"`.
pub open spec fn escrow_namespace() -> Seq<u8> {
    seq![101u8, 115u8, 99u8, 114u8, 111u8, 119u8]
}

/// The namespace tag under which custody vault addresses are derived: the
/// bytes of `"vault"`.
pub open spec fn vault_namespace() -> Seq<u8> {
    seq![118u8, 97u8, 117u8, 108u8, 116u8]
}

/// The bytes of the escrow namespace tag.
pub fn escrow_namespace_bytes() -> (r: Vec<u8>)
    ensures
        r@ == escrow_namespace(),
{
    let mut r: Vec<u8> = Vec::new();
    r.push(101u8);
    r.push(115u8);
    r.push(99u8);
    r.push(114u8);
    r.push(111u8);
    r.push(119u8);
    proof {
        assert(r@ =~= escrow_namespace());
    }
    r
}

/// The bytes of the vault namespace tag.
pub fn vault_namespace_bytes() -> (r: Vec<u8>)
    ensures
        r@ == vault_namespace(),
{
    let mut r: Vec<u8> = Vec::new();
    r.push(118u8);
    r.push(97u8);
    r.push(117u8);
    r.push(108u8);
    r.push(116u8);
    proof {
        assert(r@ =~= vault_namespace());
    }
    r
}

/// The little-endian byte rendering of a seed, the form in which it enters
/// address derivation and vault signing.
pub open spec fn u32_le(x: u32) -> Seq<u8> {
    seq![
        (x & 0xff) as u8,
        ((x >> 8u32) & 0xff) as u8,
        ((x >> 16u32) & 0xff) as u8,
        ((x >> 24u32) & 0xff) as u8,
    ]
}

/// The little-endian bytes of a seed.
pub fn u32_le_bytes(x: u32) -> (r: Vec<u8>)
    ensures
        r@ == u32_le(x),
{
    proof {
        assert((x & 0xff) < 256 && ((x >> 8u32) & 0xff) < 256 && ((x >> 16u32) & 0xff) < 256 && ((x
            >> 24u32) & 0xff) < 256) by (bit_vector);
    }
    let mut r: Vec<u8> = Vec::new();
    r.push((x & 0xff) as u8);
    r.push(((x >> 8u32) & 0xff) as u8);
    r.push(((x >> 16u32) & 0xff) as u8);
    r.push(((x >> 24u32) & 0xff) as u8);
    proof {
        assert(r@ =~= u32_le(x));
    }
    r
}

/// The 32 bytes of an account id, as a vector.
pub fn account_id_bytes(id: &AccountId) -> (r: Vec<u8>)
    ensures
        r@ == id.bytes@,
{
    let mut r: Vec<u8> = Vec::new();
    let mut i: usize = 0;
    while i < 32
        invariant
            i <= 32,
            r@ == id.bytes@.subrange(0, i as int),
        decreases 32 - i,
    {
        r.push(id.bytes[i]);
        proof {
            assert(r@ =~= id.bytes@.subrange(0, i + 1));
        }
        i += 1;
    }
    proof {
        assert(r@ =~= id.bytes@);
    }
    r
}

/// The seed tuple with which an entry signs for its vault: the escrow
/// namespace tag, the little-endian seed, and the derivation bump. Only by
/// re-deriving this tuple from the entry's own stored fields can anything
/// hold the vault's transfer authority.
pub fn signer_seeds(escrow_seed: u32, bump: u8) -> (r: (Vec<u8>, Vec<u8>, Vec<u8>))
    ensures
        r.0@ == escrow_namespace(),
        r.1@ == u32_le(escrow_seed),
        r.2@ == seq![bump],
{
    let ns = escrow_namespace_bytes();
    let seed = u32_le_bytes(escrow_seed);
    let mut b: Vec<u8> = Vec::new();
    b.push(bump);
    proof {
        assert(b@ =~= seq![bump]);
    }
    (ns, seed, b)
}

/// The address and bump that deterministic derivation assigns to a pair of
/// seeds under a program id.
pub uninterp spec fn derived_pair(seed_a: Seq<u8>, seed_b: Seq<u8>, program: Seq<u8>) -> (
    Seq<u8>,
    u8,
);

/// Relies on `Pubkey::try_find_program_address` (solana-address, re-exported
/// through anchor_lang's prelude): a deterministic, collision-resistant
/// derivation by SHA-256 over the seeds, a bump and the program id, a
/// function of its arguments alone; it returns `None` only in the
/// statistically improbable case that no bump yields a valid address, and
/// never panics.
#[verifier::external_body]
fn find_derived_address(seed_a: &Vec<u8>, seed_b: &Vec<u8>, program: &AccountId) -> (r: Option<
    (AccountId, u8),
>)
    ensures
        r matches Some(p) ==> p.0.bytes@ == derived_pair(seed_a@, seed_b@, program.bytes@).0 && p.1
            == derived_pair(seed_a@, seed_b@, program.bytes@).1,
{
    let program_id = anchor_lang::prelude::Pubkey::new_from_array(program.bytes);
    let found = anchor_lang::prelude::Pubkey::try_find_program_address(
        &[seed_a.as_slice(), seed_b.as_slice()],
        &program_id,
    );
    found.map(|p| (AccountId { bytes: p.0.to_bytes() }, p.1))
}

/// Locate the escrow entry for a seed under a program: the derived address,
/// and the bump that [`signer_seeds`] must carry.
pub fn derive_escrow_account(escrow_seed: u32, program: &AccountId) -> (r: Option<(AccountId, u8)>)
    ensures
        r matches Some(p) ==> p.0.bytes@ == derived_pair(
            escrow_namespace(),
            u32_le(escrow_seed),
            program.bytes@,
        ).0 && p.1 == derived_pair(escrow_namespace(), u32_le(escrow_seed), program.bytes@).1,
{
    let ns = escrow_namespace_bytes();
    let seed = u32_le_bytes(escrow_seed);
    find_derived_address(&ns, &seed, program)
}

/// Locate the custody vault owned by the entry at `escrow_account`, derived
/// in turn from the entry's own address.
pub fn derive_vault(escrow_account: &AccountId, program: &AccountId) -> (r: Option<
    (AccountId, u8),
>)
    ensures
        r matches Some(p) ==> p.0.bytes@ == derived_pair(
            vault_namespace(),
            escrow_account.bytes@,
            program.bytes@,
        ).0 && p.1 == derived_pair(vault_namespace(), escrow_account.bytes@, program.bytes@).1,
{
    let ns = vault_namespace_bytes();
    let key = account_id_bytes(escrow_account);
    find_derived_address(&ns, &key, program)
}

} // verus!
