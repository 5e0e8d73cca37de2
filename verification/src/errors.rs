use vstd::prelude::*;

verus! {

/// The reasons an escrow operation can be refused. Every refusal is terminal
/// for the current call and leaves the entry and all balances unchanged.
#[derive(Clone, Copy, Debug, PartialEq, Eq, Structural)]
pub enum EscrowError {
    /// The deposit amount was zero.
    InvalidAmount,
    /// A deposit targeted an entry that is already initialized.
    AlreadyInitialized,
    /// A settlement was attempted after the entry's expiration time.
    EscrowExpired,
    /// A ledger transfer could not be satisfied: the paying balance is too
    /// small, a credited balance would overflow, or the fee exceeds the
    /// principal.
    InsufficientFunds,
    /// The caller is not the party the operation is reserved for.
    Unauthorized,
}

impl EscrowError {
    /// A short human-readable description of the error.
    pub fn message(&self) -> (r: &'static str)
        ensures
            r@.len() > 0,
    {
        let s = match self {
            EscrowError::InvalidAmount => "Amount must be greater than zero",
            EscrowError::AlreadyInitialized => "Escrow account already initialized",
            EscrowError::EscrowExpired => "Escrow has expired",
            EscrowError::InsufficientFunds => "Insufficient funds after fee calculation",
            EscrowError::Unauthorized => "Unauthorized operation",
        };
        proof {
            reveal_strlit("Amount must be greater than zero");
            reveal_strlit("Escrow account already initialized");
            reveal_strlit("Escrow has expired");
            reveal_strlit("Insufficient funds after fee calculation");
            reveal_strlit("Unauthorized operation");
        }
        s
    }
}

} // verus!
