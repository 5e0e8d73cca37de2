use vstd::prelude::*;

use crate::account::AccountId;
use crate::entry::EscrowAccount;
use crate::errors::EscrowError;
use crate::events::ExternalActionEvent;

verus! {

/// One account handed through to a delegated call, with the flags the
/// target program sees.
#[derive(Clone, Copy, Debug, PartialEq, Eq)]
pub struct CallAccount {
    pub address: AccountId,
    pub is_signer: bool,
    pub is_writable: bool,
}

/// What a delegated call reads: the signing caller, the entry whose
/// authority is to co-sign, the target program and the accounts passed
/// through.
#[derive(Debug, PartialEq, Eq)]
pub struct ExternalAction {
    /// The signing caller; must be the entry's initializer.
    pub initializer: AccountId,
    /// The entry whose derived authority co-signs the call.
    pub escrow_account: EscrowAccount,
    /// The external program the instruction is addressed to.
    pub external_program: AccountId,
    /// The caller-supplied account list, passed through untouched.
    pub remaining_accounts: Vec<CallAccount>,
}

/// An instruction the entry's authority has agreed to co-sign, for the host
/// to issue toward the external program. The target and the payload are
/// wholly external and untrusted; the contract's only obligation is the
/// identity check made before this value exists.
#[derive(Debug, PartialEq, Eq)]
pub struct DelegatedInstruction {
    pub program: AccountId,
    pub accounts: Vec<CallAccount>,
    pub data: Vec<u8>,
}

/// Delegate a call: after checking that the caller is the original
/// initializer, hand back the instruction that the entry's derived
/// authority is to co-sign, built from the caller's target, account list
/// and payload, all passed through unchanged.
pub fn execute_external_action(ctx: ExternalAction, data: Vec<u8>, now: i64) -> (r: Result<
    (DelegatedInstruction, ExternalActionEvent),
    EscrowError,
>)
    ensures
        r is Ok <==> ctx.initializer.eq_spec(ctx.escrow_account.initializer),
        r matches Err(e) ==> e == EscrowError::Unauthorized,
        r matches Ok(p) ==> p.0.program == ctx.external_program && p.0.accounts@
            == ctx.remaining_accounts@ && p.0.data@ == data@ && p.1 == (ExternalActionEvent {
            initializer: ctx.initializer,
            external_program: ctx.external_program,
            timestamp: now,
        }),
{
    let ExternalAction { initializer, escrow_account, external_program, remaining_accounts } = ctx;
    if !initializer.equals(&escrow_account.initializer) {
        return Err(EscrowError::Unauthorized);
    }
    let instruction = DelegatedInstruction {
        program: external_program,
        accounts: remaining_accounts,
        data,
    };
    let event = ExternalActionEvent {
        initializer,
        external_program,
        timestamp: now,
    };
    Ok((instruction, event))
}

} // verus!
