//! Cross-program invocation without copies of the call's arguments.
//!
//! An instruction is laid out at fixed offsets over the buffers that it
//! owns, the accounts it names are checked against what is held on their
//! handles, and the code that comes back over the boundary is read into a
//! typed result. The call across the boundary itself is the caller's: it is
//! handed a [`Dispatch`] and hands back a code.

use solana_program::account_info::AccountInfo;
use vstd::prelude::*;

pub mod aliasing;
pub mod host;
pub mod instruction;
pub mod instruction_stabilizer;
pub mod pubkey;
pub mod stable_layout;

use crate::aliasing::{
    check_accounts, has_conflict, in_conflict, is_first_match, Access, AccountHandle,
};
use crate::host::observe_accounts;
use crate::instruction::{AccountMeta, Instruction};
use crate::instruction_stabilizer::{stabilizes, InstructionStabilizer};

verus! {

/// The code with which the boundary call reports success.
pub const SUCCESS: u64 = 0;

/// Why a call did not succeed.
#[derive(Clone, Copy, Debug, PartialEq, Eq, Structural)]
pub enum InvokeError {
    /// An access that the call needs is held elsewhere. Nothing was
    /// dispatched.
    PreconditionConflict,
    /// The call was dispatched and came back with this code, which is not
    /// the code of success.
    BoundaryFailure(u64),
}

/// One call, ready to cross the boundary: the stabilized instruction, whose
/// address is handed over, and the lengths of the two lists that go with it.
/// The caller hands over the lists themselves as they are.
///
/// The call either comes back with a code, which [`call_result`] reads, or
/// does not come back at all: the host may end the whole execution inside
/// it. That end is no error value and nothing here can recover from it.
pub struct Dispatch<'a> {
    pub stabilizer: InstructionStabilizer<'a>,
    pub account_infos_len: u64,
    pub signers_seeds_len: u64,
}

/// `dispatch` is the call that `instruction` describes, with lists of the
/// given lengths.
pub open spec fn dispatches(
    dispatch: Dispatch,
    instruction: Instruction,
    account_infos_len: nat,
    signers_seeds_len: nat,
) -> bool {
    &&& stabilizes(dispatch.stabilizer.layout(), instruction)
    &&& dispatch.account_infos_len == account_infos_len
    &&& dispatch.signers_seeds_len == signers_seeds_len
}

/// What a code that came back over the boundary means: success for the code
/// of success, else a failure that carries the code.
pub open spec fn spec_call_result(code: u64) -> Result<(), InvokeError> {
    if code == SUCCESS {
        Ok(())
    } else {
        Err(InvokeError::BoundaryFailure(code))
    }
}

/// How a checked call ends where the boundary, if it is reached, answers
/// `code`: with a conflict, the boundary is not reached.
pub open spec fn checked_outcome(
    metas: Seq<AccountMeta>,
    handles: Seq<AccountHandle>,
    code: u64,
) -> Result<(), InvokeError> {
    if has_conflict(metas, handles) {
        Err(InvokeError::PreconditionConflict)
    } else {
        spec_call_result(code)
    }
}

/// How an unchecked call ends where the boundary answers `code`.
pub open spec fn unchecked_outcome(code: u64) -> Result<(), InvokeError> {
    spec_call_result(code)
}

/// Reads the code that came back over the boundary.
pub fn call_result(code: u64) -> (result: Result<(), InvokeError>)
    ensures
        result == spec_call_result(code),
{
    if code == SUCCESS {
        Ok(())
    } else {
        Err(InvokeError::BoundaryFailure(code))
    }
}

/// Makes the call ready without any check.
fn dispatch_of<'a>(
    instruction: &'a Instruction,
    account_infos_len: usize,
    signers_seeds_len: usize,
) -> (dispatch: Dispatch<'a>)
    ensures
        dispatches(dispatch, *instruction, account_infos_len as nat, signers_seeds_len as nat),
{
    Dispatch {
        stabilizer: InstructionStabilizer::stabilize(instruction),
        account_infos_len: account_infos_len as u64,
        signers_seeds_len: signers_seeds_len as u64,
    }
}

/// The checked path on handles as they were observed: the call is made ready
/// if and only if no entry of the instruction is in conflict with them.
pub fn invoke_signed_observed<'a>(
    instruction: &'a Instruction,
    handles: &[AccountHandle],
    signers_seeds: &[&[&[u8]]],
) -> (result: Result<Dispatch<'a>, InvokeError>)
    ensures
        result is Err <==> has_conflict(instruction.accounts@, handles@),
        result is Err ==> result->Err_0 == InvokeError::PreconditionConflict,
        result is Ok ==> dispatches(
            result->Ok_0,
            *instruction,
            handles@.len(),
            signers_seeds@.len(),
        ),
{
    if !check_accounts(instruction.accounts.as_slice(), handles) {
        return Err(InvokeError::PreconditionConflict);
    }
    Ok(dispatch_of(instruction, handles.len(), signers_seeds.len()))
}

/// The checked path without signer seeds.
pub fn invoke<'a>(instruction: &'a Instruction, account_infos: &[AccountInfo]) -> (result: Result<
    Dispatch<'a>,
    InvokeError,
>)
    ensures
        result is Err ==> result->Err_0 == InvokeError::PreconditionConflict,
        result is Ok ==> dispatches(result->Ok_0, *instruction, account_infos@.len(), 0),
        instruction.accounts@.len() == 0 || account_infos@.len() == 0 ==> result is Ok,
{
    invoke_signed(instruction, account_infos, &[])
}

/// The unchecked path without signer seeds.
pub fn invoke_unchecked<'a>(instruction: &'a Instruction, account_infos: &[AccountInfo]) -> (dispatch:
    Dispatch<'a>)
    ensures
        dispatches(dispatch, *instruction, account_infos@.len(), 0),
{
    invoke_signed_unchecked(instruction, account_infos, &[])
}

/// The checked path: observes every handle, and makes the call ready unless
/// an entry of the instruction is in conflict with what was observed. What
/// the handles grant is theirs to say, so a conflict is promised absent only
/// where the instruction names no account or no handle is given.
pub fn invoke_signed<'a>(
    instruction: &'a Instruction,
    account_infos: &[AccountInfo],
    signers_seeds: &[&[&[u8]]],
) -> (result: Result<Dispatch<'a>, InvokeError>)
    ensures
        result is Err ==> result->Err_0 == InvokeError::PreconditionConflict,
        result is Ok ==> dispatches(
            result->Ok_0,
            *instruction,
            account_infos@.len(),
            signers_seeds@.len(),
        ),
        instruction.accounts@.len() == 0 || account_infos@.len() == 0 ==> result is Ok,
{
    let handles = observe_accounts(account_infos);
    invoke_signed_observed(instruction, handles.as_slice(), signers_seeds)
}

/// The unchecked path: the call is made ready whatever the handles hold. It
/// never ends in a conflict; once dispatched, the call comes back with a
/// code or not at all.
pub fn invoke_signed_unchecked<'a>(
    instruction: &'a Instruction,
    account_infos: &[AccountInfo],
    signers_seeds: &[&[&[u8]]],
) -> (dispatch: Dispatch<'a>)
    ensures
        dispatches(dispatch, *instruction, account_infos@.len(), signers_seeds@.len()),
{
    dispatch_of(instruction, account_infos.len(), signers_seeds.len())
}

/// Without a conflict the checked and the unchecked path end alike, whatever
/// code the boundary answers.
pub proof fn lemma_checked_agrees_with_unchecked(
    metas: Seq<AccountMeta>,
    handles: Seq<AccountHandle>,
    code: u64,
)
    requires
        !has_conflict(metas, handles),
    ensures
        checked_outcome(metas, handles, code) == unchecked_outcome(code),
{
}

/// Where an entry asks for write access and the first handle with its
/// identity has exclusive access held on its balance or on its data, the
/// checked path ends in a conflict, whatever the boundary would answer: it
/// is not reached.
pub proof fn lemma_held_access_conflicts(
    metas: Seq<AccountMeta>,
    handles: Seq<AccountHandle>,
    m: int,
    i: int,
    code: u64,
)
    requires
        0 <= m < metas.len(),
        metas[m].is_writable,
        is_first_match(handles, metas[m].pubkey@, i),
        handles[i].lamports == Access::Exclusive || handles[i].data == Access::Exclusive,
    ensures
        has_conflict(metas, handles),
        checked_outcome(metas, handles, code) == Err::<(), InvokeError>(
            InvokeError::PreconditionConflict,
        ),
{
    assert(!handles[i].admits(metas[m]));
    assert(in_conflict(metas[m], handles));
}

} // verus!
