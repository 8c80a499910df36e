use solana_program::account_info::AccountInfo;
use solana_program::program_error::ProgramError;
use vstd::prelude::*;

use crate::aliasing::{Access, AccountHandle};
use crate::pubkey::Pubkey;
use crate::InvokeError;

verus! {

/// The host's account handle. Nothing inside it is visible here: it is read
/// through the functions below only.
#[verifier::external_type_specification]
#[verifier::external_body]
pub struct ExAccountInfo<'a>(solana_program::account_info::AccountInfo<'a>);

/// The host's error type, carried through unread.
#[verifier::external_type_specification]
#[verifier::external_body]
pub struct ExProgramError(solana_program::program_error::ProgramError);

/// What `ProgramError::from` makes of a code that came back over the
/// boundary: one of the host's built-in errors for the codes it reserves, a
/// custom error otherwise.
pub uninterp spec fn program_error_of_code(code: u64) -> ProgramError;

/// The code that the host reserves for a failed borrow of an account.
pub const ACCOUNT_BORROW_FAILED: u64 = 51539607552;

/// The field `key` of the handle, by `Pubkey::to_bytes`. Nothing is claimed
/// of the bytes.
#[verifier::external_body]
fn handle_key(info: &AccountInfo) -> (key: Pubkey) {
    Pubkey { bytes: info.key.to_bytes() }
}

/// Whether `AccountInfo::try_borrow_lamports` grants shared access to the
/// balance now. The borrow is dropped at once. The answer depends on what
/// else holds the cell, so nothing is claimed of it.
#[verifier::external_body]
fn lamports_shared(info: &AccountInfo) -> (granted: bool) {
    info.try_borrow_lamports().is_ok()
}

/// Whether `AccountInfo::try_borrow_mut_lamports` grants exclusive access to
/// the balance now. The borrow is dropped at once; nothing is claimed of the
/// answer.
#[verifier::external_body]
fn lamports_exclusive(info: &AccountInfo) -> (granted: bool) {
    info.try_borrow_mut_lamports().is_ok()
}

/// Whether `AccountInfo::try_borrow_data` grants shared access to the data
/// now. The borrow is dropped at once; nothing is claimed of the answer.
#[verifier::external_body]
fn data_shared(info: &AccountInfo) -> (granted: bool) {
    info.try_borrow_data().is_ok()
}

/// Whether `AccountInfo::try_borrow_mut_data` grants exclusive access to the
/// data now. The borrow is dropped at once; nothing is claimed of the answer.
#[verifier::external_body]
fn data_exclusive(info: &AccountInfo) -> (granted: bool) {
    info.try_borrow_mut_data().is_ok()
}

/// `ProgramError::from` on a code: the host's own reading of it.
#[verifier::external_body]
fn program_error_from_code(code: u64) -> (err: ProgramError)
    ensures
        err == program_error_of_code(code),
{
    ProgramError::from(code)
}

/// What is held on a cell, from what two probes of it answered.
pub open spec fn spec_access_of(exclusive_granted: bool, shared_granted: bool) -> Access {
    if exclusive_granted {
        Access::Free
    } else if shared_granted {
        Access::Shared
    } else {
        Access::Exclusive
    }
}

/// What is held on a cell: nothing where exclusive access was granted,
/// shared access where only shared access was, exclusive access where
/// neither was.
pub fn access_of(exclusive_granted: bool, shared_granted: bool) -> (access: Access)
    ensures
        access == spec_access_of(exclusive_granted, shared_granted),
{
    if exclusive_granted {
        Access::Free
    } else if shared_granted {
        Access::Shared
    } else {
        Access::Exclusive
    }
}

/// Reads a handle of the host: its identity, and what both cells grant now.
/// Each probe is released before the next; none is held afterwards.
fn observe_account(info: &AccountInfo) -> (handle: AccountHandle) {
    let key = handle_key(info);
    let lamports = access_of(lamports_exclusive(info), lamports_shared(info));
    let data = access_of(data_exclusive(info), data_shared(info));
    AccountHandle { key, lamports, data }
}

/// Reads every handle, in the given order: one observation for each. What an
/// observation holds is the host's to say.
pub fn observe_accounts(account_infos: &[AccountInfo]) -> (handles: Vec<AccountHandle>)
    ensures
        handles@.len() == account_infos@.len(),
{
    let mut handles: Vec<AccountHandle> = Vec::new();
    let mut i: usize = 0;
    while i < account_infos.len()
        invariant
            i <= account_infos@.len(),
            handles@.len() == i,
        decreases account_infos@.len() - i,
    {
        handles.push(observe_account(&account_infos[i]));
        i = i + 1;
    }
    handles
}

/// The code by which the host knows an error of this library.
pub open spec fn host_code(err: InvokeError) -> u64 {
    match err {
        InvokeError::PreconditionConflict => ACCOUNT_BORROW_FAILED,
        InvokeError::BoundaryFailure(code) => code,
    }
}

/// The host's error for an error of this library: a failed borrow for a
/// conflict, and for a failure of the call what the host reads from its code.
pub fn to_program_error(err: InvokeError) -> (host: ProgramError)
    ensures
        host == program_error_of_code(host_code(err)),
{
    match err {
        InvokeError::PreconditionConflict => program_error_from_code(ACCOUNT_BORROW_FAILED),
        InvokeError::BoundaryFailure(code) => program_error_from_code(code),
    }
}

} // verus!
