use vstd::prelude::*;

use crate::instruction::AccountMeta;
use crate::pubkey::Pubkey;

verus! {

/// What is held, at one moment, on one of an account's two cells.
#[derive(Clone, Copy, Debug, PartialEq, Eq, Structural)]
pub enum Access {
    /// Nothing is held: shared and exclusive access can both be had.
    Free,
    /// Shared access is held: more shared access can be had, exclusive not.
    Shared,
    /// Exclusive access is held: no access can be had.
    Exclusive,
}

/// What the check reads of an account handle: the account's identity, and
/// what is held on its balance and on its data.
#[derive(Clone, Copy, Debug, PartialEq, Eq)]
pub struct AccountHandle {
    pub key: Pubkey,
    pub lamports: Access,
    pub data: Access,
}

impl AccountHandle {
    /// Exclusive access to balance and data can be had.
    pub open spec fn admits_write(&self) -> bool {
        self.lamports == Access::Free && self.data == Access::Free
    }

    /// Shared access to balance and data can be had.
    pub open spec fn admits_read(&self) -> bool {
        self.lamports != Access::Exclusive && self.data != Access::Exclusive
    }

    /// The access that `meta` asks for can be had.
    pub open spec fn admits(&self, meta: AccountMeta) -> bool {
        if meta.is_writable {
            self.admits_write()
        } else {
            self.admits_read()
        }
    }

    /// Whether the access that `meta` asks for can be had.
    pub fn probe(&self, meta: &AccountMeta) -> (granted: bool)
        ensures
            granted == self.admits(*meta),
    {
        if meta.is_writable {
            self.lamports == Access::Free && self.data == Access::Free
        } else {
            self.lamports != Access::Exclusive && self.data != Access::Exclusive
        }
    }
}

/// `i` is the first handle whose identity is `key`.
pub open spec fn is_first_match(handles: Seq<AccountHandle>, key: Seq<u8>, i: int) -> bool {
    &&& 0 <= i < handles.len()
    &&& handles[i].key@ == key
    &&& forall|j: int| 0 <= j < i ==> #[trigger] handles[j].key@ != key
}

/// The access that `meta` asks for cannot be had on the first handle that
/// has its identity. An entry that no handle matches is never in conflict.
pub open spec fn in_conflict(meta: AccountMeta, handles: Seq<AccountHandle>) -> bool {
    exists|i: int| #[trigger] is_first_match(handles, meta.pubkey@, i) && !handles[i].admits(meta)
}

/// Some entry of `metas` is in conflict.
pub open spec fn has_conflict(metas: Seq<AccountMeta>, handles: Seq<AccountHandle>) -> bool {
    exists|m: int| 0 <= m < metas.len() && in_conflict(#[trigger] metas[m], handles)
}

/// Finds the first handle with the identity `key`.
pub fn find_handle(handles: &[AccountHandle], key: &Pubkey) -> (found: Option<usize>)
    ensures
        match found {
            Some(i) => is_first_match(handles@, key@, i as int),
            None => forall|j: int| 0 <= j < handles@.len() ==> #[trigger] handles@[j].key@ != key@,
        },
{
    let mut i: usize = 0;
    while i < handles.len()
        invariant
            i <= handles@.len(),
            forall|j: int| 0 <= j < i ==> #[trigger] handles@[j].key@ != key@,
        decreases handles@.len() - i,
    {
        if handles[i].key.same(key) {
            return Some(i);
        }
        i = i + 1;
    }
    None
}

/// Whether the access that `meta` asks for can be had on the handle that it
/// names; an entry that names none passes.
pub fn check_account(meta: &AccountMeta, handles: &[AccountHandle]) -> (clear: bool)
    ensures
        clear == !in_conflict(*meta, handles@),
{
    match find_handle(handles, &meta.pubkey) {
        Some(i) => {
            let granted = handles[i].probe(meta);
            proof {
                lemma_first_match_unique(handles@, meta.pubkey@, i as int);
                if !granted {
                    assert(is_first_match(handles@, meta.pubkey@, i as int));
                }
            }
            granted
        },
        None => {
            assert(forall|k: int| !is_first_match(handles@, meta.pubkey@, k));
            true
        },
    }
}

/// Whether every entry of `metas` can have the access that it asks for.
pub fn check_accounts(metas: &[AccountMeta], handles: &[AccountHandle]) -> (clear: bool)
    ensures
        clear == !has_conflict(metas@, handles@),
{
    let mut m: usize = 0;
    while m < metas.len()
        invariant
            m <= metas@.len(),
            forall|k: int| 0 <= k < m ==> !in_conflict(#[trigger] metas@[k], handles@),
        decreases metas@.len() - m,
    {
        if !check_account(&metas[m], handles) {
            assert(in_conflict(metas@[m as int], handles@));
            return false;
        }
        m = m + 1;
    }
    true
}

/// At most one handle is the first with a given identity.
pub proof fn lemma_first_match_unique(handles: Seq<AccountHandle>, key: Seq<u8>, i: int)
    requires
        is_first_match(handles, key, i),
    ensures
        forall|k: int| #[trigger] is_first_match(handles, key, k) ==> k == i,
{
    assert forall|k: int| #[trigger] is_first_match(handles, key, k) implies k == i by {
        if k < i {
            assert(handles[k].key@ != key);
        } else if i < k {
            assert(handles[i].key@ != key);
        }
    }
}

} // verus!
