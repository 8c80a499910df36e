use vstd::prelude::*;

use crate::pubkey::Pubkey;

verus! {

/// Size in bytes of the image of an [`AccountMeta`]: the identity, then one
/// byte for each flag. Every field is made of bytes, so nothing pads it.
pub const ACCOUNT_META_BYTES: usize = 34;

/// The byte that stands for a flag.
pub open spec fn flag_byte(flag: bool) -> u8 {
    if flag {
        1u8
    } else {
        0u8
    }
}

/// One account reference of a call: whose account it is, whether that account
/// signs, and whether the callee may write to it.
#[derive(Clone, Copy, Debug, PartialEq, Eq)]
pub struct AccountMeta {
    pub pubkey: Pubkey,
    pub is_signer: bool,
    pub is_writable: bool,
}

impl AccountMeta {
    /// The image of the entry: 32 bytes of identity, the signer flag, the
    /// writable flag.
    pub open spec fn spec_encode(&self) -> Seq<u8> {
        self.pubkey@ + seq![flag_byte(self.is_signer), flag_byte(self.is_writable)]
    }

    /// Writes the entry out as its image.
    pub fn to_bytes(&self) -> (image: [u8; 34])
        ensures
            image@ == self.spec_encode(),
    {
        let mut image: [u8; 34] = [0u8; 34];
        let mut i: usize = 0;
        while i < 32
            invariant
                i <= 32,
                image@.len() == 34,
                forall|j: int| 0 <= j < i ==> image@[j] == self.pubkey@[j],
            decreases 32 - i,
        {
            image[i] = self.pubkey.bytes[i];
            i = i + 1;
        }
        image[32] = if self.is_signer {
            1u8
        } else {
            0u8
        };
        image[33] = if self.is_writable {
            1u8
        } else {
            0u8
        };
        assert(image@ =~= self.spec_encode());
        image
    }

    /// Reads an entry back from its image. `None` where the image has not
    /// the entry's size, or a flag byte is neither 0 nor 1.
    pub fn from_bytes(image: &[u8]) -> (meta: Option<AccountMeta>)
        ensures
            meta is Some <==> image@.len() == ACCOUNT_META_BYTES && image@[32] <= 1 && image@[33]
                <= 1,
            meta is Some ==> meta->Some_0.spec_encode() == image@,
    {
        if image.len() != 34 {
            return None;
        }
        if image[32] > 1 || image[33] > 1 {
            return None;
        }
        let mut bytes: [u8; 32] = [0u8; 32];
        let mut i: usize = 0;
        while i < 32
            invariant
                i <= 32,
                image@.len() == 34,
                bytes@.len() == 32,
                forall|j: int| 0 <= j < i ==> bytes@[j] == image@[j],
            decreases 32 - i,
        {
            bytes[i] = image[i];
            i = i + 1;
        }
        let meta = AccountMeta {
            pubkey: Pubkey { bytes },
            is_signer: image[32] == 1,
            is_writable: image[33] == 1,
        };
        assert(meta.spec_encode() =~= image@);
        Some(meta)
    }

    /// A reference to an account that the callee may write to.
    pub fn new(pubkey: Pubkey, is_signer: bool) -> (meta: AccountMeta)
        ensures
            meta.pubkey == pubkey,
            meta.is_signer == is_signer,
            meta.is_writable,
    {
        AccountMeta { pubkey, is_signer, is_writable: true }
    }

    /// A reference to an account that the callee may only read.
    pub fn new_readonly(pubkey: Pubkey, is_signer: bool) -> (meta: AccountMeta)
        ensures
            meta.pubkey == pubkey,
            meta.is_signer == is_signer,
            !meta.is_writable,
    {
        AccountMeta { pubkey, is_signer, is_writable: false }
    }
}

/// The description of a call that its caller owns: the program to run, the
/// accounts it touches, in order, and the payload handed to it.
#[derive(Clone, Debug, PartialEq, Eq)]
pub struct Instruction {
    pub program_id: Pubkey,
    pub accounts: Vec<AccountMeta>,
    pub data: Vec<u8>,
}

impl Instruction {
    /// Puts the three parts of a call together, taking ownership of both
    /// buffers as they are.
    pub fn new(program_id: Pubkey, accounts: Vec<AccountMeta>, data: Vec<u8>) -> (ix: Instruction)
        ensures
            ix.program_id == program_id,
            ix.accounts == accounts,
            ix.data == data,
    {
        Instruction { program_id, accounts, data }
    }
}

} // verus!
