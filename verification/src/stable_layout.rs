use std::marker::PhantomData;
use vstd::bytes::{
    lemma_auto_spec_u64_to_from_le_bytes, spec_u64_from_le_bytes, spec_u64_to_le_bytes,
    spec_u64_to_le_bytes_to_open, u64_from_le_bytes,
};
use vstd::prelude::*;
use vstd::slice::slice_subrange;

use crate::instruction::AccountMeta;
use crate::pubkey::Pubkey;

verus! {

/// Size in bytes of the image of a [`StableInstruction`].
pub const STABLE_INSTRUCTION_BYTES: usize = 80;

/// Offset of the target program's identity in the image.
pub const PROGRAM_ID_OFFSET: usize = 0;

/// Offset of the accounts view (address, capacity, length) in the image.
pub const ACCOUNTS_OFFSET: usize = 32;

/// Offset of the data view (address, capacity, length) in the image.
pub const DATA_OFFSET: usize = 56;

/// A view of the storage of a growable buffer: where it starts, how many
/// elements it has room for, and how many it holds. It owns nothing, and
/// nothing is freed or resized through it.
#[derive(Debug, PartialEq, Eq)]
pub struct StableVec<T> {
    /// The address at which the storage starts.
    pub ptr: usize,
    /// The number of elements the storage has room for.
    pub cap: usize,
    /// The number of elements the storage holds.
    pub len: usize,
    /// The type of the elements, of which the view holds none.
    pub _marker: PhantomData<T>,
}

impl<T> StableVec<T> {
    /// A view starts at a non-null address and holds no more than it has
    /// room for.
    pub open spec fn well_formed(&self) -> bool {
        self.ptr != 0 && self.len <= self.cap
    }

    /// The three machine words of the view, in the order address, capacity,
    /// length, each little-endian.
    pub open spec fn spec_encode(&self) -> Seq<u8> {
        spec_u64_to_le_bytes(self.ptr as u64) + spec_u64_to_le_bytes(self.cap as u64)
            + spec_u64_to_le_bytes(self.len as u64)
    }

    /// A view from its three parts.
    pub fn new(ptr: usize, cap: usize, len: usize) -> (view: StableVec<T>)
        ensures
            view.ptr == ptr,
            view.cap == cap,
            view.len == len,
    {
        StableVec { ptr, cap, len, _marker: PhantomData }
    }
}

/// The fixed layout of a call that crosses the boundary: the target
/// program, then the view of the accounts, then the view of the data.
#[derive(Debug, PartialEq, Eq)]
pub struct StableInstruction {
    pub program_id: Pubkey,
    pub accounts: StableVec<AccountMeta>,
    pub data: StableVec<u8>,
}

/// The machine word that starts at `offset` in `image`, read little-endian.
pub open spec fn word_at(image: Seq<u8>, offset: int) -> u64 {
    spec_u64_from_le_bytes(image.subrange(offset, offset + 8))
}

/// What reading a view at `offset` of `image` gives: the three words, in the
/// order address, capacity, length.
pub open spec fn view_at<T>(image: Seq<u8>, offset: int, view: StableVec<T>) -> bool {
    &&& view.ptr as u64 == word_at(image, offset)
    &&& view.cap as u64 == word_at(image, offset + 8)
    &&& view.len as u64 == word_at(image, offset + 16)
}

/// Every word of the two views in `image` fits a machine word of this
/// machine.
pub open spec fn words_fit(image: Seq<u8>) -> bool {
    &&& word_at(image, 32) <= usize::MAX as u64
    &&& word_at(image, 40) <= usize::MAX as u64
    &&& word_at(image, 48) <= usize::MAX as u64
    &&& word_at(image, 56) <= usize::MAX as u64
    &&& word_at(image, 64) <= usize::MAX as u64
    &&& word_at(image, 72) <= usize::MAX as u64
}

/// `image` can be read as a layout: it has the layout's size and its words fit.
pub open spec fn decodable(image: Seq<u8>) -> bool {
    image.len() == STABLE_INSTRUCTION_BYTES && words_fit(image)
}

/// `layout` is what the fields of `image` hold at their offsets.
pub open spec fn decodes_to(image: Seq<u8>, layout: StableInstruction) -> bool {
    &&& image.len() == STABLE_INSTRUCTION_BYTES
    &&& layout.program_id@ == image.subrange(0, 32)
    &&& view_at(image, 32, layout.accounts)
    &&& view_at(image, 56, layout.data)
}

impl StableInstruction {
    /// Both views are well formed.
    pub open spec fn well_formed(&self) -> bool {
        self.accounts.well_formed() && self.data.well_formed()
    }

    /// The image of the layout: 32 bytes of identity, then the accounts view,
    /// then the data view.
    pub open spec fn spec_encode(&self) -> Seq<u8> {
        self.program_id@ + self.accounts.spec_encode() + self.data.spec_encode()
    }

    /// Writes the layout out as its image.
    pub fn to_bytes(&self) -> (image: [u8; 80])
        ensures
            image@ == self.spec_encode(),
    {
        let mut image: [u8; 80] = [0u8; 80];
        let mut i: usize = 0;
        while i < 32
            invariant
                i <= 32,
                image@.len() == 80,
                image@.subrange(0, i as int) == self.program_id@.subrange(0, i as int),
            decreases 32 - i,
        {
            image[i] = self.program_id.bytes[i];
            i = i + 1;
            assert(image@.subrange(0, i as int) =~= self.program_id@.subrange(0, i as int));
        }
        assert(image@.subrange(0, 32) =~= self.program_id@);
        put_word(&mut image, 32, self.accounts.ptr as u64);
        put_word(&mut image, 40, self.accounts.cap as u64);
        put_word(&mut image, 48, self.accounts.len as u64);
        put_word(&mut image, 56, self.data.ptr as u64);
        put_word(&mut image, 64, self.data.cap as u64);
        put_word(&mut image, 72, self.data.len as u64);
        proof {
            lemma_auto_spec_u64_to_from_le_bytes();
            assert(image@ =~= self.spec_encode());
        }
        image
    }

    /// Reads a layout back from an image. `None` where the image has not the
    /// layout's size, or holds a word that is no machine word here.
    pub fn from_bytes(image: &[u8]) -> (layout: Option<StableInstruction>)
        ensures
            layout is Some <==> decodable(image@),
            layout is Some ==> decodes_to(image@, layout->Some_0),
    {
        if image.len() != 80 {
            return None;
        }
        let mut bytes: [u8; 32] = [0u8; 32];
        let mut i: usize = 0;
        while i < 32
            invariant
                i <= 32,
                image@.len() == 80,
                bytes@.len() == 32,
                bytes@.subrange(0, i as int) == image@.subrange(0, i as int),
            decreases 32 - i,
        {
            bytes[i] = image[i];
            i = i + 1;
            assert(bytes@.subrange(0, i as int) =~= image@.subrange(0, i as int));
        }
        assert(bytes@ =~= image@.subrange(0, 32));
        let accounts_ptr = get_word(image, 32);
        let accounts_cap = get_word(image, 40);
        let accounts_len = get_word(image, 48);
        let data_ptr = get_word(image, 56);
        let data_cap = get_word(image, 64);
        let data_len = get_word(image, 72);
        let limit = usize::MAX as u64;
        if accounts_ptr > limit || accounts_cap > limit || accounts_len > limit || data_ptr > limit
            || data_cap > limit || data_len > limit {
            return None;
        }
        Some(
            StableInstruction {
                program_id: Pubkey { bytes },
                accounts: StableVec::new(
                    accounts_ptr as usize,
                    accounts_cap as usize,
                    accounts_len as usize,
                ),
                data: StableVec::new(data_ptr as usize, data_cap as usize, data_len as usize),
            },
        )
    }
}

/// Writes `word` little-endian into the eight bytes of `image` from `offset` on.
fn put_word(image: &mut [u8; 80], offset: usize, word: u64)
    requires
        offset + 8 <= 80,
    ensures
        final(image)@ == old(image)@.subrange(0, offset as int) + spec_u64_to_le_bytes(word)
            + old(image)@.subrange(offset + 8, 80),
{
    proof {
        spec_u64_to_le_bytes_to_open(word);
    }
    image[offset] = (word & 0xff) as u8;
    image[offset + 1] = ((word >> 8) & 0xff) as u8;
    image[offset + 2] = ((word >> 16) & 0xff) as u8;
    image[offset + 3] = ((word >> 24) & 0xff) as u8;
    image[offset + 4] = ((word >> 32) & 0xff) as u8;
    image[offset + 5] = ((word >> 40) & 0xff) as u8;
    image[offset + 6] = ((word >> 48) & 0xff) as u8;
    image[offset + 7] = ((word >> 56) & 0xff) as u8;
    assert(image@ =~= old(image)@.subrange(0, offset as int) + spec_u64_to_le_bytes(word)
        + old(image)@.subrange(offset + 8, 80));
}

/// Reads the word that starts at `offset` in `image`.
fn get_word(image: &[u8], offset: usize) -> (word: u64)
    requires
        image@.len() == 80,
        offset + 8 <= 80,
    ensures
        word == word_at(image@, offset as int),
{
    u64_from_le_bytes(slice_subrange(image, offset, offset + 8))
}

/// Reading an image at the fields' offsets gives back the layout that it was
/// written from: the same identity and the same six words.
pub proof fn lemma_encode_decode(layout: StableInstruction)
    ensures
        layout.spec_encode().len() == STABLE_INSTRUCTION_BYTES,
        decodable(layout.spec_encode()),
        decodes_to(layout.spec_encode(), layout),
{
    lemma_auto_spec_u64_to_from_le_bytes();
    let image = layout.spec_encode();
    assert(layout.program_id@.len() == 32);
    assert(image.subrange(0, 32) =~= layout.program_id@);
    assert(image.subrange(32, 40) =~= spec_u64_to_le_bytes(layout.accounts.ptr as u64));
    assert(image.subrange(40, 48) =~= spec_u64_to_le_bytes(layout.accounts.cap as u64));
    assert(image.subrange(48, 56) =~= spec_u64_to_le_bytes(layout.accounts.len as u64));
    assert(image.subrange(56, 64) =~= spec_u64_to_le_bytes(layout.data.ptr as u64));
    assert(image.subrange(64, 72) =~= spec_u64_to_le_bytes(layout.data.cap as u64));
    assert(image.subrange(72, 80) =~= spec_u64_to_le_bytes(layout.data.len as u64));
}

/// An image is read in one way only: two layouts read from the same image
/// have the same identity and the same views.
pub proof fn lemma_decode_unique(image: Seq<u8>, a: StableInstruction, b: StableInstruction)
    requires
        decodes_to(image, a),
        decodes_to(image, b),
    ensures
        a.program_id@ == b.program_id@,
        a.accounts.ptr == b.accounts.ptr,
        a.accounts.cap == b.accounts.cap,
        a.accounts.len == b.accounts.len,
        a.data.ptr == b.data.ptr,
        a.data.cap == b.data.cap,
        a.data.len == b.data.len,
{
}

} // verus!
