use std::marker::PhantomData;
use vstd::prelude::*;

use crate::instruction::{AccountMeta, Instruction};
use crate::stable_layout::{lemma_encode_decode, word_at, StableInstruction, StableVec};

verus! {

/// `Vec::as_ptr`, as a number: the address at which the buffer's storage
/// starts. std promises that it is never null, also for a vector that has
/// not allocated; nothing else is claimed of it.
#[verifier::external_body]
fn buffer_addr<T>(buffer: &Vec<T>) -> (addr: usize)
    ensures
        addr != 0,
{
    buffer.as_ptr() as usize
}

/// `Vec::capacity`: the number of elements the vector has room for, which is
/// never less than the number it holds.
#[verifier::external_body]
fn buffer_capacity<T>(buffer: &Vec<T>) -> (cap: usize)
    ensures
        cap >= buffer@.len(),
{
    buffer.capacity()
}

/// `<[u8]>::as_ptr`, as a number: the address of the first byte of the image.
/// It comes from a reference, so it is not null.
#[verifier::external_body]
fn image_addr(image: &[u8; 80]) -> (addr: usize)
    ensures
        addr != 0,
{
    image.as_ptr() as usize
}

/// `layout` describes `instruction`: the same target, views as long as the
/// two buffers, and both views well formed.
pub open spec fn stabilizes(layout: StableInstruction, instruction: Instruction) -> bool {
    &&& layout.program_id == instruction.program_id
    &&& layout.accounts.len == instruction.accounts@.len()
    &&& layout.data.len == instruction.data@.len()
    &&& layout.well_formed()
}

/// Holds the fixed layout of one call together with its image. The holder
/// owns neither buffer that the layout points into: they stay with the
/// instruction, which outlives the holder. Only read access is given out.
pub struct InstructionStabilizer<'a> {
    stabilized_instruction: StableInstruction,
    image: [u8; 80],
    phantom_instruction: PhantomData<&'a Instruction>,
}

impl<'ix> InstructionStabilizer<'ix> {
    #[verifier::type_invariant]
    spec fn image_is_current(&self) -> bool {
        self.image@ == self.stabilized_instruction.spec_encode()
    }

    /// The layout that the holder wraps.
    pub closed spec fn layout(&self) -> StableInstruction {
        self.stabilized_instruction
    }

    /// The layout of `instruction`: its target by value, and of each buffer
    /// the address, the capacity and the length. No element is copied.
    pub fn stabilize(instruction: &'ix Instruction) -> (holder: InstructionStabilizer<'ix>)
        ensures
            stabilizes(holder.layout(), *instruction),
    {
        stabilize_instruction(instruction)
    }

    /// Wraps a layout whose views were taken from buffers of the caller's
    /// own, which must outlive the holder.
    pub fn new(stabilized_instruction: StableInstruction) -> (holder: InstructionStabilizer<'ix>)
        ensures
            holder.layout() == stabilized_instruction,
    {
        let image = stabilized_instruction.to_bytes();
        InstructionStabilizer { stabilized_instruction, image, phantom_instruction: PhantomData }
    }

    /// Read access to the wrapped layout.
    pub fn stable_instruction_ref<'borrow>(&'borrow self) -> (layout: &'borrow StableInstruction)
        ensures
            *layout == self.layout(),
    {
        &self.stabilized_instruction
    }

    /// The image of the wrapped layout, as it lies in memory for the call.
    pub fn image<'borrow>(&'borrow self) -> (image: &'borrow [u8; 80])
        ensures
            image@ == self.layout().spec_encode(),
    {
        proof {
            use_type_invariant(self);
        }
        &self.image
    }

    /// The address of the image, which is what crosses the boundary. It
    /// holds for as long as the holder stays where it is.
    pub fn instruction_addr(&self) -> (addr: usize)
        ensures
            addr != 0,
    {
        image_addr(&self.image)
    }
}

/// The view of a buffer from its address and capacity, as the buffer gave
/// them, and its length.
pub fn view_of<T>(addr: usize, cap: usize, buffer: &Vec<T>) -> (view: StableVec<T>)
    ensures
        view.ptr == addr,
        view.cap == cap,
        view.len == buffer@.len(),
{
    StableVec::new(addr, cap, buffer.len())
}

/// Takes the parts of both buffers of `ix` and wraps the layout made of them.
pub fn stabilize_instruction<'ix_ref>(ix: &'ix_ref Instruction) -> (holder: InstructionStabilizer<
    'ix_ref,
>)
    ensures
        stabilizes(holder.layout(), *ix),
{
    let data: StableVec<u8> = view_of(buffer_addr(&ix.data), buffer_capacity(&ix.data), &ix.data);
    let accounts: StableVec<AccountMeta> = view_of(
        buffer_addr(&ix.accounts),
        buffer_capacity(&ix.accounts),
        &ix.accounts,
    );
    InstructionStabilizer::new(StableInstruction { program_id: ix.program_id, accounts, data })
}

/// Read at the fields' offsets, the image of a layout that describes an
/// instruction gives the instruction's target, the number of its accounts
/// and the length of its data.
pub proof fn lemma_image_reproduces_source(layout: StableInstruction, instruction: Instruction)
    requires
        stabilizes(layout, instruction),
    ensures
        layout.spec_encode().len() == 80,
        layout.spec_encode().subrange(0, 32) == instruction.program_id@,
        word_at(layout.spec_encode(), 48) == instruction.accounts@.len(),
        word_at(layout.spec_encode(), 72) == instruction.data@.len(),
{
    lemma_encode_decode(layout);
}

} // verus!
