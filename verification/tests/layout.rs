use solana_invoke::instruction::{AccountMeta, Instruction};
use solana_invoke::instruction_stabilizer::{stabilize_instruction, view_of, InstructionStabilizer};
use solana_invoke::pubkey::Pubkey;
use solana_invoke::stable_layout::{
    StableInstruction, StableVec, ACCOUNTS_OFFSET, DATA_OFFSET, PROGRAM_ID_OFFSET,
    STABLE_INSTRUCTION_BYTES,
};

fn key(byte: u8) -> Pubkey {
    Pubkey::new_from_array([byte; 32])
}

fn sample_instruction() -> Instruction {
    Instruction::new(
        key(9),
        vec![
            AccountMeta::new(key(1), true),
            AccountMeta::new(key(2), false),
            AccountMeta::new_readonly(key(3), false),
        ],
        vec![10, 20, 30, 40, 50],
    )
}

fn word(image: &[u8], offset: usize) -> u64 {
    let mut bytes = [0u8; 8];
    bytes.copy_from_slice(&image[offset..offset + 8]);
    u64::from_le_bytes(bytes)
}

#[test]
fn pubkey_keeps_its_bytes() {
    let mut bytes = [0u8; 32];
    bytes[0] = 1;
    bytes[31] = 255;
    let k = Pubkey::new_from_array(bytes);
    assert_eq!(k.to_bytes(), bytes);
    assert!(k.same(&Pubkey::new_from_array(bytes)));
    let mut other = bytes;
    other[31] = 254;
    assert!(!k.same(&Pubkey::new_from_array(other)));
    other = bytes;
    other[0] = 0;
    assert!(!k.same(&Pubkey::new_from_array(other)));
}

#[test]
fn account_meta_constructors_set_the_flags() {
    let w = AccountMeta::new(key(4), true);
    assert_eq!(w.pubkey, key(4));
    assert!(w.is_signer);
    assert!(w.is_writable);
    let r = AccountMeta::new_readonly(key(5), false);
    assert_eq!(r.pubkey, key(5));
    assert!(!r.is_signer);
    assert!(!r.is_writable);
}

#[test]
fn stabilized_views_have_the_buffers_lengths_and_addresses() {
    let ix = sample_instruction();
    let holder = InstructionStabilizer::stabilize(&ix);
    let layout = holder.stable_instruction_ref();
    assert_eq!(layout.program_id, key(9));
    assert_eq!(layout.accounts.len, 3);
    assert_eq!(layout.data.len, 5);
    assert_eq!(layout.accounts.ptr, ix.accounts.as_ptr() as usize);
    assert_eq!(layout.data.ptr, ix.data.as_ptr() as usize);
    assert_eq!(layout.accounts.cap, ix.accounts.capacity());
    assert_eq!(layout.data.cap, ix.data.capacity());
}

#[test]
fn stabilized_view_keeps_a_capacity_above_the_length() {
    let mut data: Vec<u8> = Vec::with_capacity(64);
    data.push(7);
    let ix = Instruction::new(key(1), Vec::new(), data);
    let holder = stabilize_instruction(&ix);
    let layout = holder.stable_instruction_ref();
    assert_eq!(layout.data.len, 1);
    assert_eq!(layout.data.cap, ix.data.capacity());
    assert!(layout.data.cap >= 64);
    assert_eq!(layout.data.ptr, ix.data.as_ptr() as usize);
}

#[test]
fn stabilizing_buffers_that_never_allocated_gives_empty_views() {
    let ix = Instruction::new(key(7), Vec::new(), Vec::new());
    let holder = InstructionStabilizer::stabilize(&ix);
    let layout = holder.stable_instruction_ref();
    assert_eq!(layout.accounts.len, 0);
    assert_eq!(layout.accounts.cap, 0);
    assert_ne!(layout.accounts.ptr, 0);
    assert_eq!(layout.data.len, 0);
    assert_eq!(layout.data.cap, 0);
    assert_ne!(layout.data.ptr, 0);
}

#[test]
fn stabilizing_leaves_the_instruction_as_it_was() {
    let ix = sample_instruction();
    let before = ix.clone();
    let accounts_at = ix.accounts.as_ptr() as usize;
    let data_at = ix.data.as_ptr() as usize;
    {
        let first = InstructionStabilizer::stabilize(&ix);
        let second = InstructionStabilizer::stabilize(&ix);
        assert_eq!(first.stable_instruction_ref(), second.stable_instruction_ref());
    }
    assert_eq!(ix, before);
    assert_eq!(ix.accounts.as_ptr() as usize, accounts_at);
    assert_eq!(ix.data.as_ptr() as usize, data_at);
    assert_eq!(ix.data, vec![10, 20, 30, 40, 50]);
}

#[test]
fn view_of_takes_the_length_from_the_buffer() {
    let buffer: Vec<u8> = vec![1, 2, 3];
    let view = view_of(4096, 16, &buffer);
    assert_eq!(view.ptr, 4096);
    assert_eq!(view.cap, 16);
    assert_eq!(view.len, 3);
}

#[test]
fn image_has_each_field_at_its_offset() {
    let layout = StableInstruction {
        program_id: key(0xAB),
        accounts: StableVec::new(0x0102030405060708, 4, 3),
        data: StableVec::new(0x1000, 0x20, 0x11),
    };
    let image = layout.to_bytes();
    assert_eq!(image.len(), STABLE_INSTRUCTION_BYTES);
    assert_eq!(image.len(), 80);
    assert_eq!(&image[0..32], &[0xABu8; 32][..]);
    assert_eq!(&image[32..40], &[8u8, 7, 6, 5, 4, 3, 2, 1][..]);
    assert_eq!(&image[40..48], &[4u8, 0, 0, 0, 0, 0, 0, 0][..]);
    assert_eq!(&image[48..56], &[3u8, 0, 0, 0, 0, 0, 0, 0][..]);
    assert_eq!(&image[56..64], &[0u8, 0x10, 0, 0, 0, 0, 0, 0][..]);
    assert_eq!(&image[64..72], &[0x20u8, 0, 0, 0, 0, 0, 0, 0][..]);
    assert_eq!(&image[72..80], &[0x11u8, 0, 0, 0, 0, 0, 0, 0][..]);
    assert_eq!(PROGRAM_ID_OFFSET, 0);
    assert_eq!(ACCOUNTS_OFFSET, 32);
    assert_eq!(DATA_OFFSET, 56);
}

#[test]
fn image_reads_back_as_the_layout() {
    let layout = StableInstruction {
        program_id: key(0x5A),
        accounts: StableVec::new(0xDEAD_BEEF, 10, 9),
        data: StableVec::new(0xFEED_F00D, usize::MAX, 0),
    };
    let image = layout.to_bytes();
    let back = StableInstruction::from_bytes(&image).expect("an image reads back");
    assert_eq!(back, layout);
}

#[test]
fn image_of_a_stabilized_instruction_reproduces_its_source() {
    let ix = sample_instruction();
    let holder = InstructionStabilizer::stabilize(&ix);
    let image = holder.image();
    assert_eq!(&image[0..32], &ix.program_id.to_bytes()[..]);
    assert_eq!(word(image, 32), ix.accounts.as_ptr() as usize as u64);
    assert_eq!(word(image, 40), ix.accounts.capacity() as u64);
    assert_eq!(word(image, 48), 3);
    assert_eq!(word(image, 56), ix.data.as_ptr() as usize as u64);
    assert_eq!(word(image, 64), ix.data.capacity() as u64);
    assert_eq!(word(image, 72), 5);
    let back = StableInstruction::from_bytes(image).expect("an image reads back");
    assert_eq!(back.program_id, ix.program_id);
    assert_eq!(back.accounts.len, ix.accounts.len());
    assert_eq!(back.data.len, ix.data.len());
    assert_eq!(&back, holder.stable_instruction_ref());
}

#[test]
fn an_image_of_another_size_is_not_read() {
    assert_eq!(StableInstruction::from_bytes(&[]), None);
    assert_eq!(StableInstruction::from_bytes(&[0u8; 79]), None);
    assert_eq!(StableInstruction::from_bytes(&[0u8; 81]), None);
    let zero = StableInstruction::from_bytes(&[0u8; 80]).expect("eighty bytes are read");
    assert_eq!(zero.program_id, key(0));
    assert_eq!(zero.accounts, StableVec::new(0, 0, 0));
    assert_eq!(zero.data, StableVec::new(0, 0, 0));
}

#[test]
fn holder_wraps_the_layout_it_was_given() {
    let holder = InstructionStabilizer::new(StableInstruction {
        program_id: key(3),
        accounts: StableVec::new(64, 2, 1),
        data: StableVec::new(128, 8, 8),
    });
    let layout = holder.stable_instruction_ref();
    assert_eq!(layout.program_id, key(3));
    assert_eq!(layout.accounts, StableVec::new(64, 2, 1));
    assert_eq!(layout.data, StableVec::new(128, 8, 8));
    assert_eq!(holder.image()[..], layout.to_bytes()[..]);
}

#[test]
fn instruction_addr_is_where_the_image_lies() {
    let ix = sample_instruction();
    let holder = InstructionStabilizer::stabilize(&ix);
    let addr = holder.instruction_addr();
    assert_ne!(addr, 0);
    assert_eq!(addr, holder.image().as_ptr() as usize);
    assert_eq!(addr, holder.instruction_addr());
}

#[test]
fn account_meta_image_is_the_key_and_two_flag_bytes() {
    let meta = AccountMeta::new(key(0x11), false);
    let image = meta.to_bytes();
    assert_eq!(image.len(), 34);
    assert_eq!(&image[0..32], &[0x11u8; 32][..]);
    assert_eq!(image[32], 0);
    assert_eq!(image[33], 1);
    let meta = AccountMeta::new_readonly(key(0x22), true);
    let image = meta.to_bytes();
    assert_eq!(&image[0..32], &[0x22u8; 32][..]);
    assert_eq!(image[32], 1);
    assert_eq!(image[33], 0);
}

#[test]
fn account_meta_image_reads_back() {
    let meta = AccountMeta::new(key(0x33), true);
    assert_eq!(AccountMeta::from_bytes(&meta.to_bytes()), Some(meta));
    let meta = AccountMeta::new_readonly(key(0x44), false);
    assert_eq!(AccountMeta::from_bytes(&meta.to_bytes()), Some(meta));
}

#[test]
fn account_meta_image_with_a_bad_flag_or_size_is_not_read() {
    let mut image = AccountMeta::new(key(1), true).to_bytes();
    image[32] = 2;
    assert_eq!(AccountMeta::from_bytes(&image), None);
    image[32] = 1;
    image[33] = 255;
    assert_eq!(AccountMeta::from_bytes(&image), None);
    assert_eq!(AccountMeta::from_bytes(&[0u8; 33]), None);
    assert_eq!(AccountMeta::from_bytes(&[0u8; 35]), None);
    assert_eq!(AccountMeta::from_bytes(&[]), None);
}
