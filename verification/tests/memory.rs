use gb_core::memory::{Memory, CART_SIZE};
use gb_core::EmuError;

fn fresh_mem() -> Memory {
    Memory::new(vec![0u8; CART_SIZE])
}

#[test]
fn segment_boundaries() {
    let mut m = fresh_mem();
    assert_eq!(m.write_word(0x7FFF, 0x11), Ok(()));
    assert_eq!(m.read_word(0x7FFF), Ok(0x11));
    assert_eq!(m.write_word(0x8000, 0x22), Ok(()));
    assert_eq!(m.read_word(0x8000), Ok(0x22));
    // The write on one side of the boundary left the other side alone.
    assert_eq!(m.read_word(0x7FFF), Ok(0x11));
    assert_eq!(m.write_word(0x9FFF, 0x33), Ok(()));
    assert_eq!(m.write_word(0xA000, 0x44), Ok(()));
    assert_eq!(m.read_word(0x9FFF), Ok(0x33));
    assert_eq!(m.read_word(0xA000), Ok(0x44));
    assert_eq!(m.write_word(0xBFFF, 0x55), Ok(()));
    assert_eq!(m.write_word(0xC000, 0x66), Ok(()));
    assert_eq!(m.read_word(0xBFFF), Ok(0x55));
    assert_eq!(m.read_word(0xC000), Ok(0x66));
}

#[test]
fn echo_ram_redirect() {
    let mut m = fresh_mem();
    assert_eq!(m.write_word(0xC010, 0x55), Ok(()));
    assert_eq!(m.read_word(0xE010), Ok(0x55));
    assert_eq!(m.write_word(0xE010, 0x66), Ok(()));
    assert_eq!(m.read_word(0xC010), Ok(0x66));
    // The mirror spans the whole echo range.
    assert_eq!(m.write_word(0xFDFF, 0x77), Ok(()));
    assert_eq!(m.read_word(0xDDFF), Ok(0x77));
}

#[test]
fn interrupt_byte_isolation() {
    let mut m = fresh_mem();
    assert_eq!(m.write_word(0xFFFF, 0x1F), Ok(()));
    assert_eq!(m.read_word(0xFFFF), Ok(0x1F));
    assert_eq!(m.read_word(0xFFFE), Ok(0));
    assert_eq!(m.write_word(0xFFFE, 0xAB), Ok(()));
    assert_eq!(m.read_word(0xFFFF), Ok(0x1F));
    assert_eq!(m.read_word(0xFFFE), Ok(0xAB));
}

#[test]
fn unmapped_gap_rejection() {
    let mut m = fresh_mem();
    assert_eq!(m.read_word(0xFEA0), Err(EmuError::UnmappedAddress));
    assert_eq!(m.read_word(0xFEFF), Err(EmuError::UnmappedAddress));
    assert_eq!(m.write_word(0xFECD, 9), Err(EmuError::UnmappedAddress));
    // The neighbours of the gap are mapped.
    assert_eq!(m.write_word(0xFE9F, 0x77), Ok(()));
    assert_eq!(m.read_word(0xFE9F), Ok(0x77));
    assert_eq!(m.write_word(0xFF00, 0x88), Ok(()));
    assert_eq!(m.read_word(0xFF00), Ok(0x88));
}

#[test]
fn high_ram_and_io_segments() {
    let mut m = fresh_mem();
    assert_eq!(m.write_word(0xFF7F, 0x12), Ok(()));
    assert_eq!(m.write_word(0xFF80, 0x34), Ok(()));
    assert_eq!(m.read_word(0xFF7F), Ok(0x12));
    assert_eq!(m.read_word(0xFF80), Ok(0x34));
    assert_eq!(m.write_word(0xFE00, 0x56), Ok(()));
    assert_eq!(m.read_word(0xFE00), Ok(0x56));
}

#[test]
fn cartridge_image_contents() {
    let mut cart = vec![0u8; CART_SIZE];
    cart[0] = 0xC3;
    cart[0x0150] = 0x42;
    cart[0x7FFF] = 0x99;
    let m = Memory::new(cart);
    assert_eq!(m.read_word(0x0000), Ok(0xC3));
    assert_eq!(m.read_word(0x0150), Ok(0x42));
    assert_eq!(m.read_word(0x7FFF), Ok(0x99));
    // Every other segment and the interrupt byte start zeroed.
    assert_eq!(m.read_word(0x8000), Ok(0));
    assert_eq!(m.read_word(0xC000), Ok(0));
    assert_eq!(m.read_word(0xE000), Ok(0));
    assert_eq!(m.read_word(0xFF80), Ok(0));
    assert_eq!(m.read_word(0xFFFF), Ok(0));
}
