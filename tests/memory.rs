use invaders::bits::{is_even_parity, u16_to_u8, u8_to_u16};
use invaders::ram::{MemoryError, Sram, RAM_SIZE};
use invaders::timing::pacing_delay_millis;
use invaders::video::{render_frame, DARK, HEIGHT, LIT, VRAM_LEN, WIDTH};

#[test]
fn new_memory_is_zero() {
    let ram = Sram::new();
    assert_eq!(ram.bytes.len(), RAM_SIZE);
    assert!(ram.bytes.iter().all(|&b| b == 0));
}

#[test]
fn load_at_offset() {
    let mut ram = Sram::new();
    assert_eq!(ram.load_offset(&[1, 2, 3], 0x100), Ok(()));
    assert_eq!(ram.read_byte(0x100), 1);
    assert_eq!(ram.read_byte(0x102), 3);
    assert_eq!(ram.read_byte(0x103), 0);
}

#[test]
fn load_up_to_last_address() {
    let mut ram = Sram::new();
    assert_eq!(ram.load_offset(&[7, 8], 0xFFFE), Ok(()));
    assert_eq!(ram.read_byte(0xFFFF), 8);
}

#[test]
fn load_past_last_address_is_refused() {
    let mut ram = Sram::new();
    assert_eq!(
        ram.load_offset(&[1, 2, 3], 0xFFFE),
        Err(MemoryError::OutOfRange { offset: 0xFFFE, len: 3 })
    );
    assert_eq!(ram.read_byte(0xFFFE), 0);
    let big = vec![1u8; RAM_SIZE + 1];
    assert!(ram.load(&big).is_err());
    assert!(ram.load(&vec![1u8; RAM_SIZE]).is_ok());
}

#[test]
fn words_are_low_byte_first() {
    let mut ram = Sram::new();
    ram.write_dword(0x2000, 0xBEEF).unwrap();
    assert_eq!(ram.read_byte(0x2000), 0xEF);
    assert_eq!(ram.read_byte(0x2001), 0xBE);
    assert_eq!(ram.read_dword(0x2000), Ok(0xBEEF));
    ram.write_dword_stack(0x2100, 0x1234).unwrap();
    assert_eq!(ram.read_byte(0x2100), 0x34);
    assert_eq!(ram.read_byte(0x2101), 0x12);
}

#[test]
fn word_at_last_address_is_refused() {
    let mut ram = Sram::new();
    let refused = Err(MemoryError::OutOfRange { offset: 0xFFFF, len: 2 });
    assert_eq!(ram.write_dword(0xFFFF, 0xA1B2), refused);
    assert_eq!(ram.write_dword_stack(0xFFFF, 0xA1B2), refused);
    assert_eq!(ram.read_byte(0xFFFF), 0);
    assert_eq!(ram.read_byte(0x0000), 0);
    assert_eq!(ram.read_dword(0xFFFF), Err(MemoryError::OutOfRange { offset: 0xFFFF, len: 2 }));
    assert_eq!(ram.write_dword(0xFFFE, 0xA1B2), Ok(()));
    assert_eq!(ram.read_dword(0xFFFE), Ok(0xA1B2));
}

#[test]
fn byte_helpers() {
    assert_eq!(u8_to_u16(0x34, 0x12), 0x1234);
    assert_eq!(u16_to_u8(0x1234), (0x12, 0x34));
    assert!(is_even_parity(0x00));
    assert!(is_even_parity(0x03));
    assert!(!is_even_parity(0x01));
    assert!(!is_even_parity(0xFE));
    assert!(is_even_parity(0xFF));
}

#[test]
fn frame_turns_video_memory_upright() {
    let mut vram = vec![0u8; VRAM_LEN];
    // Bit 0 of the first byte: column 0 of the bottom row.
    vram[0] = 0x01;
    // Bit 3 of byte 32: bit 259, column 1 of the row 3 from the bottom.
    vram[32] = 0x08;
    let frame = render_frame(&vram);
    assert_eq!(frame.len(), WIDTH * HEIGHT);
    assert_eq!(frame[(HEIGHT - 1) * WIDTH], LIT);
    assert_eq!(frame[(HEIGHT - 1 - 3) * WIDTH + 1], LIT);
    assert_eq!(LIT, 0xFFFF_FFFF);
    assert_eq!(DARK, 0x0000_00FF);
    assert_eq!(frame[0], 0x0000_00FF);
    assert_eq!(frame.iter().filter(|&&p| p == LIT).count(), 2);
}

#[test]
fn pacing_waits_the_rest_of_the_interval() {
    assert_eq!(pacing_delay_millis(0), 8);
    assert_eq!(pacing_delay_millis(5_000_000), 3);
    assert_eq!(pacing_delay_millis(8_333_333), 0);
    assert_eq!(pacing_delay_millis(20_000_000), 0);
}
