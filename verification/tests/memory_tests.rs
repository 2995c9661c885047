use chip8::isa::Instruction;
use chip8::memory::Memory;

#[test]
fn new_loads_rom_at_program_base() {
    let rom = vec![0x12, 0x34, 0x56];
    let m = Memory::new(&rom).unwrap();
    let head = m.get_data_bytes(0x200, 3).unwrap();
    assert_eq!(head, rom);
    // The unused tail stays zero.
    let tail = m.get_data_bytes(0x203, 4).unwrap();
    assert_eq!(tail, vec![0, 0, 0, 0]);
}

#[test]
fn new_rejects_oversized_rom() {
    let too_big = vec![0u8; 3585];
    assert!(Memory::new(&too_big).is_none());
    let just_fits = vec![0u8; 3584];
    assert!(Memory::new(&just_fits).is_some());
}

#[test]
fn font_glyphs_live_at_five_byte_offsets() {
    let m = Memory::new(&vec![]).unwrap();
    let glyph0 = m.get_data_bytes(0, 5).unwrap();
    assert_eq!(glyph0, vec![0xF0, 0x90, 0x90, 0x90, 0xF0]);
    let glyph1 = m.get_data_bytes(5, 5).unwrap();
    assert_eq!(glyph1, vec![0x20, 0x60, 0x20, 0x20, 0x70]);
    let glyph_f = m.get_data_bytes(15 * 5, 5).unwrap();
    assert_eq!(glyph_f, vec![0xF0, 0x80, 0xF0, 0x80, 0x80]);
    // The font region ends at 80; the gap up to the program base is zero.
    let gap = m.get_data_bytes(80, 4).unwrap();
    assert_eq!(gap, vec![0, 0, 0, 0]);
}

#[test]
fn program_load_does_not_overwrite_font() {
    let rom = vec![0xAA; 100];
    let m = Memory::new(&rom).unwrap();
    let glyph0 = m.get_data_bytes(0, 5).unwrap();
    assert_eq!(glyph0, vec![0xF0, 0x90, 0x90, 0x90, 0xF0]);
}

#[test]
fn fetch_rejects_out_of_range_addresses() {
    let m = Memory::new(&vec![0xAB, 0xCD]).unwrap();
    assert_eq!(m.fetch(0x200), Some((0xAB, 0xCD)));
    assert_eq!(m.fetch(4094), Some((0, 0)));
    assert_eq!(m.fetch(4095), None);
    assert_eq!(m.fetch(0xFFFF), None);
}

#[test]
fn parse_instruction_decodes_fetched_word() {
    let m = Memory::new(&vec![0x6A, 0x02]).unwrap();
    assert!(matches!(
        m.parse_instruction(0x200),
        Some(Instruction::SetByte { r: 0xA, val: 0x02 })
    ));
    assert!(m.parse_instruction(4095).is_none());
}

#[test]
fn get_data_bytes_rejects_out_of_range_spans() {
    let m = Memory::new(&vec![]).unwrap();
    assert!(m.get_data_bytes(4090, 6).is_some());
    assert!(m.get_data_bytes(4090, 7).is_none());
    assert!(m.get_data_bytes(4096, 1).is_none());
    assert_eq!(m.get_data_bytes(4096, 0).unwrap(), Vec::<u8>::new());
}

#[test]
fn store_from_writes_or_rejects_whole_spans() {
    let mut m = Memory::new(&vec![]).unwrap();
    assert!(m.store_from(&vec![1, 2, 3], 0x300));
    assert_eq!(m.get_data_bytes(0x300, 3).unwrap(), vec![1, 2, 3]);
    // A span that leaves the address space writes nothing.
    assert!(!m.store_from(&vec![9, 9, 9], 4094));
    assert_eq!(m.get_data_bytes(4094, 2).unwrap(), vec![0, 0]);
}
