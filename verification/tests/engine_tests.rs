use chip8::isa::Instruction;
use chip8::keypad::Keypad;
use chip8::register::{ExecError, Registers, SideEffect, TimerSideEffect};

fn regs_with(values: &[(u8, u8)]) -> Registers {
    let mut r = Registers::new();
    for &(idx, v) in values {
        r.update_general_register(idx, v);
    }
    r
}

#[test]
fn add_with_carry_wraps_and_sets_flag() {
    let kp = Keypad::new();
    let mut r = regs_with(&[(0, 200), (1, 100)]);
    let eff = r.update_registers(Instruction::AddRegV { r: 0, f: 1 }, &kp);
    assert!(matches!(eff, Ok(None)));
    assert_eq!(r.general_register(0), 44); // (200 + 100) mod 256
    assert_eq!(r.general_register(1), 100);
    assert!(r.vf);
    assert_eq!(r.general_register(15), 1); // the flag is readable as VF
    assert_eq!(r.get_pc(), 0x202);
}

#[test]
fn add_without_carry_clears_flag() {
    let kp = Keypad::new();
    let mut r = regs_with(&[(0, 20), (1, 30)]);
    r.update_vf(true);
    let _ = r.update_registers(Instruction::AddRegV { r: 0, f: 1 }, &kp);
    assert_eq!(r.general_register(0), 50);
    assert!(!r.vf);
    assert_eq!(r.general_register(15), 0);
}

#[test]
fn subtract_flag_polarity() {
    let kp = Keypad::new();
    // Vx >= Vy: no borrow, flag set.
    let mut a = regs_with(&[(0, 30), (1, 30)]);
    let _ = a.update_registers(Instruction::SubRegV { r: 0, f: 1 }, &kp);
    assert_eq!(a.general_register(0), 0);
    assert!(a.vf);
    assert_eq!(a.general_register(15), 1);
    // Vx < Vy: borrow, flag cleared, result wraps mod 256.
    let mut b = regs_with(&[(0, 10), (1, 30)]);
    let _ = b.update_registers(Instruction::SubRegV { r: 0, f: 1 }, &kp);
    assert_eq!(b.general_register(0), 236); // (10 - 30) mod 256
    assert!(!b.vf);
    assert_eq!(b.general_register(15), 0);
}

#[test]
fn subtract_reversed_flag_polarity() {
    let kp = Keypad::new();
    // Vy >= Vx: no borrow, flag set.
    let mut a = regs_with(&[(0, 10), (1, 30)]);
    let _ = a.update_registers(Instruction::SubNRegV { r: 0, f: 1 }, &kp);
    assert_eq!(a.general_register(0), 20);
    assert!(a.vf);
    // Vy < Vx: borrow, flag cleared.
    let mut b = regs_with(&[(0, 30), (1, 10)]);
    let _ = b.update_registers(Instruction::SubNRegV { r: 0, f: 1 }, &kp);
    assert_eq!(b.general_register(0), 236);
    assert!(!b.vf);
}

#[test]
fn shift_right_exposes_low_bit() {
    let kp = Keypad::new();
    let mut r = regs_with(&[(3, 5)]);
    let _ = r.update_registers(Instruction::ShrRegV { r: 3 }, &kp);
    assert_eq!(r.general_register(3), 2);
    assert!(r.vf);
    assert_eq!(r.general_register(15), 1);
    let mut e = regs_with(&[(3, 4)]);
    let _ = e.update_registers(Instruction::ShrRegV { r: 3 }, &kp);
    assert_eq!(e.general_register(3), 2);
    assert!(!e.vf);
}

#[test]
fn shift_left_exposes_high_bit() {
    let kp = Keypad::new();
    let mut r = regs_with(&[(3, 0x81)]);
    let _ = r.update_registers(Instruction::ShlRegV { r: 3 }, &kp);
    assert_eq!(r.general_register(3), 0x02); // (0x81 << 1) mod 256
    assert!(r.vf);
    assert_eq!(r.general_register(15), 1);
    let mut e = regs_with(&[(3, 0x41)]);
    let _ = e.update_registers(Instruction::ShlRegV { r: 3 }, &kp);
    assert_eq!(e.general_register(3), 0x82);
    assert!(!e.vf);
}

#[test]
fn flag_wins_when_vf_is_the_destination() {
    let kp = Keypad::new();
    // Add-with-carry into VF: the carry flag, not the sum, is what remains.
    let mut r = regs_with(&[(15, 200), (0, 100)]);
    let _ = r.update_registers(Instruction::AddRegV { r: 15, f: 0 }, &kp);
    assert_eq!(r.general_register(15), 1);
    // Shift-right of VF: the shifted-out bit, not the shifted value.
    let mut s = regs_with(&[(15, 5)]);
    let _ = s.update_registers(Instruction::ShrRegV { r: 15 }, &kp);
    assert_eq!(s.general_register(15), 1);
}

#[test]
fn add_byte_wraps_without_flag() {
    let kp = Keypad::new();
    let mut r = regs_with(&[(2, 250)]);
    let _ = r.update_registers(Instruction::AddByte { r: 2, val: 10 }, &kp);
    assert_eq!(r.general_register(2), 4);
    assert!(!r.vf); // no flag for the literal add
    assert_eq!(r.general_register(15), 0);
}

#[test]
fn bitwise_ops() {
    let kp = Keypad::new();
    let mut r = regs_with(&[(0, 0b1100), (1, 0b1010)]);
    let _ = r.update_registers(Instruction::OrRegV { r: 0, f: 1 }, &kp);
    assert_eq!(r.general_register(0), 0b1110);
    let mut a = regs_with(&[(0, 0b1100), (1, 0b1010)]);
    let _ = a.update_registers(Instruction::AndRegV { r: 0, f: 1 }, &kp);
    assert_eq!(a.general_register(0), 0b1000);
    let mut x = regs_with(&[(0, 0b1100), (1, 0b1010)]);
    let _ = x.update_registers(Instruction::XorRegV { r: 0, f: 1 }, &kp);
    assert_eq!(x.general_register(0), 0b0110);
}

#[test]
fn skip_families_move_pc() {
    let kp = Keypad::new();
    let mut r = regs_with(&[(0, 7)]);
    let _ = r.update_registers(Instruction::SkipEq { r: 0, val: 7 }, &kp);
    assert_eq!(r.get_pc(), 0x204); // taken: two words
    let _ = r.update_registers(Instruction::SkipEq { r: 0, val: 8 }, &kp);
    assert_eq!(r.get_pc(), 0x206); // not taken: one word
    let _ = r.update_registers(Instruction::SkipNeq { r: 0, val: 8 }, &kp);
    assert_eq!(r.get_pc(), 0x20A);
}

#[test]
fn call_then_return_restores_pc_and_stack() {
    let kp = Keypad::new();
    let mut r = Registers::new();
    let depth_before = 0;
    let eff = r.update_registers(Instruction::CallSub(0x300), &kp);
    assert!(matches!(eff, Ok(None)));
    assert_eq!(r.get_pc(), 0x300);
    let eff2 = r.update_registers(Instruction::ReturnSubroutine, &kp);
    assert!(matches!(eff2, Ok(None)));
    assert_eq!(r.get_pc(), 0x202); // call site 0x200, plus one word
    assert_eq!(r.spst.len(), depth_before);
}

#[test]
fn return_with_empty_stack_is_reported() {
    let kp = Keypad::new();
    let mut r = Registers::new();
    let eff = r.update_registers(Instruction::ReturnSubroutine, &kp);
    assert!(matches!(eff, Err(ExecError::EmptyCallStackReturn)));
    assert_eq!(r.get_pc(), 0x200); // nothing changed
}

#[test]
fn random_and_masks_result() {
    let kp = Keypad::new();
    for _ in 0..16 {
        let mut r = Registers::new();
        let _ = r.update_registers(Instruction::RndAnd { r: 0, val: 0x0F }, &kp);
        assert_eq!(r.general_register(0) & 0xF0, 0);
    }
}

#[test]
fn draw_effect_carries_position_and_index() {
    let kp = Keypad::new();
    let mut r = regs_with(&[(1, 10), (2, 20)]);
    let _ = r.update_registers(Instruction::SetRegL(0x345), &kp);
    let eff = r.update_registers(Instruction::DispSpr { rp: (1, 2), n: 5 }, &kp);
    match eff {
        Ok(Some(SideEffect::Draw { pos, n, l })) => {
            assert_eq!(pos, (10, 20));
            assert_eq!(n, 5);
            assert_eq!(l, 0x345);
        },
        _ => panic!("expected a draw side effect"),
    }
}

#[test]
fn memory_dump_effect_copies_registers() {
    let kp = Keypad::new();
    let mut r = regs_with(&[(0, 1), (1, 2), (2, 3), (3, 4)]);
    let _ = r.update_registers(Instruction::SetRegL(0x300), &kp);
    let eff = r.update_registers(Instruction::MemDump { endr: 3 }, &kp);
    match eff {
        Ok(Some(SideEffect::MemDump { dump_vals, l })) => {
            assert_eq!(dump_vals, vec![1, 2, 3, 4]);
            assert_eq!(l, 0x300);
        },
        _ => panic!("expected a memory dump side effect"),
    }
}

#[test]
fn memory_read_effect_is_inclusive() {
    let kp = Keypad::new();
    let mut r = Registers::new();
    let _ = r.update_registers(Instruction::SetRegL(0x300), &kp);
    let eff = r.update_registers(Instruction::MemRead { endr: 3 }, &kp);
    match eff {
        Ok(Some(SideEffect::MemRead { count, l })) => {
            assert_eq!(count, 4);
            assert_eq!(l, 0x300);
        },
        _ => panic!("expected a memory read side effect"),
    }
}

#[test]
fn font_address_is_five_bytes_per_glyph() {
    let kp = Keypad::new();
    let mut r = regs_with(&[(0, 7)]);
    let _ = r.update_registers(Instruction::SetRegLFontAddrFromReg { r: 0 }, &kp);
    assert_eq!(r.sl, 35);
}

#[test]
fn add_to_index_wraps_in_16_bits() {
    let kp = Keypad::new();
    let mut r = regs_with(&[(0, 0x10)]);
    let _ = r.update_registers(Instruction::SetRegL(0xFFF), &kp);
    let _ = r.update_registers(Instruction::AddRegL { r: 0 }, &kp);
    assert_eq!(r.sl, 0x100F);
}

#[test]
fn jump_with_offset_adds_v0() {
    let kp = Keypad::new();
    let mut r = regs_with(&[(0, 0x10)]);
    let _ = r.update_registers(Instruction::JmpAddrOffReg0(0x200), &kp);
    assert_eq!(r.get_pc(), 0x210);
}

#[test]
fn skip_on_key_consults_keypad() {
    let mut kp = Keypad::new();
    assert_eq!(kp.set_press('q'), Some(4));
    let mut r = regs_with(&[(0, 4)]);
    let _ = r.update_registers(Instruction::SkipKeyPressed { r: 0 }, &kp);
    assert_eq!(r.get_pc(), 0x204); // key 4 pressed: skip
    let mut o = regs_with(&[(0, 5)]);
    let _ = o.update_registers(Instruction::SkipKeyPressed { r: 0 }, &kp);
    assert_eq!(o.get_pc(), 0x202); // key 5 not pressed
    let mut n = regs_with(&[(0, 5)]);
    let _ = n.update_registers(Instruction::SkipKeyReleased { r: 0 }, &kp);
    assert_eq!(n.get_pc(), 0x204); // key 5 released: skip
}

#[test]
fn delay_and_sound_timer_transfer() {
    let kp = Keypad::new();
    let mut r = regs_with(&[(0, 9)]);
    let _ = r.update_registers(Instruction::SetDelayFromReg { r: 0 }, &kp);
    assert_eq!(r.dt, 9);
    let _ = r.update_registers(Instruction::SetDelayToReg { r: 1 }, &kp);
    assert_eq!(r.general_register(1), 9);
    let _ = r.update_registers(Instruction::SetSoundFromReg { r: 0 }, &kp);
    assert_eq!(r.st, 9);
}

#[test]
fn timers_decrement_and_beep() {
    let mut r = Registers::new();
    r.dt = 2;
    r.st = 1;
    assert!(matches!(r.update_timers(), TimerSideEffect::Beep));
    assert_eq!(r.dt, 1);
    assert_eq!(r.st, 0);
    assert!(matches!(r.update_timers(), TimerSideEffect::Quiet));
    assert_eq!(r.dt, 0);
    assert_eq!(r.st, 0);
    assert!(matches!(r.update_timers(), TimerSideEffect::Quiet));
}

#[test]
fn update_general_register_writes_all_sixteen() {
    let mut r = Registers::new();
    r.update_general_register(15, 7);
    assert_eq!(r.general_register(15), 7);
    r.update_general_register(3, 9);
    assert_eq!(r.general_register(3), 9);
    // An index beyond the register file is ignored.
    r.update_general_register(16, 1);
    r.update_general_register(200, 1);
    for i in 0..16u8 {
        let expected = match i {
            3 => 9,
            15 => 7,
            _ => 0,
        };
        assert_eq!(r.general_register(i), expected);
    }
}

#[test]
fn store_from_v0_fills_prefix() {
    let mut r = regs_with(&[(0, 9), (1, 9), (2, 9), (3, 9)]);
    r.store_from_v0(&vec![1, 2, 3]);
    assert_eq!(r.general_register(0), 1);
    assert_eq!(r.general_register(1), 2);
    assert_eq!(r.general_register(2), 3);
    assert_eq!(r.general_register(3), 9);
}

#[test]
fn keypad_mapping_is_case_insensitive() {
    let mut kp = Keypad::new();
    assert_eq!(kp.set_press('x'), Some(0x0));
    assert_eq!(kp.set_press('X'), Some(0x0));
    assert_eq!(kp.set_press('1'), Some(0x1));
    assert_eq!(kp.set_press('4'), Some(0xC));
    assert_eq!(kp.set_press('V'), Some(0xF));
    assert_eq!(kp.set_press('5'), None);
    assert_eq!(kp.set_press('!'), None);
    assert!(kp.is_pressed(0x0));
    assert!(kp.is_pressed(0xC));
    assert!(!kp.is_pressed(0x2));
    assert!(!kp.is_pressed(200));
    kp.reset_all();
    assert!(!kp.is_pressed(0x0));
}
