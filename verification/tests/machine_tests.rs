use chip8::machine::{frame_step, HaltInfo, Machine, MachineState};

fn machine(rom: &[u8]) -> Machine {
    Machine::new(&rom.to_vec()).unwrap()
}

fn run_frames(m: &mut Machine, n: usize) {
    for _ in 0..n {
        let out = frame_step(m, None);
        assert!(out.halt.is_none());
    }
}

#[test]
fn font_glyph_zero_draws_in_the_top_left_corner() {
    // Set the index register to the font address of digit 0 (V0 is 0), then
    // draw 5 rows at (V0, V0) = (0, 0).
    let mut m = machine(&[0xF0, 0x29, 0xD0, 0x05]);
    run_frames(&mut m, 2);
    let glyph = [
        [true, true, true, true],
        [true, false, false, true],
        [true, false, false, true],
        [true, false, false, true],
        [true, true, true, true],
    ];
    for y in 0..5u8 {
        for x in 0..4u8 {
            assert_eq!(m.screen.is_set(x, y), glyph[y as usize][x as usize]);
        }
        for x in 4..8u8 {
            assert!(!m.screen.is_set(x, y));
        }
    }
}

#[test]
fn register_dump_then_read_restores_values() {
    // V0..V3 = [1,2,3,4]; L = 0x300; dump V0..=V3; zero V0..V3; read back.
    let mut m = machine(&[
        0x60, 0x01, // V0 = 1
        0x61, 0x02, // V1 = 2
        0x62, 0x03, // V2 = 3
        0x63, 0x04, // V3 = 4
        0xA3, 0x00, // L = 0x300
        0xF3, 0x55, // dump V0..=V3 to [L]
        0x60, 0x00, // V0 = 0
        0x61, 0x00, // V1 = 0
        0x62, 0x00, // V2 = 0
        0x63, 0x00, // V3 = 0
        0xF3, 0x65, // read V0..=V3 from [L]
    ]);
    run_frames(&mut m, 10);
    assert_eq!(m.registers.general_register(0), 0);
    assert_eq!(m.registers.general_register(3), 0);
    run_frames(&mut m, 1);
    assert_eq!(m.registers.general_register(0), 1);
    assert_eq!(m.registers.general_register(1), 2);
    assert_eq!(m.registers.general_register(2), 3);
    assert_eq!(m.registers.general_register(3), 4);
    // The dumped bytes really sit at 0x300.
    assert_eq!(m.memory.get_data_bytes(0x300, 4).unwrap(), vec![1, 2, 3, 4]);
}

#[test]
fn unrecognized_word_halts_and_reports() {
    // 0x5AB1 matches no defined encoding.
    let mut m = machine(&[0x60, 0x07, 0x5A, 0xB1]);
    let first = frame_step(&mut m, None);
    assert!(first.halt.is_none());
    let out = frame_step(&mut m, None);
    match out.halt {
        Some(HaltInfo::UnrecognizedOpcode { addr, b0, b1 }) => {
            assert_eq!(addr, 0x202);
            assert_eq!(b0, 0x5A);
            assert_eq!(b1, 0xB1);
        },
        _ => panic!("expected an unrecognized-opcode halt"),
    }
    // Register state is unchanged from immediately before the fetch.
    assert_eq!(m.registers.get_pc(), 0x202);
    assert_eq!(m.registers.general_register(0), 7);
    assert_eq!(m.registers.sl, 0);
    assert_eq!(m.registers.spst.len(), 0);
}

#[test]
fn fetch_past_address_space_halts() {
    let mut m = machine(&[0x1F, 0xFF]); // jump to 0xFFF
    let first = frame_step(&mut m, None);
    assert!(first.halt.is_none());
    let out = frame_step(&mut m, None);
    assert!(matches!(out.halt, Some(HaltInfo::OutOfRangeAccess { addr: 0xFFF })));
    assert_eq!(m.registers.get_pc(), 0xFFF);
}

#[test]
fn empty_stack_return_halts() {
    let mut m = machine(&[0x00, 0xEE]);
    let out = frame_step(&mut m, None);
    assert!(matches!(out.halt, Some(HaltInfo::EmptyCallStackReturn)));
    assert_eq!(m.registers.get_pc(), 0x200);
}

#[test]
fn sprite_read_past_address_space_halts() {
    let mut m = machine(&[0xAF, 0xFF, 0xD0, 0x05]); // L = 0xFFF; draw 5 rows
    run_frames(&mut m, 1);
    let out = frame_step(&mut m, None);
    assert!(matches!(out.halt, Some(HaltInfo::OutOfRangeAccess { addr: 0xFFF })));
    // Nothing was drawn.
    for y in 0..32u8 {
        for x in 0..64u8 {
            assert!(!m.screen.is_set(x, y));
        }
    }
}

#[test]
fn draw_and_collision_through_the_frame_driver() {
    // L = font of V0 (0), draw twice at (0,0): the second draw collides and
    // clears what the first drew.
    let mut m = machine(&[0xF0, 0x29, 0xD0, 0x05, 0xD0, 0x05]);
    run_frames(&mut m, 2);
    assert!(m.screen.is_set(0, 0));
    assert!(!m.registers.vf);
    let out = frame_step(&mut m, None);
    assert!(out.halt.is_none());
    assert!(m.registers.vf); // collision
    assert_eq!(m.registers.general_register(15), 1); // readable as VF
    assert!(!out.draws.is_empty());
    for y in 0..32u8 {
        for x in 0..64u8 {
            assert!(!m.screen.is_set(x, y));
        }
    }
}

#[test]
fn clear_display_through_the_frame_driver() {
    let mut m = machine(&[0xF0, 0x29, 0xD0, 0x05, 0x00, 0xE0]);
    run_frames(&mut m, 2);
    assert!(m.screen.is_set(0, 0));
    let out = frame_step(&mut m, None);
    assert!(out.cleared);
    for y in 0..32u8 {
        for x in 0..64u8 {
            assert!(!m.screen.is_set(x, y));
        }
    }
}

#[test]
fn wait_key_suspends_until_a_key_arrives() {
    let mut m = machine(&[0xF1, 0x0A]); // wait for a key, store it in V1
    let out = frame_step(&mut m, None);
    assert!(out.halt.is_none());
    assert!(matches!(m.state, MachineState::WaitKeyPress { r: 1 }));
    assert_eq!(m.registers.get_pc(), 0x202);
    // Unrecognized input does not resolve the wait.
    let out2 = frame_step(&mut m, Some('5'));
    assert!(out2.halt.is_none());
    assert!(matches!(m.state, MachineState::WaitKeyPress { r: 1 }));
    assert_eq!(m.registers.general_register(1), 0);
    // A recognized key resolves it; the same frame then executes the next
    // instruction (0x0000, the ignored machine-code call).
    let out3 = frame_step(&mut m, Some('q'));
    assert!(out3.halt.is_none());
    assert!(matches!(m.state, MachineState::Normal));
    assert_eq!(m.registers.general_register(1), 4);
    assert_eq!(m.registers.get_pc(), 0x204);
}

#[test]
fn timers_tick_even_while_waiting() {
    let mut m = machine(&[0x62, 0x03, 0xF2, 0x15, 0xF1, 0x0A]); // V2=3; DT=V2; wait key
    run_frames(&mut m, 2);
    assert_eq!(m.registers.dt, 2); // set to 3, then decremented this frame
    run_frames(&mut m, 1); // executes the wait
    assert_eq!(m.registers.dt, 1);
    run_frames(&mut m, 1); // suspended, but timers still tick
    assert_eq!(m.registers.dt, 0);
    assert!(matches!(m.state, MachineState::WaitKeyPress { r: 1 }));
}

#[test]
fn beep_fires_while_sound_timer_runs() {
    let mut m = machine(&[0x62, 0x02, 0xF2, 0x18]); // V2=2; ST=V2
    let out1 = frame_step(&mut m, None);
    assert!(!out1.beep);
    let out2 = frame_step(&mut m, None); // ST set to 2, then decremented
    assert!(out2.beep);
    assert_eq!(m.registers.st, 1);
    let out3 = frame_step(&mut m, None);
    assert!(out3.beep);
    assert_eq!(m.registers.st, 0);
    let out4 = frame_step(&mut m, None);
    assert!(!out4.beep);
}

#[test]
fn keypad_is_reset_at_frame_start() {
    let mut m = machine(&[]);
    let _ = frame_step(&mut m, Some('w'));
    assert!(m.keypad.is_pressed(5));
    let _ = frame_step(&mut m, None);
    assert!(!m.keypad.is_pressed(5));
}

#[test]
fn skip_if_key_pressed_through_the_frame_driver() {
    // V0 = 4; skip-if-key-4-pressed; (skipped or not) V1 = 1.
    let mut m = machine(&[0x60, 0x04, 0xE0, 0x9E, 0x61, 0x01, 0x61, 0x02]);
    run_frames(&mut m, 1);
    let _ = frame_step(&mut m, Some('q')); // key 4 pressed: skip V1 = 1
    assert_eq!(m.registers.get_pc(), 0x206);
    run_frames(&mut m, 1); // V1 = 2
    assert_eq!(m.registers.general_register(1), 2);
}

#[test]
fn wait_key_can_target_vf() {
    let mut m = machine(&[0xFF, 0x0A]); // wait for a key, store it in VF
    let out = frame_step(&mut m, None);
    assert!(out.halt.is_none());
    assert!(matches!(m.state, MachineState::WaitKeyPress { r: 15 }));
    let out2 = frame_step(&mut m, Some('q'));
    assert!(out2.halt.is_none());
    assert_eq!(m.registers.general_register(15), 4);
}

#[test]
fn odd_program_counter_halts_the_fetch() {
    let mut m = machine(&[0x12, 0x01]); // jump to the odd address 0x201
    let first = frame_step(&mut m, None);
    assert!(first.halt.is_none());
    let out = frame_step(&mut m, None);
    assert!(matches!(out.halt, Some(HaltInfo::OutOfRangeAccess { addr: 0x201 })));
    assert_eq!(m.registers.get_pc(), 0x201);
}

#[test]
fn machine_new_rejects_oversized_rom() {
    assert!(Machine::new(&vec![0u8; 3585]).is_none());
    let m = Machine::new(&vec![]).unwrap();
    assert!(matches!(m.state, MachineState::Normal));
    assert_eq!(m.registers.get_pc(), 0x200);
}
