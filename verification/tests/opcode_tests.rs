use chip8::chip8::Chip8;
use chip8::error::Chip8Error;
use chip8::instruction::Instruction;
use chip8::opcodes::PC;

fn machine() -> Chip8 {
    Chip8::init(500)
}

#[test]
fn pc_actions() {
    assert_eq!(PC::Next.apply(0x200), 0x202);
    assert_eq!(PC::Jump(0x345).apply(0x200), 0x345);
    assert_eq!(PC::Skip(true).apply(0x200), 0x204);
    assert_eq!(PC::Skip(false).apply(0x200), 0x202);
}

#[test]
fn pc_wraps_at_the_end_of_the_address_space() {
    assert_eq!(PC::Next.apply(0xFFFE), 0x0000);
    assert_eq!(PC::Next.apply(0xFFFF), 0x0001);
    assert_eq!(PC::Skip(true).apply(0xFFFE), 0x0002);
    assert_eq!(PC::Skip(true).apply(0xFFFC), 0x0000);
}

#[test]
fn load_then_add_immediate_wraps() {
    for (nn1, nn2) in [(0u8, 0u8), (10, 5), (200, 100), (255, 1), (255, 255), (1, 255)] {
        let mut chip = machine();
        assert_eq!(chip.exec_opcode(0x6300 | nn1 as u16), Ok(()));
        assert_eq!(chip.exec_opcode(0x7300 | nn2 as u16), Ok(()));
        assert_eq!(chip.v[3] as u16, (nn1 as u16 + nn2 as u16) % 256);
        assert_eq!(chip.v[0xF], 0);
        assert_eq!(chip.pc, 0x204);
    }
}

#[test]
fn add_sets_carry_exactly_on_overflow() {
    for (a, b, sum, carry) in
        [(10u8, 5u8, 15u8, 0u8), (200, 55, 255, 0), (200, 56, 0, 1), (255, 255, 254, 1), (0, 0, 0, 0)]
    {
        let mut chip = machine();
        chip.v[0] = a;
        chip.v[1] = b;
        assert_eq!(chip.exec_opcode(0x8014), Ok(()));
        assert_eq!(chip.v[0], sum);
        assert_eq!(chip.v[1], b);
        assert_eq!(chip.v[0xF], carry);
    }
}

#[test]
fn sub_clears_the_flag_exactly_on_borrow() {
    for (a, b, diff, flag) in
        [(10u8, 5u8, 5u8, 1u8), (5, 10, 251, 0), (7, 7, 0, 1), (0, 1, 255, 0), (0, 255, 1, 0)]
    {
        let mut chip = machine();
        chip.v[2] = a;
        chip.v[3] = b;
        assert_eq!(chip.exec_opcode(0x8235), Ok(()));
        assert_eq!(chip.v[2], diff);
        assert_eq!(chip.v[0xF], flag);
    }
}

#[test]
fn reverse_sub_subtracts_vx_from_vy() {
    for (a, b, diff, flag) in [(5u8, 10u8, 5u8, 1u8), (10, 5, 251, 0), (7, 7, 0, 1)] {
        let mut chip = machine();
        chip.v[2] = a;
        chip.v[3] = b;
        assert_eq!(chip.exec_opcode(0x8237), Ok(()));
        assert_eq!(chip.v[2], diff);
        assert_eq!(chip.v[3], b);
        assert_eq!(chip.v[0xF], flag);
    }
}

#[test]
fn shifts_put_the_lost_bit_in_the_flag() {
    let mut chip = machine();
    chip.v[4] = 0b1000_0101;
    assert_eq!(chip.exec_opcode(0x8406), Ok(()));
    assert_eq!(chip.v[4], 0b0100_0010);
    assert_eq!(chip.v[0xF], 1);
    assert_eq!(chip.exec_opcode(0x8406), Ok(()));
    assert_eq!(chip.v[4], 0b0010_0001);
    assert_eq!(chip.v[0xF], 0);

    chip.v[5] = 0b1000_0101;
    assert_eq!(chip.exec_opcode(0x850E), Ok(()));
    assert_eq!(chip.v[5], 0b0000_1010);
    assert_eq!(chip.v[0xF], 1);
    assert_eq!(chip.exec_opcode(0x850E), Ok(()));
    assert_eq!(chip.v[5], 0b0001_0100);
    assert_eq!(chip.v[0xF], 0);
}

#[test]
fn the_flag_wins_when_vx_is_vf() {
    let mut chip = machine();
    chip.v[0xF] = 200;
    chip.v[1] = 100;
    chip.exec_opcode(0x8F14).unwrap();
    assert_eq!(chip.v[0xF], 1);

    chip.v[0xF] = 3;
    chip.exec_opcode(0x8F14).unwrap();
    assert_eq!(chip.v[0xF], 0);

    chip.v[0xF] = 3;
    chip.exec_opcode(0x8F15).unwrap();
    assert_eq!(chip.v[0xF], 0);

    chip.v[0xF] = 100;
    chip.exec_opcode(0x8F17).unwrap();
    assert_eq!(chip.v[0xF], 1);

    chip.v[0xF] = 0b0000_0011;
    chip.exec_opcode(0x8F06).unwrap();
    assert_eq!(chip.v[0xF], 1);

    chip.v[0xF] = 0b1000_0000;
    chip.exec_opcode(0x8F0E).unwrap();
    assert_eq!(chip.v[0xF], 1);

    chip.v[0xF] = 0b0100_0000;
    chip.exec_opcode(0x8F0E).unwrap();
    assert_eq!(chip.v[0xF], 0);
}

#[test]
fn the_flag_as_second_operand_is_read_before_it_is_written() {
    let mut chip = machine();
    chip.v[0] = 250;
    chip.v[0xF] = 10;
    chip.exec_opcode(0x80F4).unwrap();
    assert_eq!(chip.v[0], 4);
    assert_eq!(chip.v[0xF], 1);
}

#[test]
fn logic_instructions() {
    let mut chip = machine();
    chip.v[1] = 0b1100;
    chip.v[2] = 0b1010;
    chip.v[0xF] = 9;
    chip.exec_opcode(0x8121).unwrap();
    assert_eq!(chip.v[1], 0b1110);
    chip.v[1] = 0b1100;
    chip.exec_opcode(0x8122).unwrap();
    assert_eq!(chip.v[1], 0b1000);
    chip.v[1] = 0b1100;
    chip.exec_opcode(0x8123).unwrap();
    assert_eq!(chip.v[1], 0b0110);
    chip.exec_opcode(0x8120).unwrap();
    assert_eq!(chip.v[1], 0b1010);
    assert_eq!(chip.v[2], 0b1010);
    assert_eq!(chip.v[0xF], 9);
    assert_eq!(chip.pc, 0x208);
}

#[test]
fn jumps_set_the_program_counter() {
    let mut chip = machine();
    chip.exec_opcode(0x1ABC).unwrap();
    assert_eq!(chip.pc, 0xABC);
    chip.v[0] = 0xFF;
    chip.exec_opcode(0xBFFF).unwrap();
    assert_eq!(chip.pc, 0x10FE);
    chip.v[0] = 2;
    chip.exec_opcode(0xB300).unwrap();
    assert_eq!(chip.pc, 0x302);
}

#[test]
fn skips_advance_by_four_or_two() {
    let mut chip = machine();
    chip.v[1] = 0x42;
    chip.v[2] = 0x42;
    chip.v[3] = 0x43;
    chip.exec_opcode(0x3142).unwrap();
    assert_eq!(chip.pc, 0x204);
    chip.exec_opcode(0x3143).unwrap();
    assert_eq!(chip.pc, 0x206);
    chip.exec_opcode(0x4142).unwrap();
    assert_eq!(chip.pc, 0x208);
    chip.exec_opcode(0x4143).unwrap();
    assert_eq!(chip.pc, 0x20C);
    chip.exec_opcode(0x5120).unwrap();
    assert_eq!(chip.pc, 0x210);
    chip.exec_opcode(0x5130).unwrap();
    assert_eq!(chip.pc, 0x212);
    chip.exec_opcode(0x9120).unwrap();
    assert_eq!(chip.pc, 0x214);
    chip.exec_opcode(0x9130).unwrap();
    assert_eq!(chip.pc, 0x218);
}

#[test]
fn call_and_return() {
    let mut chip = machine();
    assert_eq!(chip.exec_opcode(0x2400), Ok(()));
    assert_eq!(chip.pc, 0x400);
    assert_eq!(chip.stack.depth(), 1);
    assert_eq!(chip.exec_opcode(0x2600), Ok(()));
    assert_eq!(chip.pc, 0x600);
    assert_eq!(chip.exec_opcode(0x00EE), Ok(()));
    assert_eq!(chip.pc, 0x402);
    assert_eq!(chip.exec_opcode(0x00EE), Ok(()));
    assert_eq!(chip.pc, 0x202);
    assert_eq!(chip.stack.depth(), 0);
}

#[test]
fn return_without_call_underflows_and_changes_nothing() {
    let mut chip = machine();
    chip.v[1] = 9;
    assert_eq!(chip.exec_opcode(0x00EE), Err(Chip8Error::StackUnderflow));
    assert_eq!(chip.pc, 0x200);
    assert_eq!(chip.v[1], 9);
    assert_eq!(chip.stack.depth(), 0);
    assert!(Chip8Error::StackUnderflow.fatal());
}

#[test]
fn seventeenth_call_overflows_and_changes_nothing() {
    let mut chip = machine();
    for _ in 0..16 {
        assert_eq!(chip.exec_opcode(0x2300), Ok(()));
    }
    assert_eq!(chip.stack.depth(), 16);
    chip.pc = 0x250;
    assert_eq!(chip.exec_opcode(0x2400), Err(Chip8Error::StackOverflow));
    assert_eq!(chip.pc, 0x250);
    assert_eq!(chip.stack.depth(), 16);
    assert!(Chip8Error::StackOverflow.fatal());
    assert_eq!(chip.exec_opcode(0x00EE), Ok(()));
    assert_eq!(chip.pc, 0x302);
}

#[test]
fn unknown_opcode_is_reported_and_skipped() {
    let mut chip = machine();
    chip.v[3] = 7;
    assert_eq!(chip.exec_opcode(0x5121), Err(Chip8Error::UnknownOpcode(0x5121)));
    assert_eq!(chip.pc, 0x202);
    assert_eq!(chip.v[3], 7);
    assert_eq!(chip.exec_opcode(0xFFFF), Err(Chip8Error::UnknownOpcode(0xFFFF)));
    assert_eq!(chip.pc, 0x204);
    assert!(!Chip8Error::UnknownOpcode(0xFFFF).fatal());
    assert_eq!(chip.exec_opcode(0x6A01), Ok(()));
    assert_eq!(chip.v[0xA], 1);
}

#[test]
fn index_instructions() {
    let mut chip = machine();
    chip.exec_opcode(0xA123).unwrap();
    assert_eq!(chip.i, 0x123);
    chip.v[2] = 0x10;
    chip.v[0xF] = 5;
    chip.exec_opcode(0xF21E).unwrap();
    assert_eq!(chip.i, 0x133);
    assert_eq!(chip.v[0xF], 0);
    chip.v[4] = 0xB;
    chip.exec_opcode(0xF429).unwrap();
    assert_eq!(chip.i, 55);
    chip.v[4] = 0xFF;
    chip.exec_opcode(0xF429).unwrap();
    assert_eq!(chip.i, 1275);
}

#[test]
fn index_add_is_not_masked_to_twelve_bits() {
    let mut chip = machine();
    chip.i = 0x0FFF;
    chip.v[1] = 2;
    chip.exec_opcode(0xF11E).unwrap();
    assert_eq!(chip.i, 0x1001);
    assert_eq!(chip.v[0xF], 0);
}

#[test]
fn index_add_flags_sixteen_bit_overflow() {
    let mut chip = machine();
    chip.i = 0xFFFF;
    chip.v[1] = 2;
    chip.exec_opcode(0xF11E).unwrap();
    assert_eq!(chip.i, 1);
    assert_eq!(chip.v[0xF], 1);
    chip.i = 0xFF00;
    chip.v[1] = 0xFF;
    chip.exec_opcode(0xF11E).unwrap();
    assert_eq!(chip.i, 0xFFFF);
    assert_eq!(chip.v[0xF], 0);
}

#[test]
fn timer_instructions() {
    let mut chip = machine();
    chip.v[1] = 33;
    chip.exec_opcode(0xF115).unwrap();
    assert_eq!(chip.delay_timer, 33);
    chip.v[2] = 44;
    chip.exec_opcode(0xF218).unwrap();
    assert_eq!(chip.sound_timer, 44);
    chip.exec_opcode(0xF307).unwrap();
    assert_eq!(chip.v[3], 33);
}

#[test]
fn bcd_of_156() {
    let mut chip = machine();
    chip.v[5] = 156;
    chip.i = 0x300;
    chip.exec_opcode(0xF533).unwrap();
    assert_eq!(chip.memory.peek(0x300), 1);
    assert_eq!(chip.memory.peek(0x301), 5);
    assert_eq!(chip.memory.peek(0x302), 6);
    assert_eq!(chip.memory.peek(0x303), 0);
    assert_eq!(chip.i, 0x300);
    assert_eq!(chip.pc, 0x202);
}

#[test]
fn bcd_of_small_and_large_values() {
    for (value, digits) in [(0u8, [0u8, 0, 0]), (7, [0, 0, 7]), (42, [0, 4, 2]), (255, [2, 5, 5]), (100, [1, 0, 0])] {
        let mut chip = machine();
        chip.v[0] = value;
        chip.i = 0x400;
        chip.exec_opcode(0xF033).unwrap();
        assert_eq!(
            [chip.memory.peek(0x400), chip.memory.peek(0x401), chip.memory.peek(0x402)],
            digits
        );
    }
}

#[test]
fn bcd_wraps_around_the_end_of_memory() {
    let mut chip = machine();
    chip.v[0] = 123;
    chip.i = 0xFFF;
    chip.exec_opcode(0xF033).unwrap();
    assert_eq!(chip.memory.peek(0xFFF), 1);
    assert_eq!(chip.memory.peek(0x000), 2);
    assert_eq!(chip.memory.peek(0x001), 3);
}

#[test]
fn store_registers_is_inclusive() {
    let mut chip = machine();
    for k in 0..16 {
        chip.v[k] = 0x10 + k as u8;
    }
    chip.i = 0x300;
    chip.exec_opcode(0xF355).unwrap();
    assert_eq!(chip.memory.peek(0x300), 0x10);
    assert_eq!(chip.memory.peek(0x301), 0x11);
    assert_eq!(chip.memory.peek(0x302), 0x12);
    assert_eq!(chip.memory.peek(0x303), 0x13);
    assert_eq!(chip.memory.peek(0x304), 0);
    assert_eq!(chip.memory.peek(0x2FF), 0);
    assert_eq!(chip.i, 0x300);
    chip.exec_opcode(0xF055).unwrap();
    assert_eq!(chip.memory.peek(0x300), 0x10);
    chip.i = 0x500;
    chip.exec_opcode(0xFF55).unwrap();
    for k in 0..16u16 {
        assert_eq!(chip.memory.peek(0x500 + k), 0x10 + k as u8);
    }
    assert_eq!(chip.memory.peek(0x510), 0);
}

#[test]
fn load_registers_is_inclusive() {
    let mut chip = machine();
    chip.memory.load(0x300, &[9, 8, 7, 6, 5]);
    chip.v[4] = 0xEE;
    chip.i = 0x300;
    chip.exec_opcode(0xF365).unwrap();
    assert_eq!(&chip.v[0..5], &[9, 8, 7, 6, 0xEE]);
    assert_eq!(chip.i, 0x300);
}

#[test]
fn register_transfers_wrap_around_the_end_of_memory() {
    let mut chip = machine();
    chip.v[0] = 1;
    chip.v[1] = 2;
    chip.v[2] = 3;
    chip.i = 0xFFF;
    chip.exec_opcode(0xF255).unwrap();
    assert_eq!(chip.memory.peek(0xFFF), 1);
    assert_eq!(chip.memory.peek(0x000), 2);
    assert_eq!(chip.memory.peek(0x001), 3);
    chip.v = [0; 16];
    chip.exec_opcode(0xF265).unwrap();
    assert_eq!(&chip.v[0..3], &[1, 2, 3]);
    chip.i = 0xFFFF;
    chip.v = [0; 16];
    chip.exec_opcode(0xF265).unwrap();
    assert_eq!(&chip.v[0..3], &[1, 2, 3]);
}

#[test]
fn key_skips() {
    let mut chip = machine();
    chip.v[1] = 7;
    chip.exec_opcode(0xE19E).unwrap();
    assert_eq!(chip.pc, 0x202);
    chip.exec_opcode(0xE1A1).unwrap();
    assert_eq!(chip.pc, 0x206);
    chip.keypad.set_key(7, true);
    chip.exec_opcode(0xE19E).unwrap();
    assert_eq!(chip.pc, 0x20A);
    chip.exec_opcode(0xE1A1).unwrap();
    assert_eq!(chip.pc, 0x20C);
}

#[test]
fn a_number_that_names_no_key_is_never_down() {
    let mut chip = machine();
    for key in 0..16 {
        chip.keypad.set_key(key, true);
    }
    chip.v[1] = 16;
    chip.exec_opcode(0xE19E).unwrap();
    assert_eq!(chip.pc, 0x202);
    chip.v[1] = 0xFF;
    chip.exec_opcode(0xE1A1).unwrap();
    assert_eq!(chip.pc, 0x206);
}

#[test]
fn wait_key_suspends_the_machine() {
    let mut chip = machine();
    chip.exec_opcode(0xF30A).unwrap();
    assert!(chip.keypad.waiting());
    assert_eq!(chip.keypad.dest_register(), 3);
    assert_eq!(chip.pc, 0x202);
}

#[test]
fn clear_screen() {
    let mut chip = machine();
    chip.display.set(3, 3, true);
    chip.exec_opcode(0x00E0).unwrap();
    assert!(chip.display.buffer().iter().all(|p| !*p));
    assert_eq!(chip.pc, 0x202);
}

#[test]
fn draw_reads_the_sprite_at_the_index_register() {
    let mut chip = machine();
    chip.memory.load(0x300, &[0xF0, 0x90, 0xF0]);
    chip.i = 0x300;
    chip.v[1] = 4;
    chip.v[2] = 2;
    chip.v[0xF] = 7;
    chip.exec_opcode(0xD123).unwrap();
    let lit: Vec<(u8, u8)> = (0..32u8)
        .flat_map(|y| (0..64u8).map(move |x| (x, y)))
        .filter(|(x, y)| chip.display.get(*x, *y))
        .collect();
    assert_eq!(
        lit,
        vec![(4, 2), (5, 2), (6, 2), (7, 2), (4, 3), (7, 3), (4, 4), (5, 4), (6, 4), (7, 4)]
    );
    assert_eq!(chip.v[0xF], 0);
    assert_eq!(chip.i, 0x300);
    assert_eq!(chip.pc, 0x202);
}

#[test]
fn draw_twice_clears_and_collides() {
    let mut chip = machine();
    chip.memory.load(0x300, &[0xFF, 0x81, 0xFF]);
    chip.i = 0x300;
    chip.v[1] = 62;
    chip.v[2] = 31;
    chip.exec_opcode(0xD123).unwrap();
    assert_eq!(chip.v[0xF], 0);
    assert!(chip.display.buffer().iter().any(|p| *p));
    chip.exec_opcode(0xD123).unwrap();
    assert_eq!(chip.v[0xF], 1);
    assert!(chip.display.buffer().iter().all(|p| !*p));
}

#[test]
fn draw_takes_its_coordinates_modulo_the_display() {
    let mut chip = machine();
    chip.memory.load(0x300, &[0x80]);
    chip.i = 0x300;
    chip.v[1] = 64 + 3;
    chip.v[2] = 32 + 4;
    chip.exec_opcode(0xD121).unwrap();
    assert!(chip.display.get(3, 4));
    assert_eq!(chip.display.buffer().iter().filter(|p| **p).count(), 1);
}

#[test]
fn draw_of_no_rows_clears_the_flag() {
    let mut chip = machine();
    chip.v[0xF] = 1;
    chip.display.set(0, 0, true);
    chip.exec_opcode(0xD000).unwrap();
    assert_eq!(chip.v[0xF], 0);
    assert!(chip.display.get(0, 0));
}

#[test]
fn draw_reads_sprite_rows_around_the_end_of_memory() {
    let mut chip = machine();
    chip.memory.poke(0xFFF, 0x80);
    chip.memory.poke(0x000, 0x40);
    chip.i = 0xFFF;
    chip.exec_opcode(0xD002).unwrap();
    assert!(chip.display.get(0, 0));
    assert!(chip.display.get(1, 1));
    assert_eq!(chip.display.buffer().iter().filter(|p| **p).count(), 2);
}

#[test]
fn random_is_masked() {
    let mut chip = machine();
    for _ in 0..200 {
        chip.v[1] = 0xFF;
        chip.exec_opcode(0xC10F).unwrap();
        assert!(chip.v[1] <= 0x0F);
        chip.exec_opcode(0xC200).unwrap();
        assert_eq!(chip.v[2], 0);
    }
    assert_eq!(chip.pc, 0x200 + 2 * 400);
}

#[test]
fn random_draws_bytes_below_255_that_vary() {
    let mut chip = machine();
    let mut seen = [false; 256];
    for _ in 0..2000 {
        chip.exec_opcode(0xC3FF).unwrap();
        assert!(chip.v[3] < 255);
        seen[chip.v[3] as usize] = true;
    }
    assert!(seen.iter().filter(|s| **s).count() > 100);
}

#[test]
fn execute_takes_the_random_byte_as_given() {
    let mut chip = machine();
    assert_eq!(chip.execute(Instruction::Random(4, 0xF0), 0xAB), Ok(()));
    assert_eq!(chip.v[4], 0xA0);
    assert_eq!(chip.execute(Instruction::Random(4, 0xFF), 0xFF), Ok(()));
    assert_eq!(chip.v[4], 0xFF);
    assert_eq!(chip.pc, 0x204);
}

#[test]
fn execute_runs_decoded_instructions() {
    let mut chip = machine();
    assert_eq!(chip.execute(Instruction::LoadImm(0, 10), 0), Ok(()));
    assert_eq!(chip.execute(Instruction::LoadImm(1, 5), 0), Ok(()));
    assert_eq!(chip.execute(Instruction::Add(0, 1), 0), Ok(()));
    assert_eq!(chip.v[0], 15);
    assert_eq!(chip.execute(Instruction::Unknown(0x0000), 0), Err(Chip8Error::UnknownOpcode(0)));
    assert_eq!(chip.pc, 0x208);
}
