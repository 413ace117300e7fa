use chip8::{coord, decode, execute, execute_with, fetch, sleep_millis, Cpu, Instruction, LoadError};

fn machine_with(program: &[u8]) -> Cpu {
    let mut cpu = Cpu::new();
    assert_eq!(cpu.load_rom(program), Ok(()));
    cpu
}

const GLYPHS: [u8; 80] = [
    0xF0, 0x90, 0x90, 0x90, 0xF0, 0x20, 0x60, 0x20, 0x20, 0x70, 0xF0, 0x10, 0xF0, 0x80, 0xF0, 0xF0,
    0x10, 0xF0, 0x10, 0xF0, 0x90, 0x90, 0xF0, 0x10, 0x10, 0xF0, 0x80, 0xF0, 0x10, 0xF0, 0xF0, 0x80,
    0xF0, 0x90, 0xF0, 0xF0, 0x10, 0x20, 0x40, 0x40, 0xF0, 0x90, 0xF0, 0x90, 0xF0, 0xF0, 0x90, 0xF0,
    0x10, 0xF0, 0xF0, 0x90, 0xF0, 0x90, 0x90, 0xE0, 0x90, 0xE0, 0x90, 0xE0, 0xF0, 0x80, 0x80, 0x80,
    0xF0, 0xE0, 0x90, 0x90, 0x90, 0xE0, 0xF0, 0x80, 0xF0, 0x80, 0xF0, 0xF0, 0x80, 0xF0, 0x80, 0x80,
];

#[test]
fn new_machine_is_blank_with_font() {
    let cpu = Cpu::new();
    assert_eq!(cpu.pc, 0x200);
    assert_eq!(&cpu.memory[0..80], &GLYPHS[..]);
    assert_eq!(&cpu.memory[0..5], &[0xF0, 0x90, 0x90, 0x90, 0xF0]);
    assert!(cpu.memory[80..].iter().all(|b| *b == 0));
    assert!(cpu.v_regs.iter().all(|b| *b == 0));
    assert!(cpu.v_memory.iter().all(|c| *c == 0));
    assert!(cpu.stack.is_empty());
    assert_eq!((cpu.sp, cpu.dt, cpu.i_reg, cpu.opcode), (0, 0, 0, 0));
}

#[test]
fn load_rom_places_image_at_0x200() {
    let cpu = machine_with(&[0xAB, 0xCD, 0xEF]);
    assert_eq!(&cpu.memory[0x200..0x203], &[0xAB, 0xCD, 0xEF]);
    assert_eq!(cpu.memory[0x203], 0);
    assert_eq!(&cpu.memory[0..80], &GLYPHS[..]);
}

#[test]
fn load_rom_accepts_image_filling_memory() {
    let rom = vec![0x11u8; 0x1000 - 0x200];
    let cpu = machine_with(&rom);
    assert_eq!(cpu.memory[0xFFF], 0x11);
}

#[test]
fn load_rom_rejects_oversized_image() {
    let mut cpu = Cpu::new();
    let rom = vec![0x11u8; 0x1000 - 0x200 + 1];
    assert_eq!(cpu.load_rom(&rom), Err(LoadError::TooLarge));
    assert_eq!(cpu.memory[0x200], 0);
}

#[test]
fn fetch_reads_big_endian_word() {
    let mut cpu = machine_with(&[0x12, 0x34]);
    fetch(&mut cpu);
    assert_eq!(cpu.opcode, 0x1234);
    assert_eq!(cpu.pc, 0x200);
}

#[test]
fn fetch_wraps_at_end_of_memory() {
    let mut cpu = Cpu::new();
    cpu.memory[0xFFF] = 0xA1;
    cpu.pc = 0xFFF;
    fetch(&mut cpu);
    assert_eq!(cpu.opcode, 0xA1F0);
}

#[test]
fn decode_recognises_families() {
    assert_eq!(decode(0x00E0), Instruction::ClearScreen);
    assert_eq!(decode(0x00EE), Instruction::Return);
    assert_eq!(decode(0x1ABC), Instruction::Jump { addr: 0xABC });
    assert_eq!(decode(0x7005), Instruction::AddImm { x: 0, kk: 5 });
    assert_eq!(decode(0x8AB4), Instruction::AddReg { x: 0xA, y: 0xB });
    assert_eq!(decode(0x812E), Instruction::ShiftLeft { x: 1 });
    assert_eq!(decode(0xD125), Instruction::Draw { x: 1, y: 2, n: 5 });
    assert_eq!(decode(0xE3A1), Instruction::SkipKeyUp { x: 3 });
    assert_eq!(decode(0xF265), Instruction::LoadRegs { x: 2 });
    assert_eq!(decode(0x8008), Instruction::Unknown);
    assert_eq!(decode(0xF0FF), Instruction::Unknown);
    assert_eq!(decode(0x0123), Instruction::Unknown);
}

#[test]
fn unknown_opcode_only_advances() {
    let mut cpu = machine_with(&[0x80, 0x08]);
    cpu.cycle();
    assert_eq!(cpu.pc, 0x202);
    assert!(cpu.v_regs.iter().all(|b| *b == 0));
}

#[test]
fn load_then_add_immediate() {
    let mut cpu = machine_with(&[0x60, 0x03, 0x70, 0x05]);
    cpu.cycle();
    cpu.cycle();
    assert_eq!(cpu.v_regs[0], 8);
    assert_eq!(cpu.pc, 0x204);
    assert_eq!(cpu.v_regs[0xF], 0);
    assert_eq!(cpu.dt, 0);
}

#[test]
fn return_on_empty_stack_is_ignored() {
    let mut cpu = machine_with(&[0x00, 0xEE]);
    cpu.cycle();
    assert_eq!(cpu.pc, 0x202);
    assert!(cpu.stack.is_empty());
    assert_eq!(cpu.sp, 0);
}

#[test]
fn add_immediate_wraps_without_flag() {
    let mut cpu = machine_with(&[0x63, 0xFF, 0x73, 0x02]);
    cpu.v_regs[0xF] = 7;
    cpu.cycle();
    cpu.cycle();
    assert_eq!(cpu.v_regs[3], 1);
    assert_eq!(cpu.v_regs[0xF], 7);
}

#[test]
fn add_registers_sets_carry() {
    let mut cpu = machine_with(&[0x80, 0x14, 0x80, 0x14]);
    cpu.v_regs[0] = 200;
    cpu.v_regs[1] = 100;
    cpu.cycle();
    assert_eq!((cpu.v_regs[0], cpu.v_regs[0xF]), (44, 1));
    cpu.cycle();
    assert_eq!((cpu.v_regs[0], cpu.v_regs[0xF]), (144, 0));
}

#[test]
fn subtract_with_larger_minuend() {
    let mut cpu = machine_with(&[0x80, 0x15]);
    cpu.v_regs[0] = 5;
    cpu.v_regs[1] = 3;
    cpu.cycle();
    assert_eq!((cpu.v_regs[0], cpu.v_regs[0xF]), (2, 1));
}

#[test]
fn subtract_without_borrow_room_leaves_register() {
    let mut cpu = machine_with(&[0x80, 0x15, 0x82, 0x35]);
    cpu.v_regs[0] = 3;
    cpu.v_regs[1] = 5;
    cpu.v_regs[2] = 4;
    cpu.v_regs[3] = 4;
    cpu.v_regs[0xF] = 9;
    cpu.cycle();
    assert_eq!((cpu.v_regs[0], cpu.v_regs[0xF]), (3, 0));
    cpu.cycle();
    assert_eq!((cpu.v_regs[2], cpu.v_regs[0xF]), (4, 0));
}

#[test]
fn reverse_subtract() {
    let mut cpu = machine_with(&[0x80, 0x17, 0x82, 0x37]);
    cpu.v_regs[0] = 3;
    cpu.v_regs[1] = 10;
    cpu.v_regs[2] = 10;
    cpu.v_regs[3] = 3;
    cpu.cycle();
    assert_eq!((cpu.v_regs[0], cpu.v_regs[0xF]), (7, 1));
    cpu.cycle();
    assert_eq!((cpu.v_regs[2], cpu.v_regs[0xF]), (10, 0));
}

#[test]
fn shifts_take_flag_from_low_bit() {
    let mut cpu = machine_with(&[0x80, 0x06, 0x81, 0x0E, 0x82, 0x0E]);
    cpu.v_regs[0] = 0x03;
    cpu.v_regs[1] = 0x81;
    cpu.v_regs[2] = 0x80;
    cpu.cycle();
    assert_eq!((cpu.v_regs[0], cpu.v_regs[0xF]), (0x01, 1));
    cpu.cycle();
    assert_eq!((cpu.v_regs[1], cpu.v_regs[0xF]), (0x02, 1));
    cpu.cycle();
    assert_eq!((cpu.v_regs[2], cpu.v_regs[0xF]), (0x00, 0));
}

#[test]
fn bitwise_operations() {
    let mut cpu = machine_with(&[0x80, 0x11, 0x82, 0x32, 0x84, 0x53, 0x86, 0x70]);
    cpu.v_regs = [0x0C, 0x0A, 0x0C, 0x0A, 0x0C, 0x0A, 0, 0x42, 0, 0, 0, 0, 0, 0, 0, 0];
    for _ in 0..4 {
        cpu.cycle();
    }
    assert_eq!(cpu.v_regs[0], 0x0E);
    assert_eq!(cpu.v_regs[2], 0x08);
    assert_eq!(cpu.v_regs[4], 0x06);
    assert_eq!(cpu.v_regs[6], 0x42);
}

#[test]
fn skips_on_immediate_and_register_comparisons() {
    let mut cpu = machine_with(&[0x30, 0x00, 0x00, 0x00, 0x40, 0x00, 0x50, 0x10, 0x00, 0x00, 0x90, 0x10]);
    cpu.cycle();
    assert_eq!(cpu.pc, 0x204);
    cpu.cycle();
    assert_eq!(cpu.pc, 0x206);
    cpu.cycle();
    assert_eq!(cpu.pc, 0x20A);
    cpu.cycle();
    assert_eq!(cpu.pc, 0x20C);
}

#[test]
fn draw_twice_restores_screen() {
    let mut cpu = machine_with(&[0xA0, 0x00, 0xD0, 0x15, 0xD0, 0x15]);
    cpu.cycle();
    cpu.cycle();
    assert_eq!(cpu.v_regs[0xF], 0);
    assert_eq!(cpu.v_memory[0], 0xFFFF_FFFF);
    assert_eq!(cpu.v_memory[3], 0xFFFF_FFFF);
    assert_eq!(cpu.v_memory[4], 0);
    assert_eq!(cpu.v_memory[64], 0xFFFF_FFFF);
    assert_eq!(cpu.v_memory[65], 0);
    assert_eq!(cpu.v_memory.iter().filter(|c| **c != 0).count(), 14);
    cpu.cycle();
    assert_eq!(cpu.v_regs[0xF], 1);
    assert!(cpu.v_memory.iter().all(|c| *c == 0));
}

#[test]
fn draw_wraps_around_edges() {
    let mut cpu = machine_with(&[0xD0, 0x11]);
    cpu.i_reg = 0x300;
    cpu.memory[0x300] = 0xFF;
    cpu.v_regs[0] = 60;
    cpu.v_regs[1] = 31;
    cpu.cycle();
    let row = 31 * 64;
    for col in [60usize, 61, 62, 63, 0, 1, 2, 3] {
        assert_eq!(cpu.v_memory[row + col], 0xFFFF_FFFF);
    }
    assert_eq!(cpu.v_memory.iter().filter(|c| **c != 0).count(), 8);
}

#[test]
fn clear_screen_blanks_every_cell() {
    let mut cpu = machine_with(&[0x00, 0xE0]);
    cpu.v_memory = [0xFFFF_FFFF; 2048];
    cpu.cycle();
    assert!(cpu.v_memory.iter().all(|c| *c == 0));
}

#[test]
fn call_then_return_comes_back() {
    let mut cpu = machine_with(&[0x22, 0x06, 0x00, 0x00, 0x00, 0x00, 0x00, 0xEE]);
    cpu.cycle();
    assert_eq!(cpu.pc, 0x206);
    assert_eq!(cpu.stack, vec![0x202]);
    assert_eq!(cpu.sp, 1);
    cpu.cycle();
    assert_eq!(cpu.pc, 0x202);
    assert!(cpu.stack.is_empty());
    assert_eq!(cpu.sp, 0);
}

#[test]
fn call_beyond_stack_depth_is_ignored() {
    let mut cpu = machine_with(&[0x22, 0x00]);
    for _ in 0..16 {
        cpu.cycle();
        assert_eq!(cpu.pc, 0x200);
    }
    assert_eq!(cpu.stack.len(), 16);
    cpu.cycle();
    assert_eq!(cpu.pc, 0x202);
    assert_eq!(cpu.stack.len(), 16);
    assert_eq!(cpu.sp, 16);
}

#[test]
fn jumps_and_index() {
    let mut cpu = machine_with(&[0x12, 0x08]);
    cpu.cycle();
    assert_eq!(cpu.pc, 0x208);
    let mut cpu = machine_with(&[0xB3, 0x00, 0xA1, 0x23]);
    cpu.v_regs[0] = 0x10;
    cpu.cycle();
    assert_eq!(cpu.pc, 0x310);
    let mut cpu = machine_with(&[0xA1, 0x23, 0xF0, 0x1E]);
    cpu.v_regs[0] = 0x10;
    cpu.cycle();
    cpu.cycle();
    assert_eq!(cpu.i_reg, 0x133);
}

#[test]
fn add_to_index_wraps() {
    let mut cpu = machine_with(&[0xF0, 0x1E]);
    cpu.i_reg = 0xFFFF;
    cpu.v_regs[0] = 2;
    cpu.cycle();
    assert_eq!(cpu.i_reg, 1);
}

#[test]
fn delay_timer_counts_down_to_zero() {
    let mut cpu = machine_with(&[0x60, 0x02, 0xF0, 0x15, 0xF1, 0x07, 0x00, 0x00, 0x00, 0x00]);
    cpu.cycle();
    assert_eq!(cpu.dt, 0);
    cpu.cycle();
    assert_eq!(cpu.dt, 1);
    cpu.cycle();
    assert_eq!(cpu.v_regs[1], 1);
    assert_eq!(cpu.dt, 0);
    cpu.cycle();
    assert_eq!(cpu.dt, 0);
}

#[test]
fn key_skips() {
    let mut cpu = machine_with(&[0xE0, 0x9E, 0x00, 0x00, 0xE0, 0xA1]);
    cpu.v_regs[0] = 5;
    cpu.keypad[5] = 1;
    cpu.cycle();
    assert_eq!(cpu.pc, 0x204);
    cpu.cycle();
    assert_eq!(cpu.pc, 0x206);
    let mut cpu = machine_with(&[0xE0, 0xA1]);
    cpu.v_regs[0] = 0x15;
    cpu.cycle();
    assert_eq!(cpu.pc, 0x204);
}

#[test]
fn wait_for_key_repeats_until_pressed() {
    let mut cpu = machine_with(&[0xF3, 0x0A]);
    cpu.cycle();
    assert_eq!(cpu.pc, 0x200);
    cpu.keypad[9] = 1;
    cpu.keypad[12] = 1;
    cpu.cycle();
    assert_eq!(cpu.pc, 0x202);
    assert_eq!(cpu.v_regs[3], 9);
}

#[test]
fn decimal_digits_stored_at_index() {
    let mut cpu = machine_with(&[0xF0, 0x33]);
    cpu.v_regs[0] = 234;
    cpu.i_reg = 0x300;
    cpu.cycle();
    assert_eq!(&cpu.memory[0x300..0x303], &[2, 3, 4]);
}

#[test]
fn decimal_digits_wrap_at_end_of_memory() {
    let mut cpu = machine_with(&[0xF0, 0x33]);
    cpu.v_regs[0] = 109;
    cpu.i_reg = 0xFFF;
    cpu.cycle();
    assert_eq!(cpu.memory[0xFFF], 1);
    assert_eq!(cpu.memory[0x000], 0);
    assert_eq!(cpu.memory[0x001], 9);
}

#[test]
fn store_and_load_registers() {
    let mut cpu = machine_with(&[0xF2, 0x55, 0x60, 0x00, 0x61, 0x00, 0x62, 0x00, 0x63, 0x09, 0xF2, 0x65]);
    cpu.v_regs[0] = 7;
    cpu.v_regs[1] = 8;
    cpu.v_regs[2] = 9;
    cpu.v_regs[3] = 10;
    cpu.i_reg = 0x400;
    cpu.cycle();
    assert_eq!(&cpu.memory[0x400..0x404], &[7, 8, 9, 0]);
    for _ in 0..5 {
        cpu.cycle();
    }
    assert_eq!(&cpu.v_regs[0..4], &[7, 8, 9, 9]);
}

#[test]
fn random_is_masked() {
    let mut cpu = machine_with(&[0xC0, 0x0F]);
    cpu.cycle();
    assert!(cpu.v_regs[0] <= 0x0F);
}

#[test]
fn random_with_given_byte() {
    let mut cpu = machine_with(&[0xC4, 0xF0]);
    fetch(&mut cpu);
    execute_with(&mut cpu, 0xAB);
    assert_eq!(cpu.v_regs[4], 0xA0);
    assert_eq!(cpu.pc, 0x202);
}

#[test]
fn execute_advances_before_dispatch() {
    let mut cpu = machine_with(&[0x6A, 0x42]);
    fetch(&mut cpu);
    execute(&mut cpu);
    assert_eq!(cpu.v_regs[0xA], 0x42);
    assert_eq!(cpu.pc, 0x202);
}

#[test]
fn cycle_with_matches_cycle_on_deterministic_code() {
    let mut a = machine_with(&[0x61, 0x07]);
    let mut b = machine_with(&[0x61, 0x07]);
    a.cycle();
    b.cycle_with(0);
    assert_eq!(a.v_regs, b.v_regs);
    assert_eq!(a.pc, b.pc);
}

#[test]
fn coord_wraps_both_axes() {
    assert_eq!(coord(0, 0), 0);
    assert_eq!(coord(64, 32), 0);
    assert_eq!(coord(65, 1), 65);
    assert_eq!(coord(63, 31), 2047);
}

#[test]
fn pacing_sleeps_for_remaining_budget() {
    assert_eq!(sleep_millis(0, 0), Some(16));
    assert_eq!(sleep_millis(1000, 6000), Some(11));
    assert_eq!(sleep_millis(0, 15_999), Some(1));
    assert_eq!(sleep_millis(0, 16_000), None);
    assert_eq!(sleep_millis(0, 900_000), None);
    assert_eq!(sleep_millis(3000, 0), Some(19));
    assert_eq!(sleep_millis(4000, 0), None);
}
