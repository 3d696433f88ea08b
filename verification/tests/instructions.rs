use chip8::{Cpu, CpuError, Outcome, Policy};

fn run(cpu: &mut Cpu, words: &[u16]) {
    for &word in words {
        assert!(cpu.execute(word, 0).is_ok(), "word {:#06x} failed", word);
    }
}

#[test]
fn add_byte_wraps_and_leaves_flag() {
    let mut cpu = Cpu::new();
    run(&mut cpu, &[0x6F55, 0x60FF]);
    assert_eq!(cpu.execute(0x7002, 0), Ok(Outcome::Continue));
    assert_eq!(cpu.registers()[0], 0x01);
    assert_eq!(cpu.registers()[0xF], 0x55);
    assert_eq!(cpu.pc(), 0x206);
}

#[test]
fn add_byte_at_the_boundary() {
    let mut cpu = Cpu::new();
    run(&mut cpu, &[0x63FF, 0x7301]);
    assert_eq!(cpu.registers()[3], 0x00);
    run(&mut cpu, &[0x73FF, 0x73FF]);
    assert_eq!(cpu.registers()[3], 0xFE);
    assert_eq!(cpu.registers()[0xF], 0x00);
}

#[test]
fn add_registers_sets_carry() {
    let mut cpu = Cpu::new();
    run(&mut cpu, &[0x60FF, 0x6101, 0x8014]);
    assert_eq!(cpu.registers()[0], 0x00);
    assert_eq!(cpu.registers()[0xF], 1);
}

#[test]
fn add_registers_clears_carry() {
    let mut cpu = Cpu::new();
    run(&mut cpu, &[0x6F01, 0x6001, 0x6101, 0x8014]);
    assert_eq!(cpu.registers()[0], 0x02);
    assert_eq!(cpu.registers()[0xF], 0);
}

#[test]
fn add_into_flag_register_keeps_the_carry() {
    let mut cpu = Cpu::new();
    run(&mut cpu, &[0x6FF0, 0x6120, 0x8F14]);
    assert_eq!(cpu.registers()[0xF], 1);
    run(&mut cpu, &[0x6F10, 0x8F14]);
    assert_eq!(cpu.registers()[0xF], 0);
}

#[test]
fn skip_if_equal_byte_taken() {
    let mut cpu = Cpu::new();
    run(&mut cpu, &[0x6010]);
    let before = cpu.pc();
    assert_eq!(cpu.execute(0x3010, 0), Ok(Outcome::Continue));
    assert_eq!(cpu.pc(), before + 4);
}

#[test]
fn skip_if_equal_byte_not_taken() {
    let mut cpu = Cpu::new();
    run(&mut cpu, &[0x6011]);
    let before = cpu.pc();
    assert_eq!(cpu.execute(0x3010, 0), Ok(Outcome::Continue));
    assert_eq!(cpu.pc(), before + 2);
}

#[test]
fn skip_if_not_equal_byte() {
    let mut cpu = Cpu::new();
    run(&mut cpu, &[0x6011]);
    let before = cpu.pc();
    run(&mut cpu, &[0x4010]);
    assert_eq!(cpu.pc(), before + 4);
    run(&mut cpu, &[0x4011]);
    assert_eq!(cpu.pc(), before + 6);
}

#[test]
fn skip_on_registers() {
    let mut cpu = Cpu::new();
    run(&mut cpu, &[0x6107, 0x6207, 0x6308]);
    let before = cpu.pc();
    run(&mut cpu, &[0x5120]);
    assert_eq!(cpu.pc(), before + 4);
    run(&mut cpu, &[0x5130]);
    assert_eq!(cpu.pc(), before + 6);
    run(&mut cpu, &[0x9120]);
    assert_eq!(cpu.pc(), before + 8);
    run(&mut cpu, &[0x9130]);
    assert_eq!(cpu.pc(), before + 12);
}

#[test]
fn load_and_move() {
    let mut cpu = Cpu::new();
    run(&mut cpu, &[0x6A42, 0x8BA0]);
    assert_eq!(cpu.registers()[0xA], 0x42);
    assert_eq!(cpu.registers()[0xB], 0x42);
    assert_eq!(cpu.pc(), 0x204);
}

#[test]
fn bitwise_operations_leave_flag() {
    let mut cpu = Cpu::new();
    run(&mut cpu, &[0x6F07, 0x60CC, 0x61AA, 0x8011]);
    assert_eq!(cpu.registers()[0], 0xEE);
    run(&mut cpu, &[0x60CC, 0x8012]);
    assert_eq!(cpu.registers()[0], 0x88);
    run(&mut cpu, &[0x60CC, 0x8013]);
    assert_eq!(cpu.registers()[0], 0x66);
    assert_eq!(cpu.registers()[0xF], 0x07);
}

#[test]
fn subtract_without_borrow() {
    let mut cpu = Cpu::new();
    run(&mut cpu, &[0x6009, 0x6104, 0x8015]);
    assert_eq!(cpu.registers()[0], 5);
    assert_eq!(cpu.registers()[0xF], 1);
}

#[test]
fn subtract_equal_operands_needs_no_borrow() {
    let mut cpu = Cpu::new();
    run(&mut cpu, &[0x6009, 0x6109, 0x8015]);
    assert_eq!(cpu.registers()[0], 0);
    assert_eq!(cpu.registers()[0xF], 1);
}

#[test]
fn subtract_with_borrow_wraps() {
    let mut cpu = Cpu::new();
    run(&mut cpu, &[0x6004, 0x6109, 0x8015]);
    assert_eq!(cpu.registers()[0], 0xFB);
    assert_eq!(cpu.registers()[0xF], 0);
}

#[test]
fn reverse_subtract() {
    let mut cpu = Cpu::new();
    run(&mut cpu, &[0x6004, 0x6109, 0x8017]);
    assert_eq!(cpu.registers()[0], 5);
    assert_eq!(cpu.registers()[0xF], 1);
    run(&mut cpu, &[0x6009, 0x6104, 0x8017]);
    assert_eq!(cpu.registers()[0], 0xFB);
    assert_eq!(cpu.registers()[0xF], 0);
}

#[test]
fn shift_right_moves_low_bit_to_flag() {
    let mut cpu = Cpu::new();
    run(&mut cpu, &[0x6005, 0x61FF, 0x8016]);
    assert_eq!(cpu.registers()[0], 2);
    assert_eq!(cpu.registers()[0xF], 1);
    run(&mut cpu, &[0x8016]);
    assert_eq!(cpu.registers()[0], 1);
    assert_eq!(cpu.registers()[0xF], 0);
    assert_eq!(cpu.registers()[1], 0xFF);
}

#[test]
fn shift_left_moves_high_bit_to_flag() {
    let mut cpu = Cpu::new();
    run(&mut cpu, &[0x60C1, 0x801E]);
    assert_eq!(cpu.registers()[0], 0x82);
    assert_eq!(cpu.registers()[0xF], 1);
    run(&mut cpu, &[0x6041, 0x801E]);
    assert_eq!(cpu.registers()[0], 0x82);
    assert_eq!(cpu.registers()[0xF], 0);
}

#[test]
fn jump_sets_pc_without_increment() {
    let mut cpu = Cpu::new();
    assert_eq!(cpu.execute(0x1ABC, 0), Ok(Outcome::Continue));
    assert_eq!(cpu.pc(), 0xABC);
}

#[test]
fn jump_with_offset() {
    let mut cpu = Cpu::new();
    run(&mut cpu, &[0x60FF, 0xBFFF]);
    assert_eq!(cpu.pc(), 0x10FE);
    run(&mut cpu, &[0x6002, 0xB300]);
    assert_eq!(cpu.pc(), 0x302);
}

#[test]
fn index_load_and_add() {
    let mut cpu = Cpu::new();
    assert_eq!(cpu.index(), 0x200);
    run(&mut cpu, &[0xAFFF, 0x60FF, 0xF01E]);
    assert_eq!(cpu.index(), 0x10FE);
    assert_eq!(cpu.registers()[0xF], 0);
}

#[test]
fn index_add_wraps_at_sixteen_bits() {
    let mut cpu = Cpu::new();
    run(&mut cpu, &[0xAFFF, 0x60FF]);
    for _ in 0..240 {
        run(&mut cpu, &[0xF01E]);
    }
    // 0x0FFF + 240 * 0xFF = 0xFF0F
    assert_eq!(cpu.index(), 0xFF0F);
    run(&mut cpu, &[0xF01E]);
    assert_eq!(cpu.index(), 0x000E);
}

#[test]
fn random_is_masked() {
    let mut cpu = Cpu::new();
    assert_eq!(cpu.execute(0xC50F, 0xA7), Ok(Outcome::Continue));
    assert_eq!(cpu.registers()[5], 0x07);
    assert_eq!(cpu.execute(0xC5F0, 0xA7), Ok(Outcome::Continue));
    assert_eq!(cpu.registers()[5], 0xA0);
    assert_eq!(cpu.pc(), 0x204);
}

#[test]
fn glyph_address_is_five_times_digit() {
    let mut cpu = Cpu::new();
    run(&mut cpu, &[0x600A, 0xF029]);
    assert_eq!(cpu.index(), 50);
    run(&mut cpu, &[0x601F, 0xF029]);
    assert_eq!(cpu.index(), 75);
}

#[test]
fn bcd_stores_three_digits() {
    let mut cpu = Cpu::new();
    run(&mut cpu, &[0xA300, 0x60FE, 0xF033]);
    assert_eq!(&cpu.memory()[0x300..0x303], &[2, 5, 4]);
    run(&mut cpu, &[0x6007, 0xF033]);
    assert_eq!(&cpu.memory()[0x300..0x303], &[0, 0, 7]);
    assert_eq!(cpu.index(), 0x300);
}

#[test]
fn bcd_wraps_round_memory() {
    let mut cpu = Cpu::new();
    run(&mut cpu, &[0xAFFF, 0x607B, 0xF033]);
    assert_eq!(cpu.memory()[0xFFF], 1);
    assert_eq!(cpu.memory()[0x000], 2);
    assert_eq!(cpu.memory()[0x001], 3);
}

#[test]
fn store_and_load_registers() {
    let mut cpu = Cpu::new();
    run(&mut cpu, &[0x6011, 0x6122, 0x6233, 0x6344, 0xA400, 0xF255]);
    assert_eq!(&cpu.memory()[0x400..0x404], &[0x11, 0x22, 0x33, 0x00]);
    assert_eq!(cpu.index(), 0x400);
    run(&mut cpu, &[0x6000, 0x6100, 0x6200, 0x6300, 0xF165]);
    assert_eq!(&cpu.registers()[0..4], &[0x11, 0x22, 0x00, 0x00]);
    run(&mut cpu, &[0xF365]);
    assert_eq!(&cpu.registers()[0..4], &[0x11, 0x22, 0x33, 0x00]);
}

#[test]
fn store_all_registers_wraps_round_memory() {
    let mut cpu = Cpu::new();
    run(&mut cpu, &[0x60A0, 0x61A1, 0x62A2, 0x6FAF, 0xAFFE, 0xFF55]);
    assert_eq!(cpu.memory()[0xFFE], 0xA0);
    assert_eq!(cpu.memory()[0xFFF], 0xA1);
    assert_eq!(cpu.memory()[0x000], 0xA2);
    assert_eq!(cpu.memory()[0x00D], 0xAF);
    assert_eq!(cpu.memory()[0x00E], 0xF0);
}

#[test]
fn timers_are_set_and_read() {
    let mut cpu = Cpu::new();
    run(&mut cpu, &[0x6033, 0xF015, 0x6044, 0xF018, 0xF107]);
    assert_eq!(cpu.delay_timer(), 0x33);
    assert_eq!(cpu.sound_timer(), 0x44);
    assert_eq!(cpu.registers()[1], 0x33);
}

#[test]
fn sys_is_skipped() {
    let mut cpu = Cpu::new();
    assert_eq!(cpu.execute(0x0123, 0), Ok(Outcome::Continue));
    assert_eq!(cpu.pc(), 0x202);
}

#[test]
fn unknown_word_is_fatal_when_strict() {
    let mut cpu = Cpu::new();
    assert_eq!(cpu.policy(), Policy::Strict);
    assert_eq!(cpu.execute(0x5011, 0), Err(CpuError::UnknownOpcode(0x5011)));
    assert_eq!(cpu.execute(0xF0FF, 0), Err(CpuError::UnknownOpcode(0xF0FF)));
    assert_eq!(cpu.pc(), 0x200);
    assert!(cpu.is_fresh());
}

#[test]
fn unknown_word_is_skipped_when_lenient() {
    let mut cpu = Cpu::with_policy(Policy::Lenient);
    assert_eq!(cpu.execute(0x800F, 0), Ok(Outcome::Ignored(0x800F)));
    assert_eq!(cpu.pc(), 0x202);
    assert_eq!(cpu.execute(0xE000, 0), Ok(Outcome::Ignored(0xE000)));
    assert_eq!(cpu.pc(), 0x204);
}

#[test]
fn fetch_wraps_round_memory() {
    let mut cpu = Cpu::new();
    run(&mut cpu, &[0x6006, 0xBFFF]);
    assert_eq!(cpu.pc(), 0x1005);
    // the address modulo 4096 is 5: the font holds 0x20, 0x60 there
    assert_eq!(cpu.fetch(), 0x2060);
    run(&mut cpu, &[0x60FA, 0xBFFF]);
    assert_eq!(cpu.pc(), 0x10F9);
    assert_eq!(cpu.fetch(), 0x0000);
}

#[test]
fn pc_wraps_at_sixteen_bits() {
    let mut cpu = Cpu::new();
    run(&mut cpu, &[0x60FF, 0xBFFF]);
    assert_eq!(cpu.pc(), 0x10FE);
    for _ in 0..(0x10000 - 0x10FE) / 2 - 1 {
        run(&mut cpu, &[0x0000]);
    }
    assert_eq!(cpu.pc(), 0xFFFE);
    run(&mut cpu, &[0x0000]);
    assert_eq!(cpu.pc(), 0x0000);
}
