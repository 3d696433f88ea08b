use chip8::{Cpu, CpuError, Outcome};

#[test]
fn sixteen_calls_succeed_seventeenth_overflows() {
    let mut cpu = Cpu::new();
    for depth in 0..16 {
        assert_eq!(cpu.stack_depth(), depth);
        assert_eq!(cpu.execute(0x2300, 0), Ok(Outcome::Continue));
    }
    assert_eq!(cpu.stack_depth(), 16);
    assert_eq!(cpu.execute(0x2300, 0), Err(CpuError::StackOverflow));
    assert_eq!(cpu.stack_depth(), 16);
    assert_eq!(cpu.pc(), 0x300);
}

#[test]
fn return_on_empty_stack_underflows() {
    let mut cpu = Cpu::new();
    assert_eq!(cpu.execute(0x00EE, 0), Err(CpuError::StackUnderflow));
    assert_eq!(cpu.pc(), 0x200);
    assert_eq!(cpu.stack_depth(), 0);
}

#[test]
fn return_resumes_after_the_call() {
    let mut cpu = Cpu::new();
    assert_eq!(cpu.execute(0x2456, 0), Ok(Outcome::Continue));
    assert_eq!(cpu.pc(), 0x456);
    assert_eq!(cpu.stack_depth(), 1);
    assert_eq!(cpu.execute(0x00EE, 0), Ok(Outcome::Continue));
    assert_eq!(cpu.pc(), 0x202);
    assert_eq!(cpu.stack_depth(), 0);
}

#[test]
fn nested_calls_return_in_reverse_order() {
    let mut cpu = Cpu::new();
    cpu.execute(0x2300, 0).unwrap();
    cpu.execute(0x2400, 0).unwrap();
    cpu.execute(0x2500, 0).unwrap();
    cpu.execute(0x00EE, 0).unwrap();
    assert_eq!(cpu.pc(), 0x402);
    cpu.execute(0x00EE, 0).unwrap();
    assert_eq!(cpu.pc(), 0x302);
    cpu.execute(0x00EE, 0).unwrap();
    assert_eq!(cpu.pc(), 0x202);
    assert_eq!(cpu.execute(0x00EE, 0), Err(CpuError::StackUnderflow));
}

#[test]
fn stack_recovers_after_overflow_is_reported() {
    let mut cpu = Cpu::new();
    for _ in 0..16 {
        cpu.execute(0x2300, 0).unwrap();
    }
    assert_eq!(cpu.execute(0x2300, 0), Err(CpuError::StackOverflow));
    assert_eq!(cpu.execute(0x00EE, 0), Ok(Outcome::Continue));
    assert_eq!(cpu.pc(), 0x302);
    assert_eq!(cpu.execute(0x2300, 0), Ok(Outcome::Continue));
}
