use chip8::{Clock, Cpu, Due, Outcome, Tone};

#[test]
fn timers_count_down_to_zero_and_stop() {
    let mut cpu = Cpu::new();
    for word in [0x6002, 0xF015, 0x6003, 0xF018] {
        cpu.execute(word, 0).unwrap();
    }
    assert_eq!(cpu.tick_timers(), Tone::Play);
    assert_eq!((cpu.delay_timer(), cpu.sound_timer()), (1, 2));
    assert_eq!(cpu.tick_timers(), Tone::Play);
    assert_eq!((cpu.delay_timer(), cpu.sound_timer()), (0, 1));
    assert_eq!(cpu.tick_timers(), Tone::Stop);
    assert_eq!((cpu.delay_timer(), cpu.sound_timer()), (0, 0));
    assert_eq!(cpu.tick_timers(), Tone::Silent);
    assert_eq!((cpu.delay_timer(), cpu.sound_timer()), (0, 0));
}

#[test]
fn tick_changes_only_the_timers() {
    let mut cpu = Cpu::new();
    for word in [0x60FF, 0xF015, 0xA123] {
        cpu.execute(word, 0).unwrap();
    }
    let pc = cpu.pc();
    cpu.tick_timers();
    assert_eq!(cpu.delay_timer(), 0xFE);
    assert_eq!(cpu.pc(), pc);
    assert_eq!(cpu.index(), 0x123);
    assert_eq!(cpu.registers()[0], 0xFF);
}

#[test]
fn hundred_cycles_in_one_tick_lower_the_timer_by_at_most_one() {
    let mut cpu = Cpu::new();
    // V0 = 9; delay = V0; then jump to self
    cpu.load_prog(vec![0x60, 0x09, 0xF0, 0x15, 0x12, 0x04]).unwrap();
    let keys = [false; 16];
    cpu.step(keys, 0).unwrap();
    cpu.step(keys, 0).unwrap();
    assert_eq!(cpu.delay_timer(), 9);
    // 100 cycles in 16 ms at 6250 Hz
    let mut clock = Clock::new(6250);
    let due = clock.advance(16_000);
    assert_eq!(due, Due { cycles: 100, ticks: 0 });
    let run = cpu.start(keys, vec![0; due.cycles as usize]);
    assert_eq!(run.fault, None);
    assert_eq!(run.outcomes.len(), 100);
    let mut cpu = run.cpu;
    assert_eq!(cpu.delay_timer(), 9);
    // the rest of the sixtieth of a second brings the one tick
    let due = clock.advance(667);
    assert_eq!(due, Due { cycles: 4, ticks: 1 });
    for _ in 0..due.ticks {
        cpu.tick_timers();
    }
    assert_eq!(cpu.delay_timer(), 8);
}

#[test]
fn clock_counts_whole_cycles_and_ticks() {
    let mut clock = Clock::new(700);
    assert_eq!(clock.rate(), 700);
    assert_eq!(clock.advance(1_000_000), Due { cycles: 700, ticks: 60 });
    assert_eq!(clock.advance(0), Due { cycles: 0, ticks: 0 });
    // 16666 us: 11.6662 cycles, 0.99996 ticks
    assert_eq!(clock.advance(16_666), Due { cycles: 11, ticks: 0 });
    // one more microsecond completes the tick; cycles stay at 11.6669
    assert_eq!(clock.advance(1), Due { cycles: 0, ticks: 1 });
    // 476 us more: 0.6669 + 0.3332 = 1.0001 cycles
    assert_eq!(clock.advance(476), Due { cycles: 1, ticks: 0 });
}

#[test]
fn clock_loses_no_time_to_slicing() {
    let mut whole = Clock::new(540);
    let mut sliced = Clock::new(540);
    let total = whole.advance(3_000_000);
    let mut cycles = 0;
    let mut ticks = 0;
    for _ in 0..3000 {
        let due = sliced.advance(1000);
        cycles += due.cycles;
        ticks += due.ticks;
    }
    assert_eq!(total, Due { cycles: 1620, ticks: 180 });
    assert_eq!((cycles, ticks), (1620, 180));
}

#[test]
fn tick_rate_does_not_depend_on_cycle_rate() {
    let mut slow = Clock::new(1);
    let mut fast = Clock::new(u32::MAX);
    for elapsed in [1, 16_666, 1, 999_999, 123_456, u32::MAX] {
        assert_eq!(slow.advance(elapsed).ticks, fast.advance(elapsed).ticks);
    }
}

#[test]
fn clock_takes_the_longest_stretch_at_the_highest_rate() {
    let mut clock = Clock::new(u32::MAX);
    let due = clock.advance(u32::MAX);
    // (2^32 - 1)^2 / 10^6 and (2^32 - 1) * 60 / 10^6
    assert_eq!(due, Due { cycles: 18_446_744_065_119, ticks: 257_698 });
    let due = clock.advance(u32::MAX);
    assert_eq!(due, Due { cycles: 18_446_744_065_120, ticks: 257_698 });
}

#[test]
fn zero_rate_runs_no_cycles() {
    let mut clock = Clock::new(0);
    assert_eq!(clock.advance(5_000_000), Due { cycles: 0, ticks: 300 });
}

#[test]
fn cycles_do_not_touch_the_timers() {
    let mut cpu = Cpu::new();
    for word in [0x6005, 0xF015, 0xF018] {
        cpu.execute(word, 0).unwrap();
    }
    for word in [0x6101, 0x8014, 0xA000, 0xD015, 0x00E0, 0x2300, 0x00EE, 0xF107] {
        assert!(matches!(cpu.execute(word, 0), Ok(Outcome::Continue | Outcome::Redraw)));
        assert_eq!((cpu.delay_timer(), cpu.sound_timer()), (5, 5));
    }
}
