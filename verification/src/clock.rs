//! The clock: how many instruction cycles and how many timer ticks are due
//! after a stretch of time.
//!
//! The clock does not read the time. The host measures how long it has been
//! since it last asked, in microseconds, and the clock answers with the
//! whole cycles and the whole ticks that fall into that stretch. What is
//! left of a cycle or a tick is carried over to the next stretch, so no time
//! is lost however the host slices it. Cycles come at the rate the clock was
//! made with; ticks always come at 60 Hz.

use vstd::prelude::*;

verus! {

/// Timer ticks in a second.
pub const TIMER_HZ: u64 = 60;

/// Microseconds in a second.
pub const MICROS_PER_SECOND: u64 = 1_000_000;

/// The mathematical model of a clock.
pub struct Timing {
    /// Instruction cycles in a second.
    pub rate: nat,
    /// What is left over towards the next cycle, in cycles per second times
    /// microseconds: below a million.
    pub cycle_carry: nat,
    /// What is left over towards the next tick, in ticks per second times
    /// microseconds: below a million.
    pub tick_carry: nat,
}

impl Timing {
    /// Whether both carries are below one whole cycle or tick.
    pub open spec fn well_formed(self) -> bool {
        self.cycle_carry < 1_000_000 && self.tick_carry < 1_000_000
    }

    /// A clock of the given rate that carries nothing over.
    pub open spec fn starting(rate: nat) -> Timing {
        Timing { rate, cycle_carry: 0, tick_carry: 0 }
    }

    /// The instruction cycles that are due after `elapsed` microseconds.
    pub open spec fn cycles_due(self, elapsed: nat) -> nat {
        (self.cycle_carry + elapsed * self.rate) / 1_000_000
    }

    /// The timer ticks that are due after `elapsed` microseconds.
    pub open spec fn ticks_due(self, elapsed: nat) -> nat {
        (self.tick_carry + elapsed * 60) / 1_000_000
    }

    /// The clock after `elapsed` microseconds.
    pub open spec fn after(self, elapsed: nat) -> Timing {
        Timing {
            rate: self.rate,
            cycle_carry: (self.cycle_carry + elapsed * self.rate) % 1_000_000,
            tick_carry: (self.tick_carry + elapsed * 60) % 1_000_000,
        }
    }
}

/// What is due after a stretch of time.
#[derive(Clone, Copy, Debug, PartialEq, Eq, Structural)]
pub struct Due {
    /// Instruction cycles to run.
    pub cycles: u64,
    /// Timer ticks to count.
    pub ticks: u64,
}

/// A clock for a machine that runs `rate` instructions in a second.
pub struct Clock {
    rate: u32,
    cycle_carry: u64,
    tick_carry: u64,
}

impl View for Clock {
    type V = Timing;

    closed spec fn view(&self) -> Timing {
        Timing {
            rate: self.rate as nat,
            cycle_carry: self.cycle_carry as nat,
            tick_carry: self.tick_carry as nat,
        }
    }
}

impl Clock {
    #[verifier::type_invariant]
    spec fn inv(&self) -> bool {
        self.cycle_carry < 1_000_000 && self.tick_carry < 1_000_000
    }

    /// Makes a clock that runs `rate` instruction cycles in a second.
    pub fn new(rate: u32) -> (clock: Clock)
        ensures
            clock@ == Timing::starting(rate as nat),
            clock@.well_formed(),
    {
        Clock { rate, cycle_carry: 0, tick_carry: 0 }
    }

    /// The instruction cycles in a second.
    pub fn rate(&self) -> (rate: u32)
        ensures
            rate == self@.rate,
    {
        self.rate
    }

    /// Moves the clock on by `elapsed_micros` microseconds and returns the
    /// cycles and the ticks that have become due.
    pub fn advance(&mut self, elapsed_micros: u32) -> (due: Due)
        ensures
            due.cycles == old(self)@.cycles_due(elapsed_micros as nat),
            due.ticks == old(self)@.ticks_due(elapsed_micros as nat),
            final(self)@ == old(self)@.after(elapsed_micros as nat),
            final(self)@.well_formed(),
    {
        proof {
            use_type_invariant(&*self);
            assert(elapsed_micros * self.rate <= 0xFFFF_FFFF * 0xFFFF_FFFF) by (nonlinear_arith)
                requires
                    elapsed_micros <= 0xFFFF_FFFF,
                    self.rate <= 0xFFFF_FFFF,
            ;
        }
        let cycle_time: u64 = self.cycle_carry + elapsed_micros as u64 * self.rate as u64;
        let tick_time: u64 = self.tick_carry + elapsed_micros as u64 * TIMER_HZ;
        let due = Due {
            cycles: cycle_time / MICROS_PER_SECOND,
            ticks: tick_time / MICROS_PER_SECOND,
        };
        self.cycle_carry = cycle_time % MICROS_PER_SECOND;
        self.tick_carry = tick_time % MICROS_PER_SECOND;
        due
    }
}

} // verus!
