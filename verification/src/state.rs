//! The mathematical model of the machine: what its state is, and what each
//! operation makes of it. The executable machine in `cpu` is specified
//! against these functions.
//!
//! Conventions the model fixes: the program counter and the index register
//! are sixteen bits wide and wrap at sixteen bits; a memory access uses the
//! address modulo 4096; the shifts work on `Vx` alone; a block store or load
//! leaves the index register as it was.

use vstd::prelude::*;
use crate::alu::{
    carry, difference, doubled, halved, high_bit, low_bit, no_borrow, offset, sum,
};
use crate::display::{blank, blit, collides, sprite_at};
use crate::error::CpuError;
use crate::font::{glyph_address, FONT};
use crate::instruction::{decoding, Instruction};

verus! {

/// The address at which programs are loaded and start.
pub const PROGRAM_START: u16 = 0x200;

/// The most bytes a program can have.
pub const PROGRAM_CAPACITY: usize = 3584;

/// The most return addresses the stack holds.
pub const STACK_DEPTH: usize = 16;

/// What the machine does with a word that is no instruction.
#[derive(Clone, Copy, Debug, PartialEq, Eq, Structural)]
pub enum Policy {
    /// It fails with `CpuError::UnknownOpcode`.
    Strict,
    /// It skips the word and reports `Outcome::Ignored`.
    Lenient,
}

/// What a cycle that did not fail asks of the host.
#[derive(Clone, Copy, Debug, PartialEq, Eq, Structural)]
pub enum Outcome {
    /// Nothing.
    Continue,
    /// The display was written to and may be presented again.
    Redraw,
    /// The machine waits for a key press.
    AwaitingKey,
    /// The word, which is no instruction, was skipped.
    Ignored(u16),
}

/// What a timer tick asks of the host's tone generator.
#[derive(Clone, Copy, Debug, PartialEq, Eq, Structural)]
pub enum Tone {
    /// The sound timer was at zero and stays there.
    Silent,
    /// The sound timer is still above zero: the tone plays.
    Play,
    /// The sound timer has just reached zero: the tone stops.
    Stop,
}

/// The whole state of a machine.
#[verifier::ext_equal]
pub struct State {
    /// The 4096 memory cells.
    pub memory: Seq<u8>,
    /// The sixteen registers `V0` to `VF`.
    pub v: Seq<u8>,
    /// The index register.
    pub i: u16,
    /// The program counter.
    pub pc: u16,
    /// The return addresses, the most recent last.
    pub stack: Seq<u16>,
    /// The delay timer.
    pub delay_timer: u8,
    /// The sound timer.
    pub sound_timer: u8,
    /// The 2048 pixels, row after row.
    pub display: Seq<bool>,
    /// Which of the sixteen keys were down when the keys were last polled.
    pub keypad: Seq<bool>,
    /// The register that waits for a key press, if one does.
    pub waiting: Option<u8>,
    /// What is done with a word that is no instruction.
    pub policy: Policy,
}

/// The result of a cycle: the state after it, and what it reports.
pub struct Step {
    pub state: State,
    pub result: Result<Outcome, CpuError>,
}

/// The result of a run of cycles: the state after it, what each completed
/// cycle reported, and the error that ended the run, if one did.
pub struct Trace {
    pub state: State,
    pub outcomes: Seq<Outcome>,
    pub fault: Option<CpuError>,
}

/// How many cells after `base` the cell `a` lies, counted round the memory.
pub open spec fn cells_after(base: int, a: int) -> int {
    (a - base) % 4096
}

/// A timer one tick later.
pub open spec fn ticked(timer: u8) -> u8 {
    if timer > 0 {
        (timer - 1) as u8
    } else {
        0
    }
}

/// Whether key `k` went down between two polls.
pub open spec fn pressed_since(before: Seq<bool>, after: Seq<bool>, k: int) -> bool {
    0 <= k < 16 && !before[k] && after[k]
}

/// Whether `k` is the lowest key that went down between two polls.
pub open spec fn first_pressed_since(before: Seq<bool>, after: Seq<bool>, k: int) -> bool {
    pressed_since(before, after, k) && forall|j: int|
        0 <= j < k ==> !#[trigger] pressed_since(before, after, j)
}

/// The lowest key that went down between two polls, if one did.
pub open spec fn new_press(before: Seq<bool>, after: Seq<bool>) -> Option<u8> {
    if exists|k: int| first_pressed_since(before, after, k) {
        Some((choose|k: int| first_pressed_since(before, after, k)) as u8)
    } else {
        None
    }
}

impl State {
    /// Whether the state has the shape of a machine: 4096 memory cells,
    /// sixteen registers, at most sixteen return addresses, 2048 pixels,
    /// sixteen keys, and a register below sixteen if one waits.
    pub open spec fn well_formed(self) -> bool {
        &&& self.memory.len() == 4096
        &&& self.v.len() == 16
        &&& self.stack.len() <= 16
        &&& self.display.len() == 2048
        &&& self.keypad.len() == 16
        &&& (self.waiting matches Some(x) ==> x < 16)
    }

    /// The state of a newly made machine: the font at the bottom of memory
    /// and zero above it, the program counter and the index register at the
    /// program start, everything else zero, empty or off.
    pub open spec fn initial(policy: Policy) -> State {
        State {
            memory: Seq::new(
                4096,
                |a: int|
                    if a < 80 {
                        FONT[a]
                    } else {
                        0u8
                    },
            ),
            v: Seq::new(16, |k: int| 0u8),
            i: 0x200,
            pc: 0x200,
            stack: Seq::empty(),
            delay_timer: 0,
            sound_timer: 0,
            display: blank(),
            keypad: Seq::new(16, |k: int| false),
            waiting: None,
            policy,
        }
    }

    /// The state after a program was loaded: its bytes stand in memory from
    /// the program start on, and nothing else has changed.
    pub open spec fn load(self, program: Seq<u8>) -> State {
        State {
            memory: Seq::new(
                4096,
                |a: int|
                    if 0x200 <= a < 0x200 + program.len() {
                        program[a - 0x200]
                    } else {
                        self.memory[a]
                    },
            ),
            ..self
        }
    }

    /// The memory cell that an address selects. Addresses wrap at 4096.
    pub open spec fn mem(self, addr: int) -> u8 {
        self.memory[addr % 4096]
    }

    /// The instruction word at the program counter, high byte first.
    pub open spec fn opcode(self) -> u16 {
        (self.mem(self.pc as int) * 256 + self.mem(self.pc + 1)) as u16
    }

    /// Whether key `k` was down at the last poll. There are sixteen keys; a
    /// higher number names none, and none is never down.
    pub open spec fn key_down(self, k: u8) -> bool {
        k < 16 && self.keypad[k as int]
    }

    /// The state with the program counter moved on by `n`.
    pub open spec fn skip(self, n: int) -> State {
        State { pc: ((self.pc + n) % 0x10000) as u16, ..self }
    }

    /// The state with the program counter moved past one instruction.
    pub open spec fn next(self) -> State {
        self.skip(2)
    }

    /// The state with the program counter moved past one instruction, or
    /// past two if the skip is taken.
    pub open spec fn branch(self, taken: bool) -> State {
        self.skip(
            if taken {
                4
            } else {
                2
            },
        )
    }

    /// The state with the program counter at `addr`.
    pub open spec fn jump(self, addr: u16) -> State {
        State { pc: addr, ..self }
    }

    /// The state after a call of the subroutine at `addr`: the address of
    /// the instruction after the call is on the stack, and the program
    /// counter is at `addr`.
    pub open spec fn call(self, addr: u16) -> State {
        State { pc: addr, stack: self.stack.push(self.next().pc), ..self }
    }

    /// The state after a return: the most recent return address is off the
    /// stack and in the program counter, to which nothing is added.
    pub open spec fn ret(self) -> State {
        State { pc: self.stack.last(), stack: self.stack.drop_last(), ..self }
    }

    /// The state with no pixel set.
    pub open spec fn clear(self) -> State {
        State { display: blank(), ..self }
    }

    /// The state with the index register at `addr`.
    pub open spec fn set_index(self, addr: u16) -> State {
        State { i: addr, ..self }
    }

    /// The state with the delay timer at `value`.
    pub open spec fn set_delay(self, value: u8) -> State {
        State { delay_timer: value, ..self }
    }

    /// The state with the sound timer at `value`.
    pub open spec fn set_sound(self, value: u8) -> State {
        State { sound_timer: value, ..self }
    }

    /// The state in which register `x` waits for a key press.
    pub open spec fn wait(self, x: u8) -> State {
        State { waiting: Some(x), ..self }
    }

    /// The state with `value` in register `x`.
    pub open spec fn set(self, x: u8, value: u8) -> State {
        State { v: self.v.update(x as int, value), ..self }
    }

    /// The state with `value` in register `x` and then the flag in `VF`: where
    /// `x` is `VF` itself, the flag is what stays.
    pub open spec fn set_flagged(self, x: u8, value: u8, flag: bool) -> State {
        State {
            v: self.v.update(x as int, value).update(
                15,
                if flag {
                    1u8
                } else {
                    0u8
                },
            ),
            ..self
        }
    }

    /// The state after the `rows`-byte sprite at `I` was drawn at column
    /// `Vx mod 64`, row `Vy mod 32`: the pixels under the sprite's set bits
    /// are flipped, and `VF` says whether a set pixel was turned off.
    pub open spec fn draw(self, x: u8, y: u8, rows: u8) -> State {
        let sprite = sprite_at(self.memory, self.i, rows);
        let ox = self.v[x as int] as int % 64;
        let oy = self.v[y as int] as int % 32;
        State {
            display: blit(self.display, sprite, ox, oy),
            v: self.v.update(
                15,
                if collides(self.display, sprite, ox, oy) {
                    1u8
                } else {
                    0u8
                },
            ),
            ..self
        }
    }

    /// The state after the hundreds, tens and ones of `value` were stored at
    /// `I`, `I + 1` and `I + 2`.
    pub open spec fn store_bcd(self, value: u8) -> State {
        State {
            memory: self.memory.update(self.i as int % 4096, value / 100).update(
                (self.i + 1) % 4096,
                value / 10 % 10,
            ).update((self.i + 2) % 4096, value % 10),
            ..self
        }
    }

    /// The state after `V0` to `Vx` were stored in memory from `I` on.
    pub open spec fn store_registers(self, x: u8) -> State {
        State {
            memory: Seq::new(
                4096,
                |a: int|
                    if cells_after(self.i as int, a) <= x {
                        self.v[cells_after(self.i as int, a)]
                    } else {
                        self.memory[a]
                    },
            ),
            ..self
        }
    }

    /// The state after `V0` to `Vx` were loaded from memory from `I` on.
    pub open spec fn load_registers(self, x: u8) -> State {
        State {
            v: Seq::new(
                16,
                |k: int|
                    if k <= x {
                        self.mem(self.i + k)
                    } else {
                        self.v[k]
                    },
            ),
            ..self
        }
    }

    /// The error that executing the instruction raises, if it raises one: a
    /// return with an empty stack, a call with a full one, or an unknown
    /// word on a strict machine.
    pub open spec fn fault(self, ins: Instruction) -> Option<CpuError> {
        match ins {
            Instruction::Return => if self.stack.len() == 0 {
                Some(CpuError::StackUnderflow)
            } else {
                None
            },
            Instruction::Call { addr } => if self.stack.len() >= 16 {
                Some(CpuError::StackOverflow)
            } else {
                None
            },
            Instruction::Unknown(word) => if self.policy == Policy::Strict {
                Some(CpuError::UnknownOpcode(word))
            } else {
                None
            },
            _ => None,
        }
    }

    /// The state after the instruction was executed, where it raises no
    /// error. `random` is the byte that the host drew for this cycle.
    pub open spec fn apply(self, ins: Instruction, random: u8) -> State {
        let v = self.v;
        match ins {
            Instruction::Sys { addr } => self.next(),
            Instruction::ClearScreen => self.clear().next(),
            Instruction::Return => self.ret(),
            Instruction::Jump { addr } => self.jump(addr),
            Instruction::Call { addr } => self.call(addr),
            Instruction::SkipEqByte { x, byte } => self.branch(v[x as int] == byte),
            Instruction::SkipNeByte { x, byte } => self.branch(v[x as int] != byte),
            Instruction::SkipEqReg { x, y } => self.branch(v[x as int] == v[y as int]),
            Instruction::LoadByte { x, byte } => self.set(x, byte).next(),
            Instruction::AddByte { x, byte } => self.set(x, sum(v[x as int], byte)).next(),
            Instruction::Move { x, y } => self.set(x, v[y as int]).next(),
            Instruction::Or { x, y } => self.set(x, v[x as int] | v[y as int]).next(),
            Instruction::And { x, y } => self.set(x, v[x as int] & v[y as int]).next(),
            Instruction::Xor { x, y } => self.set(x, v[x as int] ^ v[y as int]).next(),
            Instruction::Add { x, y } => self.set_flagged(
                x,
                sum(v[x as int], v[y as int]),
                carry(v[x as int], v[y as int]),
            ).next(),
            Instruction::Sub { x, y } => self.set_flagged(
                x,
                difference(v[x as int], v[y as int]),
                no_borrow(v[x as int], v[y as int]),
            ).next(),
            Instruction::ShiftRight { x, y } => self.set_flagged(
                x,
                halved(v[x as int]),
                low_bit(v[x as int]),
            ).next(),
            Instruction::SubFrom { x, y } => self.set_flagged(
                x,
                difference(v[y as int], v[x as int]),
                no_borrow(v[y as int], v[x as int]),
            ).next(),
            Instruction::ShiftLeft { x, y } => self.set_flagged(
                x,
                doubled(v[x as int]),
                high_bit(v[x as int]),
            ).next(),
            Instruction::SkipNeReg { x, y } => self.branch(v[x as int] != v[y as int]),
            Instruction::LoadIndex { addr } => self.set_index(addr).next(),
            Instruction::JumpOffset { addr } => self.jump(offset(addr, v[0])),
            Instruction::Random { x, mask } => self.set(x, random & mask).next(),
            Instruction::Draw { x, y, rows } => self.draw(x, y, rows).next(),
            Instruction::SkipKey { x } => self.branch(self.key_down(v[x as int])),
            Instruction::SkipNoKey { x } => self.branch(!self.key_down(v[x as int])),
            Instruction::ReadDelay { x } => self.set(x, self.delay_timer).next(),
            Instruction::WaitKey { x } => self.wait(x),
            Instruction::SetDelay { x } => self.set_delay(v[x as int]).next(),
            Instruction::SetSound { x } => self.set_sound(v[x as int]).next(),
            Instruction::AddIndex { x } => self.set_index(offset(self.i, v[x as int])).next(),
            Instruction::Glyph { x } => self.set_index(glyph_address(v[x as int])).next(),
            Instruction::Bcd { x } => self.store_bcd(v[x as int]).next(),
            Instruction::Store { x } => self.store_registers(x).next(),
            Instruction::Load { x } => self.load_registers(x).next(),
            Instruction::Unknown(word) => self.next(),
        }
    }

    /// What executing the instruction asks of the host, where it raises no
    /// error.
    pub open spec fn outcome(ins: Instruction) -> Outcome {
        match ins {
            Instruction::ClearScreen => Outcome::Redraw,
            Instruction::Draw { x, y, rows } => Outcome::Redraw,
            Instruction::WaitKey { x } => Outcome::AwaitingKey,
            Instruction::Unknown(word) => Outcome::Ignored(word),
            _ => Outcome::Continue,
        }
    }

    /// Executing one instruction: either it raises an error and the state
    /// stays as it is, or the state changes as the instruction says.
    pub open spec fn execute(self, ins: Instruction, random: u8) -> Step {
        match self.fault(ins) {
            Some(e) => Step { state: self, result: Err(e) },
            None => Step { state: self.apply(ins, random), result: Ok(Self::outcome(ins)) },
        }
    }

    /// One cycle. The keys that the host polled replace the keypad. Then a
    /// machine that waits for a key looks for one that went down since the
    /// poll before: if there is one, the lowest goes to the waiting
    /// register, the wait ends and the program counter moves on; if there is
    /// none, nothing else changes. A machine that does not wait executes
    /// the instruction at the program counter.
    pub open spec fn step(self, keys: Seq<bool>, random: u8) -> Step {
        let polled = State { keypad: keys, ..self };
        match self.waiting {
            Some(x) => match new_press(self.keypad, keys) {
                Some(k) => Step {
                    state: State { waiting: None, ..polled.set(x, k) }.next(),
                    result: Ok(Outcome::Continue),
                },
                None => Step { state: polled, result: Ok(Outcome::AwaitingKey) },
            },
            None => polled.execute(decoding(polled.opcode()), random),
        }
    }

    /// One tick of the 60 Hz clock: each timer that is above zero goes down
    /// by one.
    pub open spec fn tick(self) -> State {
        State {
            delay_timer: ticked(self.delay_timer),
            sound_timer: ticked(self.sound_timer),
            ..self
        }
    }

    /// What a tick asks of the tone generator.
    pub open spec fn tone(self) -> Tone {
        if self.sound_timer == 0 {
            Tone::Silent
        } else if self.sound_timer == 1 {
            Tone::Stop
        } else {
            Tone::Play
        }
    }

    /// A run of cycles with the keys held as polled, one cycle for each
    /// byte of `entropy`, which is that cycle's random byte. The run ends
    /// early at the first cycle that raises an error.
    pub open spec fn run(self, keys: Seq<bool>, entropy: Seq<u8>) -> Trace
        decreases entropy.len(),
    {
        if entropy.len() == 0 {
            Trace { state: self, outcomes: Seq::empty(), fault: None }
        } else {
            let sofar = self.run(keys, entropy.drop_last());
            if sofar.fault is Some {
                sofar
            } else {
                let step = sofar.state.step(keys, entropy.last());
                match step.result {
                    Ok(outcome) => Trace {
                        state: step.state,
                        outcomes: sofar.outcomes.push(outcome),
                        fault: None,
                    },
                    Err(e) => Trace {
                        state: step.state,
                        outcomes: sofar.outcomes,
                        fault: Some(e),
                    },
                }
            }
        }
    }
}

} // verus!
