//! The executable machine.

use vstd::prelude::*;
use crate::alu::{
    add_with_carry, shift_left, shift_right, sub_with_borrow, wrapping_offset, wrapping_sum,
};
use crate::display::{blank, draw_sprite};
use crate::error::{CpuError, LoadError};
use crate::font::{glyph_addr, FONT};
use crate::instruction::{decode, decoding, Instruction};
use crate::state::{
    cells_after, first_pressed_since, new_press, pressed_since, Outcome, Policy, State, Tone,
};

verus! {

/// A CHIP-8 machine. It owns all of its state; to reset it, make a new one.
pub struct Cpu {
    // index register
    i: u16,
    // program counter
    pc: u16,
    memory: [u8; 4096],
    // data registers
    v: [u8; 16],
    stack: [u16; 16],
    // stack pointer: the number of return addresses held
    sp: usize,
    delay_timer: u8,
    sound_timer: u8,
    pixels: [bool; 2048],
    keypad: [bool; 16],
    // the register that waits for a key press
    waiting: Option<u8>,
    policy: Policy,
}

/// What `Cpu::start` hands back: the machine after the run, what each
/// completed cycle reported, and the error that ended the run, if one did.
pub struct Run {
    pub cpu: Cpu,
    pub outcomes: Vec<Outcome>,
    pub fault: Option<CpuError>,
}

impl View for Cpu {
    type V = State;

    closed spec fn view(&self) -> State {
        State {
            memory: self.memory@,
            v: self.v@,
            i: self.i,
            pc: self.pc,
            stack: self.stack@.subrange(0, self.sp as int),
            delay_timer: self.delay_timer,
            sound_timer: self.sound_timer,
            display: self.pixels@,
            keypad: self.keypad@,
            waiting: self.waiting,
            policy: self.policy,
        }
    }
}

/// Finds the lowest key that is down in `after` and was not in `before`.
fn first_new_press(before: &[bool; 16], after: &[bool; 16]) -> (found: Option<u8>)
    ensures
        found == new_press(before@, after@),
{
    let mut k: u8 = 0;
    while k < 16
        invariant
            k <= 16,
            forall|j: int| 0 <= j < k ==> !#[trigger] pressed_since(before@, after@, j),
        decreases 16 - k,
    {
        if !before[k as usize] && after[k as usize] {
            proof {
                assert(first_pressed_since(before@, after@, k as int));
                let c = choose|c: int| first_pressed_since(before@, after@, c);
                assert(pressed_since(before@, after@, c));
                assert(pressed_since(before@, after@, k as int));
                assert(c == k);
            }
            return Some(k);
        }
        k += 1;
    }
    proof {
        assert forall|c: int| !first_pressed_since(before@, after@, c) by {
            if first_pressed_since(before@, after@, c) {
                assert(pressed_since(before@, after@, c));
            }
        }
    }
    None
}

impl Cpu {
    #[verifier::type_invariant]
    spec fn inv(&self) -> bool {
        &&& self.sp <= 16
        &&& (self.waiting matches Some(x) ==> x < 16)
    }

    /// Makes a strict machine in its initial state.
    pub fn new() -> (cpu: Cpu)
        ensures
            cpu@ == State::initial(Policy::Strict),
            cpu@.well_formed(),
    {
        Cpu::with_policy(Policy::Strict)
    }

    /// Makes a machine in its initial state that treats unknown words as
    /// `policy` says.
    pub fn with_policy(policy: Policy) -> (cpu: Cpu)
        ensures
            cpu@ == State::initial(policy),
            cpu@.well_formed(),
    {
        let mut cpu = Cpu {
            i: 0x200,
            pc: 0x200,
            memory: [0; 4096],
            v: [0; 16],
            stack: [0; 16],
            sp: 0,
            delay_timer: 0,
            sound_timer: 0,
            pixels: [false; 2048],
            keypad: [false; 16],
            waiting: None,
            policy,
        };
        // the font goes to the bottom of memory
        cpu.load_fonts();
        assert(cpu@ =~= State::initial(policy));
        cpu
    }

    /// Copies the font to the bottom of memory.
    fn load_fonts(&mut self)
        ensures
            final(self)@ == (State {
                memory: Seq::new(
                    4096,
                    |a: int|
                        if a < 80 {
                            FONT[a]
                        } else {
                            old(self)@.memory[a]
                        },
                ),
                ..old(self)@
            }),
    {
        proof {
            use_type_invariant(&*self);
        }
        let ghost before = self@;
        let mut k: usize = 0;
        while k < 80
            invariant
                k <= 80,
                self.inv(),
                self@ =~= (State {
                    memory: Seq::new(
                        4096,
                        |a: int|
                            if a < k {
                                FONT[a]
                            } else {
                                before.memory[a]
                            },
                    ),
                    ..before
                }),
            decreases 80 - k,
        {
            self.memory[k] = FONT[k];
            k += 1;
        }
    }

    /// Whether the machine is still in its initial state.
    pub fn is_fresh(&self) -> (fresh: bool)
        ensures
            fresh == (self@ == State::initial(self@.policy)),
    {
        proof {
            use_type_invariant(self);
        }
        let ghost init = State::initial(self.policy);
        if self.i != 0x200 || self.pc != 0x200 || self.sp != 0 || self.delay_timer != 0
            || self.sound_timer != 0 || self.waiting.is_some() {
            assert(self@.stack.len() == self.sp);
            return false;
        }
        let mut a: usize = 0;
        while a < 4096
            invariant
                a <= 4096,
                forall|b: int| 0 <= b < a ==> self.memory@[b] == init.memory[b],
                init == State::initial(self.policy),
            decreases 4096 - a,
        {
            let expected: u8 = if a < 80 {
                FONT[a]
            } else {
                0
            };
            if self.memory[a] != expected {
                assert(self@.memory[a as int] != init.memory[a as int]);
                return false;
            }
            a += 1;
        }
        let mut k: usize = 0;
        while k < 16
            invariant
                k <= 16,
                forall|j: int| 0 <= j < k ==> self.v@[j] == 0 && !self.keypad@[j],
                init == State::initial(self.policy),
            decreases 16 - k,
        {
            if self.v[k] != 0 || self.keypad[k] {
                assert(self@.v[k as int] != init.v[k as int] || self@.keypad[k as int]
                    != init.keypad[k as int]);
                return false;
            }
            k += 1;
        }
        let mut p: usize = 0;
        while p < 2048
            invariant
                p <= 2048,
                forall|q: int| 0 <= q < p ==> !self.pixels@[q],
                init == State::initial(self.policy),
            decreases 2048 - p,
        {
            if self.pixels[p] {
                assert(self@.display[p as int] != init.display[p as int]);
                return false;
            }
            p += 1;
        }
        assert(self@ =~= init);
        true
    }

    /// Loads a program at the program start. An empty program and one of
    /// more than 3584 bytes are refused, and the machine stays as it was.
    /// A program is loaded once, into a machine in its initial state.
    pub fn load_prog(&mut self, data: Vec<u8>) -> (loaded: Result<usize, LoadError>)
        requires
            old(self)@ == State::initial(old(self)@.policy),
        ensures
            loaded == (if data@.len() == 0 {
                Err::<usize, LoadError>(LoadError::Empty)
            } else if data@.len() > 3584 {
                Err(LoadError::TooLarge)
            } else {
                Ok(data@.len() as usize)
            }),
            final(self)@ == (if loaded is Ok {
                old(self)@.load(data@)
            } else {
                old(self)@
            }),
            final(self)@.well_formed(),
    {
        proof {
            use_type_invariant(&*self);
        }
        let ghost before = self@;
        let len = data.len();
        if len == 0 {
            return Err(LoadError::Empty);
        }
        if len > 3584 {
            return Err(LoadError::TooLarge);
        }
        let mut k: usize = 0;
        while k < len
            invariant
                k <= len <= 3584,
                len == data@.len(),
                self.inv(),
                self@ =~= before.load(data@.take(k as int)),
            decreases len - k,
        {
            self.memory[0x200 + k] = data[k];
            k += 1;
        }
        assert(data@.take(len as int) =~= data@);
        Ok(len)
    }

    /// Reads the instruction word at the program counter.
    pub fn fetch(&self) -> (opcode: u16)
        ensures
            opcode == self@.opcode(),
    {
        let hi = self.memory[(self.pc % 4096) as usize];
        let lo = self.memory[((self.pc as usize) + 1) % 4096];
        assert((hi as u16) << 8 | (lo as u16) == hi * 256 + lo) by (bit_vector);
        (hi as u16) << 8 | (lo as u16)
    }

    /// Moves the program counter on by `n`.
    fn advance(&mut self, n: u16)
        ensures
            final(self)@ == old(self)@.skip(n as int),
    {
        proof {
            use_type_invariant(&*self);
        }
        self.pc = self.pc.wrapping_add(n);
    }

    /// Moves the program counter past one instruction, or two if `taken`.
    fn branch(&mut self, taken: bool)
        ensures
            final(self)@ == old(self)@.branch(taken),
    {
        if taken {
            self.advance(4);
        } else {
            self.advance(2);
        }
    }

    /// Reads register `x`.
    fn reg(&self, x: u8) -> (value: u8)
        requires
            x < 16,
        ensures
            value == self@.v[x as int],
    {
        self.v[x as usize]
    }

    /// Writes register `x`.
    fn set_reg(&mut self, x: u8, value: u8)
        requires
            x < 16,
        ensures
            final(self)@ == old(self)@.set(x, value),
    {
        proof {
            use_type_invariant(&*self);
        }
        self.v[x as usize] = value;
    }

    /// Writes register `x`, then the flag register.
    fn set_flagged(&mut self, x: u8, value: u8, flag: bool)
        requires
            x < 16,
        ensures
            final(self)@ == old(self)@.set_flagged(x, value, flag),
    {
        proof {
            use_type_invariant(&*self);
        }
        self.v[x as usize] = value;
        self.v[0xF] = if flag {
            1
        } else {
            0
        };
    }

    /// Whether key `k` was down at the last poll.
    fn key_down(&self, k: u8) -> (down: bool)
        ensures
            down == self@.key_down(k),
    {
        k < 16 && self.keypad[k as usize]
    }

    /// Stores the decimal digits of `value` at `I`, `I + 1` and `I + 2`.
    fn store_bcd(&mut self, value: u8)
        ensures
            final(self)@ == old(self)@.store_bcd(value),
    {
        proof {
            use_type_invariant(&*self);
        }
        let at = self.i as usize;
        self.memory[at % 4096] = value / 100;
        self.memory[(at + 1) % 4096] = value / 10 % 10;
        self.memory[(at + 2) % 4096] = value % 10;
    }

    /// Stores `V0` to `Vx` in memory from `I` on.
    fn store_registers(&mut self, x: u8)
        requires
            x < 16,
        ensures
            final(self)@ == old(self)@.store_registers(x),
    {
        proof {
            use_type_invariant(&*self);
        }
        let ghost before = self@;
        let at = self.i as usize;
        let mut k: usize = 0;
        while k <= x as usize
            invariant
                k <= x + 1 <= 16,
                at == before.i,
                self.inv(),
                self@ =~= (State {
                    memory: Seq::new(
                        4096,
                        |a: int|
                            if cells_after(before.i as int, a) < k {
                                before.v[cells_after(before.i as int, a)]
                            } else {
                                before.memory[a]
                            },
                    ),
                    ..before
                }),
            decreases x + 1 - k,
        {
            proof {
                assert forall|a: int| 0 <= a < 4096 implies (#[trigger] cells_after(
                    before.i as int,
                    a,
                ) == k <==> a == (at + k) % 4096) by {
                    lemma_cell_offset(a, before.i as int, k as int);
                }
            }
            self.memory[(at + k) % 4096] = self.v[k];
            k += 1;
        }
        assert(self@ =~= before.store_registers(x));
    }

    /// Loads `V0` to `Vx` from memory from `I` on.
    fn load_registers(&mut self, x: u8)
        requires
            x < 16,
        ensures
            final(self)@ == old(self)@.load_registers(x),
    {
        proof {
            use_type_invariant(&*self);
        }
        let ghost before = self@;
        let at = self.i as usize;
        let mut k: usize = 0;
        while k <= x as usize
            invariant
                k <= x + 1 <= 16,
                at == before.i,
                self.inv(),
                self@ =~= (State {
                    v: Seq::new(
                        16,
                        |j: int|
                            if j < k {
                                before.mem(before.i + j)
                            } else {
                                before.v[j]
                            },
                    ),
                    ..before
                }),
            decreases x + 1 - k,
        {
            self.v[k] = self.memory[(at + k) % 4096];
            k += 1;
        }
        assert(self@ =~= before.load_registers(x));
    }

    /// Draws the `rows`-byte sprite at `I` at the place that `Vx` and `Vy`
    /// give, and sets the flag register to the collision.
    fn draw(&mut self, x: u8, y: u8, rows: u8)
        requires
            x < 16,
            y < 16,
            rows < 16,
        ensures
            final(self)@ == old(self)@.draw(x, y, rows),
    {
        proof {
            use_type_invariant(&*self);
        }
        let vx = self.v[x as usize];
        let vy = self.v[y as usize];
        let hit = draw_sprite(&mut self.pixels, &self.memory, self.i, rows, vx, vy);
        self.v[0xF] = if hit {
            1
        } else {
            0
        };
    }

    /// Puts the program counter at `addr`.
    fn jump(&mut self, addr: u16)
        ensures
            final(self)@ == old(self)@.jump(addr),
    {
        proof {
            use_type_invariant(&*self);
        }
        self.pc = addr;
    }

    /// Turns every pixel off.
    fn clear(&mut self)
        ensures
            final(self)@ == old(self)@.clear(),
    {
        proof {
            use_type_invariant(&*self);
        }
        self.pixels = [false; 2048];
        assert(self.pixels@ =~= blank());
    }

    /// Puts the index register at `addr`.
    fn set_index(&mut self, addr: u16)
        ensures
            final(self)@ == old(self)@.set_index(addr),
    {
        proof {
            use_type_invariant(&*self);
        }
        self.i = addr;
    }

    /// Sets the delay timer.
    fn set_delay(&mut self, value: u8)
        ensures
            final(self)@ == old(self)@.set_delay(value),
    {
        proof {
            use_type_invariant(&*self);
        }
        self.delay_timer = value;
    }

    /// Sets the sound timer.
    fn set_sound(&mut self, value: u8)
        ensures
            final(self)@ == old(self)@.set_sound(value),
    {
        proof {
            use_type_invariant(&*self);
        }
        self.sound_timer = value;
    }

    /// Makes register `x` wait for a key press.
    fn wait(&mut self, x: u8)
        requires
            x < 16,
        ensures
            final(self)@ == old(self)@.wait(x),
    {
        proof {
            use_type_invariant(&*self);
        }
        self.waiting = Some(x);
    }

    /// Pushes the address after the current instruction and jumps to `addr`.
    fn call(&mut self, addr: u16)
        requires
            old(self)@.stack.len() < 16,
        ensures
            final(self)@ == old(self)@.call(addr),
    {
        proof {
            use_type_invariant(&*self);
        }
        self.stack[self.sp] = self.pc.wrapping_add(2);
        self.sp = self.sp + 1;
        self.pc = addr;
        assert(self@ =~= old(self)@.call(addr));
    }

    /// Pops the most recent return address into the program counter.
    fn ret(&mut self)
        requires
            old(self)@.stack.len() > 0,
        ensures
            final(self)@ == old(self)@.ret(),
    {
        proof {
            use_type_invariant(&*self);
        }
        self.sp = self.sp - 1;
        self.pc = self.stack[self.sp];
        assert(self@ =~= old(self)@.ret());
    }

    /// The error that executing `ins` would raise, if it would raise one.
    fn fault(&self, ins: Instruction) -> (fault: Option<CpuError>)
        ensures
            fault == self@.fault(ins),
    {
        proof {
            use_type_invariant(self);
        }
        match ins {
            Instruction::Return => if self.sp == 0 {
                Some(CpuError::StackUnderflow)
            } else {
                None
            },
            Instruction::Call { addr } => if self.sp >= 16 {
                Some(CpuError::StackOverflow)
            } else {
                None
            },
            Instruction::Unknown(word) => match self.policy {
                Policy::Strict => Some(CpuError::UnknownOpcode(word)),
                Policy::Lenient => None,
            },
            _ => None,
        }
    }

    /// Carries out an instruction that raises no error.
    fn apply(&mut self, ins: Instruction, random: u8) -> (outcome: Outcome)
        requires
            ins.well_formed(),
            old(self)@.fault(ins) is None,
        ensures
            final(self)@ == old(self)@.apply(ins, random),
            outcome == State::outcome(ins),
    {
        match ins {
            Instruction::Sys { addr } => {
                self.advance(2);
                Outcome::Continue
            },
            Instruction::ClearScreen => {
                self.clear();
                self.advance(2);
                Outcome::Redraw
            },
            Instruction::Return => {
                self.ret();
                Outcome::Continue
            },
            Instruction::Jump { addr } => {
                self.jump(addr);
                Outcome::Continue
            },
            Instruction::Call { addr } => {
                self.call(addr);
                Outcome::Continue
            },
            Instruction::SkipEqByte { x, byte } => {
                self.branch(self.reg(x) == byte);
                Outcome::Continue
            },
            Instruction::SkipNeByte { x, byte } => {
                self.branch(self.reg(x) != byte);
                Outcome::Continue
            },
            Instruction::SkipEqReg { x, y } => {
                self.branch(self.reg(x) == self.reg(y));
                Outcome::Continue
            },
            Instruction::LoadByte { x, byte } => {
                self.set_reg(x, byte);
                self.advance(2);
                Outcome::Continue
            },
            Instruction::AddByte { x, byte } => {
                self.set_reg(x, wrapping_sum(self.reg(x), byte));
                self.advance(2);
                Outcome::Continue
            },
            Instruction::Move { x, y } => {
                self.set_reg(x, self.reg(y));
                self.advance(2);
                Outcome::Continue
            },
            Instruction::Or { x, y } => {
                self.set_reg(x, self.reg(x) | self.reg(y));
                self.advance(2);
                Outcome::Continue
            },
            Instruction::And { x, y } => {
                self.set_reg(x, self.reg(x) & self.reg(y));
                self.advance(2);
                Outcome::Continue
            },
            Instruction::Xor { x, y } => {
                self.set_reg(x, self.reg(x) ^ self.reg(y));
                self.advance(2);
                Outcome::Continue
            },
            Instruction::Add { x, y } => {
                let (value, flag) = add_with_carry(self.reg(x), self.reg(y));
                self.set_flagged(x, value, flag);
                self.advance(2);
                Outcome::Continue
            },
            Instruction::Sub { x, y } => {
                let (value, flag) = sub_with_borrow(self.reg(x), self.reg(y));
                self.set_flagged(x, value, flag);
                self.advance(2);
                Outcome::Continue
            },
            Instruction::ShiftRight { x, y } => {
                let (value, flag) = shift_right(self.reg(x));
                self.set_flagged(x, value, flag);
                self.advance(2);
                Outcome::Continue
            },
            Instruction::SubFrom { x, y } => {
                let (value, flag) = sub_with_borrow(self.reg(y), self.reg(x));
                self.set_flagged(x, value, flag);
                self.advance(2);
                Outcome::Continue
            },
            Instruction::ShiftLeft { x, y } => {
                let (value, flag) = shift_left(self.reg(x));
                self.set_flagged(x, value, flag);
                self.advance(2);
                Outcome::Continue
            },
            Instruction::SkipNeReg { x, y } => {
                self.branch(self.reg(x) != self.reg(y));
                Outcome::Continue
            },
            Instruction::LoadIndex { addr } => {
                self.set_index(addr);
                self.advance(2);
                Outcome::Continue
            },
            Instruction::JumpOffset { addr } => {
                self.jump(wrapping_offset(addr, self.reg(0)));
                Outcome::Continue
            },
            Instruction::Random { x, mask } => {
                self.set_reg(x, random & mask);
                self.advance(2);
                Outcome::Continue
            },
            Instruction::Draw { x, y, rows } => {
                self.draw(x, y, rows);
                self.advance(2);
                Outcome::Redraw
            },
            Instruction::SkipKey { x } => {
                self.branch(self.key_down(self.reg(x)));
                Outcome::Continue
            },
            Instruction::SkipNoKey { x } => {
                self.branch(!self.key_down(self.reg(x)));
                Outcome::Continue
            },
            Instruction::ReadDelay { x } => {
                self.set_reg(x, self.delay_timer());
                self.advance(2);
                Outcome::Continue
            },
            Instruction::WaitKey { x } => {
                self.wait(x);
                Outcome::AwaitingKey
            },
            Instruction::SetDelay { x } => {
                self.set_delay(self.reg(x));
                self.advance(2);
                Outcome::Continue
            },
            Instruction::SetSound { x } => {
                self.set_sound(self.reg(x));
                self.advance(2);
                Outcome::Continue
            },
            Instruction::AddIndex { x } => {
                self.set_index(wrapping_offset(self.i, self.reg(x)));
                self.advance(2);
                Outcome::Continue
            },
            Instruction::Glyph { x } => {
                self.set_index(glyph_addr(self.reg(x)));
                self.advance(2);
                Outcome::Continue
            },
            Instruction::Bcd { x } => {
                self.store_bcd(self.reg(x));
                self.advance(2);
                Outcome::Continue
            },
            Instruction::Store { x } => {
                self.store_registers(x);
                self.advance(2);
                Outcome::Continue
            },
            Instruction::Load { x } => {
                self.load_registers(x);
                self.advance(2);
                Outcome::Continue
            },
            Instruction::Unknown(word) => {
                self.advance(2);
                Outcome::Ignored(word)
            },
        }
    }

    /// Executes the instruction that `opcode` stands for. `random` is the
    /// byte that the random-byte instruction uses. On an error the machine
    /// stays as it was.
    pub fn execute(&mut self, opcode: u16, random: u8) -> (result: Result<Outcome, CpuError>)
        ensures
            final(self)@ == old(self)@.execute(decoding(opcode), random).state,
            result == old(self)@.execute(decoding(opcode), random).result,
            final(self)@.well_formed(),
    {
        let ins = decode(opcode);
        let result = match self.fault(ins) {
            Some(e) => Err(e),
            None => Ok(self.apply(ins, random)),
        };
        proof {
            use_type_invariant(&*self);
        }
        result
    }

    /// Runs one cycle: takes the polled keys, then either goes on waiting
    /// for a key press, ends the wait, or executes the instruction at the
    /// program counter. `keys[k]` says whether key `k` is down now; `random`
    /// is this cycle's random byte.
    pub fn step(&mut self, keys: [bool; 16], random: u8) -> (result: Result<Outcome, CpuError>)
        ensures
            final(self)@ == old(self)@.step(keys@, random).state,
            result == old(self)@.step(keys@, random).result,
            final(self)@.well_formed(),
    {
        proof {
            use_type_invariant(&*self);
        }
        let pressed = first_new_press(&self.keypad, &keys);
        self.keypad = keys;
        match self.waiting {
            Some(x) => match pressed {
                Some(k) => {
                    self.v[x as usize] = k;
                    self.waiting = None;
                    self.advance(2);
                    proof {
                        use_type_invariant(&*self);
                    }
                    Ok(Outcome::Continue)
                },
                None => Ok(Outcome::AwaitingKey),
            },
            None => {
                let opcode = self.fetch();
                self.execute(opcode, random)
            },
        }
    }

    /// Counts one tick of the 60 Hz clock: each timer that is above zero
    /// goes down by one. Returns what the tick means for the tone.
    pub fn tick_timers(&mut self) -> (tone: Tone)
        ensures
            final(self)@ == old(self)@.tick(),
            tone == old(self)@.tone(),
            final(self)@.well_formed(),
    {
        proof {
            use_type_invariant(&*self);
        }
        if self.delay_timer > 0 {
            self.delay_timer = self.delay_timer - 1;
        }
        if self.sound_timer == 0 {
            Tone::Silent
        } else {
            self.sound_timer = self.sound_timer - 1;
            if self.sound_timer == 0 {
                Tone::Stop
            } else {
                Tone::Play
            }
        }
    }

    /// Runs the machine: one cycle for each byte of `entropy`, which is
    /// that cycle's random byte, with the keys held as given. The run ends
    /// early at the first cycle that raises an error.
    pub fn start(self, keys: [bool; 16], entropy: Vec<u8>) -> (run: Run)
        ensures
            run.cpu@ == self@.run(keys@, entropy@).state,
            run.outcomes@ == self@.run(keys@, entropy@).outcomes,
            run.fault == self@.run(keys@, entropy@).fault,
            run.cpu@.well_formed(),
    {
        let mut cpu = self;
        proof {
            use_type_invariant(&cpu);
        }
        let mut outcomes: Vec<Outcome> = Vec::new();
        let mut fault: Option<CpuError> = None;
        let mut k: usize = 0;
        assert(entropy@.take(0).len() == 0);
        while k < entropy.len() && fault.is_none()
            invariant
                k <= entropy.len(),
                cpu@.well_formed(),
                cpu@ == self@.run(keys@, entropy@.take(k as int)).state,
                outcomes@ == self@.run(keys@, entropy@.take(k as int)).outcomes,
                fault == self@.run(keys@, entropy@.take(k as int)).fault,
            decreases entropy.len() - k,
        {
            proof {
                let longer = entropy@.take(k + 1);
                assert(longer.drop_last() =~= entropy@.take(k as int));
                assert(longer.last() == entropy@[k as int]);
            }
            match cpu.step(keys, entropy[k]) {
                Ok(outcome) => {
                    outcomes.push(outcome);
                },
                Err(e) => {
                    fault = Some(e);
                },
            }
            k += 1;
        }
        proof {
            lemma_run_stops(self@, keys@, entropy@, k as int);
        }
        Run { cpu, outcomes, fault }
    }

    /// The program counter.
    pub fn pc(&self) -> (pc: u16)
        ensures
            pc == self@.pc,
    {
        self.pc
    }

    /// The index register.
    pub fn index(&self) -> (i: u16)
        ensures
            i == self@.i,
    {
        self.i
    }

    /// The registers `V0` to `VF`.
    pub fn registers(&self) -> (v: &[u8; 16])
        ensures
            v@ == self@.v,
    {
        &self.v
    }

    /// The memory.
    pub fn memory(&self) -> (memory: &[u8; 4096])
        ensures
            memory@ == self@.memory,
    {
        &self.memory
    }

    /// The display: `framebuffer[y * 64 + x]` says whether the pixel in
    /// column `x` of row `y` is set.
    pub fn framebuffer(&self) -> (pixels: &[bool; 2048])
        ensures
            pixels@ == self@.display,
    {
        &self.pixels
    }

    /// The number of return addresses on the stack.
    pub fn stack_depth(&self) -> (depth: usize)
        ensures
            depth == self@.stack.len(),
    {
        proof {
            use_type_invariant(self);
        }
        self.sp
    }

    /// The delay timer.
    pub fn delay_timer(&self) -> (timer: u8)
        ensures
            timer == self@.delay_timer,
    {
        self.delay_timer
    }

    /// The sound timer. The tone plays while it is above zero.
    pub fn sound_timer(&self) -> (timer: u8)
        ensures
            timer == self@.sound_timer,
    {
        self.sound_timer
    }

    /// The register that waits for a key press, if one does.
    pub fn waiting(&self) -> (waiting: Option<u8>)
        ensures
            waiting == self@.waiting,
    {
        self.waiting
    }

    /// What the machine does with a word that is no instruction.
    pub fn policy(&self) -> (policy: Policy)
        ensures
            policy == self@.policy,
    {
        self.policy
    }
}

/// Cell `a` lies `k` cells after `base`, counted round the memory, exactly if
/// `a` is the address `base + k` wrapped.
proof fn lemma_cell_offset(a: int, base: int, k: int)
    requires
        0 <= a < 4096,
        0 <= base,
        0 <= k < 4096,
    ensures
        cells_after(base, a) == k <==> a == (base + k) % 4096,
{
}

/// A run that has met an error is not changed by more entropy.
proof fn lemma_run_stops(s: State, keys: Seq<bool>, entropy: Seq<u8>, k: int)
    requires
        0 <= k <= entropy.len(),
        k == entropy.len() || s.run(keys, entropy.take(k)).fault is Some,
    ensures
        s.run(keys, entropy) == s.run(keys, entropy.take(k)),
    decreases entropy.len(),
{
    if k == entropy.len() {
        assert(entropy.take(k) =~= entropy);
    } else {
        assert(entropy.drop_last().take(k) =~= entropy.take(k));
        lemma_run_stops(s, keys, entropy.drop_last(), k);
    }
}

} // verus!
