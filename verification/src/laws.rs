//! Laws of the machine: what holds of every state and every input, proved
//! from the model in `state`, `display`, `instruction` and `clock`.

use vstd::prelude::*;
use crate::clock::Timing;
use crate::display::{sprite_at, sprite_covers};
use crate::error::CpuError;
use crate::instruction::{
    decoding, decoding_alu, decoding_misc, field_n, field_nn, field_nnn, field_op, field_x,
    field_y, Instruction,
};
use crate::state::{first_pressed_since, new_press, Outcome, Policy, State};

verus! {

/// The initial state is well formed.
pub proof fn law_initial_well_formed(policy: Policy)
    ensures
        State::initial(policy).well_formed(),
{
}

/// A word is made of its fields.
proof fn lemma_fields(word: u16)
    ensures
        field_op(word) < 16,
        field_x(word) < 16,
        field_y(word) < 16,
        field_n(word) < 16,
        field_nn(word) == field_y(word) * 16 + field_n(word),
        field_nnn(word) == field_x(word) * 256 + field_nn(word),
        word == field_op(word) * 4096 + field_nnn(word),
{
}

/// Every word decodes to a well-formed instruction, and the instruction
/// encodes to the word: decoding loses nothing, and no two words decode to
/// the same instruction.
pub proof fn law_encode_inverts_decode(word: u16)
    ensures
        decoding(word).well_formed(),
        decoding(word).encoding() == word,
{
    lemma_fields(word);
    let op = field_op(word);
    if op == 0x8 {
        assert(decoding(word) == decoding_alu(word));
    } else if op == 0xF {
        assert(decoding(word) == decoding_misc(word));
    } else if op < 0x8 {
    } else {
    }
}

/// The fields of the word made of a family, a register and a byte.
proof fn lemma_compose(op: int, x: int, nn: int)
    requires
        0 <= op < 16,
        0 <= x < 16,
        0 <= nn < 256,
    ensures
        ({
            let word = (op * 4096 + x * 256 + nn) as u16;
            &&& word == op * 4096 + x * 256 + nn
            &&& field_op(word) == op
            &&& field_x(word) == x
            &&& field_y(word) == nn / 16
            &&& field_n(word) == nn % 16
            &&& field_nn(word) == nn
            &&& field_nnn(word) == x * 256 + nn
        }),
{
    let w = op * 4096 + x * 256 + nn;
    assert(w / 4096 == op);
    assert(w % 4096 == x * 256 + nn);
    assert(w / 256 == op * 16 + x);
    assert(w % 256 == nn);
    assert((op * 16 + x) % 16 == x);
    assert(w / 16 == op * 256 + x * 16 + nn / 16);
    assert((op * 256 + x * 16 + nn / 16) % 16 == nn / 16);
    assert(w % 16 == nn % 16);
}

/// The fields of the word made of a family and an address.
proof fn lemma_compose_addr(op: int, addr: int)
    requires
        0 <= op < 16,
        0 <= addr < 4096,
    ensures
        ({
            let word = (op * 4096 + addr) as u16;
            &&& word == op * 4096 + addr
            &&& field_op(word) == op
            &&& field_nnn(word) == addr
        }),
{
    lemma_compose(op, addr / 256, addr % 256);
}

/// The fields of the word made of a family, two registers and a nibble.
proof fn lemma_compose_nibbles(op: int, x: int, y: int, n: int)
    requires
        0 <= op < 16,
        0 <= x < 16,
        0 <= y < 16,
        0 <= n < 16,
    ensures
        ({
            let word = (op * 4096 + x * 256 + y * 16 + n) as u16;
            &&& word == op * 4096 + x * 256 + y * 16 + n
            &&& field_op(word) == op
            &&& field_x(word) == x
            &&& field_y(word) == y
            &&& field_n(word) == n
        }),
{
    lemma_compose(op, x, y * 16 + n);
}

/// A well-formed instruction is what its encoding decodes to.
pub proof fn law_decode_inverts_encode(ins: Instruction)
    requires
        ins.well_formed(),
    ensures
        0 <= ins.encoding() < 0x10000,
        decoding(ins.encoding() as u16) == ins,
{
    let word = ins.encoding();
    match ins {
        Instruction::Sys { addr } => lemma_compose_addr(0x0, addr as int),
        Instruction::ClearScreen => lemma_compose(0x0, 0x0, 0xE0),
        Instruction::Return => lemma_compose(0x0, 0x0, 0xEE),
        Instruction::Jump { addr } => lemma_compose_addr(0x1, addr as int),
        Instruction::Call { addr } => lemma_compose_addr(0x2, addr as int),
        Instruction::SkipEqByte { x, byte } => lemma_compose(0x3, x as int, byte as int),
        Instruction::SkipNeByte { x, byte } => lemma_compose(0x4, x as int, byte as int),
        Instruction::SkipEqReg { x, y } => lemma_compose_nibbles(0x5, x as int, y as int, 0x0),
        Instruction::LoadByte { x, byte } => lemma_compose(0x6, x as int, byte as int),
        Instruction::AddByte { x, byte } => lemma_compose(0x7, x as int, byte as int),
        Instruction::Move { x, y } => lemma_compose_nibbles(0x8, x as int, y as int, 0x0),
        Instruction::Or { x, y } => lemma_compose_nibbles(0x8, x as int, y as int, 0x1),
        Instruction::And { x, y } => lemma_compose_nibbles(0x8, x as int, y as int, 0x2),
        Instruction::Xor { x, y } => lemma_compose_nibbles(0x8, x as int, y as int, 0x3),
        Instruction::Add { x, y } => lemma_compose_nibbles(0x8, x as int, y as int, 0x4),
        Instruction::Sub { x, y } => lemma_compose_nibbles(0x8, x as int, y as int, 0x5),
        Instruction::ShiftRight { x, y } => lemma_compose_nibbles(0x8, x as int, y as int, 0x6),
        Instruction::SubFrom { x, y } => lemma_compose_nibbles(0x8, x as int, y as int, 0x7),
        Instruction::ShiftLeft { x, y } => lemma_compose_nibbles(0x8, x as int, y as int, 0xE),
        Instruction::SkipNeReg { x, y } => lemma_compose_nibbles(0x9, x as int, y as int, 0x0),
        Instruction::LoadIndex { addr } => lemma_compose_addr(0xA, addr as int),
        Instruction::JumpOffset { addr } => lemma_compose_addr(0xB, addr as int),
        Instruction::Random { x, mask } => lemma_compose(0xC, x as int, mask as int),
        Instruction::Draw { x, y, rows } => lemma_compose_nibbles(0xD, x as int, y as int, rows as int),
        Instruction::SkipKey { x } => lemma_compose(0xE, x as int, 0x9E),
        Instruction::SkipNoKey { x } => lemma_compose(0xE, x as int, 0xA1),
        Instruction::ReadDelay { x } => lemma_compose(0xF, x as int, 0x07),
        Instruction::WaitKey { x } => lemma_compose(0xF, x as int, 0x0A),
        Instruction::SetDelay { x } => lemma_compose(0xF, x as int, 0x15),
        Instruction::SetSound { x } => lemma_compose(0xF, x as int, 0x18),
        Instruction::AddIndex { x } => lemma_compose(0xF, x as int, 0x1E),
        Instruction::Glyph { x } => lemma_compose(0xF, x as int, 0x29),
        Instruction::Bcd { x } => lemma_compose(0xF, x as int, 0x33),
        Instruction::Store { x } => lemma_compose(0xF, x as int, 0x55),
        Instruction::Load { x } => lemma_compose(0xF, x as int, 0x65),
        Instruction::Unknown(word) => {},
    }
}

/// Loading a program of a size that fits keeps the state well formed, leaves
/// the program counter at the program start and memory outside the program
/// untouched.
pub proof fn law_load_keeps_rest(s: State, program: Seq<u8>, a: int)
    requires
        s.well_formed(),
        program.len() <= 3584,
        0 <= a < 4096,
    ensures
        s.load(program).well_formed(),
        s.load(program).pc == s.pc,
        0x200 <= a < 0x200 + program.len() ==> s.load(program).memory[a] == program[a - 0x200],
        !(0x200 <= a < 0x200 + program.len()) ==> s.load(program).memory[a] == s.memory[a],
{
}

/// Executing a well-formed instruction keeps the state well formed, whether
/// it raises an error or not.
pub proof fn law_execute_preserves_well_formed(s: State, ins: Instruction, random: u8)
    requires
        s.well_formed(),
        ins.well_formed(),
    ensures
        s.execute(ins, random).state.well_formed(),
{
}

/// A cycle keeps the state well formed.
pub proof fn law_step_preserves_well_formed(s: State, keys: Seq<bool>, random: u8)
    requires
        s.well_formed(),
        keys.len() == 16,
    ensures
        s.step(keys, random).state.well_formed(),
{
    let polled = State { keypad: keys, ..s };
    law_encode_inverts_decode(polled.opcode());
    law_execute_preserves_well_formed(polled, decoding(polled.opcode()), random);
    if s.waiting is Some && new_press(s.keypad, keys) is Some {
        let k = choose|k: int| first_pressed_since(s.keypad, keys, k);
        assert(first_pressed_since(s.keypad, keys, k));
    }
}

/// An instruction that raises an error changes nothing.
pub proof fn law_error_changes_nothing(s: State, ins: Instruction, random: u8)
    ensures
        s.execute(ins, random).result is Err ==> s.execute(ins, random).state == s,
{
}

/// Adding a byte to a register wraps at eight bits, never fails, moves the
/// program counter on by two and leaves every other register, the flag
/// register among them, as it was.
pub proof fn law_add_byte_wraps(s: State, x: u8, byte: u8, random: u8, other: int)
    requires
        s.well_formed(),
        x < 16,
        0 <= other < 16,
        other != x,
    ensures
        ({
            let step = s.execute(Instruction::AddByte { x, byte }, random);
            &&& step.result == Ok::<Outcome, CpuError>(Outcome::Continue)
            &&& step.state.v[x as int] == (s.v[x as int] + byte) % 256
            &&& step.state.v[other] == s.v[other]
            &&& step.state.pc == (s.pc + 2) % 0x10000
        }),
{
}

/// Adding a register to a register wraps at eight bits and puts the carry
/// in the flag register: 1 if the sum is above 255, else 0. Where the
/// target is the flag register itself, the carry is what it holds.
pub proof fn law_add_sets_carry(s: State, x: u8, y: u8, random: u8)
    requires
        s.well_formed(),
        x < 16,
        y < 16,
    ensures
        ({
            let step = s.execute(Instruction::Add { x, y }, random);
            let total = s.v[x as int] + s.v[y as int];
            &&& step.result == Ok::<Outcome, CpuError>(Outcome::Continue)
            &&& x != 15 ==> step.state.v[x as int] == total % 256
            &&& step.state.v[15] == (if total > 255 {
                1int
            } else {
                0int
            })
            &&& step.state.pc == (s.pc + 2) % 0x10000
        }),
{
}

/// Subtracting a register from a register wraps at eight bits and sets the
/// flag register to 1 exactly if no borrow was needed, in either order of
/// the operands.
pub proof fn law_sub_sets_no_borrow(s: State, x: u8, y: u8, random: u8)
    requires
        s.well_formed(),
        x < 15,
        y < 16,
    ensures
        ({
            let sub = s.execute(Instruction::Sub { x, y }, random).state;
            let rev = s.execute(Instruction::SubFrom { x, y }, random).state;
            let a = s.v[x as int];
            let b = s.v[y as int];
            &&& sub.v[x as int] == (a - b) % 256
            &&& sub.v[15] == 1 <==> a >= b
            &&& sub.v[15] == 0 <==> a < b
            &&& rev.v[x as int] == (b - a) % 256
            &&& rev.v[15] == 1 <==> b >= a
            &&& rev.v[15] == 0 <==> b < a
        }),
{
}

/// A conditional skip moves the program counter on by four if its
/// condition holds and by two if not, and changes nothing else.
pub proof fn law_skip_moves_by_two_or_four(s: State, ins: Instruction, random: u8)
    requires
        s.well_formed(),
        ins.well_formed(),
        ins is SkipEqByte || ins is SkipNeByte || ins is SkipEqReg || ins is SkipNeReg
            || ins is SkipKey || ins is SkipNoKey,
    ensures
        ({
            let taken = match ins {
                Instruction::SkipEqByte { x, byte } => s.v[x as int] == byte,
                Instruction::SkipNeByte { x, byte } => s.v[x as int] != byte,
                Instruction::SkipEqReg { x, y } => s.v[x as int] == s.v[y as int],
                Instruction::SkipNeReg { x, y } => s.v[x as int] != s.v[y as int],
                Instruction::SkipKey { x } => s.key_down(s.v[x as int]),
                Instruction::SkipNoKey { x } => !s.key_down(s.v[x as int]),
                _ => false,
            };
            let step = s.execute(ins, random);
            &&& step.result == Ok::<Outcome, CpuError>(Outcome::Continue)
            &&& step.state == (State {
                pc: ((s.pc + (if taken {
                    4int
                } else {
                    2int
                })) % 0x10000) as u16,
                ..s
            })
        }),
{
}

/// An instruction that neither transfers control, nor skips, nor waits for
/// a key moves the program counter on by exactly two.
pub proof fn law_pc_advances_by_two(s: State, ins: Instruction, random: u8)
    requires
        s.fault(ins) is None,
        !(ins is Return || ins is Jump || ins is Call || ins is JumpOffset || ins is WaitKey),
        !(ins is SkipEqByte || ins is SkipNeByte || ins is SkipEqReg || ins is SkipNeReg
            || ins is SkipKey || ins is SkipNoKey),
    ensures
        s.execute(ins, random).state.pc == (s.pc + 2) % 0x10000,
{
}

/// Only drawing and clearing write to the display, and only they ask the
/// host to present it again. Clearing leaves no pixel set.
pub proof fn law_display_written_by_draw_and_clear(s: State, ins: Instruction, random: u8, p: int)
    requires
        0 <= p < 2048,
    ensures
        !(ins is Draw || ins is ClearScreen) ==> s.execute(ins, random).state.display
            == s.display,
        s.execute(ins, random).result == Ok::<Outcome, CpuError>(Outcome::Redraw) <==> (ins is Draw
            || ins is ClearScreen),
        !s.execute(Instruction::ClearScreen, random).state.display[p],
{
}

/// A call succeeds exactly if fewer than sixteen return addresses are on
/// the stack, and then there is one more; with sixteen it raises
/// `StackOverflow`. A return succeeds exactly if the stack is not empty;
/// with an empty stack it raises `StackUnderflow`.
pub proof fn law_stack_bounds(s: State, addr: u16, random: u8)
    requires
        s.well_formed(),
    ensures
        ({
            let call = s.execute(Instruction::Call { addr }, random);
            let ret = s.execute(Instruction::Return, random);
            &&& call.result is Ok <==> s.stack.len() < 16
            &&& call.result is Ok ==> call.state.stack.len() == s.stack.len() + 1
            &&& call.result is Err ==> call.result == Err::<Outcome, CpuError>(
                CpuError::StackOverflow,
            )
            &&& ret.result is Ok <==> s.stack.len() > 0
            &&& ret.result is Ok ==> ret.state.stack.len() == s.stack.len() - 1
            &&& ret.result is Err ==> ret.result == Err::<Outcome, CpuError>(
                CpuError::StackUnderflow,
            )
        }),
{
}

/// A return undoes a call: it resumes at the instruction after the call,
/// with the stack as it was before the call, and adds nothing to the
/// address it popped.
pub proof fn law_return_resumes_after_call(s: State, addr: u16, random: u8)
    requires
        s.well_formed(),
        s.stack.len() < 16,
    ensures
        ({
            let called = s.execute(Instruction::Call { addr }, random).state;
            let back = called.execute(Instruction::Return, random);
            &&& called.pc == addr
            &&& back.result == Ok::<Outcome, CpuError>(Outcome::Continue)
            &&& back.state == s.next()
        }),
{
    let called = s.execute(Instruction::Call { addr }, random).state;
    assert(called.stack.drop_last() =~= s.stack);
}

/// Drawing the same sprite twice at the same place gives back the display
/// as it was. The second drawing reports a collision exactly if the sprite
/// has a set bit on a pixel that was off at first; so it does whenever the
/// first drawing reported none and the sprite has a set bit at all. The
/// registers that give the place must not be the flag register, which the
/// first drawing writes.
pub proof fn law_draw_twice_restores(s: State, x: u8, y: u8, rows: u8)
    requires
        s.well_formed(),
        x < 15,
        y < 15,
        rows < 16,
    ensures
        ({
            let once = s.draw(x, y, rows);
            let twice = once.draw(x, y, rows);
            let sprite = sprite_at(s.memory, s.i, rows);
            let ox = s.v[x as int] as int % 64;
            let oy = s.v[y as int] as int % 32;
            &&& twice.display == s.display
            &&& twice.v[15] == 1 <==> exists|p: int|
                0 <= p < 2048 && !s.display[p] && #[trigger] sprite_covers(sprite, ox, oy, p)
            &&& twice.v[15] == 0 || twice.v[15] == 1
            &&& once.v[15] == 0 && (exists|p: int|
                0 <= p < 2048 && #[trigger] sprite_covers(sprite, ox, oy, p)) ==> twice.v[15] == 1
        }),
{
    let once = s.draw(x, y, rows);
    let twice = once.draw(x, y, rows);
    assert(twice.display =~= s.display);
}

/// A tick lowers each timer by one, and leaves a timer at zero there: no
/// timer goes below zero, and none loses more than one in a tick. A tick
/// changes nothing but the timers.
pub proof fn law_tick_lowers_by_one(s: State)
    ensures
        s.tick().delay_timer == (if s.delay_timer == 0 {
            0int
        } else {
            s.delay_timer - 1
        }),
        s.tick().sound_timer == (if s.sound_timer == 0 {
            0int
        } else {
            s.sound_timer - 1
        }),
        s.tick() == (State {
            delay_timer: s.tick().delay_timer,
            sound_timer: s.tick().sound_timer,
            ..s
        }),
{
}

/// Whether the cycle that starts in this state writes the delay timer: the
/// machine does not wait for a key, and the instruction at the program
/// counter sets the delay timer.
pub open spec fn sets_delay(s: State) -> bool {
    s.waiting is None && decoding(s.opcode()) is SetDelay
}

/// Whether the cycle that starts in this state writes the sound timer.
pub open spec fn sets_sound(s: State) -> bool {
    s.waiting is None && decoding(s.opcode()) is SetSound
}

/// A cycle does not count the timers down: it leaves the delay timer as it
/// was unless it executes the instruction that sets it, and the sound timer
/// likewise.
pub proof fn law_cycle_keeps_timers(s: State, keys: Seq<bool>, random: u8)
    ensures
        !sets_delay(s) ==> s.step(keys, random).state.delay_timer == s.delay_timer,
        !sets_sound(s) ==> s.step(keys, random).state.sound_timer == s.sound_timer,
{
}

/// However many cycles run, the timers stay as they were, so long as no
/// cycle executes an instruction that sets them: only ticks count them
/// down.
pub proof fn law_run_keeps_timers(s: State, keys: Seq<bool>, entropy: Seq<u8>)
    requires
        forall|n: int|
            0 <= n < entropy.len() ==> !sets_delay(#[trigger] s.run(keys, entropy.take(n)).state),
    ensures
        s.run(keys, entropy).state.delay_timer == s.delay_timer,
    decreases entropy.len(),
{
    if entropy.len() > 0 {
        let shorter = entropy.drop_last();
        assert(shorter =~= entropy.take(entropy.len() - 1));
        assert forall|n: int| 0 <= n < shorter.len() implies !sets_delay(
            #[trigger] s.run(keys, shorter.take(n)).state,
        ) by {
            assert(shorter.take(n) =~= entropy.take(n));
        }
        law_run_keeps_timers(s, keys, shorter);
        let sofar = s.run(keys, shorter);
        law_cycle_keeps_timers(sofar.state, keys, entropy.last());
    }
}

/// A machine that waits for a key stays as it is, but for the keypad, in a
/// cycle in which no key went down: the program counter and the wait are
/// unchanged.
pub proof fn law_wait_holds(s: State, keys: Seq<bool>, random: u8)
    requires
        s.waiting is Some,
        forall|k: int| 0 <= k < 16 ==> !(!s.keypad[k] && keys[k]),
    ensures
        s.step(keys, random).state == (State { keypad: keys, ..s }),
        s.step(keys, random).result == Ok::<Outcome, CpuError>(Outcome::AwaitingKey),
{
    assert forall|k: int| !first_pressed_since(s.keypad, keys, k) by {}
}

/// A machine that waits for a key ends the wait in the cycle in which a key
/// went down: the lowest such key goes to the waiting register, and the
/// program counter moves on by two.
pub proof fn law_wait_ends(s: State, keys: Seq<bool>, random: u8, k: int)
    requires
        s.well_formed(),
        s.waiting is Some,
        first_pressed_since(s.keypad, keys, k),
    ensures
        ({
            let step = s.step(keys, random);
            let x = s.waiting->0;
            &&& step.result == Ok::<Outcome, CpuError>(Outcome::Continue)
            &&& step.state.waiting is None
            &&& step.state.v[x as int] == k
            &&& step.state.pc == (s.pc + 2) % 0x10000
            &&& step.state.keypad == keys
        }),
{
    let c = choose|c: int| first_pressed_since(s.keypad, keys, c);
    assert(first_pressed_since(s.keypad, keys, c));
    assert(c == k);
}

/// The instruction that waits for a key starts the wait without moving the
/// program counter.
pub proof fn law_wait_starts(s: State, x: u8, random: u8)
    ensures
        s.execute(Instruction::WaitKey { x }, random).state == (State { waiting: Some(x), ..s }),
        s.execute(Instruction::WaitKey { x }, random).result == Ok::<Outcome, CpuError>(
            Outcome::AwaitingKey,
        ),
{
}

/// A run of cycles with no key down leaves a waiting machine where it is:
/// the program counter and the wait are as they were after any number of
/// cycles, and no cycle fails.
pub proof fn law_wait_holds_through_run(s: State, keys: Seq<bool>, entropy: Seq<u8>)
    requires
        s.waiting is Some,
        entropy.len() > 0,
        forall|k: int| 0 <= k < 16 ==> !keys[k],
    ensures
        s.run(keys, entropy).state == (State { keypad: keys, ..s }),
        s.run(keys, entropy).fault is None,
        s.run(keys, entropy).outcomes.len() == entropy.len(),
    decreases entropy.len(),
{
    let shorter = entropy.drop_last();
    if shorter.len() == 0 {
        law_wait_holds(s, keys, entropy.last());
    } else {
        law_wait_holds_through_run(s, keys, shorter);
        let held = State { keypad: keys, ..s };
        law_wait_holds(held, keys, entropy.last());
    }
}

/// Timer ticks come at 60 Hz whatever the instruction rate is: two clocks
/// that differ only in their rate have the same ticks due.
pub proof fn law_ticks_ignore_rate(a: Timing, b: Timing, elapsed: nat)
    requires
        a.tick_carry == b.tick_carry,
    ensures
        a.ticks_due(elapsed) == b.ticks_due(elapsed),
        a.after(elapsed).tick_carry == b.after(elapsed).tick_carry,
{
}

/// In a stretch of less than a sixtieth of a second at most one tick is due.
pub proof fn law_short_stretch_one_tick(t: Timing, elapsed: nat)
    requires
        t.well_formed(),
        elapsed * 60 < 1_000_000,
    ensures
        t.ticks_due(elapsed) <= 1,
{
}

/// The clock stays well formed, and however the host slices a stretch of
/// time, the same cycles and ticks become due in all.
pub proof fn law_time_adds_up(t: Timing, first: nat, second: nat)
    requires
        t.well_formed(),
    ensures
        t.after(first).well_formed(),
        t.after(first).after(second) == t.after(first + second),
        t.cycles_due(first) + t.after(first).cycles_due(second) == t.cycles_due(first + second),
        t.ticks_due(first) + t.after(first).ticks_due(second) == t.ticks_due(first + second),
{
    assert((first + second) * t.rate == first * t.rate + second * t.rate) by (nonlinear_arith);
    assert((first + second) * 60 == first * 60 + second * 60);
    let x = t.cycle_carry + first * t.rate;
    let y = second * t.rate;
    assert(x / 1_000_000 + (x % 1_000_000 + y) / 1_000_000 == (x + y) / 1_000_000);
    assert((x % 1_000_000 + y) % 1_000_000 == (x + y) % 1_000_000);
}

/// Within less than a sixtieth of a second the delay timer loses at most
/// one, whatever number of cycles runs in that time, so long as no cycle
/// sets it: the cycles leave it alone, and at most one tick is due.
pub proof fn law_timer_independent_of_cycles(
    s: State,
    t: Timing,
    elapsed: nat,
    keys: Seq<bool>,
    entropy: Seq<u8>,
)
    requires
        t.well_formed(),
        elapsed * 60 < 1_000_000,
        forall|n: int|
            0 <= n < entropy.len() ==> !sets_delay(#[trigger] s.run(keys, entropy.take(n)).state),
    ensures
        ({
            let ran = s.run(keys, entropy).state;
            let timer = if t.ticks_due(elapsed) == 1 {
                ran.tick().delay_timer
            } else {
                ran.delay_timer
            };
            &&& t.ticks_due(elapsed) <= 1
            &&& s.delay_timer - 1 <= timer <= s.delay_timer
            &&& timer >= 0
        }),
{
    law_run_keeps_timers(s, keys, entropy);
    law_short_stretch_one_tick(t, elapsed);
}

} // verus!
