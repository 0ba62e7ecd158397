//! Laws of the machine: what holds of every state, and of instructions in
//! sequence. Each is proved from the definitions in [`crate::machine`].

use vstd::prelude::*;
use crate::fault::Fault;
use crate::machine::{
    after, collides, drawn, first_key_from, lit, lowest_key, sprite_rows, Cycle, Machine, Status,
};
use crate::opcode::{decode, lemma_decode_word, Opcode};

verus! {

/// Whether drawing a sprite turns some pixel on.
pub open spec fn lights(screen: Seq<bool>, sprite: Seq<u8>, x0: int, y0: int) -> bool {
    exists|k: int| 0 <= k < 2048 && !#[trigger] screen[k] && lit(sprite, x0, y0, k % 64, k / 64)
}

/// A timer after `n` ticks: down by `n`, but never below zero.
pub open spec fn run_down(timer: u8, n: nat) -> u8 {
    if timer >= n {
        (timer - n) as u8
    } else {
        0u8
    }
}

/// The machine after `n` timer ticks.
pub open spec fn ticks(machine: Machine, n: nat) -> Machine
    decreases n,
{
    if n == 0 {
        machine
    } else {
        ticks(machine.tick(), (n - 1) as nat)
    }
}

/// The machine after one cycle for each byte of `randoms`, the bytes being
/// what the cycles draw in turn, or the first fault on the way.
pub open spec fn run(machine: Machine, randoms: Seq<u8>) -> Result<Machine, Fault>
    decreases randoms.len(),
{
    if randoms.len() == 0 {
        Ok(machine)
    } else {
        match machine.cycle(randoms[0]) {
            Ok((next, _)) => run(next, randoms.skip(1)),
            Err(fault) => Err(fault),
        }
    }
}

/// Whether the instruction at the program counter is a jump to itself.
pub open spec fn jumps_to_self(machine: Machine) -> bool {
    &&& machine.pc <= 4094
    &&& machine.memory[machine.pc as int] == 0x10 + machine.pc / 256
    &&& machine.memory[machine.pc + 1] == machine.pc % 256
}

/// Instructions keep the machine well-formed: no instruction changes a
/// size, and the stack never holds more than sixteen addresses.
pub proof fn lemma_step_keeps_wf(machine: Machine, op: Opcode, random: u8)
    requires
        machine.wf(),
        op.wf(),
    ensures
        machine.step(op, random) matches Ok((next, _)) ==> next.wf(),
        machine.tick().wf(),
{
}

/// An instruction that neither jumps, calls, returns, skips nor waits
/// moves the program counter on by exactly two.
pub proof fn lemma_default_advance(machine: Machine, op: Opcode, random: u8)
    requires
        machine.wf(),
        op.wf(),
        !(op is JP || op is _BNNN || op is _2NNN || op is RET),
        !(op is _3XNN || op is _4XNN || op is _5XY0 || op is _9XY0 || op is _EX9E || op is _EXA1),
    ensures
        machine.step(op, random) matches Ok((next, status)) ==> (status == Status::Running
            ==> next.pc == after(machine.pc)) && (status != Status::Running ==> next == machine),
{
}

/// A skip moves the program counter on by two or by four, and changes
/// nothing else.
pub proof fn lemma_skip_advance(machine: Machine, op: Opcode, random: u8)
    requires
        machine.wf(),
        op.wf(),
        op is _3XNN || op is _4XNN || op is _5XY0 || op is _9XY0 || op is _EX9E || op is _EXA1,
    ensures
        machine.step(op, random) matches Ok((next, status)) && status == Status::Running && (next
            == machine.skip_if(false) || next == machine.skip_if(true)),
{
}

/// A call followed at once by a return comes back to the instruction
/// after the call, with the stack as it was before the call, and nothing
/// else has changed.
pub proof fn lemma_call_then_return(machine: Machine, nnn: u16, random: u8)
    requires
        machine.wf(),
        machine.stack.len() < 16,
    ensures
        machine.step(Opcode::_2NNN(nnn), random) matches Ok((called, _)) && called.pc == nnn
            && called.stack.len() == machine.stack.len() + 1 && called.step(Opcode::RET, random)
            == Ok::<(Machine, Status), Fault>((machine.advance(), Status::Running)),
{
    let called = machine.call(nnn).unwrap();
    assert(called.stack.drop_last() =~= machine.stack);
    assert(called.ret().unwrap() =~= machine.advance());
}

/// Drawing the same sprite twice in the same place gives back the screen
/// as it was, and the second draw reports a collision exactly when the
/// first turned some pixel on.
pub proof fn lemma_draw_twice(screen: Seq<bool>, sprite: Seq<u8>, x0: int, y0: int)
    requires
        screen.len() == 2048,
    ensures
        drawn(drawn(screen, sprite, x0, y0), sprite, x0, y0) == screen,
        collides(drawn(screen, sprite, x0, y0), sprite, x0, y0) == lights(screen, sprite, x0, y0),
{
    let once = drawn(screen, sprite, x0, y0);
    assert(drawn(once, sprite, x0, y0) =~= screen);
    if collides(once, sprite, x0, y0) {
        let k = choose|k: int|
            0 <= k < 2048 && #[trigger] once[k] && lit(sprite, x0, y0, k % 64, k / 64);
        assert(!screen[k]);
    }
    if lights(screen, sprite, x0, y0) {
        let k = choose|k: int|
            0 <= k < 2048 && !#[trigger] screen[k] && lit(sprite, x0, y0, k % 64, k / 64);
        assert(once[k]);
    }
}

/// The same of the instruction: `DRW Vx, Vy, n` run twice, with neither
/// `x` nor `y` the flag register, leaves the screen as it was before the
/// first, and `VF` is 1 after the second exactly when the first turned
/// some pixel on.
pub proof fn lemma_draw_instruction_twice(machine: Machine, x: u8, y: u8, n: u8, random: u8)
    requires
        machine.wf(),
        x < 15,
        y < 15,
        n < 16,
        n == 0 || machine.index + n <= 4096,
    ensures
        machine.step(Opcode::_DXYN(x, y, n), random) matches Ok((once, _)) && once.step(
            Opcode::_DXYN(x, y, n),
            random,
        ) matches Ok((twice, _)) && twice.screen == machine.screen && twice.redraw
            && twice.registers[15] == if lights(
            machine.screen,
            sprite_rows(machine.memory, machine.index as int, n as int),
            (machine.registers[x as int] % 64) as int,
            (machine.registers[y as int] % 32) as int,
        ) {
            1u8
        } else {
            0u8
        },
{
    let sprite = sprite_rows(machine.memory, machine.index as int, n as int);
    let x0 = (machine.registers[x as int] % 64) as int;
    let y0 = (machine.registers[y as int] % 32) as int;
    lemma_draw_twice(machine.screen, sprite, x0, y0);
    let once = machine.draw(x, y, n).unwrap();
    assert(once.screen == drawn(machine.screen, sprite, x0, y0));
    assert(sprite_rows(once.memory, once.index as int, n as int) == sprite);
}

/// The scan for a key from `from` on stops at the first key that is down.
proof fn lemma_first_key_from(keys: Seq<bool>, from: int)
    requires
        keys.len() == 16,
        0 <= from <= 16,
    ensures
        from <= first_key_from(keys, from) <= 16,
        first_key_from(keys, from) < 16 ==> keys[first_key_from(keys, from)],
        forall|j: int| from <= j < first_key_from(keys, from) ==> !keys[j],
    decreases 16 - from,
{
    if from < 16 && !keys[from] {
        lemma_first_key_from(keys, from + 1);
    }
}

/// The key that a key wait takes is down, and no key with a lower number
/// is. It takes none exactly when no key is down.
pub proof fn lemma_lowest_key(keys: Seq<bool>)
    requires
        keys.len() == 16,
    ensures
        match lowest_key(keys) {
            Some(key) => key < 16 && keys[key as int] && forall|j: int| 0 <= j < key ==> !keys[j],
            None => forall|j: int| 0 <= j < 16 ==> !keys[j],
        },
{
    lemma_first_key_from(keys, 0);
}

/// A tick never raises a timer, and a timer at zero stays at zero.
pub proof fn lemma_tick_runs_down(machine: Machine)
    ensures
        machine.tick().delay <= machine.delay,
        machine.tick().sound <= machine.sound,
        machine.delay == 0 ==> machine.tick().delay == 0,
        machine.sound == 0 ==> machine.tick().sound == 0,
        machine.tick().delay == run_down(machine.delay, 1),
        machine.tick().sound == run_down(machine.sound, 1),
{
}

/// After `n` ticks each timer is down by `n`, or at zero if it had less
/// than `n` to go, and nothing else has changed.
pub proof fn lemma_ticks(machine: Machine, n: nat)
    ensures
        ticks(machine, n) == (Machine {
            delay: run_down(machine.delay, n),
            sound: run_down(machine.sound, n),
            ..machine
        }),
    decreases n,
{
    if n > 0 {
        lemma_ticks(machine.tick(), (n - 1) as nat);
    }
}

/// One cycle on a jump to itself: the instruction completes, and nothing
/// changes but the timers, which tick once.
pub proof fn lemma_self_jump_cycle(machine: Machine, random: u8)
    requires
        machine.wf(),
        jumps_to_self(machine),
    ensures
        machine.cycle(random) == Ok::<(Machine, Cycle), Fault>(
            (machine.tick(), Cycle { status: Status::Running, beep: machine.sound == 1 }),
        ),
{
    let pc = machine.pc;
    let word = (machine.memory[pc as int] * 256 + machine.memory[pc + 1]) as u16;
    assert(machine.fetch() == Ok::<u16, Fault>(word));
    assert(word == Opcode::JP(pc).word()) by {
        assert(pc == (pc / 256) * 256 + pc % 256);
    }
    lemma_decode_word(Opcode::JP(pc));
    assert(decode(word) == Ok::<Opcode, Fault>(Opcode::JP(pc)));
    assert(machine.jump(pc, 0) =~= machine);
}

/// Any number of cycles on a jump to itself never faults and changes
/// nothing but the timers, which run down to zero and stay there: after
/// `n` cycles each is down by `n`, or at zero.
pub proof fn lemma_self_jump_run(machine: Machine, randoms: Seq<u8>)
    requires
        machine.wf(),
        jumps_to_self(machine),
    ensures
        run(machine, randoms) == Ok::<Machine, Fault>(ticks(machine, randoms.len())),
        ticks(machine, randoms.len()) == (Machine {
            delay: run_down(machine.delay, randoms.len()),
            sound: run_down(machine.sound, randoms.len()),
            ..machine
        }),
    decreases randoms.len(),
{
    lemma_ticks(machine, randoms.len());
    if randoms.len() > 0 {
        lemma_self_jump_cycle(machine, randoms[0]);
        lemma_self_jump_run(machine.tick(), randoms.skip(1));
    }
}

} // verus!
