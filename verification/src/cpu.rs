//! The executable machine.

use vstd::prelude::*;
use crate::display::draw_sprite;
use crate::fault::Fault;
use crate::font::FONTSET;
use crate::machine::{
    collides, drawn, first_key_from, low_byte, lowest_key, pixels, sprite_rows, Cycle, Machine,
    Status,
};
use crate::opcode::{lemma_decode_sound, Opcode};

verus! {

/// The state of one machine. Instances share nothing: a host may run as
/// many as it likes side by side.
#[derive(Clone, Debug, PartialEq, Eq)]
pub struct CPU {
    /// 4096 bytes: the font from address 0, programs from `0x200`.
    pub memory: Vec<u8>,
    /// `V0` to `VF`.
    pub registers: Vec<u8>,
    /// The index register `I`.
    pub index_register: u16,
    /// The address of the next instruction.
    pub program_counter: u16,
    /// 64 by 32 pixels, row after row, each 0 or 1.
    pub screen: Vec<u8>,
    /// Counts down to zero, one per tick.
    pub delay_timer: u8,
    /// Counts down to zero, one per tick; a tone sounds while it runs.
    pub sound_timer: u8,
    /// Sixteen slots for return addresses; those below `stack_ptr` are live.
    pub stack: Vec<u16>,
    /// The number of live return addresses.
    pub stack_ptr: u16,
    /// Which of the sixteen keys are down; written by the host.
    pub keypad: Vec<bool>,
    /// Set by every instruction that paints; cleared by the host once it
    /// has redrawn.
    pub draw_flag: bool,
}

impl View for CPU {
    type V = Machine;

    /// The machine that this state stands for. A pixel is on where its
    /// byte is not zero; the stack is its live slots.
    open spec fn view(&self) -> Machine {
        Machine {
            memory: self.memory@,
            registers: self.registers@,
            index: self.index_register,
            pc: self.program_counter,
            screen: pixels(self.screen@),
            delay: self.delay_timer,
            sound: self.sound_timer,
            stack: self.stack@.take(self.stack_ptr as int),
            keys: self.keypad@,
            redraw: self.draw_flag,
        }
    }
}

impl CPU {
    /// The sizes are right, every pixel is 0 or 1, and the stack pointer
    /// is at most 16.
    pub open spec fn wf(&self) -> bool {
        &&& self.memory@.len() == 4096
        &&& self.registers@.len() == 16
        &&& self.screen@.len() == 2048
        &&& forall|k: int| 0 <= k < 2048 ==> #[trigger] self.screen@[k] <= 1
        &&& self.stack@.len() == 16
        &&& self.stack_ptr <= 16
        &&& self.keypad@.len() == 16
    }

    /// Whether the state is well-formed. Every operation keeps it so; a
    /// host that writes the fields itself can ask before it goes on.
    pub fn is_well_formed(&self) -> (ok: bool)
        ensures
            ok == self.wf(),
    {
        if self.memory.len() != 4096 || self.registers.len() != 16 || self.screen.len() != 2048
            || self.stack.len() != 16 || self.stack_ptr > 16 || self.keypad.len() != 16 {
            return false;
        }
        let mut k: usize = 0;
        while k < 2048
            invariant
                k <= 2048,
                self.screen@.len() == 2048,
                forall|j: int| 0 <= j < k ==> #[trigger] self.screen@[j] <= 1,
            decreases 2048 - k,
        {
            if self.screen[k] > 1 {
                return false;
            }
            k += 1;
        }
        true
    }

    /// A machine at reset.
    pub fn new() -> (cpu: CPU)
        ensures
            cpu.wf(),
            cpu@ == Machine::reset(),
    {
        let mut memory: Vec<u8> = vec![0u8; 4096];
        let mut a: usize = 0;
        while a < 80
            invariant
                a <= 80,
                memory@.len() == 4096,
                forall|b: int| 0 <= b < a ==> memory@[b] == FONTSET@[b],
                forall|b: int| a <= b < 4096 ==> memory@[b] == 0,
            decreases 80 - a,
        {
            memory.set(a, FONTSET[a]);
            a += 1;
        }
        let cpu = CPU {
            memory,
            registers: vec![0u8; 16],
            index_register: 0,
            program_counter: 0x200,
            screen: vec![0u8; 2048],
            delay_timer: 0,
            sound_timer: 0,
            stack: vec![0u16; 16],
            stack_ptr: 0,
            keypad: vec![false; 16],
            draw_flag: false,
        };
        assert(cpu@ =~= Machine::reset());
        cpu
    }

    /// Copies a program to memory from address `0x200` on.
    ///
    /// A program that does not fit is refused and memory stays as it was.
    pub fn load_memory(&mut self, memory: Vec<u8>) -> (res: Result<(), Fault>)
        requires
            old(self).wf(),
        ensures
            final(self).wf(),
            match old(self)@.load(memory@, 0x200) {
                Ok(after) => res == Ok::<(), Fault>(()) && final(self)@ == after,
                Err(fault) => res == Err::<(), Fault>(fault) && *final(self) == *old(self),
            },
    {
        self.load_memory_at(&memory, 0x200)
    }

    /// Copies a program to memory from address `offset` on.
    ///
    /// A program that would run past the end of memory is refused and
    /// memory stays as it was.
    pub fn load_memory_at(&mut self, program: &Vec<u8>, offset: usize) -> (res: Result<(), Fault>)
        requires
            old(self).wf(),
        ensures
            final(self).wf(),
            match old(self)@.load(program@, offset as int) {
                Ok(after) => res == Ok::<(), Fault>(()) && final(self)@ == after,
                Err(fault) => res == Err::<(), Fault>(fault) && *final(self) == *old(self),
            },
    {
        if offset > 4096 || program.len() > 4096 - offset {
            return Err(Fault::ProgramTooLarge);
        }
        let mut a: usize = 0;
        while a < program.len()
            invariant
                a <= program.len(),
                offset + program.len() <= 4096,
                self.wf(),
                forall|b: int|
                    0 <= b < 4096 ==> self.memory@[b] == if offset <= b < offset + a {
                        program@[b - offset]
                    } else {
                        old(self).memory@[b]
                    },
                self.registers == old(self).registers,
                self.index_register == old(self).index_register,
                self.program_counter == old(self).program_counter,
                self.screen == old(self).screen,
                self.delay_timer == old(self).delay_timer,
                self.sound_timer == old(self).sound_timer,
                self.stack == old(self).stack,
                self.stack_ptr == old(self).stack_ptr,
                self.keypad == old(self).keypad,
                self.draw_flag == old(self).draw_flag,
            decreases program.len() - a,
        {
            self.memory.set(offset + a, program[a]);
            a += 1;
        }
        assert(self@ =~= old(self)@.load(program@, offset as int).unwrap());
        Ok(())
    }

    /// The instruction word at the program counter, high byte first.
    pub fn fetch(&self) -> (res: Result<u16, Fault>)
        requires
            self.wf(),
        ensures
            res == self@.fetch(),
    {
        if self.program_counter > 4094 {
            return Err(Fault::MemoryOutOfBounds(self.program_counter));
        }
        let high: u8 = self.memory[self.program_counter as usize];
        let low: u8 = self.memory[self.program_counter as usize + 1];
        assert(((high as u16) << 8 | low as u16) == high * 256 + low) by (bit_vector);
        Ok((high as u16) << 8 | low as u16)
    }

    /// One timer tick: each timer that is not zero goes down by one.
    /// Returns whether the sound timer went from one to zero, which is
    /// when the host emits its tone.
    pub fn tick_timers(&mut self) -> (beep: bool)
        requires
            old(self).wf(),
        ensures
            final(self).wf(),
            final(self)@ == old(self)@.tick(),
            beep == (old(self)@.sound == 1),
    {
        if self.delay_timer > 0 {
            self.delay_timer -= 1;
        }
        let beep = self.sound_timer == 1;
        if self.sound_timer > 0 {
            self.sound_timer -= 1;
        }
        assert(self@ =~= old(self)@.tick());
        beep
    }

    /// Whether a tone sounds: the sound timer is running.
    pub fn tone_active(&self) -> (active: bool)
        ensures
            active == self@.tone(),
    {
        self.sound_timer > 0
    }

    /// Records that a key went down or up. Keys are numbered 0 to 15; any
    /// other number is ignored.
    pub fn set_key(&mut self, key: u8, pressed: bool)
        requires
            old(self).wf(),
        ensures
            final(self).wf(),
            final(self)@ == old(self)@.with_key(key, pressed),
    {
        if key < 16 {
            self.keypad.set(key as usize, pressed);
        }
        assert(self@ =~= old(self)@.with_key(key, pressed));
    }

    /// Whether the pixel in column `x` of row `y` is on.
    pub fn pixel(&self, x: usize, y: usize) -> (on: bool)
        requires
            self.wf(),
            x < 64,
            y < 32,
        ensures
            on == self@.screen[y * 64 + x],
    {
        self.screen[y * 64 + x] != 0
    }

    /// Clears the redraw flag, and returns what it was: whether the screen
    /// has been painted on since the host last asked.
    pub fn take_draw_flag(&mut self) -> (was: bool)
        requires
            old(self).wf(),
        ensures
            final(self).wf(),
            was == old(self)@.redraw,
            final(self)@ == old(self)@.redrawn(),
    {
        let was = self.draw_flag;
        self.draw_flag = false;
        assert(self@ =~= old(self)@.redrawn());
        was
    }

    /// What a fallible instruction promises: the state after is
    /// well-formed and stands for the machine it was to reach; or it
    /// reports the fault and the state is untouched.
    spec fn lands(
        before: CPU,
        outcome: Result<Machine, Fault>,
        after: CPU,
        res: Result<Status, Fault>,
    ) -> bool {
        &&& after.wf()
        &&& match outcome {
            Ok(machine) => res == Ok::<Status, Fault>(Status::Running) && after@ == machine,
            Err(fault) => res == Err::<Status, Fault>(fault) && after == before,
        }
    }

    /// Moves the program counter to the next instruction.
    fn advance(&mut self)
        requires
            old(self).wf(),
        ensures
            final(self).wf(),
            final(self)@ == old(self)@.advance(),
    {
        self.program_counter = self.program_counter.wrapping_add(2);
        assert(self@ =~= old(self)@.advance());
    }

    /// Moves the program counter past the next instruction if `condition`
    /// holds, to it otherwise.
    fn skip_if(&mut self, condition: bool)
        requires
            old(self).wf(),
        ensures
            final(self).wf(),
            final(self)@ == old(self)@.skip_if(condition),
    {
        self.program_counter = if condition {
            self.program_counter.wrapping_add(4)
        } else {
            self.program_counter.wrapping_add(2)
        };
        assert(self@ =~= old(self)@.skip_if(condition));
    }

    /// Writes a register and moves on.
    fn assign(&mut self, x: u8, value: u8)
        requires
            old(self).wf(),
            x < 16,
        ensures
            final(self).wf(),
            final(self)@ == old(self)@.assign(x, value),
    {
        self.registers.set(x as usize, value);
        self.program_counter = self.program_counter.wrapping_add(2);
        assert(self@ =~= old(self)@.assign(x, value));
    }

    /// Writes a register, then the flag, and moves on.
    fn assign_flagged(&mut self, x: u8, value: u8, flag: bool)
        requires
            old(self).wf(),
            x < 16,
        ensures
            final(self).wf(),
            final(self)@ == old(self)@.assign_flagged(x, value, flag),
    {
        self.registers.set(x as usize, value);
        self.registers.set(15, if flag { 1 } else { 0 });
        self.program_counter = self.program_counter.wrapping_add(2);
        assert(self@ =~= old(self)@.assign_flagged(x, value, flag));
    }

    /// Writes the index register and moves on.
    fn point(&mut self, index: u16)
        requires
            old(self).wf(),
        ensures
            final(self).wf(),
            final(self)@ == old(self)@.point(index),
    {
        self.index_register = index;
        self.program_counter = self.program_counter.wrapping_add(2);
        assert(self@ =~= old(self)@.point(index));
    }

    /// Sets the delay timer and moves on.
    fn delay_for(&mut self, ticks: u8)
        requires
            old(self).wf(),
        ensures
            final(self).wf(),
            final(self)@ == old(self)@.delay_for(ticks),
    {
        self.delay_timer = ticks;
        self.program_counter = self.program_counter.wrapping_add(2);
        assert(self@ =~= old(self)@.delay_for(ticks));
    }

    /// Sets the sound timer and moves on.
    fn sound_for(&mut self, ticks: u8)
        requires
            old(self).wf(),
        ensures
            final(self).wf(),
            final(self)@ == old(self)@.sound_for(ticks),
    {
        self.sound_timer = ticks;
        self.program_counter = self.program_counter.wrapping_add(2);
        assert(self@ =~= old(self)@.sound_for(ticks));
    }

    /// Blanks the screen and moves on.
    fn clear(&mut self)
        requires
            old(self).wf(),
        ensures
            final(self).wf(),
            final(self)@ == old(self)@.clear(),
    {
        self.screen = vec![0u8; 2048];
        self.draw_flag = true;
        self.program_counter = self.program_counter.wrapping_add(2);
        assert(self@ =~= old(self)@.clear());
    }

    /// Jumps to `nnn + offset`.
    fn jump(&mut self, nnn: u16, offset: u8)
        requires
            old(self).wf(),
            nnn < 0x1000,
        ensures
            final(self).wf(),
            final(self)@ == old(self)@.jump(nnn, offset),
    {
        self.program_counter = nnn + offset as u16;
        assert(self@ =~= old(self)@.jump(nnn, offset));
    }

    /// Returns from a subroutine.
    fn ret(&mut self) -> (res: Result<Status, Fault>)
        requires
            old(self).wf(),
        ensures
            Self::lands(*old(self), old(self)@.ret(), *final(self), res),
    {
        if self.stack_ptr == 0 {
            return Err(Fault::StackUnderflow(self.program_counter));
        }
        self.stack_ptr -= 1;
        self.program_counter = self.stack[self.stack_ptr as usize];
        assert(self@ =~= old(self)@.ret().unwrap());
        Ok(Status::Running)
    }

    /// Calls a subroutine.
    fn call(&mut self, nnn: u16) -> (res: Result<Status, Fault>)
        requires
            old(self).wf(),
        ensures
            Self::lands(*old(self), old(self)@.call(nnn), *final(self), res),
    {
        if self.stack_ptr >= 16 {
            return Err(Fault::StackOverflow(self.program_counter));
        }
        self.stack.set(self.stack_ptr as usize, self.program_counter.wrapping_add(2));
        self.stack_ptr += 1;
        self.program_counter = nnn;
        assert(self@ =~= old(self)@.call(nnn).unwrap());
        Ok(Status::Running)
    }

    /// Draws a sprite.
    fn draw(&mut self, x: u8, y: u8, n: u8) -> (res: Result<Status, Fault>)
        requires
            old(self).wf(),
            x < 16,
            y < 16,
            n < 16,
        ensures
            Self::lands(*old(self), old(self)@.draw(x, y, n), *final(self), res),
    {
        let index: usize = self.index_register as usize;
        if n > 0 && index + n as usize > 4096 {
            return Err(Fault::MemoryOutOfBounds(self.program_counter));
        }
        let x0: usize = (self.registers[x as usize] % 64) as usize;
        let y0: usize = (self.registers[y as usize] % 32) as usize;
        let collision: bool = if n > 0 {
            draw_sprite(&mut self.screen, &self.memory, index, n as usize, x0, y0)
        } else {
            false
        };
        self.registers.set(15, if collision { 1 } else { 0 });
        self.draw_flag = true;
        self.program_counter = self.program_counter.wrapping_add(2);
        proof {
            let sprite = sprite_rows(old(self).memory@, index as int, n as int);
            if n == 0 {
                assert(!collides(old(self)@.screen, sprite, x0 as int, y0 as int));
                assert(pixels(self.screen@) =~= drawn(
                    old(self)@.screen,
                    sprite,
                    x0 as int,
                    y0 as int,
                ));
            }
            assert(self@ =~= old(self)@.draw(x, y, n).unwrap());
        }
        Ok(Status::Running)
    }

    /// Waits for a key.
    fn wait_key(&mut self, x: u8) -> (status: Status)
        requires
            old(self).wf(),
            x < 16,
        ensures
            final(self).wf(),
            (final(self)@, status) == old(self)@.wait_key(x),
            status is AwaitingKey ==> *final(self) == *old(self),
    {
        match lowest_pressed(&self.keypad) {
            Some(key) => {
                self.assign(x, key);
                Status::Running
            },
            None => Status::AwaitingKey(x),
        }
    }

    /// Stores the decimal digits of a register.
    fn store_decimal(&mut self, x: u8) -> (res: Result<Status, Fault>)
        requires
            old(self).wf(),
            x < 16,
        ensures
            Self::lands(*old(self), old(self)@.store_decimal(x), *final(self), res),
    {
        let index: usize = self.index_register as usize;
        if index > 4093 {
            return Err(Fault::MemoryOutOfBounds(self.program_counter));
        }
        let value: u8 = self.registers[x as usize];
        self.memory.set(index, value / 100);
        self.memory.set(index + 1, (value / 10) % 10);
        self.memory.set(index + 2, value % 10);
        self.program_counter = self.program_counter.wrapping_add(2);
        assert(self@ =~= old(self)@.store_decimal(x).unwrap());
        Ok(Status::Running)
    }

    /// Stores registers to memory.
    fn store_registers(&mut self, x: u8) -> (res: Result<Status, Fault>)
        requires
            old(self).wf(),
            x < 16,
        ensures
            Self::lands(*old(self), old(self)@.store_registers(x), *final(self), res),
    {
        let index: usize = self.index_register as usize;
        if index + x as usize > 4095 {
            return Err(Fault::MemoryOutOfBounds(self.program_counter));
        }
        copy_bytes(&mut self.memory, index, &self.registers, 0, x as usize + 1);
        self.program_counter = self.program_counter.wrapping_add(2);
        assert(self@ =~= old(self)@.store_registers(x).unwrap());
        Ok(Status::Running)
    }

    /// Loads registers from memory.
    fn load_registers(&mut self, x: u8) -> (res: Result<Status, Fault>)
        requires
            old(self).wf(),
            x < 16,
        ensures
            Self::lands(*old(self), old(self)@.load_registers(x), *final(self), res),
    {
        let index: usize = self.index_register as usize;
        if index + x as usize > 4095 {
            return Err(Fault::MemoryOutOfBounds(self.program_counter));
        }
        copy_bytes(&mut self.registers, 0, &self.memory, index, x as usize + 1);
        self.program_counter = self.program_counter.wrapping_add(2);
        assert(self@ =~= old(self)@.load_registers(x).unwrap());
        Ok(Status::Running)
    }

    /// Executes one decoded instruction. `random` is the byte that a
    /// `RND` instruction draws; the host supplies it, so a host that
    /// replays the same bytes replays the same run.
    ///
    /// A key wait with no key down changes nothing and reports
    /// `AwaitingKey`. A fault changes nothing either.
    pub fn execute(&mut self, op: Opcode, random: u8) -> (res: Result<Status, Fault>)
        requires
            old(self).wf(),
            op.wf(),
        ensures
            final(self).wf(),
            match old(self)@.step(op, random) {
                Ok((after, status)) => res == Ok::<Status, Fault>(status) && final(self)@ == after,
                Err(fault) => res == Err::<Status, Fault>(fault) && *final(self) == *old(self),
            },
    {
        match op {
            Opcode::SYS(_) => self.advance(),
            Opcode::CLS => self.clear(),
            Opcode::RET => {
                return self.ret();
            },
            Opcode::JP(nnn) => self.jump(nnn, 0),
            Opcode::_2NNN(nnn) => {
                return self.call(nnn);
            },
            Opcode::_3XNN(x, nn) => {
                let vx: u8 = self.registers[x as usize];
                self.skip_if(vx == nn)
            },
            Opcode::_4XNN(x, nn) => {
                let vx: u8 = self.registers[x as usize];
                self.skip_if(vx != nn)
            },
            Opcode::_5XY0(x, y) => {
                let vx: u8 = self.registers[x as usize];
                let vy: u8 = self.registers[y as usize];
                self.skip_if(vx == vy)
            },
            Opcode::_6XNN(x, nn) => self.assign(x, nn),
            Opcode::_7XNN(x, nn) => {
                let vx: u8 = self.registers[x as usize];
                self.assign(x, sum(vx, nn).0)
            },
            Opcode::_8XY0(x, y) => {
                let vy: u8 = self.registers[y as usize];
                self.assign(x, vy)
            },
            Opcode::_8XY1(x, y) => {
                let vx: u8 = self.registers[x as usize];
                let vy: u8 = self.registers[y as usize];
                self.assign(x, vx | vy)
            },
            Opcode::_8XY2(x, y) => {
                let vx: u8 = self.registers[x as usize];
                let vy: u8 = self.registers[y as usize];
                self.assign(x, vx & vy)
            },
            Opcode::_8XY3(x, y) => {
                let vx: u8 = self.registers[x as usize];
                let vy: u8 = self.registers[y as usize];
                self.assign(x, vx ^ vy)
            },
            Opcode::_8XY4(x, y) => {
                let vx: u8 = self.registers[x as usize];
                let vy: u8 = self.registers[y as usize];
                let (value, carry) = sum(vx, vy);
                self.assign_flagged(x, value, carry)
            },
            Opcode::_8XY5(x, y) => {
                let vx: u8 = self.registers[x as usize];
                let vy: u8 = self.registers[y as usize];
                let (value, whole) = difference(vx, vy);
                self.assign_flagged(x, value, whole)
            },
            Opcode::_8XY6(x, y) => {
                let source: u8 = self.registers[y as usize];
                let (value, out) = shift_right(source);
                self.assign_flagged(x, value, out)
            },
            Opcode::_8XY7(x, y) => {
                let vx: u8 = self.registers[x as usize];
                let vy: u8 = self.registers[y as usize];
                let (value, whole) = difference(vy, vx);
                self.assign_flagged(x, value, whole)
            },
            Opcode::_8XYE(x, y) => {
                let source: u8 = self.registers[y as usize];
                let (value, out) = shift_left(source);
                self.assign_flagged(x, value, out)
            },
            Opcode::_9XY0(x, y) => {
                let vx: u8 = self.registers[x as usize];
                let vy: u8 = self.registers[y as usize];
                self.skip_if(vx != vy)
            },
            Opcode::LD_I(nnn) => self.point(nnn),
            Opcode::_BNNN(nnn) => {
                let v0: u8 = self.registers[0];
                self.jump(nnn, v0)
            },
            Opcode::_CXNN(x, nn) => self.assign(x, random & nn),
            Opcode::_DXYN(x, y, n) => {
                return self.draw(x, y, n);
            },
            Opcode::_EX9E(x) => {
                let key: u8 = self.registers[x as usize] % 16;
                let down: bool = self.keypad[key as usize];
                self.skip_if(down)
            },
            Opcode::_EXA1(x) => {
                let key: u8 = self.registers[x as usize] % 16;
                let down: bool = self.keypad[key as usize];
                self.skip_if(!down)
            },
            Opcode::_FX07(x) => {
                let delay: u8 = self.delay_timer;
                self.assign(x, delay)
            },
            Opcode::_FX0A(x) => {
                return Ok(self.wait_key(x));
            },
            Opcode::_FX15(x) => {
                let vx: u8 = self.registers[x as usize];
                self.delay_for(vx)
            },
            Opcode::_FX18(x) => {
                let vx: u8 = self.registers[x as usize];
                self.sound_for(vx)
            },
            Opcode::_FX1E(x) => {
                let vx: u8 = self.registers[x as usize];
                let index: u16 = offset_index(self.index_register, vx);
                self.point(index)
            },
            Opcode::_FX29(x) => {
                let vx: u8 = self.registers[x as usize];
                self.point(glyph_address(vx))
            },
            Opcode::_FX33(x) => {
                return self.store_decimal(x);
            },
            Opcode::_FX55(x) => {
                return self.store_registers(x);
            },
            Opcode::_FX65(x) => {
                return self.load_registers(x);
            },
        }
        Ok(Status::Running)
    }

    /// Runs one cycle: fetches the instruction at the program counter,
    /// decodes it, executes it, then ticks both timers once. `random` is
    /// the byte that a `RND` instruction draws.
    ///
    /// A fault in any stage stops the cycle before anything has changed:
    /// no instruction runs and no timer ticks.
    pub fn emulate_cycle(&mut self, random: u8) -> (res: Result<Cycle, Fault>)
        requires
            old(self).wf(),
        ensures
            final(self).wf(),
            match old(self)@.cycle(random) {
                Ok((after, cycle)) => res == Ok::<Cycle, Fault>(cycle) && final(self)@ == after,
                Err(fault) => res == Err::<Cycle, Fault>(fault) && *final(self) == *old(self),
            },
    {
        let word: u16 = match self.fetch() {
            Ok(word) => word,
            Err(fault) => {
                return Err(fault);
            },
        };
        let op: Opcode = match Opcode::from(word) {
            Ok(op) => op,
            Err(fault) => {
                return Err(fault);
            },
        };
        proof {
            lemma_decode_sound(word);
        }
        let status: Status = match self.execute(op, random) {
            Ok(status) => status,
            Err(fault) => {
                return Err(fault);
            },
        };
        let beep: bool = self.tick_timers();
        Ok(Cycle { status, beep })
    }
}

/// A sum in eight bits, and whether it carried.
fn sum(a: u8, b: u8) -> (r: (u8, bool))
    ensures
        r.0 == low_byte(a + b),
        r.1 == (a + b > 255),
{
    (a.wrapping_add(b), a > 255 - b)
}

/// A difference in eight bits, and whether it needed no borrow.
fn difference(a: u8, b: u8) -> (r: (u8, bool))
    ensures
        r.0 == low_byte(a - b),
        r.1 == (a >= b),
{
    (a.wrapping_sub(b), a >= b)
}

/// A byte shifted right by one, and whether a one was shifted out.
fn shift_right(a: u8) -> (r: (u8, bool))
    ensures
        r.0 == a / 2,
        r.1 == (a % 2 == 1),
{
    assert(a >> 1 == a / 2) by (bit_vector);
    assert((a & 1 == 1) == (a % 2 == 1)) by (bit_vector);
    (a >> 1, a & 1 == 1)
}

/// A byte shifted left by one, and whether a one was shifted out.
fn shift_left(a: u8) -> (r: (u8, bool))
    ensures
        r.0 == low_byte(a * 2),
        r.1 == (a >= 128),
{
    assert(a << 1 == (a * 2) % 256) by (bit_vector);
    assert((a & 0x80 == 0x80) == (a >= 128)) by (bit_vector);
    (a << 1, a & 0x80 == 0x80)
}

/// The index register moved on by a register's value, in sixteen bits.
fn offset_index(index: u16, by: u8) -> (r: u16)
    ensures
        r == ((index + by) % 0x1_0000) as u16,
{
    index.wrapping_add(by as u16)
}

/// Where the glyph of a register's low hex digit starts.
fn glyph_address(value: u8) -> (r: u16)
    ensures
        r == ((value % 16) * 5) as u16,
{
    (value % 16) as u16 * 5
}

/// The lowest-numbered key that is down, if any is.
fn lowest_pressed(keypad: &Vec<bool>) -> (key: Option<u8>)
    requires
        keypad@.len() == 16,
    ensures
        key == lowest_key(keypad@),
{
    let mut k: u8 = 0;
    while k < 16
        invariant
            k <= 16,
            keypad@.len() == 16,
            first_key_from(keypad@, 0) == first_key_from(keypad@, k as int),
        decreases 16 - k,
    {
        if keypad[k as usize] {
            return Some(k);
        }
        k += 1;
    }
    None
}

/// Copies `count` bytes from `source[from..]` to `target[to..]`.
fn copy_bytes(target: &mut Vec<u8>, to: usize, source: &Vec<u8>, from: usize, count: usize)
    requires
        to + count <= old(target)@.len(),
        from + count <= source@.len(),
    ensures
        final(target)@.len() == old(target)@.len(),
        forall|a: int|
            0 <= a < old(target)@.len() ==> #[trigger] final(target)@[a] == if to <= a < to
                + count {
                source@[a - to + from]
            } else {
                old(target)@[a]
            },
{
    let room: usize = target.len();
    let supply: usize = source.len();
    let mut done: usize = 0;
    while done < count
        invariant
            done <= count,
            to + count <= room == target@.len(),
            from + count <= supply == source@.len(),
            target@.len() == old(target)@.len(),
            forall|a: int|
                0 <= a < target@.len() ==> #[trigger] target@[a] == if to <= a < to + done {
                    source@[a - to + from]
                } else {
                    old(target)@[a]
                },
        decreases count - done,
    {
        target.set(to + done, source[from + done]);
        done += 1;
    }
}

} // verus!
