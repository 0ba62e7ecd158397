//! The mathematical machine: what the state is and what each instruction,
//! each timer tick and each cycle does to it.
//!
//! Everything here is ghost code. The executable [`crate::cpu::CPU`] is
//! viewed as a [`Machine`] and every one of its operations is held to the
//! functions of this module.

use vstd::prelude::*;
use crate::fault::Fault;
use crate::font::font;
use crate::opcode::{decode, Opcode};

verus! {

/// What a cycle reports about the instruction it ran.
#[derive(Clone, Copy, Debug, PartialEq, Eq, Structural)]
pub enum Status {
    /// The instruction completed.
    Running,
    /// The instruction is a key wait for the given register and no key is
    /// down: the program counter has not moved, and the same instruction
    /// runs again on the next cycle.
    AwaitingKey(u8),
}

/// What one cycle reports to the host.
#[derive(Clone, Copy, Debug, PartialEq, Eq, Structural)]
pub struct Cycle {
    /// Whether the instruction completed or still waits for a key.
    pub status: Status,
    /// Whether this cycle's tick took the sound timer from one to zero:
    /// the one moment at which a tone is to be emitted.
    pub beep: bool,
}

/// The state of the machine as mathematics.
#[verifier::ext_equal]
pub struct Machine {
    /// 4096 bytes.
    pub memory: Seq<u8>,
    /// `V0` to `VF`; `VF` is also the flag.
    pub registers: Seq<u8>,
    /// The index register `I`.
    pub index: u16,
    /// The program counter.
    pub pc: u16,
    /// 64 by 32 pixels, row after row.
    pub screen: Seq<bool>,
    /// The delay timer.
    pub delay: u8,
    /// The sound timer.
    pub sound: u8,
    /// The return addresses, oldest first, at most sixteen.
    pub stack: Seq<u16>,
    /// Which of the sixteen keys are down.
    pub keys: Seq<bool>,
    /// Set by every instruction that paints; cleared by the host.
    pub redraw: bool,
}

/// The screen that a buffer of pixel bytes stands for: a pixel is on where
/// its byte is not zero.
pub open spec fn pixels(bytes: Seq<u8>) -> Seq<bool> {
    Seq::new(bytes.len(), |k: int| bytes[k] != 0)
}

/// The low half of a sum or difference: its value modulo 256.
pub open spec fn low_byte(value: int) -> u8 {
    (value % 256) as u8
}

/// The address two bytes on, in sixteen bits.
pub open spec fn after(pc: u16) -> u16 {
    ((pc + 2) % 0x1_0000) as u16
}

/// The address four bytes on, in sixteen bits.
pub open spec fn after_skip(pc: u16) -> u16 {
    ((pc + 4) % 0x1_0000) as u16
}

/// Whether a sprite row has its pixel in column `col` set; column 0 is the
/// most significant bit.
pub open spec fn sprite_bit(row: u8, col: u8) -> bool {
    row & (0x80u8 >> col) != 0
}

/// The `rows` bytes that memory holds from `index` on: the rows of a
/// sprite, top row first.
pub open spec fn sprite_rows(memory: Seq<u8>, index: int, rows: int) -> Seq<u8> {
    Seq::new(rows as nat, |r: int| memory[index + r])
}

/// Whether a sprite placed with its top left corner at `(x0, y0)` covers
/// the pixel `(px, py)` with a set bit. Sprites are eight pixels wide and
/// wrap around both edges of the screen.
pub open spec fn lit(sprite: Seq<u8>, x0: int, y0: int, px: int, py: int) -> bool {
    let col = (px - x0) % 64;
    let row = (py - y0) % 32;
    col < 8 && row < sprite.len() && sprite_bit(sprite[row], col as u8)
}

/// The screen after a sprite is drawn onto it: every pixel the sprite
/// covers with a set bit is flipped, every other pixel stays.
pub open spec fn drawn(screen: Seq<bool>, sprite: Seq<u8>, x0: int, y0: int) -> Seq<bool> {
    Seq::new(2048, |k: int| screen[k] != lit(sprite, x0, y0, k % 64, k / 64))
}

/// Whether drawing a sprite turns some pixel off.
pub open spec fn collides(screen: Seq<bool>, sprite: Seq<u8>, x0: int, y0: int) -> bool {
    exists|k: int| 0 <= k < 2048 && #[trigger] screen[k] && lit(sprite, x0, y0, k % 64, k / 64)
}

/// The number of the first key at or after `from` that is down, or 16.
pub open spec fn first_key_from(keys: Seq<bool>, from: int) -> int
    decreases 16 - from,
{
    if from >= 16 {
        16
    } else if keys[from] {
        from
    } else {
        first_key_from(keys, from + 1)
    }
}

/// The lowest-numbered key that is down, if any is.
pub open spec fn lowest_key(keys: Seq<bool>) -> Option<u8> {
    let k = first_key_from(keys, 0);
    if k < 16 {
        Some(k as u8)
    } else {
        None
    }
}

/// An instruction that cannot fail: it completed.
pub open spec fn running(machine: Machine) -> Result<(Machine, Status), Fault> {
    Ok((machine, Status::Running))
}

/// An instruction that can fail: it completed, or raised its fault.
pub open spec fn completed(outcome: Result<Machine, Fault>) -> Result<(Machine, Status), Fault> {
    match outcome {
        Ok(machine) => Ok((machine, Status::Running)),
        Err(fault) => Err(fault),
    }
}

impl Machine {
    /// The sizes are right: 4096 bytes, 16 registers, 2048 pixels, at most
    /// 16 return addresses, 16 keys.
    pub open spec fn wf(self) -> bool {
        &&& self.memory.len() == 4096
        &&& self.registers.len() == 16
        &&& self.screen.len() == 2048
        &&& self.stack.len() <= 16
        &&& self.keys.len() == 16
    }

    /// The machine at reset: the font at the bottom of memory, everything
    /// else zero, blank or released, the program counter at `0x200`.
    pub open spec fn reset() -> Machine {
        Machine {
            memory: Seq::new(
                4096,
                |a: int|
                    if a < 80 {
                        font()[a]
                    } else {
                        0u8
                    },
            ),
            registers: Seq::new(16, |r: int| 0u8),
            index: 0,
            pc: 0x200,
            screen: Seq::new(2048, |k: int| false),
            delay: 0,
            sound: 0,
            stack: Seq::empty(),
            keys: Seq::new(16, |k: int| false),
            redraw: false,
        }
    }

    /// The machine with `program` copied to memory from `offset` on, or
    /// `ProgramTooLarge` where it would run past the end of memory.
    pub open spec fn load(self, program: Seq<u8>, offset: int) -> Result<Machine, Fault> {
        if offset + program.len() > 4096 {
            Err(Fault::ProgramTooLarge)
        } else {
            Ok(
                Machine {
                    memory: Seq::new(
                        4096,
                        |a: int|
                            if offset <= a < offset + program.len() {
                                program[a - offset]
                            } else {
                                self.memory[a]
                            },
                    ),
                    ..self
                },
            )
        }
    }

    /// The machine with key `key` down or up; a key that does not exist
    /// changes nothing.
    pub open spec fn with_key(self, key: u8, pressed: bool) -> Machine {
        if key < 16 {
            Machine { keys: self.keys.update(key as int, pressed), ..self }
        } else {
            self
        }
    }

    /// The machine with the redraw flag cleared.
    pub open spec fn redrawn(self) -> Machine {
        Machine { redraw: false, ..self }
    }

    /// The instruction word at the program counter, high byte first, or
    /// `MemoryOutOfBounds` where one of its two bytes lies beyond memory.
    pub open spec fn fetch(self) -> Result<u16, Fault> {
        if self.pc + 1 > 4095 {
            Err(Fault::MemoryOutOfBounds(self.pc))
        } else {
            Ok((self.memory[self.pc as int] * 256 + self.memory[self.pc + 1]) as u16)
        }
    }

    /// The machine with the program counter on the next instruction.
    pub open spec fn advance(self) -> Machine {
        Machine { pc: after(self.pc), ..self }
    }

    /// The machine with the program counter past the next instruction if
    /// `condition` holds, on it otherwise.
    pub open spec fn skip_if(self, condition: bool) -> Machine {
        Machine {
            pc: if condition {
                after_skip(self.pc)
            } else {
                after(self.pc)
            },
            ..self
        }
    }

    /// The machine with `value` in register `x`, on the next instruction.
    pub open spec fn assign(self, x: u8, value: u8) -> Machine {
        Machine { registers: self.registers.update(x as int, value), ..self }.advance()
    }

    /// The machine with `value` in register `x` and then the flag in `VF`,
    /// on the next instruction. The flag is written last, so where `x` is
    /// `VF` the flag is what remains.
    pub open spec fn assign_flagged(self, x: u8, value: u8, flag: bool) -> Machine {
        Machine {
            registers: self.registers.update(x as int, value).update(
                15,
                if flag {
                    1u8
                } else {
                    0u8
                },
            ),
            ..self
        }.advance()
    }

    /// `CLS`: a blank screen, flagged for redraw.
    pub open spec fn clear(self) -> Machine {
        Machine { screen: Seq::new(2048, |k: int| false), redraw: true, ..self }.advance()
    }

    /// `RET`: the program counter is the newest return address, which
    /// leaves the stack. With nothing stacked it is a fault.
    pub open spec fn ret(self) -> Result<Machine, Fault> {
        if self.stack.len() == 0 {
            Err(Fault::StackUnderflow(self.pc))
        } else {
            Ok(Machine { pc: self.stack.last(), stack: self.stack.drop_last(), ..self })
        }
    }

    /// `CALL nnn`: the address of the instruction after the call is
    /// stacked, and the program counter is `nnn`. With sixteen addresses
    /// stacked it is a fault.
    pub open spec fn call(self, nnn: u16) -> Result<Machine, Fault> {
        if self.stack.len() >= 16 {
            Err(Fault::StackOverflow(self.pc))
        } else {
            Ok(Machine { pc: nnn, stack: self.stack.push(after(self.pc)), ..self })
        }
    }

    /// `JP nnn`, and `JP V0, nnn` with `offset` the value of `V0`.
    pub open spec fn jump(self, nnn: u16, offset: u8) -> Machine {
        Machine { pc: ((nnn + offset) % 0x1_0000) as u16, ..self }
    }

    /// The machine with `index` in `I`, on the next instruction.
    pub open spec fn point(self, index: u16) -> Machine {
        Machine { index, ..self }.advance()
    }

    /// The machine with the delay timer set, on the next instruction.
    pub open spec fn delay_for(self, ticks: u8) -> Machine {
        Machine { delay: ticks, ..self }.advance()
    }

    /// The machine with the sound timer set, on the next instruction.
    pub open spec fn sound_for(self, ticks: u8) -> Machine {
        Machine { sound: ticks, ..self }.advance()
    }

    /// `DRW Vx, Vy, n`: the `n` bytes from `I` on are drawn as a sprite
    /// at column `Vx mod 64`, row `Vy mod 32`. `VF` is 1 if a pixel went
    /// off and 0 if none did, and the screen is flagged for redraw. A
    /// sprite that memory does not hold in full is a fault.
    pub open spec fn draw(self, x: u8, y: u8, n: u8) -> Result<Machine, Fault> {
        if n > 0 && self.index + n > 4096 {
            Err(Fault::MemoryOutOfBounds(self.pc))
        } else {
            let sprite = sprite_rows(self.memory, self.index as int, n as int);
            let x0 = self.registers[x as int] % 64;
            let y0 = self.registers[y as int] % 32;
            Ok(
                Machine {
                    screen: drawn(self.screen, sprite, x0 as int, y0 as int),
                    registers: self.registers.update(
                        15,
                        if collides(self.screen, sprite, x0 as int, y0 as int) {
                            1u8
                        } else {
                            0u8
                        },
                    ),
                    redraw: true,
                    ..self
                }.advance(),
            )
        }
    }

    /// `LD Vx, K`: with a key down, its number goes to `Vx` (the lowest
    /// number if several are down) and the machine moves on. With none
    /// down nothing changes and the machine reports that it waits.
    pub open spec fn wait_key(self, x: u8) -> (Machine, Status) {
        match lowest_key(self.keys) {
            Some(key) => (self.assign(x, key), Status::Running),
            None => (self, Status::AwaitingKey(x)),
        }
    }

    /// `LD B, Vx`: the hundreds, tens and ones of `Vx` go to the three
    /// bytes from `I` on. `I` stays. Bytes beyond memory are a fault.
    pub open spec fn store_decimal(self, x: u8) -> Result<Machine, Fault> {
        if self.index + 2 > 4095 {
            Err(Fault::MemoryOutOfBounds(self.pc))
        } else {
            let value = self.registers[x as int];
            Ok(
                Machine {
                    memory: self.memory.update(self.index as int, value / 100).update(
                        self.index + 1,
                        (value / 10) % 10,
                    ).update(self.index + 2, value % 10),
                    ..self
                }.advance(),
            )
        }
    }

    /// `LD [I], Vx`: `V0` to `Vx` go to the bytes from `I` on. `I` stays.
    /// Bytes beyond memory are a fault.
    pub open spec fn store_registers(self, x: u8) -> Result<Machine, Fault> {
        if self.index + x > 4095 {
            Err(Fault::MemoryOutOfBounds(self.pc))
        } else {
            Ok(
                Machine {
                    memory: Seq::new(
                        4096,
                        |a: int|
                            if self.index <= a <= self.index + x {
                                self.registers[a - self.index]
                            } else {
                                self.memory[a]
                            },
                    ),
                    ..self
                }.advance(),
            )
        }
    }

    /// `LD Vx, [I]`: `V0` to `Vx` come from the bytes from `I` on. `I`
    /// stays. Bytes beyond memory are a fault.
    pub open spec fn load_registers(self, x: u8) -> Result<Machine, Fault> {
        if self.index + x > 4095 {
            Err(Fault::MemoryOutOfBounds(self.pc))
        } else {
            Ok(
                Machine {
                    registers: Seq::new(
                        16,
                        |r: int|
                            if r <= x {
                                self.memory[self.index + r]
                            } else {
                                self.registers[r]
                            },
                    ),
                    ..self
                }.advance(),
            )
        }
    }

    /// What one instruction does: the machine after it and the status it
    /// reports, or the fault it raises. A fault leaves no machine behind:
    /// a faulting instruction changes nothing.
    ///
    /// Instructions that redirect control set the program counter and do
    /// not advance it; every other instruction advances it by two, a skip
    /// that is taken by four. Operands are read before anything is
    /// written, and where an instruction reports in `VF`, that is the last
    /// thing it writes. The two shifts shift `Vy` into `Vx`.
    pub open spec fn step(self, op: Opcode, random: u8) -> Result<(Machine, Status), Fault> {
        let v = self.registers;
        match op {
            Opcode::SYS(_) => running(self.advance()),
            Opcode::CLS => running(self.clear()),
            Opcode::RET => completed(self.ret()),
            Opcode::JP(nnn) => running(self.jump(nnn, 0)),
            Opcode::_2NNN(nnn) => completed(self.call(nnn)),
            Opcode::_3XNN(x, nn) => running(self.skip_if(v[x as int] == nn)),
            Opcode::_4XNN(x, nn) => running(self.skip_if(v[x as int] != nn)),
            Opcode::_5XY0(x, y) => running(self.skip_if(v[x as int] == v[y as int])),
            Opcode::_6XNN(x, nn) => running(self.assign(x, nn)),
            Opcode::_7XNN(x, nn) => running(self.assign(x, low_byte(v[x as int] + nn))),
            Opcode::_8XY0(x, y) => running(self.assign(x, v[y as int])),
            Opcode::_8XY1(x, y) => running(self.assign(x, v[x as int] | v[y as int])),
            Opcode::_8XY2(x, y) => running(self.assign(x, v[x as int] & v[y as int])),
            Opcode::_8XY3(x, y) => running(self.assign(x, v[x as int] ^ v[y as int])),
            Opcode::_8XY4(x, y) => running(
                self.assign_flagged(
                    x,
                    low_byte(v[x as int] + v[y as int]),
                    v[x as int] + v[y as int] > 255,
                ),
            ),
            Opcode::_8XY5(x, y) => running(
                self.assign_flagged(
                    x,
                    low_byte(v[x as int] - v[y as int]),
                    v[x as int] >= v[y as int],
                ),
            ),
            Opcode::_8XY6(x, y) => running(
                self.assign_flagged(x, (v[y as int] / 2) as u8, v[y as int] % 2 == 1),
            ),
            Opcode::_8XY7(x, y) => running(
                self.assign_flagged(
                    x,
                    low_byte(v[y as int] - v[x as int]),
                    v[y as int] >= v[x as int],
                ),
            ),
            Opcode::_8XYE(x, y) => running(
                self.assign_flagged(x, low_byte(v[y as int] * 2), v[y as int] >= 128),
            ),
            Opcode::_9XY0(x, y) => running(self.skip_if(v[x as int] != v[y as int])),
            Opcode::LD_I(nnn) => running(self.point(nnn)),
            Opcode::_BNNN(nnn) => running(self.jump(nnn, v[0])),
            Opcode::_CXNN(x, nn) => running(self.assign(x, random & nn)),
            Opcode::_DXYN(x, y, n) => completed(self.draw(x, y, n)),
            Opcode::_EX9E(x) => running(self.skip_if(self.keys[(v[x as int] % 16) as int])),
            Opcode::_EXA1(x) => running(self.skip_if(!self.keys[(v[x as int] % 16) as int])),
            Opcode::_FX07(x) => running(self.assign(x, self.delay)),
            Opcode::_FX0A(x) => Ok(self.wait_key(x)),
            Opcode::_FX15(x) => running(self.delay_for(v[x as int])),
            Opcode::_FX18(x) => running(self.sound_for(v[x as int])),
            Opcode::_FX1E(x) => running(
                self.point(((self.index + v[x as int]) % 0x1_0000) as u16),
            ),
            Opcode::_FX29(x) => running(self.point(((v[x as int] % 16) * 5) as u16)),
            Opcode::_FX33(x) => completed(self.store_decimal(x)),
            Opcode::_FX55(x) => completed(self.store_registers(x)),
            Opcode::_FX65(x) => completed(self.load_registers(x)),
        }
    }

    /// The machine after one timer tick: each timer that is not zero goes
    /// down by one, each that is zero stays.
    pub open spec fn tick(self) -> Machine {
        Machine {
            delay: if self.delay > 0 {
                (self.delay - 1) as u8
            } else {
                0u8
            },
            sound: if self.sound > 0 {
                (self.sound - 1) as u8
            } else {
                0u8
            },
            ..self
        }
    }

    /// Whether a tone sounds: the sound timer is running.
    pub open spec fn tone(self) -> bool {
        self.sound > 0
    }

    /// What one cycle does: fetch, decode, execute, then one tick. The
    /// first fault of the three stages is the cycle's fault.
    pub open spec fn cycle(self, random: u8) -> Result<(Machine, Cycle), Fault> {
        match self.fetch() {
            Err(fault) => Err(fault),
            Ok(word) => match decode(word) {
                Err(fault) => Err(fault),
                Ok(op) => match self.step(op, random) {
                    Err(fault) => Err(fault),
                    Ok((after, status)) => Ok(
                        (after.tick(), Cycle { status, beep: after.sound == 1 }),
                    ),
                },
            },
        }
    }
}

} // verus!
