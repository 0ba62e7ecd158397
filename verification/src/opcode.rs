//! The instruction catalogue and its decoder.
//!
//! An instruction word is sixteen bits. Its top nibble selects a family;
//! the families `0`, `5`, `8`, `9`, `E` and `F` are told apart further by
//! the low nibble or the low byte. The remaining nibbles are operands:
//! `x` and `y` name registers, `n` is a nibble, `nn` a byte and `nnn` a
//! twelve-bit address.

use vstd::prelude::*;
use crate::fault::Fault;

verus! {

/// One decoded instruction, carrying exactly the operands it uses.
///
/// Variants are named after the bit pattern of the word; the doc comment of
/// each gives the mnemonic.
#[allow(non_camel_case_types)]
#[derive(Clone, Copy, Debug, PartialEq, Eq, Structural)]
pub enum Opcode {
    /// `SYS nnn`: legacy machine-code call, a no-op here.
    SYS(u16),
    /// `CLS`: clear the display.
    CLS,
    /// `RET`: return from a subroutine.
    RET,
    /// `JP nnn`: jump.
    JP(u16),
    /// `CALL nnn`: call a subroutine.
    _2NNN(u16),
    /// `SE Vx, nn`: skip the next instruction if `Vx == nn`.
    _3XNN(u8, u8),
    /// `SNE Vx, nn`: skip the next instruction if `Vx != nn`.
    _4XNN(u8, u8),
    /// `SE Vx, Vy`: skip the next instruction if `Vx == Vy`.
    _5XY0(u8, u8),
    /// `LD Vx, nn`.
    _6XNN(u8, u8),
    /// `ADD Vx, nn`: add without touching the flag.
    _7XNN(u8, u8),
    /// `LD Vx, Vy`.
    _8XY0(u8, u8),
    /// `OR Vx, Vy`.
    _8XY1(u8, u8),
    /// `AND Vx, Vy`.
    _8XY2(u8, u8),
    /// `XOR Vx, Vy`.
    _8XY3(u8, u8),
    /// `ADD Vx, Vy`: add, flag is the carry.
    _8XY4(u8, u8),
    /// `SUB Vx, Vy`: `Vx - Vy`, flag is set when nothing was borrowed.
    _8XY5(u8, u8),
    /// `SHR Vx, Vy`: `Vy` shifted right by one, flag is the bit shifted out.
    _8XY6(u8, u8),
    /// `SUBN Vx, Vy`: `Vy - Vx`, flag is set when nothing was borrowed.
    _8XY7(u8, u8),
    /// `SHL Vx, Vy`: `Vy` shifted left by one, flag is the bit shifted out.
    _8XYE(u8, u8),
    /// `SNE Vx, Vy`: skip the next instruction if `Vx != Vy`.
    _9XY0(u8, u8),
    /// `LD I, nnn`.
    LD_I(u16),
    /// `JP V0, nnn`: jump to `nnn + V0`.
    _BNNN(u16),
    /// `RND Vx, nn`: a random byte masked by `nn`.
    _CXNN(u8, u8),
    /// `DRW Vx, Vy, n`: draw an `n`-row sprite.
    _DXYN(u8, u8, u8),
    /// `SKP Vx`: skip the next instruction if the key in `Vx` is down.
    _EX9E(u8),
    /// `SKNP Vx`: skip the next instruction if the key in `Vx` is up.
    _EXA1(u8),
    /// `LD Vx, DT`: read the delay timer.
    _FX07(u8),
    /// `LD Vx, K`: wait for a key.
    _FX0A(u8),
    /// `LD DT, Vx`: set the delay timer.
    _FX15(u8),
    /// `LD ST, Vx`: set the sound timer.
    _FX18(u8),
    /// `ADD I, Vx`.
    _FX1E(u8),
    /// `LD F, Vx`: point `I` at the glyph of a hex digit.
    _FX29(u8),
    /// `LD B, Vx`: store the three decimal digits of `Vx`.
    _FX33(u8),
    /// `LD [I], Vx`: store `V0..=Vx` to memory.
    _FX55(u8),
    /// `LD Vx, [I]`: load `V0..=Vx` from memory.
    _FX65(u8),
}

impl Opcode {
    /// Every operand lies in the range its field of the word can hold, and
    /// a `SYS` address is not one of the two that spell `CLS` and `RET`.
    pub open spec fn wf(self) -> bool {
        match self {
            Opcode::SYS(nnn) => nnn < 0x1000 && nnn != 0x0E0 && nnn != 0x0EE,
            Opcode::CLS | Opcode::RET => true,
            Opcode::JP(nnn) | Opcode::_2NNN(nnn) | Opcode::LD_I(nnn) | Opcode::_BNNN(nnn) => nnn
                < 0x1000,
            Opcode::_3XNN(x, _) | Opcode::_4XNN(x, _) | Opcode::_6XNN(x, _) | Opcode::_7XNN(x, _)
            | Opcode::_CXNN(x, _) => x < 16,
            Opcode::_5XY0(x, y) | Opcode::_8XY0(x, y) | Opcode::_8XY1(x, y) | Opcode::_8XY2(x, y)
            | Opcode::_8XY3(x, y) | Opcode::_8XY4(x, y) | Opcode::_8XY5(x, y) | Opcode::_8XY6(x, y)
            | Opcode::_8XY7(x, y) | Opcode::_8XYE(x, y) | Opcode::_9XY0(x, y) => x < 16 && y < 16,
            Opcode::_DXYN(x, y, n) => x < 16 && y < 16 && n < 16,
            Opcode::_EX9E(x) | Opcode::_EXA1(x) | Opcode::_FX07(x) | Opcode::_FX0A(x)
            | Opcode::_FX15(x) | Opcode::_FX18(x) | Opcode::_FX1E(x) | Opcode::_FX29(x)
            | Opcode::_FX33(x) | Opcode::_FX55(x) | Opcode::_FX65(x) => x < 16,
        }
    }

    /// The word that spells this instruction: the family's fixed bits plus
    /// the operands, each in its field.
    pub open spec fn word(self) -> int {
        match self {
            Opcode::SYS(nnn) => 0x0000 + nnn,
            Opcode::CLS => 0x00E0,
            Opcode::RET => 0x00EE,
            Opcode::JP(nnn) => 0x1000 + nnn,
            Opcode::_2NNN(nnn) => 0x2000 + nnn,
            Opcode::_3XNN(x, nn) => 0x3000 + x * 0x100 + nn,
            Opcode::_4XNN(x, nn) => 0x4000 + x * 0x100 + nn,
            Opcode::_5XY0(x, y) => 0x5000 + x * 0x100 + y * 0x10,
            Opcode::_6XNN(x, nn) => 0x6000 + x * 0x100 + nn,
            Opcode::_7XNN(x, nn) => 0x7000 + x * 0x100 + nn,
            Opcode::_8XY0(x, y) => 0x8000 + x * 0x100 + y * 0x10,
            Opcode::_8XY1(x, y) => 0x8001 + x * 0x100 + y * 0x10,
            Opcode::_8XY2(x, y) => 0x8002 + x * 0x100 + y * 0x10,
            Opcode::_8XY3(x, y) => 0x8003 + x * 0x100 + y * 0x10,
            Opcode::_8XY4(x, y) => 0x8004 + x * 0x100 + y * 0x10,
            Opcode::_8XY5(x, y) => 0x8005 + x * 0x100 + y * 0x10,
            Opcode::_8XY6(x, y) => 0x8006 + x * 0x100 + y * 0x10,
            Opcode::_8XY7(x, y) => 0x8007 + x * 0x100 + y * 0x10,
            Opcode::_8XYE(x, y) => 0x800E + x * 0x100 + y * 0x10,
            Opcode::_9XY0(x, y) => 0x9000 + x * 0x100 + y * 0x10,
            Opcode::LD_I(nnn) => 0xA000 + nnn,
            Opcode::_BNNN(nnn) => 0xB000 + nnn,
            Opcode::_CXNN(x, nn) => 0xC000 + x * 0x100 + nn,
            Opcode::_DXYN(x, y, n) => 0xD000 + x * 0x100 + y * 0x10 + n,
            Opcode::_EX9E(x) => 0xE09E + x * 0x100,
            Opcode::_EXA1(x) => 0xE0A1 + x * 0x100,
            Opcode::_FX07(x) => 0xF007 + x * 0x100,
            Opcode::_FX0A(x) => 0xF00A + x * 0x100,
            Opcode::_FX15(x) => 0xF015 + x * 0x100,
            Opcode::_FX18(x) => 0xF018 + x * 0x100,
            Opcode::_FX1E(x) => 0xF01E + x * 0x100,
            Opcode::_FX29(x) => 0xF029 + x * 0x100,
            Opcode::_FX33(x) => 0xF033 + x * 0x100,
            Opcode::_FX55(x) => 0xF055 + x * 0x100,
            Opcode::_FX65(x) => 0xF065 + x * 0x100,
        }
    }

    /// Decodes one instruction word, by its top nibble first and then, in
    /// the families that need it, by its low nibble or low byte. A word
    /// that no instruction spells is reported, never guessed at.
    pub fn from(opcode: u16) -> (res: Result<Opcode, Fault>)
        ensures
            res == decode(opcode),
    {
        let top: u16 = (opcode & 0xF000) >> 12;
        let x: u8 = ((opcode & 0x0F00) >> 8) as u8;
        let y: u8 = ((opcode & 0x00F0) >> 4) as u8;
        let n: u8 = (opcode & 0x000F) as u8;
        let nn: u8 = (opcode & 0x00FF) as u8;
        let nnn: u16 = opcode & 0x0FFF;
        proof {
            assert((opcode & 0xF000) >> 12 == opcode / 0x1000) by (bit_vector);
            assert(((opcode & 0x0F00) >> 8) == (opcode / 0x100) % 0x10) by (bit_vector);
            assert(((opcode & 0x00F0) >> 4) == (opcode / 0x10) % 0x10) by (bit_vector);
            assert(opcode & 0x000F == opcode % 0x10) by (bit_vector);
            assert(opcode & 0x00FF == opcode % 0x100) by (bit_vector);
            assert(opcode & 0x0FFF == opcode % 0x1000) by (bit_vector);
        }
        let unknown: Result<Opcode, Fault> = Err(Fault::UnknownOpcode(opcode));
        match top {
            0x0 => if opcode == 0x00E0 {
                Ok(Opcode::CLS)
            } else if opcode == 0x00EE {
                Ok(Opcode::RET)
            } else {
                Ok(Opcode::SYS(nnn))
            },
            0x1 => Ok(Opcode::JP(nnn)),
            0x2 => Ok(Opcode::_2NNN(nnn)),
            0x3 => Ok(Opcode::_3XNN(x, nn)),
            0x4 => Ok(Opcode::_4XNN(x, nn)),
            0x5 => if n == 0 {
                Ok(Opcode::_5XY0(x, y))
            } else {
                unknown
            },
            0x6 => Ok(Opcode::_6XNN(x, nn)),
            0x7 => Ok(Opcode::_7XNN(x, nn)),
            0x8 => match n {
                0x0 => Ok(Opcode::_8XY0(x, y)),
                0x1 => Ok(Opcode::_8XY1(x, y)),
                0x2 => Ok(Opcode::_8XY2(x, y)),
                0x3 => Ok(Opcode::_8XY3(x, y)),
                0x4 => Ok(Opcode::_8XY4(x, y)),
                0x5 => Ok(Opcode::_8XY5(x, y)),
                0x6 => Ok(Opcode::_8XY6(x, y)),
                0x7 => Ok(Opcode::_8XY7(x, y)),
                0xE => Ok(Opcode::_8XYE(x, y)),
                _ => unknown,
            },
            0x9 => if n == 0 {
                Ok(Opcode::_9XY0(x, y))
            } else {
                unknown
            },
            0xA => Ok(Opcode::LD_I(nnn)),
            0xB => Ok(Opcode::_BNNN(nnn)),
            0xC => Ok(Opcode::_CXNN(x, nn)),
            0xD => Ok(Opcode::_DXYN(x, y, n)),
            0xE => match nn {
                0x9E => Ok(Opcode::_EX9E(x)),
                0xA1 => Ok(Opcode::_EXA1(x)),
                _ => unknown,
            },
            _ => match nn {
                0x07 => Ok(Opcode::_FX07(x)),
                0x0A => Ok(Opcode::_FX0A(x)),
                0x15 => Ok(Opcode::_FX15(x)),
                0x18 => Ok(Opcode::_FX18(x)),
                0x1E => Ok(Opcode::_FX1E(x)),
                0x29 => Ok(Opcode::_FX29(x)),
                0x33 => Ok(Opcode::_FX33(x)),
                0x55 => Ok(Opcode::_FX55(x)),
                0x65 => Ok(Opcode::_FX65(x)),
                _ => unknown,
            },
        }
    }
}

/// The instruction that a word spells, if any: the one well-formed
/// instruction `op` with `op.word() == word`.
///
/// Stated by arithmetic on the word: the top nibble is `word / 0x1000`,
/// `x` and `y` are the next two nibbles, `n`, `nn` and `nnn` are the word
/// modulo `0x10`, `0x100` and `0x1000`.
pub open spec fn decode(word: u16) -> Result<Opcode, Fault> {
    let top = word / 0x1000;
    let x = ((word / 0x100) % 0x10) as u8;
    let y = ((word / 0x10) % 0x10) as u8;
    let n = (word % 0x10) as u8;
    let nn = (word % 0x100) as u8;
    let nnn = (word % 0x1000) as u16;
    let unknown = Err(Fault::UnknownOpcode(word));
    if top == 0x0 {
        if word == 0x00E0 {
            Ok(Opcode::CLS)
        } else if word == 0x00EE {
            Ok(Opcode::RET)
        } else {
            Ok(Opcode::SYS(nnn))
        }
    } else if top == 0x1 {
        Ok(Opcode::JP(nnn))
    } else if top == 0x2 {
        Ok(Opcode::_2NNN(nnn))
    } else if top == 0x3 {
        Ok(Opcode::_3XNN(x, nn))
    } else if top == 0x4 {
        Ok(Opcode::_4XNN(x, nn))
    } else if top == 0x5 {
        if n == 0 {
            Ok(Opcode::_5XY0(x, y))
        } else {
            unknown
        }
    } else if top == 0x6 {
        Ok(Opcode::_6XNN(x, nn))
    } else if top == 0x7 {
        Ok(Opcode::_7XNN(x, nn))
    } else if top == 0x8 {
        if n == 0x0 {
            Ok(Opcode::_8XY0(x, y))
        } else if n == 0x1 {
            Ok(Opcode::_8XY1(x, y))
        } else if n == 0x2 {
            Ok(Opcode::_8XY2(x, y))
        } else if n == 0x3 {
            Ok(Opcode::_8XY3(x, y))
        } else if n == 0x4 {
            Ok(Opcode::_8XY4(x, y))
        } else if n == 0x5 {
            Ok(Opcode::_8XY5(x, y))
        } else if n == 0x6 {
            Ok(Opcode::_8XY6(x, y))
        } else if n == 0x7 {
            Ok(Opcode::_8XY7(x, y))
        } else if n == 0xE {
            Ok(Opcode::_8XYE(x, y))
        } else {
            unknown
        }
    } else if top == 0x9 {
        if n == 0 {
            Ok(Opcode::_9XY0(x, y))
        } else {
            unknown
        }
    } else if top == 0xA {
        Ok(Opcode::LD_I(nnn))
    } else if top == 0xB {
        Ok(Opcode::_BNNN(nnn))
    } else if top == 0xC {
        Ok(Opcode::_CXNN(x, nn))
    } else if top == 0xD {
        Ok(Opcode::_DXYN(x, y, n))
    } else if top == 0xE {
        if nn == 0x9E {
            Ok(Opcode::_EX9E(x))
        } else if nn == 0xA1 {
            Ok(Opcode::_EXA1(x))
        } else {
            unknown
        }
    } else {
        if nn == 0x07 {
            Ok(Opcode::_FX07(x))
        } else if nn == 0x0A {
            Ok(Opcode::_FX0A(x))
        } else if nn == 0x15 {
            Ok(Opcode::_FX15(x))
        } else if nn == 0x18 {
            Ok(Opcode::_FX18(x))
        } else if nn == 0x1E {
            Ok(Opcode::_FX1E(x))
        } else if nn == 0x29 {
            Ok(Opcode::_FX29(x))
        } else if nn == 0x33 {
            Ok(Opcode::_FX33(x))
        } else if nn == 0x55 {
            Ok(Opcode::_FX55(x))
        } else if nn == 0x65 {
            Ok(Opcode::_FX65(x))
        } else {
            unknown
        }
    }
}

/// A word is its four nibbles: reading the fields back from a word put
/// together nibble by nibble gives the nibbles.
proof fn lemma_nibbles(t: int, x: int, y: int, n: int)
    requires
        0 <= t < 16,
        0 <= x < 16,
        0 <= y < 16,
        0 <= n < 16,
    ensures
        ({
            let w = t * 0x1000 + x * 0x100 + y * 0x10 + n;
            &&& 0 <= w <= 0xFFFF
            &&& w / 0x1000 == t
            &&& (w / 0x100) % 0x10 == x
            &&& (w / 0x10) % 0x10 == y
            &&& w % 0x10 == n
            &&& w % 0x100 == y * 0x10 + n
            &&& w % 0x1000 == x * 0x100 + y * 0x10 + n
        }),
{
}

/// The fields of a word add up to the word.
proof fn lemma_fields(word: u16)
    by (bit_vector)
    ensures
        word == (word / 0x1000) * 0x1000 + ((word / 0x100) % 0x10) * 0x100 + ((word / 0x10)
            % 0x10) * 0x10 + word % 0x10,
        word % 0x100 == ((word / 0x10) % 0x10) * 0x10 + word % 0x10,
        word % 0x1000 == ((word / 0x100) % 0x10) * 0x100 + ((word / 0x10) % 0x10) * 0x10 + word
            % 0x10,
        word / 0x1000 < 16,
{
}

/// Decoding undoes spelling: the word of a well-formed instruction decodes
/// to that instruction, operands included.
pub proof fn lemma_decode_word(op: Opcode)
    requires
        op.wf(),
    ensures
        0 <= op.word() <= 0xFFFF,
        decode(op.word() as u16) == Ok::<Opcode, Fault>(op),
{
    match op {
        Opcode::SYS(nnn) => lemma_nibbles(0x0, (nnn / 0x100) as int, ((nnn / 0x10) % 0x10) as int, (nnn % 0x10) as int),
        Opcode::CLS => lemma_nibbles(0x0, 0x0, 0xE, 0x0),
        Opcode::RET => lemma_nibbles(0x0, 0x0, 0xE, 0xE),
        Opcode::JP(nnn) => lemma_nibbles(0x1, (nnn / 0x100) as int, ((nnn / 0x10) % 0x10) as int, (nnn % 0x10) as int),
        Opcode::_2NNN(nnn) => lemma_nibbles(0x2, (nnn / 0x100) as int, ((nnn / 0x10) % 0x10) as int, (nnn % 0x10) as int),
        Opcode::_3XNN(x, nn) => lemma_nibbles(0x3, x as int, (nn / 0x10) as int, (nn % 0x10) as int),
        Opcode::_4XNN(x, nn) => lemma_nibbles(0x4, x as int, (nn / 0x10) as int, (nn % 0x10) as int),
        Opcode::_5XY0(x, y) => lemma_nibbles(0x5, x as int, y as int, 0x0),
        Opcode::_6XNN(x, nn) => lemma_nibbles(0x6, x as int, (nn / 0x10) as int, (nn % 0x10) as int),
        Opcode::_7XNN(x, nn) => lemma_nibbles(0x7, x as int, (nn / 0x10) as int, (nn % 0x10) as int),
        Opcode::_8XY0(x, y) => lemma_nibbles(0x8, x as int, y as int, 0x0),
        Opcode::_8XY1(x, y) => lemma_nibbles(0x8, x as int, y as int, 0x1),
        Opcode::_8XY2(x, y) => lemma_nibbles(0x8, x as int, y as int, 0x2),
        Opcode::_8XY3(x, y) => lemma_nibbles(0x8, x as int, y as int, 0x3),
        Opcode::_8XY4(x, y) => lemma_nibbles(0x8, x as int, y as int, 0x4),
        Opcode::_8XY5(x, y) => lemma_nibbles(0x8, x as int, y as int, 0x5),
        Opcode::_8XY6(x, y) => lemma_nibbles(0x8, x as int, y as int, 0x6),
        Opcode::_8XY7(x, y) => lemma_nibbles(0x8, x as int, y as int, 0x7),
        Opcode::_8XYE(x, y) => lemma_nibbles(0x8, x as int, y as int, 0xE),
        Opcode::_9XY0(x, y) => lemma_nibbles(0x9, x as int, y as int, 0x0),
        Opcode::LD_I(nnn) => lemma_nibbles(0xA, (nnn / 0x100) as int, ((nnn / 0x10) % 0x10) as int, (nnn % 0x10) as int),
        Opcode::_BNNN(nnn) => lemma_nibbles(0xB, (nnn / 0x100) as int, ((nnn / 0x10) % 0x10) as int, (nnn % 0x10) as int),
        Opcode::_CXNN(x, nn) => lemma_nibbles(0xC, x as int, (nn / 0x10) as int, (nn % 0x10) as int),
        Opcode::_DXYN(x, y, n) => lemma_nibbles(0xD, x as int, y as int, n as int),
        Opcode::_EX9E(x) => lemma_nibbles(0xE, x as int, 0x9, 0xE),
        Opcode::_EXA1(x) => lemma_nibbles(0xE, x as int, 0xA, 0x1),
        Opcode::_FX07(x) => lemma_nibbles(0xF, x as int, 0x0, 0x7),
        Opcode::_FX0A(x) => lemma_nibbles(0xF, x as int, 0x0, 0xA),
        Opcode::_FX15(x) => lemma_nibbles(0xF, x as int, 0x1, 0x5),
        Opcode::_FX18(x) => lemma_nibbles(0xF, x as int, 0x1, 0x8),
        Opcode::_FX1E(x) => lemma_nibbles(0xF, x as int, 0x1, 0xE),
        Opcode::_FX29(x) => lemma_nibbles(0xF, x as int, 0x2, 0x9),
        Opcode::_FX33(x) => lemma_nibbles(0xF, x as int, 0x3, 0x3),
        Opcode::_FX55(x) => lemma_nibbles(0xF, x as int, 0x5, 0x5),
        Opcode::_FX65(x) => lemma_nibbles(0xF, x as int, 0x6, 0x5),
    }
}

/// Spelling undoes decoding: a word decodes either to a well-formed
/// instruction that spells exactly that word, or to `UnknownOpcode` with
/// the word itself, and then no well-formed instruction spells it.
pub proof fn lemma_decode_sound(word: u16)
    ensures
        match decode(word) {
            Ok(op) => op.wf() && op.word() == word,
            Err(fault) => fault == Fault::UnknownOpcode(word) && forall|op: Opcode|
                op.wf() ==> op.word() != word,
        },
{
    lemma_fields(word);
    if decode(word) is Err {
        assert forall|op: Opcode| op.wf() implies op.word() != word by {
            if op.word() == word {
                lemma_decode_word(op);
            }
        }
    }
}

} // verus!
