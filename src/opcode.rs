//! Decoding of 16-bit instruction words into typed operations.
use vstd::prelude::*;

verus! {

/// The weight of nibble `k` (0 is the least significant) in a 16-bit word.
pub open spec fn place_value(k: int) -> int {
    if k == 0 {
        1
    } else if k == 1 {
        16
    } else if k == 2 {
        256
    } else {
        4096
    }
}

/// Nibble `k` of the word `w`, counting from the least significant.
pub open spec fn nibble(w: u16, k: int) -> int {
    (w as int / place_value(k)) % 16
}

/// Extracts hexadecimal digit `place` (0 is the least significant) of `hex`.
pub fn digit(hex: u16, place: u8) -> (r: usize)
    requires
        place < 4,
    ensures
        r < 16,
        r as int == nibble(hex, place as int),
{
    let offset: u8 = place << 2u8;
    assert(offset == 4 * place) by (bit_vector)
        requires
            offset == place << 2u8,
            place < 4u8,
    ;
    let r: u16 = (hex & (0xFu16 << offset)) >> offset;
    proof {
        if place == 0 {
            assert(((hex & (0xFu16 << 0u8)) >> 0u8) as int == (hex as int / 1) % 16) by (bit_vector);
        } else if place == 1 {
            assert(((hex & (0xFu16 << 4u8)) >> 4u8) as int == (hex as int / 16) % 16) by (bit_vector);
        } else if place == 2 {
            assert(((hex & (0xFu16 << 8u8)) >> 8u8) as int == (hex as int / 256) % 16) by (bit_vector);
        } else {
            assert(((hex & (0xFu16 << 12u8)) >> 12u8) as int == (hex as int / 4096) % 16) by (bit_vector);
        }
    }
    r as usize
}

/// One decoded CHIP-8 operation with its operands: `x` and `y` name
/// registers, `kk` is an 8-bit immediate, `nnn` a 12-bit address and `n` a
/// 4-bit count.
#[derive(Clone, Copy, Debug, PartialEq, Eq, Structural)]
pub enum Instruction {
    /// 0nnn: machine-code routine; executed as a no-op.
    Sys { nnn: u16 },
    /// 00E0: clear the framebuffer.
    Cls,
    /// 00EE: return from a subroutine.
    Ret,
    /// 1nnn: jump to `nnn`.
    Jp { nnn: u16 },
    /// 2nnn: call the subroutine at `nnn`.
    Call { nnn: u16 },
    /// 3xkk: skip the next instruction if Vx == kk.
    SeImm { x: u8, kk: u8 },
    /// 4xkk: skip the next instruction if Vx != kk.
    SneImm { x: u8, kk: u8 },
    /// 5xy0: skip the next instruction if Vx == Vy.
    SeReg { x: u8, y: u8 },
    /// 6xkk: Vx = kk.
    LdImm { x: u8, kk: u8 },
    /// 7xkk: Vx = Vx + kk, wrapping; VF untouched.
    AddImm { x: u8, kk: u8 },
    /// 8xy0: Vx = Vy.
    LdReg { x: u8, y: u8 },
    /// 8xy1: Vx = Vx | Vy.
    Or { x: u8, y: u8 },
    /// 8xy2: Vx = Vx & Vy.
    And { x: u8, y: u8 },
    /// 8xy3: Vx = Vx ^ Vy.
    Xor { x: u8, y: u8 },
    /// 8xy4: Vx = Vx + Vy, wrapping; VF = carry.
    AddReg { x: u8, y: u8 },
    /// 8xy5: Vx = Vx - Vy, wrapping; VF = no borrow.
    Sub { x: u8, y: u8 },
    /// 8xy6: VF = low bit of Vx; Vx = Vx >> 1.
    Shr { x: u8, y: u8 },
    /// 8xy7: Vx = Vy - Vx, wrapping; VF = no borrow.
    Subn { x: u8, y: u8 },
    /// 8xyE: VF = high bit of Vx; Vx = Vx << 1.
    Shl { x: u8, y: u8 },
    /// 9xy0: skip the next instruction if Vx != Vy.
    SneReg { x: u8, y: u8 },
    /// Annn: I = nnn.
    LdI { nnn: u16 },
    /// Bnnn: jump to nnn + V0.
    JpV0 { nnn: u16 },
    /// Cxkk: Vx = random byte & kk.
    Rnd { x: u8, kk: u8 },
    /// Dxyn: draw an n-row sprite from memory at I at (Vx, Vy).
    Drw { x: u8, y: u8, n: u8 },
    /// Ex9E: skip the next instruction if key Vx is pressed.
    Skp { x: u8 },
    /// ExA1: skip the next instruction if key Vx is not pressed.
    Sknp { x: u8 },
    /// Fx07: Vx = delay timer.
    LdVxDt { x: u8 },
    /// Fx0A: wait for a key press and store the key in Vx.
    LdVxK { x: u8 },
    /// Fx15: delay timer = Vx.
    LdDtVx { x: u8 },
    /// Fx18: sound timer = Vx.
    LdStVx { x: u8 },
    /// Fx1E: I = I + Vx.
    AddIVx { x: u8 },
    /// Fx29: I = address of the font glyph for digit Vx.
    LdFVx { x: u8 },
    /// Fx33: decimal digits of Vx to memory at I, I+1, I+2.
    LdBVx { x: u8 },
    /// Fx55: V0..=Vx to memory starting at I; I itself is left unchanged.
    LdMemVx { x: u8 },
    /// Fx65: memory starting at I to V0..=Vx; I itself is left unchanged.
    LdVxMem { x: u8 },
    /// A word that names no operation.
    Invalid { word: u16 },
}

/// Register operand `x` of a word (bits 8..12).
pub open spec fn x_of(w: u16) -> u8 {
    nibble(w, 2) as u8
}

/// Register operand `y` of a word (bits 4..8).
pub open spec fn y_of(w: u16) -> u8 {
    nibble(w, 1) as u8
}

/// Count operand `n` of a word (bits 0..4).
pub open spec fn n_of(w: u16) -> u8 {
    nibble(w, 0) as u8
}

/// Immediate operand `kk` of a word: its low byte.
pub open spec fn kk_of(w: u16) -> u8 {
    (w as int % 0x100) as u8
}

/// Address operand `nnn` of a word: its low twelve bits.
pub open spec fn nnn_of(w: u16) -> u16 {
    (w as int % 0x1000) as u16
}

/// The operation that an instruction word denotes.
pub open spec fn decode_spec(w: u16) -> Instruction {
    let family = nibble(w, 3);
    let (x, y, n, kk, nnn) = (x_of(w), y_of(w), n_of(w), kk_of(w), nnn_of(w));
    if w == 0x00E0 {
        Instruction::Cls
    } else if w == 0x00EE {
        Instruction::Ret
    } else if family == 0x0 {
        Instruction::Sys { nnn }
    } else if family == 0x1 {
        Instruction::Jp { nnn }
    } else if family == 0x2 {
        Instruction::Call { nnn }
    } else if family == 0x3 {
        Instruction::SeImm { x, kk }
    } else if family == 0x4 {
        Instruction::SneImm { x, kk }
    } else if family == 0x5 && n == 0x0 {
        Instruction::SeReg { x, y }
    } else if family == 0x6 {
        Instruction::LdImm { x, kk }
    } else if family == 0x7 {
        Instruction::AddImm { x, kk }
    } else if family == 0x8 && n == 0x0 {
        Instruction::LdReg { x, y }
    } else if family == 0x8 && n == 0x1 {
        Instruction::Or { x, y }
    } else if family == 0x8 && n == 0x2 {
        Instruction::And { x, y }
    } else if family == 0x8 && n == 0x3 {
        Instruction::Xor { x, y }
    } else if family == 0x8 && n == 0x4 {
        Instruction::AddReg { x, y }
    } else if family == 0x8 && n == 0x5 {
        Instruction::Sub { x, y }
    } else if family == 0x8 && n == 0x6 {
        Instruction::Shr { x, y }
    } else if family == 0x8 && n == 0x7 {
        Instruction::Subn { x, y }
    } else if family == 0x8 && n == 0xE {
        Instruction::Shl { x, y }
    } else if family == 0x9 && n == 0x0 {
        Instruction::SneReg { x, y }
    } else if family == 0xA {
        Instruction::LdI { nnn }
    } else if family == 0xB {
        Instruction::JpV0 { nnn }
    } else if family == 0xC {
        Instruction::Rnd { x, kk }
    } else if family == 0xD {
        Instruction::Drw { x, y, n }
    } else if family == 0xE && kk == 0x9E {
        Instruction::Skp { x }
    } else if family == 0xE && kk == 0xA1 {
        Instruction::Sknp { x }
    } else if family == 0xF && kk == 0x07 {
        Instruction::LdVxDt { x }
    } else if family == 0xF && kk == 0x0A {
        Instruction::LdVxK { x }
    } else if family == 0xF && kk == 0x15 {
        Instruction::LdDtVx { x }
    } else if family == 0xF && kk == 0x18 {
        Instruction::LdStVx { x }
    } else if family == 0xF && kk == 0x1E {
        Instruction::AddIVx { x }
    } else if family == 0xF && kk == 0x29 {
        Instruction::LdFVx { x }
    } else if family == 0xF && kk == 0x33 {
        Instruction::LdBVx { x }
    } else if family == 0xF && kk == 0x55 {
        Instruction::LdMemVx { x }
    } else if family == 0xF && kk == 0x65 {
        Instruction::LdVxMem { x }
    } else {
        Instruction::Invalid { word: w }
    }
}

/// Every operand of `op` is within its field's width.
pub open spec fn operands_in_range(op: Instruction) -> bool {
    match op {
        Instruction::Sys { nnn } | Instruction::Jp { nnn } | Instruction::Call { nnn }
        | Instruction::LdI { nnn } | Instruction::JpV0 { nnn } => nnn < 0x1000,
        Instruction::SeImm { x, .. } | Instruction::SneImm { x, .. } | Instruction::LdImm {
            x,
            ..
        } | Instruction::AddImm { x, .. } | Instruction::Rnd { x, .. } => x < 16,
        Instruction::SeReg { x, y } | Instruction::SneReg { x, y } | Instruction::LdReg { x, y }
        | Instruction::Or { x, y } | Instruction::And { x, y } | Instruction::Xor { x, y }
        | Instruction::AddReg { x, y } | Instruction::Sub { x, y } | Instruction::Shr { x, y }
        | Instruction::Subn { x, y } | Instruction::Shl { x, y } => x < 16 && y < 16,
        Instruction::Drw { x, y, n } => x < 16 && y < 16 && n < 16,
        Instruction::Skp { x } | Instruction::Sknp { x } | Instruction::LdVxDt { x }
        | Instruction::LdVxK { x } | Instruction::LdDtVx { x } | Instruction::LdStVx { x }
        | Instruction::AddIVx { x } | Instruction::LdFVx { x } | Instruction::LdBVx { x }
        | Instruction::LdMemVx { x } | Instruction::LdVxMem { x } => x < 16,
        _ => true,
    }
}

/// The instruction word that denotes `op`.
pub open spec fn encode_spec(op: Instruction) -> u16 {
    let w: int = match op {
        Instruction::Sys { nnn } => nnn as int,
        Instruction::Cls => 0x00E0,
        Instruction::Ret => 0x00EE,
        Instruction::Jp { nnn } => 0x1000 + nnn,
        Instruction::Call { nnn } => 0x2000 + nnn,
        Instruction::SeImm { x, kk } => 0x3000 + x * 0x100 + kk,
        Instruction::SneImm { x, kk } => 0x4000 + x * 0x100 + kk,
        Instruction::SeReg { x, y } => 0x5000 + x * 0x100 + y * 0x10,
        Instruction::LdImm { x, kk } => 0x6000 + x * 0x100 + kk,
        Instruction::AddImm { x, kk } => 0x7000 + x * 0x100 + kk,
        Instruction::LdReg { x, y } => 0x8000 + x * 0x100 + y * 0x10,
        Instruction::Or { x, y } => 0x8001 + x * 0x100 + y * 0x10,
        Instruction::And { x, y } => 0x8002 + x * 0x100 + y * 0x10,
        Instruction::Xor { x, y } => 0x8003 + x * 0x100 + y * 0x10,
        Instruction::AddReg { x, y } => 0x8004 + x * 0x100 + y * 0x10,
        Instruction::Sub { x, y } => 0x8005 + x * 0x100 + y * 0x10,
        Instruction::Shr { x, y } => 0x8006 + x * 0x100 + y * 0x10,
        Instruction::Subn { x, y } => 0x8007 + x * 0x100 + y * 0x10,
        Instruction::Shl { x, y } => 0x800E + x * 0x100 + y * 0x10,
        Instruction::SneReg { x, y } => 0x9000 + x * 0x100 + y * 0x10,
        Instruction::LdI { nnn } => 0xA000 + nnn,
        Instruction::JpV0 { nnn } => 0xB000 + nnn,
        Instruction::Rnd { x, kk } => 0xC000 + x * 0x100 + kk,
        Instruction::Drw { x, y, n } => 0xD000 + x * 0x100 + y * 0x10 + n,
        Instruction::Skp { x } => 0xE09E + x * 0x100,
        Instruction::Sknp { x } => 0xE0A1 + x * 0x100,
        Instruction::LdVxDt { x } => 0xF007 + x * 0x100,
        Instruction::LdVxK { x } => 0xF00A + x * 0x100,
        Instruction::LdDtVx { x } => 0xF015 + x * 0x100,
        Instruction::LdStVx { x } => 0xF018 + x * 0x100,
        Instruction::AddIVx { x } => 0xF01E + x * 0x100,
        Instruction::LdFVx { x } => 0xF029 + x * 0x100,
        Instruction::LdBVx { x } => 0xF033 + x * 0x100,
        Instruction::LdMemVx { x } => 0xF055 + x * 0x100,
        Instruction::LdVxMem { x } => 0xF065 + x * 0x100,
        Instruction::Invalid { word } => word as int,
    };
    w as u16
}

/// Decodes an instruction word. Decoding never fails: a word that names no
/// operation becomes `Instruction::Invalid`.
pub fn decode(word: u16) -> (r: Instruction)
    ensures
        r == decode_spec(word),
        operands_in_range(r),
{
    let x = digit(word, 2) as u8;
    let y = digit(word, 1) as u8;
    let n = digit(word, 0) as u8;
    let kk = word as u8;
    let nnn = word & 0xfff;
    assert(kk == kk_of(word) && nnn == nnn_of(word)) by (bit_vector)
        requires
            kk == word as u8,
            nnn == word & 0xfff,
    ;
    match digit(word, 3) {
        0x0 => match word {
            0x00e0 => Instruction::Cls,
            0x00ee => Instruction::Ret,
            _ => Instruction::Sys { nnn },
        },
        0x1 => Instruction::Jp { nnn },
        0x2 => Instruction::Call { nnn },
        0x3 => Instruction::SeImm { x, kk },
        0x4 => Instruction::SneImm { x, kk },
        0x5 => match n {
            0x0 => Instruction::SeReg { x, y },
            _ => Instruction::Invalid { word },
        },
        0x6 => Instruction::LdImm { x, kk },
        0x7 => Instruction::AddImm { x, kk },
        0x8 => match n {
            0x0 => Instruction::LdReg { x, y },
            0x1 => Instruction::Or { x, y },
            0x2 => Instruction::And { x, y },
            0x3 => Instruction::Xor { x, y },
            0x4 => Instruction::AddReg { x, y },
            0x5 => Instruction::Sub { x, y },
            0x6 => Instruction::Shr { x, y },
            0x7 => Instruction::Subn { x, y },
            0xe => Instruction::Shl { x, y },
            _ => Instruction::Invalid { word },
        },
        0x9 => match n {
            0x0 => Instruction::SneReg { x, y },
            _ => Instruction::Invalid { word },
        },
        0xa => Instruction::LdI { nnn },
        0xb => Instruction::JpV0 { nnn },
        0xc => Instruction::Rnd { x, kk },
        0xd => Instruction::Drw { x, y, n },
        0xe => match kk {
            0x9e => Instruction::Skp { x },
            0xa1 => Instruction::Sknp { x },
            _ => Instruction::Invalid { word },
        },
        _ => match kk {
            0x07 => Instruction::LdVxDt { x },
            0x0a => Instruction::LdVxK { x },
            0x15 => Instruction::LdDtVx { x },
            0x18 => Instruction::LdStVx { x },
            0x1e => Instruction::AddIVx { x },
            0x29 => Instruction::LdFVx { x },
            0x33 => Instruction::LdBVx { x },
            0x55 => Instruction::LdMemVx { x },
            0x65 => Instruction::LdVxMem { x },
            _ => Instruction::Invalid { word },
        },
    }
}

} // verus!
