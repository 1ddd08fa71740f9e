//! The mathematical model of a CHIP-8 machine and the effect of each
//! operation on it.
use vstd::prelude::*;
use crate::opcode::{decode_spec, Instruction};

verus! {

/// Address at which a program is loaded and execution starts.
pub const PROGRAM_START: u16 = 0x200;

/// Size of the addressable memory in bytes.
pub const MEMORY_SIZE: usize = 4096;

/// Width of the framebuffer in pixels.
pub const SCREEN_WIDTH: usize = 64;

/// Height of the framebuffer in pixels.
pub const SCREEN_HEIGHT: usize = 32;

/// Number of pixels of the framebuffer.
pub const SCREEN_PIXELS: usize = 2048;

/// Address of the font table.
pub const SPRITE_START: u16 = 0x50;

/// Deepest nesting of subroutine calls.
pub const STACK_DEPTH: usize = 16;

/// Number of keys of the keypad.
pub const KEY_COUNT: usize = 16;

/// Number of general registers; the last, VF, doubles as the flag register.
pub const REGISTER_COUNT: usize = 16;

/// The font: one 4x5 glyph of five bytes for each hexadecimal digit.
pub const FONT_SPRITES: [u8; 80] = [
    0xF0, 0x90, 0x90, 0x90, 0xF0,  // 0
    0x20, 0x60, 0x20, 0x20, 0x70,  // 1
    0xF0, 0x10, 0xF0, 0x80, 0xF0,  // 2
    0xF0, 0x10, 0xF0, 0x10, 0xF0,  // 3
    0x90, 0x90, 0xF0, 0x10, 0x10,  // 4
    0xF0, 0x80, 0xF0, 0x10, 0xF0,  // 5
    0xF0, 0x80, 0xF0, 0x90, 0xF0,  // 6
    0xF0, 0x10, 0x20, 0x40, 0x40,  // 7
    0xF0, 0x90, 0xF0, 0x90, 0xF0,  // 8
    0xF0, 0x90, 0xF0, 0x10, 0xF0,  // 9
    0xF0, 0x90, 0xF0, 0x90, 0x90,  // A
    0xE0, 0x90, 0xE0, 0x90, 0xE0,  // B
    0xF0, 0x80, 0x80, 0x80, 0xF0,  // C
    0xE0, 0x90, 0x90, 0x90, 0xE0,  // D
    0xF0, 0x80, 0xF0, 0x80, 0xF0,  // E
    0xF0, 0x80, 0xF0, 0x80, 0x80,  // F
];

/// A condition that stops execution.
#[derive(Clone, Copy, Debug, PartialEq, Eq, Structural)]
pub enum Fault {
    /// A call was made with the call stack already full.
    StackOverflow,
    /// A return was made with the call stack empty.
    StackUnderflow,
    /// An instruction fetch or a memory access fell outside memory.
    AddressOutOfRange,
}

/// Why a program could not be loaded.
#[derive(Clone, Copy, Debug, PartialEq, Eq, Structural)]
pub enum LoadError {
    /// The program does not fit in memory above the program start.
    RomTooLarge,
}

/// What the execution loop must do after a frame.
#[derive(Clone, Copy, Debug, PartialEq, Eq, Structural)]
pub struct FrameReport {
    /// The framebuffer changed and must be presented.
    pub redraw: bool,
    /// The sound timer is running, so the tone must be on.
    pub sound_active: bool,
}

/// The state of a machine. `display` holds the framebuffer row by row,
/// pixel (x, y) at `y * 64 + x`; `dirty` records that it changed since it
/// was last presented.
pub struct Machine {
    pub memory: Seq<u8>,
    pub v: Seq<u8>,
    pub i: u16,
    pub pc: u16,
    pub stack: Seq<u16>,
    pub delay_timer: u8,
    pub sound_timer: u8,
    pub keys: Seq<bool>,
    pub display: Seq<bool>,
    pub dirty: bool,
}

impl Machine {
    /// Every part of the state has its fixed size, and the call stack is
    /// within its bound.
    pub open spec fn wf(self) -> bool {
        &&& self.memory.len() == MEMORY_SIZE
        &&& self.v.len() == REGISTER_COUNT
        &&& self.keys.len() == KEY_COUNT
        &&& self.display.len() == SCREEN_PIXELS
        &&& self.stack.len() <= STACK_DEPTH
    }
}

/// Memory of a fresh machine: zero but for the font table.
pub open spec fn initial_memory() -> Seq<u8> {
    Seq::new(
        MEMORY_SIZE as nat,
        |a: int|
            if SPRITE_START <= a < SPRITE_START + 80 {
                FONT_SPRITES@[a - SPRITE_START]
            } else {
                0u8
            },
    )
}

/// A framebuffer with every pixel off.
pub open spec fn blank_display() -> Seq<bool> {
    Seq::new(SCREEN_PIXELS as nat, |p: int| false)
}

/// A fresh machine: font loaded, everything else zero, `pc` at the program
/// start.
pub open spec fn initial_machine() -> Machine {
    Machine {
        memory: initial_memory(),
        v: Seq::new(REGISTER_COUNT as nat, |k: int| 0u8),
        i: 0,
        pc: PROGRAM_START,
        stack: Seq::empty(),
        delay_timer: 0,
        sound_timer: 0,
        keys: Seq::new(KEY_COUNT as nat, |k: int| false),
        display: blank_display(),
        dirty: false,
    }
}

/// A fresh machine with `rom` copied to memory at the program start, or
/// `None` when `rom` does not fit there.
pub open spec fn load_spec(rom: Seq<u8>) -> Option<Machine> {
    if rom.len() > MEMORY_SIZE - PROGRAM_START {
        None
    } else {
        Some(
            Machine {
                memory: Seq::new(
                    MEMORY_SIZE as nat,
                    |a: int|
                        if PROGRAM_START <= a < PROGRAM_START + rom.len() {
                            rom[a - PROGRAM_START]
                        } else {
                            initial_memory()[a]
                        },
                ),
                ..initial_machine()
            },
        )
    }
}

/// Counter `t` after `k` timer ticks: it counts down to zero and stays there.
pub open spec fn decayed(t: u8, k: nat) -> u8 {
    if k >= t {
        0
    } else {
        (t - k) as u8
    }
}

/// One timer tick: each nonzero timer goes down by one.
pub open spec fn tick_spec(m: Machine) -> Machine {
    Machine { delay_timer: decayed(m.delay_timer, 1), sound_timer: decayed(m.sound_timer, 1), ..m }
}

/// `k` timer ticks in a row.
pub open spec fn ticks_spec(m: Machine, k: nat) -> Machine
    decreases k,
{
    if k == 0 {
        m
    } else {
        tick_spec(ticks_spec(m, (k - 1) as nat))
    }
}

/// Key `k` is a key of the keypad and is pressed.
pub open spec fn key_down(m: Machine, k: int) -> bool {
    0 <= k < KEY_COUNT && m.keys[k]
}

/// Some key is pressed.
pub open spec fn any_key_down(m: Machine) -> bool {
    exists|k: int| #[trigger] key_down(m, k)
}

/// `k` is the lowest-numbered key that is pressed.
pub open spec fn is_lowest_key(m: Machine, k: int) -> bool {
    key_down(m, k) && forall|j: int| 0 <= j < k ==> !#[trigger] key_down(m, j)
}

/// The lowest-numbered key that is pressed, where one is.
pub open spec fn lowest_key(m: Machine) -> int {
    choose|k: int| is_lowest_key(m, k)
}

/// Bit `col` of a sprite row, counting from the most significant bit.
pub open spec fn sprite_bit(b: u8, col: int) -> bool {
    (b >> ((7 - col) as u8)) & 1u8 == 1u8
}

/// Column of pixel `p` within a sprite whose left edge is at `vx`, wrapping
/// around the screen.
pub open spec fn sprite_col(p: int, vx: u8) -> int {
    (p % 64 + 64 - vx as int % 64) % 64
}

/// Row of pixel `p` within a sprite whose top edge is at `vy`, wrapping
/// around the screen.
pub open spec fn sprite_row(p: int, vy: u8) -> int {
    (p / 64 + 32 - vy as int % 32) % 32
}

/// The `n`-row sprite read from memory at `m.i` and placed at (vx, vy) has a
/// set bit on pixel `p`.
pub open spec fn sprite_covers(m: Machine, vx: u8, vy: u8, n: u8, p: int) -> bool {
    let col = sprite_col(p, vx);
    let row = sprite_row(p, vy);
    col < 8 && row < n && sprite_bit(m.memory[m.i + row], col)
}

/// The framebuffer after the sprite is XOR-ed onto it.
pub open spec fn drawn(m: Machine, vx: u8, vy: u8, n: u8) -> Seq<bool> {
    Seq::new(
        SCREEN_PIXELS as nat,
        |p: int| m.display[p] != sprite_covers(m, vx, vy, n, p),
    )
}

/// Drawing the sprite turns some pixel off.
pub open spec fn collides(m: Machine, vx: u8, vy: u8, n: u8) -> bool {
    exists|p: int| 0 <= p < SCREEN_PIXELS && m.display[p] && #[trigger] sprite_covers(m, vx, vy, n, p)
}

/// `pc` moves to the next instruction.
pub open spec fn advance(m: Machine) -> Machine {
    Machine { pc: (m.pc + 2) as u16, ..m }
}

/// `pc` moves past the next instruction when `c` holds, else to it.
pub open spec fn skip_if(m: Machine, c: bool) -> Machine {
    Machine { pc: (m.pc + if c { 4int } else { 2int }) as u16, ..m }
}

/// Register `x` is set to `val`.
pub open spec fn set_reg(m: Machine, x: int, val: u8) -> Machine {
    Machine { v: m.v.update(x, val), ..m }
}

/// Register `x` is set to `val`, then VF to `flag`.
pub open spec fn set_reg_flag(m: Machine, x: int, val: u8, flag: u8) -> Machine {
    set_reg(set_reg(m, x, val), 15, flag)
}

/// The effect of `op`, executed as the instruction at `m.pc`, with `rnd` as
/// the random byte that `Rnd` draws.
pub open spec fn apply_op(m: Machine, op: Instruction, rnd: u8) -> Result<Machine, Fault> {
    match op {
        Instruction::Sys { .. } => Ok(advance(m)),
        Instruction::Cls => Ok(advance(Machine { display: blank_display(), dirty: true, ..m })),
        Instruction::Ret => if m.stack.len() == 0 {
            Err(Fault::StackUnderflow)
        } else {
            Ok(Machine { pc: m.stack.last(), stack: m.stack.drop_last(), ..m })
        },
        Instruction::Jp { nnn } => Ok(Machine { pc: nnn, ..m }),
        Instruction::Call { nnn } => if m.stack.len() >= STACK_DEPTH {
            Err(Fault::StackOverflow)
        } else {
            Ok(Machine { pc: nnn, stack: m.stack.push((m.pc + 2) as u16), ..m })
        },
        Instruction::SeImm { x, kk } => Ok(skip_if(m, m.v[x as int] == kk)),
        Instruction::SneImm { x, kk } => Ok(skip_if(m, m.v[x as int] != kk)),
        Instruction::SeReg { x, y } => Ok(skip_if(m, m.v[x as int] == m.v[y as int])),
        Instruction::SneReg { x, y } => Ok(skip_if(m, m.v[x as int] != m.v[y as int])),
        Instruction::LdImm { x, kk } => Ok(advance(set_reg(m, x as int, kk))),
        Instruction::AddImm { x, kk } => Ok(
            advance(set_reg(m, x as int, ((m.v[x as int] + kk) % 256) as u8)),
        ),
        Instruction::LdReg { x, y } => Ok(advance(set_reg(m, x as int, m.v[y as int]))),
        Instruction::Or { x, y } => Ok(advance(set_reg(m, x as int, m.v[x as int] | m.v[y as int]))),
        Instruction::And { x, y } => Ok(
            advance(set_reg(m, x as int, m.v[x as int] & m.v[y as int])),
        ),
        Instruction::Xor { x, y } => Ok(
            advance(set_reg(m, x as int, m.v[x as int] ^ m.v[y as int])),
        ),
        Instruction::AddReg { x, y } => {
            let sum = m.v[x as int] + m.v[y as int];
            Ok(advance(set_reg_flag(m, x as int, (sum % 256) as u8, if sum > 255 { 1 } else { 0 })))
        },
        Instruction::Sub { x, y } => {
            let (a, b) = (m.v[x as int], m.v[y as int]);
            Ok(advance(set_reg_flag(m, x as int, ((a - b) % 256) as u8, if a >= b { 1 } else { 0 })))
        },
        Instruction::Subn { x, y } => {
            let (a, b) = (m.v[x as int], m.v[y as int]);
            Ok(advance(set_reg_flag(m, x as int, ((b - a) % 256) as u8, if b >= a { 1 } else { 0 })))
        },
        Instruction::Shr { x, .. } => {
            let m1 = set_reg(m, 15, m.v[x as int] % 2);
            Ok(advance(set_reg(m1, x as int, m1.v[x as int] / 2)))
        },
        Instruction::Shl { x, .. } => {
            let m1 = set_reg(m, 15, m.v[x as int] / 128);
            Ok(advance(set_reg(m1, x as int, ((m1.v[x as int] * 2) % 256) as u8)))
        },
        Instruction::LdI { nnn } => Ok(advance(Machine { i: nnn, ..m })),
        Instruction::JpV0 { nnn } => Ok(Machine { pc: (nnn + m.v[0]) as u16, ..m }),
        Instruction::Rnd { x, kk } => Ok(advance(set_reg(m, x as int, rnd & kk))),
        Instruction::Drw { x, y, n } => if m.i + n > MEMORY_SIZE {
            Err(Fault::AddressOutOfRange)
        } else {
            let (vx, vy) = (m.v[x as int], m.v[y as int]);
            Ok(
                advance(
                    Machine {
                        v: m.v.update(15, if collides(m, vx, vy, n) { 1u8 } else { 0u8 }),
                        display: drawn(m, vx, vy, n),
                        dirty: true,
                        ..m
                    },
                ),
            )
        },
        Instruction::Skp { x } => Ok(skip_if(m, key_down(m, m.v[x as int] as int))),
        Instruction::Sknp { x } => Ok(skip_if(m, !key_down(m, m.v[x as int] as int))),
        Instruction::LdVxDt { x } => Ok(advance(set_reg(m, x as int, m.delay_timer))),
        Instruction::LdVxK { x } => if any_key_down(m) {
            Ok(advance(set_reg(m, x as int, lowest_key(m) as u8)))
        } else {
            Ok(m)
        },
        Instruction::LdDtVx { x } => Ok(advance(Machine { delay_timer: m.v[x as int], ..m })),
        Instruction::LdStVx { x } => Ok(advance(Machine { sound_timer: m.v[x as int], ..m })),
        Instruction::AddIVx { x } => Ok(advance(Machine { i: ((m.i + m.v[x as int]) % 0x10000) as u16, ..m })),
        Instruction::LdFVx { x } => Ok(advance(Machine { i: (SPRITE_START + m.v[x as int] * 5) as u16, ..m })),
        Instruction::LdBVx { x } => if m.i + 3 > MEMORY_SIZE {
            Err(Fault::AddressOutOfRange)
        } else {
            let val = m.v[x as int];
            Ok(
                advance(
                    Machine {
                        memory: m.memory.update(m.i as int, val / 100).update(
                            m.i + 1,
                            (val / 10) % 10,
                        ).update(m.i + 2, val % 10),
                        ..m
                    },
                ),
            )
        },
        Instruction::LdMemVx { x } => if m.i + x + 1 > MEMORY_SIZE {
            Err(Fault::AddressOutOfRange)
        } else {
            Ok(
                advance(
                    Machine {
                        memory: Seq::new(
                            MEMORY_SIZE as nat,
                            |a: int|
                                if m.i <= a <= m.i + x {
                                    m.v[a - m.i]
                                } else {
                                    m.memory[a]
                                },
                        ),
                        ..m
                    },
                ),
            )
        },
        Instruction::LdVxMem { x } => if m.i + x + 1 > MEMORY_SIZE {
            Err(Fault::AddressOutOfRange)
        } else {
            Ok(
                advance(
                    Machine {
                        v: Seq::new(
                            REGISTER_COUNT as nat,
                            |k: int|
                                if k <= x {
                                    m.memory[m.i + k]
                                } else {
                                    m.v[k]
                                },
                        ),
                        ..m
                    },
                ),
            )
        },
        Instruction::Invalid { .. } => Ok(advance(m)),
    }
}

/// `pc` addresses a whole instruction word inside memory.
pub open spec fn fetchable(m: Machine) -> bool {
    m.pc + 1 < MEMORY_SIZE
}

/// The effect of executing `op` at `m.pc`: a fault when `pc` lies outside
/// memory, else that of the operation.
pub open spec fn exec_spec(m: Machine, op: Instruction, rnd: u8) -> Result<Machine, Fault> {
    if !fetchable(m) {
        Err(Fault::AddressOutOfRange)
    } else {
        apply_op(m, op, rnd)
    }
}

/// The instruction word at `m.pc`, most significant byte first.
pub open spec fn fetch_spec(m: Machine) -> u16 {
    (m.memory[m.pc as int] * 256 + m.memory[m.pc + 1]) as u16
}

/// The relation between a machine before and after a frame that returned
/// `r`, where the model gives `expected`.
pub open spec fn frame_follows(
    before: Machine,
    after: Machine,
    r: Result<FrameReport, Fault>,
    expected: Result<(Machine, FrameReport), Fault>,
) -> bool {
    match expected {
        Ok((m, report)) => r == Ok::<FrameReport, Fault>(report) && after == m,
        Err(f) => r == Err::<FrameReport, Fault>(f) && after == before,
    }
}

/// One cycle: the instruction at `pc` is fetched, decoded and executed.
pub open spec fn step_spec(m: Machine, rnd: u8) -> Result<Machine, Fault> {
    exec_spec(m, decode_spec(fetch_spec(m)), rnd)
}

/// One frame of the execution loop: a cycle, then `timer_ticks` timer ticks;
/// the framebuffer is handed over for presenting when it changed, and the
/// tone sounds while the sound timer runs.
pub open spec fn frame_spec(m: Machine, timer_ticks: nat, rnd: u8) -> Result<
    (Machine, FrameReport),
    Fault,
> {
    match step_spec(m, rnd) {
        Err(f) => Err(f),
        Ok(m1) => {
            let m2 = ticks_spec(m1, timer_ticks);
            Ok(
                (
                    Machine { dirty: false, ..m2 },
                    FrameReport { redraw: m2.dirty, sound_active: m2.sound_timer != 0 },
                ),
            )
        },
    }
}

/// The relation between a machine before and after an operation that returned
/// `r`, where the model gives `expected`: on success the new state is the
/// model's, on a fault the state is left as it was.
pub open spec fn follows(
    before: Machine,
    after: Machine,
    r: Result<(), Fault>,
    expected: Result<Machine, Fault>,
) -> bool {
    match expected {
        Ok(m) => r is Ok && after == m,
        Err(f) => r == Err::<(), Fault>(f) && after == before,
    }
}

} // verus!
