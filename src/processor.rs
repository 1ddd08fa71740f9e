//! The interpreter: a machine's state and the execution of its instructions.
use vstd::prelude::*;
use crate::machine::{
    advance, any_key_down, apply_op, blank_display, collides, decayed, drawn, exec_spec,
    fetch_spec, fetchable, follows, frame_follows, frame_spec, initial_machine, initial_memory,
    is_lowest_key, key_down, load_spec, lowest_key, sprite_col, sprite_covers, sprite_row,
    step_spec, tick_spec, Fault, FrameReport, LoadError, Machine, FONT_SPRITES, KEY_COUNT,
    MEMORY_SIZE, PROGRAM_START, REGISTER_COUNT, SCREEN_HEIGHT, SCREEN_PIXELS, SCREEN_WIDTH,
    SPRITE_START, STACK_DEPTH,
};
use crate::opcode::{decode, decode_spec, operands_in_range, Instruction};
use crate::laws::timers_decay;
use crate::stack::Stack;

verus! {

/// Relies on rand::random: a byte drawn from the thread-local generator;
/// nothing is known of its value.
#[verifier::external_body]
fn random_byte() -> (r: u8) {
    rand::random::<u8>()
}

/// Pixel `p` lies in a row of the sprite before `row`, or in row `row` left of
/// column `col`.
spec fn visited(p: int, vx: u8, vy: u8, row: int, col: int) -> bool {
    sprite_row(p, vy) < row || (sprite_row(p, vy) == row && sprite_col(p, vx) < col)
}

/// The pixel that sprite cell (col, row) lands on, wrapped onto the screen,
/// has that cell's column and row.
proof fn lemma_sprite_pixel(vx: int, vy: int, col: int, row: int, p: int)
    requires
        0 <= vx < 256,
        0 <= vy < 256,
        0 <= col < 8,
        0 <= row < 16,
        p == ((vy + row) % 32) * 64 + (vx + col) % 64,
    ensures
        0 <= p < 2048,
        (p % 64 + 64 - vx % 64) % 64 == col,
        (p / 64 + 32 - vy % 32) % 32 == row,
{
    let px = (vx + col) % 64;
    let py = (vy + row) % 32;
    assert(p % 64 == px && p / 64 == py) by (nonlinear_arith)
        requires
            p == py * 64 + px,
            0 <= px < 64,
            0 <= py < 32,
    ;
    assert((px + 64 - vx % 64) % 64 == col) by (nonlinear_arith)
        requires
            px == (vx + col) % 64,
            0 <= vx,
            0 <= col < 8,
    ;
    assert((py + 32 - vy % 32) % 32 == row) by (nonlinear_arith)
        requires
            py == (vy + row) % 32,
            0 <= vy,
            0 <= row < 16,
    ;
}

/// Sprite cell (col, row) lands on one pixel only.
proof fn lemma_sprite_pixel_unique(vx: int, vy: int, col: int, row: int, p: int, q: int)
    requires
        0 <= vx < 256,
        0 <= vy < 256,
        0 <= col < 8,
        0 <= row < 16,
        0 <= q < 2048,
        p == ((vy + row) % 32) * 64 + (vx + col) % 64,
        (q % 64 + 64 - vx % 64) % 64 == col,
        (q / 64 + 32 - vy % 32) % 32 == row,
    ensures
        q == p,
{
    let qx = q % 64;
    let qy = q / 64;
    assert(q == qy * 64 + qx && 0 <= qx < 64 && 0 <= qy < 32) by (nonlinear_arith)
        requires
            0 <= q < 2048,
            qx == q % 64,
            qy == q / 64,
    ;
    assert(qx == (vx + col) % 64) by (nonlinear_arith)
        requires
            (qx + 64 - vx % 64) % 64 == col,
            0 <= qx < 64,
            0 <= vx,
            0 <= col < 8,
    ;
    assert(qy == (vy + row) % 32) by (nonlinear_arith)
        requires
            (qy + 32 - vy % 32) % 32 == row,
            0 <= qy < 32,
            0 <= vy,
            0 <= row < 16,
    ;
}

/// Timer value `t` after `k` ticks.
fn decay(t: u8, k: u64) -> (r: u8)
    ensures
        r == decayed(t, k as nat),
{
    if k >= t as u64 {
        0
    } else {
        t - k as u8
    }
}

/// A CHIP-8 machine together with its interpreter.
pub struct Processor {
    memory: Vec<u8>,
    stack: Stack<u16>,
    display: Vec<bool>,
    display_change: bool,
    keyboard: Vec<bool>,
    pc: u16,
    v: Vec<u8>,
    i: u16,
    delay_timer: u8,
    sound_timer: u8,
}

impl View for Processor {
    type V = Machine;

    closed spec fn view(&self) -> Machine {
        Machine {
            memory: self.memory@,
            v: self.v@,
            i: self.i,
            pc: self.pc,
            stack: self.stack@,
            delay_timer: self.delay_timer,
            sound_timer: self.sound_timer,
            keys: self.keyboard@,
            display: self.display@,
            dirty: self.display_change,
        }
    }
}

impl Processor {
    /// The processor's state has the shape of a machine.
    pub open spec fn wf(&self) -> bool {
        self@.wf()
    }

    /// A fresh machine: the font table at its address, everything else zero,
    /// `pc` at the program start.
    pub fn new() -> (p: Self)
        ensures
            p.wf(),
            p@ == initial_machine(),
    {
        let mut memory: Vec<u8> = vec![0u8; MEMORY_SIZE];
        let mut pos: usize = 0;
        while pos < 80
            invariant
                0 <= pos <= 80,
                memory@.len() == MEMORY_SIZE,
                forall|a: int|
                    0 <= a < MEMORY_SIZE ==> #[trigger] memory@[a] == if SPRITE_START <= a
                        < SPRITE_START + pos {
                        FONT_SPRITES@[a - SPRITE_START]
                    } else {
                        0u8
                    },
            decreases 80 - pos,
        {
            memory[SPRITE_START as usize + pos] = FONT_SPRITES[pos];
            pos += 1;
        }
        let p = Processor {
            memory,
            stack: Stack::new(),
            display: vec![false; SCREEN_PIXELS],
            display_change: false,
            keyboard: vec![false; KEY_COUNT],
            pc: PROGRAM_START,
            v: vec![0u8; REGISTER_COUNT],
            i: 0,
            delay_timer: 0,
            sound_timer: 0,
        };
        assert(p@.memory =~= initial_memory());
        assert(p@.display =~= blank_display());
        assert(p@.v =~= initial_machine().v);
        assert(p@.keys =~= initial_machine().keys);
        assert(p@.stack =~= initial_machine().stack);
        p
    }
    /// Moves `pc` to the next instruction.
    fn advance_pc(&mut self)
        requires
            old(self).wf(),
            old(self).pc + 2 <= u16::MAX,
        ensures
            final(self).wf(),
            final(self)@ == advance(old(self)@),
    {
        self.pc = self.pc + 2;
    }

    /// 0nnn: a machine-code routine, which this interpreter skips.
    fn op_0nnn(&mut self, nnn: u16)
        requires
            old(self).wf(),
            fetchable(old(self)@),
        ensures
            final(self).wf(),
            apply_op(old(self)@, Instruction::Sys { nnn }, 0) == Ok::<Machine, Fault>(final(self)@),
    {
        self.advance_pc();
    }

    /// 00E0: clears the framebuffer.
    fn op_00e0(&mut self)
        requires
            old(self).wf(),
            fetchable(old(self)@),
        ensures
            final(self).wf(),
            apply_op(old(self)@, Instruction::Cls, 0) == Ok::<Machine, Fault>(final(self)@),
    {
        self.display = vec![false; SCREEN_PIXELS];
        self.display_change = true;
        assert(self.display@ =~= blank_display());
        self.advance_pc();
    }

    /// 00EE: returns from a subroutine to the address on top of the stack.
    fn op_00ee(&mut self) -> (r: Result<(), Fault>)
        requires
            old(self).wf(),
            fetchable(old(self)@),
        ensures
            final(self).wf(),
            follows(old(self)@, final(self)@, r, apply_op(old(self)@, Instruction::Ret, 0)),
    {
        match self.stack.pop() {
            None => Err(Fault::StackUnderflow),
            Some(addr) => {
                self.pc = addr;
                Ok(())
            },
        }
    }

    /// 1nnn: jumps to `nnn`.
    fn op_1nnn(&mut self, nnn: u16)
        requires
            old(self).wf(),
            fetchable(old(self)@),
        ensures
            final(self).wf(),
            apply_op(old(self)@, Instruction::Jp { nnn }, 0) == Ok::<Machine, Fault>(final(self)@),
    {
        self.pc = nnn;
    }

    /// 2nnn: calls the subroutine at `nnn`, saving the return address.
    fn op_2nnn(&mut self, nnn: u16) -> (r: Result<(), Fault>)
        requires
            old(self).wf(),
            fetchable(old(self)@),
        ensures
            final(self).wf(),
            follows(old(self)@, final(self)@, r, apply_op(old(self)@, Instruction::Call { nnn }, 0)),
    {
        if self.stack.size() >= STACK_DEPTH {
            return Err(Fault::StackOverflow);
        }
        self.stack.push(self.pc + 2);
        self.pc = nnn;
        Ok(())
    }

    /// 3xkk: skips the next instruction if Vx equals `kk`.
    fn op_3xkk(&mut self, x: u8, kk: u8)
        requires
            old(self).wf(),
            fetchable(old(self)@),
            x < 16,
        ensures
            final(self).wf(),
            apply_op(old(self)@, Instruction::SeImm { x, kk }, 0) == Ok::<Machine, Fault>(final(self)@),
    {
        if self.v[x as usize] == kk {
            self.advance_pc();
        }
        self.advance_pc();
    }

    /// 4xkk: skips the next instruction if Vx differs from `kk`.
    fn op_4xkk(&mut self, x: u8, kk: u8)
        requires
            old(self).wf(),
            fetchable(old(self)@),
            x < 16,
        ensures
            final(self).wf(),
            apply_op(old(self)@, Instruction::SneImm { x, kk }, 0) == Ok::<Machine, Fault>(final(self)@),
    {
        if self.v[x as usize] != kk {
            self.advance_pc();
        }
        self.advance_pc();
    }

    /// 5xy0: skips the next instruction if Vx equals Vy.
    fn op_5xy0(&mut self, x: u8, y: u8)
        requires
            old(self).wf(),
            fetchable(old(self)@),
            x < 16,
            y < 16,
        ensures
            final(self).wf(),
            apply_op(old(self)@, Instruction::SeReg { x, y }, 0) == Ok::<Machine, Fault>(final(self)@),
    {
        if self.v[x as usize] == self.v[y as usize] {
            self.advance_pc();
        }
        self.advance_pc();
    }

    /// 6xkk: loads `kk` into Vx.
    fn op_6xkk(&mut self, x: u8, kk: u8)
        requires
            old(self).wf(),
            fetchable(old(self)@),
            x < 16,
        ensures
            final(self).wf(),
            apply_op(old(self)@, Instruction::LdImm { x, kk }, 0) == Ok::<Machine, Fault>(final(self)@),
    {
        self.v[x as usize] = kk;
        self.advance_pc();
    }

    /// 7xkk: adds `kk` to Vx, wrapping around; VF is left alone.
    fn op_7xkk(&mut self, x: u8, kk: u8)
        requires
            old(self).wf(),
            fetchable(old(self)@),
            x < 16,
        ensures
            final(self).wf(),
            apply_op(old(self)@, Instruction::AddImm { x, kk }, 0) == Ok::<Machine, Fault>(final(self)@),
    {
        let sum = self.v[x as usize].wrapping_add(kk);
        self.v[x as usize] = sum;
        self.advance_pc();
    }

    /// 8xy0: copies Vy into Vx.
    fn op_8xy0(&mut self, x: u8, y: u8)
        requires
            old(self).wf(),
            fetchable(old(self)@),
            x < 16,
            y < 16,
        ensures
            final(self).wf(),
            apply_op(old(self)@, Instruction::LdReg { x, y }, 0) == Ok::<Machine, Fault>(final(self)@),
    {
        self.v[x as usize] = self.v[y as usize];
        self.advance_pc();
    }

    /// 8xy1: Vx becomes Vx OR Vy.
    fn op_8xy1(&mut self, x: u8, y: u8)
        requires
            old(self).wf(),
            fetchable(old(self)@),
            x < 16,
            y < 16,
        ensures
            final(self).wf(),
            apply_op(old(self)@, Instruction::Or { x, y }, 0) == Ok::<Machine, Fault>(final(self)@),
    {
        let r = self.v[x as usize] | self.v[y as usize];
        self.v[x as usize] = r;
        self.advance_pc();
    }

    /// 8xy2: Vx becomes Vx AND Vy.
    fn op_8xy2(&mut self, x: u8, y: u8)
        requires
            old(self).wf(),
            fetchable(old(self)@),
            x < 16,
            y < 16,
        ensures
            final(self).wf(),
            apply_op(old(self)@, Instruction::And { x, y }, 0) == Ok::<Machine, Fault>(final(self)@),
    {
        let r = self.v[x as usize] & self.v[y as usize];
        self.v[x as usize] = r;
        self.advance_pc();
    }

    /// 8xy3: Vx becomes Vx XOR Vy.
    fn op_8xy3(&mut self, x: u8, y: u8)
        requires
            old(self).wf(),
            fetchable(old(self)@),
            x < 16,
            y < 16,
        ensures
            final(self).wf(),
            apply_op(old(self)@, Instruction::Xor { x, y }, 0) == Ok::<Machine, Fault>(final(self)@),
    {
        let r = self.v[x as usize] ^ self.v[y as usize];
        self.v[x as usize] = r;
        self.advance_pc();
    }

    /// 8xy4: adds Vy to Vx, wrapping around; VF becomes the carry.
    fn op_8xy4(&mut self, x: u8, y: u8)
        requires
            old(self).wf(),
            fetchable(old(self)@),
            x < 16,
            y < 16,
        ensures
            final(self).wf(),
            apply_op(old(self)@, Instruction::AddReg { x, y }, 0) == Ok::<Machine, Fault>(final(self)@),
    {
        let a = self.v[x as usize];
        let b = self.v[y as usize];
        let carry: u8 = if a as u16 + b as u16 > 255 { 1 } else { 0 };
        self.v[x as usize] = a.wrapping_add(b);
        self.v[15] = carry;
        self.advance_pc();
    }

    /// 8xy5: subtracts Vy from Vx, wrapping around; VF becomes 1 when no
    /// borrow occurs.
    fn op_8xy5(&mut self, x: u8, y: u8)
        requires
            old(self).wf(),
            fetchable(old(self)@),
            x < 16,
            y < 16,
        ensures
            final(self).wf(),
            apply_op(old(self)@, Instruction::Sub { x, y }, 0) == Ok::<Machine, Fault>(final(self)@),
    {
        let a = self.v[x as usize];
        let b = self.v[y as usize];
        let no_borrow: u8 = if a >= b { 1 } else { 0 };
        self.v[x as usize] = a.wrapping_sub(b);
        self.v[15] = no_borrow;
        self.advance_pc();
    }

    /// 8xy6: VF becomes the low bit of Vx, then Vx is shifted right by one.
    fn op_8xy6(&mut self, x: u8, y: u8)
        requires
            old(self).wf(),
            fetchable(old(self)@),
            x < 16,
            y < 16,
        ensures
            final(self).wf(),
            apply_op(old(self)@, Instruction::Shr { x, y }, 0) == Ok::<Machine, Fault>(final(self)@),
    {
        let a = self.v[x as usize];
        assert(a & 1 == a % 2) by (bit_vector);
        self.v[15] = a & 1;
        let b = self.v[x as usize];
        assert(b >> 1 == b / 2) by (bit_vector);
        self.v[x as usize] = b >> 1;
        self.advance_pc();
    }

    /// 8xy7: Vx becomes Vy minus Vx, wrapping around; VF becomes 1 when no
    /// borrow occurs.
    fn op_8xy7(&mut self, x: u8, y: u8)
        requires
            old(self).wf(),
            fetchable(old(self)@),
            x < 16,
            y < 16,
        ensures
            final(self).wf(),
            apply_op(old(self)@, Instruction::Subn { x, y }, 0) == Ok::<Machine, Fault>(final(self)@),
    {
        let a = self.v[x as usize];
        let b = self.v[y as usize];
        let no_borrow: u8 = if b >= a { 1 } else { 0 };
        self.v[x as usize] = b.wrapping_sub(a);
        self.v[15] = no_borrow;
        self.advance_pc();
    }

    /// 8xyE: VF becomes the high bit of Vx, then Vx is shifted left by one.
    fn op_8xye(&mut self, x: u8, y: u8)
        requires
            old(self).wf(),
            fetchable(old(self)@),
            x < 16,
            y < 16,
        ensures
            final(self).wf(),
            apply_op(old(self)@, Instruction::Shl { x, y }, 0) == Ok::<Machine, Fault>(final(self)@),
    {
        let a = self.v[x as usize];
        assert(a >> 7 == a / 128) by (bit_vector);
        self.v[15] = a >> 7;
        let b = self.v[x as usize];
        assert(b << 1 == ((b * 2) % 256) as u8) by (bit_vector);
        self.v[x as usize] = b << 1;
        self.advance_pc();
    }

    /// 9xy0: skips the next instruction if Vx differs from Vy.
    fn op_9xy0(&mut self, x: u8, y: u8)
        requires
            old(self).wf(),
            fetchable(old(self)@),
            x < 16,
            y < 16,
        ensures
            final(self).wf(),
            apply_op(old(self)@, Instruction::SneReg { x, y }, 0) == Ok::<Machine, Fault>(final(self)@),
    {
        if self.v[x as usize] != self.v[y as usize] {
            self.advance_pc();
        }
        self.advance_pc();
    }

    /// Annn: loads `nnn` into I.
    fn op_annn(&mut self, nnn: u16)
        requires
            old(self).wf(),
            fetchable(old(self)@),
        ensures
            final(self).wf(),
            apply_op(old(self)@, Instruction::LdI { nnn }, 0) == Ok::<Machine, Fault>(final(self)@),
    {
        self.i = nnn;
        self.advance_pc();
    }

    /// Bnnn: jumps to `nnn` plus V0.
    fn op_bnnn(&mut self, nnn: u16)
        requires
            old(self).wf(),
            fetchable(old(self)@),
            nnn < 0x1000,
        ensures
            final(self).wf(),
            apply_op(old(self)@, Instruction::JpV0 { nnn }, 0) == Ok::<Machine, Fault>(final(self)@),
    {
        self.pc = nnn + self.v[0] as u16;
    }

    /// Cxkk: Vx becomes the random byte `rnd` masked with `kk`.
    fn op_cxkk(&mut self, x: u8, kk: u8, rnd: u8)
        requires
            old(self).wf(),
            fetchable(old(self)@),
            x < 16,
        ensures
            final(self).wf(),
            apply_op(old(self)@, Instruction::Rnd { x, kk }, rnd) == Ok::<Machine, Fault>(final(self)@),
    {
        self.v[x as usize] = rnd & kk;
        self.advance_pc();
    }
    /// Whether key `k` (any byte) is a keypad key that is pressed.
    fn key_is_down(&self, k: u8) -> (r: bool)
        requires
            self.wf(),
        ensures
            r == key_down(self@, k as int),
    {
        (k as usize) < KEY_COUNT && self.keyboard[k as usize]
    }

    /// Ex9E: skips the next instruction if the key numbered Vx is pressed.
    fn op_ex9e(&mut self, x: u8)
        requires
            old(self).wf(),
            fetchable(old(self)@),
            x < 16,
        ensures
            final(self).wf(),
            apply_op(old(self)@, Instruction::Skp { x }, 0) == Ok::<Machine, Fault>(final(self)@),
    {
        if self.key_is_down(self.v[x as usize]) {
            self.advance_pc();
        }
        self.advance_pc();
    }

    /// ExA1: skips the next instruction if the key numbered Vx is not pressed.
    fn op_exa1(&mut self, x: u8)
        requires
            old(self).wf(),
            fetchable(old(self)@),
            x < 16,
        ensures
            final(self).wf(),
            apply_op(old(self)@, Instruction::Sknp { x }, 0) == Ok::<Machine, Fault>(final(self)@),
    {
        if !self.key_is_down(self.v[x as usize]) {
            self.advance_pc();
        }
        self.advance_pc();
    }

    /// Fx07: loads the delay timer into Vx.
    fn op_fx07(&mut self, x: u8)
        requires
            old(self).wf(),
            fetchable(old(self)@),
            x < 16,
        ensures
            final(self).wf(),
            apply_op(old(self)@, Instruction::LdVxDt { x }, 0) == Ok::<Machine, Fault>(final(self)@),
    {
        self.v[x as usize] = self.delay_timer;
        self.advance_pc();
    }

    /// Fx0A: waits for a key. While none is pressed `pc` stays, so that the
    /// instruction runs again on the next cycle; otherwise the lowest pressed
    /// key goes to Vx.
    fn op_fx0a(&mut self, x: u8)
        requires
            old(self).wf(),
            fetchable(old(self)@),
            x < 16,
        ensures
            final(self).wf(),
            apply_op(old(self)@, Instruction::LdVxK { x }, 0) == Ok::<Machine, Fault>(final(self)@),
    {
        let mut k: usize = 0;
        while k < KEY_COUNT && !self.keyboard[k]
            invariant
                self.wf(),
                *self == *old(self),
                k <= KEY_COUNT,
                forall|j: int| 0 <= j < k ==> !#[trigger] key_down(self@, j),
            decreases KEY_COUNT - k,
        {
            k += 1;
        }
        if k == KEY_COUNT {
            assert(!any_key_down(self@));
            return;
        }
        proof {
            let m = self@;
            assert(is_lowest_key(m, k as int));
            let c = lowest_key(m);
            assert(is_lowest_key(m, c));
            if c < k {
                assert(!key_down(m, c));
            } else if c > k {
                assert(!key_down(m, k as int));
            }
            assert(c == k);
        }
        self.v[x as usize] = k as u8;
        self.advance_pc();
    }

    /// Fx15: loads Vx into the delay timer.
    fn op_fx15(&mut self, x: u8)
        requires
            old(self).wf(),
            fetchable(old(self)@),
            x < 16,
        ensures
            final(self).wf(),
            apply_op(old(self)@, Instruction::LdDtVx { x }, 0) == Ok::<Machine, Fault>(final(self)@),
    {
        self.delay_timer = self.v[x as usize];
        self.advance_pc();
    }

    /// Fx18: loads Vx into the sound timer.
    fn op_fx18(&mut self, x: u8)
        requires
            old(self).wf(),
            fetchable(old(self)@),
            x < 16,
        ensures
            final(self).wf(),
            apply_op(old(self)@, Instruction::LdStVx { x }, 0) == Ok::<Machine, Fault>(final(self)@),
    {
        self.sound_timer = self.v[x as usize];
        self.advance_pc();
    }

    /// Fx1E: adds Vx to I, wrapping around at 16 bits.
    fn op_fx1e(&mut self, x: u8)
        requires
            old(self).wf(),
            fetchable(old(self)@),
            x < 16,
        ensures
            final(self).wf(),
            apply_op(old(self)@, Instruction::AddIVx { x }, 0) == Ok::<Machine, Fault>(final(self)@),
    {
        self.i = self.i.wrapping_add(self.v[x as usize] as u16);
        self.advance_pc();
    }

    /// Fx29: points I at the font glyph of the digit in Vx.
    fn op_fx29(&mut self, x: u8)
        requires
            old(self).wf(),
            fetchable(old(self)@),
            x < 16,
        ensures
            final(self).wf(),
            apply_op(old(self)@, Instruction::LdFVx { x }, 0) == Ok::<Machine, Fault>(final(self)@),
    {
        self.i = SPRITE_START + self.v[x as usize] as u16 * 5;
        self.advance_pc();
    }

    /// Fx33: stores the hundreds, tens and units digits of Vx at I, I+1 and
    /// I+2.
    fn op_fx33(&mut self, x: u8) -> (r: Result<(), Fault>)
        requires
            old(self).wf(),
            fetchable(old(self)@),
            x < 16,
        ensures
            final(self).wf(),
            follows(old(self)@, final(self)@, r, apply_op(old(self)@, Instruction::LdBVx { x }, 0)),
    {
        let base = self.i as usize;
        if base + 3 > MEMORY_SIZE {
            return Err(Fault::AddressOutOfRange);
        }
        let val = self.v[x as usize];
        self.memory[base] = val / 100;
        self.memory[base + 1] = (val / 10) % 10;
        self.memory[base + 2] = val % 10;
        self.advance_pc();
        Ok(())
    }

    /// Fx55: stores V0 through Vx in memory starting at I. I itself is left
    /// unchanged.
    fn op_fx55(&mut self, x: u8) -> (r: Result<(), Fault>)
        requires
            old(self).wf(),
            fetchable(old(self)@),
            x < 16,
        ensures
            final(self).wf(),
            follows(old(self)@, final(self)@, r, apply_op(old(self)@, Instruction::LdMemVx { x }, 0)),
    {
        let base = self.i as usize;
        if base + x as usize + 1 > MEMORY_SIZE {
            return Err(Fault::AddressOutOfRange);
        }
        let mut k: usize = 0;
        while k <= x as usize
            invariant
                self.wf(),
                k <= x + 1,
                base == self.i,
                base + x + 1 <= MEMORY_SIZE,
                x < 16,
                self@ == (Machine { memory: self@.memory, ..old(self)@ }),
                forall|a: int|
                    0 <= a < MEMORY_SIZE ==> #[trigger] self@.memory[a] == if base <= a < base + k {
                        old(self)@.v[a - base]
                    } else {
                        old(self)@.memory[a]
                    },
            decreases x + 1 - k,
        {
            self.memory[base + k] = self.v[k];
            k += 1;
        }
        let ghost m = old(self)@;
        assert(self@.memory =~= Seq::new(
            MEMORY_SIZE as nat,
            |a: int|
                if m.i <= a <= m.i + x {
                    m.v[a - m.i]
                } else {
                    m.memory[a]
                },
        ));
        self.advance_pc();
        Ok(())
    }

    /// Fx65: loads V0 through Vx from memory starting at I. I itself is left
    /// unchanged.
    fn op_fx65(&mut self, x: u8) -> (r: Result<(), Fault>)
        requires
            old(self).wf(),
            fetchable(old(self)@),
            x < 16,
        ensures
            final(self).wf(),
            follows(old(self)@, final(self)@, r, apply_op(old(self)@, Instruction::LdVxMem { x }, 0)),
    {
        let base = self.i as usize;
        if base + x as usize + 1 > MEMORY_SIZE {
            return Err(Fault::AddressOutOfRange);
        }
        let mut k: usize = 0;
        while k <= x as usize
            invariant
                self.wf(),
                k <= x + 1,
                base == self.i,
                base + x + 1 <= MEMORY_SIZE,
                x < 16,
                self@ == (Machine { v: self@.v, ..old(self)@ }),
                forall|j: int|
                    0 <= j < REGISTER_COUNT ==> #[trigger] self@.v[j] == if j < k {
                        old(self)@.memory[base + j]
                    } else {
                        old(self)@.v[j]
                    },
            decreases x + 1 - k,
        {
            self.v[k] = self.memory[base + k];
            k += 1;
        }
        let ghost m = old(self)@;
        assert(self@.v =~= Seq::new(
            REGISTER_COUNT as nat,
            |j: int|
                if j <= x {
                    m.memory[m.i + j]
                } else {
                    m.v[j]
                },
        ));
        self.advance_pc();
        Ok(())
    }
    /// Dxyn: XORs the `n`-row sprite read from memory at I onto the
    /// framebuffer at (Vx, Vy), wrapping around the edges; VF becomes 1 when
    /// a pixel was turned off, else 0.
    fn op_dxyn(&mut self, x: u8, y: u8, n: u8) -> (r: Result<(), Fault>)
        requires
            old(self).wf(),
            fetchable(old(self)@),
            x < 16,
            y < 16,
            n < 16,
        ensures
            final(self).wf(),
            follows(old(self)@, final(self)@, r, apply_op(old(self)@, Instruction::Drw { x, y, n }, 0)),
    {
        let base = self.i as usize;
        if base + n as usize > MEMORY_SIZE {
            return Err(Fault::AddressOutOfRange);
        }
        let vx = self.v[x as usize];
        let vy = self.v[y as usize];
        let ghost m = self@;
        let mut collision = false;
        let mut row: usize = 0;
        while row < n as usize
            invariant
                self.wf(),
                m.wf(),
                row <= n,
                n < 16,
                base == m.i,
                base + n <= MEMORY_SIZE,
                self@ == (Machine { display: self@.display, ..m }),
                forall|p: int|
                    0 <= p < SCREEN_PIXELS ==> #[trigger] self@.display[p] == (m.display[p] != (
                    sprite_covers(m, vx, vy, n, p) && visited(p, vx, vy, row as int, 0))),
                collision == exists|p: int|
                    0 <= p < SCREEN_PIXELS && m.display[p] && #[trigger] sprite_covers(
                        m,
                        vx,
                        vy,
                        n,
                        p,
                    ) && visited(p, vx, vy, row as int, 0),
            decreases n - row,
        {
            let sprite_byte = self.memory[base + row];
            let mut col: usize = 0;
            while col < 8
                invariant
                    self.wf(),
                    m.wf(),
                    row < n,
                    n < 16,
                    col <= 8,
                    base == m.i,
                    base + n <= MEMORY_SIZE,
                    sprite_byte == m.memory[base + row],
                    self@ == (Machine { display: self@.display, ..m }),
                    forall|p: int|
                        0 <= p < SCREEN_PIXELS ==> #[trigger] self@.display[p] == (m.display[p]
                            != (sprite_covers(m, vx, vy, n, p) && visited(
                            p,
                            vx,
                            vy,
                            row as int,
                            col as int,
                        ))),
                    collision == exists|p: int|
                        0 <= p < SCREEN_PIXELS && m.display[p] && #[trigger] sprite_covers(
                            m,
                            vx,
                            vy,
                            n,
                            p,
                        ) && visited(p, vx, vy, row as int, col as int),
                decreases 8 - col,
            {
                let px = (vx as usize + col) % SCREEN_WIDTH;
                let py = (vy as usize + row) % SCREEN_HEIGHT;
                let idx = py * SCREEN_WIDTH + px;
                proof {
                    lemma_sprite_pixel(vx as int, vy as int, col as int, row as int, idx as int);
                    assert forall|q: int|
                        0 <= q < SCREEN_PIXELS && sprite_row(q, vy) == row && sprite_col(q, vx)
                            == col implies q == idx by {
                        lemma_sprite_pixel_unique(
                            vx as int,
                            vy as int,
                            col as int,
                            row as int,
                            idx as int,
                            q,
                        );
                    }
                }
                let ghost before = self@.display;
                let ghost old_collision = collision;
                if (sprite_byte >> (7 - col as u8)) & 1 == 1 {
                    assert(sprite_covers(m, vx, vy, n, idx as int));
                    let lit = self.display[idx];
                    if lit {
                        collision = true;
                    }
                    self.display[idx] = !lit;
                } else {
                    assert(!sprite_covers(m, vx, vy, n, idx as int));
                }
                assert forall|p: int| 0 <= p < SCREEN_PIXELS implies #[trigger] self@.display[p]
                    == (m.display[p] != (sprite_covers(m, vx, vy, n, p) && visited(
                    p,
                    vx,
                    vy,
                    row as int,
                    col + 1,
                ))) by {
                    if p != idx {
                        assert(before[p] == self@.display[p]);
                    }
                }
                proof {
                    if collision && !old_collision {
                        assert(m.display[idx as int] && sprite_covers(m, vx, vy, n, idx as int)
                            && visited(idx as int, vx, vy, row as int, col + 1));
                    }
                    if old_collision {
                        let q = choose|q: int|
                            0 <= q < SCREEN_PIXELS && m.display[q] && #[trigger] sprite_covers(
                                m,
                                vx,
                                vy,
                                n,
                                q,
                            ) && visited(q, vx, vy, row as int, col as int);
                        assert(visited(q, vx, vy, row as int, col + 1));
                    }
                }
                col += 1;
            }
            assert forall|p: int| 0 <= p < SCREEN_PIXELS implies (sprite_covers(m, vx, vy, n, p)
                && visited(p, vx, vy, row as int, 8)) == (#[trigger] sprite_covers(m, vx, vy, n, p)
                && visited(p, vx, vy, row + 1, 0)) by {}
            row += 1;
        }
        assert forall|p: int| 0 <= p < SCREEN_PIXELS implies (sprite_covers(m, vx, vy, n, p)
            && visited(p, vx, vy, n as int, 0)) == #[trigger] sprite_covers(m, vx, vy, n, p) by {}
        assert(self@.display =~= drawn(m, vx, vy, n));
        assert(collision == collides(m, vx, vy, n));
        self.v[15] = if collision { 1 } else { 0 };
        self.display_change = true;
        self.advance_pc();
        Ok(())
    }
    /// Executes `op` as the instruction at `pc`, with `rnd` as the byte that
    /// `Rnd` draws. On a fault the machine is left unchanged.
    pub fn execute_op(&mut self, op: Instruction, rnd: u8) -> (r: Result<(), Fault>)
        requires
            old(self).wf(),
            operands_in_range(op),
        ensures
            final(self).wf(),
            follows(old(self)@, final(self)@, r, exec_spec(old(self)@, op, rnd)),
    {
        if self.pc as usize + 1 >= MEMORY_SIZE {
            return Err(Fault::AddressOutOfRange);
        }
        match op {
            Instruction::Sys { nnn } => {
                self.op_0nnn(nnn);
                Ok(())
            },
            Instruction::Cls => {
                self.op_00e0();
                Ok(())
            },
            Instruction::Ret => self.op_00ee(),
            Instruction::Jp { nnn } => {
                self.op_1nnn(nnn);
                Ok(())
            },
            Instruction::Call { nnn } => self.op_2nnn(nnn),
            Instruction::SeImm { x, kk } => {
                self.op_3xkk(x, kk);
                Ok(())
            },
            Instruction::SneImm { x, kk } => {
                self.op_4xkk(x, kk);
                Ok(())
            },
            Instruction::SeReg { x, y } => {
                self.op_5xy0(x, y);
                Ok(())
            },
            Instruction::LdImm { x, kk } => {
                self.op_6xkk(x, kk);
                Ok(())
            },
            Instruction::AddImm { x, kk } => {
                self.op_7xkk(x, kk);
                Ok(())
            },
            Instruction::LdReg { x, y } => {
                self.op_8xy0(x, y);
                Ok(())
            },
            Instruction::Or { x, y } => {
                self.op_8xy1(x, y);
                Ok(())
            },
            Instruction::And { x, y } => {
                self.op_8xy2(x, y);
                Ok(())
            },
            Instruction::Xor { x, y } => {
                self.op_8xy3(x, y);
                Ok(())
            },
            Instruction::AddReg { x, y } => {
                self.op_8xy4(x, y);
                Ok(())
            },
            Instruction::Sub { x, y } => {
                self.op_8xy5(x, y);
                Ok(())
            },
            Instruction::Shr { x, y } => {
                self.op_8xy6(x, y);
                Ok(())
            },
            Instruction::Subn { x, y } => {
                self.op_8xy7(x, y);
                Ok(())
            },
            Instruction::Shl { x, y } => {
                self.op_8xye(x, y);
                Ok(())
            },
            Instruction::SneReg { x, y } => {
                self.op_9xy0(x, y);
                Ok(())
            },
            Instruction::LdI { nnn } => {
                self.op_annn(nnn);
                Ok(())
            },
            Instruction::JpV0 { nnn } => {
                self.op_bnnn(nnn);
                Ok(())
            },
            Instruction::Rnd { x, kk } => {
                self.op_cxkk(x, kk, rnd);
                Ok(())
            },
            Instruction::Drw { x, y, n } => self.op_dxyn(x, y, n),
            Instruction::Skp { x } => {
                self.op_ex9e(x);
                Ok(())
            },
            Instruction::Sknp { x } => {
                self.op_exa1(x);
                Ok(())
            },
            Instruction::LdVxDt { x } => {
                self.op_fx07(x);
                Ok(())
            },
            Instruction::LdVxK { x } => {
                self.op_fx0a(x);
                Ok(())
            },
            Instruction::LdDtVx { x } => {
                self.op_fx15(x);
                Ok(())
            },
            Instruction::LdStVx { x } => {
                self.op_fx18(x);
                Ok(())
            },
            Instruction::AddIVx { x } => {
                self.op_fx1e(x);
                Ok(())
            },
            Instruction::LdFVx { x } => {
                self.op_fx29(x);
                Ok(())
            },
            Instruction::LdBVx { x } => self.op_fx33(x),
            Instruction::LdMemVx { x } => self.op_fx55(x),
            Instruction::LdVxMem { x } => self.op_fx65(x),
            Instruction::Invalid { .. } => {
                self.advance_pc();
                Ok(())
            },
        }
    }

    /// Decodes `instruction` and executes it as the instruction at `pc`. A
    /// random byte is drawn for `Rnd` only; whatever it is, the result is the
    /// model's for that byte. On a fault the machine is left unchanged.
    pub fn execute_instruction(&mut self, instruction: u16) -> (r: Result<(), Fault>)
        requires
            old(self).wf(),
        ensures
            final(self).wf(),
            exists|rnd: u8|
                follows(
                    old(self)@,
                    final(self)@,
                    r,
                    #[trigger] exec_spec(old(self)@, decode_spec(instruction), rnd),
                ),
    {
        let op = decode(instruction);
        let rnd = match op {
            Instruction::Rnd { .. } => random_byte(),
            _ => 0,
        };
        let r = self.execute_op(op, rnd);
        assert(follows(old(self)@, self@, r, exec_spec(old(self)@, decode_spec(instruction), rnd)));
        r
    }

    /// One cycle: fetches the big-endian word at `pc`, decodes it and executes
    /// it. Timers are not touched. On a fault the machine is left unchanged.
    pub fn step(&mut self) -> (r: Result<(), Fault>)
        requires
            old(self).wf(),
        ensures
            final(self).wf(),
            exists|rnd: u8|
                follows(old(self)@, final(self)@, r, #[trigger] step_spec(old(self)@, rnd)),
    {
        if self.pc as usize + 1 >= MEMORY_SIZE {
            assert(follows(old(self)@, self@, Err(Fault::AddressOutOfRange), step_spec(old(self)@, 0)));
            return Err(Fault::AddressOutOfRange);
        }
        let pc = self.pc as usize;
        let word = self.memory[pc] as u16 * 256 + self.memory[pc + 1] as u16;
        assert(word == fetch_spec(self@));
        let ghost m0 = self@;
        let r = self.execute_instruction(word);
        proof {
            let rnd = choose|rnd: u8|
                follows(m0, self@, r, #[trigger] exec_spec(m0, decode_spec(word), rnd));
            assert(follows(m0, self@, r, step_spec(m0, rnd)));
        }
        r
    }

    /// One timer tick: each nonzero timer goes down by one.
    pub fn tick_timers(&mut self)
        requires
            old(self).wf(),
        ensures
            final(self).wf(),
            final(self)@ == tick_spec(old(self)@),
    {
        self.delay_timer = decay(self.delay_timer, 1);
        self.sound_timer = decay(self.sound_timer, 1);
    }

    /// One frame of the execution loop, after the keypad has been updated: a
    /// cycle, then `timer_ticks` timer ticks. The report says whether the
    /// framebuffer must be presented (the dirty flag is cleared, as the
    /// caller presents it) and whether the tone must sound. On a fault the
    /// machine is left unchanged.
    pub fn run_frame(&mut self, timer_ticks: u64) -> (r: Result<FrameReport, Fault>)
        requires
            old(self).wf(),
        ensures
            final(self).wf(),
            exists|rnd: u8|
                frame_follows(
                    old(self)@,
                    final(self)@,
                    r,
                    #[trigger] frame_spec(old(self)@, timer_ticks as nat, rnd),
                ),
    {
        let ghost m0 = self@;
        match self.step() {
            Err(f) => {
                let ghost rnd = choose|rnd: u8| follows(m0, self@, Err(f), #[trigger] step_spec(m0, rnd));
                assert(frame_follows(m0, self@, Err(f), frame_spec(m0, timer_ticks as nat, rnd)));
                return Err(f);
            },
            Ok(()) => {},
        }
        let ghost rnd = choose|rnd: u8| follows(m0, self@, Ok(()), #[trigger] step_spec(m0, rnd));
        let ghost m1 = self@;
        self.delay_timer = decay(self.delay_timer, timer_ticks);
        self.sound_timer = decay(self.sound_timer, timer_ticks);
        proof {
            timers_decay(m1, timer_ticks as nat);
        }
        let redraw = self.display_change;
        self.display_change = false;
        let report = FrameReport { redraw, sound_active: self.sound_timer != 0 };
        assert(frame_follows(m0, self@, Ok(report), frame_spec(m0, timer_ticks as nat, rnd)));
        Ok(report)
    }

    /// Marks key `k` pressed.
    pub fn press_key(&mut self, k: u8)
        requires
            old(self).wf(),
            k < KEY_COUNT,
        ensures
            final(self).wf(),
            final(self)@ == (Machine { keys: old(self)@.keys.update(k as int, true), ..old(self)@ }),
    {
        self.keyboard[k as usize] = true;
    }

    /// Marks key `k` released.
    pub fn release_key(&mut self, k: u8)
        requires
            old(self).wf(),
            k < KEY_COUNT,
        ensures
            final(self).wf(),
            final(self)@ == (Machine { keys: old(self)@.keys.update(k as int, false), ..old(self)@ }),
    {
        self.keyboard[k as usize] = false;
    }

    /// Resets the machine and copies `rom` into memory at the program start.
    /// A program that does not fit is refused and the machine left unchanged.
    pub fn load_program(&mut self, rom: &[u8]) -> (r: Result<(), LoadError>)
        requires
            old(self).wf(),
        ensures
            final(self).wf(),
            match load_spec(rom@) {
                Some(m) => r is Ok && final(self)@ == m,
                None => r == Err::<(), LoadError>(LoadError::RomTooLarge) && final(self)@ == old(self)@,
            },
    {
        if rom.len() > MEMORY_SIZE - PROGRAM_START as usize {
            return Err(LoadError::RomTooLarge);
        }
        let mut fresh = Processor::new();
        let start = PROGRAM_START as usize;
        let mut pos: usize = 0;
        while pos < rom.len()
            invariant
                fresh.wf(),
                pos <= rom@.len(),
                start + rom@.len() <= MEMORY_SIZE,
                start == PROGRAM_START,
                fresh@ == (Machine { memory: fresh@.memory, ..initial_machine() }),
                forall|a: int|
                    0 <= a < MEMORY_SIZE ==> #[trigger] fresh@.memory[a] == if start <= a < start
                        + pos {
                        rom@[a - start]
                    } else {
                        initial_memory()[a]
                    },
            decreases rom@.len() - pos,
        {
            fresh.memory[start + pos] = rom[pos];
            pos += 1;
        }
        assert(fresh@.memory =~= load_spec(rom@).unwrap().memory);
        *self = fresh;
        Ok(())
    }

    /// The program counter.
    pub fn pc(&self) -> (r: u16)
        ensures
            r == self@.pc,
    {
        self.pc
    }

    /// The index register I.
    pub fn index_register(&self) -> (r: u16)
        ensures
            r == self@.i,
    {
        self.i
    }

    /// General register Vx.
    pub fn register(&self, x: u8) -> (r: u8)
        requires
            self.wf(),
            x < REGISTER_COUNT,
        ensures
            r == self@.v[x as int],
    {
        self.v[x as usize]
    }

    /// The delay timer.
    pub fn delay_timer(&self) -> (r: u8)
        ensures
            r == self@.delay_timer,
    {
        self.delay_timer
    }

    /// The sound timer.
    pub fn sound_timer(&self) -> (r: u8)
        ensures
            r == self@.sound_timer,
    {
        self.sound_timer
    }

    /// The number of return addresses on the call stack.
    pub fn stack_depth(&self) -> (r: usize)
        ensures
            r == self@.stack.len(),
    {
        self.stack.size()
    }

    /// The whole memory.
    pub fn memory(&self) -> (r: &[u8])
        ensures
            r@ == self@.memory,
    {
        self.memory.as_slice()
    }

    /// The framebuffer, row by row: pixel (x, y) at `y * 64 + x`.
    pub fn framebuffer(&self) -> (r: &[bool])
        ensures
            r@ == self@.display,
    {
        self.display.as_slice()
    }

    /// Whether pixel (x, y) is on.
    pub fn pixel(&self, x: usize, y: usize) -> (r: bool)
        requires
            self.wf(),
            x < SCREEN_WIDTH,
            y < SCREEN_HEIGHT,
        ensures
            r == self@.display[y * SCREEN_WIDTH + x],
    {
        self.display[y * SCREEN_WIDTH + x]
    }

    /// Whether the framebuffer changed since it was last handed over.
    pub fn display_changed(&self) -> (r: bool)
        ensures
            r == self@.dirty,
    {
        self.display_change
    }

    /// Whether key `k` is pressed.
    pub fn is_key_pressed(&self, k: u8) -> (r: bool)
        requires
            self.wf(),
        ensures
            r == key_down(self@, k as int),
    {
        self.key_is_down(k)
    }
}

} // verus!
