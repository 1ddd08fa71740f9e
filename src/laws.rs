//! Properties of the machine model that relate several operations.
use vstd::prelude::*;
use crate::opcode::{decode_spec, encode_spec, nibble, operands_in_range, Instruction};
use crate::machine::{
    any_key_down, apply_op, blank_display, decayed, exec_spec, fetchable, is_lowest_key, key_down,
    load_spec, lowest_key, sprite_covers, ticks_spec, Machine, MEMORY_SIZE, PROGRAM_START,
    Fault, SCREEN_PIXELS, STACK_DEPTH,
};

verus! {

/// Decoding is total: every word decodes to one operation, with operands in
/// range, or to `Invalid` carrying the word. The operation is exactly the one
/// the word denotes: encoding it gives the word back, so no two words share
/// an operation. Being a function of the word alone, decoding the same word
/// twice gives the same result.
pub proof fn decode_total(w: u16)
    ensures
        operands_in_range(decode_spec(w)),
        encode_spec(decode_spec(w)) == w,
        decode_spec(w) is Invalid ==> decode_spec(w) == (Instruction::Invalid { word: w }),
{
    let (d3, d2, d1, d0) = (nibble(w, 3), nibble(w, 2), nibble(w, 1), nibble(w, 0));
    assert(w == d3 * 0x1000 + d2 * 0x100 + d1 * 0x10 + d0 && 0 <= d3 < 16 && 0 <= d2 < 16 && 0
        <= d1 < 16 && 0 <= d0 < 16) by (nonlinear_arith)
        requires
            0 <= w < 0x10000,
            d3 == (w / 4096) % 16,
            d2 == (w / 256) % 16,
            d1 == (w / 16) % 16,
            d0 == w % 16,
    ;
    assert(w % 0x100 == d1 * 0x10 + d0 && w % 0x1000 == d2 * 0x100 + d1 * 0x10 + d0)
        by (nonlinear_arith)
        requires
            w == d3 * 0x1000 + d2 * 0x100 + d1 * 0x10 + d0,
            0 <= d3 < 16,
            0 <= d2 < 16,
            0 <= d1 < 16,
            0 <= d0 < 16,
    ;
}

/// Drawing the same sprite twice at the same place restores the framebuffer:
/// every pixel the first draw turned on, the second turns off, and the second
/// draw reports a collision exactly when the first turned some pixel on. On a
/// blank screen a sprite with a set bit thus leaves the screen blank with VF =
/// 1. The coordinates must not live in VF, which the first draw overwrites.
pub proof fn drawing_twice_restores(m: Machine, x: u8, y: u8, n: u8)
    requires
        m.wf(),
        x < 15,
        y < 15,
        n < 16,
        m.i + n <= MEMORY_SIZE,
    ensures
        ({
            let op = Instruction::Drw { x, y, n };
            let (vx, vy) = (m.v[x as int], m.v[y as int]);
            let m1 = apply_op(m, op, 0)->Ok_0;
            let m2 = apply_op(m1, op, 0)->Ok_0;
            &&& apply_op(m, op, 0) is Ok
            &&& apply_op(m1, op, 0) is Ok
            &&& m2.display == m.display
            &&& m2.v[15] == if exists|p: int|
                0 <= p < SCREEN_PIXELS && !m.display[p] && #[trigger] sprite_covers(
                    m,
                    vx,
                    vy,
                    n,
                    p,
                ) {
                1u8
            } else {
                0u8
            }
            &&& (m.display == blank_display() && exists|p: int|
                0 <= p < SCREEN_PIXELS && #[trigger] sprite_covers(m, vx, vy, n, p)) ==> m2.v[15]
                == 1
        }),
{
    let op = Instruction::Drw { x, y, n };
    let (vx, vy) = (m.v[x as int], m.v[y as int]);
    let m1 = apply_op(m, op, 0)->Ok_0;
    let m2 = apply_op(m1, op, 0)->Ok_0;
    assert(m1.v[x as int] == vx && m1.v[y as int] == vy);
    assert forall|p: int| #[trigger] sprite_covers(m1, vx, vy, n, p) == sprite_covers(
        m,
        vx,
        vy,
        n,
        p,
    ) by {}
    assert(m2.display =~= m.display);
    if m.display == blank_display() {
        if exists|p: int| 0 <= p < SCREEN_PIXELS && #[trigger] sprite_covers(m, vx, vy, n, p) {
            let p = choose|p: int| 0 <= p < SCREEN_PIXELS && #[trigger] sprite_covers(m, vx, vy, n, p);
            assert(!m.display[p]);
        }
    }
}

/// A call followed by a return resumes at the instruction after the call,
/// with the call stack as before, provided the subroutine leaves the stack as
/// it found it (`s` is the machine when the return executes).
pub proof fn call_then_return(m: Machine, nnn: u16, s: Machine)
    requires
        m.wf(),
        fetchable(m),
        m.stack.len() < STACK_DEPTH,
        fetchable(s),
        s.stack == (exec_spec(m, Instruction::Call { nnn }, 0)->Ok_0).stack,
    ensures
        exec_spec(m, Instruction::Call { nnn }, 0) is Ok,
        exec_spec(s, Instruction::Ret, 0) is Ok,
        (exec_spec(s, Instruction::Ret, 0)->Ok_0).pc == m.pc + 2,
        (exec_spec(s, Instruction::Ret, 0)->Ok_0).stack == m.stack,
{
    assert(s.stack.drop_last() =~= m.stack);
}

/// Storing V0..=Vx at I and then loading V0..=Vx from the same I gives the
/// registers their stored values back and leaves the others alone, whatever
/// ran in between, as long as the stored bytes were not overwritten (`s` is
/// the machine when the load executes).
pub proof fn store_then_load_registers(m: Machine, x: u8, s: Machine)
    requires
        m.wf(),
        s.wf(),
        x < 16,
        m.i + x + 1 <= MEMORY_SIZE,
        s.i == m.i,
        forall|a: int|
            m.i <= a <= m.i + x ==> s.memory[a] == #[trigger] (apply_op(
                m,
                Instruction::LdMemVx { x },
                0,
            )->Ok_0).memory[a],
    ensures
        apply_op(m, Instruction::LdMemVx { x }, 0) is Ok,
        apply_op(s, Instruction::LdVxMem { x }, 0) is Ok,
        forall|k: int|
            0 <= k < 16 ==> #[trigger] (apply_op(s, Instruction::LdVxMem { x }, 0)->Ok_0).v[k]
                == if k <= x {
                m.v[k]
            } else {
                s.v[k]
            },
{
    let m1 = apply_op(m, Instruction::LdMemVx { x }, 0)->Ok_0;
    assert forall|k: int| 0 <= k <= x implies s.memory[m.i + k] == m.v[k] by {
        assert(m1.memory[m.i + k] == m.v[k]);
    }
}

/// Loading a program that fits places each of its bytes unmodified at the
/// program start and on, and starts execution there.
pub proof fn load_places_program(rom: Seq<u8>)
    requires
        rom.len() <= MEMORY_SIZE - PROGRAM_START,
    ensures
        load_spec(rom) is Some,
        (load_spec(rom)->Some_0).pc == PROGRAM_START,
        forall|k: int|
            0 <= k < rom.len() ==> #[trigger] (load_spec(rom)->Some_0).memory[PROGRAM_START + k]
                == rom[k],
{
}

/// Waiting for a key: while no key is pressed the operation changes nothing,
/// so `pc` stays on it and it runs again; once a key is pressed it stores the
/// lowest pressed key in Vx and moves on.
pub proof fn wait_for_key(m: Machine, x: u8)
    requires
        m.wf(),
        fetchable(m),
        x < 16,
    ensures
        !any_key_down(m) ==> exec_spec(m, Instruction::LdVxK { x }, 0) == Ok::<Machine, Fault>(m),
        any_key_down(m) ==> exec_spec(m, Instruction::LdVxK { x }, 0) is Ok && (exec_spec(
            m,
            Instruction::LdVxK { x },
            0,
        )->Ok_0).pc == m.pc + 2 && (exec_spec(m, Instruction::LdVxK { x }, 0)->Ok_0).v[x as int]
            == lowest_key(m) && is_lowest_key(m, lowest_key(m)),
{
    if any_key_down(m) {
        let k = choose|k: int| #[trigger] key_down(m, k);
        lowest_exists(m, k);
    }
}

/// Where key `k` is pressed, some key is the lowest pressed one.
proof fn lowest_exists(m: Machine, k: int)
    requires
        key_down(m, k),
    ensures
        is_lowest_key(m, lowest_key(m)),
    decreases k,
{
    if exists|j: int| 0 <= j < k && #[trigger] key_down(m, j) {
        let j = choose|j: int| 0 <= j < k && #[trigger] key_down(m, j);
        lowest_exists(m, j);
    } else {
        assert(is_lowest_key(m, k));
    }
}

/// Timers decay: after `k` ticks each timer has gone down by `k`, stopping
/// at zero and never below, and nothing else has changed.
pub proof fn timers_decay(m: Machine, k: nat)
    ensures
        ticks_spec(m, k) == (Machine {
            delay_timer: decayed(m.delay_timer, k),
            sound_timer: decayed(m.sound_timer, k),
            ..m
        }),
        ticks_spec(m, k).delay_timer == 0 <==> k >= m.delay_timer,
        ticks_spec(m, k).sound_timer == 0 <==> k >= m.sound_timer,
    decreases k,
{
    if k > 0 {
        timers_decay(m, (k - 1) as nat);
    }
}

} // verus!
