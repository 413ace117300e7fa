use vstd::prelude::*;
use crate::instruction::{decode_spec, Instruction};
use crate::machine::{font, initial_machine, Machine, FLAG, FONT_SIZE, SCREEN_SIZE, STACK_DEPTH};
use crate::semantics::{collides, run, sprite_covers, step_spec, word_at, wrap16};

verus! {

/// `7XKK` adds KK to Vx modulo 256 and changes no other register, the flag
/// included; apart from the program counter moving on, nothing else changes.
pub proof fn lemma_add_immediate(m: Machine, x: u8, kk: u8, rnd: u8)
    requires
        x < 16,
        m.v.len() == 16,
    ensures
        ({
            let r = run(m, Instruction::AddImm { x, kk }, rnd);
            &&& r.v[x as int] == (m.v[x as int] + kk) % 256
            &&& r.v.len() == 16
            &&& forall|k: int| 0 <= k < 16 && k != x ==> r.v[k] == m.v[k]
            &&& r.pc == wrap16(m.pc + 2)
            &&& r == (Machine { v: r.v, pc: r.pc, ..m })
        }),
{
}

/// `8XY5` with Vx > Vy sets VF to 1 and Vx to Vx - Vy; otherwise it sets VF to 0
/// and leaves Vx as it was (for any X but VF itself).
pub proof fn lemma_subtract(m: Machine, x: u8, y: u8, rnd: u8)
    requires
        x < 15,
        y < 16,
        m.v.len() == 16,
    ensures
        ({
            let r = run(m, Instruction::Sub { x, y }, rnd);
            if m.v[x as int] > m.v[y as int] {
                r.v[FLAG as int] == 1 && r.v[x as int] == m.v[x as int] - m.v[y as int]
            } else {
                r.v[FLAG as int] == 0 && r.v[x as int] == m.v[x as int]
            }
        }),
{
}

/// Drawing the same sprite at the same place twice gives back the framebuffer
/// as it was. On a blank framebuffer the first draw reports no collision and the
/// second reports one exactly when the sprite has a set pixel. The coordinates
/// must not be read from VF, which the first draw overwrites.
pub proof fn lemma_draw_twice(m: Machine, x: u8, y: u8, n: u8, rnd: u8)
    requires
        x < 15,
        y < 15,
        n < 16,
        m.v.len() == 16,
        m.screen.len() == SCREEN_SIZE,
    ensures
        ({
            let ins = Instruction::Draw { x, y, n };
            let once = run(m, ins, rnd);
            let twice = run(once, ins, rnd);
            &&& twice.screen == m.screen
            &&& (forall|p: int| 0 <= p < SCREEN_SIZE ==> m.screen[p] == 0u32) ==> {
                &&& once.v[FLAG as int] == 0
                &&& twice.v[FLAG as int] == 1 <==> exists|p: int|
                    0 <= p < SCREEN_SIZE && #[trigger] sprite_covers(
                        m.memory,
                        m.i,
                        m.v[x as int],
                        m.v[y as int],
                        n,
                        p,
                    )
            }
        }),
{
    let ins = Instruction::Draw { x, y, n };
    let once = run(m, ins, rnd);
    let twice = run(once, ins, rnd);
    let vx = m.v[x as int];
    let vy = m.v[y as int];
    assert(once.v[x as int] == vx && once.v[y as int] == vy);
    assert forall|p: int| 0 <= p < SCREEN_SIZE implies #[trigger] twice.screen[p] == m.screen[p] by {
        let c = m.screen[p];
        assert(c ^ 0xFFFF_FFFFu32 ^ 0xFFFF_FFFFu32 == c) by (bit_vector);
    }
    assert(twice.screen =~= m.screen);
    if forall|p: int| 0 <= p < SCREEN_SIZE ==> m.screen[p] == 0u32 {
        assert(!collides(m.screen, m.memory, m.i, vx, vy, n));
        assert forall|p: int| 0 <= p < SCREEN_SIZE && #[trigger] sprite_covers(m.memory, m.i, vx, vy, n, p)
            implies once.screen[p] != 0 by {
            assert(0u32 ^ 0xFFFF_FFFFu32 != 0) by (bit_vector);
        }
        if exists|p: int| 0 <= p < SCREEN_SIZE && #[trigger] sprite_covers(m.memory, m.i, vx, vy, n, p) {
            let p = choose|p: int|
                0 <= p < SCREEN_SIZE && #[trigger] sprite_covers(m.memory, m.i, vx, vy, n, p);
            assert(once.screen[p] != 0);
            assert(collides(once.screen, m.memory, m.i, vx, vy, n));
        }
    }
}

/// A call followed by a return comes back to the instruction after the call,
/// with the stack as it was, unless the stack was already full.
pub proof fn lemma_call_return(m: Machine, addr: u16, rnd: u8)
    requires
        addr < 0x1000,
        m.stack.len() < STACK_DEPTH,
    ensures
        ({
            let called = run(m, Instruction::Call { addr }, rnd);
            let back = run(called, Instruction::Return, rnd);
            &&& called.stack.len() == m.stack.len() + 1
            &&& back.pc == wrap16(m.pc + 2)
            &&& back.stack == m.stack
            &&& back.sp == m.stack.len()
        }),
{
    let called = run(m, Instruction::Call { addr }, rnd);
    assert(called.stack.drop_last() =~= m.stack);
}

/// A step that does not load the delay timer counts it down by exactly one when
/// it is positive and leaves it at zero otherwise.
pub proof fn lemma_timer(m: Machine, rnd: u8)
    requires
        !(decode_spec(word_at(m)) is SetDelay),
    ensures
        ({
            let r = step_spec(m, rnd);
            &&& r.dt <= m.dt
            &&& r.dt + 1 >= m.dt
            &&& m.dt > 0 ==> r.dt == m.dt - 1
            &&& m.dt == 0 ==> r.dt == 0
        }),
{
}

/// After power-on the first 80 bytes of memory hold the font, starting with the
/// glyph of 0.
pub proof fn lemma_font_loaded()
    ensures
        initial_machine().memory.subrange(0, FONT_SIZE as int) == font(),
        font().subrange(0, 5) == seq![0xF0u8, 0x90, 0x90, 0x90, 0xF0],
{
    assert(initial_machine().memory.subrange(0, FONT_SIZE as int) =~= font());
    assert(font().subrange(0, 5) =~= seq![0xF0u8, 0x90, 0x90, 0x90, 0xF0]);
}

} // verus!
