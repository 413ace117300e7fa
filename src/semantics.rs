use vstd::prelude::*;
use crate::instruction::{decode_spec, Instruction};
use crate::machine::{Machine, FLAG, KEY_COUNT, MEMORY_SIZE, SCREEN_HEIGHT, SCREEN_SIZE, SCREEN_WIDTH, STACK_DEPTH};

verus! {

/// A 16-bit register after arithmetic that wraps around.
pub open spec fn wrap16(n: int) -> u16 {
    (n % 0x10000) as u16
}

/// A memory address taken modulo the size of memory.
pub open spec fn mem_addr(n: int) -> int {
    n % (MEMORY_SIZE as int)
}

/// The framebuffer cell of the pixel at column `x`, row `y`, both wrapping around.
pub open spec fn coord_spec(x: int, y: int) -> int {
    (y % (SCREEN_HEIGHT as int)) * (SCREEN_WIDTH as int) + x % (SCREEN_WIDTH as int)
}

/// The instruction word at the program counter, high byte first.
pub open spec fn word_at(m: Machine) -> u16 {
    (m.memory[mem_addr(m.pc as int)] as int * 0x100 + m.memory[mem_addr(m.pc + 1)] as int) as u16
}

/// The fetch phase: the opcode register takes the word at the program counter.
pub open spec fn fetch_spec(m: Machine) -> Machine {
    Machine { opcode: word_at(m), ..m }
}

/// The program counter moved past one instruction.
pub open spec fn advance(m: Machine) -> Machine {
    Machine { pc: wrap16(m.pc + 2), ..m }
}

/// Skips the next instruction when `cond` holds.
pub open spec fn skip_if(m: Machine, cond: bool) -> Machine {
    if cond {
        advance(m)
    } else {
        m
    }
}

/// Register `x` set to `val`.
pub open spec fn set_reg(m: Machine, x: u8, val: u8) -> Machine {
    Machine { v: m.v.update(x as int, val), ..m }
}

/// VF set to `flag`, then register `x` set to `val` (so `val` wins when `x` is VF).
pub open spec fn set_reg_flag(m: Machine, x: u8, val: u8, flag: u8) -> Machine {
    Machine { v: m.v.update(FLAG as int, flag).update(x as int, val), ..m }
}

/// The number of the lowest held key at or above `k`, or 16 if none is held.
pub open spec fn first_key(keypad: Seq<u8>, k: int) -> int
    decreases KEY_COUNT - k,
{
    if k >= KEY_COUNT {
        KEY_COUNT as int
    } else if keypad[k] != 0 {
        k
    } else {
        first_key(keypad, k + 1)
    }
}

/// Bit `dx` of a sprite row, counted from the most significant bit.
pub open spec fn sprite_bit(row: u8, dx: int) -> bool {
    ((row >> ((7 - dx) as u8)) & 1u8) == 1u8
}

/// Whether the sprite of `n` rows at `i`, drawn at (`vx`, `vy`), covers cell `p`
/// with a set bit among the pixels drawn before row `row`, column `col`.
pub open spec fn drawn_before(
    memory: Seq<u8>,
    i: u16,
    vx: u8,
    vy: u8,
    n: u8,
    p: int,
    row: int,
    col: int,
) -> bool {
    let dy = (p / (SCREEN_WIDTH as int) - vy as int) % (SCREEN_HEIGHT as int);
    let dx = (p % (SCREEN_WIDTH as int) - vx as int) % (SCREEN_WIDTH as int);
    dy < n && dx < 8 && (dy < row || (dy == row && dx < col)) && sprite_bit(
        memory[mem_addr(i + dy)],
        dx,
    )
}

/// Whether the whole sprite covers cell `p` with a set bit.
pub open spec fn sprite_covers(memory: Seq<u8>, i: u16, vx: u8, vy: u8, n: u8, p: int) -> bool {
    drawn_before(memory, i, vx, vy, n, p, n as int, 0)
}

/// The framebuffer with every cell that the sprite covers inverted.
pub open spec fn xor_sprite(screen: Seq<u32>, memory: Seq<u8>, i: u16, vx: u8, vy: u8, n: u8) -> Seq<u32> {
    Seq::new(
        screen.len(),
        |p: int|
            if sprite_covers(memory, i, vx, vy, n, p) {
                screen[p] ^ 0xFFFF_FFFFu32
            } else {
                screen[p]
            },
    )
}

/// Whether the sprite covers a cell that is lit.
pub open spec fn collides(screen: Seq<u32>, memory: Seq<u8>, i: u16, vx: u8, vy: u8, n: u8) -> bool {
    exists|p: int| 0 <= p < SCREEN_SIZE && #[trigger] sprite_covers(memory, i, vx, vy, n, p) && screen[p] != 0
}

/// `DXYN`: the sprite is XORed onto the framebuffer, VF tells whether a lit cell was hit.
pub open spec fn draw_spec(m: Machine, x: u8, y: u8, n: u8) -> Machine {
    let vx = m.v[x as int];
    let vy = m.v[y as int];
    Machine {
        screen: xor_sprite(m.screen, m.memory, m.i, vx, vy, n),
        v: m.v.update(FLAG as int, if collides(m.screen, m.memory, m.i, vx, vy, n) { 1u8 } else { 0u8 }),
        ..m
    }
}

/// `FX55`: V0 to Vx copied to memory from I on, addresses wrapping.
pub open spec fn store_regs_spec(m: Machine, x: u8) -> Machine {
    Machine {
        memory: Seq::new(
            m.memory.len(),
            |a: int|
                if mem_addr(a - m.i) <= x {
                    m.v[mem_addr(a - m.i)]
                } else {
                    m.memory[a]
                },
        ),
        ..m
    }
}

/// `FX65`: V0 to Vx loaded from memory from I on, addresses wrapping.
pub open spec fn load_regs_spec(m: Machine, x: u8) -> Machine {
    Machine {
        v: Seq::new(
            m.v.len(),
            |k: int|
                if k <= x {
                    m.memory[mem_addr(m.i + k)]
                } else {
                    m.v[k]
                },
        ),
        ..m
    }
}

/// `FX33`: hundreds, tens and ones of Vx stored at I, I+1 and I+2, addresses wrapping.
pub open spec fn store_bcd_spec(m: Machine, x: u8) -> Machine {
    let val = m.v[x as int];
    Machine {
        memory: m.memory.update(mem_addr(m.i as int), val / 100).update(
            mem_addr(m.i + 1),
            (val / 10) % 10,
        ).update(mem_addr(m.i + 2), val % 10),
        ..m
    }
}

/// What an instruction does to a machine whose program counter already points
/// past it. `rnd` is the random byte that `CXKK` uses.
pub open spec fn effect(m: Machine, ins: Instruction, rnd: u8) -> Machine {
    match ins {
        Instruction::ClearScreen => Machine { screen: Seq::new(SCREEN_SIZE as nat, |p: int| 0u32), ..m },
        Instruction::Return => if m.stack.len() > 0 {
            Machine {
                pc: m.stack.last(),
                stack: m.stack.drop_last(),
                sp: (m.stack.len() - 1) as u16,
                ..m
            }
        } else {
            m
        },
        Instruction::Jump { addr } => Machine { pc: addr, ..m },
        Instruction::Call { addr } => if m.stack.len() < STACK_DEPTH {
            Machine { pc: addr, stack: m.stack.push(m.pc), sp: (m.stack.len() + 1) as u16, ..m }
        } else {
            m
        },
        Instruction::SkipEqImm { x, kk } => skip_if(m, m.v[x as int] == kk),
        Instruction::SkipNeImm { x, kk } => skip_if(m, m.v[x as int] != kk),
        Instruction::SkipEqReg { x, y } => skip_if(m, m.v[x as int] == m.v[y as int]),
        Instruction::LoadImm { x, kk } => set_reg(m, x, kk),
        Instruction::AddImm { x, kk } => set_reg(m, x, ((m.v[x as int] + kk) % 256) as u8),
        Instruction::Move { x, y } => set_reg(m, x, m.v[y as int]),
        Instruction::Or { x, y } => set_reg(m, x, m.v[x as int] | m.v[y as int]),
        Instruction::And { x, y } => set_reg(m, x, m.v[x as int] & m.v[y as int]),
        Instruction::Xor { x, y } => set_reg(m, x, m.v[x as int] ^ m.v[y as int]),
        Instruction::AddReg { x, y } => {
            let sum = m.v[x as int] + m.v[y as int];
            set_reg_flag(m, x, (sum % 256) as u8, if sum > 255 { 1u8 } else { 0u8 })
        },
        Instruction::Sub { x, y } => if m.v[x as int] > m.v[y as int] {
            set_reg_flag(m, x, (m.v[x as int] - m.v[y as int]) as u8, 1)
        } else {
            set_reg(m, FLAG as u8, 0)
        },
        Instruction::ShiftRight { x } => set_reg_flag(m, x, m.v[x as int] / 2, m.v[x as int] % 2),
        Instruction::SubReverse { x, y } => if m.v[y as int] > m.v[x as int] {
            set_reg_flag(m, x, (m.v[y as int] - m.v[x as int]) as u8, 1)
        } else {
            set_reg(m, FLAG as u8, 0)
        },
        Instruction::ShiftLeft { x } => set_reg_flag(
            m,
            x,
            ((m.v[x as int] * 2) % 256) as u8,
            m.v[x as int] % 2,
        ),
        Instruction::SkipNeReg { x, y } => skip_if(m, m.v[x as int] != m.v[y as int]),
        Instruction::LoadIndex { addr } => Machine { i: addr, ..m },
        Instruction::JumpOffset { addr } => Machine { pc: (addr + m.v[0]) as u16, ..m },
        Instruction::Random { x, kk } => set_reg(m, x, rnd & kk),
        Instruction::Draw { x, y, n } => draw_spec(m, x, y, n),
        Instruction::SkipKeyDown { x } => skip_if(m, m.keypad[m.v[x as int] as int % 16] == 1),
        Instruction::SkipKeyUp { x } => skip_if(m, m.keypad[m.v[x as int] as int % 16] == 0),
        Instruction::ReadDelay { x } => set_reg(m, x, m.dt),
        Instruction::WaitKey { x } => if first_key(m.keypad, 0) < KEY_COUNT {
            set_reg(m, x, first_key(m.keypad, 0) as u8)
        } else {
            Machine { pc: wrap16(m.pc - 2), ..m }
        },
        Instruction::SetDelay { x } => Machine { dt: m.v[x as int], ..m },
        Instruction::AddIndex { x } => Machine { i: wrap16(m.i + m.v[x as int]), ..m },
        Instruction::StoreBcd { x } => store_bcd_spec(m, x),
        Instruction::StoreRegs { x } => store_regs_spec(m, x),
        Instruction::LoadRegs { x } => load_regs_spec(m, x),
        Instruction::Unknown => m,
    }
}

/// The execute phase: the program counter moves past the instruction, then the
/// instruction takes effect.
pub open spec fn run(m: Machine, ins: Instruction, rnd: u8) -> Machine {
    effect(advance(m), ins, rnd)
}

/// The timer phase: the delay timer counts down by one unless it is zero.
pub open spec fn tick(m: Machine) -> Machine {
    if m.dt > 0 {
        Machine { dt: (m.dt - 1) as u8, ..m }
    } else {
        m
    }
}

/// One whole step: fetch, decode and execute, then the timer.
pub open spec fn step_spec(m: Machine, rnd: u8) -> Machine {
    let f = fetch_spec(m);
    tick(run(f, decode_spec(f.opcode), rnd))
}

} // verus!
