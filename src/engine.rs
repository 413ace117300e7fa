use vstd::prelude::*;
use crate::instruction::{decode, decode_spec, Instruction};
use crate::machine::{Cpu, FLAG, KEY_COUNT, MEMORY_SIZE, SCREEN_HEIGHT, SCREEN_SIZE, SCREEN_WIDTH, STACK_DEPTH};
use crate::semantics::{
    collides, coord_spec, draw_spec, drawn_before, effect, fetch_spec, first_key, load_regs_spec,
    mem_addr, run, sprite_covers, step_spec, store_bcd_spec, store_regs_spec, xor_sprite,
};

verus! {

/// Relies on byteorder's `BigEndian::read_u16`: the first two bytes of the
/// buffer read as a big-endian integer.
#[verifier::external_body]
fn read_be_u16(buf: &[u8; 2]) -> (r: u16)
    ensures
        r as int == buf@[0] as int * 0x100 + buf@[1] as int,
{
    <byteorder::BigEndian as byteorder::ByteOrder>::read_u16(buf)
}

/// Relies on rand's `Rng::gen_range` on `thread_rng()` over `0..255`: a byte below 255.
#[verifier::external_body]
fn random_byte() -> (r: u8)
    ensures
        r < 255,
{
    rand::Rng::gen_range(&mut rand::thread_rng(), 0u8..255u8)
}

/// The framebuffer cell of the pixel at column `x`, row `y`, both wrapping around.
pub fn coord(x: usize, y: usize) -> (r: usize)
    ensures
        r == coord_spec(x as int, y as int),
        r < SCREEN_SIZE,
{
    (y % SCREEN_HEIGHT) * SCREEN_WIDTH + x % SCREEN_WIDTH
}

/// Loads the opcode register with the two bytes at the program counter, high
/// byte first; addresses wrap around the end of memory.
pub fn fetch(cpu: &mut Cpu)
    ensures
        final(cpu)@ == fetch_spec(old(cpu)@),
{
    let hi = cpu.memory[cpu.pc as usize % MEMORY_SIZE];
    let lo = cpu.memory[(cpu.pc as usize + 1) % MEMORY_SIZE];
    let buffer: [u8; 2] = [hi, lo];
    cpu.opcode = read_be_u16(&buffer);
}

/// `00E0`: every framebuffer cell goes dark.
fn clear_screen(cpu: &mut Cpu)
    ensures
        final(cpu)@ == effect(old(cpu)@, Instruction::ClearScreen, 0),
{
    let mut p: usize = 0;
    while p < SCREEN_SIZE
        invariant
            p <= SCREEN_SIZE,
            cpu@ == (crate::machine::Machine { screen: cpu@.screen, ..old(cpu)@ }),
            forall|q: int| 0 <= q < p ==> #[trigger] cpu.v_memory@[q] == 0u32,
        decreases SCREEN_SIZE - p,
    {
        cpu.v_memory[p] = 0;
        p = p + 1;
    }
    assert(cpu.v_memory@ =~= Seq::new(SCREEN_SIZE as nat, |q: int| 0u32));
}

/// `FX0A`: the number of the lowest held key goes to Vx; with no key held the
/// program counter moves back so that the instruction runs again next step.
fn wait_key(cpu: &mut Cpu, x: u8)
    requires
        x < 16,
    ensures
        final(cpu)@ == effect(old(cpu)@, Instruction::WaitKey { x }, 0),
{
    let mut k: usize = 0;
    while k < KEY_COUNT
        invariant
            k <= KEY_COUNT,
            x < 16,
            *cpu == *old(cpu),
            first_key(cpu.keypad@, 0) == first_key(cpu.keypad@, k as int),
        decreases KEY_COUNT - k,
    {
        if cpu.keypad[k] != 0 {
            cpu.v_regs[x as usize] = k as u8;
            return;
        }
        k = k + 1;
    }
    cpu.pc = cpu.pc.wrapping_sub(2);
}

/// `FX33`: the decimal digits of Vx go to memory at I, I+1 and I+2.
fn store_bcd(cpu: &mut Cpu, x: u8)
    requires
        x < 16,
    ensures
        final(cpu)@ == store_bcd_spec(old(cpu)@, x),
{
    let val = cpu.v_regs[x as usize];
    let base = cpu.i_reg as usize;
    cpu.memory[base % MEMORY_SIZE] = val / 100;
    cpu.memory[(base + 1) % MEMORY_SIZE] = (val / 10) % 10;
    cpu.memory[(base + 2) % MEMORY_SIZE] = val % 10;
}

/// `FX55`: V0 to Vx go to memory from I on.
fn store_regs(cpu: &mut Cpu, x: u8)
    requires
        x < 16,
    ensures
        final(cpu)@ == store_regs_spec(old(cpu)@, x),
{
    let base = cpu.i_reg as usize;
    let mut k: usize = 0;
    while k <= x as usize
        invariant
            k <= x + 1,
            x < 16,
            base == cpu.i_reg,
            cpu@ == (crate::machine::Machine { memory: cpu@.memory, ..old(cpu)@ }),
            forall|a: int|
                0 <= a < MEMORY_SIZE ==> #[trigger] cpu.memory@[a] == if mem_addr(a - base) < k {
                    old(cpu).v_regs@[mem_addr(a - base)]
                } else {
                    old(cpu).memory@[a]
                },
        decreases x + 1 - k,
    {
        let t = (base + k) % MEMORY_SIZE;
        assert forall|a: int| 0 <= a < MEMORY_SIZE implies (#[trigger] mem_addr(a - base) == k <==> a == t) by {
            assert(mem_addr(t - base) == k);
        }
        cpu.memory[t] = cpu.v_regs[k];
        k = k + 1;
    }
    assert(cpu.memory@ =~= store_regs_spec(old(cpu)@, x).memory);
}

/// `FX65`: V0 to Vx are loaded from memory from I on.
fn load_regs(cpu: &mut Cpu, x: u8)
    requires
        x < 16,
    ensures
        final(cpu)@ == load_regs_spec(old(cpu)@, x),
{
    let base = cpu.i_reg as usize;
    let mut k: usize = 0;
    while k <= x as usize
        invariant
            k <= x + 1,
            x < 16,
            base == cpu.i_reg,
            cpu@ == (crate::machine::Machine { v: cpu@.v, ..old(cpu)@ }),
            forall|j: int|
                0 <= j < 16 ==> #[trigger] cpu.v_regs@[j] == if j < k {
                    old(cpu).memory@[mem_addr(base + j)]
                } else {
                    old(cpu).v_regs@[j]
                },
        decreases x + 1 - k,
    {
        cpu.v_regs[k] = cpu.memory[(base + k) % MEMORY_SIZE];
        k = k + 1;
    }
    assert(cpu.v_regs@ =~= load_regs_spec(old(cpu)@, x).v);
}

/// The cell that `coord` gives for column `vx + col`, row `vy + row` is the one
/// cell whose offset from (`vx`, `vy`), wrapping around, is (`col`, `row`).
proof fn lemma_cell(vx: u8, vy: u8, row: int, col: int, p: int)
    requires
        0 <= row < SCREEN_HEIGHT,
        0 <= col < SCREEN_WIDTH,
        0 <= p < SCREEN_SIZE,
    ensures
        ((p / 64 - vy) % 32 == row && (p % 64 - vx) % 64 == col) <==> p == coord_spec(
            vx + col,
            vy + row,
        ),
{
    let q = coord_spec(vx + col, vy + row);
    assert(q / 64 == (vy + row) % 32 && q % 64 == (vx + col) % 64);
    assert(p == (p / 64) * 64 + p % 64);
    assert(0 <= p / 64 < 32);
    if (p / 64 - vy) % 32 == row && (p % 64 - vx) % 64 == col {
        assert(p / 64 == (vy + row) % 32);
        assert(p % 64 == (vx + col) % 64);
    }
    if p == q {
        assert((q / 64 - vy) % 32 == row);
        assert((q % 64 - vx) % 64 == col);
    }
}

/// Whether a lit cell of `screen` is covered among the sprite pixels drawn before
/// row `row`, column `col`.
spec fn collision_before(
    screen: Seq<u32>,
    memory: Seq<u8>,
    i: u16,
    vx: u8,
    vy: u8,
    n: u8,
    row: int,
    col: int,
) -> bool {
    exists|p: int|
        0 <= p < SCREEN_SIZE && #[trigger] drawn_before(memory, i, vx, vy, n, p, row, col)
            && screen[p] != 0
}

/// When the pixels drawn up to (`r2`, `c2`) are those drawn up to (`r1`, `c1`),
/// and possibly cell `p0`, a collision up to (`r2`, `c2`) is one up to (`r1`, `c1`)
/// or one at `p0`.
proof fn lemma_collision_grows(
    screen: Seq<u32>,
    memory: Seq<u8>,
    i: u16,
    vx: u8,
    vy: u8,
    n: u8,
    r1: int,
    c1: int,
    r2: int,
    c2: int,
    p0: int,
    extra: bool,
)
    requires
        0 <= p0 < SCREEN_SIZE,
        forall|q: int|
            0 <= q < SCREEN_SIZE ==> #[trigger] drawn_before(memory, i, vx, vy, n, q, r2, c2) == (
            drawn_before(memory, i, vx, vy, n, q, r1, c1) || (extra && q == p0)),
    ensures
        collision_before(screen, memory, i, vx, vy, n, r2, c2) == (collision_before(
            screen,
            memory,
            i,
            vx,
            vy,
            n,
            r1,
            c1,
        ) || (extra && screen[p0] != 0)),
{
    if collision_before(screen, memory, i, vx, vy, n, r1, c1) {
        let p = choose|p: int|
            0 <= p < SCREEN_SIZE && #[trigger] drawn_before(memory, i, vx, vy, n, p, r1, c1)
                && screen[p] != 0;
        assert(drawn_before(memory, i, vx, vy, n, p, r2, c2));
    }
    if extra && screen[p0] != 0 {
        assert(drawn_before(memory, i, vx, vy, n, p0, r2, c2));
    }
}

/// Drawing column `col` of row `row` adds cell `p` to the pixels drawn, when
/// the sprite bit there is set, and nothing else.
proof fn lemma_pixel_step(
    memory: Seq<u8>,
    i: u16,
    vx: u8,
    vy: u8,
    n: u8,
    row: int,
    col: int,
    p: int,
    set: bool,
)
    requires
        0 <= row < n < 16,
        0 <= col < 8,
        p == coord_spec(vx + col, vy + row),
        set == crate::semantics::sprite_bit(memory[mem_addr(i + row)], col),
    ensures
        forall|q: int|
            0 <= q < SCREEN_SIZE ==> #[trigger] drawn_before(memory, i, vx, vy, n, q, row, col + 1)
                == (drawn_before(memory, i, vx, vy, n, q, row, col) || (set && q == p)),
        !drawn_before(memory, i, vx, vy, n, p, row, col),
{
    assert forall|q: int| 0 <= q < SCREEN_SIZE implies #[trigger] drawn_before(
        memory,
        i,
        vx,
        vy,
        n,
        q,
        row,
        col + 1,
    ) == (drawn_before(memory, i, vx, vy, n, q, row, col) || (set && q == p)) by {
        lemma_cell(vx, vy, row, col, q);
    }
    assert(0 <= p < SCREEN_SIZE);
    lemma_cell(vx, vy, row, col, p);
}

/// `DXYN`: XORs an N-row sprite from memory at I onto the framebuffer at
/// (Vx, Vy), wrapping at the edges; VF tells whether the sprite covered a lit cell.
fn draw_sprite(cpu: &mut Cpu, x: u8, y: u8, n: u8)
    requires
        x < 16,
        y < 16,
        n < 16,
    ensures
        final(cpu)@ == draw_spec(old(cpu)@, x, y, n),
{
    let vx = cpu.v_regs[x as usize];
    let vy = cpu.v_regs[y as usize];
    let base = cpu.i_reg;
    let ghost memory = old(cpu).memory@;
    let ghost screen = old(cpu).v_memory@;
    let mut collided = false;
    let mut row: u8 = 0;
    while row < n
        invariant
            row <= n < 16,
            cpu@ == (crate::machine::Machine { screen: cpu@.screen, ..old(cpu)@ }),
            vx == cpu.v_regs@[x as int],
            vy == cpu.v_regs@[y as int],
            base == cpu.i_reg,
            memory == cpu.memory@,
            screen == old(cpu).v_memory@,
            forall|p: int|
                0 <= p < SCREEN_SIZE ==> #[trigger] cpu.v_memory@[p] == if drawn_before(
                    memory,
                    base,
                    vx,
                    vy,
                    n,
                    p,
                    row as int,
                    0,
                ) {
                    screen[p] ^ 0xFFFF_FFFFu32
                } else {
                    screen[p]
                },
            collided == collision_before(screen, memory, base, vx, vy, n, row as int, 0),
        decreases n - row,
    {
        let bits = cpu.memory[(base as usize + row as usize) % MEMORY_SIZE];
        let mut col: u8 = 0;
        while col < 8
            invariant
                row < n < 16,
                col <= 8,
                cpu@ == (crate::machine::Machine { screen: cpu@.screen, ..old(cpu)@ }),
                vx == cpu.v_regs@[x as int],
                vy == cpu.v_regs@[y as int],
                base == cpu.i_reg,
                memory == cpu.memory@,
                screen == old(cpu).v_memory@,
                bits == memory[mem_addr(base + row)],
                forall|p: int|
                    0 <= p < SCREEN_SIZE ==> #[trigger] cpu.v_memory@[p] == if drawn_before(
                        memory,
                        base,
                        vx,
                        vy,
                        n,
                        p,
                        row as int,
                        col as int,
                    ) {
                        screen[p] ^ 0xFFFF_FFFFu32
                    } else {
                        screen[p]
                    },
                collided == collision_before(screen, memory, base, vx, vy, n, row as int, col as int),
            decreases 8 - col,
        {
            let set = (bits >> (7 - col)) & 1 == 1;
            let p = coord(vx as usize + col as usize, vy as usize + row as usize);
            proof {
                lemma_pixel_step(memory, base, vx, vy, n, row as int, col as int, p as int, set);
            }
            proof {
                lemma_collision_grows(
                    screen,
                    memory,
                    base,
                    vx,
                    vy,
                    n,
                    row as int,
                    col as int,
                    row as int,
                    col + 1,
                    p as int,
                    set,
                );
            }
            if set {
                if cpu.v_memory[p] != 0 {
                    collided = true;
                }
                cpu.v_memory[p] = cpu.v_memory[p] ^ 0xFFFF_FFFF;
            }
            col = col + 1;
        }
        assert forall|q: int| 0 <= q < SCREEN_SIZE implies #[trigger] drawn_before(
            memory,
            base,
            vx,
            vy,
            n,
            q,
            row + 1,
            0,
        ) == (drawn_before(memory, base, vx, vy, n, q, row as int, 8) || (false && q == 0)) by {}
        proof {
            lemma_collision_grows(screen, memory, base, vx, vy, n, row as int, 8, row + 1, 0, 0, false);
        }
        row = row + 1;
    }
    cpu.v_regs[FLAG] = if collided { 1 } else { 0 };
    assert(cpu.v_memory@ =~= xor_sprite(screen, memory, base, vx, vy, n));
    proof {
        if collided {
            let p = choose|p: int|
                0 <= p < SCREEN_SIZE && #[trigger] drawn_before(memory, base, vx, vy, n, p, n as int, 0)
                    && screen[p] != 0;
            assert(sprite_covers(memory, base, vx, vy, n, p));
        }
        if collides(screen, memory, base, vx, vy, n) {
            let p = choose|p: int|
                0 <= p < SCREEN_SIZE && #[trigger] sprite_covers(memory, base, vx, vy, n, p)
                    && screen[p] != 0;
            assert(drawn_before(memory, base, vx, vy, n, p, n as int, 0));
        }
    }
}

/// Carries out one decoded instruction on a machine whose program counter
/// already points past it.
fn apply(cpu: &mut Cpu, ins: Instruction, rnd: u8)
    requires
        ins.wf(),
    ensures
        final(cpu)@ == effect(old(cpu)@, ins, rnd),
{
    match ins {
        Instruction::ClearScreen => clear_screen(cpu),
        Instruction::Return => {
            if cpu.stack.len() > 0 {
                let top = cpu.stack.pop().unwrap();
                cpu.pc = top;
                cpu.sp = cpu.stack.len() as u16;
            }
        },
        Instruction::Jump { addr } => {
            cpu.pc = addr;
        },
        Instruction::Call { addr } => {
            if cpu.stack.len() < STACK_DEPTH {
                cpu.stack.push(cpu.pc);
                cpu.sp = cpu.stack.len() as u16;
                cpu.pc = addr;
            }
        },
        Instruction::SkipEqImm { x, kk } => {
            if cpu.v_regs[x as usize] == kk {
                cpu.pc = cpu.pc.wrapping_add(2);
            }
        },
        Instruction::SkipNeImm { x, kk } => {
            if cpu.v_regs[x as usize] != kk {
                cpu.pc = cpu.pc.wrapping_add(2);
            }
        },
        Instruction::SkipEqReg { x, y } => {
            if cpu.v_regs[x as usize] == cpu.v_regs[y as usize] {
                cpu.pc = cpu.pc.wrapping_add(2);
            }
        },
        Instruction::LoadImm { x, kk } => {
            cpu.v_regs[x as usize] = kk;
        },
        Instruction::AddImm { x, kk } => {
            let sum: u16 = cpu.v_regs[x as usize] as u16 + kk as u16;
            cpu.v_regs[x as usize] = (sum % 256) as u8;
        },
        Instruction::Move { x, y } => {
            cpu.v_regs[x as usize] = cpu.v_regs[y as usize];
        },
        Instruction::Or { x, y } => {
            cpu.v_regs[x as usize] = cpu.v_regs[x as usize] | cpu.v_regs[y as usize];
        },
        Instruction::And { x, y } => {
            cpu.v_regs[x as usize] = cpu.v_regs[x as usize] & cpu.v_regs[y as usize];
        },
        Instruction::Xor { x, y } => {
            cpu.v_regs[x as usize] = cpu.v_regs[x as usize] ^ cpu.v_regs[y as usize];
        },
        Instruction::AddReg { x, y } => {
            let sum: u16 = cpu.v_regs[x as usize] as u16 + cpu.v_regs[y as usize] as u16;
            cpu.v_regs[FLAG] = if sum > 255 { 1 } else { 0 };
            cpu.v_regs[x as usize] = (sum % 256) as u8;
        },
        Instruction::Sub { x, y } => {
            let vx = cpu.v_regs[x as usize];
            let vy = cpu.v_regs[y as usize];
            if vx > vy {
                cpu.v_regs[FLAG] = 1;
                cpu.v_regs[x as usize] = vx - vy;
            } else {
                cpu.v_regs[FLAG] = 0;
            }
        },
        Instruction::ShiftRight { x } => {
            let vx = cpu.v_regs[x as usize];
            cpu.v_regs[FLAG] = vx % 2;
            cpu.v_regs[x as usize] = vx / 2;
        },
        Instruction::SubReverse { x, y } => {
            let vx = cpu.v_regs[x as usize];
            let vy = cpu.v_regs[y as usize];
            if vy > vx {
                cpu.v_regs[FLAG] = 1;
                cpu.v_regs[x as usize] = vy - vx;
            } else {
                cpu.v_regs[FLAG] = 0;
            }
        },
        Instruction::ShiftLeft { x } => {
            let vx = cpu.v_regs[x as usize];
            cpu.v_regs[FLAG] = vx % 2;
            cpu.v_regs[x as usize] = ((vx as u16 * 2) % 256) as u8;
        },
        Instruction::SkipNeReg { x, y } => {
            if cpu.v_regs[x as usize] != cpu.v_regs[y as usize] {
                cpu.pc = cpu.pc.wrapping_add(2);
            }
        },
        Instruction::LoadIndex { addr } => {
            cpu.i_reg = addr;
        },
        Instruction::JumpOffset { addr } => {
            cpu.pc = addr + cpu.v_regs[0] as u16;
        },
        Instruction::Random { x, kk } => {
            cpu.v_regs[x as usize] = rnd & kk;
        },
        Instruction::Draw { x, y, n } => draw_sprite(cpu, x, y, n),
        Instruction::SkipKeyDown { x } => {
            if cpu.keypad[cpu.v_regs[x as usize] as usize % KEY_COUNT] == 1 {
                cpu.pc = cpu.pc.wrapping_add(2);
            }
        },
        Instruction::SkipKeyUp { x } => {
            if cpu.keypad[cpu.v_regs[x as usize] as usize % KEY_COUNT] == 0 {
                cpu.pc = cpu.pc.wrapping_add(2);
            }
        },
        Instruction::ReadDelay { x } => {
            cpu.v_regs[x as usize] = cpu.dt;
        },
        Instruction::WaitKey { x } => wait_key(cpu, x),
        Instruction::SetDelay { x } => {
            cpu.dt = cpu.v_regs[x as usize];
        },
        Instruction::AddIndex { x } => {
            cpu.i_reg = cpu.i_reg.wrapping_add(cpu.v_regs[x as usize] as u16);
        },
        Instruction::StoreBcd { x } => store_bcd(cpu, x),
        Instruction::StoreRegs { x } => store_regs(cpu, x),
        Instruction::LoadRegs { x } => load_regs(cpu, x),
        Instruction::Unknown => {},
    }
}

/// Executes the instruction in the opcode register, with `rnd` as the random
/// byte of `CXKK`: the program counter moves past the instruction, then the
/// instruction takes effect.
pub fn execute_with(cpu: &mut Cpu, rnd: u8)
    ensures
        final(cpu)@ == run(old(cpu)@, decode_spec(old(cpu).opcode), rnd),
{
    let ins = decode(cpu.opcode);
    cpu.pc = cpu.pc.wrapping_add(2);
    apply(cpu, ins, rnd);
}

/// Executes the instruction in the opcode register; `CXKK` draws its random
/// byte from the thread's generator.
pub fn execute(cpu: &mut Cpu)
    ensures
        exists|rnd: u8|
            rnd < 255 && final(cpu)@ == run(old(cpu)@, decode_spec(old(cpu).opcode), rnd),
        !(decode_spec(old(cpu).opcode) is Random) ==> final(cpu)@ == run(
            old(cpu)@,
            decode_spec(old(cpu).opcode),
            0,
        ),
{
    let rnd = random_byte();
    execute_with(cpu, rnd);
}

impl Cpu {
    /// One whole step with `rnd` as the random byte of `CXKK`: fetch, execute,
    /// then count the delay timer down by one unless it is zero.
    pub fn cycle_with(&mut self, rnd: u8)
        ensures
            final(self)@ == step_spec(old(self)@, rnd),
    {
        fetch(self);
        execute_with(self, rnd);
        if self.dt > 0 {
            self.dt = self.dt - 1;
        }
    }

    /// One whole step: fetch, execute, then count the delay timer down by one
    /// unless it is zero. `CXKK` draws its random byte from the thread's generator.
    pub fn cycle(&mut self)
        ensures
            exists|rnd: u8| rnd < 255 && final(self)@ == step_spec(old(self)@, rnd),
            !(decode_spec(fetch_spec(old(self)@).opcode) is Random) ==> final(self)@
                == step_spec(old(self)@, 0),
    {
        let rnd = random_byte();
        self.cycle_with(rnd);
    }
}

} // verus!
