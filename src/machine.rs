use vstd::prelude::*;

verus! {

/// Bytes of addressable memory.
pub const MEMORY_SIZE: usize = 4096;

/// Address at which a program image is loaded and execution starts.
pub const PROGRAM_START: u16 = 0x200;

/// Number of general-purpose registers, V0 to VF.
pub const REGISTER_COUNT: usize = 16;

/// Index of VF, the carry, borrow and collision flag.
pub const FLAG: usize = 15;

/// Width of the framebuffer in pixels.
pub const SCREEN_WIDTH: usize = 64;

/// Height of the framebuffer in pixels.
pub const SCREEN_HEIGHT: usize = 32;

/// Number of framebuffer cells.
pub const SCREEN_SIZE: usize = 2048;

/// Deepest nesting of subroutine calls.
pub const STACK_DEPTH: usize = 16;

/// Number of keys on the keypad.
pub const KEY_COUNT: usize = 16;

/// Bytes of the built-in hexadecimal font.
pub const FONT_SIZE: usize = 80;

/// The sixteen hexadecimal glyphs, five rows of one byte each, stored from address 0.
pub open spec fn font() -> Seq<u8> {
    seq![
        0xF0u8, 0x90, 0x90, 0x90, 0xF0,
        0x20, 0x60, 0x20, 0x20, 0x70,
        0xF0, 0x10, 0xF0, 0x80, 0xF0,
        0xF0, 0x10, 0xF0, 0x10, 0xF0,
        0x90, 0x90, 0xF0, 0x10, 0x10,
        0xF0, 0x80, 0xF0, 0x10, 0xF0,
        0xF0, 0x80, 0xF0, 0x90, 0xF0,
        0xF0, 0x10, 0x20, 0x40, 0x40,
        0xF0, 0x90, 0xF0, 0x90, 0xF0,
        0xF0, 0x90, 0xF0, 0x10, 0xF0,
        0xF0, 0x90, 0xF0, 0x90, 0x90,
        0xE0, 0x90, 0xE0, 0x90, 0xE0,
        0xF0, 0x80, 0x80, 0x80, 0xF0,
        0xE0, 0x90, 0x90, 0x90, 0xE0,
        0xF0, 0x80, 0xF0, 0x80, 0xF0,
        0xF0, 0x80, 0xF0, 0x80, 0x80,
    ]
}

/// The abstract state of the machine, as the contracts speak of it.
pub struct Machine {
    pub opcode: u16,
    pub memory: Seq<u8>,
    pub v: Seq<u8>,
    pub i: u16,
    pub pc: u16,
    pub screen: Seq<u32>,
    pub stack: Seq<u16>,
    pub sp: u16,
    pub dt: u8,
    pub keypad: Seq<u8>,
}

/// The whole architectural state of the machine.
pub struct Cpu {
    /// The instruction word most recently fetched.
    pub opcode: u16,
    pub memory: [u8; 4096],
    /// V0 to VE are general purpose; VF doubles as the flag register.
    pub v_regs: [u8; 16],
    /// The index register.
    pub i_reg: u16,
    /// The program counter.
    pub pc: u16,
    /// The framebuffer, row by row; a nonzero cell is lit.
    pub v_memory: [u32; 2048],
    /// Return addresses of the subroutine calls in progress.
    pub stack: Vec<u16>,
    /// Mirrors the depth of `stack`.
    pub sp: u16,
    /// The delay timer.
    pub dt: u8,
    /// One flag per key; 1 while the key is held.
    pub keypad: [u8; 16],
}

impl View for Cpu {
    type V = Machine;

    open spec fn view(&self) -> Machine {
        Machine {
            opcode: self.opcode,
            memory: self.memory@,
            v: self.v_regs@,
            i: self.i_reg,
            pc: self.pc,
            screen: self.v_memory@,
            stack: self.stack@,
            sp: self.sp,
            dt: self.dt,
            keypad: self.keypad@,
        }
    }
}

/// Why a program image could not be loaded.
#[derive(Clone, Copy, Debug, PartialEq, Eq, Structural)]
pub enum LoadError {
    /// The image does not fit between the load address and the end of memory.
    TooLarge,
}

/// Largest program image that fits in memory.
pub open spec fn program_capacity() -> int {
    MEMORY_SIZE - PROGRAM_START
}

/// The state right after power-on: everything zero but the program counter and the font.
pub open spec fn initial_machine() -> Machine {
    Machine {
        opcode: 0,
        memory: Seq::new(MEMORY_SIZE as nat, |a: int| if a < FONT_SIZE { font()[a] } else { 0u8 }),
        v: Seq::new(REGISTER_COUNT as nat, |k: int| 0u8),
        i: 0,
        pc: PROGRAM_START,
        screen: Seq::new(SCREEN_SIZE as nat, |p: int| 0u32),
        stack: Seq::empty(),
        sp: 0,
        dt: 0,
        keypad: Seq::new(KEY_COUNT as nat, |k: int| 0u8),
    }
}

/// Memory after a program image has been copied to the load address.
pub open spec fn with_program(memory: Seq<u8>, rom: Seq<u8>) -> Seq<u8> {
    Seq::new(
        memory.len(),
        |a: int|
            if PROGRAM_START <= a < PROGRAM_START + rom.len() {
                rom[a - PROGRAM_START]
            } else {
                memory[a]
            },
    )
}

impl Cpu {
    /// A machine in its power-on state, with the font at address 0.
    pub fn new() -> (r: Cpu)
        ensures
            r@ == initial_machine(),
    {
        let glyphs: [u8; 80] = [
            0xF0, 0x90, 0x90, 0x90, 0xF0,
            0x20, 0x60, 0x20, 0x20, 0x70,
            0xF0, 0x10, 0xF0, 0x80, 0xF0,
            0xF0, 0x10, 0xF0, 0x10, 0xF0,
            0x90, 0x90, 0xF0, 0x10, 0x10,
            0xF0, 0x80, 0xF0, 0x10, 0xF0,
            0xF0, 0x80, 0xF0, 0x90, 0xF0,
            0xF0, 0x10, 0x20, 0x40, 0x40,
            0xF0, 0x90, 0xF0, 0x90, 0xF0,
            0xF0, 0x90, 0xF0, 0x10, 0xF0,
            0xF0, 0x90, 0xF0, 0x90, 0x90,
            0xE0, 0x90, 0xE0, 0x90, 0xE0,
            0xF0, 0x80, 0x80, 0x80, 0xF0,
            0xE0, 0x90, 0x90, 0x90, 0xE0,
            0xF0, 0x80, 0xF0, 0x80, 0xF0,
            0xF0, 0x80, 0xF0, 0x80, 0x80,
        ];
        assert(glyphs@ =~= font());
        let mut memory: [u8; 4096] = [0u8; 4096];
        let mut a: usize = 0;
        while a < FONT_SIZE
            invariant
                a <= FONT_SIZE,
                glyphs@ == font(),
                forall|b: int| 0 <= b < a ==> #[trigger] memory@[b] == font()[b],
                forall|b: int| a <= b < MEMORY_SIZE ==> #[trigger] memory@[b] == 0u8,
            decreases FONT_SIZE - a,
        {
            memory[a] = glyphs[a];
            a = a + 1;
        }
        let r = Cpu {
            opcode: 0,
            memory,
            v_regs: [0u8; 16],
            i_reg: 0,
            pc: PROGRAM_START,
            v_memory: [0u32; 2048],
            stack: Vec::new(),
            sp: 0,
            dt: 0,
            keypad: [0u8; 16],
        };
        assert(r@.memory =~= initial_machine().memory);
        assert(r@.v =~= initial_machine().v);
        assert(r@.screen =~= initial_machine().screen);
        assert(r@.stack =~= initial_machine().stack);
        assert(r@.keypad =~= initial_machine().keypad);
        r
    }

    /// Copies a program image into memory at the load address; an image larger
    /// than the memory above that address is refused and nothing is written.
    pub fn load_rom(&mut self, rom: &[u8]) -> (r: Result<(), LoadError>)
        ensures
            rom@.len() > program_capacity() ==> r == Err::<(), LoadError>(LoadError::TooLarge)
                && final(self)@ == old(self)@,
            rom@.len() <= program_capacity() ==> r == Ok::<(), LoadError>(()) && final(self)@
                == (Machine { memory: with_program(old(self)@.memory, rom@), ..old(self)@ }),
    {
        if rom.len() > MEMORY_SIZE - PROGRAM_START as usize {
            return Err(LoadError::TooLarge);
        }
        let mut k: usize = 0;
        while k < rom.len()
            invariant
                k <= rom@.len() <= program_capacity(),
                self.opcode == old(self).opcode,
                self.v_regs == old(self).v_regs,
                self.i_reg == old(self).i_reg,
                self.pc == old(self).pc,
                self.v_memory == old(self).v_memory,
                self.stack == old(self).stack,
                self.sp == old(self).sp,
                self.dt == old(self).dt,
                self.keypad == old(self).keypad,
                forall|a: int|
                    0 <= a < MEMORY_SIZE ==> #[trigger] self.memory@[a] == if PROGRAM_START <= a
                        < PROGRAM_START + k {
                        rom@[a - PROGRAM_START]
                    } else {
                        old(self).memory@[a]
                    },
            decreases rom@.len() - k,
        {
            self.memory[PROGRAM_START as usize + k] = rom[k];
            k = k + 1;
        }
        assert(self@.memory =~= with_program(old(self)@.memory, rom@));
        Ok(())
    }
}

} // verus!
