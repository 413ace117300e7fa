use vstd::prelude::*;

verus! {

/// One decoded instruction. Register operands are register numbers below 16,
/// addresses are 12-bit values and sprite heights are below 16.
#[derive(Clone, Copy, Debug, PartialEq, Eq, Structural)]
pub enum Instruction {
    /// `00E0`: clear the framebuffer.
    ClearScreen,
    /// `00EE`: return from a subroutine.
    Return,
    /// `1NNN`: jump to NNN.
    Jump { addr: u16 },
    /// `2NNN`: call the subroutine at NNN.
    Call { addr: u16 },
    /// `3XKK`: skip the next instruction if Vx == KK.
    SkipEqImm { x: u8, kk: u8 },
    /// `4XKK`: skip the next instruction if Vx != KK.
    SkipNeImm { x: u8, kk: u8 },
    /// `5XY_`: skip the next instruction if Vx == Vy.
    SkipEqReg { x: u8, y: u8 },
    /// `6XKK`: Vx := KK.
    LoadImm { x: u8, kk: u8 },
    /// `7XKK`: Vx := Vx + KK, wrapping, flag untouched.
    AddImm { x: u8, kk: u8 },
    /// `8XY0`: Vx := Vy.
    Move { x: u8, y: u8 },
    /// `8XY1`: Vx := Vx | Vy.
    Or { x: u8, y: u8 },
    /// `8XY2`: Vx := Vx & Vy.
    And { x: u8, y: u8 },
    /// `8XY3`: Vx := Vx ^ Vy.
    Xor { x: u8, y: u8 },
    /// `8XY4`: Vx := Vx + Vy, VF := carry.
    AddReg { x: u8, y: u8 },
    /// `8XY5`: Vx := Vx - Vy when Vx > Vy, VF := (Vx > Vy).
    Sub { x: u8, y: u8 },
    /// `8XY6`: Vx := Vx >> 1, VF := low bit of Vx.
    ShiftRight { x: u8 },
    /// `8XY7`: Vx := Vy - Vx when Vy > Vx, VF := (Vy > Vx).
    SubReverse { x: u8, y: u8 },
    /// `8XYE`: Vx := Vx << 1, VF := low bit of Vx.
    ShiftLeft { x: u8 },
    /// `9XY_`: skip the next instruction if Vx != Vy.
    SkipNeReg { x: u8, y: u8 },
    /// `ANNN`: I := NNN.
    LoadIndex { addr: u16 },
    /// `BNNN`: jump to NNN + V0.
    JumpOffset { addr: u16 },
    /// `CXKK`: Vx := random byte & KK.
    Random { x: u8, kk: u8 },
    /// `DXYN`: draw an N-row sprite from memory at I at (Vx, Vy).
    Draw { x: u8, y: u8, n: u8 },
    /// `EX9E`: skip the next instruction if the key Vx is held.
    SkipKeyDown { x: u8 },
    /// `EXA1`: skip the next instruction if the key Vx is not held.
    SkipKeyUp { x: u8 },
    /// `FX07`: Vx := delay timer.
    ReadDelay { x: u8 },
    /// `FX0A`: wait until a key is held and store its number in Vx.
    WaitKey { x: u8 },
    /// `FX15`: delay timer := Vx.
    SetDelay { x: u8 },
    /// `FX1E`: I := I + Vx, wrapping.
    AddIndex { x: u8 },
    /// `FX33`: store the decimal digits of Vx at I, I+1 and I+2.
    StoreBcd { x: u8 },
    /// `FX55`: store V0 to Vx in memory from I on.
    StoreRegs { x: u8 },
    /// `FX65`: load V0 to Vx from memory from I on.
    LoadRegs { x: u8 },
    /// An instruction word that no other variant matches; it does nothing.
    Unknown,
}

/// The most significant nibble of an instruction word.
pub open spec fn family(op: u16) -> u16 {
    op / 0x1000
}

/// The second nibble, the X register operand.
pub open spec fn operand_x(op: u16) -> u8 {
    ((op / 0x100) % 16) as u8
}

/// The third nibble, the Y register operand.
pub open spec fn operand_y(op: u16) -> u8 {
    ((op / 0x10) % 16) as u8
}

/// The lowest nibble.
pub open spec fn operand_n(op: u16) -> u8 {
    (op % 16) as u8
}

/// The low byte.
pub open spec fn operand_kk(op: u16) -> u8 {
    (op % 0x100) as u8
}

/// The low twelve bits.
pub open spec fn operand_nnn(op: u16) -> u16 {
    op % 0x1000
}

/// What an instruction word means.
pub open spec fn decode_spec(op: u16) -> Instruction {
    let x = operand_x(op);
    let y = operand_y(op);
    let n = operand_n(op);
    let kk = operand_kk(op);
    let nnn = operand_nnn(op);
    if op == 0x00E0 {
        Instruction::ClearScreen
    } else if op == 0x00EE {
        Instruction::Return
    } else if family(op) == 0x1 {
        Instruction::Jump { addr: nnn }
    } else if family(op) == 0x2 {
        Instruction::Call { addr: nnn }
    } else if family(op) == 0x3 {
        Instruction::SkipEqImm { x, kk }
    } else if family(op) == 0x4 {
        Instruction::SkipNeImm { x, kk }
    } else if family(op) == 0x5 {
        Instruction::SkipEqReg { x, y }
    } else if family(op) == 0x6 {
        Instruction::LoadImm { x, kk }
    } else if family(op) == 0x7 {
        Instruction::AddImm { x, kk }
    } else if family(op) == 0x8 {
        if n == 0x0 {
            Instruction::Move { x, y }
        } else if n == 0x1 {
            Instruction::Or { x, y }
        } else if n == 0x2 {
            Instruction::And { x, y }
        } else if n == 0x3 {
            Instruction::Xor { x, y }
        } else if n == 0x4 {
            Instruction::AddReg { x, y }
        } else if n == 0x5 {
            Instruction::Sub { x, y }
        } else if n == 0x6 {
            Instruction::ShiftRight { x }
        } else if n == 0x7 {
            Instruction::SubReverse { x, y }
        } else if n == 0xE {
            Instruction::ShiftLeft { x }
        } else {
            Instruction::Unknown
        }
    } else if family(op) == 0x9 {
        Instruction::SkipNeReg { x, y }
    } else if family(op) == 0xA {
        Instruction::LoadIndex { addr: nnn }
    } else if family(op) == 0xB {
        Instruction::JumpOffset { addr: nnn }
    } else if family(op) == 0xC {
        Instruction::Random { x, kk }
    } else if family(op) == 0xD {
        Instruction::Draw { x, y, n }
    } else if family(op) == 0xE {
        if kk == 0x9E {
            Instruction::SkipKeyDown { x }
        } else if kk == 0xA1 {
            Instruction::SkipKeyUp { x }
        } else {
            Instruction::Unknown
        }
    } else if family(op) == 0xF {
        if kk == 0x07 {
            Instruction::ReadDelay { x }
        } else if kk == 0x0A {
            Instruction::WaitKey { x }
        } else if kk == 0x15 {
            Instruction::SetDelay { x }
        } else if kk == 0x1E {
            Instruction::AddIndex { x }
        } else if kk == 0x33 {
            Instruction::StoreBcd { x }
        } else if kk == 0x55 {
            Instruction::StoreRegs { x }
        } else if kk == 0x65 {
            Instruction::LoadRegs { x }
        } else {
            Instruction::Unknown
        }
    } else {
        Instruction::Unknown
    }
}

impl Instruction {
    /// Operands are in range: registers below 16, addresses below 0x1000,
    /// sprite heights below 16.
    pub open spec fn wf(self) -> bool {
        match self {
            Instruction::Jump { addr } => addr < 0x1000,
            Instruction::Call { addr } => addr < 0x1000,
            Instruction::LoadIndex { addr } => addr < 0x1000,
            Instruction::JumpOffset { addr } => addr < 0x1000,
            Instruction::SkipEqImm { x, .. } => x < 16,
            Instruction::SkipNeImm { x, .. } => x < 16,
            Instruction::LoadImm { x, .. } => x < 16,
            Instruction::AddImm { x, .. } => x < 16,
            Instruction::Random { x, .. } => x < 16,
            Instruction::SkipEqReg { x, y } => x < 16 && y < 16,
            Instruction::SkipNeReg { x, y } => x < 16 && y < 16,
            Instruction::Move { x, y } => x < 16 && y < 16,
            Instruction::Or { x, y } => x < 16 && y < 16,
            Instruction::And { x, y } => x < 16 && y < 16,
            Instruction::Xor { x, y } => x < 16 && y < 16,
            Instruction::AddReg { x, y } => x < 16 && y < 16,
            Instruction::Sub { x, y } => x < 16 && y < 16,
            Instruction::SubReverse { x, y } => x < 16 && y < 16,
            Instruction::Draw { x, y, n } => x < 16 && y < 16 && n < 16,
            Instruction::ShiftRight { x } => x < 16,
            Instruction::ShiftLeft { x } => x < 16,
            Instruction::SkipKeyDown { x } => x < 16,
            Instruction::SkipKeyUp { x } => x < 16,
            Instruction::ReadDelay { x } => x < 16,
            Instruction::WaitKey { x } => x < 16,
            Instruction::SetDelay { x } => x < 16,
            Instruction::AddIndex { x } => x < 16,
            Instruction::StoreBcd { x } => x < 16,
            Instruction::StoreRegs { x } => x < 16,
            Instruction::LoadRegs { x } => x < 16,
            _ => true,
        }
    }
}

/// Splits an instruction word into its instruction and operands.
pub fn decode(op: u16) -> (r: Instruction)
    ensures
        r == decode_spec(op),
        r.wf(),
{
    let x: u8 = ((op / 0x100) % 16) as u8;
    let y: u8 = ((op / 0x10) % 16) as u8;
    let n: u8 = (op % 16) as u8;
    let kk: u8 = (op % 0x100) as u8;
    let nnn: u16 = op % 0x1000;
    let hi: u16 = op / 0x1000;
    if op == 0x00E0 {
        Instruction::ClearScreen
    } else if op == 0x00EE {
        Instruction::Return
    } else if hi == 0x1 {
        Instruction::Jump { addr: nnn }
    } else if hi == 0x2 {
        Instruction::Call { addr: nnn }
    } else if hi == 0x3 {
        Instruction::SkipEqImm { x, kk }
    } else if hi == 0x4 {
        Instruction::SkipNeImm { x, kk }
    } else if hi == 0x5 {
        Instruction::SkipEqReg { x, y }
    } else if hi == 0x6 {
        Instruction::LoadImm { x, kk }
    } else if hi == 0x7 {
        Instruction::AddImm { x, kk }
    } else if hi == 0x8 {
        if n == 0x0 {
            Instruction::Move { x, y }
        } else if n == 0x1 {
            Instruction::Or { x, y }
        } else if n == 0x2 {
            Instruction::And { x, y }
        } else if n == 0x3 {
            Instruction::Xor { x, y }
        } else if n == 0x4 {
            Instruction::AddReg { x, y }
        } else if n == 0x5 {
            Instruction::Sub { x, y }
        } else if n == 0x6 {
            Instruction::ShiftRight { x }
        } else if n == 0x7 {
            Instruction::SubReverse { x, y }
        } else if n == 0xE {
            Instruction::ShiftLeft { x }
        } else {
            Instruction::Unknown
        }
    } else if hi == 0x9 {
        Instruction::SkipNeReg { x, y }
    } else if hi == 0xA {
        Instruction::LoadIndex { addr: nnn }
    } else if hi == 0xB {
        Instruction::JumpOffset { addr: nnn }
    } else if hi == 0xC {
        Instruction::Random { x, kk }
    } else if hi == 0xD {
        Instruction::Draw { x, y, n }
    } else if hi == 0xE {
        if kk == 0x9E {
            Instruction::SkipKeyDown { x }
        } else if kk == 0xA1 {
            Instruction::SkipKeyUp { x }
        } else {
            Instruction::Unknown
        }
    } else if hi == 0xF {
        if kk == 0x07 {
            Instruction::ReadDelay { x }
        } else if kk == 0x0A {
            Instruction::WaitKey { x }
        } else if kk == 0x15 {
            Instruction::SetDelay { x }
        } else if kk == 0x1E {
            Instruction::AddIndex { x }
        } else if kk == 0x33 {
            Instruction::StoreBcd { x }
        } else if kk == 0x55 {
            Instruction::StoreRegs { x }
        } else if kk == 0x65 {
            Instruction::LoadRegs { x }
        } else {
            Instruction::Unknown
        }
    } else {
        Instruction::Unknown
    }
}

} // verus!
