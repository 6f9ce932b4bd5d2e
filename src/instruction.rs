//! Decoding of 16-bit opcodes into instructions.
use vstd::prelude::*;

verus! {

/// One decoded CHIP-8 instruction. Register operands are indices 0..16.
#[derive(Clone, Copy, Debug, PartialEq, Eq, Structural)]
pub enum Instruction {
    /// `00E0`
    ClearDisplay,
    /// `00EE`
    Return,
    /// `1nnn`
    Jump { addr: u16 },
    /// `2nnn`
    Call { addr: u16 },
    /// `3xnn`
    SkipIfEqual { x: usize, nn: u8 },
    /// `4xnn`
    SkipIfNotEqual { x: usize, nn: u8 },
    /// `5xy0`
    SkipIfRegistersEqual { x: usize, y: usize },
    /// `6xnn`
    SetRegister { x: usize, nn: u8 },
    /// `7xnn`
    AddToRegister { x: usize, nn: u8 },
    /// `8xy0`
    SetRegisterToRegister { x: usize, y: usize },
    /// `8xy1`
    OrRegisters { x: usize, y: usize },
    /// `8xy2`
    AndRegisters { x: usize, y: usize },
    /// `8xy3`
    XorRegisters { x: usize, y: usize },
    /// `8xy4`
    AddRegisters { x: usize, y: usize },
    /// `8xy5`
    SubRegisters { x: usize, y: usize },
    /// `8xy6`
    ShiftRight { x: usize },
    /// `8xy7`
    SubRegistersReverse { x: usize, y: usize },
    /// `8xyE`
    ShiftLeft { x: usize },
    /// `9xy0`
    SkipIfRegistersNotEqual { x: usize, y: usize },
    /// `Annn`
    SetIndex { addr: u16 },
    /// `Bnnn`
    JumpWithOffset { addr: u16 },
    /// `Cxnn`
    Random { x: usize, nn: u8 },
    /// `Dxyn`
    DrawSprite { x: usize, y: usize, n: u8 },
    /// `Ex9E`
    SkipIfKeyPressed { x: usize },
    /// `ExA1`
    SkipIfKeyNotPressed { x: usize },
    /// `Fx07`
    SetRegisterToDelayTimer { x: usize },
    /// `Fx0A`
    WaitForKey { x: usize },
    /// `Fx15`
    SetDelayTimer { x: usize },
    /// `Fx18`
    SetSoundTimer { x: usize },
    /// `Fx1E`
    AddToIndex { x: usize },
    /// `Fx29`
    SetIndexToSprite { x: usize },
    /// `Fx33`
    StoreBcd { x: usize },
    /// `Fx55`
    StoreRegisters { x: usize },
    /// `Fx65`
    LoadRegisters { x: usize },
    /// Any opcode that matches no instruction above.
    Unknown { opcode: u16 },
}

/// Bits 12..16 of an opcode: the instruction family.
pub open spec fn family(op: u16) -> int {
    op as int / 0x1000
}

/// Bits 8..12 of an opcode: the first register operand.
pub open spec fn nibble_x(op: u16) -> usize {
    (op as int / 0x100 % 0x10) as usize
}

/// Bits 4..8 of an opcode: the second register operand.
pub open spec fn nibble_y(op: u16) -> usize {
    (op as int / 0x10 % 0x10) as usize
}

/// Bits 0..4 of an opcode.
pub open spec fn nibble_n(op: u16) -> u8 {
    (op as int % 0x10) as u8
}

/// Bits 0..8 of an opcode.
pub open spec fn byte_nn(op: u16) -> u8 {
    (op as int % 0x100) as u8
}

/// Bits 0..12 of an opcode.
pub open spec fn addr_nnn(op: u16) -> u16 {
    (op as int % 0x1000) as u16
}

/// The instruction that an opcode encodes.
pub open spec fn decode_spec(op: u16) -> Instruction {
    let x = nibble_x(op);
    let y = nibble_y(op);
    let n = nibble_n(op);
    let nn = byte_nn(op);
    let nnn = addr_nnn(op);
    let f = family(op);
    if f == 0x0 {
        if nn == 0xE0 {
            Instruction::ClearDisplay
        } else if nn == 0xEE {
            Instruction::Return
        } else {
            Instruction::Unknown { opcode: op }
        }
    } else if f == 0x1 {
        Instruction::Jump { addr: nnn }
    } else if f == 0x2 {
        Instruction::Call { addr: nnn }
    } else if f == 0x3 {
        Instruction::SkipIfEqual { x, nn }
    } else if f == 0x4 {
        Instruction::SkipIfNotEqual { x, nn }
    } else if f == 0x5 {
        Instruction::SkipIfRegistersEqual { x, y }
    } else if f == 0x6 {
        Instruction::SetRegister { x, nn }
    } else if f == 0x7 {
        Instruction::AddToRegister { x, nn }
    } else if f == 0x8 {
        if n == 0x0 {
            Instruction::SetRegisterToRegister { x, y }
        } else if n == 0x1 {
            Instruction::OrRegisters { x, y }
        } else if n == 0x2 {
            Instruction::AndRegisters { x, y }
        } else if n == 0x3 {
            Instruction::XorRegisters { x, y }
        } else if n == 0x4 {
            Instruction::AddRegisters { x, y }
        } else if n == 0x5 {
            Instruction::SubRegisters { x, y }
        } else if n == 0x6 {
            Instruction::ShiftRight { x }
        } else if n == 0x7 {
            Instruction::SubRegistersReverse { x, y }
        } else if n == 0xE {
            Instruction::ShiftLeft { x }
        } else {
            Instruction::Unknown { opcode: op }
        }
    } else if f == 0x9 {
        Instruction::SkipIfRegistersNotEqual { x, y }
    } else if f == 0xA {
        Instruction::SetIndex { addr: nnn }
    } else if f == 0xB {
        Instruction::JumpWithOffset { addr: nnn }
    } else if f == 0xC {
        Instruction::Random { x, nn }
    } else if f == 0xD {
        Instruction::DrawSprite { x, y, n }
    } else if f == 0xE {
        if nn == 0x9E {
            Instruction::SkipIfKeyPressed { x }
        } else if nn == 0xA1 {
            Instruction::SkipIfKeyNotPressed { x }
        } else {
            Instruction::Unknown { opcode: op }
        }
    } else {
        if nn == 0x07 {
            Instruction::SetRegisterToDelayTimer { x }
        } else if nn == 0x0A {
            Instruction::WaitForKey { x }
        } else if nn == 0x15 {
            Instruction::SetDelayTimer { x }
        } else if nn == 0x18 {
            Instruction::SetSoundTimer { x }
        } else if nn == 0x1E {
            Instruction::AddToIndex { x }
        } else if nn == 0x29 {
            Instruction::SetIndexToSprite { x }
        } else if nn == 0x33 {
            Instruction::StoreBcd { x }
        } else if nn == 0x55 {
            Instruction::StoreRegisters { x }
        } else if nn == 0x65 {
            Instruction::LoadRegisters { x }
        } else {
            Instruction::Unknown { opcode: op }
        }
    }
}

impl Instruction {
    /// Register operands name one of the sixteen registers, addresses fit in
    /// twelve bits and sprite heights in four.
    pub open spec fn wf(self) -> bool {
        match self {
            Instruction::Jump { addr } => addr < 0x1000,
            Instruction::Call { addr } => addr < 0x1000,
            Instruction::SetIndex { addr } => addr < 0x1000,
            Instruction::JumpWithOffset { addr } => addr < 0x1000,
            Instruction::SkipIfEqual { x, nn } => x < 16,
            Instruction::SkipIfNotEqual { x, nn } => x < 16,
            Instruction::SetRegister { x, nn } => x < 16,
            Instruction::AddToRegister { x, nn } => x < 16,
            Instruction::Random { x, nn } => x < 16,
            Instruction::SkipIfRegistersEqual { x, y } => x < 16 && y < 16,
            Instruction::SkipIfRegistersNotEqual { x, y } => x < 16 && y < 16,
            Instruction::SetRegisterToRegister { x, y } => x < 16 && y < 16,
            Instruction::OrRegisters { x, y } => x < 16 && y < 16,
            Instruction::AndRegisters { x, y } => x < 16 && y < 16,
            Instruction::XorRegisters { x, y } => x < 16 && y < 16,
            Instruction::AddRegisters { x, y } => x < 16 && y < 16,
            Instruction::SubRegisters { x, y } => x < 16 && y < 16,
            Instruction::SubRegistersReverse { x, y } => x < 16 && y < 16,
            Instruction::DrawSprite { x, y, n } => x < 16 && y < 16 && n < 16,
            Instruction::ShiftRight { x } => x < 16,
            Instruction::ShiftLeft { x } => x < 16,
            Instruction::SkipIfKeyPressed { x } => x < 16,
            Instruction::SkipIfKeyNotPressed { x } => x < 16,
            Instruction::SetRegisterToDelayTimer { x } => x < 16,
            Instruction::WaitForKey { x } => x < 16,
            Instruction::SetDelayTimer { x } => x < 16,
            Instruction::SetSoundTimer { x } => x < 16,
            Instruction::AddToIndex { x } => x < 16,
            Instruction::SetIndexToSprite { x } => x < 16,
            Instruction::StoreBcd { x } => x < 16,
            Instruction::StoreRegisters { x } => x < 16,
            Instruction::LoadRegisters { x } => x < 16,
            _ => true,
        }
    }
}

/// Splits an opcode into its fields and selects the instruction it encodes.
/// Family 0 goes by the low byte alone (`E0` clears, `EE` returns); family 0
/// with any other low byte, `8xy8`..`8xyD`, `8xyF`, and the unlisted `Ex__`
/// and `Fx__` forms decode to `Unknown`.
pub fn decode(op: u16) -> (r: Instruction)
    ensures
        r == decode_spec(op),
        r.wf(),
{
    let x = (op / 0x100 % 0x10) as usize;
    let y = (op / 0x10 % 0x10) as usize;
    let n = (op % 0x10) as u8;
    let nn = (op % 0x100) as u8;
    let nnn = op % 0x1000;
    match op / 0x1000 {
        0x0 => {
            if nn == 0xE0 {
                Instruction::ClearDisplay
            } else if nn == 0xEE {
                Instruction::Return
            } else {
                Instruction::Unknown { opcode: op }
            }
        },
        0x1 => Instruction::Jump { addr: nnn },
        0x2 => Instruction::Call { addr: nnn },
        0x3 => Instruction::SkipIfEqual { x, nn },
        0x4 => Instruction::SkipIfNotEqual { x, nn },
        0x5 => Instruction::SkipIfRegistersEqual { x, y },
        0x6 => Instruction::SetRegister { x, nn },
        0x7 => Instruction::AddToRegister { x, nn },
        0x8 => match n {
            0x0 => Instruction::SetRegisterToRegister { x, y },
            0x1 => Instruction::OrRegisters { x, y },
            0x2 => Instruction::AndRegisters { x, y },
            0x3 => Instruction::XorRegisters { x, y },
            0x4 => Instruction::AddRegisters { x, y },
            0x5 => Instruction::SubRegisters { x, y },
            0x6 => Instruction::ShiftRight { x },
            0x7 => Instruction::SubRegistersReverse { x, y },
            0xE => Instruction::ShiftLeft { x },
            _ => Instruction::Unknown { opcode: op },
        },
        0x9 => Instruction::SkipIfRegistersNotEqual { x, y },
        0xA => Instruction::SetIndex { addr: nnn },
        0xB => Instruction::JumpWithOffset { addr: nnn },
        0xC => Instruction::Random { x, nn },
        0xD => Instruction::DrawSprite { x, y, n },
        0xE => match nn {
            0x9E => Instruction::SkipIfKeyPressed { x },
            0xA1 => Instruction::SkipIfKeyNotPressed { x },
            _ => Instruction::Unknown { opcode: op },
        },
        _ => match nn {
            0x07 => Instruction::SetRegisterToDelayTimer { x },
            0x0A => Instruction::WaitForKey { x },
            0x15 => Instruction::SetDelayTimer { x },
            0x18 => Instruction::SetSoundTimer { x },
            0x1E => Instruction::AddToIndex { x },
            0x29 => Instruction::SetIndexToSprite { x },
            0x33 => Instruction::StoreBcd { x },
            0x55 => Instruction::StoreRegisters { x },
            0x65 => Instruction::LoadRegisters { x },
            _ => Instruction::Unknown { opcode: op },
        },
    }
}

} // verus!
