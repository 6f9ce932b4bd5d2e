//! The mathematical model of the machine and the meaning of each instruction.
use vstd::prelude::*;
use crate::instruction::{Instruction, decode_spec};

verus! {

/// Why a cycle did not complete normally. Whatever the fault, the timers
/// still tick and nothing else changes.
#[derive(Clone, Copy, Debug, PartialEq, Eq, Structural)]
pub enum Fault {
    /// The opcode encodes no instruction; `pc` stays, so the same opcode is
    /// fetched again.
    UnknownOpcode { opcode: u16 },
    /// A call with all sixteen stack slots in use.
    StackOverflow,
    /// A return with an empty stack.
    StackUnderflow,
    /// A fetch, a sprite read or a memory store or load that would reach an
    /// address at or past the end of memory.
    AddressOutOfRange,
    /// A key test on a register that holds a value past the last key.
    KeyOutOfRange,
}

/// The whole observable state of the machine.
pub struct MachineState {
    pub memory: Seq<u8>,
    pub registers: Seq<u8>,
    pub index: u16,
    pub pc: u16,
    pub stack: Seq<u16>,
    pub sp: u8,
    pub delay_timer: u8,
    pub sound_timer: u8,
    pub keys: Seq<bool>,
    /// Row-major: the pixel at column `x`, row `y` is at `y * 64 + x`.
    pub display: Seq<bool>,
}

/// The built-in glyphs of the hexadecimal digits, five bytes each.
pub open spec fn font() -> Seq<u8> {
    seq![
        0xF0u8, 0x90, 0x90, 0x90, 0xF0, 0x20, 0x60, 0x20, 0x20, 0x70,
        0xF0, 0x10, 0xF0, 0x80, 0xF0, 0xF0, 0x10, 0xF0, 0x10, 0xF0,
        0x90, 0x90, 0xF0, 0x10, 0x10, 0xF0, 0x80, 0xF0, 0x10, 0xF0,
        0xF0, 0x80, 0xF0, 0x90, 0xF0, 0xF0, 0x10, 0x20, 0x40, 0x40,
        0xF0, 0x90, 0xF0, 0x90, 0xF0, 0xF0, 0x90, 0xF0, 0x10, 0xF0,
        0xF0, 0x90, 0xF0, 0x90, 0x90, 0xE0, 0x90, 0xE0, 0x90, 0xE0,
        0xF0, 0x80, 0x80, 0x80, 0xF0, 0xE0, 0x90, 0x90, 0x90, 0xE0,
        0xF0, 0x80, 0xF0, 0x80, 0xF0, 0xF0, 0x80, 0xF0, 0x80, 0x80,
    ]
}

/// Whether bit `col` (0 is the most significant) of a sprite row is set.
pub open spec fn sprite_bit(row: u8, col: int) -> bool {
    row & (0x80u8 >> (col as u8)) != 0
}

/// Wrapping offset of `p` from `origin` on an axis of `size` cells.
pub open spec fn offset(p: int, origin: int, size: int) -> int {
    if p >= origin {
        p - origin
    } else {
        p + size - origin
    }
}

/// Whether key `k` is the lowest-numbered key that is held down.
pub open spec fn is_lowest_pressed(keys: Seq<bool>, k: int) -> bool {
    0 <= k < 16 && keys[k] && forall|j: int| 0 <= j < k ==> !keys[j]
}

/// The state right after power-on: font at address 0, everything else clear.
pub open spec fn initial_state() -> MachineState {
    MachineState {
        memory: Seq::new(4096, |a: int| if a < 80 { font()[a] } else { 0u8 }),
        registers: Seq::new(16, |i: int| 0u8),
        index: 0,
        pc: 0x200,
        stack: Seq::new(16, |i: int| 0u16),
        sp: 0,
        delay_timer: 0,
        sound_timer: 0,
        keys: Seq::new(16, |i: int| false),
        display: Seq::new(2048, |i: int| false),
    }
}

impl MachineState {
    /// Sizes of the parts; stack depth within capacity; saved return
    /// addresses inside memory.
    pub open spec fn wf(self) -> bool {
        &&& self.memory.len() == 4096
        &&& self.registers.len() == 16
        &&& self.stack.len() == 16
        &&& self.sp <= 16
        &&& self.keys.len() == 16
        &&& self.display.len() == 2048
        &&& forall|i: int| 0 <= i < 16 ==> self.stack[i] < 4096
    }

    /// Whether both bytes of the instruction at `pc` lie in memory.
    pub open spec fn can_fetch(self) -> bool {
        self.pc as int + 1 < 4096
    }

    /// The opcode at `pc`: two bytes, most significant first.
    pub open spec fn opcode(self) -> u16 {
        (self.memory[self.pc as int] as int * 256 + self.memory[self.pc as int + 1] as int) as u16
    }

    /// The pixel at column `x`, row `y`.
    pub open spec fn pixel(self, x: int, y: int) -> bool {
        self.display[y * 64 + x]
    }

    pub open spec fn with_pc(self, pc: int) -> MachineState {
        MachineState { pc: pc as u16, ..self }
    }

    /// Moves on to the next instruction.
    pub open spec fn next(self) -> MachineState {
        self.with_pc(self.pc + 2)
    }

    /// Skips the next instruction when `cond` holds, else moves on to it.
    pub open spec fn skip_if(self, cond: bool) -> MachineState {
        self.with_pc(if cond { self.pc + 4 } else { self.pc + 2 })
    }

    pub open spec fn set_reg(self, x: int, v: u8) -> MachineState {
        MachineState { registers: self.registers.update(x, v), ..self }
    }

    /// Writes the flag register, then register `x`, then moves on.
    pub open spec fn set_flag_then_reg(self, x: int, flag: u8, v: u8) -> MachineState {
        self.set_reg(0xF, flag).set_reg(x, v).next()
    }

    /// The state after loading `rom` at the program start; bytes that would
    /// land past the end of memory are dropped.
    pub open spec fn load(self, rom: Seq<u8>) -> MachineState {
        MachineState {
            memory: Seq::new(
                4096,
                |a: int|
                    if 0x200 <= a < 0x200 + rom.len() {
                        rom[a - 0x200]
                    } else {
                        self.memory[a]
                    },
            ),
            ..self
        }
    }

    /// Whether the sprite of `n` rows read at `index` and drawn with its top
    /// left corner at (`ox`, `oy`) covers the pixel at (`px`, `py`) with a set
    /// bit. Rows and columns wrap around the display edges.
    pub open spec fn sprite_covers(self, ox: int, oy: int, n: int, px: int, py: int) -> bool {
        let dr = offset(py, oy, 32);
        let dc = offset(px, ox, 64);
        dr < n && dc < 8 && sprite_bit(self.memory[self.index as int + dr], dc)
    }

    /// The display after XOR-ing the sprite onto it.
    pub open spec fn drawn_display(self, ox: int, oy: int, n: int) -> Seq<bool> {
        Seq::new(
            2048,
            |k: int| self.display[k] != self.sprite_covers(ox, oy, n, k % 64, k / 64),
        )
    }

    /// Whether a set sprite bit lands on a pixel that is already on.
    pub open spec fn collides(self, ox: int, oy: int, n: int) -> bool {
        exists|k: int|
            0 <= k < 2048 && #[trigger] self.display[k] && self.sprite_covers(ox, oy, n, k % 64, k / 64)
    }

    /// `Dxyn` with origin (`Vx mod 64`, `Vy mod 32`).
    pub open spec fn draw(self, x: int, y: int, n: int) -> MachineState {
        let ox = self.registers[x] as int % 64;
        let oy = self.registers[y] as int % 32;
        MachineState {
            display: self.drawn_display(ox, oy, n),
            registers: self.registers.update(0xF, if self.collides(ox, oy, n) { 1u8 } else { 0u8 }),
            ..self
        }.next()
    }

    /// The result of executing `ins` on this state, with `rand` as the byte
    /// drawn for a `Cxnn`.
    pub open spec fn execute(self, ins: Instruction, rand: u8) -> Result<MachineState, Fault> {
        let regs = self.registers;
        let i = self.index as int;
        match ins {
            Instruction::ClearDisplay => Ok(
                MachineState { display: Seq::new(2048, |k: int| false), ..self }.next(),
            ),
            Instruction::Return => if self.sp == 0 {
                Err(Fault::StackUnderflow)
            } else {
                Ok(
                    MachineState { sp: (self.sp - 1) as u8, ..self }.with_pc(
                        self.stack[self.sp - 1] + 2,
                    ),
                )
            },
            Instruction::Jump { addr } => Ok(self.with_pc(addr as int)),
            Instruction::Call { addr } => if self.sp == 16 {
                Err(Fault::StackOverflow)
            } else {
                Ok(
                    MachineState {
                        stack: self.stack.update(self.sp as int, self.pc),
                        sp: (self.sp + 1) as u8,
                        pc: addr,
                        ..self
                    },
                )
            },
            Instruction::SkipIfEqual { x, nn } => Ok(self.skip_if(regs[x as int] == nn)),
            Instruction::SkipIfNotEqual { x, nn } => Ok(self.skip_if(regs[x as int] != nn)),
            Instruction::SkipIfRegistersEqual { x, y } => Ok(
                self.skip_if(regs[x as int] == regs[y as int]),
            ),
            Instruction::SkipIfRegistersNotEqual { x, y } => Ok(
                self.skip_if(regs[x as int] != regs[y as int]),
            ),
            Instruction::SetRegister { x, nn } => Ok(self.set_reg(x as int, nn).next()),
            Instruction::AddToRegister { x, nn } => Ok(
                self.set_reg(x as int, ((regs[x as int] + nn) % 256) as u8).next(),
            ),
            Instruction::SetRegisterToRegister { x, y } => Ok(
                self.set_reg(x as int, regs[y as int]).next(),
            ),
            Instruction::OrRegisters { x, y } => Ok(
                self.set_reg(x as int, regs[x as int] | regs[y as int]).next(),
            ),
            Instruction::AndRegisters { x, y } => Ok(
                self.set_reg(x as int, regs[x as int] & regs[y as int]).next(),
            ),
            Instruction::XorRegisters { x, y } => Ok(
                self.set_reg(x as int, regs[x as int] ^ regs[y as int]).next(),
            ),
            Instruction::AddRegisters { x, y } => {
                let sum = regs[x as int] + regs[y as int];
                Ok(self.set_flag_then_reg(x as int, if sum > 255 { 1 } else { 0 }, (sum % 256) as u8))
            },
            Instruction::SubRegisters { x, y } => {
                let (a, b) = (regs[x as int], regs[y as int]);
                Ok(self.set_flag_then_reg(x as int, if a > b { 1 } else { 0 }, ((a - b) % 256) as u8))
            },
            Instruction::SubRegistersReverse { x, y } => {
                let (a, b) = (regs[x as int], regs[y as int]);
                Ok(self.set_flag_then_reg(x as int, if b > a { 1 } else { 0 }, ((b - a) % 256) as u8))
            },
            Instruction::ShiftRight { x } => {
                let a = regs[x as int];
                Ok(self.set_flag_then_reg(x as int, a % 2, a / 2))
            },
            Instruction::ShiftLeft { x } => {
                let a = regs[x as int];
                Ok(self.set_flag_then_reg(x as int, a / 128, ((a * 2) % 256) as u8))
            },
            Instruction::SetIndex { addr } => Ok(MachineState { index: addr, ..self }.next()),
            Instruction::JumpWithOffset { addr } => Ok(self.with_pc(addr + regs[0])),
            Instruction::Random { x, nn } => Ok(self.set_reg(x as int, rand & nn).next()),
            Instruction::DrawSprite { x, y, n } => if n > 0 && i + n > 4096 {
                Err(Fault::AddressOutOfRange)
            } else {
                Ok(self.draw(x as int, y as int, n as int))
            },
            Instruction::SkipIfKeyPressed { x } => if regs[x as int] >= 16 {
                Err(Fault::KeyOutOfRange)
            } else {
                Ok(self.skip_if(self.keys[regs[x as int] as int]))
            },
            Instruction::SkipIfKeyNotPressed { x } => if regs[x as int] >= 16 {
                Err(Fault::KeyOutOfRange)
            } else {
                Ok(self.skip_if(!self.keys[regs[x as int] as int]))
            },
            Instruction::SetRegisterToDelayTimer { x } => Ok(
                self.set_reg(x as int, self.delay_timer).next(),
            ),
            Instruction::WaitForKey { x } => if exists|k: int| is_lowest_pressed(self.keys, k) {
                let k = choose|k: int| is_lowest_pressed(self.keys, k);
                Ok(self.set_reg(x as int, k as u8).next())
            } else {
                Ok(self)
            },
            Instruction::SetDelayTimer { x } => Ok(
                MachineState { delay_timer: regs[x as int], ..self }.next(),
            ),
            Instruction::SetSoundTimer { x } => Ok(
                MachineState { sound_timer: regs[x as int], ..self }.next(),
            ),
            Instruction::AddToIndex { x } => Ok(
                MachineState { index: ((i + regs[x as int]) % 0x10000) as u16, ..self }.next(),
            ),
            Instruction::SetIndexToSprite { x } => Ok(
                MachineState { index: (regs[x as int] * 5) as u16, ..self }.next(),
            ),
            Instruction::StoreBcd { x } => if i + 2 >= 4096 {
                Err(Fault::AddressOutOfRange)
            } else {
                let v = regs[x as int];
                Ok(
                    MachineState {
                        memory: self.memory.update(i, v / 100).update(i + 1, v / 10 % 10).update(
                            i + 2,
                            v % 10,
                        ),
                        ..self
                    }.next(),
                )
            },
            Instruction::StoreRegisters { x } => if i + x >= 4096 {
                Err(Fault::AddressOutOfRange)
            } else {
                Ok(
                    MachineState {
                        memory: Seq::new(
                            4096,
                            |a: int|
                                if i <= a <= i + x {
                                    regs[a - i]
                                } else {
                                    self.memory[a]
                                },
                        ),
                        ..self
                    }.next(),
                )
            },
            Instruction::LoadRegisters { x } => if i + x >= 4096 {
                Err(Fault::AddressOutOfRange)
            } else {
                Ok(
                    MachineState {
                        registers: Seq::new(
                            16,
                            |r: int|
                                if r <= x {
                                    self.memory[i + r]
                                } else {
                                    regs[r]
                                },
                        ),
                        ..self
                    }.next(),
                )
            },
            Instruction::Unknown { opcode } => Err(Fault::UnknownOpcode { opcode }),
        }
    }

    /// Counts both timers down by one, stopping at zero.
    pub open spec fn tick(self) -> MachineState {
        MachineState {
            delay_timer: if self.delay_timer > 0 { (self.delay_timer - 1) as u8 } else { 0 },
            sound_timer: if self.sound_timer > 0 { (self.sound_timer - 1) as u8 } else { 0 },
            ..self
        }
    }

    /// One full cycle: fetch, decode, execute, then tick the timers. The
    /// timers tick on every cycle; a cycle that faults changes nothing else.
    pub open spec fn cycle(self, rand: u8) -> (MachineState, Result<(), Fault>) {
        if !self.can_fetch() {
            (self.tick(), Err(Fault::AddressOutOfRange))
        } else {
            match self.execute(decode_spec(self.opcode()), rand) {
                Ok(s) => (s.tick(), Ok(())),
                Err(f) => (self.tick(), Err(f)),
            }
        }
    }

    /// The colour of host pixel `i` of the upscaled frame: each display pixel
    /// becomes a 10 by 10 block, white (`0xFFFFFF`) when on, else black.
    pub open spec fn frame_pixel(self, i: int) -> u32 {
        if self.pixel((i % 640) / 10, (i / 640) / 10) {
            0xFFFFFF
        } else {
            0
        }
    }
}

} // verus!
