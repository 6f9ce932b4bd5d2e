//! The executable interpreter, proved against the model in `machine`.
use vstd::prelude::*;
use rand::rngs::StdRng;
use crate::instruction::{Instruction, decode, decode_spec};
use crate::machine::{Fault, MachineState, initial_state, font, is_lowest_pressed, offset};
use crate::rng::{next_byte, rng_from_os, rng_from_seed};
use crate::{DISPLAY_HEIGHT, DISPLAY_WIDTH, MEMORY_SIZE, NUM_KEYS, NUM_REGISTERS, SCALE_FACTOR, STACK_SIZE};

verus! {

/// A CHIP-8 machine together with its pseudo-random source.
pub struct Chip8 {
    memory: Vec<u8>,
    registers: Vec<u8>,
    index: u16,
    pc: u16,
    stack: Vec<u16>,
    sp: u8,
    delay_timer: u8,
    sound_timer: u8,
    keys: Vec<bool>,
    display: Vec<bool>,
    rng: StdRng,
}

impl View for Chip8 {
    type V = MachineState;

    closed spec fn view(&self) -> MachineState {
        MachineState {
            memory: self.memory@,
            registers: self.registers@,
            index: self.index,
            pc: self.pc,
            stack: self.stack@,
            sp: self.sp,
            delay_timer: self.delay_timer,
            sound_timer: self.sound_timer,
            keys: self.keys@,
            display: self.display@,
        }
    }
}

/// Whether the call's result and the state after it are what the model gives
/// for a step from `before`: on a fault the state is unchanged.
pub open spec fn follows(
    before: MachineState,
    after: MachineState,
    r: Result<(), Fault>,
    model: Result<MachineState, Fault>,
) -> bool {
    match model {
        Ok(s) => r == Ok::<(), Fault>(()) && after == s,
        Err(f) => r == Err::<(), Fault>(f) && after == before,
    }
}

impl Chip8 {
    pub open spec fn wf(&self) -> bool {
        self@.wf()
    }

    /// A machine in its power-on state, with a generator seeded from the
    /// operating system; should the operating system give no entropy, the
    /// generator is seeded with 0 instead.
    pub fn new() -> (r: Chip8)
        ensures
            r.wf(),
            r@ == initial_state(),
    {
        match rng_from_os() {
            Some(rng) => Self::with_rng(rng),
            None => Self::with_rng(rng_from_seed(0)),
        }
    }

    /// A machine in its power-on state with a generator seeded from the
    /// operating system, or `None` when the operating system gives no entropy.
    pub fn try_new() -> (r: Option<Chip8>)
        ensures
            r matches Some(c) ==> c.wf() && c@ == initial_state(),
    {
        match rng_from_os() {
            Some(rng) => Some(Self::with_rng(rng)),
            None => None,
        }
    }

    /// A machine in its power-on state, whose `Cxnn` bytes are fixed by `seed`.
    pub fn new_seeded(seed: u64) -> (r: Chip8)
        ensures
            r.wf(),
            r@ == initial_state(),
    {
        Self::with_rng(rng_from_seed(seed))
    }

    fn with_rng(rng: StdRng) -> (r: Chip8)
        ensures
            r.wf(),
            r@ == initial_state(),
    {
        let fontset: [u8; 80] = [
            0xF0, 0x90, 0x90, 0x90, 0xF0, // 0
            0x20, 0x60, 0x20, 0x20, 0x70, // 1
            0xF0, 0x10, 0xF0, 0x80, 0xF0, // 2
            0xF0, 0x10, 0xF0, 0x10, 0xF0, // 3
            0x90, 0x90, 0xF0, 0x10, 0x10, // 4
            0xF0, 0x80, 0xF0, 0x10, 0xF0, // 5
            0xF0, 0x80, 0xF0, 0x90, 0xF0, // 6
            0xF0, 0x10, 0x20, 0x40, 0x40, // 7
            0xF0, 0x90, 0xF0, 0x90, 0xF0, // 8
            0xF0, 0x90, 0xF0, 0x10, 0xF0, // 9
            0xF0, 0x90, 0xF0, 0x90, 0x90, // A
            0xE0, 0x90, 0xE0, 0x90, 0xE0, // B
            0xF0, 0x80, 0x80, 0x80, 0xF0, // C
            0xE0, 0x90, 0x90, 0x90, 0xE0, // D
            0xF0, 0x80, 0xF0, 0x80, 0xF0, // E
            0xF0, 0x80, 0xF0, 0x80, 0x80, // F
        ];
        assert(fontset@ =~= font());
        let mut memory: Vec<u8> = Vec::new();
        let mut a: usize = 0;
        while a < MEMORY_SIZE
            invariant
                a <= MEMORY_SIZE,
                fontset@ == font(),
                memory@.len() == a,
                forall|j: int| 0 <= j < a ==> memory@[j] == initial_state().memory[j],
            decreases MEMORY_SIZE - a,
        {
            if a < 80 {
                memory.push(fontset[a]);
            } else {
                memory.push(0);
            }
            a += 1;
        }
        let r = Chip8 {
            memory,
            registers: vec![0u8; NUM_REGISTERS],
            index: 0,
            pc: 0x200,
            stack: vec![0u16; STACK_SIZE],
            sp: 0,
            delay_timer: 0,
            sound_timer: 0,
            keys: vec![false; NUM_KEYS],
            display: vec![false; DISPLAY_WIDTH * DISPLAY_HEIGHT],
            rng,
        };
        assert(r@.memory =~= initial_state().memory);
        assert(r@.registers =~= initial_state().registers);
        assert(r@.stack =~= initial_state().stack);
        assert(r@.keys =~= initial_state().keys);
        assert(r@.display =~= initial_state().display);
        r
    }

    /// Copies a program image into memory from the program start on. Bytes
    /// that would land past the end of memory are dropped.
    pub fn load_rom(&mut self, rom: &[u8])
        requires
            old(self).wf(),
        ensures
            final(self).wf(),
            final(self)@ == old(self)@.load(rom@),
    {
        let room: usize = MEMORY_SIZE - 0x200;
        let end: usize = if rom.len() < room { rom.len() } else { room };
        let mut i: usize = 0;
        while i < end
            invariant
                end <= rom@.len(),
                end <= room == MEMORY_SIZE - 0x200,
                i <= end,
                self.wf(),
                self@ == (MachineState { memory: self@.memory, ..old(self)@ }),
                forall|a: int|
                    0 <= a < 4096 ==> #[trigger] self@.memory[a] == if 0x200 <= a < 0x200 + i {
                        rom@[a - 0x200]
                    } else {
                        old(self)@.memory[a]
                    },
            decreases end - i,
        {
            self.memory[0x200 + i] = rom[i];
            i += 1;
        }
        assert(self@.memory =~= old(self)@.load(rom@).memory);
    }

    /// The opcode at `pc`, or `None` when its second byte would lie past the
    /// end of memory.
    pub fn fetch(&self) -> (r: Option<u16>)
        requires
            self.wf(),
        ensures
            r == if self@.can_fetch() {
                Some(self@.opcode())
            } else {
                None::<u16>
            },
    {
        if self.pc as usize + 1 >= MEMORY_SIZE {
            None
        } else {
            let hi = self.memory[self.pc as usize] as u16;
            let lo = self.memory[self.pc as usize + 1] as u16;
            Some(hi * 256 + lo)
        }
    }

    /// Sets whether key `key` is held down.
    pub fn key_press(&mut self, key: usize, pressed: bool)
        requires
            old(self).wf(),
            key < NUM_KEYS,
        ensures
            final(self).wf(),
            final(self)@ == (MachineState { keys: old(self)@.keys.update(key as int, pressed), ..old(self)@ }),
    {
        self.keys[key] = pressed;
    }
}

/// Whether executing `ins` from `before` succeeds and leaves `after`.
pub open spec fn steps(before: MachineState, ins: Instruction, after: MachineState) -> bool {
    before.execute(ins, 0) == Ok::<MachineState, Fault>(after)
}

impl Chip8 {
    /// Well formed, with the instruction at `pc` inside memory.
    pub open spec fn ready(&self) -> bool {
        self.wf() && self@.can_fetch()
    }

    fn skip_if_registers_equal(&mut self, x: usize, y: usize)
        requires
            old(self).ready(),
            x < 16,
            y < 16,
        ensures
            final(self).wf(),
            steps(old(self)@, Instruction::SkipIfRegistersEqual { x, y }, final(self)@),
    {
        if self.registers[x] == self.registers[y] {
            self.pc += 4;
        } else {
            self.pc += 2;
        }
    }

    fn set_register_to_register(&mut self, x: usize, y: usize)
        requires
            old(self).ready(),
            x < 16,
            y < 16,
        ensures
            final(self).wf(),
            steps(old(self)@, Instruction::SetRegisterToRegister { x, y }, final(self)@),
    {
        self.registers[x] = self.registers[y];
        self.pc += 2;
    }

    fn or_registers(&mut self, x: usize, y: usize)
        requires
            old(self).ready(),
            x < 16,
            y < 16,
        ensures
            final(self).wf(),
            steps(old(self)@, Instruction::OrRegisters { x, y }, final(self)@),
    {
        self.registers[x] = self.registers[x] | self.registers[y];
        self.pc += 2;
    }

    fn and_registers(&mut self, x: usize, y: usize)
        requires
            old(self).ready(),
            x < 16,
            y < 16,
        ensures
            final(self).wf(),
            steps(old(self)@, Instruction::AndRegisters { x, y }, final(self)@),
    {
        self.registers[x] = self.registers[x] & self.registers[y];
        self.pc += 2;
    }

    fn xor_registers(&mut self, x: usize, y: usize)
        requires
            old(self).ready(),
            x < 16,
            y < 16,
        ensures
            final(self).wf(),
            steps(old(self)@, Instruction::XorRegisters { x, y }, final(self)@),
    {
        self.registers[x] = self.registers[x] ^ self.registers[y];
        self.pc += 2;
    }

    /// `Vx += Vy`; the flag register receives the carry, then `Vx` the sum.
    fn add_registers(&mut self, x: usize, y: usize)
        requires
            old(self).ready(),
            x < 16,
            y < 16,
        ensures
            final(self).wf(),
            steps(old(self)@, Instruction::AddRegisters { x, y }, final(self)@),
            final(self)@.pc == old(self)@.pc + 2,
            x != 0xF ==> {
                let (a, b) = (old(self)@.registers[x as int], old(self)@.registers[y as int]);
                &&& final(self)@.registers[0xF] == (if a + b > 255 { 1u8 } else { 0u8 })
                &&& final(self)@.registers[x as int] == (a + b) % 256
            },
    {
        let a = self.registers[x];
        let b = self.registers[y];
        let result = a.wrapping_add(b);
        let overflow = a as u16 + b as u16 > 255;
        self.registers[0xF] = if overflow { 1 } else { 0 };
        self.registers[x] = result;
        self.pc += 2;
    }

    /// `Vx -= Vy`; the flag register receives `Vx > Vy`, then `Vx` the
    /// difference.
    fn sub_registers(&mut self, x: usize, y: usize)
        requires
            old(self).ready(),
            x < 16,
            y < 16,
        ensures
            final(self).wf(),
            steps(old(self)@, Instruction::SubRegisters { x, y }, final(self)@),
            final(self)@.pc == old(self)@.pc + 2,
            x != 0xF ==> {
                let (a, b) = (old(self)@.registers[x as int], old(self)@.registers[y as int]);
                &&& final(self)@.registers[0xF] == (if a > b { 1u8 } else { 0u8 })
                &&& final(self)@.registers[x as int] == (a - b) % 256
            },
    {
        let a = self.registers[x];
        let b = self.registers[y];
        self.registers[0xF] = if a > b { 1 } else { 0 };
        self.registers[x] = a.wrapping_sub(b);
        self.pc += 2;
    }

    fn shift_right(&mut self, x: usize)
        requires
            old(self).ready(),
            x < 16,
        ensures
            final(self).wf(),
            steps(old(self)@, Instruction::ShiftRight { x }, final(self)@),
    {
        let a = self.registers[x];
        assert(a & 1 == a % 2 && a >> 1 == a / 2) by (bit_vector);
        self.registers[0xF] = a & 1;
        self.registers[x] = a >> 1;
        self.pc += 2;
    }

    /// `Vx = Vy - Vx`; the flag register receives `Vy > Vx`, then `Vx` the
    /// difference.
    fn sub_registers_reverse(&mut self, x: usize, y: usize)
        requires
            old(self).ready(),
            x < 16,
            y < 16,
        ensures
            final(self).wf(),
            steps(old(self)@, Instruction::SubRegistersReverse { x, y }, final(self)@),
    {
        let a = self.registers[x];
        let b = self.registers[y];
        self.registers[0xF] = if b > a { 1 } else { 0 };
        self.registers[x] = b.wrapping_sub(a);
        self.pc += 2;
    }

    fn shift_left(&mut self, x: usize)
        requires
            old(self).ready(),
            x < 16,
        ensures
            final(self).wf(),
            steps(old(self)@, Instruction::ShiftLeft { x }, final(self)@),
    {
        let a = self.registers[x];
        assert((a & 0x80) >> 7 == a / 128) by (bit_vector);
        assert(a << 1 == (a * 2) % 256) by (bit_vector);
        self.registers[0xF] = (a & 0x80) >> 7;
        self.registers[x] = a << 1;
        self.pc += 2;
    }

    fn skip_if_registers_not_equal(&mut self, x: usize, y: usize)
        requires
            old(self).ready(),
            x < 16,
            y < 16,
        ensures
            final(self).wf(),
            steps(old(self)@, Instruction::SkipIfRegistersNotEqual { x, y }, final(self)@),
    {
        if self.registers[x] != self.registers[y] {
            self.pc += 4;
        } else {
            self.pc += 2;
        }
    }

    fn jump_with_offset(&mut self, addr: u16)
        requires
            old(self).ready(),
            addr < 0x1000,
        ensures
            final(self).wf(),
            steps(old(self)@, Instruction::JumpWithOffset { addr }, final(self)@),
            final(self)@.pc == addr + old(self)@.registers[0],
    {
        self.pc = addr + self.registers[0] as u16;
    }

    /// `Vx = byte & nn`, with `byte` drawn from the generator by the caller.
    fn random(&mut self, x: usize, nn: u8, byte: u8)
        requires
            old(self).ready(),
            x < 16,
        ensures
            final(self).wf(),
            old(self)@.execute(Instruction::Random { x, nn }, byte) == Ok::<MachineState, Fault>(
                final(self)@,
            ),
    {
        self.registers[x] = byte & nn;
        self.pc += 2;
    }

    fn set_register_to_delay_timer(&mut self, x: usize)
        requires
            old(self).ready(),
            x < 16,
        ensures
            final(self).wf(),
            steps(old(self)@, Instruction::SetRegisterToDelayTimer { x }, final(self)@),
    {
        self.registers[x] = self.delay_timer;
        self.pc += 2;
    }

    fn set_delay_timer(&mut self, x: usize)
        requires
            old(self).ready(),
            x < 16,
        ensures
            final(self).wf(),
            steps(old(self)@, Instruction::SetDelayTimer { x }, final(self)@),
    {
        self.delay_timer = self.registers[x];
        self.pc += 2;
    }

    fn set_sound_timer(&mut self, x: usize)
        requires
            old(self).ready(),
            x < 16,
        ensures
            final(self).wf(),
            steps(old(self)@, Instruction::SetSoundTimer { x }, final(self)@),
    {
        self.sound_timer = self.registers[x];
        self.pc += 2;
    }

    fn add_to_index(&mut self, x: usize)
        requires
            old(self).ready(),
            x < 16,
        ensures
            final(self).wf(),
            steps(old(self)@, Instruction::AddToIndex { x }, final(self)@),
    {
        self.index = self.index.wrapping_add(self.registers[x] as u16);
        self.pc += 2;
    }

    fn set_index_to_sprite(&mut self, x: usize)
        requires
            old(self).ready(),
            x < 16,
        ensures
            final(self).wf(),
            steps(old(self)@, Instruction::SetIndexToSprite { x }, final(self)@),
    {
        self.index = (self.registers[x] as u16) * 5;
        self.pc += 2;
    }

    fn jump(&mut self, addr: u16)
        requires
            old(self).ready(),
        ensures
            final(self).wf(),
            steps(old(self)@, Instruction::Jump { addr }, final(self)@),
    {
        self.pc = addr;
    }

    fn skip_if_equal(&mut self, reg: usize, val: u8)
        requires
            old(self).ready(),
            reg < 16,
        ensures
            final(self).wf(),
            steps(old(self)@, Instruction::SkipIfEqual { x: reg, nn: val }, final(self)@),
    {
        if self.registers[reg] == val {
            self.pc += 4;
        } else {
            self.pc += 2;
        }
    }

    fn skip_if_not_equal(&mut self, reg: usize, val: u8)
        requires
            old(self).ready(),
            reg < 16,
        ensures
            final(self).wf(),
            steps(old(self)@, Instruction::SkipIfNotEqual { x: reg, nn: val }, final(self)@),
    {
        if self.registers[reg] != val {
            self.pc += 4;
        } else {
            self.pc += 2;
        }
    }

    fn set_register(&mut self, reg: usize, val: u8)
        requires
            old(self).ready(),
            reg < 16,
        ensures
            final(self).wf(),
            steps(old(self)@, Instruction::SetRegister { x: reg, nn: val }, final(self)@),
    {
        self.registers[reg] = val;
        self.pc += 2;
    }

    fn add_to_register(&mut self, reg: usize, val: u8)
        requires
            old(self).ready(),
            reg < 16,
        ensures
            final(self).wf(),
            steps(old(self)@, Instruction::AddToRegister { x: reg, nn: val }, final(self)@),
    {
        self.registers[reg] = self.registers[reg].wrapping_add(val);
        self.pc += 2;
    }

    fn set_index(&mut self, val: u16)
        requires
            old(self).ready(),
        ensures
            final(self).wf(),
            steps(old(self)@, Instruction::SetIndex { addr: val }, final(self)@),
    {
        self.index = val;
        self.pc += 2;
    }

    fn clear_display(&mut self)
        requires
            old(self).ready(),
        ensures
            final(self).wf(),
            steps(old(self)@, Instruction::ClearDisplay, final(self)@),
    {
        self.display = vec![false; DISPLAY_WIDTH * DISPLAY_HEIGHT];
        assert(self.display@ =~= Seq::new(2048, |k: int| false));
        self.pc += 2;
    }
}

impl Chip8 {
    fn return_from_subroutine(&mut self) -> (r: Result<(), Fault>)
        requires
            old(self).ready(),
        ensures
            final(self).wf(),
            follows(old(self)@, final(self)@, r, old(self)@.execute(Instruction::Return, 0)),
    {
        if self.sp == 0 {
            return Err(Fault::StackUnderflow);
        }
        self.sp -= 1;
        self.pc = self.stack[self.sp as usize];
        self.pc += 2;
        Ok(())
    }

    fn call_subroutine(&mut self, addr: u16) -> (r: Result<(), Fault>)
        requires
            old(self).ready(),
            addr < 0x1000,
        ensures
            final(self).wf(),
            follows(old(self)@, final(self)@, r, old(self)@.execute(Instruction::Call { addr }, 0)),
    {
        if self.sp as usize == STACK_SIZE {
            return Err(Fault::StackOverflow);
        }
        self.stack[self.sp as usize] = self.pc;
        self.sp += 1;
        self.pc = addr;
        Ok(())
    }

    fn skip_if_key_pressed(&mut self, x: usize) -> (r: Result<(), Fault>)
        requires
            old(self).ready(),
            x < 16,
        ensures
            final(self).wf(),
            follows(
                old(self)@,
                final(self)@,
                r,
                old(self)@.execute(Instruction::SkipIfKeyPressed { x }, 0),
            ),
    {
        let key = self.registers[x] as usize;
        if key >= NUM_KEYS {
            return Err(Fault::KeyOutOfRange);
        }
        if self.keys[key] {
            self.pc += 4;
        } else {
            self.pc += 2;
        }
        Ok(())
    }

    fn skip_if_key_not_pressed(&mut self, x: usize) -> (r: Result<(), Fault>)
        requires
            old(self).ready(),
            x < 16,
        ensures
            final(self).wf(),
            follows(
                old(self)@,
                final(self)@,
                r,
                old(self)@.execute(Instruction::SkipIfKeyNotPressed { x }, 0),
            ),
    {
        let key = self.registers[x] as usize;
        if key >= NUM_KEYS {
            return Err(Fault::KeyOutOfRange);
        }
        if !self.keys[key] {
            self.pc += 4;
        } else {
            self.pc += 2;
        }
        Ok(())
    }

    /// Latches the lowest-numbered held key into `Vx` and moves on; with no
    /// key held, changes nothing, so that the same instruction runs again.
    fn wait_for_key(&mut self, x: usize)
        requires
            old(self).ready(),
            x < 16,
        ensures
            final(self).wf(),
            steps(old(self)@, Instruction::WaitForKey { x }, final(self)@),
            (forall|k: int| 0 <= k < 16 ==> !#[trigger] old(self)@.keys[k]) ==> final(self)@ == old(self)@,
    {
        let mut i: usize = 0;
        while i < NUM_KEYS
            invariant
                i <= NUM_KEYS,
                x < 16,
                self@ == old(self)@,
                self.ready(),
                forall|j: int| 0 <= j < i ==> !self@.keys[j],
            decreases NUM_KEYS - i,
        {
            if self.keys[i] {
                assert(is_lowest_pressed(self@.keys, i as int));
                proof {
                    let k = choose|k: int| is_lowest_pressed(self@.keys, k);
                    assert(k == i);
                }
                self.registers[x] = i as u8;
                self.pc += 2;
                return;
            }
            i += 1;
        }
    }

    /// Writes the hundreds, tens and units digits of `Vx` at `I`, `I+1`, `I+2`.
    fn store_bcd(&mut self, x: usize) -> (r: Result<(), Fault>)
        requires
            old(self).ready(),
            x < 16,
        ensures
            final(self).wf(),
            follows(old(self)@, final(self)@, r, old(self)@.execute(Instruction::StoreBcd { x }, 0)),
    {
        let i = self.index as usize;
        if i + 2 >= MEMORY_SIZE {
            return Err(Fault::AddressOutOfRange);
        }
        let value = self.registers[x];
        self.memory[i] = value / 100;
        self.memory[i + 1] = (value / 10) % 10;
        self.memory[i + 2] = value % 10;
        self.pc += 2;
        Ok(())
    }

    /// Writes `V0..=Vx` to memory from `I` on.
    fn store_registers(&mut self, x: usize) -> (r: Result<(), Fault>)
        requires
            old(self).ready(),
            x < 16,
        ensures
            final(self).wf(),
            follows(
                old(self)@,
                final(self)@,
                r,
                old(self)@.execute(Instruction::StoreRegisters { x }, 0),
            ),
    {
        let base = self.index as usize;
        if base + x >= MEMORY_SIZE {
            return Err(Fault::AddressOutOfRange);
        }
        let mut i: usize = 0;
        while i <= x
            invariant
                x < 16,
                base == old(self)@.index,
                base + x < 4096,
                i <= x + 1,
                self.ready(),
                self@ == (MachineState { memory: self@.memory, ..old(self)@ }),
                forall|a: int|
                    0 <= a < 4096 ==> #[trigger] self@.memory[a] == if base <= a < base + i {
                        old(self)@.registers[a - base]
                    } else {
                        old(self)@.memory[a]
                    },
            decreases x + 1 - i,
        {
            self.memory[base + i] = self.registers[i];
            i += 1;
        }
        self.pc += 2;
        assert(self@.memory =~= old(self)@.execute(Instruction::StoreRegisters { x }, 0)->Ok_0.memory);
        Ok(())
    }

    /// Reads `V0..=Vx` from memory from `I` on.
    fn load_registers(&mut self, x: usize) -> (r: Result<(), Fault>)
        requires
            old(self).ready(),
            x < 16,
        ensures
            final(self).wf(),
            follows(
                old(self)@,
                final(self)@,
                r,
                old(self)@.execute(Instruction::LoadRegisters { x }, 0),
            ),
    {
        let base = self.index as usize;
        if base + x >= MEMORY_SIZE {
            return Err(Fault::AddressOutOfRange);
        }
        let mut i: usize = 0;
        while i <= x
            invariant
                x < 16,
                base == old(self)@.index,
                base + x < 4096,
                i <= x + 1,
                self.ready(),
                self@ == (MachineState { registers: self@.registers, ..old(self)@ }),
                forall|r: int|
                    0 <= r < 16 ==> #[trigger] self@.registers[r] == if r < i {
                        old(self)@.memory[base + r]
                    } else {
                        old(self)@.registers[r]
                    },
            decreases x + 1 - i,
        {
            self.registers[i] = self.memory[base + i];
            i += 1;
        }
        self.pc += 2;
        assert(self@.registers =~= old(self)@.execute(Instruction::LoadRegisters { x }, 0)->Ok_0.registers);
        Ok(())
    }
}

/// Whether the sprite's set bit for pixel `k` comes before position
/// (`row`, `col`) in the order in which rows, then columns, are drawn.
spec fn drawn_before(s: MachineState, ox: int, oy: int, n: int, k: int, row: int, col: int) -> bool {
    let dr = offset(k / 64, oy, 32);
    let dc = offset(k % 64, ox, 64);
    s.sprite_covers(ox, oy, n, k % 64, k / 64) && (dr < row || (dr == row && dc < col))
}

impl Chip8 {
    /// XORs the `height`-row sprite at `I` onto the display at (`Vx`, `Vy`),
    /// wrapping at the edges; the flag register then tells whether any pixel
    /// was switched off.
    fn draw_sprite(&mut self, x_reg: usize, y_reg: usize, height: u8) -> (r: Result<(), Fault>)
        requires
            old(self).ready(),
            x_reg < 16,
            y_reg < 16,
            height < 16,
        ensures
            final(self).wf(),
            follows(
                old(self)@,
                final(self)@,
                r,
                old(self)@.execute(Instruction::DrawSprite { x: x_reg, y: y_reg, n: height }, 0),
            ),
            r is Ok && (forall|k: int| 0 <= k < 2048 ==> !#[trigger] old(self)@.display[k])
                ==> final(self)@.registers[0xF] == 0,
    {
        let base = self.index as usize;
        if height > 0 && base + height as usize > MEMORY_SIZE {
            return Err(Fault::AddressOutOfRange);
        }
        let x = self.registers[x_reg] as usize % DISPLAY_WIDTH;
        let y = self.registers[y_reg] as usize % DISPLAY_HEIGHT;
        let ghost s0 = self@;
        let ghost n = height as int;
        let mut collision = false;
        let mut row: u8 = 0;
        while row < height
            invariant
                row <= height < 16,
                x < 64,
                y < 32,
                base == s0.index,
                height == 0 || base + height <= 4096,
                n == height,
                self.ready(),
                self@ == (MachineState { display: self@.display, ..s0 }),
                forall|k: int|
                    0 <= k < 2048 ==> #[trigger] self@.display[k] == (s0.display[k]
                        != drawn_before(s0, x as int, y as int, n, k, row as int, 0)),
                collision == exists|k: int|
                    0 <= k < 2048 && s0.display[k] && #[trigger] drawn_before(
                        s0,
                        x as int,
                        y as int,
                        n,
                        k,
                        row as int,
                        0,
                    ),
            decreases height - row,
        {
            let y_pos = (y + row as usize) % DISPLAY_HEIGHT;
            assert(y_pos == if y + row < 32 { y + row } else { y + row - 32 });
            let pixel = self.memory[base + row as usize];
            let mut col: u8 = 0;
            while col < 8
                invariant
                    row < height < 16,
                    col <= 8,
                    x < 64,
                    y < 32,
                    y_pos < 32,
                    offset(y_pos as int, y as int, 32) == row,
                    pixel == s0.memory[base + row],
                    base == s0.index,
                    n == height,
                    self.ready(),
                    self@ == (MachineState { display: self@.display, ..s0 }),
                    forall|k: int|
                        0 <= k < 2048 ==> #[trigger] self@.display[k] == (s0.display[k]
                            != drawn_before(s0, x as int, y as int, n, k, row as int, col as int)),
                    collision == exists|k: int|
                        0 <= k < 2048 && s0.display[k] && #[trigger] drawn_before(
                            s0,
                            x as int,
                            y as int,
                            n,
                            k,
                            row as int,
                            col as int,
                        ),
                decreases 8 - col,
            {
                let x_pos = (x + col as usize) % DISPLAY_WIDTH;
                assert(x_pos == if x + col < 64 { x + col } else { x + col - 64 });
                let p = y_pos * DISPLAY_WIDTH + x_pos;
                let bit = pixel & (0x80u8 >> col) != 0;
                proof {
                    assert(p % 64 == x_pos && p / 64 == y_pos);
                    assert(offset(x_pos as int, x as int, 64) == col);
                    assert(!drawn_before(s0, x as int, y as int, n, p as int, row as int, col as int));
                    assert(drawn_before(s0, x as int, y as int, n, p as int, row as int, col + 1) == bit);
                    assert forall|k: int| 0 <= k < 2048 && k != p implies drawn_before(
                        s0,
                        x as int,
                        y as int,
                        n,
                        k,
                        row as int,
                        col + 1,
                    ) == drawn_before(s0, x as int, y as int, n, k, row as int, col as int) by {
                        if offset(k / 64, y as int, 32) == row && offset(k % 64, x as int, 64) == col {
                            assert(k / 64 == y_pos);
                            assert(k % 64 == x_pos);
                            assert(k == (k / 64) * 64 + k % 64);
                        }
                    }
                }
                if bit {
                    if self.display[p] {
                        collision = true;
                    }
                    self.display[p] = !self.display[p];
                }
                proof {
                    let next = col + 1;
                    if collision {
                        if bit && s0.display[p as int] {
                            assert(drawn_before(s0, x as int, y as int, n, p as int, row as int, next));
                        } else {
                            let k = choose|k: int|
                                0 <= k < 2048 && s0.display[k] && #[trigger] drawn_before(
                                    s0,
                                    x as int,
                                    y as int,
                                    n,
                                    k,
                                    row as int,
                                    col as int,
                                );
                            assert(drawn_before(s0, x as int, y as int, n, k, row as int, next));
                        }
                    } else {
                        assert forall|k: int| 0 <= k < 2048 implies !(s0.display[k] && #[trigger] drawn_before(
                            s0,
                            x as int,
                            y as int,
                            n,
                            k,
                            row as int,
                            next,
                        )) by {
                            if k != p {
                                assert(!(s0.display[k] && drawn_before(s0, x as int, y as int, n, k, row as int, col as int)));
                            }
                        }
                    }
                }
                col += 1;
            }
            proof {
                assert forall|k: int| 0 <= k < 2048 implies drawn_before(s0, x as int, y as int, n, k, row as int, 8)
                    == drawn_before(s0, x as int, y as int, n, k, row + 1, 0) by {}
                if collision {
                    let k = choose|k: int|
                        0 <= k < 2048 && s0.display[k] && #[trigger] drawn_before(s0, x as int, y as int, n, k, row as int, 8);
                    assert(drawn_before(s0, x as int, y as int, n, k, row + 1, 0));
                } else {
                    assert forall|k: int| 0 <= k < 2048 implies !(s0.display[k] && #[trigger] drawn_before(
                        s0,
                        x as int,
                        y as int,
                        n,
                        k,
                        row + 1,
                        0,
                    )) by {
                        assert(!(s0.display[k] && drawn_before(s0, x as int, y as int, n, k, row as int, 8)));
                    }
                }
            }
            row += 1;
        }
        self.registers[0xF] = if collision { 1 } else { 0 };
        self.pc += 2;
        proof {
            let ox = x as int;
            let oy = y as int;
            assert(ox == s0.registers[x_reg as int] as int % 64);
            assert(oy == s0.registers[y_reg as int] as int % 32);
            assert forall|k: int| 0 <= k < 2048 implies drawn_before(s0, ox, oy, n, k, n, 0)
                == s0.sprite_covers(ox, oy, n, k % 64, k / 64) by {}
            assert(self@.display =~= s0.drawn_display(ox, oy, n));
            if collision {
                let k = choose|k: int|
                    0 <= k < 2048 && s0.display[k] && #[trigger] drawn_before(s0, ox, oy, n, k, n, 0);
                assert(s0.display[k] && s0.sprite_covers(ox, oy, n, k % 64, k / 64));
            }
            if s0.collides(ox, oy, n) {
                let k = choose|k: int|
                    0 <= k < 2048 && #[trigger] s0.display[k] && s0.sprite_covers(ox, oy, n, k % 64, k / 64);
                assert(drawn_before(s0, ox, oy, n, k, n, 0));
            }
        }
        Ok(())
    }
}

impl Chip8 {
    /// Executes one decoded instruction; `rand` is the byte a `Cxnn` masks.
    fn execute(&mut self, ins: Instruction, rand: u8) -> (r: Result<(), Fault>)
        requires
            old(self).ready(),
            ins.wf(),
        ensures
            final(self).wf(),
            follows(old(self)@, final(self)@, r, old(self)@.execute(ins, rand)),
    {
        match ins {
            Instruction::ClearDisplay => {
                self.clear_display();
                Ok(())
            },
            Instruction::Return => self.return_from_subroutine(),
            Instruction::Jump { addr } => {
                self.jump(addr);
                Ok(())
            },
            Instruction::Call { addr } => self.call_subroutine(addr),
            Instruction::SkipIfEqual { x, nn } => {
                self.skip_if_equal(x, nn);
                Ok(())
            },
            Instruction::SkipIfNotEqual { x, nn } => {
                self.skip_if_not_equal(x, nn);
                Ok(())
            },
            Instruction::SkipIfRegistersEqual { x, y } => {
                self.skip_if_registers_equal(x, y);
                Ok(())
            },
            Instruction::SetRegister { x, nn } => {
                self.set_register(x, nn);
                Ok(())
            },
            Instruction::AddToRegister { x, nn } => {
                self.add_to_register(x, nn);
                Ok(())
            },
            Instruction::SetRegisterToRegister { x, y } => {
                self.set_register_to_register(x, y);
                Ok(())
            },
            Instruction::OrRegisters { x, y } => {
                self.or_registers(x, y);
                Ok(())
            },
            Instruction::AndRegisters { x, y } => {
                self.and_registers(x, y);
                Ok(())
            },
            Instruction::XorRegisters { x, y } => {
                self.xor_registers(x, y);
                Ok(())
            },
            Instruction::AddRegisters { x, y } => {
                self.add_registers(x, y);
                Ok(())
            },
            Instruction::SubRegisters { x, y } => {
                self.sub_registers(x, y);
                Ok(())
            },
            Instruction::ShiftRight { x } => {
                self.shift_right(x);
                Ok(())
            },
            Instruction::SubRegistersReverse { x, y } => {
                self.sub_registers_reverse(x, y);
                Ok(())
            },
            Instruction::ShiftLeft { x } => {
                self.shift_left(x);
                Ok(())
            },
            Instruction::SkipIfRegistersNotEqual { x, y } => {
                self.skip_if_registers_not_equal(x, y);
                Ok(())
            },
            Instruction::SetIndex { addr } => {
                self.set_index(addr);
                Ok(())
            },
            Instruction::JumpWithOffset { addr } => {
                self.jump_with_offset(addr);
                Ok(())
            },
            Instruction::Random { x, nn } => {
                self.random(x, nn, rand);
                Ok(())
            },
            Instruction::DrawSprite { x, y, n } => self.draw_sprite(x, y, n),
            Instruction::SkipIfKeyPressed { x } => self.skip_if_key_pressed(x),
            Instruction::SkipIfKeyNotPressed { x } => self.skip_if_key_not_pressed(x),
            Instruction::SetRegisterToDelayTimer { x } => {
                self.set_register_to_delay_timer(x);
                Ok(())
            },
            Instruction::WaitForKey { x } => {
                self.wait_for_key(x);
                Ok(())
            },
            Instruction::SetDelayTimer { x } => {
                self.set_delay_timer(x);
                Ok(())
            },
            Instruction::SetSoundTimer { x } => {
                self.set_sound_timer(x);
                Ok(())
            },
            Instruction::AddToIndex { x } => {
                self.add_to_index(x);
                Ok(())
            },
            Instruction::SetIndexToSprite { x } => {
                self.set_index_to_sprite(x);
                Ok(())
            },
            Instruction::StoreBcd { x } => self.store_bcd(x),
            Instruction::StoreRegisters { x } => self.store_registers(x),
            Instruction::LoadRegisters { x } => self.load_registers(x),
            Instruction::Unknown { opcode } => Err(Fault::UnknownOpcode { opcode }),
        }
    }

    fn tick_timers(&mut self)
        requires
            old(self).wf(),
        ensures
            final(self).wf(),
            final(self)@ == old(self)@.tick(),
    {
        if self.delay_timer > 0 {
            self.delay_timer -= 1;
        }
        if self.sound_timer > 0 {
            self.sound_timer -= 1;
        }
    }

    /// One cycle in which a `Cxnn` masks `rand`: fetch, decode, execute,
    /// then tick both timers. The timers tick on every cycle; a cycle that
    /// faults changes nothing else.
    pub fn emulate_cycle_with(&mut self, rand: u8) -> (r: Result<(), Fault>)
        requires
            old(self).wf(),
        ensures
            final(self).wf(),
            (final(self)@, r) == old(self)@.cycle(rand),
    {
        let r = match self.fetch() {
            Some(op) => self.execute(decode(op), rand),
            None => Err(Fault::AddressOutOfRange),
        };
        self.tick_timers();
        r
    }

    /// One cycle, with a byte drawn from the machine's generator when the
    /// instruction at `pc` is a `Cxnn`.
    pub fn emulate_cycle(&mut self) -> (r: Result<(), Fault>)
        requires
            old(self).wf(),
        ensures
            final(self).wf(),
            exists|b: u8| (final(self)@, r) == old(self)@.cycle(b),
            !(old(self)@.can_fetch() && decode_spec(old(self)@.opcode()) is Random) ==> (
            final(self)@,
            r,
            ) == old(self)@.cycle(0),
    {
        let needs_byte = match self.fetch() {
            Some(op) => matches!(decode(op), Instruction::Random { .. }),
            None => false,
        };
        let byte = if needs_byte {
            next_byte(&mut self.rng)
        } else {
            0
        };
        let r = self.emulate_cycle_with(byte);
        r
    }

    /// The display upscaled for a host window: 640 by 320 pixels, row-major,
    /// each display pixel a 10 by 10 block of `0xFFFFFF` (on) or `0` (off).
    pub fn get_display_buffer(&self) -> (r: Vec<u32>)
        requires
            self.wf(),
        ensures
            r@.len() == DISPLAY_WIDTH * DISPLAY_HEIGHT * SCALE_FACTOR * SCALE_FACTOR,
            forall|i: int| 0 <= i < r@.len() ==> #[trigger] r@[i] == self@.frame_pixel(i),
    {
        let row_len: usize = DISPLAY_WIDTH * SCALE_FACTOR;
        let total: usize = DISPLAY_WIDTH * DISPLAY_HEIGHT * SCALE_FACTOR * SCALE_FACTOR;
        let mut buffer: Vec<u32> = Vec::new();
        let mut i: usize = 0;
        while i < total
            invariant
                row_len == 640,
                total == 204800,
                i <= total,
                self.wf(),
                buffer@.len() == i,
                forall|j: int| 0 <= j < i ==> #[trigger] buffer@[j] == self@.frame_pixel(j),
            decreases total - i,
        {
            let x = (i % row_len) / SCALE_FACTOR;
            let y = (i / row_len) / SCALE_FACTOR;
            assert(x < 64 && y < 32);
            let color: u32 = if self.display[y * DISPLAY_WIDTH + x] {
                0xFFFFFF
            } else {
                0
            };
            buffer.push(color);
            i += 1;
        }
        buffer
    }

    /// Register `Vx`.
    pub fn register(&self, x: usize) -> (r: u8)
        requires
            self.wf(),
            x < NUM_REGISTERS,
        ensures
            r == self@.registers[x as int],
    {
        self.registers[x]
    }

    /// The program counter.
    pub fn pc(&self) -> (r: u16)
        ensures
            r == self@.pc,
    {
        self.pc
    }

    /// The index register `I`.
    pub fn index(&self) -> (r: u16)
        ensures
            r == self@.index,
    {
        self.index
    }

    /// The number of return addresses on the stack.
    pub fn stack_depth(&self) -> (r: u8)
        ensures
            r == self@.sp,
    {
        self.sp
    }

    pub fn delay_timer(&self) -> (r: u8)
        ensures
            r == self@.delay_timer,
    {
        self.delay_timer
    }

    pub fn sound_timer(&self) -> (r: u8)
        ensures
            r == self@.sound_timer,
    {
        self.sound_timer
    }

    /// The byte at `addr`.
    pub fn memory_at(&self, addr: usize) -> (r: u8)
        requires
            self.wf(),
            addr < MEMORY_SIZE,
        ensures
            r == self@.memory[addr as int],
    {
        self.memory[addr]
    }

    /// Whether the display pixel at column `x`, row `y` is on.
    pub fn pixel(&self, x: usize, y: usize) -> (r: bool)
        requires
            self.wf(),
            x < DISPLAY_WIDTH,
            y < DISPLAY_HEIGHT,
        ensures
            r == self@.pixel(x as int, y as int),
    {
        self.display[y * DISPLAY_WIDTH + x]
    }
}

} // verus!
