//! Properties of the instruction set, proved over the model.
use vstd::prelude::*;
use crate::instruction::{Instruction, decode_spec};
use crate::machine::{MachineState, is_lowest_pressed};

verus! {

/// Adding registers: for any `a = Vx` and `b = Vy`, the flag register ends
/// at 1 exactly when `a + b > 255`, and `Vx` holds `(a + b) mod 256`. (When
/// `x` is the flag register itself the sum overwrites the flag.)
pub proof fn lemma_add_registers(s: MachineState, x: usize, y: usize, rand: u8)
    requires
        s.wf(),
        x < 15,
        y < 16,
    ensures
        ({
            let (a, b) = (s.registers[x as int], s.registers[y as int]);
            let t = s.execute(Instruction::AddRegisters { x, y }, rand)->Ok_0;
            &&& s.execute(Instruction::AddRegisters { x, y }, rand) is Ok
            &&& (t.registers[15] == 1 <==> a + b > 255)
            &&& (t.registers[15] == 0 <==> a + b <= 255)
            &&& t.registers[x as int] == (a + b) % 256
        }),
{
}

/// Subtracting registers: for any `a = Vx` and `b = Vy`, the flag register
/// ends at 1 exactly when `a > b`, and `Vx` holds `(a - b) mod 256`. (When
/// `x` is the flag register itself the difference overwrites the flag.)
pub proof fn lemma_sub_registers(s: MachineState, x: usize, y: usize, rand: u8)
    requires
        s.wf(),
        x < 15,
        y < 16,
    ensures
        ({
            let (a, b) = (s.registers[x as int], s.registers[y as int]);
            let t = s.execute(Instruction::SubRegisters { x, y }, rand)->Ok_0;
            &&& s.execute(Instruction::SubRegisters { x, y }, rand) is Ok
            &&& (t.registers[15] == 1 <==> a > b)
            &&& (t.registers[15] == 0 <==> a <= b)
            &&& t.registers[x as int] == (a - b) % 256
        }),
{
}

/// Clearing the display and then drawing any sprite reports no collision.
pub proof fn lemma_draw_after_clear_no_collision(
    s: MachineState,
    x: usize,
    y: usize,
    n: u8,
    rand: u8,
)
    requires
        s.wf(),
        x < 16,
        y < 16,
        n < 16,
    ensures
        ({
            let c = s.execute(Instruction::ClearDisplay, rand)->Ok_0;
            let d = c.execute(Instruction::DrawSprite { x, y, n }, rand);
            d is Ok ==> d->Ok_0.registers[15] == 0
        }),
{
    let c = s.execute(Instruction::ClearDisplay, rand)->Ok_0;
    let ox = c.registers[x as int] as int % 64;
    let oy = c.registers[y as int] as int % 32;
    assert(!c.collides(ox, oy, n as int));
}

/// Drawing the same sprite twice at the same place gives back the display
/// from before the first draw, and the second draw reports a collision
/// exactly when the sprite has a set bit on a pixel that was off before the
/// first. (The origin registers must not be the flag register, which the
/// first draw overwrites.)
pub proof fn lemma_draw_twice_restores(s: MachineState, x: usize, y: usize, n: u8, rand: u8)
    requires
        s.wf(),
        x < 15,
        y < 15,
        n < 16,
    ensures
        ({
            let ins = Instruction::DrawSprite { x, y, n };
            let ox = s.registers[x as int] as int % 64;
            let oy = s.registers[y as int] as int % 32;
            let t1 = s.execute(ins, rand)->Ok_0;
            let t2 = t1.execute(ins, rand)->Ok_0;
            s.execute(ins, rand) is Ok ==> {
                &&& t1.execute(ins, rand) is Ok
                &&& t2.display == s.display
                &&& (t2.registers[15] == 1 <==> exists|k: int|
                    0 <= k < 2048 && s.sprite_covers(ox, oy, n as int, k % 64, k / 64)
                        && !#[trigger] s.display[k])
            }
        }),
{
    let ins = Instruction::DrawSprite { x, y, n };
    let ox = s.registers[x as int] as int % 64;
    let oy = s.registers[y as int] as int % 32;
    let nn = n as int;
    if s.execute(ins, rand) is Ok {
        let t1 = s.execute(ins, rand)->Ok_0;
        assert(t1.registers[x as int] == s.registers[x as int]);
        assert(t1.registers[y as int] == s.registers[y as int]);
        let t2 = t1.execute(ins, rand)->Ok_0;
        assert forall|px: int, py: int|
            t1.sprite_covers(ox, oy, nn, px, py) == s.sprite_covers(ox, oy, nn, px, py) by {}
        assert(t2.display =~= s.display);
        if t1.collides(ox, oy, nn) {
            let k = choose|k: int|
                0 <= k < 2048 && #[trigger] t1.display[k] && t1.sprite_covers(ox, oy, nn, k % 64, k / 64);
            assert(!s.display[k]);
        }
        if exists|k: int|
            0 <= k < 2048 && s.sprite_covers(ox, oy, nn, k % 64, k / 64) && !#[trigger] s.display[k] {
            let k = choose|k: int|
                0 <= k < 2048 && s.sprite_covers(ox, oy, nn, k % 64, k / 64) && !#[trigger] s.display[k];
            assert(t1.display[k]);
        }
    }
}

/// Storing the decimal digits of `Vx` writes three digits below ten whose
/// decimal value is `Vx`.
pub proof fn lemma_store_bcd_digits(s: MachineState, x: usize, rand: u8)
    requires
        s.wf(),
        x < 16,
        s.index + 2 < 4096,
    ensures
        ({
            let i = s.index as int;
            let m = s.execute(Instruction::StoreBcd { x }, rand)->Ok_0.memory;
            &&& s.execute(Instruction::StoreBcd { x }, rand) is Ok
            &&& m[i] < 10 && m[i + 1] < 10 && m[i + 2] < 10
            &&& m[i] * 100 + m[i + 1] * 10 + m[i + 2] == s.registers[x as int]
        }),
{
}

/// After a program is loaded at the start address, with `pc` there, the
/// first opcode fetched is the image's first two bytes, most significant
/// first.
pub proof fn lemma_load_then_fetch(s: MachineState, rom: Seq<u8>)
    requires
        s.wf(),
        s.pc == 0x200,
        rom.len() >= 2,
    ensures
        s.load(rom).can_fetch(),
        s.load(rom).opcode() == rom[0] as int * 256 + rom[1] as int,
{
}

/// Waiting for a key with none held changes nothing, so every later attempt
/// sees the same state; with a key held it latches the lowest-numbered held
/// key and moves `pc` on by two.
pub proof fn lemma_wait_for_key(s: MachineState, x: usize, rand: u8)
    requires
        s.wf(),
        s.can_fetch(),
        x < 16,
    ensures
        (forall|k: int| 0 <= k < 16 ==> !#[trigger] s.keys[k]) ==> s.execute(
            Instruction::WaitForKey { x },
            rand,
        ) == Ok::<MachineState, crate::machine::Fault>(s),
        forall|k: int|
            #[trigger] is_lowest_pressed(s.keys, k) ==> {
                let t = s.execute(Instruction::WaitForKey { x }, rand)->Ok_0;
                &&& s.execute(Instruction::WaitForKey { x }, rand) is Ok
                &&& t.registers[x as int] == k
                &&& t.pc == s.pc + 2
            },
{
    assert forall|k: int| #[trigger] is_lowest_pressed(s.keys, k) implies {
        let t = s.execute(Instruction::WaitForKey { x }, rand)->Ok_0;
        &&& s.execute(Instruction::WaitForKey { x }, rand) is Ok
        &&& t.registers[x as int] == k
        &&& t.pc == s.pc + 2
    } by {
        let c = choose|c: int| is_lowest_pressed(s.keys, c);
        assert(c == k);
    }
}

/// A whole cycle on a wait-for-key instruction with no key held leaves `pc`
/// where it was, so the same instruction is fetched again.
pub proof fn lemma_wait_cycle_keeps_pc(s: MachineState, rand: u8)
    requires
        s.wf(),
        s.can_fetch(),
        decode_spec(s.opcode()) is WaitForKey,
        forall|k: int| 0 <= k < 16 ==> !#[trigger] s.keys[k],
    ensures
        s.cycle(rand).1 is Ok,
        s.cycle(rand).0.pc == s.pc,
        s.cycle(rand).0.opcode() == s.opcode(),
{
    let x = decode_spec(s.opcode())->WaitForKey_x;
    lemma_wait_for_key(s, x, rand);
}

/// A jump with offset `nnn` moves `pc` to `nnn + V0`, so the next fetch reads
/// the opcode stored there.
pub proof fn lemma_jump_with_offset_then_fetch(s: MachineState, addr: u16, rand: u8)
    requires
        s.wf(),
        addr < 0x1000,
    ensures
        ({
            let t = s.execute(Instruction::JumpWithOffset { addr }, rand)->Ok_0;
            let target = addr + s.registers[0];
            &&& s.execute(Instruction::JumpWithOffset { addr }, rand) is Ok
            &&& t.pc == target
            &&& target + 1 < 4096 ==> t.can_fetch() && t.opcode() == s.memory[target]
                * 256 + s.memory[target + 1]
        }),
{
}

} // verus!
