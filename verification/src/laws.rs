//! What holds of every machine: consequences of the model that programs and
//! front ends rely on.

use crate::display::{blit, lemma_blit_pixels, lemma_blit_twice};
use crate::instruction::{
    decode_spec, field_i, field_n, field_nn, field_nnn, field_x, field_y, Instruction,
};
use crate::keypad::lemma_first_key_down;
use crate::machine::Machine;
use vstd::prelude::*;

verus! {

/// Every instruction word decodes to an instruction with operands in range.
pub proof fn lemma_decode_wf(opcode: u16)
    ensures
        decode_spec(opcode).wf(),
{
}

/// The fields of the word that is put together from four hexadecimal digits
/// are those digits.
pub proof fn lemma_fields(i: int, x: int, y: int, n: int)
    requires
        0 <= i < 16,
        0 <= x < 16,
        0 <= y < 16,
        0 <= n < 16,
    ensures
        ({
            let opcode = (i * 4096 + x * 256 + y * 16 + n) as u16;
            &&& opcode == i * 4096 + x * 256 + y * 16 + n
            &&& field_i(opcode) == i
            &&& field_x(opcode) == x
            &&& field_y(opcode) == y
            &&& field_n(opcode) == n
            &&& field_nn(opcode) == y * 16 + n
            &&& field_nnn(opcode) == x * 256 + y * 16 + n
        }),
{
    let w = i * 4096 + x * 256 + y * 16 + n;
    assert(w / 4096 == i);
    assert(w / 256 == i * 16 + x);
    assert(w / 16 == i * 256 + x * 16 + y);
}

/// The words `6xnn`, `7xnn`, `8xy4` and `8xy5` decode to the instructions
/// that they are written for.
pub proof fn lemma_decode_arithmetic(x: usize, y: usize, nn: u8)
    requires
        x < 16,
        y < 16,
    ensures
        decode_spec((0x6000 + x * 256 + nn) as u16) == Instruction::LoadImm(x, nn),
        decode_spec((0x7000 + x * 256 + nn) as u16) == Instruction::AddImm(x, nn),
        decode_spec((0x8004 + x * 256 + y * 16) as u16) == Instruction::Add(x, y),
        decode_spec((0x8005 + x * 256 + y * 16) as u16) == Instruction::Sub(x, y),
{
    lemma_fields(6, x as int, nn as int / 16, nn as int % 16);
    lemma_fields(7, x as int, nn as int / 16, nn as int % 16);
    lemma_fields(8, x as int, y as int, 4);
    lemma_fields(8, x as int, y as int, 5);
}

/// Only `Cxnn` looks at the random byte.
pub proof fn lemma_random_only_in_random(m: Machine, ins: Instruction, r1: u8, r2: u8)
    requires
        !(ins is Random),
    ensures
        m.execute(ins, r1) == m.execute(ins, r2),
{
}

/// A machine as it is made is well formed.
pub proof fn lemma_initial_wf(hz: i32)
    ensures
        Machine::initial(hz as int).wf(),
{
}

/// An instruction leaves a well-formed machine well formed.
pub proof fn lemma_execute_wf(m: Machine, ins: Instruction, random: u8)
    requires
        m.wf(),
        ins.wf(),
    ensures
        m.execute(ins, random).wf(),
{
    match ins {
        Instruction::Draw(x, y, n) => {
            lemma_blit_pixels(
                m.display,
                m.v[x as int] as int % 64,
                m.v[y as int] as int % 32,
                m.sprite(n),
            );
        },
        _ => {},
    }
}

/// A cycle leaves a well-formed machine well formed.
pub proof fn lemma_cycle_wf(m: Machine, random: u8)
    requires
        m.wf(),
    ensures
        m.cycle(random).wf(),
{
    let ticked = m.tick_timers();
    assert(ticked.wf());
    if ticked.keypad.waiting {
        lemma_first_key_down(ticked.keypad.keys, 0);
    } else {
        let opcode = ticked.fetch(ticked.pc);
        lemma_decode_wf(opcode);
        lemma_execute_wf(ticked.fetched(ticked.pc), decode_spec(opcode), random);
    }
}

/// A run of cycles leaves a well-formed machine well formed.
pub proof fn lemma_run_wf(m: Machine, randoms: Seq<u8>)
    requires
        m.wf(),
    ensures
        m.run(randoms).machine.wf(),
    decreases randoms.len(),
{
    if randoms.len() > 0 {
        lemma_run_wf(m, randoms.drop_last());
        lemma_cycle_wf(m.run(randoms.drop_last()).machine, randoms.last());
    }
}

/// After `6xnn` and then `7xnn` on the same register, the register holds the
/// sum of the two immediates modulo 256.
pub proof fn lemma_load_then_add(m: Machine, x: usize, nn1: u8, nn2: u8, r1: u8, r2: u8)
    requires
        m.wf(),
        x < 16,
    ensures
        m.execute(decode_spec((0x6000 + x * 256 + nn1) as u16), r1).execute(
            decode_spec((0x7000 + x * 256 + nn2) as u16),
            r2,
        ).v[x as int] == (nn1 + nn2) % 256,
{
    lemma_decode_arithmetic(x, 0, nn1);
    lemma_decode_arithmetic(x, 0, nn2);
}

/// `8xy4` sets `VF` to 1 exactly when the sum of the two registers exceeds
/// 255, and to 0 otherwise.
pub proof fn lemma_add_carry(m: Machine, x: usize, y: usize, random: u8)
    requires
        m.wf(),
        x < 16,
        y < 16,
    ensures
        ({
            let after = m.execute(decode_spec((0x8004 + x * 256 + y * 16) as u16), random);
            &&& after.v[15] == 1 <==> m.v[x as int] + m.v[y as int] > 255
            &&& after.v[15] == 0 <==> m.v[x as int] + m.v[y as int] <= 255
            &&& x != 15 ==> after.v[x as int] == (m.v[x as int] + m.v[y as int]) % 256
        }),
{
    lemma_decode_arithmetic(x, y, 0);
}

/// `8xy5` sets `VF` to 0 exactly when `Vx` is less than `Vy` before the
/// subtraction, and to 1 otherwise.
pub proof fn lemma_sub_borrow(m: Machine, x: usize, y: usize, random: u8)
    requires
        m.wf(),
        x < 16,
        y < 16,
    ensures
        ({
            let after = m.execute(decode_spec((0x8005 + x * 256 + y * 16) as u16), random);
            &&& after.v[15] == 0 <==> m.v[x as int] < m.v[y as int]
            &&& after.v[15] == 1 <==> m.v[x as int] >= m.v[y as int]
            &&& x != 15 ==> after.v[x as int] == (m.v[x as int] - m.v[y as int]) % 256
        }),
{
    lemma_decode_arithmetic(x, y, 0);
}

/// An instruction that sets a flag writes `VF` last: where `Vx` is `VF`
/// itself, the flag is what stays.
pub proof fn lemma_flag_wins(m: Machine, y: usize, random: u8)
    requires
        m.wf(),
        y < 16,
    ensures
        m.execute(Instruction::Add(15, y), random).v[15] <= 1,
        m.execute(Instruction::Sub(15, y), random).v[15] <= 1,
        m.execute(Instruction::SubFrom(15, y), random).v[15] <= 1,
        m.execute(Instruction::ShiftRight(15, y), random).v[15] == m.v[15] % 2,
        m.execute(Instruction::ShiftLeft(15, y), random).v[15] == m.v[15] / 128,
{
}

/// Drawing the same sprite twice at the same place restores the display,
/// and the second drawing sets `VF` to 1 whenever the first one lit a pixel.
/// The place is the same when the first drawing's flag did not move the
/// coordinates, as is the case whenever neither of them is taken from `VF`.
pub proof fn lemma_draw_twice(m: Machine, x: usize, y: usize, n: u8, r1: u8, r2: u8)
    requires
        m.wf(),
        x < 16,
        y < 16,
        m.execute(Instruction::Draw(x, y, n), r1).v[x as int] % 64 == m.v[x as int] % 64,
        m.execute(Instruction::Draw(x, y, n), r1).v[y as int] % 32 == m.v[y as int] % 32,
    ensures
        ({
            let once = m.execute(Instruction::Draw(x, y, n), r1);
            let twice = once.execute(Instruction::Draw(x, y, n), r2);
            &&& twice.display == m.display
            &&& (exists|p: int| 0 <= p < 2048 && !m.display[p] && once.display[p]) ==> twice.v[15]
                == 1
        }),
{
    let x0 = m.v[x as int] as int % 64;
    let y0 = m.v[y as int] as int % 32;
    let once = m.execute(Instruction::Draw(x, y, n), r1);
    assert(once.sprite(n) == m.sprite(n));
    assert(once.display == blit(m.display, x0, y0, m.sprite(n)));
    lemma_blit_twice(m.display, x0, y0, m.sprite(n));
}

/// A drawing does not move its own coordinates unless it takes one of them
/// from `VF`.
pub proof fn lemma_draw_keeps_place(m: Machine, x: usize, y: usize, n: u8, random: u8)
    requires
        m.wf(),
        x < 15,
        y < 15,
    ensures
        m.execute(Instruction::Draw(x, y, n), random).v[x as int] == m.v[x as int],
        m.execute(Instruction::Draw(x, y, n), random).v[y as int] == m.v[y as int],
{
}

/// A machine that waits for a key does not move its program counter. With
/// no key down the cycle only ticks the timers and the machine goes on
/// waiting; with a key down the lowest such key goes to the register that
/// waits for it, and the wait is over.
pub proof fn lemma_waiting_holds_pc(m: Machine, random: u8)
    requires
        m.wf(),
        m.keypad.waiting,
    ensures
        m.cycle(random).pc == m.pc,
        m.cycle_outcome() is Ok,
        (forall|k: int| 0 <= k < 16 ==> !m.keypad.keys[k]) ==> m.cycle(random) == m.tick_timers()
            && m.cycle(random).keypad.waiting,
        forall|k: int|
            0 <= k < 16 && m.keypad.keys[k] && (forall|j: int| 0 <= j < k ==> !m.keypad.keys[j])
                ==> m.cycle(random).v[m.keypad.dest_register as int] == k && !m.cycle(
                random,
            ).keypad.waiting,
{
    lemma_first_key_down(m.keypad.keys, 0);
}

/// `Fx0A` starts a wait for a key that goes to `Vx`, and moves on to the
/// next instruction; no other instruction starts or ends a wait.
pub proof fn lemma_wait_begins(m: Machine, ins: Instruction, random: u8)
    requires
        m.wf(),
        ins.wf(),
    ensures
        ins matches Instruction::WaitKey(x) ==> m.execute(ins, random).keypad.waiting && m.execute(
            ins,
            random,
        ).keypad.dest_register == x && m.execute(ins, random).pc == (m.pc + 2) % 0x10000,
        !(ins is WaitKey) ==> m.execute(ins, random).keypad == m.keypad,
{
}

} // verus!
