//! The instructions: one handler for each, and the dispatch that executes an
//! instruction word.

use crate::chip8::Chip8;
use crate::display::{blit, blit_collides, lemma_row_wraps, Display};
use crate::error::Chip8Error;
use crate::instruction::{decode, decode_spec, Instruction};
use crate::machine::{next_pc, skip_pc, Machine, GLYPH_BYTES};
use crate::memory::MemoryView;
use crate::stack::{pop_result, push_result};
use vstd::prelude::*;

verus! {

/// What an instruction does to the program counter.
#[derive(Clone, Copy, Debug, PartialEq, Eq, Structural)]
pub enum PC {
    /// Go on with the next instruction.
    Next,
    /// Continue at the given address.
    Jump(u16),
    /// Skip the next instruction if the condition holds.
    Skip(bool),
}

impl PC {
    /// The program counter after the instruction at `pc` asked for this
    /// action. Instructions are two bytes long, and the counter wraps around
    /// at 65536.
    pub open spec fn target(self, pc: u16) -> u16 {
        match self {
            PC::Next => next_pc(pc),
            PC::Jump(addr) => addr,
            PC::Skip(skip) => if skip {
                skip_pc(pc)
            } else {
                next_pc(pc)
            },
        }
    }

    /// The program counter after the instruction at `pc` asked for this
    /// action.
    pub fn apply(self, pc: u16) -> (next: u16)
        ensures
            next == self.target(pc),
    {
        match self {
            PC::Next => pc.wrapping_add(0x02),
            PC::Jump(addr) => addr,
            PC::Skip(skip) => {
                if skip {
                    pc.wrapping_add(0x04)
                } else {
                    pc.wrapping_add(0x02)
                }
            },
        }
    }
}

/// Draws a byte from the process-wide generator of `macroquad::rand`, by
/// `gen_range(0, 255)`. The generator scales a 32-bit random number into the
/// half-open range, so the byte is below 255; which byte it is depends on
/// the generator's state and is not stated.
#[verifier::external_body]
fn random_byte() -> (r: u8)
    ensures
        r < 255,
{
    macroquad::rand::gen_range(0u8, 255u8)
}

#[allow(non_snake_case)]
impl Chip8 {
    /// Decodes and executes one instruction word. `Cxnn` draws its random
    /// byte from the generator of `macroquad::rand`; every other instruction
    /// is determined by the machine alone.
    ///
    /// A word that is no instruction is skipped and reported as
    /// `UnknownOpcode`; a stack overflow or underflow is reported and leaves
    /// the machine as it was.
    pub fn exec_opcode(&mut self, opcode: u16) -> (r: Result<(), Chip8Error>)
        ensures
            exists|random: u8|
                random < 255 && final(self)@ == #[trigger] old(self)@.execute(
                    decode_spec(opcode),
                    random,
                ),
            r == old(self)@.outcome(decode_spec(opcode)),
    {
        let ins = decode(opcode);
        let random: u8 = match ins {
            Instruction::Random(_, _) => random_byte(),
            _ => 0,
        };
        self.execute(ins, random)
    }

    /// Executes one instruction, with `random` as the byte that `Cxnn`
    /// draws.
    pub fn execute(&mut self, ins: Instruction, random: u8) -> (r: Result<(), Chip8Error>)
        requires
            ins.wf(),
        ensures
            final(self)@ == old(self)@.execute(ins, random),
            r == old(self)@.outcome(ins),
    {
        let action: PC = match ins {
            Instruction::ClearScreen => self._00E0(),
            Instruction::Return => self._00EE()?,
            Instruction::Jump(nnn) => self._1NNN(nnn),
            Instruction::Call(nnn) => self._2NNN(nnn)?,
            Instruction::SkipEqImm(x, nn) => self._3XNN(x, nn),
            Instruction::SkipNeImm(x, nn) => self._4XNN(x, nn),
            Instruction::SkipEq(x, y) => self._5XY0(x, y),
            Instruction::LoadImm(x, nn) => self._6XNN(x, nn),
            Instruction::AddImm(x, nn) => self._7XNN(x, nn),
            Instruction::Move(x, y) => self._8XY0(x, y),
            Instruction::Or(x, y) => self._8XY1(x, y),
            Instruction::And(x, y) => self._8XY2(x, y),
            Instruction::Xor(x, y) => self._8XY3(x, y),
            Instruction::Add(x, y) => self._8XY4(x, y),
            Instruction::Sub(x, y) => self._8XY5(x, y),
            Instruction::ShiftRight(x, y) => self._8XY6(x, y),
            Instruction::SubFrom(x, y) => self._8XY7(x, y),
            Instruction::ShiftLeft(x, y) => self._8XYE(x, y),
            Instruction::SkipNe(x, y) => self._9XY0(x, y),
            Instruction::LoadIndex(nnn) => self._ANNN(nnn),
            Instruction::JumpOffset(nnn) => self._BNNN(nnn),
            Instruction::Random(x, nn) => self._CXNN(x, nn, random),
            Instruction::Draw(x, y, n) => self._DXYN(x, y, n),
            Instruction::SkipKeyDown(x) => self._EX9E(x),
            Instruction::SkipKeyUp(x) => self._EXA1(x),
            Instruction::ReadDelay(x) => self._FX07(x),
            Instruction::WaitKey(x) => self._FX0A(x),
            Instruction::SetDelay(x) => self._FX15(x),
            Instruction::SetSound(x) => self._FX18(x),
            Instruction::AddIndex(x) => self._FX1E(x),
            Instruction::FontGlyph(x) => self._FX29(x),
            Instruction::StoreBcd(x) => self._FX33(x),
            Instruction::StoreRegisters(x) => self._FX55(x),
            Instruction::LoadRegisters(x) => self._FX65(x),
            Instruction::Unknown(opcode) => {
                self.pc = PC::Next.apply(self.pc);
                return Err(Chip8Error::UnknownOpcode(opcode));
            },
        };
        self.pc = action.apply(self.pc);
        Ok(())
    }

    /// Clear the display.
    fn _00E0(&mut self) -> (pc: PC)
        ensures
            final(self)@ == old(self)@.clear_screen(),
            pc == PC::Next,
    {
        self.display.clear();
        PC::Next
    }

    /// Return from a subroutine.
    fn _00EE(&mut self) -> (r: Result<PC, Chip8Error>)
        ensures
            final(self)@ == old(self)@.return_from_call(),
            match r {
                Ok(pc) => pop_result(old(self)@.stack) == Ok::<u16, Chip8Error>(pc->Jump_0) && pc
                    is Jump,
                Err(e) => pop_result(old(self)@.stack) == Err::<u16, Chip8Error>(e),
            },
    {
        let addr: u16 = self.stack.pop()?;
        Ok(PC::Jump(addr))
    }

    /// Jump to location `nnn`.
    fn _1NNN(&mut self, nnn: u16) -> (pc: PC)
        ensures
            final(self)@ == old(self)@,
            pc == PC::Jump(nnn),
    {
        PC::Jump(nnn)
    }

    /// Call the subroutine at `nnn`: the address of the instruction after
    /// the call is what the subroutine returns to.
    fn _2NNN(&mut self, nnn: u16) -> (r: Result<PC, Chip8Error>)
        ensures
            final(self)@ == old(self)@.call(),
            match r {
                Ok(pc) => push_result(old(self)@.stack) is Ok && pc == PC::Jump(nnn),
                Err(e) => push_result(old(self)@.stack) == Err::<(), Chip8Error>(e),
            },
    {
        self.stack.push(self.pc.wrapping_add(0x02))?;
        Ok(PC::Jump(nnn))
    }

    /// Skip if `Vx == nn`.
    fn _3XNN(&mut self, x: usize, nn: u8) -> (pc: PC)
        requires
            x < 16,
        ensures
            final(self)@ == old(self)@,
            pc == PC::Skip(old(self)@.v[x as int] == nn),
    {
        PC::Skip(self.v[x] == nn)
    }

    /// Skip if `Vx != nn`.
    fn _4XNN(&mut self, x: usize, nn: u8) -> (pc: PC)
        requires
            x < 16,
        ensures
            final(self)@ == old(self)@,
            pc == PC::Skip(old(self)@.v[x as int] != nn),
    {
        PC::Skip(self.v[x] != nn)
    }

    /// Skip if `Vx == Vy`.
    fn _5XY0(&mut self, x: usize, y: usize) -> (pc: PC)
        requires
            x < 16,
            y < 16,
        ensures
            final(self)@ == old(self)@,
            pc == PC::Skip(old(self)@.v[x as int] == old(self)@.v[y as int]),
    {
        PC::Skip(self.v[x] == self.v[y])
    }

    /// Skip if `Vx != Vy`.
    fn _9XY0(&mut self, x: usize, y: usize) -> (pc: PC)
        requires
            x < 16,
            y < 16,
        ensures
            final(self)@ == old(self)@,
            pc == PC::Skip(old(self)@.v[x as int] != old(self)@.v[y as int]),
    {
        PC::Skip(self.v[x] != self.v[y])
    }

    /// Set `Vx = nn`.
    fn _6XNN(&mut self, x: usize, nn: u8) -> (pc: PC)
        requires
            x < 16,
        ensures
            final(self)@ == old(self)@.load_imm(x as int, nn),
            pc == PC::Next,
    {
        self.v[x] = nn;
        PC::Next
    }

    /// Add `nn` to `Vx`.
    fn _7XNN(&mut self, x: usize, nn: u8) -> (pc: PC)
        requires
            x < 16,
        ensures
            final(self)@ == old(self)@.add_imm(x as int, nn),
            pc == PC::Next,
    {
        self.v[x] = self.v[x].wrapping_add(nn);
        PC::Next
    }

    /// Set `Vx` to `Vy`.
    fn _8XY0(&mut self, x: usize, y: usize) -> (pc: PC)
        requires
            x < 16,
            y < 16,
        ensures
            final(self)@ == old(self)@.move_register(x as int, y as int),
            pc == PC::Next,
    {
        self.v[x] = self.v[y];
        PC::Next
    }

    /// Set `Vx` to `Vx | Vy`.
    fn _8XY1(&mut self, x: usize, y: usize) -> (pc: PC)
        requires
            x < 16,
            y < 16,
        ensures
            final(self)@ == old(self)@.or_registers(x as int, y as int),
            pc == PC::Next,
    {
        self.v[x] = self.v[x] | self.v[y];
        PC::Next
    }

    /// Set `Vx` to `Vx & Vy`.
    fn _8XY2(&mut self, x: usize, y: usize) -> (pc: PC)
        requires
            x < 16,
            y < 16,
        ensures
            final(self)@ == old(self)@.and_registers(x as int, y as int),
            pc == PC::Next,
    {
        self.v[x] = self.v[x] & self.v[y];
        PC::Next
    }

    /// Set `Vx` to `Vx ^ Vy`.
    fn _8XY3(&mut self, x: usize, y: usize) -> (pc: PC)
        requires
            x < 16,
            y < 16,
        ensures
            final(self)@ == old(self)@.xor_registers(x as int, y as int),
            pc == PC::Next,
    {
        self.v[x] = self.v[x] ^ self.v[y];
        PC::Next
    }

    /// Add `Vy` to `Vx`; the carry goes to `VF`.
    fn _8XY4(&mut self, x: usize, y: usize) -> (pc: PC)
        requires
            x < 16,
            y < 16,
        ensures
            final(self)@ == old(self)@.add_registers(x as int, y as int),
            pc == PC::Next,
    {
        let (a, b) = (self.v[x], self.v[y]);
        let overflow = a > u8::MAX - b;
        self.v[x] = a.wrapping_add(b);
        self.v[0x0F] = if overflow { 1 } else { 0 };
        PC::Next
    }

    /// Set `Vx` to `Vx - Vy`; `VF` tells that nothing was borrowed.
    fn _8XY5(&mut self, x: usize, y: usize) -> (pc: PC)
        requires
            x < 16,
            y < 16,
        ensures
            final(self)@ == old(self)@.sub_registers(x as int, y as int),
            pc == PC::Next,
    {
        let (a, b) = (self.v[x], self.v[y]);
        let overflow = a < b;
        self.v[x] = a.wrapping_sub(b);
        self.v[0x0F] = if overflow { 0 } else { 1 };
        PC::Next
    }

    /// Set `Vx` to `Vy - Vx`; `VF` tells that nothing was borrowed.
    fn _8XY7(&mut self, x: usize, y: usize) -> (pc: PC)
        requires
            x < 16,
            y < 16,
        ensures
            final(self)@ == old(self)@.sub_from_register(x as int, y as int),
            pc == PC::Next,
    {
        let (a, b) = (self.v[x], self.v[y]);
        let overflow = b < a;
        self.v[x] = b.wrapping_sub(a);
        self.v[0x0F] = if overflow { 0 } else { 1 };
        PC::Next
    }

    /// Shift `Vx` right by one; the bit that falls out goes to `VF`.
    fn _8XY6(&mut self, x: usize, _y: usize) -> (pc: PC)
        requires
            x < 16,
        ensures
            final(self)@ == old(self)@.shift_right(x as int),
            pc == PC::Next,
    {
        let a: u8 = self.v[x];
        assert(a & 1 == a % 2 && a >> 1 == a / 2) by (bit_vector);
        self.v[x] = a >> 1;
        self.v[0x0F] = a & 1;
        PC::Next
    }

    /// Shift `Vx` left by one; the bit that falls out goes to `VF`.
    fn _8XYE(&mut self, x: usize, _y: usize) -> (pc: PC)
        requires
            x < 16,
        ensures
            final(self)@ == old(self)@.shift_left(x as int),
            pc == PC::Next,
    {
        let a: u8 = self.v[x];
        assert(a >> 7 == a / 128 && a << 1 == (a * 2) % 256) by (bit_vector);
        self.v[x] = a << 1;
        self.v[0x0F] = a >> 7;
        PC::Next
    }

    /// Set `I = nnn`.
    fn _ANNN(&mut self, nnn: u16) -> (pc: PC)
        ensures
            final(self)@ == old(self)@.load_index(nnn),
            pc == PC::Next,
    {
        self.i = nnn;
        PC::Next
    }

    /// Jump to `V0 + nnn`.
    fn _BNNN(&mut self, nnn: u16) -> (pc: PC)
        requires
            nnn < 4096,
        ensures
            final(self)@ == old(self)@,
            pc == PC::Jump((old(self)@.v[0] + nnn) as u16),
    {
        PC::Jump(self.v[0] as u16 + nnn)
    }

    /// Set `Vx` to the random byte `random`, masked by `nn`.
    fn _CXNN(&mut self, x: usize, nn: u8, random: u8) -> (pc: PC)
        requires
            x < 16,
        ensures
            final(self)@ == old(self)@.random(x as int, nn, random),
            pc == PC::Next,
    {
        self.v[x] = random & nn;
        PC::Next
    }

    /// Draw the sprite of `n` rows that is stored at `I`, at `(Vx, Vy)`.
    fn _DXYN(&mut self, x: usize, y: usize, n: u8) -> (pc: PC)
        requires
            x < 16,
            y < 16,
        ensures
            final(self)@ == old(self)@.draw(x as int, y as int, n),
            pc == PC::Next,
    {
        let x0: u8 = self.v[x] % Display::WIDTH;
        let y0: u8 = self.v[y] % Display::HEIGHT;
        let ghost sprite = self@.sprite(n);
        let mut collision = false;
        let mut y: u8 = y0;
        let mut b: u8 = 0;
        while b < n
            invariant
                b <= n,
                y as int % 32 == (y0 + b) % 32,
                sprite == old(self)@.sprite(n),
                self@ == (Machine {
                    display: blit(old(self)@.display, x0 as int, y0 as int, sprite.take(b as int)),
                    ..old(self)@
                }),
                collision == blit_collides(
                    old(self)@.display,
                    x0 as int,
                    y0 as int,
                    sprite.take(b as int),
                ),
            decreases n - b,
        {
            let sprite_data: u8 = self.memory.peek(self.i.wrapping_add(b as u16));
            proof {
                assert(sprite_data == sprite[b as int]);
                assert(sprite.take(b + 1).drop_last() == sprite.take(b as int));
                assert(sprite.take(b + 1).last() == sprite[b as int]);
                lemma_row_wraps(self@.display, x0 as int, y as int, y0 + b, sprite_data);
            }
            let hit = self.display.blit_row(x0, y, sprite_data);
            collision = collision || hit;
            y = y.wrapping_add(1);
            b += 1;
        }
        proof {
            assert(sprite.take(b as int) == sprite);
        }
        self.v[0x0F] = if collision { 1 } else { 0 };
        PC::Next
    }

    /// Skip if the key that `Vx` names is down.
    fn _EX9E(&mut self, x: usize) -> (pc: PC)
        requires
            x < 16,
        ensures
            final(self)@ == old(self)@,
            pc == PC::Skip(old(self)@.key_down(x as int)),
    {
        let key: u8 = self.v[x];
        PC::Skip(key < 16 && self.keypad.is_key_down(key))
    }

    /// Skip if the key that `Vx` names is not down.
    fn _EXA1(&mut self, x: usize) -> (pc: PC)
        requires
            x < 16,
        ensures
            final(self)@ == old(self)@,
            pc == PC::Skip(!old(self)@.key_down(x as int)),
    {
        let key: u8 = self.v[x];
        PC::Skip(!(key < 16 && self.keypad.is_key_down(key)))
    }

    /// Set `Vx` to the value of the delay timer.
    fn _FX07(&mut self, x: usize) -> (pc: PC)
        requires
            x < 16,
        ensures
            final(self)@ == old(self)@.read_delay(x as int),
            pc == PC::Next,
    {
        self.v[x] = self.delay_timer;
        PC::Next
    }

    /// Set the delay timer to the value of `Vx`.
    fn _FX15(&mut self, x: usize) -> (pc: PC)
        requires
            x < 16,
        ensures
            final(self)@ == old(self)@.set_delay(x as int),
            pc == PC::Next,
    {
        self.delay_timer = self.v[x];
        PC::Next
    }

    /// Set the sound timer to the value of `Vx`.
    fn _FX18(&mut self, x: usize) -> (pc: PC)
        requires
            x < 16,
        ensures
            final(self)@ == old(self)@.set_sound(x as int),
            pc == PC::Next,
    {
        self.sound_timer = self.v[x];
        PC::Next
    }

    /// Add `Vx` to `I`; `VF` tells whether `I` overflowed.
    fn _FX1E(&mut self, x: usize) -> (pc: PC)
        requires
            x < 16,
        ensures
            final(self)@ == old(self)@.add_index(x as int),
            pc == PC::Next,
    {
        let a: u16 = self.v[x] as u16;
        let overflow = self.i > u16::MAX - a;
        self.i = self.i.wrapping_add(a);
        self.v[0x0F] = if overflow { 1 } else { 0 };
        PC::Next
    }

    /// Wait for a key and store it in `Vx`.
    fn _FX0A(&mut self, x: usize) -> (pc: PC)
        requires
            x < 16,
        ensures
            final(self)@ == old(self)@.wait_key(x),
            pc == PC::Next,
    {
        self.keypad.wait_for_key(x);
        PC::Next
    }

    /// Set `I` to the glyph of the digit in `Vx`.
    fn _FX29(&mut self, x: usize) -> (pc: PC)
        requires
            x < 16,
        ensures
            final(self)@ == old(self)@.font_glyph(x as int),
            pc == PC::Next,
    {
        self.i = (self.v[x] as u16) * GLYPH_BYTES;
        PC::Next
    }

    /// Store the decimal digits of `Vx` at `I`, `I + 1` and `I + 2`.
    fn _FX33(&mut self, x: usize) -> (pc: PC)
        requires
            x < 16,
        ensures
            final(self)@ == old(self)@.store_bcd(x as int),
            pc == PC::Next,
    {
        let vx: u8 = self.v[x];
        self.memory.poke(self.i, vx / 100);
        self.memory.poke(self.i.wrapping_add(1), (vx / 10) % 10);
        self.memory.poke(self.i.wrapping_add(2), vx % 10);
        PC::Next
    }

    /// Store the registers `V0` to `Vx` in memory, from `I` on.
    fn _FX55(&mut self, x: usize) -> (pc: PC)
        requires
            x < 16,
        ensures
            final(self)@ == old(self)@.store_registers(x as int),
            pc == PC::Next,
    {
        proof {
            self.memory.lemma_wf();
        }
        let mut k: usize = 0;
        while k < x + 1
            invariant
                k <= x + 1,
                x < 16,
                self@ == (Machine {
                    memory: MemoryView {
                        bytes: Seq::new(
                            4096,
                            |a: int|
                                if (a - old(self)@.i) % 4096 < k {
                                    old(self)@.v[(a - old(self)@.i) % 4096]
                                } else {
                                    old(self)@.memory.bytes[a]
                                },
                        ),
                        ..old(self)@.memory
                    },
                    ..old(self)@
                }),
            decreases x + 1 - k,
        {
            self.memory.poke(self.i.wrapping_add(k as u16), self.v[k]);
            k += 1;
        }
        PC::Next
    }

    /// Load the registers `V0` to `Vx` from memory, from `I` on.
    fn _FX65(&mut self, x: usize) -> (pc: PC)
        requires
            x < 16,
        ensures
            final(self)@ == old(self)@.load_registers(x as int),
            pc == PC::Next,
    {
        let mut k: usize = 0;
        while k < x + 1
            invariant
                k <= x + 1,
                x < 16,
                self@ == (Machine {
                    v: Seq::new(
                        16,
                        |j: int|
                            if j < k {
                                old(self)@.memory.read(old(self)@.i + j)
                            } else {
                                old(self)@.v[j]
                            },
                    ),
                    ..old(self)@
                }),
            decreases x + 1 - k,
        {
            self.v[k] = self.memory.peek(self.i.wrapping_add(k as u16));
            k += 1;
        }
        PC::Next
    }
}

} // verus!
