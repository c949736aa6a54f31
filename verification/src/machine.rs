//! The mathematical model of the machine: its state as a value, and what
//! each instruction, a timer tick and a whole cycle make of it.

use crate::clock::{clamp_hz, ClockView};
use crate::display::{blank_screen, blit, blit_collides};
use crate::error::Chip8Error;
use crate::instruction::{decode_spec, Instruction};
use crate::keypad::KeyPadView;
use crate::memory::MemoryView;
use crate::opcodes::PC;
use crate::stack::{pop_result, pop_spec, push_result, push_spec};
use vstd::prelude::*;

verus! {

/// The address where programs are loaded and where execution starts.
pub const PROGRAM_START: u16 = 0x200;

/// The number of bytes of one glyph of the built-in font.
pub const GLYPH_BYTES: u16 = 5;

/// The address of the instruction that follows the one at `pc`.
pub open spec fn next_pc(pc: u16) -> u16 {
    ((pc + 2) % 0x10000) as u16
}

/// The address of the instruction after the one that follows the one at `pc`.
pub open spec fn skip_pc(pc: u16) -> u16 {
    ((pc + 4) % 0x10000) as u16
}

/// A timer after it counted down once: it stops at zero.
pub open spec fn count_down(timer: u8) -> u8 {
    if timer == 0 {
        0u8
    } else {
        (timer - 1) as u8
    }
}

/// The number that a flag register holds for a condition.
pub open spec fn flag(condition: bool) -> u8 {
    if condition {
        1u8
    } else {
        0u8
    }
}

/// The state of a machine.
#[verifier::ext_equal]
pub struct Machine {
    /// The cycle counter.
    pub clock: ClockView,
    /// The index register `I`.
    pub i: u16,
    /// The program counter.
    pub pc: u16,
    /// The delay timer.
    pub delay_timer: u8,
    /// The sound timer.
    pub sound_timer: u8,
    /// The sixteen registers `V0` to `VF`.
    pub v: Seq<u8>,
    /// The keypad.
    pub keypad: KeyPadView,
    /// The 2048 pixels of the framebuffer.
    pub display: Seq<bool>,
    /// The pending return addresses, the oldest first.
    pub stack: Seq<u16>,
    /// The memory.
    pub memory: MemoryView,
}

impl Machine {
    /// Every part has the size that the machine gives it.
    pub open spec fn wf(self) -> bool {
        &&& self.clock.wf()
        &&& self.v.len() == 16
        &&& self.keypad.wf()
        &&& self.display.len() == 2048
        &&& self.stack.len() <= 16
        &&& self.memory.wf()
    }

    /// The machine with `value` in register `x`.
    pub open spec fn set_v(self, x: int, value: u8) -> Machine {
        Machine { v: self.v.update(x, value), ..self }
    }

    /// The machine with `value` in the flag register `VF`.
    pub open spec fn set_flag(self, value: u8) -> Machine {
        self.set_v(15, value)
    }

    /// `00E0`: every pixel is off.
    pub open spec fn clear_screen(self) -> Machine {
        Machine { display: blank_screen(), ..self }
    }

    /// `00EE`: the newest return address leaves the stack.
    pub open spec fn return_from_call(self) -> Machine {
        Machine { stack: pop_spec(self.stack), ..self }
    }

    /// `2nnn`: the address of the next instruction goes onto the stack.
    pub open spec fn call(self) -> Machine {
        Machine { stack: push_spec(self.stack, next_pc(self.pc)), ..self }
    }

    /// `6xnn`: `Vx` holds `nn`.
    pub open spec fn load_imm(self, x: int, nn: u8) -> Machine {
        self.set_v(x, nn)
    }

    /// `7xnn`: `Vx` holds `Vx + nn` modulo 256.
    pub open spec fn add_imm(self, x: int, nn: u8) -> Machine {
        self.set_v(x, ((self.v[x] + nn) % 256) as u8)
    }

    /// `8xy0`: `Vx` holds `Vy`.
    pub open spec fn move_register(self, x: int, y: int) -> Machine {
        self.set_v(x, self.v[y])
    }

    /// `8xy1`: `Vx` holds `Vx | Vy`.
    pub open spec fn or_registers(self, x: int, y: int) -> Machine {
        self.set_v(x, self.v[x] | self.v[y])
    }

    /// `8xy2`: `Vx` holds `Vx & Vy`.
    pub open spec fn and_registers(self, x: int, y: int) -> Machine {
        self.set_v(x, self.v[x] & self.v[y])
    }

    /// `8xy3`: `Vx` holds `Vx ^ Vy`.
    pub open spec fn xor_registers(self, x: int, y: int) -> Machine {
        self.set_v(x, self.v[x] ^ self.v[y])
    }

    /// `8xy4`: `Vx` holds `Vx + Vy` modulo 256, then `VF` tells whether the
    /// sum exceeded 255.
    pub open spec fn add_registers(self, x: int, y: int) -> Machine {
        let sum = self.v[x] + self.v[y];
        self.set_v(x, (sum % 256) as u8).set_flag(flag(sum > 255))
    }

    /// `8xy5`: `Vx` holds `Vx - Vy` modulo 256, then `VF` tells whether no
    /// borrow was needed.
    pub open spec fn sub_registers(self, x: int, y: int) -> Machine {
        let difference = self.v[x] - self.v[y];
        self.set_v(x, (difference % 256) as u8).set_flag(flag(difference >= 0))
    }

    /// `8xy7`: `Vx` holds `Vy - Vx` modulo 256, then `VF` tells whether no
    /// borrow was needed.
    pub open spec fn sub_from_register(self, x: int, y: int) -> Machine {
        let difference = self.v[y] - self.v[x];
        self.set_v(x, (difference % 256) as u8).set_flag(flag(difference >= 0))
    }

    /// `8xy6`: `Vx` holds half of `Vx`, rounded down, then `VF` holds the bit
    /// that was shifted out.
    pub open spec fn shift_right(self, x: int) -> Machine {
        self.set_v(x, self.v[x] / 2).set_flag(self.v[x] % 2)
    }

    /// `8xyE`: `Vx` holds twice `Vx` modulo 256, then `VF` holds the bit that
    /// was shifted out.
    pub open spec fn shift_left(self, x: int) -> Machine {
        self.set_v(x, ((self.v[x] * 2) % 256) as u8).set_flag(self.v[x] / 128)
    }

    /// `Annn`: `I` holds `nnn`.
    pub open spec fn load_index(self, nnn: u16) -> Machine {
        Machine { i: nnn, ..self }
    }

    /// `Cxnn`: `Vx` holds the random byte `random`, masked by `nn`.
    pub open spec fn random(self, x: int, nn: u8, random: u8) -> Machine {
        self.set_v(x, random & nn)
    }

    /// The rows of the sprite that `Dxyn` draws: the `n` bytes at `I`.
    pub open spec fn sprite(self, n: u8) -> Seq<u8> {
        self.memory.read_range(self.i as int, n as nat)
    }

    /// `Dxyn`: the sprite is drawn at `(Vx mod 64, Vy mod 32)`, then `VF`
    /// tells whether a lit pixel was turned off.
    pub open spec fn draw(self, x: int, y: int, n: u8) -> Machine {
        let x0 = self.v[x] as int % 64;
        let y0 = self.v[y] as int % 32;
        Machine {
            display: blit(self.display, x0, y0, self.sprite(n)),
            v: self.v.update(15, flag(blit_collides(self.display, x0, y0, self.sprite(n)))),
            ..self
        }
    }

    /// Whether the key that `Vx` names is down; a number that names no key
    /// counts as a key that is never down.
    pub open spec fn key_down(self, x: int) -> bool {
        self.v[x] < 16 && self.keypad.keys[self.v[x] as int]
    }

    /// `Fx07`: `Vx` holds the delay timer.
    pub open spec fn read_delay(self, x: int) -> Machine {
        self.set_v(x, self.delay_timer)
    }

    /// `Fx0A`: the machine waits for a key that will go to `Vx`.
    pub open spec fn wait_key(self, x: usize) -> Machine {
        Machine { keypad: self.keypad.wait_for_key(x), ..self }
    }

    /// `Fx15`: the delay timer holds `Vx`.
    pub open spec fn set_delay(self, x: int) -> Machine {
        Machine { delay_timer: self.v[x], ..self }
    }

    /// `Fx18`: the sound timer holds `Vx`.
    pub open spec fn set_sound(self, x: int) -> Machine {
        Machine { sound_timer: self.v[x], ..self }
    }

    /// `Fx1E`: `I` holds `I + Vx` modulo 65536, and `VF` tells whether the
    /// sum exceeded 65535.
    pub open spec fn add_index(self, x: int) -> Machine {
        let sum = self.i + self.v[x];
        Machine { i: (sum % 0x10000) as u16, ..self }.set_flag(flag(sum > 0xFFFF))
    }

    /// `Fx29`: `I` holds the address of the glyph for `Vx` in a font that
    /// starts at address 0: five bytes for each glyph.
    pub open spec fn font_glyph(self, x: int) -> Machine {
        Machine { i: (self.v[x] * GLYPH_BYTES) as u16, ..self }
    }

    /// `Fx33`: the hundreds, tens and ones of `Vx` are stored at `I`, `I + 1`
    /// and `I + 2`.
    pub open spec fn store_bcd(self, x: int) -> Machine {
        let value = self.v[x];
        Machine {
            memory: self.memory.write(self.i as int, value / 100).write(
                self.i + 1,
                (value / 10) % 10,
            ).write(self.i + 2, value % 10),
            ..self
        }
    }

    /// `Fx55`: `V0` to `Vx` are stored at `I` to `I + x`: the memory cell
    /// that lies `k <= x` cells after `I`, going around the end of memory,
    /// holds `Vk`.
    pub open spec fn store_registers(self, x: int) -> Machine {
        Machine {
            memory: MemoryView {
                bytes: Seq::new(
                    4096,
                    |a: int|
                        if (a - self.i) % 4096 <= x {
                            self.v[(a - self.i) % 4096]
                        } else {
                            self.memory.bytes[a]
                        },
                ),
                ..self.memory
            },
            ..self
        }
    }

    /// `Fx65`: `V0` to `Vx` are loaded from `I` to `I + x`.
    pub open spec fn load_registers(self, x: int) -> Machine {
        Machine {
            v: Seq::new(
                16,
                |k: int|
                    if k <= x {
                        self.memory.read(self.i + k)
                    } else {
                        self.v[k]
                    },
            ),
            ..self
        }
    }

    /// What an instruction makes of the machine, but for the program counter.
    pub open spec fn effect(self, ins: Instruction, random: u8) -> Machine {
        match ins {
            Instruction::ClearScreen => self.clear_screen(),
            Instruction::Return => self.return_from_call(),
            Instruction::Call(_) => self.call(),
            Instruction::LoadImm(x, nn) => self.load_imm(x as int, nn),
            Instruction::AddImm(x, nn) => self.add_imm(x as int, nn),
            Instruction::Move(x, y) => self.move_register(x as int, y as int),
            Instruction::Or(x, y) => self.or_registers(x as int, y as int),
            Instruction::And(x, y) => self.and_registers(x as int, y as int),
            Instruction::Xor(x, y) => self.xor_registers(x as int, y as int),
            Instruction::Add(x, y) => self.add_registers(x as int, y as int),
            Instruction::Sub(x, y) => self.sub_registers(x as int, y as int),
            Instruction::ShiftRight(x, _) => self.shift_right(x as int),
            Instruction::SubFrom(x, y) => self.sub_from_register(x as int, y as int),
            Instruction::ShiftLeft(x, _) => self.shift_left(x as int),
            Instruction::LoadIndex(nnn) => self.load_index(nnn),
            Instruction::Random(x, nn) => self.random(x as int, nn, random),
            Instruction::Draw(x, y, n) => self.draw(x as int, y as int, n),
            Instruction::ReadDelay(x) => self.read_delay(x as int),
            Instruction::WaitKey(x) => self.wait_key(x),
            Instruction::SetDelay(x) => self.set_delay(x as int),
            Instruction::SetSound(x) => self.set_sound(x as int),
            Instruction::AddIndex(x) => self.add_index(x as int),
            Instruction::FontGlyph(x) => self.font_glyph(x as int),
            Instruction::StoreBcd(x) => self.store_bcd(x as int),
            Instruction::StoreRegisters(x) => self.store_registers(x as int),
            Instruction::LoadRegisters(x) => self.load_registers(x as int),
            Instruction::Jump(_)
            | Instruction::JumpOffset(_)
            | Instruction::SkipEqImm(_, _)
            | Instruction::SkipNeImm(_, _)
            | Instruction::SkipEq(_, _)
            | Instruction::SkipNe(_, _)
            | Instruction::SkipKeyDown(_)
            | Instruction::SkipKeyUp(_)
            | Instruction::Unknown(_) => self,
        }
    }

    /// How an instruction moves the program counter.
    pub open spec fn action(self, ins: Instruction) -> PC {
        match ins {
            Instruction::Return => if self.stack.len() > 0 {
                PC::Jump(self.stack.last())
            } else {
                PC::Next
            },
            Instruction::Jump(nnn) => PC::Jump(nnn),
            Instruction::Call(nnn) => PC::Jump(nnn),
            Instruction::JumpOffset(nnn) => PC::Jump((self.v[0] + nnn) as u16),
            Instruction::SkipEqImm(x, nn) => PC::Skip(self.v[x as int] == nn),
            Instruction::SkipNeImm(x, nn) => PC::Skip(self.v[x as int] != nn),
            Instruction::SkipEq(x, y) => PC::Skip(self.v[x as int] == self.v[y as int]),
            Instruction::SkipNe(x, y) => PC::Skip(self.v[x as int] != self.v[y as int]),
            Instruction::SkipKeyDown(x) => PC::Skip(self.key_down(x as int)),
            Instruction::SkipKeyUp(x) => PC::Skip(!self.key_down(x as int)),
            _ => PC::Next,
        }
    }

    /// What the machine reports for an instruction: an underflow for a
    /// return with no call pending, an overflow for a call with sixteen
    /// pending, the word itself if it is no instruction.
    pub open spec fn outcome(self, ins: Instruction) -> Result<(), Chip8Error> {
        match ins {
            Instruction::Return => match pop_result(self.stack) {
                Ok(_) => Ok(()),
                Err(e) => Err(e),
            },
            Instruction::Call(_) => push_result(self.stack),
            Instruction::Unknown(opcode) => Err(Chip8Error::UnknownOpcode(opcode)),
            _ => Ok(()),
        }
    }

    /// Whether the machine can carry out the instruction: it cannot when the
    /// stack overflows or underflows.
    pub open spec fn can_execute(self, ins: Instruction) -> bool {
        match self.outcome(ins) {
            Ok(_) => true,
            Err(e) => !e.is_fatal(),
        }
    }

    /// The machine after an instruction: the instruction's effect, and the
    /// program counter moved as the instruction says. An instruction that the
    /// machine cannot carry out leaves it as it is.
    pub open spec fn execute(self, ins: Instruction, random: u8) -> Machine {
        if self.can_execute(ins) {
            Machine { pc: self.action(ins).target(self.pc), ..self.effect(ins, random) }
        } else {
            self
        }
    }

    /// The machine after the clock counted one cycle: on every `hz / 60`-th
    /// cycle both timers count down, and an observed memory cools.
    pub open spec fn tick_timers(self) -> Machine {
        if self.clock.timers_due() {
            Machine {
                clock: self.clock.advanced(),
                delay_timer: count_down(self.delay_timer),
                sound_timer: count_down(self.sound_timer),
                memory: if self.memory.observed {
                    self.memory.cooled()
                } else {
                    self.memory
                },
                ..self
            }
        } else {
            Machine { clock: self.clock.advanced(), ..self }
        }
    }

    /// The instruction word at `pc`: the byte at `pc` is its high half, the
    /// byte after it its low half.
    pub open spec fn fetch(self, pc: u16) -> u16 {
        (self.memory.read(pc as int) * 256 + self.memory.read(pc + 1)) as u16
    }

    /// The machine after the instruction word at `pc` was fetched: the two
    /// reads are observed.
    pub open spec fn fetched(self, pc: u16) -> Machine {
        Machine { memory: self.memory.observe_read(pc as int).observe_read(pc + 1), ..self }
    }

    /// The machine after a poll of the keypad: a key that is down ends the
    /// wait and goes to the register that waits for it.
    pub open spec fn poll_key(self) -> Machine {
        match self.keypad.pressed() {
            Some((key, dest)) => Machine {
                keypad: self.keypad.polled(),
                v: self.v.update(dest as int, key),
                ..self
            },
            None => self,
        }
    }

    /// The machine after one cycle. The timers tick; then a machine that
    /// waits for a key only polls the keypad, and any other machine fetches
    /// the instruction at the program counter and executes it.
    pub open spec fn cycle(self, random: u8) -> Machine {
        let m = self.tick_timers();
        if m.keypad.waiting {
            m.poll_key()
        } else {
            m.fetched(m.pc).execute(decode_spec(m.fetch(m.pc)), random)
        }
    }

    /// What the machine reports for one cycle.
    pub open spec fn cycle_outcome(self) -> Result<(), Chip8Error> {
        let m = self.tick_timers();
        if m.keypad.waiting {
            Ok(())
        } else {
            m.fetched(m.pc).outcome(decode_spec(m.fetch(m.pc)))
        }
    }

    /// A machine as it is made: at `hz` cycles per second, or 60 if `hz` is
    /// less, everything zero or empty, and the program counter at `0x200`.
    pub open spec fn initial(hz: int) -> Machine {
        Machine {
            clock: ClockView { hz: clamp_hz(hz), tick: 0 },
            i: 0,
            pc: PROGRAM_START,
            delay_timer: 0,
            sound_timer: 0,
            v: Seq::new(16, |k: int| 0u8),
            keypad: KeyPadView::idle(),
            display: blank_screen(),
            stack: Seq::empty(),
            memory: MemoryView::blank(false),
        }
    }

    /// The machine after a reset: registers, timers, program counter,
    /// memory, display and keypad are as in a machine just made. The clock
    /// frequency, the stack and the choice of observing memory stay.
    pub open spec fn reset(self) -> Machine {
        Machine {
            clock: ClockView { tick: 0, ..self.clock },
            stack: self.stack,
            memory: MemoryView::blank(self.memory.observed),
            ..Machine::initial(0)
        }
    }

    /// The machine after `data` was loaded at `pos`.
    pub open spec fn load(self, pos: u16, data: Seq<u8>) -> Machine {
        Machine { memory: self.memory.load(pos as int, data), ..self }
    }

    /// The machine after as many cycles as `randoms` is long, cycle `k`
    /// drawing the random byte `randoms[k]`, together with what it reported
    /// on the way. The run ends with the first cycle that reports a stack
    /// overflow or underflow.
    pub open spec fn run(self, randoms: Seq<u8>) -> Run
        decreases randoms.len(),
    {
        if randoms.len() == 0 {
            Run { machine: self, unknown: Seq::empty(), fault: None }
        } else {
            let before = self.run(randoms.drop_last());
            if before.fault is Some {
                before
            } else {
                before.step(randoms.last())
            }
        }
    }
}

/// How far a run of several cycles came.
#[verifier::ext_equal]
pub struct Run {
    /// The machine after the last cycle that ran.
    pub machine: Machine,
    /// The words that were skipped because they are no instructions, in the
    /// order in which they were met.
    pub unknown: Seq<u16>,
    /// The stack overflow or underflow that ended the run, if one did.
    pub fault: Option<Chip8Error>,
}

impl Run {
    /// The run after one more cycle.
    pub open spec fn step(self, random: u8) -> Run {
        let machine = self.machine.cycle(random);
        match self.machine.cycle_outcome() {
            Ok(_) => Run { machine, ..self },
            Err(Chip8Error::UnknownOpcode(opcode)) => Run {
                machine,
                unknown: self.unknown.push(opcode),
                ..self
            },
            Err(e) => Run { machine, fault: Some(e), ..self },
        }
    }
}

/// A run that a fault has ended stays as it is, however many cycles more are
/// asked for.
pub proof fn lemma_run_halted(m: Machine, randoms: Seq<u8>, more: Seq<u8>)
    requires
        m.run(randoms).fault is Some,
    ensures
        m.run(randoms + more) == m.run(randoms),
    decreases more.len(),
{
    if more.len() == 0 {
        assert(randoms + more == randoms);
    } else {
        lemma_run_halted(m, randoms, more.drop_last());
        assert((randoms + more).drop_last() == randoms + more.drop_last());
    }
}

} // verus!
