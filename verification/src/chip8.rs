//! The machine: registers, timers and program counter together with the
//! memory, stack, keypad and display that it owns, and the cycle that drives
//! them.

use crate::clock::{clamp_hz, cycles_per_frame, Clock, ClockView};
use crate::display::Display;
use crate::error::Chip8Error;
use crate::instruction::decode_spec;
use crate::keypad::KeyPad;
use crate::machine::{lemma_run_halted, Machine, Run, PROGRAM_START};
use crate::memory::Memory;
use crate::stack::Stack;
use vstd::prelude::*;

verus! {

/// The built-in font: for each hexadecimal digit a glyph of five rows, four
/// pixels wide, in the high half of each byte.
pub const FONT: [u8; 80] = [
    0xF0, 0x90, 0x90, 0x90, 0xF0,
    0x20, 0x60, 0x20, 0x20, 0x70,
    0xF0, 0x10, 0xF0, 0x80, 0xF0,
    0xF0, 0x10, 0xF0, 0x10, 0xF0,
    0x90, 0x90, 0xF0, 0x10, 0x10,
    0xF0, 0x80, 0xF0, 0x10, 0xF0,
    0xF0, 0x80, 0xF0, 0x90, 0xF0,
    0xF0, 0x10, 0x20, 0x40, 0x40,
    0xF0, 0x90, 0xF0, 0x90, 0xF0,
    0xF0, 0x90, 0xF0, 0x10, 0xF0,
    0xF0, 0x90, 0xF0, 0x90, 0x90,
    0xE0, 0x90, 0xE0, 0x90, 0xE0,
    0xF0, 0x80, 0x80, 0x80, 0xF0,
    0xE0, 0x90, 0x90, 0x90, 0xE0,
    0xF0, 0x80, 0xF0, 0x80, 0xF0,
    0xF0, 0x80, 0xF0, 0x80, 0x80,
];

/// A CHIP-8 machine.
pub struct Chip8 {
    /// The cycle counter that divides the clock down to the 60 Hz timers.
    pub clock: Clock,
    /// The index register.
    pub i: u16,
    /// The program counter.
    pub pc: u16,
    /// The delay timer.
    pub delay_timer: u8,
    /// The sound timer.
    pub sound_timer: u8,
    /// The registers `V0` to `VF`.
    pub v: [u8; 16],
    /// The keypad.
    pub keypad: KeyPad,
    /// The framebuffer.
    pub display: Display,
    /// The stack of return addresses.
    pub stack: Stack,
    /// The memory: the font at `0x000`, programs from `0x200` on.
    pub memory: Memory,
}

impl View for Chip8 {
    type V = Machine;

    open spec fn view(&self) -> Machine {
        Machine {
            clock: self.clock@,
            i: self.i,
            pc: self.pc,
            delay_timer: self.delay_timer,
            sound_timer: self.sound_timer,
            v: self.v@,
            keypad: self.keypad@,
            display: self.display@,
            stack: self.stack@,
            memory: self.memory@,
        }
    }
}

impl Chip8 {
    /// The parts of a machine being what they are, the machine is well
    /// formed.
    pub proof fn lemma_wf(&self)
        requires
            self.clock.inv(),
            self.keypad.inv(),
            self.stack.inv(),
        ensures
            self@.wf(),
    {
        self.clock.lemma_inv();
        self.keypad.lemma_inv();
        self.stack.lemma_inv();
        self.memory.lemma_wf();
        self.display.lemma_len();
    }

    /// A machine at `hz` cycles per second, or 60 if `hz` is less: all
    /// registers, timers and memory are zero, the display is blank, the stack
    /// is empty and the program counter is at `0x200`.
    pub fn init(hz: i32) -> (chip: Self)
        ensures
            chip@ == Machine::initial(hz as int),
    {
        Self {
            clock: Clock::new(hz),
            i: 0,
            pc: PROGRAM_START,
            delay_timer: 0,
            sound_timer: 0,
            v: [0x0; 16],
            keypad: KeyPad::new(),
            display: Display::new(),
            stack: Stack::new(),
            memory: Memory::new(),
        }
    }

    /// Sets the clock frequency to `hz` cycles per second, or to 60 if `hz`
    /// is less.
    pub fn set_hz(&mut self, hz: i32)
        ensures
            final(self)@ == (Machine {
                clock: ClockView { hz: clamp_hz(hz as int), ..old(self)@.clock },
                ..old(self)@
            }),
    {
        self.clock.set_hz(hz);
    }

    /// Makes the machine ready for another program: registers, timers,
    /// program counter, memory, display and keypad are as in a machine just
    /// made. The clock frequency and the stack stay as they are.
    pub fn reset(&mut self)
        ensures
            final(self)@ == old(self)@.reset(),
    {
        self.clock.restart();
        self.i = 0;
        self.pc = PROGRAM_START;
        self.delay_timer = 0;
        self.sound_timer = 0;
        self.v = [0; 16];
        self.keypad = KeyPad::new();
        self.display = Display::new();
        self.memory = if self.memory.is_observed() {
            Memory::with_heatmap()
        } else {
            Memory::new()
        };
    }

    /// Reads the instruction word at `pc`: the high byte first.
    pub fn fetch(&mut self, pc: u16) -> (opcode: u16)
        ensures
            opcode == old(self)@.fetch(pc),
            final(self)@ == old(self)@.fetched(pc),
    {
        let high: u8 = self.memory.get(pc);
        let low: u8 = self.memory.get(pc.wrapping_add(1));
        assert(((high as u16) << 8) | (low as u16) == high * 256 + low) by (bit_vector);
        ((high as u16) << 8) | (low as u16)
    }

    /// Copies `bytes` into memory from `pos` on.
    pub fn load(&mut self, pos: u16, bytes: Vec<u8>)
        ensures
            final(self)@ == old(self)@.load(pos, bytes@),
    {
        self.memory.load(pos, bytes.as_slice());
    }

    /// Counts one cycle; on every `hz / 60`-th cycle both timers count down
    /// by one, stopping at zero, and an observed memory cools.
    pub fn tick_timers(&mut self)
        ensures
            final(self)@ == old(self)@.tick_timers(),
    {
        if self.clock.advance() {
            self.delay_timer = self.delay_timer.saturating_sub(1);
            self.sound_timer = self.sound_timer.saturating_sub(1);
            if self.memory.is_observed() {
                self.memory.tick();
            }
        }
    }

    /// Runs one cycle: the timers tick; then a machine that waits for a key
    /// polls the keypad and leaves the program counter alone, and any other
    /// machine fetches the instruction at the program counter and executes
    /// it.
    ///
    /// A word that is no instruction is skipped and reported as
    /// `UnknownOpcode`: the machine can go on. A stack overflow or underflow
    /// is reported and the instruction is not carried out.
    pub fn cycle(&mut self) -> (r: Result<(), Chip8Error>)
        ensures
            exists|random: u8|
                random < 255 && final(self)@ == #[trigger] old(self)@.cycle(random),
            r == old(self)@.cycle_outcome(),
    {
        self.tick_timers();
        if self.keypad.waiting() {
            if let Some((key, dest)) = self.keypad.get_key() {
                self.v[dest] = key;
            }
            assert(self@ == old(self)@.cycle(0));
            Ok(())
        } else {
            let opcode: u16 = self.fetch(self.pc);
            let ghost fetched = self@;
            let outcome = self.exec_opcode(opcode);
            proof {
                let random = choose|random: u8|
                    random < 255 && self@ == #[trigger] fetched.execute(
                        decode_spec(opcode),
                        random,
                    );
                assert(self@ == old(self)@.cycle(random));
            }
            outcome
        }
    }

    /// Runs the cycles of one frame: as many as the clock frequency divided
    /// by `fps`, rounded to the nearest integer. The run ends early when a
    /// cycle reports a stack overflow or underflow, which is returned;
    /// otherwise the words that were skipped as unknown are returned in the
    /// order in which they were met.
    pub fn sync_cycle(&mut self, fps: i32) -> (r: Result<Vec<u16>, Chip8Error>)
        ensures
            exists|randoms: Seq<u8>|
                {
                    &&& randoms.len() == cycles_per_frame(old(self)@.clock.hz, fps as int)
                    &&& forall|k: int| 0 <= k < randoms.len() ==> randoms[k] < 255
                    &&& final(self)@ == (#[trigger] old(self)@.run(randoms)).machine
                    &&& match r {
                        Ok(unknown) => old(self)@.run(randoms).fault is None && unknown@ == old(
                            self,
                        )@.run(randoms).unknown,
                        Err(e) => old(self)@.run(randoms).fault == Some(e),
                    }
                },
    {
        let n: i32 = self.clock.cycles_per_frame(fps);
        let mut unknown: Vec<u16> = Vec::new();
        let ghost mut randoms: Seq<u8> = Seq::empty();
        let mut k: i32 = 0;
        while k < n
            invariant
                0 <= k <= n,
                n == cycles_per_frame(old(self)@.clock.hz, fps as int),
                randoms.len() == k,
                forall|j: int| 0 <= j < randoms.len() ==> randoms[j] < 255,
                old(self)@.run(randoms) == (Run {
                    machine: self@,
                    unknown: unknown@,
                    fault: None,
                }),
            decreases n - k,
        {
            let ghost before = self@;
            let outcome = self.cycle();
            proof {
                let random = choose|random: u8| random < 255 && self@ == before.cycle(random);
                assert(randoms.push(random).drop_last() == randoms);
                randoms = randoms.push(random);
            }
            k += 1;
            match outcome {
                Ok(_) => {},
                Err(Chip8Error::UnknownOpcode(opcode)) => {
                    unknown.push(opcode);
                },
                Err(e) => {
                    proof {
                        let more = Seq::new((n - k) as nat, |j: int| 0u8);
                        lemma_run_halted(old(self)@, randoms, more);
                        randoms = randoms + more;
                    }
                    return Err(e);
                },
            }
        }
        Ok(unknown)
    }

    /// Copies the built-in font into memory from `pos` on; `Fx29` expects it
    /// at address 0.
    pub fn load_font(&mut self, pos: u16)
        ensures
            final(self)@ == old(self)@.load(pos, FONT@),
    {
        self.memory.load(pos, FONT.as_slice());
    }
}

} // verus!
