//! The clock divider: how many instruction cycles make one tick of the 60 Hz
//! timers, and how many cycles belong to one rendered frame.

use vstd::prelude::*;

verus! {

/// The rate at which the delay and sound timers count down, and the lowest
/// clock frequency that can be configured.
pub const TIMER_HZ: i32 = 60;

/// The frequency that is configured when `hz` is asked for: at least 60.
pub open spec fn clamp_hz(hz: int) -> int {
    if hz < 60 {
        60
    } else {
        hz
    }
}

/// The number of cycles to run for one frame at `fps` frames per second: the
/// quotient of the clock frequency and the frame rate, rounded to the nearest
/// integer, halves upwards. A frame rate below 1 counts as 1.
pub open spec fn cycles_per_frame(hz: int, fps: int) -> int {
    let f = if fps < 1 {
        1
    } else {
        fps
    };
    (2 * hz + f) / (2 * f)
}

/// The mathematical content of a `Clock`.
pub struct ClockView {
    /// The configured clock frequency in cycles per second.
    pub hz: int,
    /// The number of cycles counted since the counter last wrapped.
    pub tick: int,
}

impl ClockView {
    /// The frequency is at least 60 Hz and the counter can take one more
    /// cycle.
    pub open spec fn wf(self) -> bool {
        60 <= self.hz <= i32::MAX && 0 <= self.tick < i32::MAX
    }

    /// Whether the cycle that is counted next is one on which the timers
    /// count down: every `hz / 60`-th cycle is.
    pub open spec fn timers_due(self) -> bool {
        (self.tick + 1) % (self.hz / 60) == 0
    }

    /// The clock after one more cycle was counted: the counter wraps to zero
    /// when it reaches the frequency.
    pub open spec fn advanced(self) -> ClockView {
        ClockView { tick: if self.tick + 1 >= self.hz { 0 } else { self.tick + 1 }, ..self }
    }
}

/// The cycle counter of a machine.
pub struct Clock {
    hz: i32,
    tick: i32,
}

impl View for Clock {
    type V = ClockView;

    closed spec fn view(&self) -> ClockView {
        ClockView { hz: self.hz as int, tick: self.tick as int }
    }
}

impl Clock {
    /// The invariant of every clock: at least 60 Hz, and room for one more
    /// cycle in the counter.
    #[verifier::type_invariant]
    pub closed spec fn inv(&self) -> bool {
        60 <= self.hz && 0 <= self.tick < i32::MAX
    }

    /// The content of a clock is well formed.
    pub proof fn lemma_inv(&self)
        requires
            self.inv(),
        ensures
            self@.wf(),
    {
    }

    /// A clock at `hz` cycles per second, or at 60 if `hz` is less, that has
    /// counted no cycle yet.
    pub fn new(hz: i32) -> (c: Self)
        ensures
            c@ == (ClockView { hz: clamp_hz(hz as int), tick: 0 }),
            c@.wf(),
    {
        Clock { hz: if hz < TIMER_HZ { TIMER_HZ } else { hz }, tick: 0 }
    }

    /// The configured frequency.
    pub fn hz(&self) -> (hz: i32)
        ensures
            hz == self@.hz,
            self@.wf(),
    {
        proof {
            use_type_invariant(self);
        }
        self.hz
    }

    /// The number of cycles counted since the counter last wrapped.
    pub fn ticks(&self) -> (tick: i32)
        ensures
            tick == self@.tick,
            self@.wf(),
    {
        proof {
            use_type_invariant(self);
        }
        self.tick
    }

    /// Sets the frequency to `hz`, or to 60 if `hz` is less.
    pub fn set_hz(&mut self, hz: i32)
        ensures
            final(self)@ == (ClockView { hz: clamp_hz(hz as int), ..old(self)@ }),
            final(self)@.wf(),
    {
        proof {
            use_type_invariant(&*self);
        }
        self.hz = if hz < TIMER_HZ { TIMER_HZ } else { hz };
    }

    /// Starts counting from zero again.
    pub fn restart(&mut self)
        ensures
            final(self)@ == (ClockView { tick: 0, ..old(self)@ }),
            final(self)@.wf(),
    {
        proof {
            use_type_invariant(&*self);
        }
        self.tick = 0;
    }

    /// Counts one cycle and tells whether the timers count down on it.
    pub fn advance(&mut self) -> (due: bool)
        ensures
            due == old(self)@.timers_due(),
            final(self)@ == old(self)@.advanced(),
            final(self)@.wf(),
    {
        proof {
            use_type_invariant(&*self);
        }
        let next: i32 = self.tick + 1;
        let due = next % (self.hz / TIMER_HZ) == 0;
        self.tick = if next >= self.hz { 0 } else { next };
        due
    }

    /// The number of cycles to run for one frame at `fps` frames per second.
    pub fn cycles_per_frame(&self, fps: i32) -> (n: i32)
        ensures
            n == cycles_per_frame(self@.hz, fps as int),
            n >= 0,
    {
        proof {
            use_type_invariant(self);
        }
        let f: i64 = if fps < 1 { 1 } else { fps as i64 };
        let hz: i64 = self.hz as i64;
        let n: i64 = (2 * hz + f) / (2 * f);
        assert(n <= hz) by (nonlinear_arith)
            requires
                n == (2 * hz + f) / (2 * f),
                f >= 1,
                hz >= 60,
        ;
        n as i32
    }
}

} // verus!
