//! Pacing by elapsed time: instructions run at about 700 per second and
//! the timers count down 60 times per second, whatever the speed of the
//! host's loop.

use vstd::prelude::*;

verus! {

/// Nanoseconds in a second.
pub const SEC_TO_NANOS: u128 = 1_000_000_000;

/// Instructions per second.
pub const CPU_TICKS_PER_SECOND: u128 = 700;

/// Timer ticks per second.
pub const TIMER_TICKS_PER_SECOND: u128 = 60;

/// Nanoseconds that have to pass before the next instruction runs.
pub const CPU_TICK_NANOS: u128 = SEC_TO_NANOS / CPU_TICKS_PER_SECOND;

/// Nanoseconds that have to pass before the timers count down again.
pub const TIMER_TICK_NANOS: u128 = SEC_TO_NANOS / TIMER_TICKS_PER_SECOND;

/// What is due after some time has passed.
#[derive(Clone, Copy, Debug, PartialEq, Eq, Structural)]
pub struct Due {
    /// Run one instruction.
    pub cpu_tick: bool,
    /// Count the timers down once.
    pub timer_tick: bool,
}

/// The pacer as a mathematical value: the nanoseconds gathered since the
/// last instruction and since the last timer tick.
pub struct PacerView {
    pub cpu_tick_acc: int,
    pub timer_ticks: int,
}

impl PacerView {
    /// Whether an instruction is due once `delta_time` more nanoseconds
    /// have passed.
    pub open spec fn cpu_due(self, delta_time: int) -> bool {
        self.cpu_tick_acc + delta_time > CPU_TICK_NANOS
    }

    /// Whether a timer tick is due once `delta_time` more nanoseconds have
    /// passed.
    pub open spec fn timer_due(self, delta_time: int) -> bool {
        self.timer_ticks + delta_time > TIMER_TICK_NANOS
    }

    /// What is due once `delta_time` more nanoseconds have passed.
    pub open spec fn due(self, delta_time: int) -> Due {
        Due { cpu_tick: self.cpu_due(delta_time), timer_tick: self.timer_due(delta_time) }
    }

    /// The pacer after `delta_time` more nanoseconds: each count grows by
    /// them, and starts again from zero when its tick falls due.
    pub open spec fn advance(self, delta_time: int) -> PacerView {
        PacerView {
            cpu_tick_acc: if self.cpu_due(delta_time) {
                0
            } else {
                self.cpu_tick_acc + delta_time
            },
            timer_ticks: if self.timer_due(delta_time) {
                0
            } else {
                self.timer_ticks + delta_time
            },
        }
    }
}

/// Gathers elapsed time and tells when an instruction and when a timer
/// tick is due.
pub struct Pacer {
    cpu_tick_acc: u128,
    timer_ticks: u128,
}

impl View for Pacer {
    type V = PacerView;

    closed spec fn view(&self) -> PacerView {
        PacerView { cpu_tick_acc: self.cpu_tick_acc as int, timer_ticks: self.timer_ticks as int }
    }
}

impl Pacer {
    #[verifier::type_invariant]
    spec fn inv(&self) -> bool {
        self.cpu_tick_acc <= CPU_TICK_NANOS && self.timer_ticks <= TIMER_TICK_NANOS
    }

    /// A pacer that has gathered no time yet.
    pub fn new() -> (r: Self)
        ensures
            r@ == (PacerView { cpu_tick_acc: 0, timer_ticks: 0 }),
    {
        Self { cpu_tick_acc: 0, timer_ticks: 0 }
    }

    /// Takes in the `delta_time` nanoseconds that passed since the last
    /// call and tells what is due now.
    pub fn advance(&mut self, delta_time: u128) -> (due: Due)
        ensures
            due == old(self)@.due(delta_time as int),
            final(self)@ == old(self)@.advance(delta_time as int),
    {
        proof {
            use_type_invariant(&*self);
        }
        let cpu_tick = delta_time > CPU_TICK_NANOS - self.cpu_tick_acc;
        let timer_tick = delta_time > TIMER_TICK_NANOS - self.timer_ticks;
        let cpu_tick_acc = if cpu_tick {
            0
        } else {
            self.cpu_tick_acc + delta_time
        };
        let timer_ticks = if timer_tick {
            0
        } else {
            self.timer_ticks + delta_time
        };
        self.cpu_tick_acc = cpu_tick_acc;
        self.timer_ticks = timer_ticks;
        Due { cpu_tick, timer_tick }
    }
}

} // verus!
