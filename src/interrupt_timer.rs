use vstd::prelude::*;

verus! {

/// Cycles between two interrupts of one source.
pub const PERIOD: u32 = 33334;

/// The two periodic interrupt sources and the interrupt they last raised.
pub struct InterruptTimers {
    pub number: u8,
    pub interrupt: bool,
    pub timers: [InterruptTimer; 2],
}

/// One periodic source: its interrupt number, its cycle accumulator and
/// whether it has just fired.
#[derive(Clone, Copy)]
pub struct InterruptTimer {
    pub number: u8,
    pub cycles: u16,
    pub interrupt: bool,
}

impl InterruptTimer {
    /// The source after `other` more cycles: the accumulator is reduced
    /// modulo the period, and the source fires when it reaches the period.
    pub open spec fn spec_add(self, other: u16) -> InterruptTimer {
        let sum = self.cycles + other;
        if sum >= PERIOD {
            InterruptTimer { cycles: (sum % PERIOD as int) as u16, interrupt: true, ..self }
        } else {
            InterruptTimer { cycles: sum as u16, ..self }
        }
    }

    pub fn new(number: u8, cycles: u16) -> (r: InterruptTimer)
        ensures
            r == (InterruptTimer { number, cycles, interrupt: false }),
    {
        InterruptTimer { number, cycles, interrupt: false }
    }

    pub fn add_assign(&mut self, other: u16)
        ensures
            *final(self) == old(self).spec_add(other),
    {
        let sum: u32 = self.cycles as u32 + other as u32;
        if sum >= PERIOD {
            self.cycles = (sum % PERIOD) as u16;
            self.interrupt = true;
        } else {
            self.cycles = sum as u16;
        }
    }
}

/// Advances one source inside the aggregate: when it fires, the aggregate
/// latches its number and the source's own flag is cleared.
pub open spec fn latch(number: u8, interrupt: bool, t: InterruptTimer) -> (u8, bool, InterruptTimer) {
    if t.interrupt {
        (t.number, true, InterruptTimer { interrupt: false, ..t })
    } else {
        (number, interrupt, t)
    }
}

impl InterruptTimers {
    /// Source 1 starts half a period ahead of source 2.
    pub open spec fn initial() -> InterruptTimers {
        InterruptTimers {
            number: 0,
            interrupt: false,
            timers: [
                InterruptTimer { number: 1, cycles: 16667, interrupt: false },
                InterruptTimer { number: 2, cycles: 0, interrupt: false },
            ],
        }
    }

    /// The aggregate after `other` more cycles, the sources taken in order.
    pub open spec fn spec_add(self, other: u16) -> InterruptTimers {
        let first = latch(self.number, self.interrupt, self.timers[0].spec_add(other));
        let second = latch(first.0, first.1, self.timers[1].spec_add(other));
        InterruptTimers { number: second.0, interrupt: second.1, timers: [first.2, second.2] }
    }

    pub fn new() -> (r: InterruptTimers)
        ensures
            r == InterruptTimers::initial(),
    {
        InterruptTimers {
            number: 0,
            interrupt: false,
            timers: [InterruptTimer::new(1, 16667), InterruptTimer::new(2, 0)],
        }
    }

    /// Advances both sources by `other` cycles.
    pub fn add_assign(&mut self, other: u16)
        ensures
            *final(self) == old(self).spec_add(other),
    {
        let mut first = self.timers[0];
        first.add_assign(other);
        if first.interrupt {
            self.interrupt = true;
            self.number = first.number;
            first.interrupt = false;
        }
        let mut second = self.timers[1];
        second.add_assign(other);
        if second.interrupt {
            self.interrupt = true;
            self.number = second.number;
            second.interrupt = false;
        }
        self.timers = [first, second];
    }
}

} // verus!
