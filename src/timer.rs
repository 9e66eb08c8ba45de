use vstd::prelude::*;

verus! {

/// The counter bit whose falling edge clocks TIMA, per TAC mode.
#[derive(Debug, Clone, Copy, PartialEq, Eq, Structural)]
pub enum TimerFrequency {
    Cycles256,
    Cycles4,
    Cycles16,
    Cycles64,
}

pub open spec fn frequency_of(control: u8) -> TimerFrequency {
    if control % 4 == 0 {
        TimerFrequency::Cycles256
    } else if control % 4 == 1 {
        TimerFrequency::Cycles4
    } else if control % 4 == 2 {
        TimerFrequency::Cycles16
    } else {
        TimerFrequency::Cycles64
    }
}

/// The tap bit of the system counter for a frequency: bit 9, 3, 5 or 7.
pub open spec fn tap_of(f: TimerFrequency) -> u16 {
    match f {
        TimerFrequency::Cycles256 => 0x200,
        TimerFrequency::Cycles4 => 0x08,
        TimerFrequency::Cycles16 => 0x20,
        TimerFrequency::Cycles64 => 0x80,
    }
}

impl TimerFrequency {
    pub fn from_control(control: u8) -> (r: Self)
        ensures
            r == frequency_of(control),
    {
        let m = control % 4;
        if m == 0 {
            TimerFrequency::Cycles256
        } else if m == 1 {
            TimerFrequency::Cycles4
        } else if m == 2 {
            TimerFrequency::Cycles16
        } else {
            TimerFrequency::Cycles64
        }
    }

    pub fn tap(self) -> (r: u16)
        ensures
            r == tap_of(self),
    {
        match self {
            TimerFrequency::Cycles256 => 0x200,
            TimerFrequency::Cycles4 => 0x08,
            TimerFrequency::Cycles16 => 0x20,
            TimerFrequency::Cycles64 => 0x80,
        }
    }
}

/// DIV, TIMA, TMA and TAC over a 16-bit system counter.
#[derive(Debug, Clone, Copy, PartialEq, Eq, Structural)]
pub struct TimerRegisters {
    pub system_counter: u16,
    pub counter: u8,
    pub modulo: u8,
    pub control: u8,
    pub pending_overflow: bool,
    pub counter_written: bool,
}

impl Default for TimerRegisters {
    fn default() -> (r: Self)
        ensures
            r.system_counter == 0xAB00,
            r.counter == 0,
            r.modulo == 0,
            r.control == 0xF8,
            !r.pending_overflow,
            !r.counter_written,
    {
        TimerRegisters {
            system_counter: 0xAB00,
            counter: 0x00,
            modulo: 0x00,
            control: 0xF8,
            pending_overflow: false,
            counter_written: false,
        }
    }
}

impl TimerRegisters {
    pub open spec fn enabled(self) -> bool {
        self.control & 0x04 != 0
    }

    /// The system counter after one M-cycle.
    pub open spec fn next_counter(self) -> u16 {
        ((self.system_counter as int + 4) % 0x10000) as u16
    }

    /// Whether this M-cycle has a falling edge on the selected tap bit.
    pub open spec fn ticks(self) -> bool {
        let tap = tap_of(frequency_of(self.control));
        self.enabled() && self.system_counter & tap != 0 && self.next_counter() & tap == 0
    }

    /// TIMA at the start of the M-cycle, after a pending reload.
    pub open spec fn reloaded(self) -> u8 {
        if self.pending_overflow {
            self.modulo
        } else {
            self.counter
        }
    }

    /// Whether TIMA is incremented this M-cycle.
    pub open spec fn increments(self) -> bool {
        self.ticks() && !self.counter_written
    }

    /// The registers after one M-cycle.
    pub open spec fn next(self) -> TimerRegisters {
        TimerRegisters {
            system_counter: self.next_counter(),
            counter: if self.increments() {
                ((self.reloaded() as int + 1) % 256) as u8
            } else {
                self.reloaded()
            },
            modulo: self.modulo,
            control: self.control,
            pending_overflow: self.increments() && self.reloaded() == 0xFF,
            counter_written: false,
        }
    }

    /// The registers after `n` M-cycles with no guest writes.
    pub open spec fn after(self, n: nat) -> TimerRegisters
        decreases n,
    {
        if n == 0 {
            self
        } else {
            self.after((n - 1) as nat).next()
        }
    }

    pub open spec fn div(self) -> u8 {
        (self.system_counter / 256) as u8
    }

    /// DIV: the high byte of the system counter.
    pub fn divider(&self) -> (r: u8)
        ensures
            r == self.div(),
    {
        (self.system_counter / 256) as u8
    }

    /// A guest write to DIV clears the whole system counter.
    pub fn reset_divider(&mut self)
        ensures
            *final(self) == old(self).with_system_counter(0),
    {
        self.system_counter = 0;
    }

    pub open spec fn with_system_counter(self, v: u16) -> TimerRegisters {
        TimerRegisters { system_counter: v, ..self }
    }

    pub open spec fn with_modulo(self, v: u8) -> TimerRegisters {
        TimerRegisters { modulo: v, ..self }
    }

    pub open spec fn with_control(self, v: u8) -> TimerRegisters {
        TimerRegisters { control: v, ..self }
    }

    /// Whether `new` is these registers after at most one guest write to
    /// DIV, TIMA, TMA or TAC.
    pub open spec fn touched(self, new: TimerRegisters) -> bool {
        ||| new == self
        ||| new == self.with_system_counter(0)
        ||| new == self.with_counter_write(new.counter)
        ||| new == self.with_modulo(new.modulo)
        ||| new == self.with_control(new.control)
    }

    pub open spec fn with_counter_write(self, v: u8) -> TimerRegisters {
        TimerRegisters { counter: v, counter_written: true, ..self }
    }

    /// A guest write to TIMA, which suppresses an increment in the same M-cycle.
    pub fn write_counter(&mut self, value: u8)
        ensures
            *final(self) == old(self).with_counter_write(value),
    {
        self.counter = value;
        self.counter_written = true;
    }

    /// Advances one M-cycle; returns whether the timer interrupt is requested.
    pub fn step(&mut self) -> (r: bool)
        ensures
            *final(self) == old(self).next(),
            r == old(self).pending_overflow,
    {
        let mut request_interrupt = false;
        if self.pending_overflow {
            self.pending_overflow = false;
            self.counter = self.modulo;
            request_interrupt = true;
        }
        let old_system_counter = self.system_counter;
        self.system_counter = self.system_counter.wrapping_add(4);
        if self.control & 0x04 != 0 {
            let tap = TimerFrequency::from_control(self.control).tap();
            let tick = old_system_counter & tap != 0 && self.system_counter & tap == 0;
            if !self.counter_written && tick {
                let overflow = self.counter == 0xFF;
                self.counter = self.counter.wrapping_add(1);
                if overflow {
                    self.pending_overflow = true;
                }
            }
        }
        self.counter_written = false;
        request_interrupt
    }
}

/// The system counter advances by four each M-cycle.
proof fn lemma_counter_after(t: TimerRegisters, n: nat)
    ensures
        t.after(n).system_counter == (t.system_counter as int + 4 * n) % 0x10000,
    decreases n,
{
    if n > 0 {
        lemma_counter_after(t, (n - 1) as nat);
    }
}

/// From a reset counter, DIV after `n` M-cycles is ((n * 4) >> 8) & 0xFF.
pub proof fn lemma_divider_ground_truth(t: TimerRegisters, n: nat)
    requires
        t.system_counter == 0,
    ensures
        t.after(n).div() == ((n * 4) / 256) % 256,
{
    lemma_counter_after(t, n);
    assert(((4 * n) % 0x10000) / 256 == ((n * 4) / 256) % 256) by (nonlinear_arith);
}

/// When TIMA overflows in one M-cycle it reads 0x00 at the end of that cycle,
/// and at the end of the next cycle it holds TMA and the interrupt is requested.
pub proof fn lemma_overflow_delay(t: TimerRegisters)
    requires
        t.increments(),
        t.reloaded() == 0xFF,
    ensures
        t.next().counter == 0,
        t.next().pending_overflow,
        t.next().next().counter == t.modulo,
{
    let t1 = t.next();
    let tap = tap_of(frequency_of(t.control));
    assert(t1.control == t.control);
    assert(t1.system_counter & tap == 0);
    assert(!t1.ticks());
}

} // verus!
