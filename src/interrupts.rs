use vstd::prelude::*;

verus! {

/// An interrupt source, highest priority first.
#[derive(Debug, Clone, Copy, PartialEq, Eq, Structural)]
pub enum Interrupt {
    VBlank,
    Lcd,
    Timer,
    Serial,
    Joypad,
}

/// The service routine address of each source.
pub open spec fn vector_of(i: Interrupt) -> u16 {
    match i {
        Interrupt::VBlank => 0x40,
        Interrupt::Lcd => 0x48,
        Interrupt::Timer => 0x50,
        Interrupt::Serial => 0x58,
        Interrupt::Joypad => 0x60,
    }
}

/// The bit of each source in IE and IF.
pub open spec fn mask_of(i: Interrupt) -> u8 {
    match i {
        Interrupt::VBlank => 0x01,
        Interrupt::Lcd => 0x02,
        Interrupt::Timer => 0x04,
        Interrupt::Serial => 0x08,
        Interrupt::Joypad => 0x10,
    }
}

impl Interrupt {
    pub fn vector(self) -> (r: u16)
        ensures
            r == vector_of(self),
    {
        match self {
            Interrupt::VBlank => 0x40,
            Interrupt::Lcd => 0x48,
            Interrupt::Timer => 0x50,
            Interrupt::Serial => 0x58,
            Interrupt::Joypad => 0x60,
        }
    }
}

/// The interrupt request register IF, one flag per source.
#[derive(Debug, Clone, Copy, PartialEq, Eq, Structural)]
pub struct InterruptFlags {
    pub joypad: bool,
    pub serial: bool,
    pub timer: bool,
    pub lcd: bool,
    pub v_blank: bool,
}

impl InterruptFlags {
    pub open spec fn requested(self, i: Interrupt) -> bool {
        match i {
            Interrupt::VBlank => self.v_blank,
            Interrupt::Lcd => self.lcd,
            Interrupt::Timer => self.timer,
            Interrupt::Serial => self.serial,
            Interrupt::Joypad => self.joypad,
        }
    }

    /// These flags with the flag of `i` set to `on`.
    pub open spec fn with(self, i: Interrupt, on: bool) -> InterruptFlags {
        match i {
            Interrupt::VBlank => InterruptFlags { v_blank: on, ..self },
            Interrupt::Lcd => InterruptFlags { lcd: on, ..self },
            Interrupt::Timer => InterruptFlags { timer: on, ..self },
            Interrupt::Serial => InterruptFlags { serial: on, ..self },
            Interrupt::Joypad => InterruptFlags { joypad: on, ..self },
        }
    }

    /// Whether `i` is both requested and enabled in `ie`.
    pub open spec fn pending_for(self, ie: u8, i: Interrupt) -> bool {
        self.requested(i) && ie & mask_of(i) != 0
    }

    /// The enabled, requested source of highest priority.
    pub open spec fn highest_pending(self, ie: u8) -> Option<Interrupt> {
        if self.pending_for(ie, Interrupt::VBlank) {
            Some(Interrupt::VBlank)
        } else if self.pending_for(ie, Interrupt::Lcd) {
            Some(Interrupt::Lcd)
        } else if self.pending_for(ie, Interrupt::Timer) {
            Some(Interrupt::Timer)
        } else if self.pending_for(ie, Interrupt::Serial) {
            Some(Interrupt::Serial)
        } else if self.pending_for(ie, Interrupt::Joypad) {
            Some(Interrupt::Joypad)
        } else {
            None
        }
    }

    pub open spec fn from_bits(v: u8) -> InterruptFlags {
        InterruptFlags {
            joypad: v & 0x10 != 0,
            serial: v & 0x08 != 0,
            timer: v & 0x04 != 0,
            lcd: v & 0x02 != 0,
            v_blank: v & 0x01 != 0,
        }
    }

    pub open spec fn bits(self) -> u8 {
        ((if self.v_blank { 1int } else { 0 }) + (if self.lcd { 2int } else { 0 }) + (if self.timer {
            4int
        } else {
            0
        }) + (if self.serial { 8int } else { 0 }) + (if self.joypad { 16int } else { 0 })) as u8
    }

    pub fn new() -> (r: Self)
        ensures
            r == InterruptFlags::from_bits(0),
    {
        proof {
            assert(0u8 & 0x10 == 0) by (bit_vector);
            assert(0u8 & 0x08 == 0) by (bit_vector);
            assert(0u8 & 0x04 == 0) by (bit_vector);
            assert(0u8 & 0x02 == 0) by (bit_vector);
            assert(0u8 & 0x01 == 0) by (bit_vector);
        }
        InterruptFlags { joypad: false, serial: false, timer: false, lcd: false, v_blank: false }
    }

    /// Reads the flags from the low five bits of a byte.
    pub fn from_byte(value: u8) -> (r: Self)
        ensures
            r == InterruptFlags::from_bits(value),
    {
        InterruptFlags {
            joypad: value & 0x10 != 0,
            serial: value & 0x08 != 0,
            timer: value & 0x04 != 0,
            lcd: value & 0x02 != 0,
            v_blank: value & 0x01 != 0,
        }
    }

    /// The flags as a byte; the upper three bits are zero.
    pub fn to_byte(&self) -> (r: u8)
        ensures
            r == self.bits(),
    {
        let mut result: u8 = 0;
        if self.v_blank {
            result = result + 1;
        }
        if self.lcd {
            result = result + 2;
        }
        if self.timer {
            result = result + 4;
        }
        if self.serial {
            result = result + 8;
        }
        if self.joypad {
            result = result + 16;
        }
        result
    }

    /// Requests (or withdraws) one source.
    pub fn set(&mut self, i: Interrupt, on: bool)
        ensures
            *final(self) == old(self).with(i, on),
    {
        match i {
            Interrupt::VBlank => self.v_blank = on,
            Interrupt::Lcd => self.lcd = on,
            Interrupt::Timer => self.timer = on,
            Interrupt::Serial => self.serial = on,
            Interrupt::Joypad => self.joypad = on,
        }
    }

    /// The enabled, requested source of highest priority, if any.
    pub fn highest(&self, ie: u8) -> (r: Option<Interrupt>)
        ensures
            r == self.highest_pending(ie),
    {
        if self.v_blank && ie & 0x01 != 0 {
            Some(Interrupt::VBlank)
        } else if self.lcd && ie & 0x02 != 0 {
            Some(Interrupt::Lcd)
        } else if self.timer && ie & 0x04 != 0 {
            Some(Interrupt::Timer)
        } else if self.serial && ie & 0x08 != 0 {
            Some(Interrupt::Serial)
        } else if self.joypad && ie & 0x10 != 0 {
            Some(Interrupt::Joypad)
        } else {
            None
        }
    }
}

} // verus!
