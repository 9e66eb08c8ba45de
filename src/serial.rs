use vstd::prelude::*;

verus! {

/// The serial port as the bus sees it.
pub trait Serial: Sized {
    /// The byte SB reads as.
    spec fn data_view(&self) -> u8;

    /// The byte SC reads as.
    spec fn control_view(&self) -> u8;

    /// The last complete line sent.
    spec fn last_line_view(&self) -> Seq<u8>;

    /// Whether `new` is this port after a write of `value` to SB.
    spec fn after_data(&self, new: Self, value: u8) -> bool;

    /// Whether `new` is this port after a write of `value` to SC.
    spec fn after_control(&self, new: Self, value: u8) -> bool;

    fn write(&mut self, value: u8)
        ensures
            old(self).after_data(*final(self), value),
    ;

    fn read(&self) -> (r: u8)
        ensures
            r == self.data_view(),
    ;

    fn get_transfer_control(&self) -> (r: u8)
        ensures
            r == self.control_view(),
    ;

    fn set_transfer_control(&mut self, value: u8)
        ensures
            old(self).after_control(*final(self), value),
    ;

    fn get_last_buffer(&self) -> (r: Vec<u8>)
        ensures
            r@ == self.last_line_view(),
    ;
}

/// SC: transfer enable (bit 7) and internal clock (bit 0).
#[derive(Debug, Clone, Copy, PartialEq, Eq, Structural)]
pub struct SerialControl {
    pub enabled: bool,
    pub clock_select: bool,
}

impl SerialControl {
    pub open spec fn from_bits(v: u8) -> SerialControl {
        SerialControl { enabled: v & 0x80 != 0, clock_select: v & 0x01 != 0 }
    }

    /// The byte read from SC; the unused bits read as one.
    pub open spec fn bits(self) -> u8 {
        (0x7E + (if self.enabled { 0x80int } else { 0 }) + (if self.clock_select {
            1int
        } else {
            0
        })) as u8
    }

    pub fn from_byte(v: u8) -> (r: Self)
        ensures
            r == SerialControl::from_bits(v),
    {
        SerialControl { enabled: v & 0x80 != 0, clock_select: v & 0x01 != 0 }
    }

    pub fn to_byte(&self) -> (r: u8)
        ensures
            r == self.bits(),
    {
        let mut result: u8 = 0x7E;
        if self.enabled {
            result = result + 0x80;
        }
        if self.clock_select {
            result = result + 1;
        }
        result
    }
}

/// A serial port with no peer that captures what the guest sends as text,
/// one line at a time.
#[derive(Debug)]
pub struct LogSerial {
    pub transfer_data: u8,
    pub transfer_control: SerialControl,
    pub buffer: Vec<u8>,
    pub last_buffer: Vec<u8>,
}

pub open spec fn newline() -> u8 {
    0x0A
}

impl Default for LogSerial {
    fn default() -> (r: Self)
        ensures
            r.transfer_data == 0,
            r.transfer_control == SerialControl::from_bits(0),
            r.buffer@.len() == 0,
            r.last_buffer@.len() == 0,
    {
        proof {
            assert(0u8 & 0x80 == 0) by (bit_vector);
            assert(0u8 & 0x01 == 0) by (bit_vector);
        }
        LogSerial {
            transfer_data: 0,
            transfer_control: SerialControl { enabled: false, clock_select: false },
            buffer: Vec::new(),
            last_buffer: Vec::new(),
        }
    }
}

impl LogSerial {
    /// Whether `new` is this port after a write of `value` to SC.
    pub open spec fn control_written(&self, new: LogSerial, value: u8) -> bool {
        let sends = value & 0x80 != 0 && value & 0x01 != 0;
        &&& new.transfer_data == self.transfer_data
        &&& new.transfer_control == (SerialControl { enabled: false, clock_select: value & 0x01 != 0 })
        &&& if sends && self.transfer_data == newline() {
            new.last_buffer@ == self.buffer@ && new.buffer@.len() == 0
        } else if sends {
            new.buffer@ == self.buffer@.push(self.transfer_data) && new.last_buffer@ == self.last_buffer@
        } else {
            new.buffer@ == self.buffer@ && new.last_buffer@ == self.last_buffer@
        }
    }

    /// Whether `new` is this port after a write of `value` to SB.
    pub open spec fn data_written(&self, new: LogSerial, value: u8) -> bool {
        &&& new.transfer_data == value
        &&& new.transfer_control == self.transfer_control
        &&& new.buffer@ == self.buffer@
        &&& new.last_buffer@ == self.last_buffer@
    }

    /// A write to SB stores the byte to send.
    pub fn write_data(&mut self, value: u8)
        ensures
            old(self).data_written(*final(self), value),
    {
        self.transfer_data = value;
    }

    /// SB reads as 0xFF: no peer ever sends.
    pub fn read_data(&self) -> (r: u8)
        ensures
            r == 0xFF,
    {
        0xFF
    }

    pub fn control(&self) -> (r: u8)
        ensures
            r == self.transfer_control.bits(),
    {
        self.transfer_control.to_byte()
    }

    /// A write to SC. With enable and internal clock both set the stored byte
    /// is sent at once: a newline moves the current line to the last line,
    /// any other byte is appended to the current line. Enable is then cleared.
    pub fn set_control(&mut self, value: u8)
        ensures
            old(self).control_written(*final(self), value),
    {
        self.transfer_control = SerialControl::from_byte(value);
        if self.transfer_control.enabled && self.transfer_control.clock_select {
            self.transfer();
        } else {
            self.receive();
        }
    }

    /// Sends the stored byte to the text capture.
    pub fn transfer(&mut self)
        ensures
            final(self).transfer_data == old(self).transfer_data,
            final(self).transfer_control == (SerialControl {
                enabled: false,
                clock_select: old(self).transfer_control.clock_select,
            }),
            old(self).transfer_data == newline() ==> final(self).last_buffer@ == old(self).buffer@
                && final(self).buffer@.len() == 0,
            old(self).transfer_data != newline() ==> final(self).buffer@ == old(self).buffer@.push(
                old(self).transfer_data,
            ) && final(self).last_buffer@ == old(self).last_buffer@,
    {
        if self.transfer_data == 0x0A {
            let line = self.buffer.clone();
            self.last_buffer = line;
            self.buffer = Vec::new();
        } else {
            self.buffer.push(self.transfer_data);
        }
        self.transfer_control.enabled = false;
    }

    /// A transfer with the external clock never completes; enable is cleared.
    pub fn receive(&mut self)
        ensures
            final(self).transfer_data == old(self).transfer_data,
            final(self).transfer_control == (SerialControl {
                enabled: false,
                clock_select: old(self).transfer_control.clock_select,
            }),
            final(self).buffer@ == old(self).buffer@,
            final(self).last_buffer@ == old(self).last_buffer@,
    {
        self.transfer_control.enabled = false;
    }

    /// The last complete line sent.
    pub fn last_line(&self) -> (r: Vec<u8>)
        ensures
            r@ == self.last_buffer@,
    {
        self.last_buffer.clone()
    }
}

impl Serial for LogSerial {
    open spec fn data_view(&self) -> u8 {
        0xFF
    }

    open spec fn control_view(&self) -> u8 {
        self.transfer_control.bits()
    }

    open spec fn last_line_view(&self) -> Seq<u8> {
        self.last_buffer@
    }

    open spec fn after_data(&self, new: LogSerial, value: u8) -> bool {
        self.data_written(new, value)
    }

    open spec fn after_control(&self, new: LogSerial, value: u8) -> bool {
        self.control_written(new, value)
    }

    fn write(&mut self, value: u8) {
        self.write_data(value);
    }

    fn read(&self) -> u8 {
        self.read_data()
    }

    fn get_transfer_control(&self) -> u8 {
        self.control()
    }

    fn set_transfer_control(&mut self, value: u8) {
        self.set_control(value);
    }

    fn get_last_buffer(&self) -> Vec<u8> {
        self.last_line()
    }
}

} // verus!
