use vstd::prelude::*;

verus! {

/// A button of the handheld.
#[derive(Debug, Clone, Copy, PartialEq, Eq, Structural)]
pub enum Key {
    Down,
    Up,
    Left,
    Right,
    B,
    A,
    Select,
    Start,
}

/// The joypad latch: eight button states, the two select lines and the
/// interrupt latch that any key event sets.
#[derive(Debug, Clone, Copy, PartialEq, Eq, Structural)]
pub struct JoypadRegister {
    pub interrupt: bool,
    pub select_buttons: bool,
    pub select_directions: bool,
    pub start_pressed: bool,
    pub select_pressed: bool,
    pub a_pressed: bool,
    pub b_pressed: bool,
    pub down_pressed: bool,
    pub up_pressed: bool,
    pub left_pressed: bool,
    pub right_pressed: bool,
}

impl Default for JoypadRegister {
    fn default() -> (r: Self)
        ensures
            r == JoypadRegister::released(),
    {
        JoypadRegister {
            interrupt: false,
            select_buttons: false,
            select_directions: false,
            start_pressed: false,
            select_pressed: false,
            a_pressed: false,
            b_pressed: false,
            down_pressed: false,
            up_pressed: false,
            left_pressed: false,
            right_pressed: false,
        }
    }
}

impl JoypadRegister {
    /// No button down, no row selected, no interrupt latched.
    pub open spec fn released() -> JoypadRegister {
        JoypadRegister {
            interrupt: false,
            select_buttons: false,
            select_directions: false,
            start_pressed: false,
            select_pressed: false,
            a_pressed: false,
            b_pressed: false,
            down_pressed: false,
            up_pressed: false,
            left_pressed: false,
            right_pressed: false,
        }
    }

    /// The byte a read of FF00 returns: bits 7..6 set, the inverted select
    /// lines in bits 5..4, and the active-low button lines in bits 3..0.
    pub open spec fn value(self) -> u8 {
        (0xC0 + (if self.select_buttons { 0int } else { 0x20 }) + (if self.select_directions {
            0int
        } else {
            0x10
        }) + 8 * (if (self.select_buttons && self.start_pressed) || (self.select_directions
            && self.down_pressed) {
            0int
        } else {
            1
        }) + 4 * (if (self.select_buttons && self.select_pressed) || (self.select_directions
            && self.up_pressed) {
            0int
        } else {
            1
        }) + 2 * (if (self.select_buttons && self.b_pressed) || (self.select_directions
            && self.left_pressed) {
            0int
        } else {
            1
        }) + (if (self.select_buttons && self.a_pressed) || (self.select_directions
            && self.right_pressed) {
            0int
        } else {
            1
        })) as u8
    }

    pub open spec fn pressed(self, key: Key) -> bool {
        match key {
            Key::Down => self.down_pressed,
            Key::Up => self.up_pressed,
            Key::Left => self.left_pressed,
            Key::Right => self.right_pressed,
            Key::B => self.b_pressed,
            Key::A => self.a_pressed,
            Key::Select => self.select_pressed,
            Key::Start => self.start_pressed,
        }
    }

    pub open spec fn with_key(self, key: Key, pressed: bool) -> JoypadRegister {
        match key {
            Key::Down => JoypadRegister { down_pressed: pressed, ..self },
            Key::Up => JoypadRegister { up_pressed: pressed, ..self },
            Key::Left => JoypadRegister { left_pressed: pressed, ..self },
            Key::Right => JoypadRegister { right_pressed: pressed, ..self },
            Key::B => JoypadRegister { b_pressed: pressed, ..self },
            Key::A => JoypadRegister { a_pressed: pressed, ..self },
            Key::Select => JoypadRegister { select_pressed: pressed, ..self },
            Key::Start => JoypadRegister { start_pressed: pressed, ..self },
        }
    }

    pub open spec fn with_select(self, value: u8) -> JoypadRegister {
        JoypadRegister {
            select_buttons: value & 0x20 == 0,
            select_directions: value & 0x10 == 0,
            ..self
        }
    }

    pub open spec fn with_interrupt(self, on: bool) -> JoypadRegister {
        JoypadRegister { interrupt: on, ..self }
    }

    /// The value a read of FF00 returns.
    pub fn read(&self) -> (r: u8)
        ensures
            r == self.value(),
    {
        let mut result: u8 = 0xC0;
        if !self.select_buttons {
            result = result + 0x20;
        }
        if !self.select_directions {
            result = result + 0x10;
        }
        if !((self.select_buttons && self.start_pressed) || (self.select_directions
            && self.down_pressed)) {
            result = result + 8;
        }
        if !((self.select_buttons && self.select_pressed) || (self.select_directions
            && self.up_pressed)) {
            result = result + 4;
        }
        if !((self.select_buttons && self.b_pressed) || (self.select_directions
            && self.left_pressed)) {
            result = result + 2;
        }
        if !((self.select_buttons && self.a_pressed) || (self.select_directions
            && self.right_pressed)) {
            result = result + 1;
        }
        result
    }

    /// A guest write to FF00 sets the select lines (active low, bits 5 and 4).
    pub fn write(&mut self, value: u8)
        ensures
            *final(self) == old(self).with_select(value),
    {
        self.select_buttons = value & 0x20 == 0;
        self.select_directions = value & 0x10 == 0;
    }

    /// A key went down or up; this latches the joypad interrupt.
    pub fn key_event(&mut self, key: Key, pressed: bool)
        ensures
            *final(self) == old(self).with_key(key, pressed).with_interrupt(true),
            final(self).pressed(key) == pressed,
    {
        self.interrupt = true;
        match key {
            Key::Down => self.down_pressed = pressed,
            Key::Up => self.up_pressed = pressed,
            Key::Left => self.left_pressed = pressed,
            Key::Right => self.right_pressed = pressed,
            Key::B => self.b_pressed = pressed,
            Key::A => self.a_pressed = pressed,
            Key::Select => self.select_pressed = pressed,
            Key::Start => self.start_pressed = pressed,
        }
    }

    /// Reads and clears the interrupt latch.
    pub fn interrupt(&mut self) -> (r: bool)
        ensures
            r == old(self).interrupt,
            *final(self) == old(self).with_interrupt(false),
    {
        let result = self.interrupt;
        self.interrupt = false;
        result
    }
}

} // verus!
