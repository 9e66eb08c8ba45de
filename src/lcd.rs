use vstd::prelude::*;

verus! {

/// LCDC, one field per bit, bit 7 first.
#[derive(Debug, Clone, Copy, PartialEq, Eq, Structural)]
pub struct LcdControlFlags {
    pub enabled: bool,
    pub window_tile_map: bool,
    pub window_enabled: bool,
    pub tile_data_select: bool,
    pub background_tile_map: bool,
    pub sprite_double_size: bool,
    pub sprite_enabled: bool,
    pub background_window_enabled: bool,
}

pub open spec fn flag(b: bool, weight: int) -> int {
    if b {
        weight
    } else {
        0
    }
}

impl LcdControlFlags {
    pub open spec fn from_bits(v: u8) -> LcdControlFlags {
        LcdControlFlags {
            enabled: v & 0x80 != 0,
            window_tile_map: v & 0x40 != 0,
            window_enabled: v & 0x20 != 0,
            tile_data_select: v & 0x10 != 0,
            background_tile_map: v & 0x08 != 0,
            sprite_double_size: v & 0x04 != 0,
            sprite_enabled: v & 0x02 != 0,
            background_window_enabled: v & 0x01 != 0,
        }
    }

    pub open spec fn bits(self) -> u8 {
        (flag(self.enabled, 0x80) + flag(self.window_tile_map, 0x40) + flag(self.window_enabled, 0x20)
            + flag(self.tile_data_select, 0x10) + flag(self.background_tile_map, 0x08) + flag(
            self.sprite_double_size,
            0x04,
        ) + flag(self.sprite_enabled, 0x02) + flag(self.background_window_enabled, 0x01)) as u8
    }

    pub fn from_byte(v: u8) -> (r: Self)
        ensures
            r == LcdControlFlags::from_bits(v),
    {
        LcdControlFlags {
            enabled: v & 0x80 != 0,
            window_tile_map: v & 0x40 != 0,
            window_enabled: v & 0x20 != 0,
            tile_data_select: v & 0x10 != 0,
            background_tile_map: v & 0x08 != 0,
            sprite_double_size: v & 0x04 != 0,
            sprite_enabled: v & 0x02 != 0,
            background_window_enabled: v & 0x01 != 0,
        }
    }

    pub fn to_byte(&self) -> (r: u8)
        ensures
            r == self.bits(),
    {
        let mut r: u8 = 0;
        if self.enabled {
            r = r + 0x80;
        }
        if self.window_tile_map {
            r = r + 0x40;
        }
        if self.window_enabled {
            r = r + 0x20;
        }
        if self.tile_data_select {
            r = r + 0x10;
        }
        if self.background_tile_map {
            r = r + 0x08;
        }
        if self.sprite_double_size {
            r = r + 0x04;
        }
        if self.sprite_enabled {
            r = r + 0x02;
        }
        if self.background_window_enabled {
            r = r + 0x01;
        }
        r
    }
}

impl From<u8> for LcdControlFlags {
    fn from(value: u8) -> Self {
        LcdControlFlags::from_byte(value)
    }
}

impl vstd::std_specs::convert::FromSpecImpl<u8> for LcdControlFlags {
    open spec fn obeys_from_spec() -> bool {
        true
    }

    open spec fn from_spec(v: u8) -> LcdControlFlags {
        LcdControlFlags::from_bits(v)
    }
}

/// The PPU mode, in the order of its two-bit code in STAT.
#[derive(Debug, Clone, Copy, PartialEq, Eq, Structural)]
pub enum PpuMode {
    HBlank,
    VBlank,
    OamScan,
    Drawing,
}

pub open spec fn mode_of(v: u8) -> PpuMode {
    if v % 4 == 0 {
        PpuMode::HBlank
    } else if v % 4 == 1 {
        PpuMode::VBlank
    } else if v % 4 == 2 {
        PpuMode::OamScan
    } else {
        PpuMode::Drawing
    }
}

pub open spec fn mode_code(m: PpuMode) -> u8 {
    match m {
        PpuMode::HBlank => 0,
        PpuMode::VBlank => 1,
        PpuMode::OamScan => 2,
        PpuMode::Drawing => 3,
    }
}

impl PpuMode {
    /// The mode in the low two bits of `v`.
    pub fn from_bits(v: u8) -> (r: Self)
        ensures
            r == mode_of(v),
    {
        let m = v % 4;
        if m == 0 {
            PpuMode::HBlank
        } else if m == 1 {
            PpuMode::VBlank
        } else if m == 2 {
            PpuMode::OamScan
        } else {
            PpuMode::Drawing
        }
    }

    pub fn code(self) -> (r: u8)
        ensures
            r == mode_code(self),
    {
        match self {
            PpuMode::HBlank => 0,
            PpuMode::VBlank => 1,
            PpuMode::OamScan => 2,
            PpuMode::Drawing => 3,
        }
    }
}

/// STAT: the four interrupt selects and the current mode.
#[derive(Debug, Clone, Copy, PartialEq, Eq, Structural)]
pub struct LcdStatusFlags {
    pub int_lyc_enabled: bool,
    pub int_mode_2_enabled: bool,
    pub int_mode_1_enabled: bool,
    pub int_mode_0_enabled: bool,
    pub ppu_mode: PpuMode,
}

impl LcdStatusFlags {
    pub open spec fn from_bits(v: u8) -> LcdStatusFlags {
        LcdStatusFlags {
            int_lyc_enabled: v & 0x40 != 0,
            int_mode_2_enabled: v & 0x20 != 0,
            int_mode_1_enabled: v & 0x10 != 0,
            int_mode_0_enabled: v & 0x08 != 0,
            ppu_mode: mode_of(v),
        }
    }

    /// The byte read from STAT; bit 7 reads as one.
    pub open spec fn bits(self) -> u8 {
        (0x80 + flag(self.int_lyc_enabled, 0x40) + flag(self.int_mode_2_enabled, 0x20) + flag(
            self.int_mode_1_enabled,
            0x10,
        ) + flag(self.int_mode_0_enabled, 0x08) + mode_code(self.ppu_mode) as int) as u8
    }

    pub fn from_byte(v: u8) -> (r: Self)
        ensures
            r == LcdStatusFlags::from_bits(v),
    {
        LcdStatusFlags {
            int_lyc_enabled: v & 0x40 != 0,
            int_mode_2_enabled: v & 0x20 != 0,
            int_mode_1_enabled: v & 0x10 != 0,
            int_mode_0_enabled: v & 0x08 != 0,
            ppu_mode: PpuMode::from_bits(v),
        }
    }

    pub fn to_byte(&self) -> (r: u8)
        ensures
            r == self.bits(),
    {
        let mut r: u8 = 0x80;
        if self.int_lyc_enabled {
            r = r + 0x40;
        }
        if self.int_mode_2_enabled {
            r = r + 0x20;
        }
        if self.int_mode_1_enabled {
            r = r + 0x10;
        }
        if self.int_mode_0_enabled {
            r = r + 0x08;
        }
        r + self.ppu_mode.code()
    }
}

impl From<u8> for LcdStatusFlags {
    fn from(value: u8) -> Self {
        LcdStatusFlags::from_byte(value)
    }
}

impl vstd::std_specs::convert::FromSpecImpl<u8> for LcdStatusFlags {
    open spec fn obeys_from_spec() -> bool {
        true
    }

    open spec fn from_spec(v: u8) -> LcdStatusFlags {
        LcdStatusFlags::from_bits(v)
    }
}

impl From<LcdStatusFlags> for u8 {
    fn from(value: LcdStatusFlags) -> u8 {
        value.to_byte()
    }
}

impl vstd::std_specs::convert::FromSpecImpl<LcdStatusFlags> for u8 {
    open spec fn obeys_from_spec() -> bool {
        true
    }

    open spec fn from_spec(v: LcdStatusFlags) -> u8 {
        v.bits()
    }
}

/// The LCD registers at FF40..FF4B.
#[derive(Debug, Clone, Copy)]
pub struct GraphicsRegisters {
    pub lcd_control: LcdControlFlags,
    pub lcd_status: LcdStatusFlags,
    pub lcd_ly: u8,
    pub lcd_lyc: u8,
    pub screen_y: u8,
    pub screen_x: u8,
    pub window_y: u8,
    pub window_x: u8,
    pub background_palette: u8,
    pub obj_palette: [u8; 2],
}

impl GraphicsRegisters {
    pub open spec fn with_ly(self, v: u8) -> GraphicsRegisters {
        GraphicsRegisters { lcd_ly: v, ..self }
    }

    pub open spec fn with_mode(self, m: PpuMode) -> GraphicsRegisters {
        GraphicsRegisters { lcd_status: LcdStatusFlags { ppu_mode: m, ..self.lcd_status }, ..self }
    }

    /// The registers at power-on: LCDC 0x91, STAT 0x86, BGP 0xFC.
    pub fn new() -> (r: Self)
        ensures
            r.lcd_control == LcdControlFlags::from_bits(0x91),
            r.lcd_status == LcdStatusFlags::from_bits(0x86),
            r.lcd_ly == 0,
            r.lcd_lyc == 0,
            r.screen_y == 0,
            r.screen_x == 0,
            r.window_y == 0,
            r.window_x == 0,
            r.background_palette == 0xFC,
            r.obj_palette@ == seq![0u8, 0u8],
    {
        GraphicsRegisters {
            lcd_control: LcdControlFlags::from_byte(0x91),
            lcd_status: LcdStatusFlags::from_byte(0x86),
            lcd_ly: 0x00,
            lcd_lyc: 0x00,
            screen_y: 0x00,
            screen_x: 0x00,
            window_y: 0x00,
            window_x: 0x00,
            background_palette: 0xFC,
            obj_palette: [0x00, 0x00],
        }
    }

    pub fn get_lcd_control(&self) -> (r: u8)
        ensures
            r == self.lcd_control.bits(),
    {
        self.lcd_control.to_byte()
    }

    pub fn get_lcd_status(&self) -> (r: u8)
        ensures
            r == self.lcd_status.bits(),
    {
        self.lcd_status.to_byte()
    }

    pub fn get_lcd_ly(&self) -> (r: u8)
        ensures
            r == self.lcd_ly,
    {
        self.lcd_ly
    }

    pub fn get_lcd_lyc(&self) -> (r: u8)
        ensures
            r == self.lcd_lyc,
    {
        self.lcd_lyc
    }

    pub fn get_screen_y(&self) -> (r: u8)
        ensures
            r == self.screen_y,
    {
        self.screen_y
    }

    pub fn get_screen_x(&self) -> (r: u8)
        ensures
            r == self.screen_x,
    {
        self.screen_x
    }

    pub fn get_window_y(&self) -> (r: u8)
        ensures
            r == self.window_y,
    {
        self.window_y
    }

    pub fn get_window_x(&self) -> (r: u8)
        ensures
            r == self.window_x,
    {
        self.window_x
    }

    pub fn get_background_palette(&self) -> (r: u8)
        ensures
            r == self.background_palette,
    {
        self.background_palette
    }

    pub fn get_obj_palette(&self, index: usize) -> (r: u8)
        requires
            index < 2,
        ensures
            r == self.obj_palette@[index as int],
    {
        self.obj_palette[index]
    }

    pub fn set_lcd_control(&mut self, value: u8)
        ensures
            *final(self) == (GraphicsRegisters {
                lcd_control: LcdControlFlags::from_bits(value),
                ..*old(self)
            }),
    {
        self.lcd_control = LcdControlFlags::from_byte(value);
    }

    /// Writes STAT as a whole, the mode bits included.
    pub fn set_lcd_status(&mut self, value: u8)
        ensures
            *final(self) == (GraphicsRegisters {
                lcd_status: LcdStatusFlags::from_bits(value),
                ..*old(self)
            }),
    {
        self.lcd_status = LcdStatusFlags::from_byte(value);
    }

    /// Writes the interrupt selects of STAT; the mode bits are read-only.
    pub fn write_lcd_status_selects(&mut self, value: u8)
        ensures
            *final(self) == (GraphicsRegisters {
                lcd_status: LcdStatusFlags {
                    ppu_mode: old(self).lcd_status.ppu_mode,
                    ..LcdStatusFlags::from_bits(value)
                },
                ..*old(self)
            }),
    {
        let mode = self.lcd_status.ppu_mode;
        let mut status = LcdStatusFlags::from_byte(value);
        status.ppu_mode = mode;
        self.lcd_status = status;
    }

    pub fn set_lcd_ly(&mut self, value: u8)
        ensures
            *final(self) == old(self).with_ly(value),
    {
        self.lcd_ly = value;
    }

    pub fn set_lcd_lyc(&mut self, value: u8)
        ensures
            *final(self) == (GraphicsRegisters { lcd_lyc: value, ..*old(self) }),
    {
        self.lcd_lyc = value;
    }

    pub fn set_screen_y(&mut self, value: u8)
        ensures
            *final(self) == (GraphicsRegisters { screen_y: value, ..*old(self) }),
    {
        self.screen_y = value;
    }

    pub fn set_screen_x(&mut self, value: u8)
        ensures
            *final(self) == (GraphicsRegisters { screen_x: value, ..*old(self) }),
    {
        self.screen_x = value;
    }

    pub fn set_window_y(&mut self, value: u8)
        ensures
            *final(self) == (GraphicsRegisters { window_y: value, ..*old(self) }),
    {
        self.window_y = value;
    }

    pub fn set_window_x(&mut self, value: u8)
        ensures
            *final(self) == (GraphicsRegisters { window_x: value, ..*old(self) }),
    {
        self.window_x = value;
    }

    pub fn set_background_palette(&mut self, value: u8)
        ensures
            *final(self) == (GraphicsRegisters { background_palette: value, ..*old(self) }),
    {
        self.background_palette = value;
    }

    pub fn set_obj_palette(&mut self, index: usize, value: u8)
        requires
            index < 2,
        ensures
            final(self).obj_palette@ == old(self).obj_palette@.update(index as int, value),
            *final(self) == (GraphicsRegisters { obj_palette: final(self).obj_palette, ..*old(self) }),
    {
        self.obj_palette[index] = value;
    }

    pub fn set_ppu_mode(&mut self, mode: PpuMode)
        ensures
            *final(self) == old(self).with_mode(mode),
    {
        self.lcd_status.ppu_mode = mode;
    }
}

} // verus!
