use vstd::prelude::*;

use crate::graphics::Ppu;
use crate::interrupts::InterruptFlags;
use crate::joypad::JoypadRegister;
use crate::lcd::{GraphicsRegisters, LcdControlFlags, LcdStatusFlags, PpuMode};
use crate::mbc::Cartridge;
use crate::serial::LogSerial;
use crate::tile::zeros;
use crate::timer::TimerRegisters;

verus! {

/// The I/O devices behind FF00..FF7F and the interrupt registers.
#[derive(Debug)]
pub struct IoRegisters {
    pub joypad: JoypadRegister,
    pub interrupt_flags: InterruptFlags,
    pub interrupt_enable: u8,
    pub timer: TimerRegisters,
    pub serial: LogSerial,
}

impl IoRegisters {
    pub fn new(serial: LogSerial) -> (r: Self)
        ensures
            r.joypad == JoypadRegister::released(),
            r.interrupt_flags == InterruptFlags::from_bits(0),
            r.interrupt_enable == 0,
            r.serial == serial,
            r.timer.system_counter == 0xAB00,
            r.timer.counter == 0,
            r.timer.control == 0xF8,
    {
        IoRegisters {
            joypad: JoypadRegister::default(),
            interrupt_flags: InterruptFlags::new(),
            interrupt_enable: 0,
            timer: TimerRegisters::default(),
            serial,
        }
    }
}

/// The system bus: it decodes addresses and routes accesses to the
/// cartridge, video RAM, work RAM, OAM, I/O registers, high RAM and IE, and
/// runs the OAM DMA transfer.
#[derive(Debug)]
pub struct System {
    pub oam_transfer: bool,
    pub oam_transfer_source: u16,
    pub oam_transfer_cycle: u16,
    pub mbc: Cartridge,
    pub w_ram: Vec<u8>,
    pub h_ram: Vec<u8>,
    pub io: IoRegisters,
    pub graphics: Ppu,
}

pub open spec fn is_hram(a: u16) -> bool {
    0xFF80 <= a && a < 0xFFFF
}

impl System {
    pub open spec fn wf(&self) -> bool {
        &&& self.mbc.wf()
        &&& self.w_ram@.len() == 0x2000
        &&& self.h_ram@.len() == 0x7F
        &&& self.graphics.wf()
        &&& self.oam_transfer_cycle <= 162
        &&& self.oam_transfer_source <= 0xFF00
    }

    /// The value of an I/O register as the guest reads it.
    pub open spec fn io_value(&self, a: u16) -> u8 {
        let r = self.graphics.registers;
        if a == 0xFF00 {
            self.io.joypad.value()
        } else if a == 0xFF01 {
            0xFF
        } else if a == 0xFF02 {
            self.io.serial.transfer_control.bits()
        } else if a == 0xFF04 {
            self.io.timer.div()
        } else if a == 0xFF05 {
            self.io.timer.counter
        } else if a == 0xFF06 {
            self.io.timer.modulo
        } else if a == 0xFF07 {
            self.io.timer.control
        } else if a == 0xFF0F {
            self.io.interrupt_flags.bits()
        } else if 0xFF10 <= a <= 0xFF26 {
            0x00
        } else if a == 0xFF40 {
            r.lcd_control.bits()
        } else if a == 0xFF41 {
            r.lcd_status.bits()
        } else if a == 0xFF42 {
            r.screen_y
        } else if a == 0xFF43 {
            r.screen_x
        } else if a == 0xFF44 {
            r.lcd_ly
        } else if a == 0xFF45 {
            r.lcd_lyc
        } else if a == 0xFF47 {
            r.background_palette
        } else if a == 0xFF48 {
            r.obj_palette@[0]
        } else if a == 0xFF49 {
            r.obj_palette@[1]
        } else if a == 0xFF4A {
            r.window_y
        } else if a == 0xFF4B {
            r.window_x
        } else {
            0xFF
        }
    }

    /// What address `a` holds, DMA lockout aside.
    pub open spec fn peek(&self, a: u16) -> u8 {
        if a < 0x8000 {
            self.mbc.rom_byte(a as int)
        } else if a < 0x9800 {
            self.graphics.tile_data.bytes@[a - 0x8000]
        } else if a < 0x9C00 {
            self.graphics.tile_maps@[0].tiles@[a - 0x9800]
        } else if a < 0xA000 {
            self.graphics.tile_maps@[1].tiles@[a - 0x9C00]
        } else if a < 0xC000 {
            self.mbc.ram_byte(a - 0xA000)
        } else if a < 0xE000 {
            self.w_ram@[a - 0xC000]
        } else if a < 0xFE00 {
            self.w_ram@[a - 0xE000]
        } else if a < 0xFEA0 {
            self.graphics.oam@[a - 0xFE00]
        } else if a < 0xFF00 {
            if self.oam_transfer {
                0xFF
            } else {
                0x00
            }
        } else if a < 0xFF80 {
            self.io_value(a)
        } else if a < 0xFFFF {
            self.h_ram@[a - 0xFF80]
        } else {
            self.io.interrupt_enable
        }
    }

    /// The PPU's mode, step within the line and line: no bus access changes them.
    pub open spec fn ppu_timing(&self) -> (PpuMode, u16, u8) {
        (self.graphics.mode(), self.graphics.scanline_cycle, self.graphics.registers.lcd_ly)
    }

    /// What a processor cycle leaves alone: the PPU timing, the timer's
    /// overflow latch and the joypad latch; the timer changes by at most one
    /// register write; a running DMA transfer keeps its state.
    pub open spec fn cpu_keeps(&self, n: System) -> bool {
        &&& n.ppu_timing() == self.ppu_timing()
        &&& n.io.timer.pending_overflow == self.io.timer.pending_overflow
        &&& n.io.joypad.interrupt == self.io.joypad.interrupt
        &&& self.io.timer.touched(n.io.timer)
        &&& (self.oam_transfer ==> n.oam_transfer && n.oam_transfer_source == self.oam_transfer_source
            && n.oam_transfer_cycle == self.oam_transfer_cycle)
        &&& (n.oam_transfer_cycle == self.oam_transfer_cycle || (n.oam_transfer && n.oam_transfer_cycle
            == 0))
        &&& (n.oam_transfer ==> self.oam_transfer || n.oam_transfer_cycle == 0)
    }

    /// What the guest reads at `a`: during DMA only high RAM answers.
    pub open spec fn bus_value(&self, a: u16) -> u8 {
        if self.oam_transfer {
            if is_hram(a) {
                self.h_ram@[a - 0xFF80]
            } else {
                0xFF
            }
        } else {
            self.peek(a)
        }
    }

    /// Whether `n` differs from this bus at most in the parts flagged.
    pub open spec fn keeps(&self, n: &System, mbc: bool, wram: bool, hram: bool, io: bool, gfx: bool, dma: bool) -> bool {
        &&& (!mbc ==> n.mbc == self.mbc)
        &&& (!wram ==> n.w_ram@ == self.w_ram@)
        &&& (!hram ==> n.h_ram@ == self.h_ram@)
        &&& (!io ==> n.io == self.io)
        &&& (!gfx ==> n.graphics == self.graphics)
        &&& (!dma ==> n.oam_transfer == self.oam_transfer && n.oam_transfer_source
            == self.oam_transfer_source && n.oam_transfer_cycle == self.oam_transfer_cycle)
    }

    /// Whether `n` is this bus with the LCD registers replaced by `r`.
    pub open spec fn lcd_set(&self, n: &System, r: GraphicsRegisters) -> bool {
        n.graphics == (Ppu { registers: r, ..self.graphics }) && self.keeps(n, false, false, false, false, true, false)
    }

    /// Whether `n` is this bus with the I/O devices replaced by `io`.
    pub open spec fn io_set(&self, n: &System, io: IoRegisters) -> bool {
        n.io == io && self.keeps(n, false, false, false, true, false, false)
    }

    /// Whether `n` is this bus after the guest wrote `v` to I/O register `a`.
    pub open spec fn io_written(&self, n: &System, a: u16, v: u8) -> bool {
        let r = self.graphics.registers;
        let io = self.io;
        if a == 0xFF00 {
            self.io_set(n, IoRegisters { joypad: io.joypad.with_select(v), ..io })
        } else if a == 0xFF01 {
            io.serial.data_written(n.io.serial, v) && self.io_set(n, IoRegisters { serial: n.io.serial, ..io })
        } else if a == 0xFF02 {
            io.serial.control_written(n.io.serial, v) && self.io_set(n, IoRegisters { serial: n.io.serial, ..io })
        } else if a == 0xFF04 {
            self.io_set(n, IoRegisters { timer: io.timer.with_system_counter(0), ..io })
        } else if a == 0xFF05 {
            self.io_set(n, IoRegisters { timer: io.timer.with_counter_write(v), ..io })
        } else if a == 0xFF06 {
            self.io_set(n, IoRegisters { timer: io.timer.with_modulo(v), ..io })
        } else if a == 0xFF07 {
            self.io_set(n, IoRegisters { timer: io.timer.with_control(v), ..io })
        } else if a == 0xFF0F {
            self.io_set(n, IoRegisters { interrupt_flags: InterruptFlags::from_bits(v), ..io })
        } else if a == 0xFF40 {
            self.lcd_set(n, GraphicsRegisters { lcd_control: LcdControlFlags::from_bits(v), ..r })
        } else if a == 0xFF41 {
            self.lcd_set(n, GraphicsRegisters {
                lcd_status: LcdStatusFlags { ppu_mode: r.lcd_status.ppu_mode, ..LcdStatusFlags::from_bits(v) },
                ..r
            })
        } else if a == 0xFF42 {
            self.lcd_set(n, GraphicsRegisters { screen_y: v, ..r })
        } else if a == 0xFF43 {
            self.lcd_set(n, GraphicsRegisters { screen_x: v, ..r })
        } else if a == 0xFF45 {
            self.lcd_set(n, GraphicsRegisters { lcd_lyc: v, ..r })
        } else if a == 0xFF46 {
            n.oam_transfer && n.oam_transfer_source == v as u16 * 256 && n.oam_transfer_cycle == 0
                && self.keeps(n, false, false, false, false, false, true)
        } else if a == 0xFF47 {
            self.lcd_set(n, GraphicsRegisters { background_palette: v, ..r })
        } else if a == 0xFF48 || a == 0xFF49 {
            n.graphics.registers.obj_palette@ == r.obj_palette@.update(a - 0xFF48, v)
                && self.lcd_set(n, GraphicsRegisters { obj_palette: n.graphics.registers.obj_palette, ..r })
        } else if a == 0xFF4A {
            self.lcd_set(n, GraphicsRegisters { window_y: v, ..r })
        } else if a == 0xFF4B {
            self.lcd_set(n, GraphicsRegisters { window_x: v, ..r })
        } else {
            self.keeps(n, false, false, false, false, false, false)
        }
    }

    /// Whether `n` is this bus after the guest wrote `v` to address `a`.
    pub open spec fn written(&self, n: &System, a: u16, v: u8) -> bool {
        if self.oam_transfer {
            if is_hram(a) {
                n.h_ram@ == self.h_ram@.update(a - 0xFF80, v) && self.keeps(n, false, false, true, false, false, false)
            } else {
                self.keeps(n, false, false, false, false, false, false)
            }
        } else if a < 0x8000 {
            n.mbc == self.mbc.after_rom_write(a as int, v) && self.keeps(n, true, false, false, false, false, false)
        } else if a < 0x9800 {
            n.graphics.tile_data.bytes@ == self.graphics.tile_data.bytes@.update(a - 0x8000, v)
                && n.graphics == (Ppu { tile_data: n.graphics.tile_data, ..self.graphics })
                && self.keeps(n, false, false, false, false, true, false)
        } else if a < 0xA000 {
            let which = if a < 0x9C00 { 0int } else { 1 };
            let offset = if a < 0x9C00 { a - 0x9800 } else { a - 0x9C00 };
            n.graphics.tile_maps@[which].tiles@ == self.graphics.tile_maps@[which].tiles@.update(offset, v)
                && n.graphics.tile_maps@[1 - which] == self.graphics.tile_maps@[1 - which]
                && n.graphics == (Ppu { tile_maps: n.graphics.tile_maps, ..self.graphics })
                && self.keeps(n, false, false, false, false, true, false)
        } else if a < 0xC000 {
            self.mbc.ram_written(n.mbc, a - 0xA000, v) && self.keeps(n, true, false, false, false, false, false)
        } else if a < 0xFE00 {
            let offset = if a < 0xE000 { a - 0xC000 } else { a - 0xE000 };
            n.w_ram@ == self.w_ram@.update(offset, v) && self.keeps(n, false, true, false, false, false, false)
        } else if a < 0xFEA0 {
            n.graphics.oam@ == self.graphics.oam@.update(a - 0xFE00, v)
                && n.graphics == (Ppu { oam: n.graphics.oam, ..self.graphics })
                && self.keeps(n, false, false, false, false, true, false)
        } else if a < 0xFF00 {
            self.keeps(n, false, false, false, false, false, false)
        } else if a < 0xFF80 {
            self.io_written(n, a, v)
        } else if a < 0xFFFF {
            n.h_ram@ == self.h_ram@.update(a - 0xFF80, v) && self.keeps(n, false, false, true, false, false, false)
        } else {
            self.io_set(n, IoRegisters { interrupt_enable: v, ..self.io })
        }
    }

    /// A bus with the given cartridge and serial port, all RAM clear.
    pub fn new(mbc: Cartridge, serial: LogSerial) -> (r: Self)
        requires
            mbc.wf(),
        ensures
            r.wf(),
            r.mbc == mbc,
            !r.oam_transfer,
            r.io.serial == serial,
            r.io.interrupt_enable == 0,
            r.io.interrupt_flags == InterruptFlags::from_bits(0),
            r.graphics.registers.lcd_ly == 0,
    {
        System {
            oam_transfer: false,
            oam_transfer_source: 0,
            oam_transfer_cycle: 0,
            mbc,
            w_ram: zeros(0x2000),
            h_ram: zeros(0x7F),
            io: IoRegisters::new(serial),
            graphics: Ppu::new(),
        }
    }

    /// Reads an I/O register.
    pub fn get_io_register(&self, address: u16) -> (r: u8)
        requires
            self.wf(),
        ensures
            r == self.io_value(address),
    {
        let g = &self.graphics.registers;
        if address == 0xFF00 {
            self.io.joypad.read()
        } else if address == 0xFF01 {
            self.io.serial.read_data()
        } else if address == 0xFF02 {
            self.io.serial.control()
        } else if address == 0xFF04 {
            self.io.timer.divider()
        } else if address == 0xFF05 {
            self.io.timer.counter
        } else if address == 0xFF06 {
            self.io.timer.modulo
        } else if address == 0xFF07 {
            self.io.timer.control
        } else if address == 0xFF0F {
            self.io.interrupt_flags.to_byte()
        } else if 0xFF10 <= address && address <= 0xFF26 {
            0x00
        } else if address == 0xFF40 {
            g.get_lcd_control()
        } else if address == 0xFF41 {
            g.get_lcd_status()
        } else if address == 0xFF42 {
            g.get_screen_y()
        } else if address == 0xFF43 {
            g.get_screen_x()
        } else if address == 0xFF44 {
            g.get_lcd_ly()
        } else if address == 0xFF45 {
            g.get_lcd_lyc()
        } else if address == 0xFF47 {
            g.get_background_palette()
        } else if address == 0xFF48 {
            g.get_obj_palette(0)
        } else if address == 0xFF49 {
            g.get_obj_palette(1)
        } else if address == 0xFF4A {
            g.get_window_y()
        } else if address == 0xFF4B {
            g.get_window_x()
        } else {
            0xFF
        }
    }

    /// Writes an I/O register. LY is read-only; FF46 starts an OAM DMA transfer.
    #[verifier::rlimit(100)]
    pub fn write_io_register(&mut self, address: u16, value: u8)
        requires
            old(self).wf(),
            0xFF00 <= address < 0xFF80,
        ensures
            final(self).wf(),
            old(self).io_written(final(self), address, value),
            !old(self).oam_transfer ==> old(self).cpu_keeps(*final(self)),
    {
        if address == 0xFF00 {
            self.io.joypad.write(value);
        } else if address == 0xFF01 {
            self.io.serial.write_data(value);
        } else if address == 0xFF02 {
            self.io.serial.set_control(value);
        } else if address == 0xFF04 {
            self.io.timer.reset_divider();
        } else if address == 0xFF05 {
            self.io.timer.write_counter(value);
        } else if address == 0xFF06 {
            self.io.timer.modulo = value;
        } else if address == 0xFF07 {
            self.io.timer.control = value;
        } else if address == 0xFF0F {
            self.io.interrupt_flags = InterruptFlags::from_byte(value);
        } else if address == 0xFF40 {
            self.graphics.registers.set_lcd_control(value);
        } else if address == 0xFF41 {
            self.graphics.registers.write_lcd_status_selects(value);
        } else if address == 0xFF42 {
            self.graphics.registers.set_screen_y(value);
        } else if address == 0xFF43 {
            self.graphics.registers.set_screen_x(value);
        } else if address == 0xFF45 {
            self.graphics.registers.set_lcd_lyc(value);
        } else if address == 0xFF46 {
            self.oam_transfer(value);
        } else if address == 0xFF47 {
            self.graphics.registers.set_background_palette(value);
        } else if address == 0xFF48 {
            self.graphics.registers.set_obj_palette(0, value);
        } else if address == 0xFF49 {
            self.graphics.registers.set_obj_palette(1, value);
        } else if address == 0xFF4A {
            self.graphics.registers.set_window_y(value);
        } else if address == 0xFF4B {
            self.graphics.registers.set_window_x(value);
        }
    }

    /// Arms an OAM DMA transfer from `address` * 0x100.
    pub fn oam_transfer(&mut self, address: u8)
        requires
            old(self).wf(),
        ensures
            final(self).wf(),
            final(self).oam_transfer,
            final(self).oam_transfer_source == address as u16 * 256,
            final(self).oam_transfer_cycle == 0,
            old(self).keeps(final(self), false, false, false, false, false, true),
    {
        self.oam_transfer = true;
        self.oam_transfer_source = address as u16 * 0x100;
        self.oam_transfer_cycle = 0;
    }

    /// Reads an address, DMA lockout aside.
    pub fn read_byte_internal(&self, address: u16) -> (r: u8)
        requires
            self.wf(),
        ensures
            r == self.peek(address),
    {
        if address < 0x8000 {
            self.mbc.rom(address)
        } else if address < 0x9800 {
            self.graphics.tile_data.get_byte(address - 0x8000)
        } else if address < 0x9C00 {
            self.graphics.read_map_byte(0, address - 0x9800)
        } else if address < 0xA000 {
            self.graphics.read_map_byte(1, address - 0x9C00)
        } else if address < 0xC000 {
            self.mbc.ram_read(address - 0xA000)
        } else if address < 0xE000 {
            self.w_ram[(address - 0xC000) as usize]
        } else if address < 0xFE00 {
            self.w_ram[(address - 0xE000) as usize]
        } else if address < 0xFEA0 {
            self.graphics.read_oam_byte(address - 0xFE00)
        } else if address < 0xFF00 {
            if self.oam_transfer {
                0xFF
            } else {
                0x00
            }
        } else if address < 0xFF80 {
            self.get_io_register(address)
        } else if address < 0xFFFF {
            self.h_ram[(address - 0xFF80) as usize]
        } else {
            self.io.interrupt_enable
        }
    }

    /// Reads an address as the guest sees it: while a DMA transfer runs,
    /// everything but high RAM reads 0xFF.
    pub fn read_byte(&self, address: u16) -> (r: u8)
        requires
            self.wf(),
        ensures
            r == self.bus_value(address),
    {
        if self.oam_transfer {
            if 0xFF80 <= address && address < 0xFFFF {
                self.h_ram[(address - 0xFF80) as usize]
            } else {
                0xFF
            }
        } else {
            self.read_byte_internal(address)
        }
    }

    /// Writes an address as the guest does: while a DMA transfer runs, only
    /// high RAM takes writes.
    pub fn write_byte(&mut self, address: u16, value: u8)
        requires
            old(self).wf(),
        ensures
            final(self).wf(),
            old(self).written(final(self), address, value),
            old(self).cpu_keeps(*final(self)),
    {
        if self.oam_transfer {
            if 0xFF80 <= address && address < 0xFFFF {
                self.h_ram.set((address - 0xFF80) as usize, value);
            }
            return;
        }
        if address < 0x8000 {
            self.mbc.rom_write(address, value);
        } else if address < 0x9800 {
            self.graphics.tile_data.set_byte(address - 0x8000, value);
        } else if address < 0x9C00 {
            self.graphics.write_map_byte(0, address - 0x9800, value);
        } else if address < 0xA000 {
            self.graphics.write_map_byte(1, address - 0x9C00, value);
        } else if address < 0xC000 {
            self.mbc.ram_write(address - 0xA000, value);
        } else if address < 0xE000 {
            self.w_ram.set((address - 0xC000) as usize, value);
        } else if address < 0xFE00 {
            self.w_ram.set((address - 0xE000) as usize, value);
        } else if address < 0xFEA0 {
            self.graphics.write_oam_byte(address - 0xFE00, value);
        } else if address < 0xFF00 {
        } else if address < 0xFF80 {
            self.write_io_register(address, value);
        } else if address < 0xFFFF {
            self.h_ram.set((address - 0xFF80) as usize, value);
        } else {
            self.io.interrupt_enable = value;
        }
    }

    /// Advances a running OAM DMA transfer by one M-cycle: two start-up
    /// cycles, then one byte per cycle from the source page into OAM, then
    /// the transfer ends.
    pub fn oam_transfer_step(&mut self)
        requires
            old(self).wf(),
        ensures
            final(self).wf(),
            old(self).oam_transfer_cycle == 162 ==> !final(self).oam_transfer
                && final(self).oam_transfer_cycle == 0 && final(self).graphics == old(self).graphics,
            old(self).oam_transfer_cycle < 162 ==> final(self).oam_transfer == old(self).oam_transfer
                && final(self).oam_transfer_source == old(self).oam_transfer_source
                && final(self).oam_transfer_cycle == old(self).oam_transfer_cycle + 1,
            old(self).oam_transfer_cycle < 2 ==> final(self).graphics == old(self).graphics,
            2 <= old(self).oam_transfer_cycle < 162 ==> ({
                let i = old(self).oam_transfer_cycle - 2;
                final(self).graphics.oam@ == old(self).graphics.oam@.update(
                    i,
                    old(self).peek((old(self).oam_transfer_source + i) as u16),
                ) && final(self).graphics == (Ppu { oam: final(self).graphics.oam, ..old(self).graphics })
            }),
            final(self).mbc == old(self).mbc,
            final(self).w_ram == old(self).w_ram,
            final(self).h_ram == old(self).h_ram,
            final(self).io == old(self).io,
            final(self).ppu_timing() == old(self).ppu_timing(),
    {
        let cycle = self.oam_transfer_cycle;
        if cycle < 2 {
            self.oam_transfer_cycle = cycle + 1;
        } else if cycle >= 162 {
            self.oam_transfer = false;
            self.oam_transfer_source = 0;
            self.oam_transfer_cycle = 0;
        } else {
            let i = cycle - 2;
            let value = self.read_byte_internal(self.oam_transfer_source + i);
            self.graphics.write_oam_byte(i, value);
            self.oam_transfer_cycle = cycle + 1;
        }
    }
}

/// Writing a byte to RAM, video RAM, OAM, high RAM or IE and reading it
/// back gives the byte, while no DMA transfer runs.
pub proof fn lemma_write_read(s: System, n: System, a: u16, v: u8)
    requires
        s.wf(),
        !s.oam_transfer,
        s.written(&n, a, v),
        (0x8000 <= a < 0xA000) || (0xC000 <= a < 0xFEA0) || 0xFF80 <= a,
    ensures
        n.peek(a) == v,
        n.bus_value(a) == v,
{
}

/// Writes to the unusable region are dropped and it reads 0x00 while no DMA
/// transfer runs; a write to LY leaves it at the line the PPU is on.
pub proof fn lemma_write_read_exceptions(s: System, n: System, a: u16, v: u8)
    requires
        s.wf(),
        !s.oam_transfer,
        s.written(&n, a, v),
    ensures
        0xFEA0 <= a < 0xFF00 ==> n.bus_value(a) == 0x00,
        a == 0xFF44 ==> n.bus_value(a) == s.graphics.registers.lcd_ly,
{
}

/// While a DMA transfer runs, every read outside high RAM gives 0xFF.
pub proof fn lemma_dma_lockout(s: System, a: u16)
    requires
        s.oam_transfer,
        !is_hram(a),
    ensures
        s.bus_value(a) == 0xFF,
{
}

} // verus!
