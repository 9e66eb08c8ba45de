use vstd::prelude::*;

use crate::lcd::{GraphicsRegisters, PpuMode};
use crate::memory::OAM_SIZE;
use crate::object::{Object, object_at};
use crate::renderer::{WGPURenderer, LCD_HEIGHT, LCD_WIDTH};
use crate::tile::{Pixel, TileData, TileMap, row_pixel, tile_index_of};

verus! {

/// PPU steps spent scanning OAM at the start of a visible line.
pub const MODE_OAM_SCAN_CYCLES: u16 = 20;

/// PPU steps spent drawing after the scan.
pub const MODE_DRAWING_CYCLES: u16 = 43;

/// PPU steps of horizontal blank that end a line.
pub const MODE_H_BLANK_CYCLES: u16 = 51;

/// PPU steps per line.
pub const SCANLINE_CYCLES: u16 = 114;

/// The last line of a frame.
pub const NUM_LINES: u8 = 153;

/// The mode, step within the line and line after one PPU step, and whether
/// that step raised the V-blank interrupt (on the move from line 143 to 144).
pub open spec fn timing_next(mode: PpuMode, cycle: u16, ly: u8) -> (PpuMode, u16, u8, bool) {
    let c = cycle as int + 1;
    match mode {
        PpuMode::OamScan => (
            if c >= 20 {
                PpuMode::Drawing
            } else {
                PpuMode::OamScan
            },
            c as u16,
            ly,
            false,
        ),
        PpuMode::Drawing => (
            if c >= 63 {
                PpuMode::HBlank
            } else {
                PpuMode::Drawing
            },
            c as u16,
            ly,
            false,
        ),
        PpuMode::HBlank => if c >= 114 {
            let next = ((ly as int + 1) % 256) as u8;
            (
                if next < 144 {
                    PpuMode::OamScan
                } else {
                    PpuMode::VBlank
                },
                0,
                next,
                next == 144,
            )
        } else {
            (PpuMode::HBlank, c as u16, ly, false)
        },
        PpuMode::VBlank => if c >= 114 {
            if ly >= 153 {
                (PpuMode::OamScan, 0, 0, false)
            } else {
                (PpuMode::VBlank, 0, (ly + 1) as u8, false)
            }
        } else {
            (PpuMode::VBlank, c as u16, ly, false)
        },
    }
}

/// Mode, step and line after `n` PPU steps.
pub open spec fn timing_after(mode: PpuMode, cycle: u16, ly: u8, n: nat) -> (PpuMode, u16, u8)
    decreases n,
{
    if n == 0 {
        (mode, cycle, ly)
    } else {
        let (m, c, l) = timing_after(mode, cycle, ly, (n - 1) as nat);
        let (m2, c2, l2, _) = timing_next(m, c, l);
        (m2, c2, l2)
    }
}

/// The mode at step `k` of a visible line.
pub open spec fn visible_mode(k: int) -> PpuMode {
    if k < 20 {
        PpuMode::OamScan
    } else if k < 63 {
        PpuMode::Drawing
    } else {
        PpuMode::HBlank
    }
}

proof fn lemma_visible_line_steps(ly: u8, k: nat)
    requires
        ly < 144,
        k < 114,
    ensures
        timing_after(PpuMode::OamScan, 0, ly, k) == (visible_mode(k as int), k as u16, ly),
    decreases k,
{
    if k > 0 {
        lemma_visible_line_steps(ly, (k - 1) as nat);
    }
}

proof fn lemma_blank_line_steps(ly: u8, k: nat)
    requires
        144 <= ly <= 153,
        k < 114,
    ensures
        timing_after(PpuMode::VBlank, 0, ly, k) == (PpuMode::VBlank, k as u16, ly),
    decreases k,
{
    if k > 0 {
        lemma_blank_line_steps(ly, (k - 1) as nat);
    }
}

/// A visible line L < 144 runs 20 steps of OAM scan, 43 of drawing and 51
/// of horizontal blank, then line L + 1 starts (in V-blank after line 143);
/// a V-blank line runs 114 steps in V-blank and then LY advances, wrapping
/// to line 0 after line 153. Only the move from line 143 to 144 raises the
/// V-blank interrupt.
pub proof fn lemma_ppu_timing(ly: u8, k: nat)
    ensures
        ly < 144 && k < 114 ==> timing_after(PpuMode::OamScan, 0, ly, k) == (
            visible_mode(k as int),
            k as u16,
            ly,
        ),
        ly < 144 ==> timing_after(PpuMode::OamScan, 0, ly, 114) == (
            if ly < 143 {
                PpuMode::OamScan
            } else {
                PpuMode::VBlank
            },
            0u16,
            (ly + 1) as u8,
        ),
        144 <= ly <= 153 && k < 114 ==> timing_after(PpuMode::VBlank, 0, ly, k) == (
            PpuMode::VBlank,
            k as u16,
            ly,
        ),
        144 <= ly < 153 ==> timing_after(PpuMode::VBlank, 0, ly, 114) == (
            PpuMode::VBlank,
            0u16,
            (ly + 1) as u8,
        ),
        timing_after(PpuMode::VBlank, 0, 153, 114) == (PpuMode::OamScan, 0u16, 0u8),
        timing_next(PpuMode::HBlank, 113, 143).3,
        forall|m: PpuMode, c: u16, l: u8|
            #[trigger] timing_next(m, c, l).3 ==> m == PpuMode::HBlank && l == 143,
{
    if ly < 144 && k < 114 {
        lemma_visible_line_steps(ly, k);
    }
    if ly < 144 {
        lemma_visible_line_steps(ly, 113);
    }
    if 144 <= ly <= 153 && k < 114 {
        lemma_blank_line_steps(ly, k);
    }
    if 144 <= ly <= 153 {
        lemma_blank_line_steps(ly, 113);
    }
    lemma_blank_line_steps(153, 113);
}

/// The picture processing unit: LCD registers, video RAM, OAM, the objects
/// found on the current line and the framebuffer.
#[derive(Debug)]
pub struct Ppu {
    pub registers: GraphicsRegisters,
    pub tile_data: TileData,
    pub tile_maps: [TileMap; 2],
    pub oam: Vec<u8>,
    pub object_buffer: Vec<Object>,
    pub renderer: WGPURenderer,
    pub scanline_cycle: u16,
}

/// The objects among the first `i` OAM entries that cover line `ly`, in OAM
/// order, up to ten of them.
pub open spec fn scanned(oam: Seq<u8>, ly: u8, height: int, i: int) -> Seq<Object>
    decreases i,
{
    if i <= 0 {
        Seq::empty()
    } else {
        let s = scanned(oam, ly, height, i - 1);
        if s.len() < 10 && object_at(oam, i - 1).covers(ly, height) {
            s.push(object_at(oam, i - 1))
        } else {
            s
        }
    }
}

proof fn lemma_scanned_len(oam: Seq<u8>, ly: u8, height: int, i: int)
    ensures
        scanned(oam, ly, height, i).len() <= 10,
    decreases i,
{
    if i > 0 {
        lemma_scanned_len(oam, ly, height, i - 1);
    }
}

impl Ppu {
    pub open spec fn wf(&self) -> bool {
        &&& self.tile_data.wf()
        &&& self.tile_maps@[0].wf()
        &&& self.tile_maps@[1].wf()
        &&& self.oam@.len() == OAM_SIZE
        &&& self.object_buffer@.len() <= 10
        &&& self.renderer.wf()
        &&& self.scanline_cycle < 114
        &&& (self.mode() == PpuMode::OamScan ==> self.scanline_cycle < 20)
        &&& (self.mode() == PpuMode::Drawing ==> self.scanline_cycle < 63)
    }

    pub open spec fn mode(&self) -> PpuMode {
        self.registers.lcd_status.ppu_mode
    }

    pub open spec fn object_height(&self) -> int {
        if self.registers.lcd_control.sprite_double_size {
            16
        } else {
            8
        }
    }

    /// The background pixel at column `x` of the current line.
    pub open spec fn bg_pixel(&self, x: int) -> Pixel {
        let r = self.registers;
        let y = (r.screen_y as int + r.lcd_ly as int) % 256;
        let mx = (r.screen_x as int + x) % 256;
        let map = if r.lcd_control.background_tile_map {
            self.tile_maps@[1]
        } else {
            self.tile_maps@[0]
        };
        let n = map.tiles@[(y / 8) * 32 + mx / 8];
        let idx = tile_index_of(r.lcd_control.tile_data_select, n);
        row_pixel(
            self.tile_data.bytes@[idx * 16 + 2 * (y % 8)],
            self.tile_data.bytes@[idx * 16 + 2 * (y % 8) + 1],
            mx % 8,
        )
    }

    /// Whether only the framebuffer row `ly` may differ between two frames.
    pub open spec fn same_outside_row(a: Seq<Pixel>, b: Seq<Pixel>, ly: int) -> bool {
        a.len() == b.len() && forall|i: int|
            0 <= i < a.len() && !(ly * 160 <= i < ly * 160 + 160) ==> #[trigger] a[i] == b[i]
    }

    /// A PPU at power-on: LY 0, OAM scan at step 0, all memory clear.
    pub fn new() -> (r: Self)
        ensures
            r.wf(),
            r.registers.lcd_ly == 0,
            r.scanline_cycle == 0,
            r.mode() == PpuMode::OamScan,
            r.object_buffer@.len() == 0,
    {
        let mut registers = GraphicsRegisters::new();
        registers.set_ppu_mode(PpuMode::OamScan);
        Ppu {
            registers,
            tile_data: TileData::new(),
            tile_maps: [TileMap::new(), TileMap::new()],
            oam: crate::tile::zeros(OAM_SIZE),
            object_buffer: Vec::new(),
            renderer: WGPURenderer::new(),
            scanline_cycle: 0,
        }
    }

    pub fn read_oam_byte(&self, address: u16) -> (r: u8)
        requires
            self.wf(),
            address < 0xA0,
        ensures
            r == self.oam@[address as int],
    {
        self.oam[address as usize]
    }

    pub fn write_oam_byte(&mut self, address: u16, value: u8)
        requires
            old(self).wf(),
            address < 0xA0,
        ensures
            final(self).oam@ == old(self).oam@.update(address as int, value),
            final(self).wf(),
            final(self).registers == old(self).registers,
            final(self).tile_data == old(self).tile_data,
            final(self).tile_maps == old(self).tile_maps,
            final(self).object_buffer == old(self).object_buffer,
            final(self).renderer == old(self).renderer,
            final(self).scanline_cycle == old(self).scanline_cycle,
    {
        self.oam.set(address as usize, value);
    }

    /// Entry `address` of tile map `which`.
    pub fn read_map_byte(&self, which: usize, address: u16) -> (r: u8)
        requires
            self.wf(),
            which < 2,
            address < 1024,
        ensures
            r == self.tile_maps@[which as int].tiles@[address as int],
    {
        self.tile_maps[which].get_byte(address)
    }

    pub fn write_map_byte(&mut self, which: usize, address: u16, value: u8)
        requires
            old(self).wf(),
            which < 2,
            address < 1024,
        ensures
            final(self).tile_maps@[which as int].tiles@ == old(self).tile_maps@[which as int].tiles@.update(
                address as int,
                value,
            ),
            final(self).tile_maps@[1 - which as int] == old(self).tile_maps@[1 - which as int],
            final(self).wf(),
            final(self).registers == old(self).registers,
            final(self).tile_data == old(self).tile_data,
            final(self).oam == old(self).oam,
            final(self).object_buffer == old(self).object_buffer,
            final(self).renderer == old(self).renderer,
            final(self).scanline_cycle == old(self).scanline_cycle,
    {
        self.tile_maps[which].set_byte(address, value);
    }

    /// Draws the background of the current line into the framebuffer.
    pub fn render_background(&mut self)
        requires
            old(self).wf(),
            old(self).registers.lcd_ly < 144,
        ensures
            final(self).wf(),
            forall|x: int| 0 <= x < 160 ==> #[trigger] final(self).renderer.at(old(self).registers.lcd_ly as int, x)
                == old(self).bg_pixel(x),
            Ppu::same_outside_row(
                final(self).renderer.frame_buffer@,
                old(self).renderer.frame_buffer@,
                old(self).registers.lcd_ly as int,
            ),
            final(self).registers == old(self).registers,
            final(self).tile_data == old(self).tile_data,
            final(self).tile_maps == old(self).tile_maps,
            final(self).oam == old(self).oam,
            final(self).object_buffer == old(self).object_buffer,
            final(self).scanline_cycle == old(self).scanline_cycle,
    {
        let ly = self.registers.lcd_ly;
        let y: u8 = self.registers.screen_y.wrapping_add(ly);
        let select = self.registers.lcd_control.tile_data_select;
        let which: usize = if self.registers.lcd_control.background_tile_map {
            1
        } else {
            0
        };
        let row_base: u16 = (y as u16 / 8) * 32;
        let mut x: usize = 0;
        while x < LCD_WIDTH
            invariant
                x <= LCD_WIDTH,
                self.wf(),
                ly == old(self).registers.lcd_ly,
                ly < 144,
                y as int == (old(self).registers.screen_y as int + ly as int) % 256,
                row_base as int == (y as int / 8) * 32,
                which == (if old(self).registers.lcd_control.background_tile_map { 1usize } else { 0 }),
                select == old(self).registers.lcd_control.tile_data_select,
                forall|j: int| 0 <= j < x ==> #[trigger] self.renderer.at(ly as int, j) == old(self).bg_pixel(j),
                Ppu::same_outside_row(self.renderer.frame_buffer@, old(self).renderer.frame_buffer@, ly as int),
                self.registers == old(self).registers,
                self.tile_data == old(self).tile_data,
                self.tile_maps == old(self).tile_maps,
                self.oam == old(self).oam,
                self.object_buffer == old(self).object_buffer,
                self.scanline_cycle == old(self).scanline_cycle,
            decreases LCD_WIDTH - x,
        {
            let mx: u8 = self.registers.screen_x.wrapping_add(x as u8);
            let n = self.tile_maps[which].get_byte(row_base + (mx as u16) / 8);
            let p = self.tile_data.pixel(select, n, y % 8, mx % 8);
            proof {
                assert(mx as int == (old(self).registers.screen_x as int + x as int) % 256);
                assert(n == (if old(self).registers.lcd_control.background_tile_map {
                    old(self).tile_maps@[1]
                } else {
                    old(self).tile_maps@[0]
                }).tiles@[(y as int / 8) * 32 + mx as int / 8]);
                assert(p == old(self).bg_pixel(x as int));
            }
            let ghost before = self.renderer;
            self.renderer.put_pixel(p, ly as usize, x);
            proof {
                assert forall|j: int| 0 <= j <= x implies #[trigger] self.renderer.at(ly as int, j)
                    == old(self).bg_pixel(j) by {
                    if j < x {
                        assert(before.at(ly as int, j) == old(self).bg_pixel(j));
                        assert(self.renderer.frame_buffer@[ly * 160 + j] == before.frame_buffer@[ly * 160
                            + j]);
                    }
                }
            }
            x = x + 1;
        }
    }

    /// The window layer is not drawn; the line shows the bare background.
    pub fn render_window(&mut self)
        ensures
            *final(self) == *old(self),
    {
    }

    /// The pixel that buffered object `k` puts at column `x` of the current line.
    pub open spec fn object_pixel(&self, k: int, x: int) -> Pixel {
        let obj = self.object_buffer@[k];
        let row = self.registers.lcd_ly as int + 16 - obj.pos_y as int;
        let tile = if self.registers.lcd_control.sprite_double_size {
            (((obj.tile_number & 0xFE) as int + row / 8) % 256) as u8
        } else {
            obj.tile_number
        };
        let idx = tile_index_of(true, tile);
        row_pixel(
            self.tile_data.bytes@[idx * 16 + 2 * (row % 8)],
            self.tile_data.bytes@[idx * 16 + 2 * (row % 8) + 1],
            x + 8 - obj.pos_x as int,
        )
    }

    /// Whether buffered object `k` covers the current line and column `x`.
    pub open spec fn object_covers(&self, k: int, x: int) -> bool {
        let obj = self.object_buffer@[k];
        &&& obj.covers(self.registers.lcd_ly, self.object_height())
        &&& obj.pos_x as int - 8 <= x < obj.pos_x as int
    }

    /// Draws the objects found on the current line over the background, in
    /// OAM order, at columns max(0, X - 8) up to min(160, X).
    pub fn render_objects(&mut self)
        requires
            old(self).wf(),
            old(self).registers.lcd_ly < 144,
        ensures
            final(self).wf(),
            forall|x: int|
                0 <= x < 160 ==> #[trigger] final(self).renderer.at(old(self).registers.lcd_ly as int, x)
                    == old(self).renderer.at(old(self).registers.lcd_ly as int, x) || exists|k: int|
                    0 <= k < old(self).object_buffer@.len() && old(self).object_covers(k, x)
                        && final(self).renderer.at(old(self).registers.lcd_ly as int, x)
                        == old(self).object_pixel(k, x),
            Ppu::same_outside_row(
                final(self).renderer.frame_buffer@,
                old(self).renderer.frame_buffer@,
                old(self).registers.lcd_ly as int,
            ),
            final(self).registers == old(self).registers,
            final(self).tile_data == old(self).tile_data,
            final(self).tile_maps == old(self).tile_maps,
            final(self).oam == old(self).oam,
            final(self).object_buffer == old(self).object_buffer,
            final(self).scanline_cycle == old(self).scanline_cycle,
    {
        let ly = self.registers.lcd_ly;
        let double = self.registers.lcd_control.sprite_double_size;
        let height: u16 = if double {
            16
        } else {
            8
        };
        let mut k: usize = 0;
        while k < self.object_buffer.len()
            invariant
                self.wf(),
                ly == old(self).registers.lcd_ly,
                ly < 144,
                height == 8 || height == 16,
                double == (height == 16),
                double == old(self).registers.lcd_control.sprite_double_size,
                height as int == old(self).object_height(),
                k <= self.object_buffer@.len(),
                forall|x: int|
                    0 <= x < 160 ==> #[trigger] self.renderer.at(ly as int, x) == old(self).renderer.at(
                        ly as int,
                        x,
                    ) || exists|j: int|
                        0 <= j < k && old(self).object_covers(j, x) && self.renderer.at(ly as int, x)
                            == old(self).object_pixel(j, x),
                Ppu::same_outside_row(self.renderer.frame_buffer@, old(self).renderer.frame_buffer@, ly as int),
                self.registers == old(self).registers,
                self.tile_data == old(self).tile_data,
                self.tile_maps == old(self).tile_maps,
                self.oam == old(self).oam,
                self.object_buffer == old(self).object_buffer,
                self.scanline_cycle == old(self).scanline_cycle,
            decreases self.object_buffer@.len() - k,
        {
            let obj = self.object_buffer[k];
            let top = obj.pos_y as u16;
            let line = ly as u16 + 16;
            if top <= line && line < top + height {
                let row = line - top;
                let tile_number = if double {
                    (obj.tile_number & 0xFE).wrapping_add((row / 8) as u8)
                } else {
                    obj.tile_number
                };
                let right = obj.pos_x as usize;
                let left: usize = if right >= 8 {
                    right - 8
                } else {
                    0
                };
                let stop: usize = if right < LCD_WIDTH {
                    right
                } else {
                    LCD_WIDTH
                };
                let mut x = left;
                while x < stop
                    invariant
                        x + 8 >= right,
                        stop <= LCD_WIDTH,
                        stop <= right,
                        row < 16,
                        left <= x,
                        left as int == if right >= 8 { right as int - 8 } else { 0 },
                        k < self.object_buffer@.len(),
                        obj == self.object_buffer@[k as int],
                        right == obj.pos_x as usize,
                        row as int == ly as int + 16 - obj.pos_y as int,
                        old(self).object_covers(k as int, left as int) || left >= stop,
                        obj.covers(ly, height as int),
                        height as int == old(self).object_height(),
                        double == old(self).registers.lcd_control.sprite_double_size,
                        tile_number == if double {
                            (((obj.tile_number & 0xFE) as int + row as int / 8) % 256) as u8
                        } else {
                            obj.tile_number
                        },
                        forall|c: int|
                            0 <= c < 160 ==> #[trigger] self.renderer.at(ly as int, c) == old(self).renderer.at(
                                ly as int,
                                c,
                            ) || exists|j: int|
                                0 <= j <= k && old(self).object_covers(j, c) && self.renderer.at(ly as int, c)
                                    == old(self).object_pixel(j, c),
                        self.wf(),
                        ly == old(self).registers.lcd_ly,
                        ly < 144,
                        Ppu::same_outside_row(self.renderer.frame_buffer@, old(self).renderer.frame_buffer@, ly as int),
                        self.registers == old(self).registers,
                        self.tile_data == old(self).tile_data,
                        self.tile_maps == old(self).tile_maps,
                        self.oam == old(self).oam,
                        self.object_buffer == old(self).object_buffer,
                        self.scanline_cycle == old(self).scanline_cycle,
                    decreases stop - x,
                {
                    let column = (x + 8 - right) as u8;
                    let p = self.tile_data.pixel(true, tile_number, (row % 8) as u8, column);
                    let ghost before = self.renderer;
                    self.renderer.put_pixel(p, ly as usize, x);
                    proof {
                        assert(p == old(self).object_pixel(k as int, x as int));
                        assert(old(self).object_covers(k as int, x as int));
                        assert forall|c: int| 0 <= c < 160 implies #[trigger] self.renderer.at(ly as int, c)
                            == old(self).renderer.at(ly as int, c) || exists|j: int|
                            0 <= j <= k && old(self).object_covers(j, c) && self.renderer.at(ly as int, c)
                                == old(self).object_pixel(j, c) by {
                            if c != x {
                                assert(self.renderer.frame_buffer@[ly * 160 + c] == before.frame_buffer@[ly
                                    * 160 + c]);
                                assert(before.at(ly as int, c) == self.renderer.at(ly as int, c));
                            } else {
                                assert(self.renderer.at(ly as int, c) == p);
                            }
                        }
                    }
                    x = x + 1;
                }
            }
            k = k + 1;
        }
    }

    /// Draws the current line: the background, then the objects over it.
    pub fn render_line(&mut self)
        requires
            old(self).wf(),
            old(self).registers.lcd_ly < 144,
        ensures
            final(self).wf(),
            forall|x: int|
                0 <= x < 160 ==> #[trigger] final(self).renderer.at(old(self).registers.lcd_ly as int, x)
                    == old(self).bg_pixel(x) || exists|k: int|
                    0 <= k < old(self).object_buffer@.len() && old(self).object_covers(k, x)
                        && final(self).renderer.at(old(self).registers.lcd_ly as int, x)
                        == old(self).object_pixel(k, x),
            Ppu::same_outside_row(
                final(self).renderer.frame_buffer@,
                old(self).renderer.frame_buffer@,
                old(self).registers.lcd_ly as int,
            ),
            final(self).registers == old(self).registers,
            final(self).tile_data == old(self).tile_data,
            final(self).tile_maps == old(self).tile_maps,
            final(self).oam == old(self).oam,
            final(self).object_buffer == old(self).object_buffer,
            final(self).scanline_cycle == old(self).scanline_cycle,
    {
        let ghost start = *self;
        self.render_background();
        self.render_window();
        let ghost mid = *self;
        self.render_objects();
        proof {
            let ly = start.registers.lcd_ly as int;
            assert forall|x: int| 0 <= x < 160 implies #[trigger] self.renderer.at(ly, x)
                == start.bg_pixel(x) || exists|k: int|
                0 <= k < start.object_buffer@.len() && start.object_covers(k, x)
                    && self.renderer.at(ly, x) == start.object_pixel(k, x) by {
                assert(mid.renderer.at(ly, x) == start.bg_pixel(x));
                if self.renderer.at(ly, x) != mid.renderer.at(ly, x) {
                    let k = choose|k: int|
                        0 <= k < mid.object_buffer@.len() && mid.object_covers(k, x)
                            && self.renderer.at(ly, x) == mid.object_pixel(k, x);
                    assert(mid.object_pixel(k, x) == start.object_pixel(k, x));
                    assert(mid.object_covers(k, x) == start.object_covers(k, x));
                }
            }
        }
    }

    /// Collects, in OAM order, up to ten objects that cover the current line.
    pub fn scan_oam(&mut self)
        requires
            old(self).wf(),
        ensures
            final(self).wf(),
            final(self).object_buffer@ == scanned(
                old(self).oam@,
                old(self).registers.lcd_ly,
                old(self).object_height(),
                40,
            ),
            final(self).registers == old(self).registers,
            final(self).tile_data == old(self).tile_data,
            final(self).tile_maps == old(self).tile_maps,
            final(self).oam == old(self).oam,
            final(self).renderer == old(self).renderer,
            final(self).scanline_cycle == old(self).scanline_cycle,
    {
        let ly = self.registers.lcd_ly;
        let height: u16 = if self.registers.lcd_control.sprite_double_size {
            16
        } else {
            8
        };
        let mut found: Vec<Object> = Vec::new();
        let mut i: usize = 0;
        while i < 40
            invariant
                i <= 40,
                self.wf(),
                ly == old(self).registers.lcd_ly,
                height as int == old(self).object_height(),
                found@ == scanned(old(self).oam@, ly, height as int, i as int),
                *self == *old(self),
            decreases 40 - i,
        {
            proof {
                lemma_scanned_len(old(self).oam@, ly, height as int, i as int);
            }
            let obj = Object::from_oam(&self.oam, i);
            let top = obj.pos_y as u16;
            let line = ly as u16 + 16;
            if found.len() < 10 && top <= line && line < top + height {
                found.push(obj);
            }
            i = i + 1;
        }
        proof {
            lemma_scanned_len(old(self).oam@, ly, height as int, 40);
        }
        self.object_buffer = found;
    }

    /// Advances one PPU step. Returns whether the V-blank interrupt is raised.
    /// At the first step of horizontal blank the line is drawn; at the end of
    /// a line the object buffer is cleared; at the first step of OAM scan it
    /// is filled.
    pub fn step(&mut self) -> (r: bool)
        requires
            old(self).wf(),
        ensures
            final(self).wf(),
            ({
                let (m, c, l, irq) = timing_next(
                    old(self).mode(),
                    old(self).scanline_cycle,
                    old(self).registers.lcd_ly,
                );
                &&& final(self).mode() == m
                &&& final(self).scanline_cycle == c
                &&& final(self).registers == old(self).registers.with_ly(l).with_mode(m)
                &&& r == irq
            }),
            final(self).tile_data == old(self).tile_data,
            final(self).tile_maps == old(self).tile_maps,
            final(self).oam == old(self).oam,
            old(self).registers.lcd_ly < 144 ==> Ppu::same_outside_row(
                final(self).renderer.frame_buffer@,
                old(self).renderer.frame_buffer@,
                old(self).registers.lcd_ly as int,
            ),
            old(self).registers.lcd_ly >= 144 ==> final(self).renderer == old(self).renderer,
            old(self).mode() == PpuMode::OamScan && old(self).scanline_cycle == 0
                ==> final(self).object_buffer@ == scanned(
                old(self).oam@,
                old(self).registers.lcd_ly,
                old(self).object_height(),
                40,
            ),
            old(self).mode() == PpuMode::HBlank && old(self).scanline_cycle >= 113
                ==> final(self).object_buffer@.len() == 0,
            final(self).registers.lcd_ly != old(self).registers.lcd_ly ==> final(self).object_buffer@.len() == 0,
            old(self).mode() == PpuMode::HBlank && old(self).scanline_cycle == 63
                && old(self).registers.lcd_ly < 144 ==> forall|x: int|
                0 <= x < 160 ==> #[trigger] final(self).renderer.at(old(self).registers.lcd_ly as int, x)
                    == old(self).bg_pixel(x) || exists|k: int|
                    0 <= k < old(self).object_buffer@.len() && old(self).object_covers(k, x)
                        && final(self).renderer.at(old(self).registers.lcd_ly as int, x)
                        == old(self).object_pixel(k, x),
    {
        let mut interrupt = false;
        let cycle = self.scanline_cycle;
        match self.registers.lcd_status.ppu_mode {
            PpuMode::HBlank => {
                if cycle == 63 && self.registers.lcd_ly < 144 {
                    self.render_line();
                }
                if cycle + 1 >= SCANLINE_CYCLES {
                    self.scanline_cycle = 0;
                    let next = self.registers.lcd_ly.wrapping_add(1);
                    self.registers.set_lcd_ly(next);
                    self.object_buffer = Vec::new();
                    if next < 144 {
                        self.registers.set_ppu_mode(PpuMode::OamScan);
                    } else {
                        self.registers.set_ppu_mode(PpuMode::VBlank);
                    }
                    interrupt = next == 144;
                } else {
                    self.scanline_cycle = cycle + 1;
                    self.registers.set_ppu_mode(PpuMode::HBlank);
                }
            },
            PpuMode::VBlank => {
                if cycle + 1 >= SCANLINE_CYCLES {
                    self.scanline_cycle = 0;
                    self.object_buffer = Vec::new();
                    if self.registers.lcd_ly >= NUM_LINES {
                        self.registers.set_lcd_ly(0);
                        self.registers.set_ppu_mode(PpuMode::OamScan);
                    } else {
                        let next = self.registers.lcd_ly + 1;
                        self.registers.set_lcd_ly(next);
                        self.registers.set_ppu_mode(PpuMode::VBlank);
                    }
                } else {
                    self.scanline_cycle = cycle + 1;
                    self.registers.set_ppu_mode(PpuMode::VBlank);
                }
            },
            PpuMode::OamScan => {
                if cycle == 0 {
                    self.scan_oam();
                }
                self.scanline_cycle = cycle + 1;
                if cycle + 1 >= MODE_OAM_SCAN_CYCLES {
                    self.registers.set_ppu_mode(PpuMode::Drawing);
                } else {
                    self.registers.set_ppu_mode(PpuMode::OamScan);
                }
            },
            PpuMode::Drawing => {
                self.scanline_cycle = cycle + 1;
                if cycle + 1 >= MODE_OAM_SCAN_CYCLES + MODE_DRAWING_CYCLES {
                    self.registers.set_ppu_mode(PpuMode::HBlank);
                } else {
                    self.registers.set_ppu_mode(PpuMode::Drawing);
                }
            },
        }
        interrupt
    }

    /// A copy of the framebuffer, row after row.
    pub fn get_framebuffer(&self) -> (r: Vec<Pixel>)
        ensures
            r@ == self.renderer.frame_buffer@,
    {
        self.renderer.framebuffer()
    }
}

} // verus!
