use gbemu::graphics::Ppu;
use gbemu::lcd::{LcdControlFlags, LcdStatusFlags, PpuMode};
use gbemu::renderer::{LCD_HEIGHT, LCD_WIDTH};
use gbemu::tile::{Pixel, TileData, TileRow};

const MODE_OAM_SCAN_CYCLES: usize = 20;
const MODE_DRAWING_CYCLES: usize = 43;
const MODE_H_BLANK_CYCLES: usize = 51;
const SCANLINE_CYCLES: usize = 114;

#[test]
fn test_state_machine() {
    let mut ppu = Ppu::new();

    for _ in 0..2 {
        for line in 0..LCD_HEIGHT {
            println!("Line {:03}", line);
            assert_eq!(ppu.registers.get_lcd_ly() as usize, line);

            for _ in 0..MODE_OAM_SCAN_CYCLES {
                println!("Cycle {:03}", ppu.scanline_cycle);
                assert_eq!(ppu.registers.lcd_status.ppu_mode, PpuMode::OamScan);
                ppu.step();
            }

            for _ in 0..MODE_DRAWING_CYCLES {
                println!("Cycle {:03}", ppu.scanline_cycle);
                assert_eq!(ppu.registers.lcd_status.ppu_mode, PpuMode::Drawing);
                ppu.step();
            }

            for _ in 0..MODE_H_BLANK_CYCLES {
                println!("Cycle {:03}", ppu.scanline_cycle);
                assert_eq!(ppu.registers.lcd_status.ppu_mode, PpuMode::HBlank);
                ppu.step();
            }
        }

        for v_blank_line in 0..10 {
            println!("VBlank line {:03}", v_blank_line);
            for _ in 0..SCANLINE_CYCLES {
                println!("Cycle {:03}", ppu.scanline_cycle);
                assert_eq!(ppu.registers.get_lcd_ly() as usize, LCD_HEIGHT + v_blank_line as usize);
                assert_eq!(ppu.registers.lcd_status.ppu_mode, PpuMode::VBlank);
                ppu.step();
            }
        }
    }
}

#[test]
fn test_lcd_control_flags() {
    let lcdc: LcdControlFlags = 0x00.into();

    assert!(!lcdc.enabled);
    assert!(!lcdc.window_tile_map);
    assert!(!lcdc.window_enabled);
    assert!(!lcdc.tile_data_select);
    assert!(!lcdc.background_tile_map);
    assert!(!lcdc.sprite_double_size);
    assert!(!lcdc.sprite_enabled);
    assert!(!lcdc.background_window_enabled);

    let lcdc: LcdControlFlags = 0xFF.into();

    assert!(lcdc.enabled);
    assert!(lcdc.window_tile_map);
    assert!(lcdc.window_enabled);
    assert!(lcdc.tile_data_select);
    assert!(lcdc.background_tile_map);
    assert!(lcdc.sprite_double_size);
    assert!(lcdc.sprite_enabled);
    assert!(lcdc.background_window_enabled);

    let lcdc: LcdControlFlags = 0b1000_0000.into();

    assert!(lcdc.enabled);
    assert!(!lcdc.window_tile_map);
    assert!(!lcdc.window_enabled);
    assert!(!lcdc.tile_data_select);
    assert!(!lcdc.background_tile_map);
    assert!(!lcdc.sprite_double_size);
    assert!(!lcdc.sprite_enabled);
    assert!(!lcdc.background_window_enabled);

    let lcdc: LcdControlFlags = 0b0000_0001.into();

    assert!(!lcdc.enabled);
    assert!(!lcdc.window_tile_map);
    assert!(!lcdc.window_enabled);
    assert!(!lcdc.tile_data_select);
    assert!(!lcdc.background_tile_map);
    assert!(!lcdc.sprite_double_size);
    assert!(!lcdc.sprite_enabled);
    assert!(lcdc.background_window_enabled);
}

#[test]
fn test_lcd_status_flags() {
    let lcds: LcdStatusFlags = 0x00.into();

    let byte: u8 = lcds.into();
    assert!(byte & 0x80 != 0);

    assert!(!lcds.int_lyc_enabled);
    assert!(!lcds.int_mode_2_enabled);
    assert!(!lcds.int_mode_1_enabled);
    assert!(!lcds.int_mode_0_enabled);
    assert_eq!(lcds.ppu_mode, PpuMode::HBlank);

    let lcds: LcdStatusFlags = 0xFF.into();

    assert!(lcds.int_lyc_enabled);
    assert!(lcds.int_mode_2_enabled);
    assert!(lcds.int_mode_1_enabled);
    assert!(lcds.int_mode_0_enabled);
    assert_eq!(lcds.ppu_mode, PpuMode::Drawing);

    let lcds: LcdStatusFlags = 0b0100_0000.into();

    assert!(lcds.int_lyc_enabled);
    assert!(!lcds.int_mode_2_enabled);
    assert!(!lcds.int_mode_1_enabled);
    assert!(!lcds.int_mode_0_enabled);
    assert_eq!(lcds.ppu_mode, PpuMode::HBlank);

    let lcds: LcdStatusFlags = 0x0000_0001.into();

    assert!(!lcds.int_lyc_enabled);
    assert!(!lcds.int_mode_2_enabled);
    assert!(!lcds.int_mode_1_enabled);
    assert!(!lcds.int_mode_0_enabled);
    assert_eq!(lcds.ppu_mode, PpuMode::VBlank);
}

#[test]
fn test_get_pixel_from_row() {
    let mut row = TileRow::default();

    row.bytes[0] = 0xA5;
    row.bytes[1] = 0xC3;

    assert_eq!(row.get_pixel(0), Pixel::Color3);
    assert_eq!(row.get_pixel(1), Pixel::Color2);
    assert_eq!(row.get_pixel(2), Pixel::Color1);
    assert_eq!(row.get_pixel(3), Pixel::Color0);
    assert_eq!(row.get_pixel(4), Pixel::Color0);
    assert_eq!(row.get_pixel(5), Pixel::Color1);
    assert_eq!(row.get_pixel(6), Pixel::Color2);
    assert_eq!(row.get_pixel(7), Pixel::Color3);
}

#[test]
fn test_get_tile() {
    let mut tiles = TileData::new();
    for t in 0..384u16 {
        tiles.set_byte(t * 16, (t % 256) as u8);
        tiles.set_byte(t * 16 + 1, (t / 256) as u8);
    }

    let lcdc: LcdControlFlags = (!0).into();
    assert_ne!(TileData::tile_index(lcdc.tile_data_select, 1), 0);
    assert_eq!(TileData::tile_index(lcdc.tile_data_select, 0), 0);
    assert_eq!(TileData::tile_index(lcdc.tile_data_select, 1), 1);
    assert_eq!(tiles.get_tile(lcdc.tile_data_select, 1).get_byte(0), 1);

    let lcdc: LcdControlFlags = 0.into();
    assert_eq!(TileData::tile_index(lcdc.tile_data_select, 0), 256);
    assert_eq!(TileData::tile_index(lcdc.tile_data_select, 1), 257);
    assert_eq!(TileData::tile_index(lcdc.tile_data_select, 255), 255);
    let t = tiles.get_tile(lcdc.tile_data_select, 1);
    assert_eq!((t.get_byte(0), t.get_byte(1)), (1, 1));
    assert_eq!(tiles.get_tile(lcdc.tile_data_select, 255).get_byte(0), 255);
}

#[test]
fn background_line_follows_scroll_and_tile_map() {
    let mut ppu = Ppu::new();
    // tile 1, row 0: leftmost pixel colour 3, the rest colour 0
    ppu.tile_data.set_byte(16, 0x80);
    ppu.tile_data.set_byte(17, 0x80);
    ppu.registers.set_lcd_control(0x91);
    ppu.write_map_byte(0, 1, 1);
    ppu.render_background();
    let frame = ppu.get_framebuffer();
    assert_eq!(frame.len(), LCD_WIDTH * LCD_HEIGHT);
    assert_eq!(frame[8], Pixel::Color3);
    assert_eq!(frame[7], Pixel::Color0);
    assert_eq!(frame[9], Pixel::Color0);

    ppu.registers.set_screen_x(3);
    ppu.render_background();
    let frame = ppu.get_framebuffer();
    assert_eq!(frame[5], Pixel::Color3);
    assert_eq!(frame[8], Pixel::Color0);
}

#[test]
fn vblank_interrupt_on_entering_line_144() {
    let mut ppu = Ppu::new();
    let mut raised_at = Vec::new();
    for step in 0..(154 * 114) {
        if ppu.step() {
            raised_at.push(step);
        }
    }
    assert_eq!(raised_at, vec![144 * 114 - 1]);
    assert_eq!(ppu.registers.get_lcd_ly(), 0);
}

#[test]
fn oam_scan_keeps_ten_objects_in_oam_order() {
    let mut ppu = Ppu::new();
    for i in 0..12u16 {
        ppu.write_oam_byte(i * 4, 16);
        ppu.write_oam_byte(i * 4 + 1, (i * 8 + 8) as u8);
        ppu.write_oam_byte(i * 4 + 2, i as u8);
    }
    ppu.step();
    assert_eq!(ppu.object_buffer.len(), 10);
    assert_eq!(ppu.object_buffer[0].tile_number, 0);
    assert_eq!(ppu.object_buffer[9].tile_number, 9);
}

#[test]
fn objects_draw_over_the_background() {
    let mut ppu = Ppu::new();
    // tile 2, row 0: all pixels colour 1
    ppu.tile_data.set_byte(32, 0xFF);
    ppu.write_oam_byte(0, 16);
    ppu.write_oam_byte(1, 4);
    ppu.write_oam_byte(2, 2);
    ppu.step();
    assert_eq!(ppu.object_buffer.len(), 1);
    ppu.render_background();
    ppu.render_objects();
    let frame = ppu.get_framebuffer();
    for x in 0..4 {
        assert_eq!(frame[x], Pixel::Color1);
    }
    assert_eq!(frame[4], Pixel::Color0);
    assert_eq!(frame[160], Pixel::Color0);
}
