use ppu::cpu::EmulationMode;
use ppu::gpu::{Gpu, GpuMode};

fn in_transfer() -> Gpu {
    let mut gpu = Gpu::new(EmulationMode::Dmg);
    gpu.set_byte(0xFF40, 0x80);
    gpu.tick(80);
    assert_eq!(*gpu.mode(), GpuMode::PixelTransfer);
    gpu
}

fn in_hblank() -> Gpu {
    let mut gpu = in_transfer();
    gpu.tick(175);
    assert_eq!(*gpu.mode(), GpuMode::HBlank);
    gpu
}

#[test]
fn power_on_state() {
    let gpu = Gpu::new(EmulationMode::Dmg);
    assert_eq!(*gpu.mode(), GpuMode::OamSearch);
    assert_eq!(gpu.screen().len(), 160 * 144 * 4);
    assert!(gpu.screen().iter().all(|&b| b == 0));
    assert_eq!(gpu.vram0.len(), 0x2000);
    assert_eq!(gpu.vram1.len(), 0x2000);
    assert_eq!(gpu.bgp_ram.len(), 0x40);
    assert_eq!(gpu.obp_ram.len(), 0x40);
    assert_eq!(gpu.oam.len(), 0xA0);
    assert!(!gpu.request_vblank_int);
    assert!(!gpu.request_lcd_int);
    assert!(!gpu.oam_dma_active);
    assert_eq!(gpu.get_byte(0xFF40), 0);
    assert_eq!(gpu.get_byte(0xFF44), 0);
}

#[test]
fn vram_write_is_dropped_during_pixel_transfer() {
    let mut gpu = in_transfer();
    gpu.set_byte(0x8123, 0xAB);
    assert_eq!(gpu.vram0[0x123], 0);
    gpu.tick(175);
    assert_eq!(*gpu.mode(), GpuMode::HBlank);
    assert_eq!(gpu.get_byte(0x8123), 0);
}

#[test]
fn vram_write_is_visible_in_hblank() {
    let mut gpu = in_hblank();
    gpu.set_byte(0x8123, 0xAB);
    assert_eq!(gpu.get_byte(0x8123), 0xAB);
    gpu.set_byte(0x9FFF, 0x11);
    assert_eq!(gpu.get_byte(0x9FFF), 0x11);
    gpu.set_byte(0x8000, 0x22);
    assert_eq!(gpu.get_byte(0x8000), 0x22);
}

#[test]
fn vram_write_during_pixel_transfer_passes_with_display_off() {
    let mut gpu = Gpu::new(EmulationMode::Dmg);
    gpu.stat.mode = GpuMode::PixelTransfer;
    gpu.set_byte(0x8000, 0x42);
    assert_eq!(gpu.vram0[0], 0x42);
}

// Known deviation from the hardware, kept on purpose: during pixel transfer
// video memory reads as the locked byte, except while a transfer into the
// sprite table is running, when it reads as what it holds.
#[test]
fn vram_read_during_pixel_transfer_depends_on_the_dma_flag() {
    let mut gpu = Gpu::new(EmulationMode::Dmg);
    gpu.set_byte(0x8010, 0x5A);
    gpu.set_byte(0xFF40, 0x80);
    gpu.tick(80);
    assert_eq!(gpu.get_byte(0x8010), 0x00);
    gpu.oam_dma_active = true;
    assert_eq!(gpu.get_byte(0x8010), 0x5A);
}

#[test]
fn vram_bank_select() {
    let mut gpu = Gpu::new(EmulationMode::Cgb);
    assert_eq!(gpu.get_byte(0xFF4F), 0xFE);
    gpu.set_byte(0x8000, 1);
    gpu.set_byte(0xFF4F, 0xFF);
    assert_eq!(gpu.get_byte(0xFF4F), 0xFF);
    assert_eq!(gpu.get_byte(0x8000), 0);
    gpu.set_byte(0x8000, 2);
    assert_eq!(gpu.vram0[0], 1);
    assert_eq!(gpu.vram1[0], 2);
    gpu.set_byte(0xFF4F, 0xFE);
    assert_eq!(gpu.get_byte(0xFF4F), 0xFE);
    assert_eq!(gpu.get_byte(0x8000), 1);
}

#[test]
fn direct_vram_access_ignores_the_mode() {
    let mut gpu = in_transfer();
    gpu.set_vram_byte(0x9ABC, 9, 1);
    assert_eq!(gpu.get_vram_byte(0x9ABC, 1), 9);
    assert_eq!(gpu.get_vram_byte(0x9ABC, 0), 0);
    gpu.set_vram_byte(0x9ABC, 8, 0);
    assert_eq!(gpu.get_vram_byte(0x9ABC, 0), 8);
}

#[test]
fn oam_is_locked_during_search_and_transfer() {
    let mut gpu = Gpu::new(EmulationMode::Dmg);
    // Display off: writes pass in any mode; reads are locked in search.
    gpu.set_byte(0xFE00, 0x77);
    assert_eq!(gpu.oam[0], 0x77);
    assert_eq!(gpu.get_byte(0xFE00), 0x00);
    gpu.oam_dma_active = true;
    assert_eq!(gpu.get_byte(0xFE00), 0x77);
    gpu.oam_dma_active = false;

    gpu.set_byte(0xFF40, 0x80);
    gpu.set_byte(0xFE9F, 0x11);
    assert_eq!(gpu.oam[0x9F], 0);
    gpu.tick(80);
    gpu.set_byte(0xFE9F, 0x22);
    assert_eq!(gpu.oam[0x9F], 0);
    assert_eq!(gpu.get_byte(0xFE00), 0x00);
    gpu.tick(175);
    assert_eq!(*gpu.mode(), GpuMode::HBlank);
    assert_eq!(gpu.get_byte(0xFE00), 0x77);
    gpu.set_byte(0xFE9F, 0x33);
    assert_eq!(gpu.get_byte(0xFE9F), 0x33);
}

#[test]
fn plain_registers_read_back() {
    let mut gpu = Gpu::new(EmulationMode::Dmg);
    let registers: [u16; 8] = [0xFF42, 0xFF43, 0xFF45, 0xFF47, 0xFF48, 0xFF49, 0xFF4A, 0xFF4B];
    for (i, addr) in registers.iter().enumerate() {
        gpu.set_byte(*addr, 0xA0 + i as u8);
    }
    for (i, addr) in registers.iter().enumerate() {
        assert_eq!(gpu.get_byte(*addr), 0xA0 + i as u8);
    }
    assert_eq!(gpu.position.scroll_y, 0xA0);
    assert_eq!(gpu.position.scroll_x, 0xA1);
    assert_eq!(gpu.position.lyc, 0xA2);
    assert_eq!(gpu.dmgp.bgp, 0xA3);
    assert_eq!(gpu.dmgp.obp0, 0xA4);
    assert_eq!(gpu.dmgp.obp1, 0xA5);
    assert_eq!(gpu.position.window_y, 0xA6);
    assert_eq!(gpu.position.window_x, 0xA7);
}

#[test]
fn control_register_reads_back() {
    let mut gpu = Gpu::new(EmulationMode::Dmg);
    gpu.set_byte(0xFF40, 0xD3);
    assert_eq!(gpu.get_byte(0xFF40), 0xD3);
    gpu.set_byte(0xFF40, 0x91);
    assert_eq!(gpu.get_byte(0xFF40), 0x91);
}

#[test]
fn line_counter_is_read_only() {
    let mut gpu = in_hblank();
    gpu.tick(204);
    assert_eq!(gpu.get_byte(0xFF44), 1);
    gpu.set_byte(0xFF44, 99);
    assert_eq!(gpu.get_byte(0xFF44), 1);
}

#[test]
fn dma_trigger_register_reads_as_ff() {
    let gpu = Gpu::new(EmulationMode::Dmg);
    assert_eq!(gpu.get_byte(0xFF46), 0xFF);
}

#[test]
fn status_register_reports_enables_flag_and_mode() {
    let mut gpu = Gpu::new(EmulationMode::Dmg);
    assert_eq!(gpu.get_byte(0xFF41), 0x02);
    gpu.set_byte(0xFF41, 0xFF);
    // Bits 0 to 2 and bit 7 cannot be written.
    assert_eq!(gpu.get_byte(0xFF41), 0x7A);
    gpu.set_byte(0xFF40, 0x80);
    gpu.tick(80);
    assert_eq!(gpu.get_byte(0xFF41), 0x7B);
    gpu.tick(175);
    assert_eq!(gpu.get_byte(0xFF41), 0x78);
    gpu.set_byte(0xFF41, 0x00);
    assert_eq!(gpu.get_byte(0xFF41), 0x00);
}

#[test]
fn switching_the_display_off_resets_the_scheduler_and_blanks_the_screen() {
    let mut gpu = Gpu::new(EmulationMode::Dmg);
    gpu.set_byte(0xFF40, 0x80);
    gpu.tick(459 * 3 - 15 * 2 + 100);
    assert_eq!(gpu.get_byte(0xFF44), 3);
    assert_eq!(*gpu.mode(), GpuMode::PixelTransfer);
    gpu.win_counter = 5;
    gpu.set_byte(0xFF40, 0x00);
    assert_eq!(gpu.get_byte(0xFF44), 0);
    assert_eq!(*gpu.mode(), GpuMode::HBlank);
    assert_eq!(gpu.clock, 0);
    assert_eq!(gpu.win_counter, 0);
    assert_eq!(gpu.screen().len(), 160 * 144 * 4);
    assert!(gpu.screen().iter().all(|&b| b == 255));
    assert_eq!(gpu.get_byte(0xFF40), 0x00);
    assert!(!gpu.request_lcd_int);
}

#[test]
fn switching_the_display_off_can_raise_the_hblank_interrupt() {
    let mut gpu = Gpu::new(EmulationMode::Dmg);
    gpu.set_byte(0xFF41, 0x08);
    gpu.set_byte(0xFF40, 0x80);
    assert!(!gpu.request_lcd_int);
    gpu.set_byte(0xFF40, 0x7F);
    assert!(gpu.request_lcd_int);
    assert_eq!(gpu.get_byte(0xFF40), 0x7F);
}

#[test]
fn writing_control_with_the_display_staying_on_resets_nothing() {
    let mut gpu = Gpu::new(EmulationMode::Dmg);
    gpu.set_byte(0xFF40, 0x80);
    gpu.tick(500);
    let line = gpu.get_byte(0xFF44);
    assert_eq!(line, 1);
    gpu.set_byte(0xFF40, 0x91);
    assert_eq!(gpu.get_byte(0xFF44), line);
    assert_eq!(*gpu.mode(), GpuMode::OamSearch);
    assert!(gpu.screen().iter().any(|&b| b != 255));
}

#[test]
fn switching_on_a_display_that_is_off_resets_nothing() {
    let mut gpu = Gpu::new(EmulationMode::Dmg);
    gpu.set_byte(0xFF40, 0x00);
    assert_eq!(*gpu.mode(), GpuMode::OamSearch);
    assert!(gpu.screen().iter().all(|&b| b == 0));
}

#[test]
fn palette_index_registers() {
    let mut gpu = Gpu::new(EmulationMode::Cgb);
    gpu.set_byte(0xFF68, 0xFF);
    assert_eq!(gpu.cgbp.bgp_idx, 0x3F);
    assert!(gpu.cgbp.bgp_auto_incr);
    assert_eq!(gpu.get_byte(0xFF68), 0xBF);
    gpu.set_byte(0xFF6A, 0x45);
    assert_eq!(gpu.cgbp.obp_idx, 0x05);
    assert!(!gpu.cgbp.obp_auto_incr);
    assert_eq!(gpu.get_byte(0xFF6A), 0x05);
}

#[test]
fn palette_data_auto_increment_wraps() {
    let mut gpu = Gpu::new(EmulationMode::Cgb);
    gpu.set_byte(0xFF68, 0x80 | 0x3E);
    gpu.set_byte(0xFF69, 0x11);
    gpu.set_byte(0xFF69, 0x22);
    gpu.set_byte(0xFF69, 0x33);
    assert_eq!(gpu.bgp_ram[0x3E], 0x11);
    assert_eq!(gpu.bgp_ram[0x3F], 0x22);
    assert_eq!(gpu.bgp_ram[0x00], 0x33);
    assert_eq!(gpu.get_byte(0xFF68), 0x81);
    assert_eq!(gpu.get_byte(0xFF69), 0x00);

    gpu.set_byte(0xFF6A, 0x07);
    gpu.set_byte(0xFF6B, 0x44);
    gpu.set_byte(0xFF6B, 0x55);
    assert_eq!(gpu.obp_ram[0x07], 0x55);
    assert_eq!(gpu.get_byte(0xFF6A), 0x07);
    assert_eq!(gpu.get_byte(0xFF6B), 0x55);
}

#[test]
fn palette_data_write_is_dropped_during_pixel_transfer_whatever_the_display() {
    let mut gpu = in_transfer();
    gpu.set_byte(0xFF68, 0x80);
    gpu.set_byte(0xFF69, 0x99);
    assert_eq!(gpu.bgp_ram[0], 0);
    // The index moves on all the same.
    assert_eq!(gpu.cgbp.bgp_idx, 1);
    gpu.set_byte(0xFF6A, 0x80);
    gpu.set_byte(0xFF6B, 0x99);
    assert_eq!(gpu.obp_ram[0], 0);
    assert_eq!(gpu.cgbp.obp_idx, 1);

    let mut off = Gpu::new(EmulationMode::Cgb);
    off.stat.mode = GpuMode::PixelTransfer;
    off.set_byte(0xFF69, 0x99);
    assert_eq!(off.bgp_ram[0], 0);
}

#[test]
fn accepted_addresses() {
    let dmg = Gpu::new(EmulationMode::Dmg);
    let cgb = Gpu::new(EmulationMode::Cgb);
    for addr in [0x8000u16, 0x9FFF, 0xFE00, 0xFE9F, 0xFF40, 0xFF45, 0xFF47, 0xFF4B, 0xFF4F] {
        assert!(Gpu::accepts_write(addr));
        assert!(dmg.accepts_read(addr));
        assert!(cgb.accepts_read(addr));
    }
    for addr in [0x7FFFu16, 0xA000, 0xFDFF, 0xFEA0, 0xFF3F, 0xFF4C, 0xFF4E, 0xFF50, 0xFF67, 0xFF6C] {
        assert!(!Gpu::accepts_write(addr));
        assert!(!dmg.accepts_read(addr));
        assert!(!cgb.accepts_read(addr));
    }
    // The register that starts a sprite-table transfer can only be read.
    assert!(!Gpu::accepts_write(0xFF46));
    assert!(dmg.accepts_read(0xFF46));
    // The palette registers can be read in the enhanced scheme only.
    for addr in 0xFF68..=0xFF6Bu16 {
        assert!(Gpu::accepts_write(addr));
        assert!(!dmg.accepts_read(addr));
        assert!(cgb.accepts_read(addr));
    }
}

#[test]
fn clear_screen_fills_with_the_blank_value() {
    let mut gpu = Gpu::new(EmulationMode::Dmg);
    gpu.clear_screen();
    assert_eq!(gpu.screen().len(), 160 * 144 * 4);
    assert!(gpu.screen().iter().all(|&b| b == 255));
}
