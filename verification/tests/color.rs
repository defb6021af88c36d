use ppu::cpu::EmulationMode;
use ppu::gpu::Gpu;

#[test]
fn channel_expansion_keeps_the_full_range() {
    let gpu = Gpu::new(EmulationMode::Cgb);
    assert_eq!(gpu.color_correct(0, 31, 16), (0, 255, 132));
}

#[test]
fn channel_expansion_is_eight_times_plus_a_quarter() {
    let gpu = Gpu::new(EmulationMode::Cgb);
    for c in 0..32u16 {
        let expected = (8 * c + c / 4) as u8;
        assert_eq!(gpu.color_correct(c, c, c), (expected, expected, expected));
    }
}

#[test]
fn channel_expansion_masks_to_five_bits() {
    let gpu = Gpu::new(EmulationMode::Cgb);
    assert_eq!(gpu.color_correct(32, 63, 0xFFFF), (0, 255, 255));
}

#[test]
fn monochrome_palette_selects_the_shade() {
    let gpu = Gpu::new(EmulationMode::Dmg);
    // 0xE4 = 11 10 01 00: value n maps to shade n.
    assert_eq!(gpu.get_rgb(0, 0xE4), (224, 247, 208));
    assert_eq!(gpu.get_rgb(1, 0xE4), (136, 192, 112));
    assert_eq!(gpu.get_rgb(2, 0xE4), (52, 104, 86));
    assert_eq!(gpu.get_rgb(3, 0xE4), (8, 23, 33));
    // 0x1B = 00 01 10 11: the reverse.
    assert_eq!(gpu.get_rgb(0, 0x1B), (8, 23, 33));
    assert_eq!(gpu.get_rgb(1, 0x1B), (52, 104, 86));
    assert_eq!(gpu.get_rgb(2, 0x1B), (136, 192, 112));
    assert_eq!(gpu.get_rgb(3, 0x1B), (224, 247, 208));
}

#[test]
fn monochrome_pixel_value_is_masked_to_two_bits() {
    let gpu = Gpu::new(EmulationMode::Dmg);
    assert_eq!(gpu.get_rgb(4, 0xE4), gpu.get_rgb(0, 0xE4));
    assert_eq!(gpu.get_rgb(0xFF, 0xE4), gpu.get_rgb(3, 0xE4));
}

#[test]
fn enhanced_palette_unpacks_little_endian_colors() {
    let mut gpu = Gpu::new(EmulationMode::Cgb);
    // Palette 1, colour 2 starts at byte 1 * 8 + 2 * 2 = 12.
    // 0x7C1F: blue 31, green 0, red 31.
    gpu.bgp_ram[12] = 0x1F;
    gpu.bgp_ram[13] = 0x7C;
    assert_eq!(gpu.get_rgb_cgb(2, 1, false), (255, 0, 255));
    // 0x0210: red 16, green 16, blue 0.
    gpu.obp_ram[62] = 0x10;
    gpu.obp_ram[63] = 0x02;
    assert_eq!(gpu.get_rgb_cgb(3, 7, true), (132, 132, 0));
    assert_eq!(gpu.get_rgb_cgb(3, 7, false), (0, 0, 0));
}

#[test]
fn enhanced_palette_ignores_the_top_bit() {
    let mut gpu = Gpu::new(EmulationMode::Cgb);
    gpu.bgp_ram[0] = 0xFF;
    gpu.bgp_ram[1] = 0xFF;
    assert_eq!(gpu.get_rgb_cgb(0, 0, false), (255, 255, 255));
}

#[test]
fn enhanced_palette_numbers_wrap() {
    let mut gpu = Gpu::new(EmulationMode::Cgb);
    gpu.bgp_ram[12] = 0x1F;
    gpu.bgp_ram[13] = 0x00;
    assert_eq!(gpu.get_rgb_cgb(2, 1, false), (255, 0, 0));
    assert_eq!(gpu.get_rgb_cgb(6, 9, false), (255, 0, 0));
}
