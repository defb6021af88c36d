use ppu::cpu::EmulationMode;
use ppu::gpu::{FetcherState, Gpu, GpuMode};

#[test]
fn unit_is_well_formed_at_power_on() {
    assert!(Gpu::new(EmulationMode::Dmg).is_well_formed());
    assert!(Gpu::new(EmulationMode::Cgb).is_well_formed());
}

#[test]
fn cycles_and_bus_accesses_keep_the_unit_well_formed() {
    let mut gpu = Gpu::new(EmulationMode::Cgb);
    gpu.set_byte(0xFF43, 0x35);
    gpu.set_byte(0xFF40, 0x91);
    let mut addr: u16 = 0x8000;
    for round in 0..3000usize {
        gpu.tick(round % 97);
        assert!(gpu.is_well_formed());
        if Gpu::accepts_write(addr) {
            gpu.set_byte(addr, (round % 256) as u8);
            assert!(gpu.is_well_formed());
        }
        addr = addr.wrapping_add(0x0123) | 0x8000;
        if round % 500 == 499 {
            gpu.set_byte(0xFF40, 0x11);
            assert!(gpu.is_well_formed());
            gpu.set_byte(0xFF40, 0x91);
        }
    }
}

#[test]
fn a_unit_put_together_wrongly_is_rejected() {
    let mut gpu = Gpu::new(EmulationMode::Dmg);
    gpu.lcd.pop();
    assert!(!gpu.is_well_formed());

    let mut gpu = Gpu::new(EmulationMode::Dmg);
    gpu.clock = 80;
    assert!(!gpu.is_well_formed());

    let mut gpu = Gpu::new(EmulationMode::Dmg);
    gpu.position.ly = 144;
    assert!(!gpu.is_well_formed());
    gpu.stat.mode = GpuMode::VBlank;
    assert!(gpu.is_well_formed());
    gpu.position.ly = 153;
    assert!(!gpu.is_well_formed());

    let mut gpu = Gpu::new(EmulationMode::Dmg);
    gpu.fetcher.state = FetcherState::Sleep(3);
    assert!(!gpu.is_well_formed());

    let mut gpu = Gpu::new(EmulationMode::Dmg);
    gpu.bg_fifo.push(0, 0);
    assert!(gpu.is_well_formed());
    gpu.bg_fifo.pop();
    assert!(!gpu.is_well_formed());

    let mut gpu = Gpu::new(EmulationMode::Dmg);
    gpu.stat.mode = GpuMode::PixelTransfer;
    assert!(gpu.is_well_formed());
    gpu.position.lx = 160;
    assert!(!gpu.is_well_formed());

    let mut gpu = Gpu::new(EmulationMode::Dmg);
    gpu.vram_bank = 2;
    assert!(!gpu.is_well_formed());
}
