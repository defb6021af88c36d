//! The bus arbiter: byte reads and writes over the memory-mapped surface,
//! with the lockouts that depend on the mode.

use crate::cpu::EmulationMode;
use crate::gpu::registers::LcdControl;
use crate::gpu::state::{blank_screen, GpuState, OAM_OFFSET, VRAM_OFFSET};
use crate::gpu::{Gpu, GpuMode};
use vstd::prelude::*;

verus! {

impl Gpu {
    /// Whether `set_byte` accepts `addr`.
    pub fn accepts_write(addr: u16) -> (ok: bool)
        ensures
            ok == GpuState::writable(addr),
    {
        (0x8000 <= addr && addr <= 0x9FFF) || (0xFE00 <= addr && addr <= 0xFE9F) || (0xFF40 <= addr
            && addr <= 0xFF45) || (0xFF47 <= addr && addr <= 0xFF4B) || addr == 0xFF4F || (0xFF68
            <= addr && addr <= 0xFF6B)
    }

    /// Whether `get_byte` answers `addr`.
    pub fn accepts_read(&self, addr: u16) -> (ok: bool)
        ensures
            ok == self@.readable(addr),
    {
        (0x8000 <= addr && addr <= 0x9FFF) || (0xFE00 <= addr && addr <= 0xFE9F) || (0xFF40 <= addr
            && addr <= 0xFF4B) || addr == 0xFF4F || (0xFF68 <= addr && addr <= 0xFF6B && match self.emu_mode {
            EmulationMode::Cgb => true,
            EmulationMode::Dmg => false,
        })
    }

    /// Fills the framebuffer with the blank value.
    pub fn clear_screen(&mut self)
        ensures
            final(self)@ == (GpuState {
                lcd: Seq::new(old(self)@.lcd.len(), |i: int| 255u8),
                ..old(self)@
            }),
    {
        let n: usize = self.lcd.len();
        let mut i: usize = 0;
        while i < n
            invariant
                i <= n,
                n == self.lcd.len(),
                forall|j: int| 0 <= j < i ==> self.lcd@[j] == 255u8,
                self@ == (GpuState { lcd: self.lcd@, ..old(self)@ }),
            decreases n - i,
        {
            self.lcd.set(i, 255);
            i += 1;
        }
        assert(self.lcd@ =~= Seq::new(old(self)@.lcd.len(), |i: int| 255u8));
    }

    /// Writes one byte of video memory, whatever the mode.
    pub fn set_vram_byte(&mut self, addr: u16, value: u8, bank: usize)
        requires
            old(self)@.memories_sized(),
            0x8000 <= addr <= 0x9FFF,
        ensures
            final(self)@ == old(self)@.with_vram_byte(addr, value, bank as nat),
    {
        if bank == 0 {
            self.vram0.set((addr - VRAM_OFFSET) as usize, value);
        } else {
            self.vram1.set((addr - VRAM_OFFSET) as usize, value);
        }
    }

    /// Reads one byte of video memory, whatever the mode.
    pub fn get_vram_byte(&self, addr: u16, bank: usize) -> (value: u8)
        requires
            self@.memories_sized(),
            0x8000 <= addr <= 0x9FFF,
        ensures
            value == self@.vram_byte(addr, bank as nat),
    {
        if bank == 0 {
            self.vram0[(addr - VRAM_OFFSET) as usize]
        } else {
            self.vram1[(addr - VRAM_OFFSET) as usize]
        }
    }

    /// A write to the control register: see [`GpuState::write_control`].
    fn set_control(&mut self, value: u8)
        requires
            old(self)@.memories_sized(),
        ensures
            final(self)@ == old(self)@.write_control(value),
    {
        let lcdc: LcdControl = LcdControl::from_bits(value);
        if self.lcdc.display_enable != 0 && lcdc.display_enable == 0 {
            self.change_mode(GpuMode::HBlank);
            self.position.ly = 0;
            self.win_counter = 0;
            self.clock = 0;
            self.clear_screen();
            assert(self.lcd@ =~= blank_screen());
        }
        self.lcdc = lcdc;
    }

    /// A write to the data register of the background palette memory: see
    /// [`GpuState::write_bgp_data`].
    fn set_bgp_data(&mut self, value: u8)
        requires
            old(self)@.addressable(),
        ensures
            final(self)@ == old(self)@.write_bgp_data(value),
    {
        if self.stat.mode != GpuMode::PixelTransfer {
            self.bgp_ram.set(self.cgbp.bgp_idx as usize, value);
        }
        if self.cgbp.bgp_auto_incr {
            self.cgbp.bgp_idx = (self.cgbp.bgp_idx + 1) % 0x40;
        }
    }

    /// A write to the data register of the object palette memory: see
    /// [`GpuState::write_obp_data`].
    fn set_obp_data(&mut self, value: u8)
        requires
            old(self)@.addressable(),
        ensures
            final(self)@ == old(self)@.write_obp_data(value),
    {
        if self.stat.mode != GpuMode::PixelTransfer {
            self.obp_ram.set(self.cgbp.obp_idx as usize, value);
        }
        if self.cgbp.obp_auto_incr {
            self.cgbp.obp_idx = (self.cgbp.obp_idx + 1) % 0x40;
        }
    }

    /// A write to one of the registers.
    fn set_register(&mut self, addr: u16, value: u8)
        requires
            old(self)@.addressable(),
            GpuState::writable(addr),
            addr >= 0xFF40,
        ensures
            final(self)@ == old(self)@.write(addr, value),
    {
        if addr == 0xFF40 {
            self.set_control(value);
        } else if addr == 0xFF41 {
            self.stat.set_enables(value);
        } else if addr == 0xFF42 {
            self.position.scroll_y = value;
        } else if addr == 0xFF43 {
            self.position.scroll_x = value;
        } else if addr == 0xFF44 {
        } else if addr == 0xFF45 {
            self.position.lyc = value;
        } else if addr == 0xFF47 {
            self.dmgp.bgp = value;
        } else if addr == 0xFF48 {
            self.dmgp.obp0 = value;
        } else if addr == 0xFF49 {
            self.dmgp.obp1 = value;
        } else if addr == 0xFF4A {
            self.position.window_y = value;
        } else if addr == 0xFF4B {
            self.position.window_x = value;
        } else if addr == 0xFF4F {
            self.vram_bank = (value & 0x01) as usize;
        } else if addr == 0xFF68 {
            self.cgbp.bgp_idx = value & 0x3F;
            self.cgbp.bgp_auto_incr = (value & 0x80) != 0;
        } else if addr == 0xFF69 {
            self.set_bgp_data(value);
        } else if addr == 0xFF6A {
            self.cgbp.obp_idx = value & 0x3F;
            self.cgbp.obp_auto_incr = (value & 0x80) != 0;
        } else {
            self.set_obp_data(value);
        }
        assert(self@ =~= old(self)@.write(addr, value));
    }

    /// A write of the bus. Video memory and the sprite table drop it while
    /// they are locked, the line counter always, palette data during pixel
    /// transfer. Switching the display off resets the scheduler and blanks
    /// the screen.
    pub fn set_byte(&mut self, addr: u16, value: u8)
        requires
            old(self)@.addressable(),
            GpuState::writable(addr),
        ensures
            final(self)@ == old(self)@.write(addr, value),
            final(self)@.addressable(),
            old(self)@.wf() ==> final(self)@.wf(),
    {
        proof {
            old(self)@.lemma_write_addressable(addr, value);
            if old(self)@.wf() {
                old(self)@.lemma_write_wf(addr, value);
            }
        }
        if 0x8000 <= addr && addr <= 0x9FFF {
            let locked: bool = self.stat.mode == GpuMode::PixelTransfer
                && self.lcdc.display_enabled();
            if !locked {
                self.set_vram_byte(addr, value, self.vram_bank);
            }
        } else if 0xFE00 <= addr && addr <= 0xFE9F {
            let locked: bool = (self.stat.mode == GpuMode::OamSearch || self.stat.mode
                == GpuMode::PixelTransfer) && self.lcdc.display_enabled();
            if !locked {
                self.oam.set((addr - OAM_OFFSET) as usize, value);
                assert(self@ =~= old(self)@.write(addr, value));
            }
        } else {
            self.set_register(addr, value);
        }
    }

    /// A read of the bus. Video memory and the sprite table read as a fixed
    /// byte while they are locked; the register that starts a transfer into
    /// the sprite table reads as 0xFF.
    pub fn get_byte(&self, addr: u16) -> (value: u8)
        requires
            self@.addressable(),
            self@.readable(addr),
        ensures
            value == self@.read(addr),
    {
        if 0x8000 <= addr && addr <= 0x9FFF {
            if self.stat.mode == GpuMode::PixelTransfer && !self.oam_dma_active {
                0x00
            } else {
                self.get_vram_byte(addr, self.vram_bank)
            }
        } else if 0xFE00 <= addr && addr <= 0xFE9F {
            if (self.stat.mode == GpuMode::OamSearch || self.stat.mode == GpuMode::PixelTransfer)
                && !self.oam_dma_active {
                0x00
            } else {
                self.oam[(addr - OAM_OFFSET) as usize]
            }
        } else if addr == 0xFF40 {
            self.lcdc.bits()
        } else if addr == 0xFF41 {
            self.stat.bits()
        } else if addr == 0xFF42 {
            self.position.scroll_y
        } else if addr == 0xFF43 {
            self.position.scroll_x
        } else if addr == 0xFF44 {
            self.position.ly
        } else if addr == 0xFF45 {
            self.position.lyc
        } else if addr == 0xFF46 {
            0xFF
        } else if addr == 0xFF47 {
            self.dmgp.bgp
        } else if addr == 0xFF48 {
            self.dmgp.obp0
        } else if addr == 0xFF49 {
            self.dmgp.obp1
        } else if addr == 0xFF4A {
            self.position.window_y
        } else if addr == 0xFF4B {
            self.position.window_x
        } else if addr == 0xFF4F {
            let bank: u8 = self.vram_bank as u8;
            assert(0xFEu8 | bank == if bank == 0 {
                0xFEu8
            } else {
                0xFFu8
            }) by (bit_vector)
                requires
                    bank <= 1,
            ;
            0xFE | bank
        } else if addr == 0xFF68 {
            self.cgbp.bgp()
        } else if addr == 0xFF69 {
            self.bgp_ram[self.cgbp.bgp_idx as usize]
        } else if addr == 0xFF6A {
            self.cgbp.obp()
        } else {
            self.obp_ram[self.cgbp.obp_idx as usize]
        }
    }
}

} // verus!
