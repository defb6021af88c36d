//! The mathematical model of the unit: what it holds, what a bus access
//! does to it, and what one cycle does to it.

use crate::cpu::EmulationMode;
use crate::gpu::color::{monochrome_rgb, shade_rgb};
use crate::gpu::registers::{ColorPalette, LcdControl, LcdPosition, LcdStatus, MonochromePalette};
use crate::gpu::{BgFifoView, FetchType, Fetcher, FetcherState, GpuMode};
use vstd::prelude::*;

verus! {

pub const VRAM_BANK_SIZE: usize = 0x2000;

pub const OAM_SIZE: usize = 0xA0;

pub const PALETTE_RAM_SIZE: usize = 0x40;

pub const SCREEN_WIDTH: usize = 160;

pub const SCREEN_HEIGHT: usize = 144;

pub const SCREEN_DEPTH: usize = 4;

/// Bytes in the framebuffer: width by height by depth.
pub const LCD_SIZE: usize = 92160;

pub const VRAM_OFFSET: u16 = 0x8000;

pub const OAM_OFFSET: u16 = 0xFE00;

/// Length of the sprite search of every visible line.
pub const SEARCH_CYCLES: usize = 80;

/// Length of a horizontal blank after a pixel transfer that discarded
/// nothing.
pub const HBLANK_CYCLES: usize = 204;

/// Length of one line of the vertical blank.
pub const VBLANK_LINE_CYCLES: usize = 456;

/// The byte that a locked memory reads as.
pub const LOCKED_BYTE: u8 = 0x00;

/// The eight pixels of one tile row, leftmost first: pixel `k` takes bit
/// `7 - k` of the low plane as its bit 0 and of the high plane as its bit 1.
pub open spec fn tile_row(low: u8, high: u8) -> Seq<u8> {
    Seq::new(8, |k: int| pixel_bits(low, high, (7 - k) as u8))
}

/// The two-bit pixel that bit `bit` of the two planes encodes.
pub open spec fn pixel_bits(low: u8, high: u8, bit: u8) -> u8 {
    ((low >> bit) & 1) | (((high >> bit) & 1) << 1)
}

/// Where the sixteen bytes of tile `idx` start. With `sel` zero the index is
/// a signed number and tile 0 is at 0x9000; otherwise it is unsigned and
/// tile 0 is at 0x8000.
pub open spec fn tile_data_addr(sel: u8, idx: u8) -> int {
    if sel == 0 {
        if idx < 128 {
            0x9000 + 16 * idx
        } else {
            0x9000 + 16 * (idx - 256)
        }
    } else {
        0x8000 + 16 * idx
    }
}

/// The framebuffer after the display was switched off.
pub open spec fn blank_screen() -> Seq<u8> {
    Seq::new(LCD_SIZE as nat, |i: int| 255u8)
}

/// Everything the unit holds.
#[verifier::ext_equal]
pub struct GpuState {
    pub lcd: Seq<u8>,
    pub vram0: Seq<u8>,
    pub vram1: Seq<u8>,
    pub bgp_ram: Seq<u8>,
    pub obp_ram: Seq<u8>,
    pub oam: Seq<u8>,
    pub cgbp: ColorPalette,
    pub emu_mode: EmulationMode,
    pub lcdc: LcdControl,
    pub dmgp: MonochromePalette,
    pub position: LcdPosition,
    pub stat: LcdStatus,
    pub clock: nat,
    pub request_vblank_int: bool,
    pub request_lcd_int: bool,
    pub vram_bank: nat,
    pub win_counter: nat,
    pub oam_dma_active: bool,
    pub bg_fifo: BgFifoView,
    pub fetcher: Fetcher,
    pub borrowed_cycles: nat,
}

impl GpuState {
    /// The unit at power-on: memories zero-filled, registers at their
    /// defaults, display off, about to search line 0.
    pub open spec fn power_on(emu_mode: EmulationMode) -> GpuState {
        GpuState {
            lcd: Seq::new(LCD_SIZE as nat, |i: int| 0u8),
            vram0: Seq::new(VRAM_BANK_SIZE as nat, |i: int| 0u8),
            vram1: Seq::new(VRAM_BANK_SIZE as nat, |i: int| 0u8),
            bgp_ram: Seq::new(PALETTE_RAM_SIZE as nat, |i: int| 0u8),
            obp_ram: Seq::new(PALETTE_RAM_SIZE as nat, |i: int| 0u8),
            oam: Seq::new(OAM_SIZE as nat, |i: int| 0u8),
            cgbp: ColorPalette::spec_default(),
            emu_mode,
            lcdc: LcdControl::spec_default(),
            dmgp: MonochromePalette::spec_default(),
            position: LcdPosition::spec_default(),
            stat: LcdStatus::spec_default(),
            clock: 0,
            request_vblank_int: false,
            request_lcd_int: false,
            vram_bank: 0,
            win_counter: 0,
            oam_dma_active: false,
            bg_fifo: BgFifoView { q: Seq::empty(), x: 0, scx: 0 },
            fetcher: Fetcher::spec_new(),
            borrowed_cycles: 0,
        }
    }

    // ------------------------------------------------------------------
    // Validity
    // ------------------------------------------------------------------
    /// Every memory has its size.
    pub open spec fn memories_sized(self) -> bool {
        &&& self.lcd.len() == LCD_SIZE
        &&& self.vram0.len() == VRAM_BANK_SIZE
        &&& self.vram1.len() == VRAM_BANK_SIZE
        &&& self.bgp_ram.len() == PALETTE_RAM_SIZE
        &&& self.obp_ram.len() == PALETTE_RAM_SIZE
        &&& self.oam.len() == OAM_SIZE
    }

    /// The registers that index a memory stay inside it.
    pub open spec fn indices_in_range(self) -> bool {
        &&& self.cgbp.bgp_idx < PALETTE_RAM_SIZE
        &&& self.cgbp.obp_idx < PALETTE_RAM_SIZE
        &&& self.vram_bank <= 1
    }

    /// What a bus access needs: memories of the right size and index
    /// registers that stay inside them.
    pub open spec fn addressable(self) -> bool {
        self.memories_sized() && self.indices_in_range()
    }

    /// The fetcher and the queue move in step. The queue is empty during the
    /// first fetch after power-on, holds one row during the second, and from
    /// then on gets a new row in the very cycle in which it is down to
    /// eight pixels.
    pub open spec fn pipeline_in_step(self) -> bool {
        let len = self.bg_fifo.q.len();
        &&& self.fetcher.state.valid()
        &&& self.fetcher.x < 32
        &&& self.bg_fifo.scx + self.borrowed_cycles <= 7
        &&& len == 0 || len == 8 || (8 < len <= 15 && len + self.fetcher.state.phase() == 15)
    }

    /// The line counter, the pixel cursor and the mode clock are where the
    /// mode allows, and the coincidence flag is clear or set.
    pub open spec fn mode_in_range(self) -> bool {
        &&& self.position.lx <= SCREEN_WIDTH
        &&& self.stat.coincident == 0 || self.stat.coincident == 0x04
        &&& match self.stat.mode {
            GpuMode::OamSearch => self.position.ly < SCREEN_HEIGHT && self.clock < SEARCH_CYCLES,
            GpuMode::PixelTransfer => self.position.ly < SCREEN_HEIGHT && self.clock == 0
                && self.position.lx < SCREEN_WIDTH,
            GpuMode::HBlank => self.position.ly < SCREEN_HEIGHT && self.clock + self.borrowed_cycles
                < HBLANK_CYCLES,
            GpuMode::VBlank => (self.position.ly == 0 || SCREEN_HEIGHT <= self.position.ly <= 152)
                && self.clock < VBLANK_LINE_CYCLES,
        }
    }

    /// The invariant of the unit. It holds at power-on, and every cycle and
    /// every bus access keeps it.
    pub open spec fn wf(self) -> bool {
        &&& self.addressable()
        &&& self.pipeline_in_step()
        &&& self.mode_in_range()
    }

    // ------------------------------------------------------------------
    // Bus
    // ------------------------------------------------------------------
    /// Whether the unit answers a read of `addr`.
    pub open spec fn readable(self, addr: u16) -> bool {
        ||| 0x8000 <= addr <= 0x9FFF
        ||| 0xFE00 <= addr <= 0xFE9F
        ||| 0xFF40 <= addr <= 0xFF4B
        ||| addr == 0xFF4F
        ||| 0xFF68 <= addr <= 0xFF6B && self.emu_mode == EmulationMode::Cgb
    }

    /// Whether the unit accepts a write to `addr`.
    pub open spec fn writable(addr: u16) -> bool {
        ||| 0x8000 <= addr <= 0x9FFF
        ||| 0xFE00 <= addr <= 0xFE9F
        ||| 0xFF40 <= addr <= 0xFF45
        ||| 0xFF47 <= addr <= 0xFF4B
        ||| addr == 0xFF4F
        ||| 0xFF68 <= addr <= 0xFF6B
    }

    /// The byte of video memory at `addr`, in bank 0 or in the other one.
    pub open spec fn vram_byte(self, addr: u16, bank: nat) -> u8 {
        if bank == 0 {
            self.vram0[addr - VRAM_OFFSET]
        } else {
            self.vram1[addr - VRAM_OFFSET]
        }
    }

    /// Video memory with the byte at `addr` of one bank replaced.
    pub open spec fn with_vram_byte(self, addr: u16, value: u8, bank: nat) -> GpuState {
        if bank == 0 {
            GpuState { vram0: self.vram0.update(addr - VRAM_OFFSET, value), ..self }
        } else {
            GpuState { vram1: self.vram1.update(addr - VRAM_OFFSET, value), ..self }
        }
    }

    /// Video memory is closed to the bus during pixel transfer, unless a
    /// transfer into the sprite table is running.
    pub open spec fn vram_read_locked(self) -> bool {
        self.stat.mode == GpuMode::PixelTransfer && !self.oam_dma_active
    }

    /// The sprite table is closed to the bus during search and pixel
    /// transfer, unless a transfer into it is running.
    pub open spec fn oam_read_locked(self) -> bool {
        (self.stat.mode == GpuMode::OamSearch || self.stat.mode == GpuMode::PixelTransfer)
            && !self.oam_dma_active
    }

    /// Writes to video memory are dropped during pixel transfer while the
    /// display is on.
    pub open spec fn vram_write_locked(self) -> bool {
        self.stat.mode == GpuMode::PixelTransfer && self.lcdc.spec_display_enabled()
    }

    /// Writes to the sprite table are dropped during search and pixel
    /// transfer while the display is on.
    pub open spec fn oam_write_locked(self) -> bool {
        (self.stat.mode == GpuMode::OamSearch || self.stat.mode == GpuMode::PixelTransfer)
            && self.lcdc.spec_display_enabled()
    }

    /// What a read of `addr` returns.
    pub open spec fn read(self, addr: u16) -> u8 {
        if 0x8000 <= addr <= 0x9FFF {
            if self.vram_read_locked() {
                LOCKED_BYTE
            } else {
                self.vram_byte(addr, self.vram_bank)
            }
        } else if 0xFE00 <= addr <= 0xFE9F {
            if self.oam_read_locked() {
                LOCKED_BYTE
            } else {
                self.oam[addr - OAM_OFFSET]
            }
        } else if addr == 0xFF40 {
            self.lcdc.spec_bits()
        } else if addr == 0xFF41 {
            self.stat.spec_bits()
        } else if addr == 0xFF42 {
            self.position.scroll_y
        } else if addr == 0xFF43 {
            self.position.scroll_x
        } else if addr == 0xFF44 {
            self.position.ly
        } else if addr == 0xFF45 {
            self.position.lyc
        } else if addr == 0xFF46 {
            0xFF
        } else if addr == 0xFF47 {
            self.dmgp.bgp
        } else if addr == 0xFF48 {
            self.dmgp.obp0
        } else if addr == 0xFF49 {
            self.dmgp.obp1
        } else if addr == 0xFF4A {
            self.position.window_y
        } else if addr == 0xFF4B {
            self.position.window_x
        } else if addr == 0xFF4F {
            if self.vram_bank == 0 {
                0xFE
            } else {
                0xFF
            }
        } else if addr == 0xFF68 {
            self.cgbp.spec_bgp()
        } else if addr == 0xFF69 {
            self.bgp_ram[self.cgbp.bgp_idx as int]
        } else if addr == 0xFF6A {
            self.cgbp.spec_obp()
        } else {
            self.obp_ram[self.cgbp.obp_idx as int]
        }
    }

    /// A write to the control register. Switching the display off puts the
    /// unit into horizontal blank on line 0 with a cleared clock and blanks
    /// the screen; then the byte is decoded.
    pub open spec fn write_control(self, value: u8) -> GpuState {
        let off = if self.lcdc.display_enable != 0 && value & 0x80 == 0 {
            GpuState {
                position: LcdPosition { ly: 0, ..self.position },
                win_counter: 0,
                clock: 0,
                lcd: blank_screen(),
                ..self.change_mode(GpuMode::HBlank)
            }
        } else {
            self
        };
        GpuState { lcdc: LcdControl::spec_from_bits(value), ..off }
    }

    /// A write to the data register of the background palette memory. It is
    /// dropped during pixel transfer; the index moves on either way.
    pub open spec fn write_bgp_data(self, value: u8) -> GpuState {
        GpuState {
            bgp_ram: if self.stat.mode != GpuMode::PixelTransfer {
                self.bgp_ram.update(self.cgbp.bgp_idx as int, value)
            } else {
                self.bgp_ram
            },
            cgbp: ColorPalette {
                bgp_idx: ColorPalette::next_index(self.cgbp.bgp_idx, self.cgbp.bgp_auto_incr),
                ..self.cgbp
            },
            ..self
        }
    }

    /// The same for the object palette memory.
    pub open spec fn write_obp_data(self, value: u8) -> GpuState {
        GpuState {
            obp_ram: if self.stat.mode != GpuMode::PixelTransfer {
                self.obp_ram.update(self.cgbp.obp_idx as int, value)
            } else {
                self.obp_ram
            },
            cgbp: ColorPalette {
                obp_idx: ColorPalette::next_index(self.cgbp.obp_idx, self.cgbp.obp_auto_incr),
                ..self.cgbp
            },
            ..self
        }
    }

    /// The unit after a write of `value` to `addr`.
    pub open spec fn write(self, addr: u16, value: u8) -> GpuState {
        if 0x8000 <= addr <= 0x9FFF {
            if self.vram_write_locked() {
                self
            } else {
                self.with_vram_byte(addr, value, self.vram_bank)
            }
        } else if 0xFE00 <= addr <= 0xFE9F {
            if self.oam_write_locked() {
                self
            } else {
                GpuState { oam: self.oam.update(addr - OAM_OFFSET, value), ..self }
            }
        } else if addr == 0xFF40 {
            self.write_control(value)
        } else if addr == 0xFF41 {
            GpuState { stat: self.stat.spec_with_enables(value), ..self }
        } else if addr == 0xFF42 {
            GpuState { position: LcdPosition { scroll_y: value, ..self.position }, ..self }
        } else if addr == 0xFF43 {
            GpuState { position: LcdPosition { scroll_x: value, ..self.position }, ..self }
        } else if addr == 0xFF44 {
            self
        } else if addr == 0xFF45 {
            GpuState { position: LcdPosition { lyc: value, ..self.position }, ..self }
        } else if addr == 0xFF47 {
            GpuState { dmgp: MonochromePalette { bgp: value, ..self.dmgp }, ..self }
        } else if addr == 0xFF48 {
            GpuState { dmgp: MonochromePalette { obp0: value, ..self.dmgp }, ..self }
        } else if addr == 0xFF49 {
            GpuState { dmgp: MonochromePalette { obp1: value, ..self.dmgp }, ..self }
        } else if addr == 0xFF4A {
            GpuState { position: LcdPosition { window_y: value, ..self.position }, ..self }
        } else if addr == 0xFF4B {
            GpuState { position: LcdPosition { window_x: value, ..self.position }, ..self }
        } else if addr == 0xFF4F {
            GpuState { vram_bank: (value & 0x01) as nat, ..self }
        } else if addr == 0xFF68 {
            GpuState {
                cgbp: ColorPalette {
                    bgp_idx: value & 0x3F,
                    bgp_auto_incr: (value & 0x80) != 0,
                    ..self.cgbp
                },
                ..self
            }
        } else if addr == 0xFF69 {
            self.write_bgp_data(value)
        } else if addr == 0xFF6A {
            GpuState {
                cgbp: ColorPalette {
                    obp_idx: value & 0x3F,
                    obp_auto_incr: (value & 0x80) != 0,
                    ..self.cgbp
                },
                ..self
            }
        } else if addr == 0xFF6B {
            self.write_obp_data(value)
        } else {
            self
        }
    }

    // ------------------------------------------------------------------
    // Window
    // ------------------------------------------------------------------
    /// The window is switched on and its origin is on the screen.
    pub open spec fn win_enabled(self) -> bool {
        self.lcdc.spec_window_enabled() && self.position.window_x < 167 && self.position.window_y
            < 144
    }

    /// The next pixel lies at or behind the window's origin.
    pub open spec fn win_pixel(self) -> bool {
        self.position.window_x <= self.position.lx + 7 && self.position.window_y
            <= self.position.ly
    }

    // ------------------------------------------------------------------
    // Interrupts and mode changes
    // ------------------------------------------------------------------
    pub open spec fn request_lcd(self) -> GpuState {
        GpuState { request_lcd_int: true, ..self }
    }

    pub open spec fn request_vblank(self) -> GpuState {
        GpuState { request_vblank_int: true, ..self }
    }

    /// Whether entering `mode` asks for a status interrupt. Entering pixel
    /// transfer never does.
    pub open spec fn mode_interrupt(self, mode: GpuMode) -> bool {
        match mode {
            GpuMode::OamSearch => self.stat.oam_int != 0,
            GpuMode::HBlank => self.stat.hblank_int != 0,
            GpuMode::VBlank => self.stat.vblank_int != 0,
            GpuMode::PixelTransfer => false,
        }
    }

    /// The unit after entering `mode`.
    pub open spec fn change_mode(self, mode: GpuMode) -> GpuState {
        GpuState {
            stat: LcdStatus { mode, ..self.stat },
            request_lcd_int: self.request_lcd_int || self.mode_interrupt(mode),
            ..self
        }
    }

    /// The unit after comparing the line with its target: the flag takes the
    /// outcome, and a match asks for a status interrupt if that is enabled.
    pub open spec fn check_coincidence(self) -> GpuState {
        if self.position.ly == self.position.lyc {
            GpuState {
                stat: LcdStatus { coincident: 0x04, ..self.stat },
                request_lcd_int: self.request_lcd_int || self.stat.lyc_int != 0,
                ..self
            }
        } else {
            GpuState { stat: LcdStatus { coincident: 0, ..self.stat }, ..self }
        }
    }

    // ------------------------------------------------------------------
    // Pixel pipeline
    // ------------------------------------------------------------------
    /// The background row that the current line shows, after vertical scroll.
    pub open spec fn bg_row(self) -> int {
        (self.position.ly + self.position.scroll_y) % 256
    }

    /// Where the number of the tile to fetch stands in the tilemap: 32
    /// entries per tile row, the column wrapping after 32.
    pub open spec fn tile_number_addr(self) -> int {
        self.lcdc.spec_bg_tilemap() + (self.bg_row() / 8) * 32 + (self.position.scroll_x / 8
            + self.fetcher.x) % 32
    }

    /// Where the low plane of the fetched tile's row stands: two bytes per
    /// row of the tile. The high plane follows it.
    pub open spec fn tile_line_addr(self) -> int {
        tile_data_addr(self.lcdc.bg_tiledata_sel, self.fetcher.tile_num) + (self.bg_row() % 8) * 2
    }

    pub open spec fn with_fetcher_state(self, state: FetcherState) -> GpuState {
        GpuState { fetcher: Fetcher { state, ..self.fetcher }, ..self }
    }

    /// One step of the fetcher. Its reads go over the bus like any other.
    pub open spec fn fetcher_step(self) -> GpuState {
        match self.fetcher.state {
            FetcherState::Sleep(n) => if n == 0 {
                self.with_fetcher_state(FetcherState::ReadTileNumber)
            } else if n == 1 {
                self.with_fetcher_state(FetcherState::ReadTileDataLow)
            } else if n == 2 {
                self.with_fetcher_state(FetcherState::ReadTileDataHigh)
            } else {
                self
            },
            FetcherState::ReadTileNumber => GpuState {
                fetcher: Fetcher {
                    tile_num: match self.fetcher.fetching {
                        FetchType::Background => self.read(self.tile_number_addr() as u16),
                        FetchType::Window => self.fetcher.tile_num,
                    },
                    state: FetcherState::Sleep(1),
                    ..self.fetcher
                },
                ..self
            },
            FetcherState::ReadTileDataLow => GpuState {
                fetcher: Fetcher {
                    low: self.read(self.tile_line_addr() as u16),
                    state: FetcherState::Sleep(2),
                    ..self.fetcher
                },
                ..self
            },
            FetcherState::ReadTileDataHigh => GpuState {
                fetcher: Fetcher {
                    high: self.read((self.tile_line_addr() + 1) as u16),
                    state: FetcherState::Push(0),
                    ..self.fetcher
                },
                ..self
            },
            FetcherState::Push(n) => if n == 0 {
                GpuState {
                    fetcher: Fetcher {
                        x: ((self.fetcher.x + 1) % 32) as u8,
                        state: FetcherState::Push(1),
                        ..self.fetcher
                    },
                    ..self
                }
            } else if n == 1 && self.bg_fifo.q.len() <= 8 {
                GpuState {
                    bg_fifo: BgFifoView {
                        q: self.bg_fifo.q + tile_row(self.fetcher.low, self.fetcher.high),
                        ..self.bg_fifo
                    },
                    fetcher: Fetcher { state: FetcherState::Sleep(0), ..self.fetcher },
                    ..self
                }
            } else {
                self
            },
        }
    }

    /// Where the four bytes of the pixel at column `x` of the current line
    /// start in the framebuffer.
    pub open spec fn pixel_offset(self, x: int) -> int {
        self.position.ly * SCREEN_WIDTH * SCREEN_DEPTH + x * SCREEN_DEPTH
    }

    /// The framebuffer with the pixel at column `x` of the current line set
    /// to an opaque colour.
    pub open spec fn lcd_with_pixel(self, x: int, r: u8, g: u8, b: u8) -> Seq<u8> {
        let at = self.pixel_offset(x);
        self.lcd.update(at, r).update(at + 1, g).update(at + 2, b).update(at + 3, 255)
    }

    /// The pixel at column `x` of the current line holds one of the four
    /// shades, opaque.
    pub open spec fn pixel_shown(self, x: int) -> bool {
        let at = self.pixel_offset(x);
        exists|shade: u8|
            shade < 4 && self.lcd[at] == (#[trigger] shade_rgb(shade)).0 && self.lcd[at + 1]
                == shade_rgb(shade).1 && self.lcd[at + 2] == shade_rgb(shade).2 && self.lcd[at
                + 3] == 255
    }

    /// The first `columns` pixels of the current line are shown.
    pub open spec fn line_shown(self, columns: int) -> bool {
        forall|x: int| 0 <= x < columns ==> #[trigger] self.pixel_shown(x)
    }

    /// The framebuffer is that of `before` except on the current line.
    pub open spec fn other_lines_as_in(self, before: GpuState) -> bool {
        &&& self.lcd.len() == before.lcd.len()
        &&& forall|i: int|
            0 <= i < self.lcd.len() && !(self.pixel_offset(0) <= i < self.pixel_offset(
                SCREEN_WIDTH as int,
            )) ==> #[trigger] self.lcd[i] == before.lcd[i]
    }

    /// One step of the queue. It rests until it holds more than eight
    /// pixels. Then it takes the oldest pixel out: to throw it away, while
    /// pixels are left to discard, which counts as a borrowed cycle; else to
    /// show it at the pixel cursor, which moves on.
    pub open spec fn fifo_step(self) -> GpuState {
        let q = self.bg_fifo.q;
        if q.len() <= 8 {
            self
        } else if self.bg_fifo.scx > 0 {
            GpuState {
                bg_fifo: BgFifoView {
                    q: q.subrange(1, q.len() as int),
                    scx: (self.bg_fifo.scx - 1) as u8,
                    ..self.bg_fifo
                },
                borrowed_cycles: self.borrowed_cycles + 1,
                ..self
            }
        } else {
            let rgb = monochrome_rgb(q[0], self.dmgp.bgp);
            GpuState {
                bg_fifo: BgFifoView { q: q.subrange(1, q.len() as int), ..self.bg_fifo },
                lcd: self.lcd_with_pixel(self.position.lx as int, rgb.0, rgb.1, rgb.2),
                position: LcdPosition { lx: (self.position.lx + 1) as u8, ..self.position },
                ..self
            }
        }
    }

    /// One cycle of the pipeline: the fetcher first, then the queue.
    pub open spec fn dot(self) -> GpuState {
        self.fetcher_step().fifo_step()
    }

    // ------------------------------------------------------------------
    // Scheduler
    // ------------------------------------------------------------------
    /// The unit at the start of a line's pixel transfer: the pixel cursor at
    /// 0, the pixels to discard taken from the horizontal scroll, nothing
    /// borrowed yet.
    pub open spec fn begin_transfer(self) -> GpuState {
        GpuState {
            position: LcdPosition { lx: 0, ..self.position },
            bg_fifo: BgFifoView { scx: self.position.scroll_x % 8, ..self.bg_fifo },
            borrowed_cycles: 0,
            clock: 0,
            ..self
        }.change_mode(GpuMode::PixelTransfer)
    }

    /// The unit at the end of a horizontal blank: on the next line, the
    /// coincidence checked, and in vertical blank, with its interrupt
    /// requested, once the last visible line is done.
    pub open spec fn end_hblank(self) -> GpuState {
        let next = GpuState {
            clock: 0,
            position: LcdPosition { ly: (self.position.ly + 1) as u8, ..self.position },
            ..self
        }.check_coincidence();
        if next.position.ly > 143 {
            next.change_mode(GpuMode::VBlank).request_vblank()
        } else {
            next.change_mode(GpuMode::OamSearch)
        }
    }

    /// The unit at the end of a line of the vertical blank. The counter
    /// never shows 153: it shows 0 instead, and the coincidence is checked
    /// against that 0. One line later, where it would show 1, it stays 0 and
    /// the search of line 0 begins.
    pub open spec fn end_vblank_line(self) -> GpuState {
        let ly = self.position.ly + 1;
        if ly == 153 {
            GpuState {
                clock: 0,
                position: LcdPosition { ly: 0, ..self.position },
                ..self
            }.check_coincidence()
        } else if ly == 1 {
            GpuState {
                clock: 0,
                position: LcdPosition { ly: 0, ..self.position },
                ..self
            }.change_mode(GpuMode::OamSearch)
        } else {
            GpuState {
                clock: 0,
                position: LcdPosition { ly: ly as u8, ..self.position },
                ..self
            }.check_coincidence()
        }
    }

    /// What is left of the budget `cycles` after a mode that ends when its
    /// clock reaches `length`, or nothing if the mode does not end.
    pub open spec fn left_after(self, cycles: nat, length: nat) -> nat {
        if self.clock + cycles >= length {
            (self.clock + cycles - length) as nat
        } else {
            0
        }
    }

    /// The unit after a block of the sprite search was given `cycles`.
    pub open spec fn search_tick(self, cycles: nat) -> GpuState {
        if self.clock + cycles >= SEARCH_CYCLES {
            self.begin_transfer()
        } else {
            GpuState { clock: self.clock + cycles, ..self }
        }
    }

    /// How long this line's horizontal blank is: the nominal length less
    /// what the pixel transfer borrowed.
    pub open spec fn hblank_length(self) -> nat {
        (HBLANK_CYCLES - self.borrowed_cycles) as nat
    }

    /// The unit after a block of the horizontal blank was given `cycles`.
    pub open spec fn hblank_tick(self, cycles: nat) -> GpuState {
        if self.clock + cycles >= self.hblank_length() {
            self.end_hblank()
        } else {
            GpuState { clock: self.clock + cycles, ..self }
        }
    }

    /// The unit after a block of the vertical blank was given `cycles`.
    pub open spec fn vblank_tick(self, cycles: nat) -> GpuState {
        if self.clock + cycles >= VBLANK_LINE_CYCLES {
            self.end_vblank_line()
        } else {
            GpuState { clock: self.clock + cycles, ..self }
        }
    }

    /// The unit after one cycle of pixel transfer: one cycle of the
    /// pipeline, and horizontal blank as soon as the line is full.
    pub open spec fn transfer_step(self) -> GpuState {
        let next = self.dot();
        if next.position.lx >= SCREEN_WIDTH {
            next.change_mode(GpuMode::HBlank)
        } else {
            next
        }
    }

    /// The unit one cycle later. With the display off nothing moves.
    pub open spec fn step(self) -> GpuState {
        if !self.lcdc.spec_display_enabled() {
            self
        } else {
            match self.stat.mode {
                GpuMode::OamSearch => self.search_tick(1),
                GpuMode::PixelTransfer => self.transfer_step(),
                GpuMode::HBlank => self.hblank_tick(1),
                GpuMode::VBlank => self.vblank_tick(1),
            }
        }
    }

    /// The unit `cycles` cycles later.
    #[verifier::opaque]
    pub open spec fn run(self, cycles: nat) -> GpuState
        decreases cycles,
    {
        if cycles == 0 {
            self
        } else {
            self.run((cycles - 1) as nat).step()
        }
    }

    /// The unit after `cycles` cycles of pixel transfer.
    #[verifier::opaque]
    pub open spec fn transfer_run(self, cycles: nat) -> GpuState
        decreases cycles,
    {
        if cycles == 0 {
            self
        } else {
            self.transfer_run((cycles - 1) as nat).transfer_step()
        }
    }

    // ------------------------------------------------------------------
    // Length of a pixel transfer
    // ------------------------------------------------------------------
    /// Cycles that pass before the queue gives out its next pixel: none once
    /// the pipeline is running, else what is left of the fetches that fill
    /// the queue for the first time.
    pub open spec fn transfer_lag(self) -> nat {
        let len = self.bg_fifo.q.len();
        if len == 0 {
            (15 - self.fetcher.state.phase()) as nat
        } else if len == 8 {
            (7 - self.fetcher.state.phase()) as nat
        } else {
            0
        }
    }

    /// Cycles of pixel transfer left on this line: the lag, one cycle for
    /// each pixel to discard, and one for each pixel still to show.
    pub open spec fn transfer_left(self) -> nat {
        (self.transfer_lag() + self.bg_fifo.scx + (SCREEN_WIDTH - self.position.lx)) as nat
    }

    // ------------------------------------------------------------------
    // Lines and frames
    // ------------------------------------------------------------------
    /// The display is on and the search of a visible line is about to begin.
    pub open spec fn at_line_start(self) -> bool {
        &&& self.wf()
        &&& self.lcdc.spec_display_enabled()
        &&& self.stat.mode == GpuMode::OamSearch
        &&& self.clock == 0
    }

    /// The display is on and a line of the vertical blank is about to begin.
    pub open spec fn at_vblank_line_start(self) -> bool {
        &&& self.wf()
        &&& self.lcdc.spec_display_enabled()
        &&& self.stat.mode == GpuMode::VBlank
        &&& self.clock == 0
    }

    /// How long the pixel transfer of the line that is about to begin will
    /// be: the lag of the pipeline, one cycle for each pixel that the
    /// horizontal scroll makes it discard, and one for each of the 160
    /// pixels of the line.
    pub open spec fn line_transfer_length(self) -> nat {
        self.transfer_lag() + (self.position.scroll_x % 8) as nat + SCREEN_WIDTH as nat
    }

    /// How long the horizontal blank of the line that is about to begin will
    /// be.
    pub open spec fn line_hblank_length(self) -> nat {
        (HBLANK_CYCLES - self.position.scroll_x % 8) as nat
    }

    /// How long the line that is about to begin will be: search, pixel
    /// transfer and horizontal blank.
    pub open spec fn line_length(self) -> nat {
        SEARCH_CYCLES as nat + self.line_transfer_length() + self.line_hblank_length()
    }

    /// Lines of vertical blank still to come, the current one included. The
    /// last one is the one on which the counter shows 0.
    pub open spec fn vblank_lines_left(self) -> nat {
        if self.position.ly == 0 {
            1
        } else {
            (154 - self.position.ly) as nat
        }
    }
}

} // verus!
