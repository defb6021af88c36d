//! The picture processing unit.
//!
//! [`Gpu`] is the machine; [`state::GpuState`] is its mathematical model, on
//! which every contract of this module is stated. The model advances one
//! cycle at a time ([`state::GpuState::step`]); the machine takes a budget of
//! cycles and handles it in blocks.

pub mod bus;
pub mod color;
pub mod laws;
pub mod pipeline;
pub mod registers;
pub mod scheduler;
pub mod state;

use crate::cpu::EmulationMode;
use crate::gpu::registers::{ColorPalette, LcdControl, LcdPosition, LcdStatus, MonochromePalette};
use crate::gpu::state::{
    GpuState, HBLANK_CYCLES, LCD_SIZE, OAM_SIZE, PALETTE_RAM_SIZE, SCREEN_HEIGHT, SCREEN_WIDTH,
    SEARCH_CYCLES, VBLANK_LINE_CYCLES, VRAM_BANK_SIZE,
};
use std::collections::VecDeque;
use vstd::prelude::*;

verus! {

/// The four phases of the scanline scheduler.
#[derive(Clone, Copy, Debug, PartialEq, Eq, Structural)]
pub enum GpuMode {
    /// Sprite-table search at the start of a visible line.
    OamSearch,
    /// Pixels are being pushed to the screen.
    PixelTransfer,
    /// Horizontal blank at the end of a visible line.
    HBlank,
    /// Vertical blank after the last visible line.
    VBlank,
}

impl GpuMode {
    /// The two-bit value that the status register reports for this mode.
    pub open spec fn spec_bits(self) -> u8 {
        match self {
            GpuMode::HBlank => 0,
            GpuMode::VBlank => 1,
            GpuMode::OamSearch => 2,
            GpuMode::PixelTransfer => 3,
        }
    }
}

impl From<&GpuMode> for u8 {
    fn from(mode: &GpuMode) -> (bits: u8) {
        match mode {
            GpuMode::HBlank => 0,
            GpuMode::VBlank => 1,
            GpuMode::OamSearch => 2,
            GpuMode::PixelTransfer => 3,
        }
    }
}

impl vstd::std_specs::convert::FromSpecImpl<&GpuMode> for u8 {
    open spec fn obeys_from_spec() -> bool {
        true
    }

    open spec fn from_spec(mode: &GpuMode) -> u8 {
        mode.spec_bits()
    }
}

/// Where the tile fetcher stands. A fetch of one tile row goes through eight
/// steps, one per cycle: three reads, each after one idle cycle, then two
/// steps that hand the row to the pixel queue.
#[derive(Clone, Copy, Debug, PartialEq, Eq, Structural)]
pub enum FetcherState {
    /// The idle cycle before the read numbered by the field (0, 1 or 2).
    Sleep(usize),
    ReadTileNumber,
    ReadTileDataLow,
    ReadTileDataHigh,
    /// Step 0 moves to the next tile column; step 1 commits the row once the
    /// queue has room.
    Push(usize),
}

impl FetcherState {
    /// The counters are within the steps that exist.
    pub open spec fn valid(self) -> bool {
        match self {
            FetcherState::Sleep(n) => n <= 2,
            FetcherState::Push(n) => n <= 1,
            _ => true,
        }
    }

    /// How many steps of the current fetch are done (0 to 7).
    pub open spec fn phase(self) -> int {
        match self {
            FetcherState::Sleep(n) => if n == 0 {
                0
            } else if n == 1 {
                2
            } else {
                4
            },
            FetcherState::ReadTileNumber => 1,
            FetcherState::ReadTileDataLow => 3,
            FetcherState::ReadTileDataHigh => 5,
            FetcherState::Push(n) => if n == 0 {
                6
            } else {
                7
            },
        }
    }
}

/// Which layer the fetcher reads. Only the background is fetched.
#[derive(Clone, Copy, Debug, PartialEq, Eq, Structural)]
pub enum FetchType {
    Background,
    Window,
}

/// The producer of the pixel pipeline.
#[derive(Clone, Copy, Debug)]
pub struct Fetcher {
    pub state: FetcherState,
    pub fetching: FetchType,
    /// The tile column being fetched, counted from the scroll origin.
    pub x: u8,
    pub tile_num: u8,
    /// The low bitplane of the row read last.
    pub low: u8,
    /// The high bitplane of the row read last.
    pub high: u8,
}

impl Fetcher {
    /// The fetcher at power-on.
    pub open spec fn spec_new() -> Fetcher {
        Fetcher {
            state: FetcherState::Sleep(0),
            fetching: FetchType::Background,
            x: 0,
            tile_num: 0,
            low: 0xFF,
            high: 0xFF,
        }
    }

    pub fn new() -> (fetcher: Fetcher)
        ensures
            fetcher == Fetcher::spec_new(),
    {
        Fetcher {
            state: FetcherState::Sleep(0),
            fetching: FetchType::Background,
            x: 0,
            tile_num: 0,
            low: 0xFF,
            high: 0xFF,
        }
    }
}

/// The consumer of the pixel pipeline: a queue of two-bit colour indices,
/// and the number of pixels still to be thrown away on this line.
pub struct BgFifo {
    pub q: VecDeque<u8>,
    pub x: u8,
    /// Pixels to discard before the first one is shown.
    pub scx: u8,
}

/// What a [`BgFifo`] holds.
#[verifier::ext_equal]
pub struct BgFifoView {
    /// The queue, oldest pixel first.
    pub q: Seq<u8>,
    pub x: u8,
    pub scx: u8,
}

impl View for BgFifo {
    type V = BgFifoView;

    open spec fn view(&self) -> BgFifoView {
        BgFifoView { q: self.q@, x: self.x, scx: self.scx }
    }
}

/// The picture processing unit: memories, registers, pipeline and clock.
pub struct Gpu {
    /// The framebuffer: 160 by 144 pixels, four bytes each, row by row.
    pub lcd: Vec<u8>,
    pub vram0: Vec<u8>,
    pub vram1: Vec<u8>,
    pub bgp_ram: Vec<u8>,
    pub obp_ram: Vec<u8>,
    pub cgbp: ColorPalette,
    pub emu_mode: EmulationMode,
    pub oam: Vec<u8>,
    pub lcdc: LcdControl,
    pub dmgp: MonochromePalette,
    pub position: LcdPosition,
    pub stat: LcdStatus,
    /// Cycles spent in the current mode; stays 0 during pixel transfer.
    pub clock: usize,
    /// Set on entering vertical blank. Only the interrupt controller clears it.
    pub request_vblank_int: bool,
    /// Set when a status condition is met. Only the interrupt controller
    /// clears it.
    pub request_lcd_int: bool,
    pub vram_bank: usize,
    pub win_counter: usize,
    /// Whether a transfer into the sprite table is running. Set from outside.
    pub oam_dma_active: bool,
    pub bg_fifo: BgFifo,
    pub fetcher: Fetcher,
    /// Cycles that this line's pixel transfer spent on discarded pixels.
    pub borrowed_cycles: usize,
}

impl View for Gpu {
    type V = GpuState;

    open spec fn view(&self) -> GpuState {
        GpuState {
            lcd: self.lcd@,
            vram0: self.vram0@,
            vram1: self.vram1@,
            bgp_ram: self.bgp_ram@,
            obp_ram: self.obp_ram@,
            oam: self.oam@,
            cgbp: self.cgbp,
            emu_mode: self.emu_mode,
            lcdc: self.lcdc,
            dmgp: self.dmgp,
            position: self.position,
            stat: self.stat,
            clock: self.clock as nat,
            request_vblank_int: self.request_vblank_int,
            request_lcd_int: self.request_lcd_int,
            vram_bank: self.vram_bank as nat,
            win_counter: self.win_counter as nat,
            oam_dma_active: self.oam_dma_active,
            bg_fifo: self.bg_fifo@,
            fetcher: self.fetcher,
            borrowed_cycles: self.borrowed_cycles as nat,
        }
    }
}

impl Gpu {
    /// The unit at power-on.
    pub fn new(emu_mode: EmulationMode) -> (gpu: Gpu)
        ensures
            gpu@ == GpuState::power_on(emu_mode),
            gpu@.wf(),
    {
        let gpu = Gpu {
            lcd: vec![0; LCD_SIZE],
            vram0: vec![0; VRAM_BANK_SIZE],
            vram1: vec![0; VRAM_BANK_SIZE],
            bgp_ram: vec![0; PALETTE_RAM_SIZE],
            obp_ram: vec![0; PALETTE_RAM_SIZE],
            oam: vec![0; OAM_SIZE],
            cgbp: ColorPalette::default(),
            emu_mode,
            lcdc: LcdControl::default(),
            dmgp: MonochromePalette::default(),
            position: LcdPosition::default(),
            stat: LcdStatus::default(),
            clock: 0,
            request_vblank_int: false,
            request_lcd_int: false,
            vram_bank: 0,
            win_counter: 0,
            oam_dma_active: false,
            bg_fifo: BgFifo::new(),
            fetcher: Fetcher::new(),
            borrowed_cycles: 0,
        };
        assert(gpu@ =~= GpuState::power_on(emu_mode));
        gpu
    }

    /// Whether the unit is in a state that it can have reached from
    /// power-on by cycles and bus accesses. Every field is public; this is
    /// the test for a unit that was put together from outside.
    pub fn is_well_formed(&self) -> (ok: bool)
        ensures
            ok == self@.wf(),
    {
        let memories: bool = self.lcd.len() == LCD_SIZE && self.vram0.len() == VRAM_BANK_SIZE
            && self.vram1.len() == VRAM_BANK_SIZE && self.bgp_ram.len() == PALETTE_RAM_SIZE
            && self.obp_ram.len() == PALETTE_RAM_SIZE && self.oam.len() == OAM_SIZE;
        let indices: bool = (self.cgbp.bgp_idx as usize) < PALETTE_RAM_SIZE && (
        self.cgbp.obp_idx as usize) < PALETTE_RAM_SIZE && self.vram_bank <= 1;
        let phase: usize = match self.fetcher.state {
            FetcherState::Sleep(n) => if n == 0 {
                0
            } else if n == 1 {
                2
            } else {
                4
            },
            FetcherState::ReadTileNumber => 1,
            FetcherState::ReadTileDataLow => 3,
            FetcherState::ReadTileDataHigh => 5,
            FetcherState::Push(n) => if n == 0 {
                6
            } else {
                7
            },
        };
        let valid: bool = match self.fetcher.state {
            FetcherState::Sleep(n) => n <= 2,
            FetcherState::Push(n) => n <= 1,
            _ => true,
        };
        let len: usize = self.bg_fifo.q.len();
        let pipeline: bool = valid && self.fetcher.x < 32 && self.borrowed_cycles <= 7
            && self.bg_fifo.scx as usize + self.borrowed_cycles <= 7 && (len == 0 || len == 8 || (8
            < len && len <= 15 && len + phase == 15));
        let ly: usize = self.position.ly as usize;
        let mode: bool = (self.position.lx as usize) <= SCREEN_WIDTH && (self.stat.coincident
            == 0 || self.stat.coincident == 0x04) && match self.stat.mode {
            GpuMode::OamSearch => ly < SCREEN_HEIGHT && self.clock < SEARCH_CYCLES,
            GpuMode::PixelTransfer => ly < SCREEN_HEIGHT && self.clock == 0 && (
            self.position.lx as usize) < SCREEN_WIDTH,
            GpuMode::HBlank => ly < SCREEN_HEIGHT && self.borrowed_cycles <= 7 && self.clock
                < HBLANK_CYCLES - self.borrowed_cycles,
            GpuMode::VBlank => (ly == 0 || (SCREEN_HEIGHT <= ly && ly <= 152)) && self.clock
                < VBLANK_LINE_CYCLES,
        };
        memories && indices && pipeline && mode
    }

    /// The current mode.
    pub fn mode(&self) -> (mode: &GpuMode)
        ensures
            *mode == self@.stat.mode,
    {
        &self.stat.mode
    }

    /// The framebuffer: 160 by 144 pixels of red, green, blue and alpha, row
    /// by row. It is complete at each entry into vertical blank.
    pub fn screen(&self) -> (lcd: &Vec<u8>)
        ensures
            lcd@ == self@.lcd,
    {
        &self.lcd
    }
}

} // verus!
