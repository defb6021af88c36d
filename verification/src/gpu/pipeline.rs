//! The pixel pipeline: the fetcher that reads tile rows, and the queue that
//! puts their pixels on the screen.

use crate::gpu::state::{
    pixel_bits, tile_data_addr, tile_row, GpuState, SCREEN_DEPTH, SCREEN_HEIGHT, SCREEN_WIDTH,
};
use crate::gpu::{BgFifo, BgFifoView, FetchType, FetcherState, Gpu};
use std::collections::VecDeque;
use vstd::prelude::*;

verus! {

impl BgFifo {
    /// An empty queue with nothing to discard.
    pub fn new() -> (fifo: BgFifo)
        ensures
            fifo@ == (BgFifoView { q: Seq::empty(), x: 0, scx: 0 }),
    {
        BgFifo { q: VecDeque::with_capacity(16), x: 0, scx: 0 }
    }

    /// Empties the queue.
    pub fn clear_fifo(&mut self)
        ensures
            final(self)@ == (BgFifoView { q: Seq::empty(), ..old(self)@ }),
    {
        self.q.clear();
    }

    /// The number of pixels in the queue.
    pub fn size(&mut self) -> (n: usize)
        ensures
            n == old(self)@.q.len(),
            final(self)@ == old(self)@,
    {
        self.q.len()
    }

    /// Whether the queue has room for a tile row: it holds eight pixels or
    /// fewer.
    pub fn allow_push(&self) -> (room: bool)
        ensures
            room == (self@.q.len() <= 8),
    {
        self.q.len() <= 8
    }

    /// Appends the eight pixels of a tile row, leftmost first.
    pub fn push(&mut self, low: u8, high: u8)
        ensures
            final(self)@ == (BgFifoView { q: old(self)@.q + tile_row(low, high), ..old(self)@ }),
    {
        let mut k: u8 = 0;
        while k < 8
            invariant
                k <= 8,
                self.x == old(self).x,
                self.scx == old(self).scx,
                self.q@ == old(self).q@ + tile_row(low, high).subrange(0, k as int),
            decreases 8 - k,
        {
            let bit: u8 = 7 - k;
            let lo: u8 = (low >> bit) & 1;
            let hi: u8 = (high >> bit) & 1;
            assert(hi <= 1) by (bit_vector)
                requires
                    hi == (high >> bit) & 1,
            ;
            self.q.push_back(lo | (hi << 1));
            assert(tile_row(low, high)[k as int] == pixel_bits(low, high, bit));
            assert(self.q@ =~= old(self).q@ + tile_row(low, high).subrange(0, k + 1));
            k += 1;
        }
        assert(tile_row(low, high).subrange(0, 8) =~= tile_row(low, high));
    }

    /// Takes the oldest pixel out of the queue.
    pub fn pop(&mut self) -> (value: u8)
        requires
            old(self)@.q.len() > 0,
        ensures
            value == old(self)@.q[0],
            final(self)@ == (BgFifoView {
                q: old(self)@.q.subrange(1, old(self)@.q.len() as int),
                ..old(self)@
            }),
    {
        self.q.pop_front().unwrap()
    }
}

impl Gpu {
    /// The address of the first byte of tile `idx`, in the addressing mode
    /// `sel`.
    pub fn tiledata_addr(&self, sel: u8, idx: u8) -> (addr: u16)
        ensures
            addr == tile_data_addr(sel, idx),
    {
        if sel == 0 {
            if idx < 128 {
                0x9000u16 + idx as u16 * 16
            } else {
                0x8800u16 + (idx as u16 - 128) * 16
            }
        } else {
            0x8000u16 + idx as u16 * 16
        }
    }

    /// Whether the window is switched on with its origin on the screen.
    pub fn is_win_enabled(&self) -> (on: bool)
        ensures
            on == self@.win_enabled(),
    {
        self.lcdc.window_enabled() && (self.position.window_x < 167) && (self.position.window_y
            < 144)
    }

    /// Whether the next pixel lies at or behind the window's origin.
    #[inline]
    pub fn is_win_pixel(&self) -> (inside: bool)
        requires
            self@.position.lx <= SCREEN_WIDTH,
        ensures
            inside == self@.win_pixel(),
    {
        self.position.window_x <= self.position.lx + 7 && self.position.window_y
            <= self.position.ly
    }

    /// Sets the pixel at column `x` of the current line to an opaque colour.
    pub fn update_screen_row(&mut self, x: usize, r: u8, g: u8, b: u8)
        requires
            old(self)@.memories_sized(),
            old(self)@.position.ly < SCREEN_HEIGHT,
            x < SCREEN_WIDTH,
        ensures
            final(self)@ == (GpuState {
                lcd: old(self)@.lcd_with_pixel(x as int, r, g, b),
                ..old(self)@
            }),
    {
        let ly: usize = self.position.ly as usize;
        let at: usize = ly * SCREEN_WIDTH * SCREEN_DEPTH + x * SCREEN_DEPTH;
        self.lcd.set(at, r);
        self.lcd.set(at + 1, g);
        self.lcd.set(at + 2, b);
        self.lcd.set(at + 3, 255);
    }

    /// One step of the queue: see [`GpuState::fifo_step`].
    pub fn bg_fifo_tick(&mut self)
        requires
            old(self)@.memories_sized(),
            old(self)@.position.ly < SCREEN_HEIGHT,
            old(self)@.position.lx < SCREEN_WIDTH,
            old(self)@.borrowed_cycles <= 7,
        ensures
            final(self)@ == old(self)@.fifo_step(),
    {
        if self.bg_fifo.size() <= 8 {
            return ;
        }
        if self.bg_fifo.scx > 0 {
            self.bg_fifo.pop();
            self.bg_fifo.scx -= 1;
            self.borrowed_cycles += 1;
            return ;
        }
        let value: u8 = self.bg_fifo.pop();
        let rgb: (u8, u8, u8) = self.get_rgb(value, self.dmgp.bgp);
        self.update_screen_row(self.position.lx as usize, rgb.0, rgb.1, rgb.2);
        self.position.lx += 1;
    }

    /// Where the number of the tile to fetch stands in the tilemap.
    fn tile_number_addr(&self) -> (addr: u16)
        requires
            self@.fetcher.x < 32,
        ensures
            addr == self@.tile_number_addr(),
            0x9800 <= addr <= 0x9FFF,
    {
        let base: u16 = self.lcdc.bg_tilemap();
        let row: u8 = self.position.ly.wrapping_add(self.position.scroll_y) / 8;
        let col: u8 = (self.position.scroll_x / 8 + self.fetcher.x) % 32;
        base + row as u16 * 32 + col as u16
    }

    /// Where the low plane of the fetched tile's row stands.
    fn tile_line_addr(&self) -> (addr: u16)
        ensures
            addr == self@.tile_line_addr(),
            0x8000 <= addr <= 0x97FE,
    {
        let row: u8 = self.position.ly.wrapping_add(self.position.scroll_y) % 8;
        let tile_addr: u16 = self.tiledata_addr(self.lcdc.bg_tiledata_sel, self.fetcher.tile_num);
        tile_addr + row as u16 * 2
    }

    /// One step of the fetcher: see [`GpuState::fetcher_step`].
    pub fn fetcher_tick(&mut self)
        requires
            old(self)@.addressable(),
            old(self)@.fetcher.x < 32,
        ensures
            final(self)@ == old(self)@.fetcher_step(),
    {
        match self.fetcher.state {
            FetcherState::Sleep(n) => {
                if n == 0 {
                    self.fetcher.state = FetcherState::ReadTileNumber;
                } else if n == 1 {
                    self.fetcher.state = FetcherState::ReadTileDataLow;
                } else if n == 2 {
                    self.fetcher.state = FetcherState::ReadTileDataHigh;
                }
                assert(self@ =~= old(self)@.fetcher_step());
            },
            FetcherState::ReadTileNumber => {
                match self.fetcher.fetching {
                    FetchType::Background => {
                        let addr: u16 = self.tile_number_addr();
                        self.fetcher.tile_num = self.get_byte(addr);
                    },
                    FetchType::Window => {},
                }
                self.fetcher.state = FetcherState::Sleep(1);
                assert(self@ =~= old(self)@.fetcher_step());
            },
            FetcherState::ReadTileDataLow => {
                let addr: u16 = self.tile_line_addr();
                self.fetcher.low = self.get_byte(addr);
                self.fetcher.state = FetcherState::Sleep(2);
                assert(self@ =~= old(self)@.fetcher_step());
            },
            FetcherState::ReadTileDataHigh => {
                let addr: u16 = self.tile_line_addr();
                self.fetcher.high = self.get_byte(addr + 1);
                self.fetcher.state = FetcherState::Push(0);
                assert(self@ =~= old(self)@.fetcher_step());
            },
            FetcherState::Push(n) => {
                if n == 0 {
                    self.fetcher.x = (self.fetcher.x + 1) % 32;
                    self.fetcher.state = FetcherState::Push(1);
                } else if n == 1 {
                    if self.bg_fifo.allow_push() {
                        self.bg_fifo.push(self.fetcher.low, self.fetcher.high);
                        self.fetcher.state = FetcherState::Sleep(0);
                    }
                }
                assert(self@ =~= old(self)@.fetcher_step());
            },
        }
    }
}

} // verus!
