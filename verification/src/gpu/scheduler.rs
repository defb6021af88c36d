//! The scanline scheduler: the four modes, their lengths, and the
//! interrupts that their edges raise.

use crate::gpu::state::{GpuState, HBLANK_CYCLES, SCREEN_WIDTH, SEARCH_CYCLES, VBLANK_LINE_CYCLES};
use crate::gpu::{Gpu, GpuMode};
use vstd::prelude::*;

verus! {

impl Gpu {
    /// Asks for a status interrupt.
    #[inline]
    pub fn request_lcd_interrupt(&mut self)
        ensures
            final(self)@ == old(self)@.request_lcd(),
    {
        self.request_lcd_int = true;
    }

    /// Asks for the vertical-blank interrupt.
    #[inline]
    pub fn request_vblank_interrupt(&mut self)
        ensures
            final(self)@ == old(self)@.request_vblank(),
    {
        self.request_vblank_int = true;
    }

    /// Enters `mode`, and asks for a status interrupt if the status register
    /// enables one for it.
    pub fn change_mode(&mut self, mode: GpuMode)
        ensures
            final(self)@ == old(self)@.change_mode(mode),
    {
        self.stat.mode = mode;
        let raise: bool = match mode {
            GpuMode::OamSearch => self.stat.oam_int != 0,
            GpuMode::HBlank => self.stat.hblank_int != 0,
            GpuMode::VBlank => self.stat.vblank_int != 0,
            GpuMode::PixelTransfer => false,
        };
        if raise {
            self.request_lcd_interrupt();
        }
    }

    /// Compares the line with its target and records the outcome.
    pub fn check_coincidence(&mut self)
        ensures
            final(self)@ == old(self)@.check_coincidence(),
    {
        if self.position.ly == self.position.lyc {
            self.stat.coincident = 0x04;
            if self.stat.lyc_int != 0 {
                self.request_lcd_interrupt();
            }
        } else {
            self.stat.coincident = 0;
        }
    }

    /// A block of sprite search. The search ends when its clock reaches 80;
    /// pixel transfer begins there, and what is left of the budget comes
    /// back.
    pub fn oam_search_tick(&mut self, cycles: usize) -> (left: usize)
        requires
            old(self)@.wf(),
            old(self)@.stat.mode == GpuMode::OamSearch,
        ensures
            final(self)@ == old(self)@.search_tick(cycles as nat),
            left == old(self)@.left_after(cycles as nat, SEARCH_CYCLES as nat),
            final(self)@.wf(),
            left <= cycles,
            cycles > 0 ==> left < cycles,
            old(self)@.lcdc.spec_display_enabled() ==> final(self)@ == old(self)@.run(
                (cycles - left) as nat,
            ),
    {
        proof {
            if old(self)@.lcdc.spec_display_enabled() {
                if old(self)@.clock + cycles >= SEARCH_CYCLES {
                    old(self)@.lemma_search_run((SEARCH_CYCLES - old(self)@.clock) as nat);
                } else {
                    old(self)@.lemma_search_run(cycles as nat);
                }
            }
        }
        if cycles >= SEARCH_CYCLES - self.clock {
            let cycles_left: usize = cycles - (SEARCH_CYCLES - self.clock);
            self.clock = 0;
            self.position.lx = 0;
            self.bg_fifo.scx = self.position.scroll_x % 8;
            self.borrowed_cycles = 0;
            self.change_mode(GpuMode::PixelTransfer);
            assert(self@ =~= old(self)@.search_tick(cycles as nat));
            cycles_left
        } else {
            self.clock += cycles;
            assert(self@ =~= old(self)@.search_tick(cycles as nat));
            0
        }
    }

    /// A block of pixel transfer: one cycle of the pipeline for each cycle
    /// of the budget, until the line is full. Horizontal blank begins there,
    /// and what is left of the budget comes back.
    pub fn pixel_transfer_tick(&mut self, cycles: usize) -> (left: usize)
        requires
            old(self)@.wf(),
            old(self)@.stat.mode == GpuMode::PixelTransfer,
        ensures
            final(self)@ == old(self)@.transfer_run((cycles - left) as nat),
            cycles - left == if cycles <= old(self)@.transfer_left() {
                cycles as nat
            } else {
                old(self)@.transfer_left()
            },
            final(self)@.stat.mode == if cycles >= old(self)@.transfer_left() {
                GpuMode::HBlank
            } else {
                GpuMode::PixelTransfer
            },
            final(self)@.wf(),
            left <= cycles,
            cycles > 0 ==> left < cycles,
            old(self)@.lcdc.spec_display_enabled() ==> final(self)@ == old(self)@.run(
                (cycles - left) as nat,
            ),
    {
        let mut left: usize = cycles;
        proof {
            old(self)@.lemma_transfer_run(0);
            assert(old(self)@.transfer_run(0) == old(self)@) by {
                reveal(GpuState::transfer_run);
            }
        }
        while left > 0 && (self.position.lx as usize) < SCREEN_WIDTH
            invariant
                left <= cycles,
                cycles - left <= old(self)@.transfer_left(),
                old(self)@.wf(),
                old(self)@.stat.mode == GpuMode::PixelTransfer,
                self@ == old(self)@.transfer_run((cycles - left) as nat),
                self@.wf(),
                cycles - left < old(self)@.transfer_left() ==> self@.stat.mode
                    == GpuMode::PixelTransfer,
                cycles - left == old(self)@.transfer_left() ==> self@.position.lx == SCREEN_WIDTH
                    && self@.stat.mode == GpuMode::HBlank,
            decreases left,
        {
            proof {
                old(self)@.lemma_transfer_run((cycles - left + 1) as nat);
                self@.lemma_transfer_step();
            }
            let ghost before = self@;
            self.fetcher_tick();
            self.bg_fifo_tick();
            left -= 1;
            if (self.position.lx as usize) >= SCREEN_WIDTH {
                self.change_mode(GpuMode::HBlank);
            }
            assert(self@ == old(self)@.transfer_run((cycles - left) as nat)) by {
                reveal(GpuState::transfer_run);
            }
        }
        proof {
            old(self)@.lemma_transfer_run((cycles - left) as nat);
        }
        left
    }

    /// A block of horizontal blank. The blank ends when its clock reaches
    /// 204 less the cycles that this line's pixel transfer borrowed. The
    /// line counter moves on there and is compared with its target; after
    /// line 143 vertical blank begins and its interrupt is requested, else
    /// the next line's search begins. What is left of the budget comes back.
    pub fn hblank_tick(&mut self, cycles: usize) -> (left: usize)
        requires
            old(self)@.wf(),
            old(self)@.stat.mode == GpuMode::HBlank,
        ensures
            final(self)@ == old(self)@.hblank_tick(cycles as nat),
            left == old(self)@.left_after(cycles as nat, old(self)@.hblank_length()),
            final(self)@.wf(),
            left <= cycles,
            cycles > 0 ==> left < cycles,
            old(self)@.lcdc.spec_display_enabled() ==> final(self)@ == old(self)@.run(
                (cycles - left) as nat,
            ),
    {
        proof {
            if old(self)@.lcdc.spec_display_enabled() {
                if old(self)@.clock + cycles >= old(self)@.hblank_length() {
                    old(self)@.lemma_hblank_run(
                        (old(self)@.hblank_length() - old(self)@.clock) as nat,
                    );
                } else {
                    old(self)@.lemma_hblank_run(cycles as nat);
                }
            }
        }
        let length: usize = HBLANK_CYCLES - self.borrowed_cycles;
        if cycles >= length - self.clock {
            let cycles_left: usize = cycles - (length - self.clock);
            self.clock = 0;
            self.position.ly += 1;
            self.check_coincidence();
            if self.position.ly > 143 {
                self.change_mode(GpuMode::VBlank);
                self.request_vblank_interrupt();
            } else {
                self.change_mode(GpuMode::OamSearch);
            }
            assert(self@ =~= old(self)@.hblank_tick(cycles as nat));
            cycles_left
        } else {
            self.clock += cycles;
            assert(self@ =~= old(self)@.hblank_tick(cycles as nat));
            0
        }
    }

    /// A block of vertical blank. Each of its lines ends when the clock
    /// reaches 456. The line counter moves on there, but shows 0 in place of
    /// 153 and is compared with its target as 0; one line later the search
    /// of line 0 begins. What is left of the budget comes back.
    pub fn vblank_tick(&mut self, cycles: usize) -> (left: usize)
        requires
            old(self)@.wf(),
            old(self)@.stat.mode == GpuMode::VBlank,
        ensures
            final(self)@ == old(self)@.vblank_tick(cycles as nat),
            left == old(self)@.left_after(cycles as nat, VBLANK_LINE_CYCLES as nat),
            final(self)@.wf(),
            left <= cycles,
            cycles > 0 ==> left < cycles,
            old(self)@.lcdc.spec_display_enabled() ==> final(self)@ == old(self)@.run(
                (cycles - left) as nat,
            ),
    {
        proof {
            if old(self)@.lcdc.spec_display_enabled() {
                if old(self)@.clock + cycles >= VBLANK_LINE_CYCLES {
                    old(self)@.lemma_vblank_run((VBLANK_LINE_CYCLES - old(self)@.clock) as nat);
                } else {
                    old(self)@.lemma_vblank_run(cycles as nat);
                }
            }
        }
        if cycles >= VBLANK_LINE_CYCLES - self.clock {
            let cycles_left: usize = cycles - (VBLANK_LINE_CYCLES - self.clock);
            self.clock = 0;
            self.position.ly += 1;
            if self.position.ly == 153 {
                self.position.ly = 0;
                self.check_coincidence();
            } else if self.position.ly == 1 {
                self.position.ly = 0;
                self.change_mode(GpuMode::OamSearch);
            } else {
                self.check_coincidence();
            }
            assert(self@ =~= old(self)@.vblank_tick(cycles as nat));
            cycles_left
        } else {
            self.clock += cycles;
            assert(self@ =~= old(self)@.vblank_tick(cycles as nat));
            0
        }
    }

    /// Advances the unit by `cycles` cycles. The budget goes to the handler
    /// of the current mode, and what that leaves to the handler of the next,
    /// until nothing is left. With the display off nothing moves.
    pub fn tick(&mut self, cycles: usize)
        requires
            old(self)@.wf(),
        ensures
            final(self)@ == old(self)@.run(cycles as nat),
            final(self)@.wf(),
            !old(self)@.lcdc.spec_display_enabled() ==> final(self)@ == old(self)@,
            old(self)@.lcdc.spec_display_enabled() ==> match old(self)@.stat.mode {
                GpuMode::OamSearch => old(self)@.clock + cycles <= SEARCH_CYCLES ==> final(self)@
                    == old(self)@.search_tick(cycles as nat),
                GpuMode::PixelTransfer => cycles <= old(self)@.transfer_left() ==> final(self)@
                    == old(self)@.transfer_run(cycles as nat),
                GpuMode::HBlank => old(self)@.clock + cycles <= old(self)@.hblank_length()
                    ==> final(self)@ == old(self)@.hblank_tick(cycles as nat),
                GpuMode::VBlank => old(self)@.clock + cycles <= VBLANK_LINE_CYCLES ==> final(self)@
                    == old(self)@.vblank_tick(cycles as nat),
            },
    {
        if self.lcdc.display_enable == 0 {
            proof {
                old(self)@.lemma_run_display_off(cycles as nat);
            }
            return ;
        }
        proof {
            let start = old(self)@;
            match start.stat.mode {
                GpuMode::OamSearch => {
                    if start.clock + cycles <= SEARCH_CYCLES {
                        start.lemma_search_run(cycles as nat);
                    }
                },
                GpuMode::PixelTransfer => {
                    if cycles <= start.transfer_left() {
                        start.lemma_transfer_run(cycles as nat);
                    }
                },
                GpuMode::HBlank => {
                    if start.clock + cycles <= start.hblank_length() {
                        start.lemma_hblank_run(cycles as nat);
                    }
                },
                GpuMode::VBlank => {
                    if start.clock + cycles <= VBLANK_LINE_CYCLES {
                        start.lemma_vblank_run(cycles as nat);
                    }
                },
            }
        }
        let mut cycles_left: usize = cycles;
        assert(old(self)@.run(0) == old(self)@) by {
            reveal(GpuState::run);
        }
        while cycles_left > 0
            invariant
                cycles_left <= cycles,
                self@.wf(),
                self@.lcdc.spec_display_enabled(),
                self@ == old(self)@.run((cycles - cycles_left) as nat),
            decreases cycles_left,
        {
            let ghost before = self@;
            let ghost given = cycles_left;
            match self.stat.mode {
                GpuMode::OamSearch => {
                    cycles_left = self.oam_search_tick(cycles_left);
                },
                GpuMode::PixelTransfer => {
                    cycles_left = self.pixel_transfer_tick(cycles_left);
                },
                GpuMode::HBlank => {
                    cycles_left = self.hblank_tick(cycles_left);
                },
                GpuMode::VBlank => {
                    cycles_left = self.vblank_tick(cycles_left);
                },
            }
            proof {
                old(self)@.lemma_run_split((cycles - given) as nat, (given - cycles_left) as nat);
                before.lemma_run_keeps_display((given - cycles_left) as nat);
            }
        }
    }
}

} // verus!
