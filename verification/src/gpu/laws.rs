//! What holds of the model: the invariant, the budget, the lengths of the
//! modes, the line counter and the lockouts of the bus.

use crate::gpu::state::{
    GpuState, HBLANK_CYCLES, LCD_SIZE, SCREEN_WIDTH, SEARCH_CYCLES, VBLANK_LINE_CYCLES,
};
use crate::gpu::color::{lemma_shade_index, monochrome_rgb, shade_index, shade_rgb};
use crate::gpu::GpuMode;
use vstd::prelude::*;

verus! {

impl GpuState {
    // ------------------------------------------------------------------
    // The invariant
    // ------------------------------------------------------------------
    /// The unit at power-on is valid.
    pub proof fn lemma_power_on_wf(emu_mode: crate::cpu::EmulationMode)
        ensures
            GpuState::power_on(emu_mode).wf(),
    {
    }

    /// A bus write keeps the memories and their index registers as a bus
    /// access needs them.
    pub proof fn lemma_write_addressable(self, addr: u16, value: u8)
        requires
            self.addressable(),
        ensures
            self.write(addr, value).addressable(),
    {
        assert(value & 0x3F < 0x40) by (bit_vector);
        assert(value & 0x01 <= 1) by (bit_vector);
    }

    /// A bus write keeps the invariant.
    pub proof fn lemma_write_wf(self, addr: u16, value: u8)
        requires
            self.wf(),
        ensures
            self.write(addr, value).wf(),
    {
        assert(value & 0x3F < 0x40) by (bit_vector);
        assert(value & 0x01 <= 1) by (bit_vector);
    }

    /// One cycle of pixel transfer takes one cycle off what is left of the
    /// transfer, and the transfer ends with the cycle that takes the last
    /// one. The pixels discarded so far and those still to discard add up to
    /// the same number throughout, and none is left to discard at the end.
    /// Nothing but the pipeline, the screen and the pixel cursor moves.
    pub proof fn lemma_transfer_step(self)
        requires
            self.wf(),
            self.stat.mode == GpuMode::PixelTransfer,
        ensures
            self.transfer_step().wf(),
            self.transfer_left() >= 1,
            self.transfer_left() == 1 ==> self.transfer_step().stat.mode == GpuMode::HBlank
                && self.transfer_step().position.lx == SCREEN_WIDTH
                && self.transfer_step().bg_fifo.scx == 0 && self.transfer_step().transfer_lag()
                == 0,
            self.transfer_left() > 1 ==> self.transfer_step().stat.mode == GpuMode::PixelTransfer
                && self.transfer_step().transfer_left() == self.transfer_left() - 1,
            self.transfer_step().bg_fifo.scx + self.transfer_step().borrowed_cycles
                == self.bg_fifo.scx + self.borrowed_cycles,
            self.transfer_step().clock == 0,
            self.transfer_step().position.ly == self.position.ly,
            self.transfer_step().position.lyc == self.position.lyc,
            self.transfer_step().position.scroll_x == self.position.scroll_x,
            self.transfer_step().lcdc == self.lcdc,
            self.transfer_step().request_vblank_int == self.request_vblank_int,
            self.request_lcd_int ==> self.transfer_step().request_lcd_int,
    {
    }

    /// One cycle keeps the invariant.
    pub proof fn lemma_step_wf(self)
        requires
            self.wf(),
        ensures
            self.step().wf(),
    {
        if self.stat.mode == GpuMode::PixelTransfer {
            self.lemma_transfer_step();
        }
    }

    /// Any number of cycles keeps the invariant.
    pub proof fn lemma_run_wf(self, cycles: nat)
        requires
            self.wf(),
        ensures
            self.run(cycles).wf(),
        decreases cycles,
    {
        reveal(GpuState::run);
        if cycles > 0 {
            self.lemma_run_wf((cycles - 1) as nat);
            self.run((cycles - 1) as nat).lemma_step_wf();
        }
    }

    // ------------------------------------------------------------------
    // The budget
    // ------------------------------------------------------------------
    /// No cycle of a budget is lost or counted twice: to run a budget in two
    /// parts, one after the other, is to run it whole.
    pub proof fn lemma_run_split(self, first: nat, second: nat)
        ensures
            self.run(first).run(second) == self.run(first + second),
        decreases second,
    {
        reveal(GpuState::run);
        if second > 0 {
            self.lemma_run_split(first, (second - 1) as nat);
            assert(first + second - 1 == (first + second - 1) as nat);
        }
    }

    /// Cycles do not touch the control register.
    pub proof fn lemma_run_keeps_display(self, cycles: nat)
        requires
            self.wf(),
        ensures
            self.run(cycles).lcdc == self.lcdc,
        decreases cycles,
    {
        reveal(GpuState::run);
        if cycles > 0 {
            self.lemma_run_keeps_display((cycles - 1) as nat);
            self.lemma_run_wf((cycles - 1) as nat);
            if self.run((cycles - 1) as nat).stat.mode == GpuMode::PixelTransfer {
                self.run((cycles - 1) as nat).lemma_transfer_step();
            }
        }
    }

    /// With the display off a budget passes and nothing moves.
    pub proof fn lemma_run_display_off(self, cycles: nat)
        requires
            !self.lcdc.spec_display_enabled(),
        ensures
            self.run(cycles) == self,
        decreases cycles,
    {
        reveal(GpuState::run);
        if cycles > 0 {
            self.lemma_run_display_off((cycles - 1) as nat);
        }
    }

    /// A block of the sprite search is that many single cycles, as long as
    /// it does not run past the end of the search.
    pub proof fn lemma_search_run(self, cycles: nat)
        requires
            self.wf(),
            self.lcdc.spec_display_enabled(),
            self.stat.mode == GpuMode::OamSearch,
            self.clock + cycles <= SEARCH_CYCLES,
        ensures
            self.run(cycles) == self.search_tick(cycles),
        decreases cycles,
    {
        reveal(GpuState::run);
        if cycles > 0 {
            self.lemma_search_run((cycles - 1) as nat);
        }
    }

    /// A block of the horizontal blank is that many single cycles, as long
    /// as it does not run past the end of the blank.
    pub proof fn lemma_hblank_run(self, cycles: nat)
        requires
            self.wf(),
            self.lcdc.spec_display_enabled(),
            self.stat.mode == GpuMode::HBlank,
            self.clock + cycles <= self.hblank_length(),
        ensures
            self.run(cycles) == self.hblank_tick(cycles),
        decreases cycles,
    {
        reveal(GpuState::run);
        if cycles > 0 {
            self.lemma_hblank_run((cycles - 1) as nat);
        }
    }

    /// A block of the vertical blank is that many single cycles, as long as
    /// it does not run past the end of the line.
    pub proof fn lemma_vblank_run(self, cycles: nat)
        requires
            self.wf(),
            self.lcdc.spec_display_enabled(),
            self.stat.mode == GpuMode::VBlank,
            self.clock + cycles <= VBLANK_LINE_CYCLES,
        ensures
            self.run(cycles) == self.vblank_tick(cycles),
        decreases cycles,
    {
        reveal(GpuState::run);
        if cycles > 0 {
            self.lemma_vblank_run((cycles - 1) as nat);
        }
    }

    /// What `cycles` cycles of pixel transfer do, as long as they do not run
    /// past its end: they take that many cycles off what is left of the
    /// transfer, and the last of them ends it with the line full, nothing
    /// left to discard and every discarded pixel counted as borrowed.
    pub proof fn lemma_transfer_run(self, cycles: nat)
        requires
            self.wf(),
            self.stat.mode == GpuMode::PixelTransfer,
            cycles <= self.transfer_left(),
        ensures
            self.transfer_run(cycles).wf(),
            self.lcdc.spec_display_enabled() ==> self.run(cycles) == self.transfer_run(cycles),
            cycles < self.transfer_left() ==> self.transfer_run(cycles).stat.mode
                == GpuMode::PixelTransfer && self.transfer_run(cycles).transfer_left()
                == self.transfer_left() - cycles,
            cycles == self.transfer_left() ==> self.transfer_run(cycles).stat.mode
                == GpuMode::HBlank && self.transfer_run(cycles).position.lx == SCREEN_WIDTH
                && self.transfer_run(cycles).bg_fifo.scx == 0 && self.transfer_run(
                cycles,
            ).transfer_lag() == 0,
            self.transfer_run(cycles).bg_fifo.scx + self.transfer_run(cycles).borrowed_cycles
                == self.bg_fifo.scx + self.borrowed_cycles,
            self.transfer_run(cycles).clock == 0,
            self.transfer_run(cycles).position.ly == self.position.ly,
            self.transfer_run(cycles).position.lyc == self.position.lyc,
            self.transfer_run(cycles).position.scroll_x == self.position.scroll_x,
            self.transfer_run(cycles).lcdc == self.lcdc,
            self.transfer_run(cycles).request_vblank_int == self.request_vblank_int,
        decreases cycles,
    {
        reveal(GpuState::run);
        reveal(GpuState::transfer_run);
        self.lemma_transfer_step();
        if cycles > 0 {
            self.lemma_transfer_run((cycles - 1) as nat);
            self.transfer_run((cycles - 1) as nat).lemma_transfer_step();
        }
    }

    // ------------------------------------------------------------------
    // Lines
    // ------------------------------------------------------------------
    /// The course of a visible line, cycle by cycle. The search takes
    /// exactly 80 cycles. The pixel transfer takes the lag of the pipeline,
    /// one cycle for each pixel that the horizontal scroll makes it discard,
    /// and 160. The horizontal blank takes 204 less the discarded pixels,
    /// which are the horizontal scroll modulo 8. Then the next line begins,
    /// or the vertical blank after line 143, with the pipeline running.
    pub proof fn lemma_line(self, cycles: nat)
        requires
            self.at_line_start(),
            cycles <= self.line_length(),
        ensures
            self.line_length() == 444 + self.transfer_lag(),
            cycles < SEARCH_CYCLES ==> self.run(cycles).stat.mode == GpuMode::OamSearch,
            SEARCH_CYCLES <= cycles < SEARCH_CYCLES + self.line_transfer_length() ==> self.run(
                cycles,
            ).stat.mode == GpuMode::PixelTransfer,
            SEARCH_CYCLES + self.line_transfer_length() <= cycles < self.line_length() ==> self.run(
                cycles,
            ).stat.mode == GpuMode::HBlank && self.run(cycles).borrowed_cycles
                == self.position.scroll_x % 8 && self.run(cycles).hblank_length()
                == self.line_hblank_length(),
            cycles < self.line_length() ==> self.run(cycles).position.ly == self.position.ly,
            cycles == self.line_length() ==> self.run(cycles).position.ly == self.position.ly + 1
                && self.run(cycles).clock == 0 && self.run(cycles).transfer_lag() == 0
                && self.run(cycles).stat.mode == (if self.position.ly == 143 {
                GpuMode::VBlank
            } else {
                GpuMode::OamSearch
            }) && (self.position.ly == 143 ==> self.run(cycles).request_vblank_int),
            self.run(cycles).wf(),
            self.run(cycles).lcdc == self.lcdc,
    {
        let transfer = self.line_transfer_length();
        let entry = self.search_tick(SEARCH_CYCLES as nat);
        self.lemma_run_wf(cycles);
        self.lemma_run_keeps_display(cycles);
        if cycles <= SEARCH_CYCLES {
            self.lemma_search_run(cycles);
        } else {
            self.lemma_search_run(SEARCH_CYCLES as nat);
            if cycles <= SEARCH_CYCLES + transfer {
                let spent = (cycles - SEARCH_CYCLES) as nat;
                self.lemma_run_split(SEARCH_CYCLES as nat, spent);
                entry.lemma_transfer_run(spent);
            } else {
                let blank = entry.transfer_run(transfer);
                let spent = (cycles - SEARCH_CYCLES - transfer) as nat;
                entry.lemma_transfer_run(transfer);
                self.lemma_run_split(SEARCH_CYCLES as nat, transfer);
                self.lemma_run_split(SEARCH_CYCLES as nat + transfer, spent);
                blank.lemma_hblank_run(spent);
            }
        }
    }

    /// One cycle of pixel transfer shows at most the pixel under the
    /// cursor: what was shown of the line stays shown, the cursor's pixel is
    /// shown once the cursor has passed it, and the other lines stay as they
    /// are.
    pub proof fn lemma_transfer_step_shows(self)
        requires
            self.wf(),
            self.stat.mode == GpuMode::PixelTransfer,
            self.line_shown(self.position.lx as int),
        ensures
            self.transfer_step().line_shown(self.transfer_step().position.lx as int),
            self.transfer_step().other_lines_as_in(self),
    {
        self.lemma_transfer_step();
        let next = self.transfer_step();
        let fetched = self.fetcher_step();
        assert(fetched.lcd == self.lcd);
        assert(fetched.position == self.position);
        if next.position.lx > self.position.lx {
            let value = fetched.bg_fifo.q[0];
            lemma_shade_index(value, self.dmgp.bgp);
            let shade = shade_index(value, self.dmgp.bgp);
            let x = self.position.lx as int;
            assert(shade_rgb(shade) == monochrome_rgb(value, self.dmgp.bgp));
            assert(next.pixel_shown(x));
            assert forall|y: int| 0 <= y < next.position.lx implies #[trigger] next.pixel_shown(
                y,
            ) by {
                if y < x {
                    assert(self.pixel_shown(y));
                    let at = self.pixel_offset(y);
                    assert(next.lcd[at] == self.lcd[at]);
                    assert(next.lcd[at + 1] == self.lcd[at + 1]);
                    assert(next.lcd[at + 2] == self.lcd[at + 2]);
                    assert(next.lcd[at + 3] == self.lcd[at + 3]);
                }
            }
        } else {
            assert(next.lcd == self.lcd);
            assert forall|y: int| 0 <= y < next.position.lx implies #[trigger] next.pixel_shown(
                y,
            ) by {
                assert(self.pixel_shown(y));
            }
        }
    }

    /// Pixel transfer shows the line and nothing else: when it ends, each of
    /// the 160 pixels of the current line holds one of the four shades,
    /// opaque, and every other line is as it was.
    pub proof fn lemma_transfer_shows_line(self, cycles: nat)
        requires
            self.wf(),
            self.stat.mode == GpuMode::PixelTransfer,
            self.line_shown(self.position.lx as int),
            cycles <= self.transfer_left(),
        ensures
            self.transfer_run(cycles).line_shown(self.transfer_run(cycles).position.lx as int),
            self.transfer_run(cycles).other_lines_as_in(self),
            cycles == self.transfer_left() ==> self.transfer_run(cycles).line_shown(
                SCREEN_WIDTH as int,
            ),
        decreases cycles,
    {
        reveal(GpuState::transfer_run);
        self.lemma_transfer_run(cycles);
        if cycles > 0 {
            let before = self.transfer_run((cycles - 1) as nat);
            self.lemma_transfer_run((cycles - 1) as nat);
            self.lemma_transfer_shows_line((cycles - 1) as nat);
            before.lemma_transfer_step_shows();
            let after = before.transfer_step();
            assert(after.position.ly == self.position.ly);
            assert(before.position.ly == self.position.ly);
            assert forall|i: int|
                0 <= i < after.lcd.len() && !(after.pixel_offset(0) <= i < after.pixel_offset(
                    SCREEN_WIDTH as int,
                )) implies #[trigger] after.lcd[i] == self.lcd[i] by {
                assert(after.lcd[i] == before.lcd[i]);
                assert(before.lcd[i] == self.lcd[i]);
            }
        }
    }

    /// At the end of a line's pixel transfer the line is on the screen:
    /// exactly its 160 pixels were written, each with one of the four
    /// shades, opaque.
    pub proof fn lemma_line_shown(self)
        requires
            self.at_line_start(),
        ensures
            self.run(SEARCH_CYCLES as nat + self.line_transfer_length()).line_shown(
                SCREEN_WIDTH as int,
            ),
            self.run(SEARCH_CYCLES as nat + self.line_transfer_length()).other_lines_as_in(self),
            self.run(SEARCH_CYCLES as nat + self.line_transfer_length()).stat.mode
                == GpuMode::HBlank,
    {
        let transfer = self.line_transfer_length();
        let entry = self.search_tick(SEARCH_CYCLES as nat);
        self.lemma_search_run(SEARCH_CYCLES as nat);
        self.lemma_run_split(SEARCH_CYCLES as nat, transfer);
        entry.lemma_transfer_run(transfer);
        entry.lemma_transfer_shows_line(transfer);
    }

    /// A visible line takes 456 cycles exactly when the pipeline is twelve
    /// cycles behind at its start.
    pub proof fn lemma_line_of_456(self)
        requires
            self.at_line_start(),
        ensures
            self.line_length() == 456 <==> self.transfer_lag() == 12,
    {
    }

    /// The line counter moves by single steps: one cycle leaves it alone or
    /// moves it to the next line. It never shows 153 or more. After 152 it
    /// shows 0, still in vertical blank, and the coincidence flag is what
    /// the comparison of 0 with the target gives. The counter is above 143
    /// only in vertical blank, and vertical blank shows it above 143 or 0.
    pub proof fn lemma_line_counter(self)
        requires
            self.wf(),
        ensures
            self.position.ly <= 152,
            self.step().position.ly == self.position.ly || self.step().position.ly == (
            self.position.ly + 1) % 153,
            self.position.ly >= 144 ==> self.stat.mode == GpuMode::VBlank,
            self.stat.mode == GpuMode::VBlank ==> self.position.ly >= 144 || self.position.ly == 0,
            self.position.ly == 152 && self.step().position.ly == 0 ==> self.step().stat.mode
                == GpuMode::VBlank && (self.step().stat.coincident == 0x04 <==> self.position.lyc
                == 0) && (self.position.lyc == 0 && self.stat.lyc_int != 0
                ==> self.step().request_lcd_int),
    {
        if self.stat.mode == GpuMode::PixelTransfer {
            self.lemma_transfer_step();
        }
    }

    // ------------------------------------------------------------------
    // Frames
    // ------------------------------------------------------------------
    /// The course of the visible lines from the start of one of them: after
    /// `lines` of them the counter is that much further, and the cycles
    /// spent are 444 for each line and the lag of the pipeline at the start.
    pub proof fn lemma_visible_lines(self, lines: nat)
        requires
            self.at_line_start(),
            self.position.ly + lines <= 144,
        ensures
            self.run(444 * lines + self.transfer_lag()).wf(),
            self.run(444 * lines + self.transfer_lag()).lcdc == self.lcdc,
            lines > 0 ==> self.run(444 * lines + self.transfer_lag()).position.ly
                == self.position.ly + lines && self.run(
                444 * lines + self.transfer_lag(),
            ).clock == 0 && self.run(444 * lines + self.transfer_lag()).transfer_lag() == 0
                && self.run(444 * lines + self.transfer_lag()).stat.mode == (if self.position.ly
                + lines == 144 {
                GpuMode::VBlank
            } else {
                GpuMode::OamSearch
            }),
            self.position.ly + lines == 144 && lines > 0 ==> self.run(
                444 * lines + self.transfer_lag(),
            ).request_vblank_int,
        decreases lines,
    {
        let lag = self.transfer_lag();
        if lines == 0 {
            self.lemma_run_wf(lag);
            self.lemma_run_keeps_display(lag);
        } else if lines == 1 {
            self.lemma_line(self.line_length());
        } else {
            let before = (lines - 1) as nat;
            self.lemma_visible_lines(before);
            let last = self.run(444 * before + lag);
            last.lemma_line(last.line_length());
            self.lemma_run_split(444 * before + lag, 444);
        }
    }

    /// The course of the vertical blank from the start of one of its lines:
    /// it stays in vertical blank for 456 cycles for each line left, and
    /// then the search of line 0 begins. The pipeline rests meanwhile.
    pub proof fn lemma_vblank(self, cycles: nat)
        requires
            self.at_vblank_line_start(),
            cycles <= VBLANK_LINE_CYCLES * self.vblank_lines_left(),
        ensures
            cycles < VBLANK_LINE_CYCLES * self.vblank_lines_left() ==> self.run(cycles).stat.mode
                == GpuMode::VBlank,
            cycles == VBLANK_LINE_CYCLES * self.vblank_lines_left() ==> self.run(
                cycles,
            ).at_line_start() && self.run(cycles).position.ly == 0,
            self.run(cycles).transfer_lag() == self.transfer_lag(),
            self.run(cycles).request_vblank_int == self.request_vblank_int,
        decreases self.vblank_lines_left(),
    {
        self.lemma_run_keeps_display(cycles);
        self.lemma_run_wf(cycles);
        if cycles <= VBLANK_LINE_CYCLES {
            self.lemma_vblank_run(cycles);
        } else {
            let next = self.vblank_tick(VBLANK_LINE_CYCLES as nat);
            self.lemma_vblank_run(VBLANK_LINE_CYCLES as nat);
            self.lemma_run_keeps_display(VBLANK_LINE_CYCLES as nat);
            self.lemma_run_wf(VBLANK_LINE_CYCLES as nat);
            self.lemma_run_split(VBLANK_LINE_CYCLES as nat, (cycles - VBLANK_LINE_CYCLES) as nat);
            next.lemma_vblank((cycles - VBLANK_LINE_CYCLES) as nat);
        }
    }

    /// A frame from the start of line 0: 144 visible lines of 444 cycles,
    /// the lag of the pipeline at the start, and ten lines of vertical blank
    /// of 456 cycles. After that many cycles, and with the vertical-blank
    /// interrupt requested, line 0 starts again, the pipeline running; so
    /// every later frame takes 68496 cycles.
    pub proof fn lemma_frame(self)
        requires
            self.at_line_start(),
            self.position.ly == 0,
        ensures
            self.run(68496 + self.transfer_lag()).at_line_start(),
            self.run(68496 + self.transfer_lag()).position.ly == 0,
            self.run(68496 + self.transfer_lag()).transfer_lag() == 0,
            self.run(68496 + self.transfer_lag()).request_vblank_int,
            self.run(63936 + self.transfer_lag()).at_vblank_line_start(),
            self.run(63936 + self.transfer_lag()).position.ly == 144,
    {
        let visible = 63936 + self.transfer_lag();
        self.lemma_visible_lines(144);
        let blank = self.run(visible);
        blank.lemma_vblank(4560);
        self.lemma_run_split(visible, 4560);
    }

    // ------------------------------------------------------------------
    // The bus
    // ------------------------------------------------------------------
    /// A write to video memory during pixel transfer, with the display on,
    /// changes nothing.
    pub proof fn lemma_vram_write_dropped(self, addr: u16, value: u8)
        requires
            0x8000 <= addr <= 0x9FFF,
            self.lcdc.spec_display_enabled(),
            self.stat.mode == GpuMode::PixelTransfer,
        ensures
            self.write(addr, value) == self,
    {
    }

    /// A write to video memory outside pixel transfer, such as in
    /// horizontal blank, is what the next read of that address returns.
    pub proof fn lemma_vram_write_visible(self, addr: u16, value: u8)
        requires
            self.wf(),
            0x8000 <= addr <= 0x9FFF,
            self.stat.mode != GpuMode::PixelTransfer,
        ensures
            self.write(addr, value).read(addr) == value,
            self.write(addr, value).stat.mode == self.stat.mode,
    {
    }

    /// The unit never clears an interrupt request: neither a cycle nor a
    /// bus write takes back one that stands.
    pub proof fn lemma_requests_stay(self, addr: u16, value: u8)
        requires
            self.wf(),
        ensures
            self.request_vblank_int ==> self.step().request_vblank_int && self.write(
                addr,
                value,
            ).request_vblank_int,
            self.request_lcd_int ==> self.step().request_lcd_int && self.write(
                addr,
                value,
            ).request_lcd_int,
    {
        if self.stat.mode == GpuMode::PixelTransfer {
            self.lemma_transfer_step();
        }
    }

    /// Switching the display off puts the unit on line 0 in horizontal
    /// blank and fills the framebuffer with 255.
    pub proof fn lemma_display_off(self, value: u8)
        requires
            self.wf(),
            self.lcdc.spec_display_enabled(),
            value < 0x80,
        ensures
            self.write(0xFF40, value).position.ly == 0,
            self.write(0xFF40, value).stat.mode == GpuMode::HBlank,
            self.write(0xFF40, value).clock == 0,
            self.write(0xFF40, value).lcd.len() == LCD_SIZE,
            forall|i: int| 0 <= i < LCD_SIZE ==> self.write(0xFF40, value).lcd[i] == 255,
            !self.write(0xFF40, value).lcdc.spec_display_enabled(),
    {
        assert(value < 0x80 ==> value & 0x80 == 0) by (bit_vector);
    }
}

} // verus!
