//! Typed views of the memory-mapped control, status, position and palette
//! bytes. Pure encoding and decoding; no timing.

use vstd::prelude::*;
use crate::gpu::GpuMode;

verus! {

/// The control byte, one field per bit. Each field holds the byte masked to
/// its own bit, so a field is either zero or its mask.
#[derive(Clone, Copy, Debug)]
pub struct LcdControl {
    /// Bit 7: display on.
    pub display_enable: u8,
    /// Bit 6: window tilemap select.
    pub win_tilemap_sel: u8,
    /// Bit 5: window on.
    pub win_display_enable: u8,
    /// Bit 4: tile-data addressing mode.
    pub bg_tiledata_sel: u8,
    /// Bit 3: background tilemap select.
    pub bg_tilemap_sel: u8,
    /// Bit 2: object size.
    pub obj_size: u8,
    /// Bit 1: objects on.
    pub obj_display_enable: u8,
    /// Bit 0.
    pub lcdc0: u8,
}

impl LcdControl {
    /// The register at power-on: every bit clear.
    pub open spec fn spec_default() -> LcdControl {
        LcdControl {
            display_enable: 0,
            win_tilemap_sel: 0,
            win_display_enable: 0,
            bg_tiledata_sel: 0,
            bg_tilemap_sel: 0,
            obj_size: 0,
            obj_display_enable: 0,
            lcdc0: 0,
        }
    }

    /// The control register that decodes `value`.
    pub open spec fn spec_from_bits(value: u8) -> LcdControl {
        LcdControl {
            display_enable: value & 0x80,
            win_tilemap_sel: value & 0x40,
            win_display_enable: value & 0x20,
            bg_tiledata_sel: value & 0x10,
            bg_tilemap_sel: value & 0x08,
            obj_size: value & 0x04,
            obj_display_enable: value & 0x02,
            lcdc0: value & 0x01,
        }
    }

    /// The byte that this register encodes to.
    pub open spec fn spec_bits(self) -> u8 {
        self.display_enable | self.win_tilemap_sel | self.win_display_enable
            | self.bg_tiledata_sel | self.bg_tilemap_sel | self.obj_size
            | self.obj_display_enable | self.lcdc0
    }

    pub open spec fn spec_display_enabled(&self) -> bool {
        self.display_enable != 0
    }

    pub open spec fn spec_window_enabled(&self) -> bool {
        self.win_display_enable != 0
    }

    /// Base address of the background tilemap.
    pub open spec fn spec_bg_tilemap(&self) -> u16 {
        if self.bg_tilemap_sel == 0 {
            0x9800
        } else {
            0x9C00
        }
    }

    /// Decodes a control byte.
    pub fn from_bits(value: u8) -> (lcdc: LcdControl)
        ensures
            lcdc == LcdControl::spec_from_bits(value),
    {
        LcdControl {
            display_enable: value & 0x80,
            win_tilemap_sel: value & 0x40,
            win_display_enable: value & 0x20,
            bg_tiledata_sel: value & 0x10,
            bg_tilemap_sel: value & 0x08,
            obj_size: value & 0x04,
            obj_display_enable: value & 0x02,
            lcdc0: value & 0x01,
        }
    }

    /// Encodes the register as one byte.
    pub fn bits(&self) -> (value: u8)
        ensures
            value == self.spec_bits(),
    {
        self.display_enable | self.win_tilemap_sel | self.win_display_enable
            | self.bg_tiledata_sel | self.bg_tilemap_sel | self.obj_size
            | self.obj_display_enable | self.lcdc0
    }

    #[verifier::when_used_as_spec(spec_display_enabled)]
    pub fn display_enabled(&self) -> (on: bool)
        ensures
            on == self.spec_display_enabled(),
    {
        self.display_enable != 0
    }

    #[verifier::when_used_as_spec(spec_window_enabled)]
    pub fn window_enabled(&self) -> (on: bool)
        ensures
            on == self.spec_window_enabled(),
    {
        self.win_display_enable != 0
    }

    #[verifier::when_used_as_spec(spec_bg_tilemap)]
    pub fn bg_tilemap(&self) -> (base: u16)
        ensures
            base == self.spec_bg_tilemap(),
    {
        if self.bg_tilemap_sel == 0 {
            0x9800
        } else {
            0x9C00
        }
    }

    /// Decoding a byte and encoding it again gives the byte back.
    pub proof fn lemma_bits_round_trip(value: u8)
        ensures
            LcdControl::spec_from_bits(value).spec_bits() == value,
            LcdControl::spec_from_bits(value).spec_display_enabled() <==> value >= 0x80,
            LcdControl::spec_from_bits(0) == LcdControl::spec_default(),
    {
        assert(0u8 & 0x80 == 0 && 0u8 & 0x40 == 0 && 0u8 & 0x20 == 0 && 0u8 & 0x10 == 0 && 0u8
            & 0x08 == 0 && 0u8 & 0x04 == 0 && 0u8 & 0x02 == 0 && 0u8 & 0x01 == 0) by (bit_vector);
        assert((value & 0x80) | (value & 0x40) | (value & 0x20) | (value & 0x10) | (value & 0x08)
            | (value & 0x04) | (value & 0x02) | (value & 0x01) == value) by (bit_vector);
        assert((value & 0x80 != 0) <==> value >= 0x80) by (bit_vector);
    }
}

impl Default for LcdControl {
    fn default() -> (lcdc: LcdControl)
        ensures
            lcdc == LcdControl::spec_default(),
    {
        LcdControl {
            display_enable: 0,
            win_tilemap_sel: 0,
            win_display_enable: 0,
            bg_tiledata_sel: 0,
            bg_tilemap_sel: 0,
            obj_size: 0,
            obj_display_enable: 0,
            lcdc0: 0,
        }
    }
}

/// The status byte: four interrupt-enable bits that software sets, and a
/// coincidence flag and a mode that only the scheduler changes.
#[derive(Clone, Copy, Debug)]
pub struct LcdStatus {
    /// Bit 6: interrupt on line coincidence.
    pub lyc_int: u8,
    /// Bit 5: interrupt on entering sprite search.
    pub oam_int: u8,
    /// Bit 4: interrupt on entering vertical blank.
    pub vblank_int: u8,
    /// Bit 3: interrupt on entering horizontal blank.
    pub hblank_int: u8,
    /// Bit 2: outcome of the latest comparison of the line with its target.
    pub coincident: u8,
    /// Bits 1 and 0.
    pub mode: GpuMode,
}

impl LcdStatus {
    /// The register at power-on: nothing enabled, sprite search.
    pub open spec fn spec_default() -> LcdStatus {
        LcdStatus {
            lyc_int: 0,
            oam_int: 0,
            vblank_int: 0,
            hblank_int: 0,
            coincident: 0,
            mode: GpuMode::OamSearch,
        }
    }

    /// The register after software wrote `value`: the enable bits follow the
    /// byte, the coincidence flag and the mode stay.
    pub open spec fn spec_with_enables(self, value: u8) -> LcdStatus {
        LcdStatus {
            lyc_int: value & 0x40,
            oam_int: value & 0x20,
            vblank_int: value & 0x10,
            hblank_int: value & 0x08,
            ..self
        }
    }

    /// The byte that this register encodes to.
    pub open spec fn spec_bits(self) -> u8 {
        self.lyc_int | self.oam_int | self.vblank_int | self.hblank_int | self.coincident
            | self.mode.spec_bits()
    }

    /// Takes the four enable bits from `value`.
    pub fn set_enables(&mut self, value: u8)
        ensures
            *final(self) == old(self).spec_with_enables(value),
    {
        self.lyc_int = value & 0x40;
        self.oam_int = value & 0x20;
        self.vblank_int = value & 0x10;
        self.hblank_int = value & 0x08;
    }

    /// Encodes the register as one byte.
    pub fn bits(&self) -> (value: u8)
        ensures
            value == self.spec_bits(),
    {
        self.lyc_int | self.oam_int | self.vblank_int | self.hblank_int | self.coincident
            | u8::from(&self.mode)
    }

    /// What software reads back after writing `value`: its own four enable
    /// bits, and below them the flag and the mode that it cannot set.
    pub proof fn lemma_bits_after_write(self, value: u8)
        requires
            self.coincident == 0 || self.coincident == 0x04,
        ensures
            self.spec_with_enables(value).spec_bits() & 0x78 == value & 0x78,
            self.spec_with_enables(value).spec_bits() & 0x04 == self.coincident,
            self.spec_with_enables(value).spec_bits() & 0x03 == self.mode.spec_bits(),
            self.spec_with_enables(value).spec_bits() & 0x80 == 0,
    {
        let c = self.coincident;
        let m = self.mode.spec_bits();
        assert(m < 4);
        assert(((value & 0x40) | (value & 0x20) | (value & 0x10) | (value & 0x08) | c | m) & 0x78
            == value & 0x78 && ((value & 0x40) | (value & 0x20) | (value & 0x10) | (value & 0x08)
            | c | m) & 0x04 == c && ((value & 0x40) | (value & 0x20) | (value & 0x10) | (value
            & 0x08) | c | m) & 0x03 == m && ((value & 0x40) | (value & 0x20) | (value & 0x10) | (
        value & 0x08) | c | m) & 0x80 == 0) by (bit_vector)
            requires
                c == 0 || c == 0x04,
                m < 4,
        ;
    }
}

impl Default for LcdStatus {
    fn default() -> (stat: LcdStatus)
        ensures
            stat == LcdStatus::spec_default(),
    {
        LcdStatus {
            lyc_int: 0,
            oam_int: 0,
            vblank_int: 0,
            hblank_int: 0,
            coincident: 0,
            mode: GpuMode::OamSearch,
        }
    }
}

/// Scroll and window origins, the line counter with its compare target, and
/// the pixel cursor of the line being drawn.
#[derive(Clone, Copy, Debug)]
pub struct LcdPosition {
    pub scroll_x: u8,
    pub scroll_y: u8,
    pub window_x: u8,
    pub window_y: u8,
    /// The current line.
    pub ly: u8,
    /// The line that raises the coincidence flag.
    pub lyc: u8,
    /// How many pixels of the current line are on the screen.
    pub lx: u8,
}

impl LcdPosition {
    pub open spec fn spec_default() -> LcdPosition {
        LcdPosition { scroll_x: 0, scroll_y: 0, window_x: 0, window_y: 0, ly: 0, lyc: 0, lx: 0 }
    }
}

impl Default for LcdPosition {
    fn default() -> (position: LcdPosition)
        ensures
            position == LcdPosition::spec_default(),
    {
        LcdPosition { scroll_x: 0, scroll_y: 0, window_x: 0, window_y: 0, ly: 0, lyc: 0, lx: 0 }
    }
}

/// The three palette bytes of the monochrome scheme.
#[derive(Clone, Copy, Debug)]
pub struct MonochromePalette {
    pub bgp: u8,
    pub obp0: u8,
    pub obp1: u8,
}

impl MonochromePalette {
    pub open spec fn spec_default() -> MonochromePalette {
        MonochromePalette { bgp: 0, obp0: 0, obp1: 0 }
    }
}

impl Default for MonochromePalette {
    fn default() -> (dmgp: MonochromePalette)
        ensures
            dmgp == MonochromePalette::spec_default(),
    {
        MonochromePalette { bgp: 0, obp0: 0, obp1: 0 }
    }
}

/// The two palette index registers of the enhanced scheme: a position in
/// palette memory and whether a data write moves it on.
#[derive(Clone, Copy, Debug)]
pub struct ColorPalette {
    pub bgp_idx: u8,
    pub bgp_auto_incr: bool,
    pub obp_idx: u8,
    pub obp_auto_incr: bool,
}

impl ColorPalette {
    pub open spec fn spec_default() -> ColorPalette {
        ColorPalette { bgp_idx: 0, bgp_auto_incr: false, obp_idx: 0, obp_auto_incr: false }
    }

    /// An index register as one byte: the position, and bit 7 for the
    /// auto-increment.
    pub open spec fn index_bits(idx: u8, auto_incr: bool) -> u8 {
        if auto_incr {
            idx | 0x80
        } else {
            idx
        }
    }

    /// The position after one data access.
    pub open spec fn next_index(idx: u8, auto_incr: bool) -> u8 {
        if auto_incr {
            ((idx + 1) % 0x40) as u8
        } else {
            idx
        }
    }

    pub open spec fn spec_bgp(&self) -> u8 {
        ColorPalette::index_bits(self.bgp_idx, self.bgp_auto_incr)
    }

    pub open spec fn spec_obp(&self) -> u8 {
        ColorPalette::index_bits(self.obp_idx, self.obp_auto_incr)
    }

    /// The background index register as one byte.
    #[verifier::when_used_as_spec(spec_bgp)]
    pub fn bgp(&self) -> (value: u8)
        ensures
            value == self.spec_bgp(),
    {
        if self.bgp_auto_incr {
            self.bgp_idx | 0x80
        } else {
            self.bgp_idx
        }
    }

    /// The object index register as one byte.
    #[verifier::when_used_as_spec(spec_obp)]
    pub fn obp(&self) -> (value: u8)
        ensures
            value == self.spec_obp(),
    {
        if self.obp_auto_incr {
            self.obp_idx | 0x80
        } else {
            self.obp_idx
        }
    }

    /// Writing a byte to an index register and reading the register back
    /// loses bit 6 only.
    pub proof fn lemma_index_round_trip(value: u8)
        ensures
            ColorPalette::index_bits(value & 0x3F, (value & 0x80) != 0) == value & 0xBF,
            value & 0x3F < 0x40,
    {
        assert(((value & 0x80) != 0 ==> (value & 0x3F) | 0x80 == value & 0xBF) && ((value & 0x80)
            == 0 ==> value & 0x3F == value & 0xBF) && value & 0x3F < 0x40) by (bit_vector);
    }
}

impl Default for ColorPalette {
    fn default() -> (cgbp: ColorPalette)
        ensures
            cgbp == ColorPalette::spec_default(),
    {
        ColorPalette { bgp_idx: 0, bgp_auto_incr: false, obp_idx: 0, obp_auto_incr: false }
    }
}

} // verus!
