//! The colour resolver: from a two-bit pixel value, through a palette, to
//! red, green and blue.

use crate::gpu::Gpu;
use vstd::prelude::*;

verus! {

/// The shade that the monochrome palette byte `palette` gives to the pixel
/// value `value`: two bits of the palette, chosen by the two low bits of the
/// value.
pub open spec fn shade_index(value: u8, palette: u8) -> u8 {
    (palette >> ((value & 3) << 1)) & 3
}

/// The fixed colours of the four shades, lightest first.
pub open spec fn shade_rgb(shade: u8) -> (u8, u8, u8) {
    if shade == 0 {
        (224u8, 247u8, 208u8)
    } else if shade == 1 {
        (136u8, 192u8, 112u8)
    } else if shade == 2 {
        (52u8, 104u8, 86u8)
    } else {
        (8u8, 23u8, 33u8)
    }
}

/// The colour of a pixel value in the monochrome scheme.
pub open spec fn monochrome_rgb(value: u8, palette: u8) -> (u8, u8, u8) {
    shade_rgb(shade_index(value, palette))
}

/// A five-bit channel stretched to eight bits: the five bits, and below
/// them their own top three. Only the five low bits of `c` count.
pub open spec fn expand_channel(c: u16) -> u8 {
    (((c & 0x1F) << 3) | ((c & 0x1F) >> 2)) as u8
}

/// Where in palette memory a colour starts: eight bytes per palette, two per
/// colour. Palette and colour numbers beyond the eight palettes of four
/// colours wrap.
pub open spec fn palette_offset(color_num: u8, palette_num: nat) -> int {
    (palette_num % 8) * 8 + (color_num % 4) * 2
}

/// The 15-bit colour stored at `offset`, low byte first.
pub open spec fn packed_color(ram: Seq<u8>, offset: int) -> u16 {
    ((ram[offset + 1] as u16) << 8) | (ram[offset] as u16)
}

/// The three channels of a packed colour: red in bits 0 to 4, green in bits
/// 5 to 9, blue in bits 10 to 14.
pub open spec fn packed_rgb(packed: u16) -> (u8, u8, u8) {
    (
        expand_channel(packed & 0x001F),
        expand_channel((packed & 0x03E0) >> 5),
        expand_channel((packed & 0x7C00) >> 10),
    )
}

/// The colour of a pixel value in the enhanced scheme.
pub open spec fn enhanced_rgb(ram: Seq<u8>, color_num: u8, palette_num: nat) -> (u8, u8, u8) {
    packed_rgb(packed_color(ram, palette_offset(color_num, palette_num)))
}

/// The shade is the palette's bit pair number `value`; for a pixel value of
/// the queue (0 to 3) that is the palette shifted right by twice the value.
pub proof fn lemma_shade_index(value: u8, palette: u8)
    ensures
        shade_index(value, palette) < 4,
        value == 0 ==> shade_index(value, palette) == palette % 4,
        value == 1 ==> shade_index(value, palette) == (palette / 4) % 4,
        value == 2 ==> shade_index(value, palette) == (palette / 16) % 4,
        value == 3 ==> shade_index(value, palette) == palette / 64,
        shade_index(value, palette) == shade_index(value & 3, palette),
{
    assert((palette >> ((value & 3) << 1)) & 3 < 4) by (bit_vector);
    assert(value == 0 ==> (palette >> ((value & 3) << 1)) & 3 == palette % 4) by (bit_vector);
    assert(value == 1 ==> (palette >> ((value & 3) << 1)) & 3 == (palette / 4) % 4)
        by (bit_vector);
    assert(value == 2 ==> (palette >> ((value & 3) << 1)) & 3 == (palette / 16) % 4)
        by (bit_vector);
    assert(value == 3 ==> (palette >> ((value & 3) << 1)) & 3 == palette / 64) by (bit_vector);
    assert((value & 3) & 3 == value & 3) by (bit_vector);
}

/// Stretching keeps the order and the ends of the range: 0 stays 0 and 31
/// becomes 255. In numbers, a channel `c` becomes `8 * c + c / 4`.
pub proof fn lemma_expand_channel(c: u16)
    ensures
        c < 32 ==> expand_channel(c) == 8 * c + c / 4,
        expand_channel(c) == expand_channel(c % 32),
        expand_channel(0) == 0,
        expand_channel(31) == 255,
{
    assert(c < 32 ==> (((c & 0x1F) << 3) | ((c & 0x1F) >> 2)) == 8 * c + c / 4) by (bit_vector);
    assert((((c & 0x1F) << 3) | ((c & 0x1F) >> 2)) <= 255) by (bit_vector);
    assert((c % 32) & 0x1F == c & 0x1F) by (bit_vector);
    assert((((0u16 & 0x1F) << 3) | ((0u16 & 0x1F) >> 2)) == 0) by (bit_vector);
    assert((((31u16 & 0x1F) << 3) | ((31u16 & 0x1F) >> 2)) == 255) by (bit_vector);
}

impl Gpu {
    /// Resolves a pixel value through a monochrome palette byte.
    pub fn get_rgb(&self, value: u8, palette: u8) -> (rgb: (u8, u8, u8))
        ensures
            rgb == monochrome_rgb(value, palette),
    {
        let pair: u8 = value & 3;
        assert(pair <= 3) by (bit_vector)
            requires
                pair == value & 3,
        ;
        let shift: u8 = pair << 1;
        assert(shift < 8) by (bit_vector)
            requires
                shift == pair << 1,
                pair <= 3,
        ;
        let shade: u8 = (palette >> shift) & 0x03;
        if shade == 0 {
            (224, 247, 208)
        } else if shade == 1 {
            (136, 192, 112)
        } else if shade == 2 {
            (52, 104, 86)
        } else {
            (8, 23, 33)
        }
    }

    /// Stretches three five-bit channels to eight bits each.
    pub fn color_correct(&self, r: u16, g: u16, b: u16) -> (rgb: (u8, u8, u8))
        ensures
            rgb == (expand_channel(r), expand_channel(g), expand_channel(b)),
    {
        (Gpu::expand(r), Gpu::expand(g), Gpu::expand(b))
    }

    /// Stretches one five-bit channel.
    fn expand(c: u16) -> (wide: u8)
        ensures
            wide == expand_channel(c),
    {
        let low: u16 = c & 0x1F;
        let wide: u16 = (low << 3) | (low >> 2);
        assert(wide <= 255) by (bit_vector)
            requires
                wide == (low << 3) | (low >> 2),
                low == c & 0x1F,
        ;
        wide as u8
    }

    /// Resolves a pixel value through the background or the object palette
    /// memory of the enhanced scheme.
    pub fn get_rgb_cgb(&self, color_num: u8, palette_num: usize, obp: bool) -> (rgb: (u8, u8, u8))
        requires
            self@.memories_sized(),
        ensures
            rgb == enhanced_rgb(
                if obp {
                    self@.obp_ram
                } else {
                    self@.bgp_ram
                },
                color_num,
                palette_num as nat,
            ),
    {
        let palette_idx: usize = (palette_num % 8) * 8;
        let color_idx: usize = palette_idx + (color_num % 4) as usize * 2;
        let palette: u16 = if obp {
            (self.obp_ram[color_idx + 1] as u16) << 8 | self.obp_ram[color_idx] as u16
        } else {
            (self.bgp_ram[color_idx + 1] as u16) << 8 | self.bgp_ram[color_idx] as u16
        };
        self.color_correct(palette & 0x001F, (palette & 0x03E0) >> 5, (palette & 0x7C00) >> 10)
    }
}

} // verus!
