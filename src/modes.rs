use vstd::prelude::*;
use crate::framebuffer::Color;

verus! {

/// The 64-entry color cube: two bits per channel, each step one third of
/// full intensity.
pub open spec fn cube_color(i: int) -> Color {
    Color { r: ((i / 16) * 85) as u8, g: (((i / 4) % 4) * 85) as u8, b: ((i % 4) * 85) as u8 }
}

/// The color of entry `i` of the 64-entry color cube.
pub fn lookup_color(i: u8) -> (c: Color)
    requires
        i < 64,
    ensures
        c == cube_color(i as int),
{
    Color { r: (i / 16) * 85, g: ((i / 4) % 4) * 85, b: (i % 4) * 85 }
}

/// Cube entries of the 16-color palette.
pub open spec fn palette16() -> Seq<u8> {
    seq![
        0x00u8, 0x20, 0x08, 0x28, 0x02, 0x22, 0x0A, 0x2A,
        0x15, 0x30, 0x0C, 0x3C, 0x03, 0x33, 0x0F, 0x3F,
    ]
}

/// Cube entries of the 64-color palette: the 16-color palette first, then
/// the remaining entries in ascending order.
pub open spec fn palette64() -> Seq<u8> {
    palette16() + seq![
        0x01u8, 0x04, 0x05, 0x06, 0x07, 0x09, 0x0B, 0x0D,
        0x0E, 0x10, 0x11, 0x12, 0x13, 0x14, 0x16, 0x17,
        0x18, 0x19, 0x1A, 0x1B, 0x1C, 0x1D, 0x1E, 0x1F,
        0x21, 0x23, 0x24, 0x25, 0x26, 0x27, 0x29, 0x2B,
        0x2C, 0x2D, 0x2E, 0x2F, 0x31, 0x32, 0x34, 0x35,
        0x36, 0x37, 0x38, 0x39, 0x3A, 0x3B, 0x3D, 0x3E,
    ]
}

/// Cube entries of the palette of a mode with `colors` colors.
pub open spec fn palette(colors: u8) -> Seq<u8> {
    if colors == 2 {
        seq![0x00u8, 0x3F]
    } else if colors == 16 {
        palette16()
    } else {
        palette64()
    }
}

/// The color that palette index `c` selects in a mode with `colors` colors:
/// the index wraps around the palette's length.
pub open spec fn palette_color(colors: u8, c: int) -> Color {
    cube_color(palette(colors)[c % (palette(colors).len() as int)] as int)
}

/// Cube entry `i` of the palette of a mode with `colors` colors.
pub fn palette_entry(colors: u8, i: usize) -> (e: u8)
    requires
        i < palette(colors).len(),
    ensures
        e == palette(colors)[i as int],
        e < 64,
{
    if colors == 2 {
        let t: [u8; 2] = [0x00, 0x3F];
        assert(t@ =~= palette(colors));
        t[i]
    } else {
        let t: [u8; 64] = [
            0x00, 0x20, 0x08, 0x28, 0x02, 0x22, 0x0A, 0x2A,
            0x15, 0x30, 0x0C, 0x3C, 0x03, 0x33, 0x0F, 0x3F,
            0x01, 0x04, 0x05, 0x06, 0x07, 0x09, 0x0B, 0x0D,
            0x0E, 0x10, 0x11, 0x12, 0x13, 0x14, 0x16, 0x17,
            0x18, 0x19, 0x1A, 0x1B, 0x1C, 0x1D, 0x1E, 0x1F,
            0x21, 0x23, 0x24, 0x25, 0x26, 0x27, 0x29, 0x2B,
            0x2C, 0x2D, 0x2E, 0x2F, 0x31, 0x32, 0x34, 0x35,
            0x36, 0x37, 0x38, 0x39, 0x3A, 0x3B, 0x3D, 0x3E,
        ];
        assert(t@ =~= palette64());
        assert(t@.subrange(0, 16) =~= palette16());
        t[i]
    }
}

/// Number of entries in the palette of a mode with `colors` colors.
pub fn palette_len(colors: u8) -> (n: usize)
    ensures
        n == palette(colors).len(),
{
    if colors == 2 {
        2
    } else if colors == 16 {
        16
    } else {
        64
    }
}

/// The color that palette index `c` selects in a mode with `colors` colors.
pub fn palette_color_of(colors: u8, c: usize) -> (r: Color)
    ensures
        r == palette_color(colors, c as int),
{
    let n = palette_len(colors);
    lookup_color(palette_entry(colors, c % n))
}

/// A supported video mode.
#[derive(Clone, Copy, Debug, PartialEq, Eq, Structural)]
pub struct VideoMode {
    pub colors: u8,
    pub screen_width: u32,
    pub screen_height: u32,
    pub refresh_rate: u8,
}

/// Number of entries of the mode table.
pub const NUM_MODES: u8 = 4;

/// The mode table.
pub open spec fn mode_spec(i: int) -> VideoMode {
    if i == 0 {
        VideoMode { colors: 2, screen_width: 1024, screen_height: 768, refresh_rate: 60 }
    } else if i == 1 {
        VideoMode { colors: 16, screen_width: 512, screen_height: 384, refresh_rate: 60 }
    } else if i == 2 {
        VideoMode { colors: 64, screen_width: 320, screen_height: 200, refresh_rate: 75 }
    } else {
        VideoMode { colors: 16, screen_width: 640, screen_height: 480, refresh_rate: 60 }
    }
}

/// Entry `i` of the mode table, or `None` past its end.
pub fn video_mode(i: u8) -> (m: Option<VideoMode>)
    ensures
        i < NUM_MODES ==> m == Some(mode_spec(i as int)),
        i >= NUM_MODES ==> m.is_none(),
{
    if i == 0 {
        Some(VideoMode { colors: 2, screen_width: 1024, screen_height: 768, refresh_rate: 60 })
    } else if i == 1 {
        Some(VideoMode { colors: 16, screen_width: 512, screen_height: 384, refresh_rate: 60 })
    } else if i == 2 {
        Some(VideoMode { colors: 64, screen_width: 320, screen_height: 200, refresh_rate: 75 })
    } else if i == 3 {
        Some(VideoMode { colors: 16, screen_width: 640, screen_height: 480, refresh_rate: 60 })
    } else {
        None
    }
}

} // verus!
