use vstd::prelude::*;
use crate::audio::AudioChannels;
use crate::cursor::{Cursor, PageState};
use crate::framebuffer::{Color, FrameBuffer, in_rect};
use crate::geometry::{Point, scale, scale_spec, translate, translate_spec};
use crate::raster::{draw_segment, fill_triangle, in_triangle_span, on_segment};
use crate::modes::{
    VideoMode, mode_spec, palette, palette_color, palette_color_of, palette_len, video_mode,
    NUM_MODES,
};
use crate::protocol::{packet_spec, send_packet};
use crate::sprites::{SpriteSystem, NUM_BITMAPS, NUM_SPRITES};

verus! {

/// Width of a character cell, in pixels.
pub const FONT_WIDTH: i32 = 8;

/// Height of a glyph of the native font.
pub const FONT_HEIGHT: i32 = 8;

/// Height of a glyph of the terminal font.
pub const TERMINAL_FONT_HEIGHT: i32 = 19;

/// Glyphs of a font table: one for each byte from 0x20 to 0xFF.
pub const NUM_GLYPHS: usize = 224;

/// Mode that terminal mode runs in.
pub const TERMINAL_MODE: u8 = 3;

/// The emulated display coprocessor: what is on screen and the state that
/// the command stream drives.
pub struct VDP {
    pub cursor: Cursor,
    pub fb: FrameBuffer,
    pub mode_index: u8,
    pub current_video_mode: VideoMode,
    pub foreground_color: Color,
    pub background_color: Color,
    pub graph_color: Color,
    pub cursor_enabled: bool,
    pub logical_coords: bool,
    pub terminal_mode: bool,
    pub terminal_underline: bool,
    pub terminal_reverse: bool,
    pub p1: Point,
    pub p2: Point,
    pub p3: Point,
    pub graph_origin: Point,
    pub font_data: Vec<u8>,
    pub terminal_font: Vec<u8>,
    pub sprites: SpriteSystem,
    pub audio_channels: AudioChannels,
    pub pending: Vec<u8>,
}

/// Whether a point lies where the plot history can hold it.
pub open spec fn plot_point_ok(p: Point) -> bool {
    -0x41000 <= p.x <= 0x41000 && -0x41000 <= p.y <= 0x41000
}

impl VDP {
    pub open spec fn wf(&self) -> bool {
        &&& self.cursor.wf()
        &&& self.fb.wf()
        &&& self.mode_index < NUM_MODES
        &&& self.current_video_mode == mode_spec(self.mode_index as int)
        &&& self.fb.width == self.current_video_mode.screen_width
        &&& self.fb.height == self.current_video_mode.screen_height
        &&& self.cursor.screen_width == self.current_video_mode.screen_width
        &&& self.cursor.screen_height == self.current_video_mode.screen_height
        &&& self.cursor.font_width == FONT_WIDTH
        &&& (self.cursor.font_height == FONT_HEIGHT || self.cursor.font_height
            == TERMINAL_FONT_HEIGHT)
        &&& self.font_data@.len() >= NUM_GLYPHS * self.cursor.font_height
        &&& self.font_data@.len() >= NUM_GLYPHS * FONT_HEIGHT
        &&& self.terminal_font@.len() >= NUM_GLYPHS * TERMINAL_FONT_HEIGHT
        &&& 0 <= self.graph_origin.x <= 0x20000
        &&& 0 <= self.graph_origin.y <= 0x20000
        &&& plot_point_ok(self.p1)
        &&& plot_point_ok(self.p2)
        &&& plot_point_ok(self.p3)
        &&& self.sprites.wf()
        &&& self.audio_channels.wf()
    }

    /// Everything but the framebuffer is as in `other`.
    pub open spec fn same_but_fb(&self, other: &VDP) -> bool {
        &&& self.cursor == other.cursor
        &&& self.mode_index == other.mode_index
        &&& self.current_video_mode == other.current_video_mode
        &&& self.foreground_color == other.foreground_color
        &&& self.background_color == other.background_color
        &&& self.graph_color == other.graph_color
        &&& self.cursor_enabled == other.cursor_enabled
        &&& self.logical_coords == other.logical_coords
        &&& self.terminal_mode == other.terminal_mode
        &&& self.terminal_underline == other.terminal_underline
        &&& self.terminal_reverse == other.terminal_reverse
        &&& self.p1 == other.p1
        &&& self.p2 == other.p2
        &&& self.p3 == other.p3
        &&& self.graph_origin == other.graph_origin
        &&& self.font_data@ == other.font_data@
        &&& self.terminal_font@ == other.terminal_font@
        &&& self.sprites == other.sprites
        &&& self.audio_channels == other.audio_channels
        &&& self.pending@ == other.pending@
    }

    /// Everything but the framebuffer and the cursor is as in `other`.
    pub open spec fn same_but_screen(&self, other: &VDP) -> bool {
        self.same_but_fb(&VDP { cursor: self.cursor, fb: self.fb, ..*other })
    }

    /// Color of the set pixels of glyphs.
    pub open spec fn ink(&self) -> Color {
        if self.terminal_reverse {
            self.background_color
        } else {
            self.foreground_color
        }
    }

    /// Color of the clear pixels of glyphs.
    pub open spec fn paper(&self) -> Color {
        if self.terminal_reverse {
            self.foreground_color
        } else {
            self.background_color
        }
    }

    /// Whether pixel `c` (0 is leftmost) of row `r` of the glyph for `ascii`
    /// is set: bit 7 of a row byte is its leftmost pixel, and with underline
    /// on the last row is fully set.
    pub open spec fn glyph_on(&self, ascii: u8, r: int, c: int) -> bool {
        let fh = self.cursor.font_height as int;
        let byte = if self.terminal_underline && r == fh - 1 {
            0xffu8
        } else {
            self.font_data@[(ascii - 32) * fh + r]
        };
        byte & (0x80u8 >> (c as u8)) != 0
    }

    /// The framebuffer pixel at `(x, y)` after the glyph for `ascii` was
    /// drawn in the cell at the cursor.
    pub open spec fn glyph_pixel(&self, ascii: u8, x: int, y: int) -> Color {
        let cx = self.cursor.position_x as int;
        let cy = self.cursor.position_y as int;
        if ascii >= 32 && in_rect(x, y, cx, cy, FONT_WIDTH as int, self.cursor.font_height as int) {
            if self.glyph_on(ascii, y - cy, x - cx) {
                self.ink()
            } else {
                self.paper()
            }
        } else {
            self.fb.pixel(x, y)
        }
    }

    /// A coprocessor in mode 1 with a blank screen, drawing with the native
    /// font `font_data`; `terminal_font` is the font of terminal mode. Each
    /// table holds the rows of the glyphs 0x20 to 0xFF in turn (8 rows a
    /// glyph for the native font, 19 for the terminal font).
    pub fn new(font_data: Vec<u8>, terminal_font: Vec<u8>) -> (v: VDP)
        requires
            font_data@.len() >= NUM_GLYPHS * FONT_HEIGHT,
            terminal_font@.len() >= NUM_GLYPHS * TERMINAL_FONT_HEIGHT,
        ensures
            v.wf(),
            v.mode_index == 1,
            v.pending@.len() == 0,
            !v.terminal_mode,
            v.logical_coords,
            v.foreground_color == (Color { r: 255, g: 255, b: 255 }),
            v.background_color == (Color { r: 0, g: 0, b: 0 }),
            v.fb.all((Color { r: 0, g: 0, b: 0 })),
            v.fb.width == 512 && v.fb.height == 384,
            v.current_video_mode == mode_spec(1),
            v.graph_color == (Color { r: 255, g: 255, b: 255 }),
            v.cursor_enabled,
            !v.terminal_underline && !v.terminal_reverse,
            v.cursor == (Cursor {
                position_x: 0,
                position_y: 0,
                screen_width: 512,
                screen_height: 384,
                font_width: FONT_WIDTH,
                font_height: FONT_HEIGHT,
                paged_mode: false,
                paged_count: PageState::Counting(0),
            }),
            v.p1 == (Point { x: 0, y: 0 }),
            v.p2 == (Point { x: 0, y: 0 }),
            v.p3 == (Point { x: 0, y: 0 }),
            v.graph_origin == (Point { x: 0, y: 0 }),
            v.font_data@ == font_data@,
            v.terminal_font@ == terminal_font@,
            v.sprites.num_sprites == 0,
            v.sprites.num_sprites_shown == 0,
            v.sprites.current_sprite == 0,
            v.sprites.current_bitmap == 0,
            forall|i: int| 0 <= i < NUM_BITMAPS ==> (#[trigger] v.sprites.bitmaps@[i]).is_none(),
            forall|i: int|
                0 <= i < NUM_SPRITES ==> (#[trigger] v.sprites.sprites@[i]).frames@.len() == 0
                    && !v.sprites.sprites@[i].visible,
            forall|c: int| 0 <= c < 3 ==> !#[trigger] v.audio_channels.channels_busy@[c],
    {
        let black = Color::rgb(0, 0, 0);
        let white = Color::rgb(255, 255, 255);
        VDP {
            cursor: Cursor::new(512, 384, FONT_WIDTH, FONT_HEIGHT),
            fb: FrameBuffer::new(512, 384, black),
            mode_index: 1,
            current_video_mode: VideoMode {
                colors: 16,
                screen_width: 512,
                screen_height: 384,
                refresh_rate: 60,
            },
            foreground_color: white,
            background_color: black,
            graph_color: white,
            cursor_enabled: true,
            logical_coords: true,
            terminal_mode: false,
            terminal_underline: false,
            terminal_reverse: false,
            p1: Point::new(0, 0),
            p2: Point::new(0, 0),
            p3: Point::new(0, 0),
            graph_origin: Point::new(0, 0),
            font_data,
            terminal_font,
            sprites: SpriteSystem::new(),
            audio_channels: AudioChannels::new(),
            pending: Vec::new(),
        }
    }

    /// Clears the screen to the background color, deactivates the sprites
    /// and puts the cursor at the top left with the page count reset.
    pub fn cls(&mut self)
        requires
            old(self).wf(),
        ensures
            final(self).wf(),
            final(self).fb.same_size(&old(self).fb),
            final(self).fb.all(old(self).background_color),
            final(self).cursor == (Cursor {
                position_x: 0,
                position_y: 0,
                paged_count: PageState::Counting(0),
                ..old(self).cursor
            }),
            final(self).sprites == (SpriteSystem {
                num_sprites: 0,
                num_sprites_shown: 0,
                ..old(self).sprites
            }),
            final(self).same_but_fb(
                &VDP { cursor: final(self).cursor, sprites: final(self).sprites, ..*old(self) },
            ),
    {
        self.fb = FrameBuffer::new(self.fb.width, self.fb.height, self.background_color);
        self.sprites.num_sprites = 0;
        self.sprites.num_sprites_shown = 0;
        self.cursor.position_x = 0;
        self.cursor.position_y = 0;
        self.cursor.paged_count = PageState::Counting(0);
    }

    /// Clears the screen to the background color.
    pub fn clg(&mut self)
        requires
            old(self).wf(),
        ensures
            final(self).wf(),
            final(self).fb.same_size(&old(self).fb),
            final(self).fb.all(old(self).background_color),
            final(self).same_but_fb(old(self)),
    {
        self.fb = FrameBuffer::new(self.fb.width, self.fb.height, self.background_color);
    }

    /// Switches to mode `mode`: a new blank screen of its size, the cursor
    /// at the top left, the plot history and the graphics origin at 0.
    pub fn change_mode(&mut self, mode: u8)
        requires
            old(self).wf(),
            mode < NUM_MODES,
        ensures
            final(self).wf(),
            final(self).mode_index == mode,
            final(self).current_video_mode == mode_spec(mode as int),
            final(self).fb.all(old(self).background_color),
            final(self).cursor == (Cursor {
                position_x: 0,
                position_y: 0,
                screen_width: mode_spec(mode as int).screen_width as i32,
                screen_height: mode_spec(mode as int).screen_height as i32,
                paged_count: PageState::Counting(0),
                ..old(self).cursor
            }),
            final(self).p1 == (Point { x: 0, y: 0 }),
            final(self).p2 == (Point { x: 0, y: 0 }),
            final(self).p3 == (Point { x: 0, y: 0 }),
            final(self).graph_origin == (Point { x: 0, y: 0 }),
            final(self).sprites == (SpriteSystem {
                num_sprites: 0,
                num_sprites_shown: 0,
                ..old(self).sprites
            }),
            final(self).same_but_fb(
                &VDP {
                    cursor: final(self).cursor,
                    mode_index: final(self).mode_index,
                    current_video_mode: final(self).current_video_mode,
                    p1: final(self).p1,
                    p2: final(self).p2,
                    p3: final(self).p3,
                    graph_origin: final(self).graph_origin,
                    sprites: final(self).sprites,
                    ..*old(self)
                },
            ),
    {
        let m = match video_mode(mode) {
            Some(m) => m,
            None => { return; },
        };
        self.mode_index = mode;
        self.current_video_mode = m;
        self.cursor.screen_width = m.screen_width as i32;
        self.cursor.screen_height = m.screen_height as i32;
        self.cursor.position_x = 0;
        self.cursor.position_y = 0;
        self.cursor.paged_count = PageState::Counting(0);
        self.fb = FrameBuffer::new(
            m.screen_width as usize,
            m.screen_height as usize,
            self.background_color,
        );
        self.cls();
        self.p1 = Point::new(0, 0);
        self.p2 = Point::new(0, 0);
        self.p3 = Point::new(0, 0);
        self.graph_origin = Point::new(0, 0);
    }

    /// Sets the foreground color (`c < 128`) or the background color
    /// (`c >= 128`) to palette entry `c`, wrapping around the palette.
    pub fn color(&mut self, c: u8)
        requires
            old(self).wf(),
        ensures
            final(self).wf(),
            c < 128 ==> *final(self) == (VDP {
                foreground_color: palette_color(old(self).current_video_mode.colors, c as int),
                ..*old(self)
            }),
            c >= 128 ==> *final(self) == (VDP {
                background_color: palette_color(old(self).current_video_mode.colors, c as int),
                ..*old(self)
            }),
    {
        let col = palette_color_of(self.current_video_mode.colors, c as usize);
        if c < 128 {
            self.foreground_color = col;
        } else {
            self.background_color = col;
        }
    }

    /// Sets the graphics color to palette entry `c`, wrapping around the
    /// palette.
    pub fn gcolor(&mut self, _m: u8, c: u8)
        requires
            old(self).wf(),
        ensures
            *final(self) == (VDP {
                graph_color: palette_color(old(self).current_video_mode.colors, c as int),
                ..*old(self)
            }),
    {
        self.graph_color = palette_color_of(self.current_video_mode.colors, c as usize);
    }

    /// Draws the glyph for `ascii` (from 0x20 on) in the cell at the cursor:
    /// set pixels in the ink color, the rest of the cell in the paper color.
    pub fn render_char(&mut self, ascii: u8)
        requires
            old(self).wf(),
        ensures
            final(self).wf(),
            final(self).fb.same_size(&old(self).fb),
            final(self).same_but_fb(old(self)),
            forall|x: int, y: int| #[trigger]
                final(self).fb.in_bounds(x, y) ==> final(self).fb.pixel(x, y) == old(self).glyph_pixel(ascii, x, y),
    {
        if ascii < 32 {
            return;
        }
        let ghost old_v = *self;
        let fh = self.cursor.font_height;
        let cx = self.cursor.position_x;
        let cy = self.cursor.position_y;
        assert((ascii - 32) * fh <= 223 * TERMINAL_FONT_HEIGHT) by (nonlinear_arith)
            requires
                32 <= ascii <= 255,
                0 < fh <= TERMINAL_FONT_HEIGHT,
        ;
        let base: usize = (ascii - 32) as usize * fh as usize;
        let ink = if self.terminal_reverse { self.background_color } else { self.foreground_color };
        let paper = if self.terminal_reverse { self.foreground_color } else { self.background_color };
        let mut r: i32 = 0;
        while r < fh
            invariant
                old_v.wf(),
                self.wf(),
                self.fb.same_size(&old_v.fb),
                self.same_but_fb(&old_v),
                ascii >= 32,
                fh == old_v.cursor.font_height,
                cx == old_v.cursor.position_x,
                cy == old_v.cursor.position_y,
                base == (ascii - 32) * fh,
                ink == old_v.ink(),
                paper == old_v.paper(),
                0 <= r <= fh,
                forall|x: int, y: int| #[trigger]
                    self.fb.in_bounds(x, y) ==> self.fb.pixel(x, y) == if y < cy + r {
                        old_v.glyph_pixel(ascii, x, y)
                    } else {
                        old_v.fb.pixel(x, y)
                    },
            decreases fh - r,
        {
            assert(base + r < NUM_GLYPHS * fh) by (nonlinear_arith)
                requires
                    base == (ascii - 32) * fh,
                    32 <= ascii <= 255,
                    0 <= r < fh,
            ;
            let byte: u8 = if self.terminal_underline && r == fh - 1 {
                0xff
            } else {
                self.font_data[base + r as usize]
            };
            let mut c: i32 = 0;
            while c < FONT_WIDTH
                invariant
                    old_v.wf(),
                    self.wf(),
                    self.fb.same_size(&old_v.fb),
                    self.same_but_fb(&old_v),
                    ascii >= 32,
                    fh == old_v.cursor.font_height,
                    cx == old_v.cursor.position_x,
                    cy == old_v.cursor.position_y,
                    base == (ascii - 32) * fh,
                    ink == old_v.ink(),
                    paper == old_v.paper(),
                    0 <= r < fh,
                    byte == if old_v.terminal_underline && r == fh - 1 {
                        0xffu8
                    } else {
                        old_v.font_data@[(ascii - 32) * fh + r]
                    },
                    0 <= c <= FONT_WIDTH,
                    forall|x: int, y: int| #[trigger]
                        self.fb.in_bounds(x, y) ==> self.fb.pixel(x, y) == if y < cy + r || (y == cy
                            + r && cx <= x < cx + c) {
                            old_v.glyph_pixel(ascii, x, y)
                        } else {
                            old_v.fb.pixel(x, y)
                        },
                decreases FONT_WIDTH - c,
            {
                let on = byte & (0x80u8 >> (c as u8)) != 0;
                let ghost prev = self.fb;
                self.fb.set_pixel(cx + c, cy + r, if on { ink } else { paper });
                assert forall|x: int, y: int| #[trigger]
                    self.fb.in_bounds(x, y) implies prev.in_bounds(x, y) && self.fb.pixel(x, y)
                        == if x == cx + c && y == cy + r {
                        if on {
                            ink
                        } else {
                            paper
                        }
                    } else {
                        prev.pixel(x, y)
                    } by {}
                c = c + 1;
            }
            r = r + 1;
        }
    }

    /// Whether the cursor row reaches below the screen, so that the screen
    /// must scroll; never while paged mode waits for continuation.
    pub open spec fn scroll_needed(&self) -> bool {
        self.cursor.needs_scroll()
    }

    /// The framebuffer pixel at `(x, y)` once the screen scrolled up by one
    /// glyph height from the screen whose pixels `p` gives.
    pub open spec fn scrolled_pixel(&self, p: spec_fn(int, int) -> Color, x: int, y: int) -> Color {
        if y + self.cursor.font_height < self.fb.height {
            p(x, y + self.cursor.font_height)
        } else {
            self.background_color
        }
    }

    /// The cursor after it moved to `c` and the screen scrolled if needed.
    pub open spec fn settle(c: Cursor) -> Cursor {
        if c.needs_scroll() {
            c.scrolled()
        } else {
            c
        }
    }

    /// The framebuffer pixel at `(x, y)` after printing `ascii`: the glyph
    /// drawn at the cursor, then the screen scrolled if the cursor moved
    /// below it.
    pub open spec fn printed_pixel(&self, ascii: u8, x: int, y: int) -> Color {
        if self.cursor.moved_right().needs_scroll() {
            self.scrolled_pixel(|px: int, py: int| self.glyph_pixel(ascii, px, py), x, y)
        } else {
            self.glyph_pixel(ascii, x, y)
        }
    }

    /// The framebuffer pixel at `(x, y)` after a line feed.
    pub open spec fn fed_pixel(&self, x: int, y: int) -> Color {
        if self.cursor.moved_down().needs_scroll() {
            self.scrolled_pixel(|px: int, py: int| self.fb.pixel(px, py), x, y)
        } else {
            self.fb.pixel(x, y)
        }
    }

    /// When the cursor row reaches below the screen, scrolls the screen up
    /// by one glyph height: each row shows the row one glyph height below
    /// it, the rows uncovered at the bottom take the background color, and
    /// the cursor moves up by the same height.
    pub fn check_scrolling_needed(&mut self)
        requires
            old(self).wf(),
        ensures
            final(self).wf(),
            final(self).same_but_screen(old(self)),
            final(self).fb.same_size(&old(self).fb),
            !old(self).scroll_needed() ==> *final(self) == *old(self),
            old(self).scroll_needed() ==> final(self).cursor == old(self).cursor.scrolled(),
            old(self).scroll_needed() ==> forall|x: int, y: int| #[trigger]
                final(self).fb.in_bounds(x, y) ==> final(self).fb.pixel(x, y) == old(
                    self,
                ).fb.shifted_pixel(
                    0,
                    0,
                    -old(self).cursor.font_height,
                    old(self).background_color,
                    x,
                    y,
                ),
    {
        if self.cursor.paged_mode && self.cursor.paged_count == PageState::AwaitingContinue {
            return;
        }
        let overdraw = self.cursor.position_y - self.cursor.screen_height + self.cursor.font_height;
        if overdraw > 0 {
            let fh = self.cursor.font_height;
            self.fb = self.fb.shifted(0, 0, -fh, self.background_color);
            self.cursor.position_y = self.cursor.position_y - fh;
        }
    }

    /// Scrolls the screen by `delta` pixels: right (direction 0), left (1),
    /// down (2) or up (3); the uncovered area takes the background color.
    /// Other directions leave the screen as it is.
    pub fn scroll(&mut self, _fullscreen: bool, direction: u8, delta: u8)
        requires
            old(self).wf(),
        ensures
            final(self).wf(),
            final(self).same_but_fb(old(self)),
            final(self).fb.same_size(&old(self).fb),
            forall|x: int, y: int| #[trigger]
                final(self).fb.in_bounds(x, y) ==> final(self).fb.pixel(x, y) == old(
                    self,
                ).fb.shifted_pixel(
                    0,
                    scroll_dx(direction, delta),
                    scroll_dy(direction, delta),
                    old(self).background_color,
                    x,
                    y,
                ),
    {
        let d = delta as i32;
        let dx: i32 = if direction == 0 { d } else if direction == 1 { -d } else { 0 };
        let dy: i32 = if direction == 2 { d } else if direction == 3 { -d } else { 0 };
        self.fb = self.fb.shifted(0, dx, dy, self.background_color);
    }

    /// Clears, in the background color, the part of the cursor's text row
    /// that `n` selects: from the cursor to the end of the row (0), from the
    /// start of the row to the cursor cell included (1), or the whole row.
    pub fn clear_line(&mut self, n: u8)
        requires
            old(self).wf(),
        ensures
            final(self).wf(),
            final(self).same_but_fb(old(self)),
            final(self).fb.same_size(&old(self).fb),
            forall|x: int, y: int| #[trigger]
                final(self).fb.in_bounds(x, y) ==> final(self).fb.pixel(x, y) == if in_rect(
                    x,
                    y,
                    line_clear_x(old(self).cursor, n),
                    old(self).cursor.position_y as int,
                    line_clear_w(old(self).cursor, n),
                    old(self).cursor.font_height as int,
                ) {
                    old(self).background_color
                } else {
                    old(self).fb.pixel(x, y)
                },
    {
        let posy = self.cursor.position_y;
        let dy = self.cursor.font_height;
        let mut posx: i32 = 0;
        let mut dx: i32 = self.cursor.screen_width;
        if n == 0 {
            posx = self.cursor.position_x;
            dx = self.cursor.screen_width - self.cursor.position_x;
        } else if n == 1 {
            dx = self.cursor.position_x + self.cursor.font_width;
        }
        let bg = self.background_color;
        self.fb.fill_rect(posx, posy, dx, dy, bg);
    }

    /// Clears rows `start` to `start + h - 1` in the background color.
    pub fn clear_lines(&mut self, start: i32, h: i32)
        requires
            old(self).wf(),
        ensures
            final(self).wf(),
            final(self).same_but_fb(old(self)),
            final(self).fb.same_size(&old(self).fb),
            forall|x: int, y: int| #[trigger]
                final(self).fb.in_bounds(x, y) ==> final(self).fb.pixel(x, y) == if start <= y
                    < start + h {
                    old(self).background_color
                } else {
                    old(self).fb.pixel(x, y)
                },
    {
        let w = self.cursor.screen_width;
        let bg = self.background_color;
        self.fb.fill_rect(0, start, w, h, bg);
    }

    /// Deletes `n` text rows at the cursor row: the rows below move up and
    /// the bottom takes the background color.
    pub fn delete_lines(&mut self, n: u8)
        requires
            old(self).wf(),
        ensures
            final(self).wf(),
            final(self).same_but_fb(old(self)),
            final(self).fb.same_size(&old(self).fb),
            forall|x: int, y: int| #[trigger]
                final(self).fb.in_bounds(x, y) ==> final(self).fb.pixel(x, y) == old(
                    self,
                ).fb.shifted_pixel(
                    old(self).cursor.position_y as int,
                    0,
                    -(n * old(self).cursor.font_height),
                    old(self).background_color,
                    x,
                    y,
                ),
    {
        assert(n * self.cursor.font_height <= 255 * TERMINAL_FONT_HEIGHT) by (nonlinear_arith)
            requires
                n <= 255,
                0 < self.cursor.font_height <= TERMINAL_FONT_HEIGHT,
        ;
        let blanks = n as i32 * self.cursor.font_height;
        self.fb = self.fb.shifted(self.cursor.position_y, 0, -blanks, self.background_color);
    }

    /// Inserts `n` blank text rows at the cursor row: the rows from there
    /// move down, and what moves past the bottom is lost.
    pub fn insert_lines(&mut self, n: u8)
        requires
            old(self).wf(),
        ensures
            final(self).wf(),
            final(self).same_but_fb(old(self)),
            final(self).fb.same_size(&old(self).fb),
            forall|x: int, y: int| #[trigger]
                final(self).fb.in_bounds(x, y) ==> final(self).fb.pixel(x, y) == old(
                    self,
                ).fb.shifted_pixel(
                    old(self).cursor.position_y as int,
                    0,
                    n * old(self).cursor.font_height,
                    old(self).background_color,
                    x,
                    y,
                ),
    {
        assert(n * self.cursor.font_height <= 255 * TERMINAL_FONT_HEIGHT) by (nonlinear_arith)
            requires
                n <= 255,
                0 < self.cursor.font_height <= TERMINAL_FONT_HEIGHT,
        ;
        let blanks = n as i32 * self.cursor.font_height;
        self.fb = self.fb.shifted(self.cursor.position_y, 0, blanks, self.background_color);
    }

    /// Moves the cursor left and blanks the cell there.
    pub fn backspace(&mut self)
        requires
            old(self).wf(),
        ensures
            final(self).wf(),
            final(self).same_but_screen(old(self)),
            final(self).fb.same_size(&old(self).fb),
            ({
                let moved = VDP {
                    cursor: Cursor {
                        position_x: if old(self).cursor.position_x - FONT_WIDTH < 0 {
                            0
                        } else {
                            (old(self).cursor.position_x - FONT_WIDTH) as i32
                        },
                        ..old(self).cursor
                    },
                    ..*old(self)
                };
                final(self).cursor == moved.cursor && forall|x: int, y: int| #[trigger]
                    final(self).fb.in_bounds(x, y) ==> final(self).fb.pixel(x, y)
                        == moved.glyph_pixel(32, x, y)
            }),
    {
        self.cursor.left();
        self.render_char(32);
    }

    /// Enters terminal mode: the terminal font, mode 3, grey text. The byte
    /// 0 is answered to the host.
    pub fn switch_terminal_mode(&mut self) -> (out: Vec<u8>)
        requires
            old(self).wf(),
        ensures
            final(self).wf(),
            final(self).terminal_mode,
            final(self).mode_index == TERMINAL_MODE,
            final(self).cursor.font_height == TERMINAL_FONT_HEIGHT,
            final(self).font_data@ == old(self).terminal_font@,
            final(self).foreground_color == (Color { r: 170, g: 170, b: 170 }),
            final(self).fb.all(old(self).background_color),
            final(self).fb.width == 640 && final(self).fb.height == 480,
            final(self).cursor == (Cursor {
                position_x: 0,
                position_y: 0,
                screen_width: 640,
                screen_height: 480,
                font_width: FONT_WIDTH,
                font_height: TERMINAL_FONT_HEIGHT,
                paged_count: PageState::Counting(0),
                ..old(self).cursor
            }),
            final(self).p1 == (Point { x: 0, y: 0 }),
            final(self).p2 == (Point { x: 0, y: 0 }),
            final(self).p3 == (Point { x: 0, y: 0 }),
            final(self).graph_origin == (Point { x: 0, y: 0 }),
            final(self).sprites == (SpriteSystem {
                num_sprites: 0,
                num_sprites_shown: 0,
                ..old(self).sprites
            }),
            final(self).same_but_fb(
                &VDP {
                    cursor: final(self).cursor,
                    mode_index: final(self).mode_index,
                    current_video_mode: final(self).current_video_mode,
                    foreground_color: final(self).foreground_color,
                    terminal_mode: true,
                    font_data: final(self).font_data,
                    p1: final(self).p1,
                    p2: final(self).p2,
                    p3: final(self).p3,
                    graph_origin: final(self).graph_origin,
                    sprites: final(self).sprites,
                    ..*old(self)
                },
            ),
            out@ == seq![0u8],
    {
        let mut font: Vec<u8> = Vec::new();
        let mut i: usize = 0;
        while i < self.terminal_font.len()
            invariant
                0 <= i <= self.terminal_font@.len(),
                font@ == self.terminal_font@.subrange(0, i as int),
            decreases self.terminal_font@.len() - i,
        {
            font.push(self.terminal_font[i]);
            i = i + 1;
        }
        assert(font@ == self.terminal_font@.subrange(0, self.terminal_font@.len() as int));
        assert(font@ =~= self.terminal_font@);
        self.font_data = font;
        self.cursor.font_height = TERMINAL_FONT_HEIGHT;
        self.cursor.font_width = FONT_WIDTH;
        if let PageState::Counting(_) = self.cursor.paged_count {
            self.cursor.paged_count = PageState::Counting(0);
        }
        self.change_mode(TERMINAL_MODE);
        self.foreground_color = Color::rgb(170, 170, 170);
        self.terminal_mode = true;
        vec![0]
    }

    /// The pixel that plot coordinates `(x, y)` map to.
    pub open spec fn plot_target(&self, x: i16, y: i16) -> Point {
        translate_spec(
            scale_spec(
                Point { x: x as i32, y: y as i32 },
                self.logical_coords,
                self.cursor.screen_width as int,
                self.cursor.screen_height as int,
            ),
            self.logical_coords,
            self.cursor.screen_height as int,
            self.graph_origin,
        )
    }

    /// Plots at `(x, y)`: the mapped point becomes the newest of the three
    /// plot points, then `mode` decides what is drawn in the graphics color:
    /// nothing (4), a line from the previous point (5), a dot (64 to 71), a
    /// filled triangle on the three points (80 to 87). For the circle modes
    /// (144 to 151) the circle to draw is returned, centred on the previous
    /// point: its radius is the distance from the origin to the new point
    /// (below 148) or between the two points.
    pub fn plot(&mut self, mode: u8, x: i16, y: i16) -> (circle: Option<CircleRequest>)
        requires
            old(self).wf(),
        ensures
            final(self).wf(),
            final(self).fb.same_size(&old(self).fb),
            final(self).p3 == old(self).p2,
            final(self).p2 == old(self).p1,
            final(self).p1 == old(self).plot_target(x, y),
            final(self).same_but_fb(
                &VDP { p1: final(self).p1, p2: final(self).p2, p3: final(self).p3, ..*old(self) },
            ),
            circle == if 144 <= mode <= 151 {
                Some(
                    CircleRequest { center: old(self).p1, edge: final(self).p1, two_point: mode >= 148 },
                )
            } else {
                None::<CircleRequest>
            },
            forall|px: int, py: int| #[trigger]
                final(self).fb.in_bounds(px, py) ==> final(self).fb.pixel(px, py) == if plot_draws(
                    mode,
                    final(self).p1,
                    final(self).p2,
                    final(self).p3,
                    px,
                    py,
                ) {
                    old(self).graph_color
                } else {
                    old(self).fb.pixel(px, py)
                },
    {
        let s = scale(
            Point::new(x as i32, y as i32),
            self.logical_coords,
            self.cursor.screen_width,
            self.cursor.screen_height,
        );
        let p = translate(s, self.logical_coords, self.cursor.screen_height, self.graph_origin);
        self.p3 = self.p2;
        self.p2 = self.p1;
        self.p1 = p;
        let c = self.graph_color;
        if mode == 5 {
            draw_segment(&mut self.fb, self.p1, self.p2, c);
        } else if 64 <= mode && mode <= 71 {
            self.fb.set_pixel(self.p1.x, self.p1.y, c);
        } else if 80 <= mode && mode <= 87 {
            let (top, mid, bot) = sort_by_y(self.p1, self.p2, self.p3);
            fill_triangle(&mut self.fb, top, mid, bot, c);
        } else if 144 <= mode && mode <= 151 {
            return Some(CircleRequest { center: self.p2, edge: self.p1, two_point: mode >= 148 });
        }
        None
    }

    /// Draws, in the graphics color, the closed outline through `points`:
    /// a segment from each point to the next and from the last to the first.
    pub fn draw_outline(&mut self, points: &Vec<Point>)
        requires
            old(self).wf(),
            points@.len() > 0,
            forall|i: int| 0 <= i < points@.len() ==> (#[trigger] points@[i]).bounded(),
        ensures
            final(self).wf(),
            final(self).fb.same_size(&old(self).fb),
            final(self).same_but_fb(old(self)),
            forall|px: int, py: int| #[trigger]
                final(self).fb.in_bounds(px, py) ==> final(self).fb.pixel(px, py) == if on_outline(
                    points@,
                    points@.len() as int,
                    px,
                    py,
                ) {
                    old(self).graph_color
                } else {
                    old(self).fb.pixel(px, py)
                },
    {
        let ghost old_v = *self;
        let n = points.len();
        let c = self.graph_color;
        let mut i: usize = 0;
        while i < n
            invariant
                old_v.wf(),
                self.wf(),
                self.fb.same_size(&old_v.fb),
                self.same_but_fb(&old_v),
                c == old_v.graph_color,
                n == points@.len(),
                n > 0,
                forall|k: int| 0 <= k < points@.len() ==> (#[trigger] points@[k]).bounded(),
                0 <= i <= n,
                forall|px: int, py: int| #[trigger]
                    self.fb.in_bounds(px, py) ==> self.fb.pixel(px, py) == if on_outline(
                        points@,
                        i as int,
                        px,
                        py,
                    ) {
                        c
                    } else {
                        old_v.fb.pixel(px, py)
                    },
            decreases n - i,
        {
            let a = points[i];
            let b = if i + 1 < n { points[i + 1] } else { points[0] };
            let ghost prev = self.fb;
            draw_segment(&mut self.fb, a, b, c);
            proof {
                assert forall|px: int, py: int|
                    on_outline(points@, i + 1, px, py) == (on_outline(points@, i as int, px, py)
                        || on_segment(a, b, px, py)) by {
                    if on_segment(a, b, px, py) {
                        assert(outline_segment(points@, i as int, px, py));
                    }
                    if on_outline(points@, i + 1, px, py) && !on_outline(points@, i as int, px, py) {
                        let k = choose|k: int| 0 <= k < i + 1 && outline_segment(points@, k, px, py);
                        assert(k == i);
                    }
                }
                assert forall|px: int, py: int| #[trigger]
                    self.fb.in_bounds(px, py) implies prev.in_bounds(px, py) by {}
            }
            i = i + 1;
        }
    }

    /// Whether text cell `(x, y)` lies on the screen.
    pub open spec fn cell_on_screen(&self, x: i16, y: i16) -> bool {
        &&& 0 <= x < self.cursor.screen_width / self.cursor.font_width
        &&& 0 <= y < self.cursor.screen_height / self.cursor.font_height
    }

    /// The 8 by 8 pixel pattern of text cell `(x, y)`: one byte a row, bit 7
    /// for the leftmost pixel, a bit set where the pixel has the foreground
    /// color.
    pub open spec fn cell_pattern(&self, x: int, y: int) -> Seq<u8> {
        Seq::new(
            8,
            |r: int| row_bits(&self.fb, self.foreground_color, x * 8, y * 8 + r, 8) as u8,
        )
    }

    /// The character in text cell `(x, y)`: the first of the 96 native
    /// glyphs from 0x20 whose rows match the cell's pattern, or 0 when none
    /// does or the cell is off the screen.
    pub open spec fn screen_char(&self, x: i16, y: i16) -> u8 {
        if self.cell_on_screen(x, y) {
            first_glyph_from(self.font_data@, self.cell_pattern(x as int, y as int), 0)
        } else {
            0
        }
    }

    /// The character in text cell `(x, y)`, read back from the screen.
    pub fn get_screen_char(&self, x: i16, y: i16) -> (c: u8)
        requires
            self.wf(),
        ensures
            c == self.screen_char(x, y),
    {
        let cols = self.cursor.screen_width / self.cursor.font_width;
        let rows = self.cursor.screen_height / self.cursor.font_height;
        if !(x >= 0 && (x as i32) < cols && y >= 0 && (y as i32) < rows) {
            return 0;
        }
        assert(self.cell_on_screen(x, y));
        let fg = self.foreground_color;
        let cx = x as usize * 8;
        let cy = y as usize * 8;
        assert(cy + 8 <= self.fb.height) by (nonlinear_arith)
            requires
                cy == y * 8,
                0 <= y < rows,
                rows == self.cursor.screen_height / self.cursor.font_height,
                self.cursor.font_height >= 8,
                self.fb.height == self.cursor.screen_height > 0,
        ;
        assert(cx + 8 <= self.fb.width) by (nonlinear_arith)
            requires
                cx == x * 8,
                0 <= x < cols,
                cols == self.cursor.screen_width / 8,
                self.fb.width == self.cursor.screen_width > 0,
        ;
        let mut pat: Vec<u8> = Vec::new();
        let mut r: usize = 0;
        while r < 8
            invariant
                self.wf(),
                fg == self.foreground_color,
                cx == x * 8,
                cy == y * 8,
                cx + 8 <= self.fb.width,
                cy + 8 <= self.fb.height,
                0 <= r <= 8,
                pat@.len() == r,
                forall|k: int| 0 <= k < r ==> #[trigger] pat@[k] == self.cell_pattern(x as int, y as int)[k],
            decreases 8 - r,
        {
            let mut b: u32 = 0;
            let mut k: usize = 0;
            while k < 8
                invariant
                    self.wf(),
                    fg == self.foreground_color,
                    cx + 8 <= self.fb.width,
                    cy + 8 <= self.fb.height,
                    0 <= r < 8,
                    0 <= k <= 8,
                    b == row_bits(&self.fb, fg, cx as int, (cy + r) as int, k as int),
                    b < pow2_8(k as int),
                decreases 8 - k,
            {
                let on: u32 = if self.fb.get(cx + k, cy + r) == fg { 1 } else { 0 };
                b = b * 2 + on;
                k = k + 1;
            }
            pat.push(b as u8);
            r = r + 1;
        }
        assert(pat@ =~= self.cell_pattern(x as int, y as int));
        let mut i: usize = 0;
        while i < 96
            invariant
                self.wf(),
                self.cell_on_screen(x, y),
                pat@ == self.cell_pattern(x as int, y as int),
                0 <= i <= 96,
                first_glyph_from(self.font_data@, pat@, 0) == first_glyph_from(
                    self.font_data@,
                    pat@,
                    i as int,
                ),
            decreases 96 - i,
        {
            let mut same = true;
            let mut r: usize = 0;
            while r < 8
                invariant
                    self.wf(),
                    pat@.len() == 8,
                    0 <= i < 96,
                    0 <= r <= 8,
                    same == forall|k: int| 0 <= k < r ==> self.font_data@[i * 8 + k] == pat@[k],
                decreases 8 - r,
            {
                if self.font_data[i * 8 + r] != pat[r] {
                    same = false;
                }
                r = r + 1;
            }
            if same {
                return (i + 32) as u8;
            }
            i = i + 1;
        }
        0
    }

    /// The color of the pixel that plot coordinates `(x, y)` map to; black
    /// off the screen.
    pub fn get_screen_pixel(&self, x: i16, y: i16) -> (c: Color)
        requires
            self.wf(),
        ensures
            c == if self.fb.in_bounds(self.plot_target(x, y).x as int, self.plot_target(x, y).y as int) {
                self.fb.pixel(self.plot_target(x, y).x as int, self.plot_target(x, y).y as int)
            } else {
                Color { r: 0, g: 0, b: 0 }
            },
    {
        let s = scale(
            Point::new(x as i32, y as i32),
            self.logical_coords,
            self.cursor.screen_width,
            self.cursor.screen_height,
        );
        let p = translate(s, self.logical_coords, self.cursor.screen_height, self.graph_origin);
        if p.x >= 0 && (p.x as usize) < self.fb.width && p.y >= 0 && (p.y as usize) < self.fb.height {
            self.fb.get(p.x as usize, p.y as usize)
        } else {
            Color::rgb(0, 0, 0)
        }
    }

    /// The first index of the current palette that selects `rgb`, or 255
    /// when none does.
    pub fn palette_index(&self, rgb: Color) -> (i: u8)
        requires
            self.wf(),
        ensures
            i == palette_index_spec(self.current_video_mode.colors, rgb),
    {
        let colors = self.current_video_mode.colors;
        let n = palette_len(colors);
        let mut k: usize = 0;
        while k < n
            invariant
                n == palette(colors).len(),
                n <= 64,
                0 <= k <= n,
                palette_index_from(colors, rgb, 0) == palette_index_from(colors, rgb, k as int),
                colors == self.current_video_mode.colors,
            decreases n - k,
        {
            if palette_color_of(colors, k) == rgb {
                return k as u8;
            }
            k = k + 1;
        }
        255
    }

    /// Packet giving the color of the pixel at plot coordinates `(x, y)` and
    /// its palette index.
    pub fn send_screen_pixel(&self, x: i16, y: i16) -> (out: Vec<u8>)
        requires
            self.wf(),
        ensures
            ({
                let t = self.plot_target(x, y);
                let c = if self.fb.in_bounds(t.x as int, t.y as int) {
                    self.fb.pixel(t.x as int, t.y as int)
                } else {
                    Color { r: 0, g: 0, b: 0 }
                };
                out@ == packet_spec(
                    4,
                    seq![c.r, c.g, c.b, palette_index_spec(self.current_video_mode.colors, c)],
                )
            }),
    {
        let c = self.get_screen_pixel(x, y);
        let i = self.palette_index(c);
        send_packet(4, &vec![c.r, c.g, c.b, i])
    }

    /// Packet giving the character in text cell `(x, y)`.
    pub fn send_screen_char(&self, x: i16, y: i16) -> (out: Vec<u8>)
        requires
            self.wf(),
        ensures
            out@ == packet_spec(3, seq![self.screen_char(x, y)]),
    {
        let c = self.get_screen_char(x, y);
        send_packet(3, &vec![c])
    }

    /// Packet giving the cursor's text cell: column, then row.
    pub fn send_cursor_position(&self) -> (out: Vec<u8>)
        requires
            self.wf(),
        ensures
            out@ == packet_spec(
                2,
                seq![
                    ((self.cursor.position_x / self.cursor.font_width) % 256) as u8,
                    ((self.cursor.position_y / self.cursor.font_height) % 256) as u8,
                ],
            ),
    {
        let cx = self.cursor.position_x / self.cursor.font_width;
        let cy = self.cursor.position_y / self.cursor.font_height;
        assert(cx <= self.cursor.position_x) by (nonlinear_arith)
            requires
                cx == self.cursor.position_x / self.cursor.font_width,
                self.cursor.position_x >= 0,
                self.cursor.font_width > 0,
        ;
        assert(cy <= self.cursor.position_y) by (nonlinear_arith)
            requires
                cy == self.cursor.position_y / self.cursor.font_height,
                self.cursor.position_y >= 0,
                self.cursor.font_height > 0,
        ;
        let data: Vec<u8> = vec![(cx % 256) as u8, (cy % 256) as u8];
        send_packet(2, &data)
    }

    /// Packet describing the mode: width and height (low byte first), text
    /// columns and rows, and the number of colors.
    pub fn send_mode_information(&self) -> (out: Vec<u8>)
        requires
            self.wf(),
        ensures
            out@ == packet_spec(6, mode_info_spec(self.cursor, self.current_video_mode.colors)),
    {
        let w = self.cursor.screen_width;
        let h = self.cursor.screen_height;
        let cols = w / self.cursor.font_width;
        let rows = h / self.cursor.font_height;
        assert(cols <= w && rows <= h) by (nonlinear_arith)
            requires
                cols == w / self.cursor.font_width,
                rows == h / self.cursor.font_height,
                w > 0,
                h > 0,
                self.cursor.font_width > 0,
                self.cursor.font_height > 0,
        ;
        let data: Vec<u8> = vec![
            (w % 256) as u8,
            (w / 256) as u8,
            (h % 256) as u8,
            (h / 256) as u8,
            (cols % 256) as u8,
            (rows % 256) as u8,
            self.current_video_mode.colors,
        ];
        assert(data@ =~= mode_info_spec(self.cursor, self.current_video_mode.colors));
        send_packet(6, &data)
    }
}

/// `2` to the power `k`, for `k` up to 8.
pub open spec fn pow2_8(k: int) -> int {
    if k <= 0 {
        1
    } else if k == 1 {
        2
    } else if k == 2 {
        4
    } else if k == 3 {
        8
    } else if k == 4 {
        16
    } else if k == 5 {
        32
    } else if k == 6 {
        64
    } else if k == 7 {
        128
    } else {
        256
    }
}

/// The first `k` pixels of row `y` from column `x` as a binary number,
/// the first pixel the most significant bit: 1 where the pixel is `fg`.
pub open spec fn row_bits(fb: &FrameBuffer, fg: Color, x: int, y: int, k: int) -> int
    decreases k,
{
    if k <= 0 {
        0
    } else {
        row_bits(fb, fg, x, y, k - 1) * 2 + if fb.pixel(x + k - 1, y) == fg {
            1int
        } else {
            0int
        }
    }
}

/// Whether glyph `i` of the native font table `font` has the rows `pat`.
pub open spec fn glyph_matches(font: Seq<u8>, i: int, pat: Seq<u8>) -> bool {
    forall|r: int| 0 <= r < 8 ==> #[trigger] font[i * 8 + r] == pat[r]
}

/// The first of the native glyphs `i` to 95 whose rows are `pat`, as its
/// character (glyph + 32), or 0 when none is.
pub open spec fn first_glyph_from(font: Seq<u8>, pat: Seq<u8>, i: int) -> u8
    decreases 96 - i,
{
    if i < 0 || i >= 96 {
        0
    } else if glyph_matches(font, i, pat) {
        (i + 32) as u8
    } else {
        first_glyph_from(font, pat, i + 1)
    }
}

/// The first palette index from `j` on that selects `rgb` in a mode with
/// `colors` colors, or 255 when none does.
pub open spec fn palette_index_from(colors: u8, rgb: Color, j: int) -> u8
    decreases 64 - j,
{
    if j < 0 || j >= palette(colors).len() || j >= 64 {
        255
    } else if palette_color(colors, j) == rgb {
        j as u8
    } else {
        palette_index_from(colors, rgb, j + 1)
    }
}

/// The first palette index that selects `rgb` in a mode with `colors`
/// colors, or 255 when none does.
pub open spec fn palette_index_spec(colors: u8, rgb: Color) -> u8 {
    palette_index_from(colors, rgb, 0)
}

/// Payload of the mode information packet.
pub open spec fn mode_info_spec(c: Cursor, colors: u8) -> Seq<u8> {
    seq![
        (c.screen_width % 256) as u8,
        (c.screen_width / 256) as u8,
        (c.screen_height % 256) as u8,
        (c.screen_height / 256) as u8,
        ((c.screen_width / c.font_width) % 256) as u8,
        ((c.screen_height / c.font_height) % 256) as u8,
        colors,
    ]
}

/// A circle that plotting asks for: the outline is computed by the caller,
/// then drawn with `draw_outline`.
#[derive(Clone, Copy, Debug, PartialEq, Eq, Structural)]
pub struct CircleRequest {
    pub center: Point,
    /// The newest plot point.
    pub edge: Point,
    /// The radius is the distance from `center` to `edge`, not from the
    /// origin to `edge`.
    pub two_point: bool,
}

/// The three points ordered by y, by compare-and-swap of the first and
/// second, the first and third, then the second and third.
pub open spec fn sort3(a: Point, b: Point, c: Point) -> (Point, Point, Point) {
    let (t1, m1) = if a.y > b.y {
        (b, a)
    } else {
        (a, b)
    };
    let (t2, b2) = if t1.y > c.y {
        (c, t1)
    } else {
        (t1, c)
    };
    let (m3, b3) = if m1.y > b2.y {
        (b2, m1)
    } else {
        (m1, b2)
    };
    (t2, m3, b3)
}

/// Orders three points by y.
pub fn sort_by_y(a: Point, b: Point, c: Point) -> (r: (Point, Point, Point))
    ensures
        r == sort3(a, b, c),
        r.0.y <= r.1.y <= r.2.y,
        r.0.y == a.y || r.0.y == b.y || r.0.y == c.y,
{
    let (t1, m1) = if a.y > b.y { (b, a) } else { (a, b) };
    let (t2, b2) = if t1.y > c.y { (c, t1) } else { (t1, c) };
    let (m3, b3) = if m1.y > b2.y { (b2, m1) } else { (m1, b2) };
    (t2, m3, b3)
}

/// Whether plotting in `mode`, with plot points `p1` (newest) to `p3`,
/// draws pixel `(x, y)`.
pub open spec fn plot_draws(mode: u8, p1: Point, p2: Point, p3: Point, x: int, y: int) -> bool {
    if mode == 5 {
        on_segment(p1, p2, x, y)
    } else if 64 <= mode <= 71 {
        x == p1.x && y == p1.y
    } else if 80 <= mode <= 87 {
        let t = sort3(p1, p2, p3);
        in_triangle_span(t.0, t.1, t.2, x, y)
    } else {
        false
    }
}

/// Whether pixel `(x, y)` is on segment `k` of the closed outline through
/// `pts`: from point `k` to the next, the last joining the first.
pub open spec fn outline_segment(pts: Seq<Point>, k: int, x: int, y: int) -> bool {
    on_segment(pts[k], if k + 1 < pts.len() { pts[k + 1] } else { pts[0] }, x, y)
}

/// Whether pixel `(x, y)` is on one of the first `m` segments of the closed
/// outline through `pts`.
pub open spec fn on_outline(pts: Seq<Point>, m: int, x: int, y: int) -> bool {
    exists|k: int| 0 <= k < m && #[trigger] outline_segment(pts, k, x, y)
}

/// Horizontal offset of a screen scroll in `direction` by `delta` pixels.
pub open spec fn scroll_dx(direction: u8, delta: u8) -> int {
    if direction == 0 {
        delta as int
    } else if direction == 1 {
        -delta
    } else {
        0
    }
}

/// Vertical offset of a screen scroll in `direction` by `delta` pixels.
pub open spec fn scroll_dy(direction: u8, delta: u8) -> int {
    if direction == 2 {
        delta as int
    } else if direction == 3 {
        -delta
    } else {
        0
    }
}

/// Left edge of the part of the cursor row that line clear `n` blanks.
pub open spec fn line_clear_x(c: Cursor, n: u8) -> int {
    if n == 0 {
        c.position_x as int
    } else {
        0
    }
}

/// Width of the part of the cursor row that line clear `n` blanks.
pub open spec fn line_clear_w(c: Cursor, n: u8) -> int {
    if n == 0 {
        c.screen_width - c.position_x
    } else if n == 1 {
        c.position_x + c.font_width
    } else {
        c.screen_width as int
    }
}

} // verus!
