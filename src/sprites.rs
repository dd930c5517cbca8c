use vstd::prelude::*;

verus! {

/// An RGBA pixel of a bitmap.
#[derive(Clone, Copy, Debug, PartialEq, Eq, Structural)]
pub struct Rgba {
    pub r: u8,
    pub g: u8,
    pub b: u8,
    pub a: u8,
}

/// A channel reduced to one of four levels: 0, 85, 170 or 255.
pub open spec fn quantize_channel(c: u8) -> u8 {
    ((c / 64) * 85) as u8
}

/// Reduces each color channel to four levels; alpha is kept.
pub fn color_quantize(c: Rgba) -> (q: Rgba)
    ensures
        q == (Rgba {
            r: quantize_channel(c.r),
            g: quantize_channel(c.g),
            b: quantize_channel(c.b),
            a: c.a,
        }),
{
    Rgba { r: (c.r / 64) * 85, g: (c.g / 64) * 85, b: (c.b / 64) * 85, a: c.a }
}

/// A bitmap, row by row.
pub struct Bitmap {
    pub width: u16,
    pub height: u16,
    pub pixels: Vec<Rgba>,
}

impl Bitmap {
    pub open spec fn wf(&self) -> bool {
        &&& self.width <= 0x7fff
        &&& self.height <= 0x7fff
        &&& self.pixels@.len() == self.width * self.height
    }

    /// The pixel at column `x` of row `y`.
    pub open spec fn at(&self, x: int, y: int) -> Rgba {
        self.pixels@[y * self.width + x]
    }

    /// A bitmap of `w` by `h` pixels read from `data` from index `start` on,
    /// four bytes (red, green, blue, alpha) per pixel, quantized.
    pub fn from_rgba(w: u16, h: u16, data: &Vec<u8>, start: usize) -> (bm: Bitmap)
        requires
            w <= 0x7fff,
            h <= 0x7fff,
            data@.len() == start + 4 * (w * h),
        ensures
            bm.wf(),
            bm.width == w,
            bm.height == h,
            forall|i: int|
                0 <= i < w * h ==> #[trigger] bm.pixels@[i] == (Rgba {
                    r: quantize_channel(data@[start + 4 * i]),
                    g: quantize_channel(data@[start + 4 * i + 1]),
                    b: quantize_channel(data@[start + 4 * i + 2]),
                    a: data@[start + 4 * i + 3],
                }),
    {
        assert(w * h <= 0x7fff * 0x7fff) by (nonlinear_arith)
            requires
                w <= 0x7fff,
                h <= 0x7fff,
        ;
        let n: usize = w as usize * h as usize;
        let total = data.len();
        let mut pixels: Vec<Rgba> = Vec::new();
        let mut i: usize = 0;
        while i < n
            invariant
                n == w * h,
                n <= 0x7fff * 0x7fff,
                data@.len() == start + 4 * n,
                total == data@.len(),
                0 <= i <= n,
                pixels@.len() == i,
                forall|k: int|
                    0 <= k < i ==> #[trigger] pixels@[k] == (Rgba {
                        r: quantize_channel(data@[start + 4 * k]),
                        g: quantize_channel(data@[start + 4 * k + 1]),
                        b: quantize_channel(data@[start + 4 * k + 2]),
                        a: data@[start + 4 * k + 3],
                    }),
            decreases n - i,
        {
            let c = Rgba {
                r: data[start + 4 * i],
                g: data[start + 4 * i + 1],
                b: data[start + 4 * i + 2],
                a: data[start + 4 * i + 3],
            };
            pixels.push(color_quantize(c));
            i = i + 1;
        }
        Bitmap { width: w, height: h, pixels }
    }

    /// A bitmap of `w` by `h` pixels all of the quantized color `c`.
    pub fn filled(w: u16, h: u16, c: Rgba) -> (bm: Bitmap)
        requires
            w <= 0x7fff,
            h <= 0x7fff,
        ensures
            bm.wf(),
            bm.width == w,
            bm.height == h,
            forall|i: int| 0 <= i < w * h ==> #[trigger] bm.pixels@[i] == color_quantize_spec(c),
    {
        let q = color_quantize(c);
        assert(w * h <= 0x7fff * 0x7fff) by (nonlinear_arith)
            requires
                w <= 0x7fff,
                h <= 0x7fff,
        ;
        let n: usize = w as usize * h as usize;
        let mut pixels: Vec<Rgba> = Vec::new();
        for i in 0..n
            invariant
                pixels@.len() == i,
                forall|k: int| 0 <= k < i ==> #[trigger] pixels@[k] == q,
                q == color_quantize_spec(c),
        {
            pixels.push(q);
        }
        Bitmap { width: w, height: h, pixels }
    }
}

pub open spec fn color_quantize_spec(c: Rgba) -> Rgba {
    Rgba { r: quantize_channel(c.r), g: quantize_channel(c.g), b: quantize_channel(c.b), a: c.a }
}

/// A sprite: its frames (bitmap handles), the frame shown, its position
/// and whether it is shown.
pub struct Sprite {
    pub frames: Vec<u8>,
    pub current_frame: u8,
    pub pos_x: i16,
    pub pos_y: i16,
    pub visible: bool,
}

/// The value of a sprite.
pub struct SpriteView {
    pub frames: Seq<u8>,
    pub current_frame: u8,
    pub pos_x: i16,
    pub pos_y: i16,
    pub visible: bool,
}

impl View for Sprite {
    type V = SpriteView;

    open spec fn view(&self) -> SpriteView {
        SpriteView {
            frames: self.frames@,
            current_frame: self.current_frame,
            pos_x: self.pos_x,
            pos_y: self.pos_y,
            visible: self.visible,
        }
    }
}

/// Most frames a sprite holds: a frame index is a byte.
pub const MAX_FRAMES: usize = 256;

/// Number of bitmap slots.
pub const NUM_BITMAPS: usize = 256;

/// Number of sprite slots.
pub const NUM_SPRITES: usize = 255;

impl Sprite {
    pub open spec fn wf(&self) -> bool {
        &&& self.frames@.len() <= MAX_FRAMES
        &&& (self.frames@.len() == 0 ==> self.current_frame == 0 && !self.visible)
        &&& (self.frames@.len() > 0 ==> self.current_frame < self.frames@.len())
    }

    pub fn empty() -> (s: Sprite)
        ensures
            s.wf(),
            s.frames@.len() == 0,
            s.current_frame == 0,
            s.pos_x == 0,
            s.pos_y == 0,
            !s.visible,
    {
        Sprite { frames: Vec::new(), current_frame: 0, pos_x: 0, pos_y: 0, visible: false }
    }
}

/// The frame after `f` in a list of `n` frames, wrapping to the first.
pub open spec fn next_frame_of(f: int, n: int) -> int {
    if f + 1 >= n {
        0
    } else {
        f + 1
    }
}

/// The frame before `f` in a list of `n` frames, wrapping to the last.
pub open spec fn prev_frame_of(f: int, n: int) -> int {
    if f == 0 {
        n - 1
    } else {
        f - 1
    }
}

/// A sprite to composite: the bitmap of its current frame and its position.
#[derive(Clone, Copy, Debug, PartialEq, Eq, Structural)]
pub struct SpriteDraw {
    pub bitmap: u8,
    pub x: i16,
    pub y: i16,
}

/// Bitmap store and sprite table.
pub struct SpriteSystem {
    pub num_sprites: u8,
    pub num_sprites_shown: u8,
    pub current_sprite: u8,
    pub current_bitmap: u8,
    pub bitmaps: Vec<Option<Bitmap>>,
    pub sprites: Vec<Sprite>,
}

/// Whether sprite slot `i` is composited: it is among the first
/// `num_sprites_shown` slots, visible, and its current frame's bitmap is
/// defined.
pub open spec fn drawn(sys: &SpriteSystem, i: int) -> bool {
    let s = sys.sprites@[i];
    &&& i < sys.num_sprites_shown
    &&& s.visible
    &&& sys.bitmaps@[s.frames@[s.current_frame as int] as int].is_some()
}

/// What compositing draws for sprite slot `i`.
pub open spec fn draw_of(sys: &SpriteSystem, i: int) -> SpriteDraw {
    let s = sys.sprites@[i];
    SpriteDraw { bitmap: s.frames@[s.current_frame as int], x: s.pos_x, y: s.pos_y }
}

/// The draws for the slots below `n` that are composited, in table order.
pub open spec fn draws_upto(sys: &SpriteSystem, n: int) -> Seq<SpriteDraw>
    decreases n,
{
    if n <= 0 {
        seq![]
    } else if drawn(sys, n - 1) {
        draws_upto(sys, n - 1).push(draw_of(sys, n - 1))
    } else {
        draws_upto(sys, n - 1)
    }
}

impl SpriteSystem {
    pub open spec fn wf(&self) -> bool {
        &&& self.bitmaps@.len() == NUM_BITMAPS
        &&& self.sprites@.len() == NUM_SPRITES
        &&& forall|i: int| 0 <= i < NUM_SPRITES ==> #[trigger] self.sprites@[i].wf()
        &&& forall|i: int|
            0 <= i < NUM_BITMAPS ==> (#[trigger] self.bitmaps@[i] matches Some(bm) ==> bm.wf())
    }

    /// The sprite slot that sprite commands address, when it exists.
    pub open spec fn selected(&self) -> Option<int> {
        if (self.current_sprite as int) < NUM_SPRITES {
            Some(self.current_sprite as int)
        } else {
            None
        }
    }

    /// Empty tables: no bitmap defined, every sprite without frames.
    pub fn new() -> (r: SpriteSystem)
        ensures
            r.wf(),
            r.num_sprites == 0,
            r.num_sprites_shown == 0,
            r.current_sprite == 0,
            r.current_bitmap == 0,
            forall|i: int| 0 <= i < NUM_BITMAPS ==> (#[trigger] r.bitmaps@[i]).is_none(),
            forall|i: int|
                0 <= i < NUM_SPRITES ==> (#[trigger] r.sprites@[i]).frames@.len() == 0
                    && !r.sprites@[i].visible,
    {
        let mut bitmaps: Vec<Option<Bitmap>> = Vec::new();
        for i in 0..NUM_BITMAPS
            invariant
                bitmaps@.len() == i,
                forall|k: int| 0 <= k < i ==> (#[trigger] bitmaps@[k]).is_none(),
        {
            bitmaps.push(None);
        }
        let mut sprites: Vec<Sprite> = Vec::new();
        for i in 0..NUM_SPRITES
            invariant
                sprites@.len() == i,
                forall|k: int|
                    0 <= k < i ==> (#[trigger] sprites@[k]).wf() && sprites@[k].frames@.len() == 0
                        && !sprites@[k].visible,
        {
            sprites.push(Sprite::empty());
        }
        SpriteSystem {
            num_sprites: 0,
            num_sprites_shown: 0,
            current_sprite: 0,
            current_bitmap: 0,
            bitmaps,
            sprites,
        }
    }

    /// Stores `bm` in the selected bitmap slot, replacing what was there.
    pub fn define_bitmap(&mut self, bm: Bitmap)
        requires
            old(self).wf(),
            bm.wf(),
        ensures
            final(self).wf(),
            final(self).bitmaps@ == old(self).bitmaps@.update(
                old(self).current_bitmap as int,
                Some(bm),
            ),
            final(self).sprites@ == old(self).sprites@,
            final(self).num_sprites == old(self).num_sprites,
            final(self).num_sprites_shown == old(self).num_sprites_shown,
            final(self).current_sprite == old(self).current_sprite,
            final(self).current_bitmap == old(self).current_bitmap,
    {
        let i = self.current_bitmap as usize;
        self.bitmaps.set(i, Some(bm));
    }

    /// The values of the sprite slots.
    pub open spec fn views(&self) -> Seq<SpriteView> {
        Seq::new(self.sprites@.len(), |i: int| self.sprites@[i]@)
    }

    /// The sprite slots with the selected one, if it exists, set to `v`.
    pub open spec fn with_selected(&self, v: SpriteView) -> Seq<SpriteView> {
        match self.selected() {
            Some(i) => self.views().update(i, v),
            None => self.views(),
        }
    }

    /// The value of the selected sprite slot.
    pub open spec fn sel(&self) -> SpriteView {
        self.sprites@[self.current_sprite as int]@
    }

    /// Everything but the sprite slots is as in `other`.
    pub open spec fn same_but_sprites(&self, other: &SpriteSystem) -> bool {
        &&& self.bitmaps@ == other.bitmaps@
        &&& self.num_sprites == other.num_sprites
        &&& self.num_sprites_shown == other.num_sprites_shown
        &&& self.current_sprite == other.current_sprite
        &&& self.current_bitmap == other.current_bitmap
    }

    /// Drops the frames of the selected sprite and hides it.
    pub fn clear_frames(&mut self)
        requires
            old(self).wf(),
        ensures
            final(self).wf(),
            final(self).same_but_sprites(old(self)),
            final(self).views() == old(self).with_selected(
                SpriteView { frames: seq![], current_frame: 0, visible: false, ..old(self).sel() },
            ),
    {
        let i = self.current_sprite as usize;
        if i < NUM_SPRITES {
            let s = Sprite {
                frames: Vec::new(),
                current_frame: 0,
                pos_x: self.sprites[i].pos_x,
                pos_y: self.sprites[i].pos_y,
                visible: false,
            };
            self.sprites.set(i, s);
        }
        assert(self.views() =~= old(self).with_selected(
            SpriteView { frames: seq![], current_frame: 0, visible: false, ..old(self).sel() },
        ));
    }

    /// Adds bitmap `n` as the last frame of the selected sprite, when that
    /// bitmap is defined and the sprite has room.
    pub fn add_frame(&mut self, n: u8)
        requires
            old(self).wf(),
        ensures
            final(self).wf(),
            final(self).same_but_sprites(old(self)),
            final(self).views() == if old(self).bitmaps@[n as int].is_some()
                && old(self).sel().frames.len() < MAX_FRAMES {
                old(self).with_selected(
                    SpriteView { frames: old(self).sel().frames.push(n), ..old(self).sel() },
                )
            } else {
                old(self).views()
            },
    {
        let i = self.current_sprite as usize;
        if i < NUM_SPRITES && self.bitmaps[n as usize].is_some() && self.sprites[i].frames.len()
            < MAX_FRAMES {
            assert(self.sprites@[i as int].wf());
            self.sprites[i].frames.push(n);
            assert(self.sprites@[i as int].wf());
            assert(forall|j: int|
                0 <= j < NUM_SPRITES && j != i ==> self.sprites@[j] == old(self).sprites@[j]);
        }
        proof {
            if i >= NUM_SPRITES {
                assert(old(self).with_selected(
                    SpriteView { frames: old(self).sel().frames.push(n), ..old(self).sel() },
                ) == old(self).views());
            }
        }
        assert(self.views() =~= if old(self).bitmaps@[n as int].is_some()
            && old(self).sel().frames.len() < MAX_FRAMES {
            old(self).with_selected(
                SpriteView { frames: old(self).sel().frames.push(n), ..old(self).sel() },
            )
        } else {
            old(self).views()
        });
    }

    /// Sets the frame, position and visibility of the selected sprite.
    fn set_selected(&mut self, frame: u8, x: i16, y: i16, visible: bool)
        requires
            old(self).wf(),
            old(self).selected() is Some,
            old(self).sel().frames.len() > 0 ==> frame < old(self).sel().frames.len(),
            old(self).sel().frames.len() == 0 ==> frame == 0 && !visible,
        ensures
            final(self).wf(),
            final(self).same_but_sprites(old(self)),
            final(self).views() == old(self).with_selected(
                SpriteView { current_frame: frame, pos_x: x, pos_y: y, visible, ..old(self).sel() },
            ),
    {
        let i = self.current_sprite as usize;
        assert(self.sprites@[i as int].wf());
        self.sprites[i].current_frame = frame;
        self.sprites[i].pos_x = x;
        self.sprites[i].pos_y = y;
        self.sprites[i].visible = visible;
        assert(self.sprites@[i as int].wf());
        assert(forall|j: int|
            0 <= j < NUM_SPRITES && j != i ==> self.sprites@[j] == old(self).sprites@[j]);
        assert(self.views() =~= old(self).with_selected(
            SpriteView { current_frame: frame, pos_x: x, pos_y: y, visible, ..old(self).sel() },
        ));
    }

    /// Shows the next frame of the selected sprite, wrapping to the first.
    pub fn next_frame(&mut self)
        requires
            old(self).wf(),
        ensures
            final(self).wf(),
            final(self).same_but_sprites(old(self)),
            final(self).views() == if old(self).selected() is Some && old(self).sel().frames.len()
                > 0 {
                old(self).with_selected(
                    SpriteView {
                        current_frame: next_frame_of(
                            old(self).sel().current_frame as int,
                            old(self).sel().frames.len() as int,
                        ) as u8,
                        ..old(self).sel()
                    },
                )
            } else {
                old(self).views()
            },
    {
        let i = self.current_sprite as usize;
        if i < NUM_SPRITES {
            let nf = self.sprites[i].frames.len();
            if nf > 0 {
                assert(self.sprites@[i as int].wf());
                let f = self.sprites[i].current_frame as usize;
                let nxt: usize = if f + 1 >= nf { 0 } else { f + 1 };
                let x = self.sprites[i].pos_x;
                let y = self.sprites[i].pos_y;
                let v = self.sprites[i].visible;
                self.set_selected(nxt as u8, x, y, v);
            }
        }
    }

    /// Shows the previous frame of the selected sprite, wrapping to the last.
    pub fn prev_frame(&mut self)
        requires
            old(self).wf(),
        ensures
            final(self).wf(),
            final(self).same_but_sprites(old(self)),
            final(self).views() == if old(self).selected() is Some && old(self).sel().frames.len()
                > 0 {
                old(self).with_selected(
                    SpriteView {
                        current_frame: prev_frame_of(
                            old(self).sel().current_frame as int,
                            old(self).sel().frames.len() as int,
                        ) as u8,
                        ..old(self).sel()
                    },
                )
            } else {
                old(self).views()
            },
    {
        let i = self.current_sprite as usize;
        if i < NUM_SPRITES {
            let nf = self.sprites[i].frames.len();
            if nf > 0 {
                assert(self.sprites@[i as int].wf());
                let f = self.sprites[i].current_frame as usize;
                let prv: usize = if f == 0 { nf - 1 } else { f - 1 };
                let x = self.sprites[i].pos_x;
                let y = self.sprites[i].pos_y;
                let v = self.sprites[i].visible;
                self.set_selected(prv as u8, x, y, v);
            }
        }
    }

    /// Shows frame `b` of the selected sprite, when it has that frame.
    pub fn set_frame(&mut self, b: u8)
        requires
            old(self).wf(),
        ensures
            final(self).wf(),
            final(self).same_but_sprites(old(self)),
            final(self).views() == if old(self).selected() is Some && (b as int) < old(self).sel().frames.len() {
                old(self).with_selected(SpriteView { current_frame: b, ..old(self).sel() })
            } else {
                old(self).views()
            },
    {
        let i = self.current_sprite as usize;
        if i < NUM_SPRITES {
            if (b as usize) < self.sprites[i].frames.len() {
                let x = self.sprites[i].pos_x;
                let y = self.sprites[i].pos_y;
                let v = self.sprites[i].visible;
                self.set_selected(b, x, y, v);
            }
        }
    }

    /// Makes the selected sprite visible; a sprite without frames stays
    /// hidden.
    pub fn show(&mut self) -> (shown: bool)
        requires
            old(self).wf(),
        ensures
            final(self).wf(),
            final(self).same_but_sprites(old(self)),
            shown == (old(self).selected() is Some && old(self).sel().frames.len() > 0),
            final(self).views() == if shown {
                old(self).with_selected(SpriteView { visible: true, ..old(self).sel() })
            } else {
                old(self).views()
            },
    {
        let i = self.current_sprite as usize;
        if i < NUM_SPRITES {
            if self.sprites[i].frames.len() > 0 {
                assert(self.sprites@[i as int].wf());
                let f = self.sprites[i].current_frame;
                let x = self.sprites[i].pos_x;
                let y = self.sprites[i].pos_y;
                self.set_selected(f, x, y, true);
                return true;
            }
        }
        false
    }

    /// Hides the selected sprite.
    pub fn conceal(&mut self)
        requires
            old(self).wf(),
        ensures
            final(self).wf(),
            final(self).same_but_sprites(old(self)),
            final(self).views() == if old(self).selected() is Some {
                old(self).with_selected(SpriteView { visible: false, ..old(self).sel() })
            } else {
                old(self).views()
            },
    {
        let i = self.current_sprite as usize;
        if i < NUM_SPRITES {
            assert(self.sprites@[i as int].wf());
            let f = self.sprites[i].current_frame;
            let x = self.sprites[i].pos_x;
            let y = self.sprites[i].pos_y;
            self.set_selected(f, x, y, false);
        }
    }

    /// Moves the selected sprite to `(x, y)`.
    pub fn move_to(&mut self, x: i16, y: i16)
        requires
            old(self).wf(),
        ensures
            final(self).wf(),
            final(self).same_but_sprites(old(self)),
            final(self).views() == if old(self).selected() is Some {
                old(self).with_selected(SpriteView { pos_x: x, pos_y: y, ..old(self).sel() })
            } else {
                old(self).views()
            },
    {
        let i = self.current_sprite as usize;
        if i < NUM_SPRITES {
            assert(self.sprites@[i as int].wf());
            let f = self.sprites[i].current_frame;
            let v = self.sprites[i].visible;
            self.set_selected(f, x, y, v);
        }
    }

    /// Moves the selected sprite by `(dx, dy)`, wrapping at the bounds of
    /// the coordinate type.
    pub fn move_by(&mut self, dx: i16, dy: i16)
        requires
            old(self).wf(),
        ensures
            final(self).wf(),
            final(self).same_but_sprites(old(self)),
            final(self).views() == if old(self).selected() is Some {
                old(self).with_selected(
                    SpriteView {
                        pos_x: old(self).sel().pos_x.wrapping_add(dx),
                        pos_y: old(self).sel().pos_y.wrapping_add(dy),
                        ..old(self).sel()
                    },
                )
            } else {
                old(self).views()
            },
    {
        let i = self.current_sprite as usize;
        if i < NUM_SPRITES {
            assert(self.sprites@[i as int].wf());
            let f = self.sprites[i].current_frame;
            let v = self.sprites[i].visible;
            let x = self.sprites[i].pos_x.wrapping_add(dx);
            let y = self.sprites[i].pos_y.wrapping_add(dy);
            self.set_selected(f, x, y, v);
        }
    }

    /// Clears every sprite's frames and hides it; no sprite is active.
    pub fn clear_sprites(&mut self)
        requires
            old(self).wf(),
        ensures
            final(self).wf(),
            final(self).bitmaps@ == old(self).bitmaps@,
            final(self).num_sprites == 0,
            final(self).num_sprites_shown == 0,
            final(self).current_sprite == old(self).current_sprite,
            final(self).current_bitmap == old(self).current_bitmap,
            final(self).views().len() == NUM_SPRITES,
            forall|i: int|
                0 <= i < NUM_SPRITES ==> #[trigger] final(self).views()[i] == (SpriteView {
                    frames: seq![],
                    current_frame: 0,
                    visible: false,
                    ..old(self).views()[i]
                }),
    {
        self.num_sprites = 0;
        self.num_sprites_shown = 0;
        let mut i: usize = 0;
        while i < NUM_SPRITES
            invariant
                self.wf(),
                self.bitmaps@ == old(self).bitmaps@,
                self.num_sprites == 0,
                self.num_sprites_shown == 0,
                self.current_sprite == old(self).current_sprite,
                self.current_bitmap == old(self).current_bitmap,
                old(self).wf(),
                0 <= i <= NUM_SPRITES,
                forall|k: int|
                    0 <= k < NUM_SPRITES ==> #[trigger] self.sprites@[k]@ == if k < i {
                        SpriteView {
                            frames: seq![],
                            current_frame: 0,
                            visible: false,
                            ..old(self).sprites@[k]@
                        }
                    } else {
                        old(self).sprites@[k]@
                    },
            decreases NUM_SPRITES - i,
        {
            let s = Sprite {
                frames: Vec::new(),
                current_frame: 0,
                pos_x: self.sprites[i].pos_x,
                pos_y: self.sprites[i].pos_y,
                visible: false,
            };
            assert(s.frames@ =~= seq![]);
            assert(self.sprites@[i as int]@ == old(self).sprites@[i as int]@);
            let ghost prev = self.sprites@;
            self.sprites.set(i, s);
            assert(forall|k: int| 0 <= k < NUM_SPRITES && k != i ==> self.sprites@[k] == prev[k]);
            i = i + 1;
        }
        assert(forall|k: int| 0 <= k < NUM_SPRITES ==> #[trigger] self.views()[k] == self.sprites@[k]@);
        assert(forall|k: int| 0 <= k < NUM_SPRITES ==> #[trigger] old(self).views()[k] == old(self).sprites@[k]@);
    }

    /// Forgets every bitmap and clears every sprite; the selections go back
    /// to slot 0.
    pub fn reset(&mut self)
        requires
            old(self).wf(),
        ensures
            final(self).wf(),
            final(self).num_sprites == 0,
            final(self).num_sprites_shown == 0,
            final(self).current_sprite == 0,
            final(self).current_bitmap == 0,
            forall|i: int| 0 <= i < NUM_BITMAPS ==> (#[trigger] final(self).bitmaps@[i]).is_none(),
            forall|i: int|
                0 <= i < NUM_SPRITES ==> #[trigger] final(self).views()[i] == (SpriteView {
                    frames: seq![],
                    current_frame: 0,
                    visible: false,
                    ..old(self).views()[i]
                }),
    {
        self.clear_sprites();
        let ghost cleared = self.sprites@;
        let mut i: usize = 0;
        while i < NUM_BITMAPS
            invariant
                self.wf(),
                self.num_sprites == 0,
                self.num_sprites_shown == 0,
                old(self).wf(),
                0 <= i <= NUM_BITMAPS,
                forall|k: int| 0 <= k < i ==> (#[trigger] self.bitmaps@[k]).is_none(),
                self.sprites@ == cleared,
            decreases NUM_BITMAPS - i,
        {
            self.bitmaps.set(i, None);
            i = i + 1;
        }
        assert(self.views() =~= Seq::new(cleared.len(), |k: int| cleared[k]@));
        self.current_bitmap = 0;
        self.current_sprite = 0;
    }

    /// The sprites that compositing draws: the first `num_sprites_shown`
    /// slots, in table order, that are visible and whose current frame's
    /// bitmap is defined.
    pub fn sprites_to_draw(&self) -> (r: Vec<SpriteDraw>)
        requires
            self.wf(),
        ensures
            r@ == draws_upto(self, NUM_SPRITES as int),
    {
        let mut r: Vec<SpriteDraw> = Vec::new();
        let mut i: usize = 0;
        while i < NUM_SPRITES
            invariant
                self.wf(),
                0 <= i <= NUM_SPRITES,
                r@ == draws_upto(self, i as int),
            decreases NUM_SPRITES - i,
        {
            let s = &self.sprites[i];
            assert(s.wf());
            if (i as u8) < self.num_sprites_shown && s.visible {
                let b = s.frames[s.current_frame as usize];
                if self.bitmaps[b as usize].is_some() {
                    r.push(SpriteDraw { bitmap: b, x: s.pos_x, y: s.pos_y });
                }
            }
            i = i + 1;
        }
        r
    }
}

} // verus!
