use vstd::prelude::*;
use crate::framebuffer::{Color, FrameBuffer, in_rect};
use crate::sprites::{Bitmap, Rgba};
use crate::geometry::{Point, abs, sign, edge_x, line_xcoords, lemma_edge_between, COORD_MAX};

verus! {

/// `a / n` rounded to the nearest integer, halves away from zero.
pub open spec fn round_frac(a: int, n: int) -> int {
    sign(a) * ((2 * abs(a) + n) / (2 * n))
}

/// Number of steps of the segment from `p` to `q`: its extent along its
/// major axis.
pub open spec fn seg_steps(p: Point, q: Point) -> int {
    let dx = abs(q.x - p.x);
    let dy = abs(q.y - p.y);
    if dx >= dy {
        dx
    } else {
        dy
    }
}

/// Whether pixel `(x, y)` is one of the first `m` points of the segment from
/// `p` to `q`. Point `i` lies `i` steps from `p` along the major axis, with
/// the minor coordinate rounded to the nearest pixel.
pub open spec fn on_segment_upto(p: Point, q: Point, m: int, x: int, y: int) -> bool {
    let n = seg_steps(p, q);
    let dx = q.x - p.x;
    let dy = q.y - p.y;
    if n == 0 {
        m > 0 && x == p.x && y == p.y
    } else if abs(dx) >= abs(dy) {
        let i = sign(dx) * (x - p.x);
        0 <= i < m && i <= n && y == p.y + round_frac(i * dy, n)
    } else {
        let i = sign(dy) * (y - p.y);
        0 <= i < m && i <= n && x == p.x + round_frac(i * dx, n)
    }
}

/// Whether pixel `(x, y)` is on the segment from `p` to `q`, both ends
/// included.
pub open spec fn on_segment(p: Point, q: Point, x: int, y: int) -> bool {
    on_segment_upto(p, q, seg_steps(p, q) + 1, x, y)
}

/// `round_frac(i * d, n)` for `0 <= i <= n` and `|d| <= n`.
fn minor_offset(i: i64, d: i64, n: i64) -> (r: i64)
    requires
        0 <= i <= n,
        0 < n <= 4 * COORD_MAX,
        abs(d as int) <= n,
    ensures
        r == round_frac(i * d, n as int),
        abs(r as int) <= n,
{
    let ad: i64 = if d < 0 { -d } else { d };
    assert(0 <= i * ad <= n * n) by (nonlinear_arith)
        requires
            0 <= i <= n,
            0 <= ad <= n,
    ;
    assert(n * n <= 16 * COORD_MAX * COORD_MAX) by (nonlinear_arith)
        requires
            0 < n <= 4 * COORD_MAX,
    ;
    let a: i64 = i * ad;
    let q: i64 = (2 * a + n) / (2 * n);
    assert(q <= n + 1) by (nonlinear_arith)
        requires
            q == (2 * a + n) / (2 * n),
            0 <= a <= n * n,
            n > 0,
    ;
    assert(abs(i * d) == a) by (nonlinear_arith)
        requires
            a == i * ad,
            ad == abs(d as int),
            i >= 0,
    ;
    assert(q <= n) by (nonlinear_arith)
        requires
            q == (2 * a + n) / (2 * n),
            0 <= a <= n * n,
            n > 0,
    ;
    if d < 0 && a != 0 {
        assert(i * d < 0) by (nonlinear_arith)
            requires
                d < 0,
                a == i * ad,
                ad == -d,
                a != 0,
                i >= 0,
        ;
        -q
    } else {
        assert(i * d >= 0) by (nonlinear_arith)
            requires
                d < 0 ==> a == 0,
                a == i * ad,
                ad == abs(d as int),
                i >= 0,
        ;
        q
    }
}

/// Draws the segment from `p` to `q` (both ends included) in color `c`;
/// pixels off the surface are skipped.
pub fn draw_segment(fb: &mut FrameBuffer, p: Point, q: Point, c: Color)
    requires
        old(fb).wf(),
        p.bounded(),
        q.bounded(),
    ensures
        final(fb).wf(),
        final(fb).same_size(old(fb)),
        forall|x: int, y: int| #[trigger]
            final(fb).in_bounds(x, y) ==> final(fb).pixel(x, y) == if on_segment(p, q, x, y) {
                c
            } else {
                old(fb).pixel(x, y)
            },
{
    let ghost old_fb = *fb;
    let dx: i64 = q.x as i64 - p.x as i64;
    let dy: i64 = q.y as i64 - p.y as i64;
    let adx: i64 = if dx < 0 { -dx } else { dx };
    let ady: i64 = if dy < 0 { -dy } else { dy };
    let n: i64 = if adx >= ady { adx } else { ady };
    let mut i: i64 = 0;
    while i <= n
        invariant
            old_fb.wf(),
            fb.wf(),
            fb.same_size(&old_fb),
            p.bounded(),
            q.bounded(),
            dx == q.x - p.x,
            dy == q.y - p.y,
            adx == abs(dx as int),
            ady == abs(dy as int),
            n == seg_steps(p, q),
            0 <= i <= n + 1,
            forall|x: int, y: int| #[trigger]
                fb.in_bounds(x, y) ==> fb.pixel(x, y) == if on_segment_upto(p, q, i as int, x, y) {
                    c
                } else {
                    old_fb.pixel(x, y)
                },
        decreases n + 1 - i,
    {
        let (px, py) = if n == 0 {
            (p.x as i64, p.y as i64)
        } else if adx >= ady {
            let ox = if dx < 0 { -i } else { i };
            (p.x as i64 + ox, p.y as i64 + minor_offset(i, dy, n))
        } else {
            let oy = if dy < 0 { -i } else { i };
            (p.x as i64 + minor_offset(i, dx, n), p.y as i64 + oy)
        };
        let ghost prev = *fb;
        proof {
            assert forall|x: int, y: int|
                on_segment_upto(p, q, i + 1, x, y) == (on_segment_upto(p, q, i as int, x, y) || (x
                    == px && y == py)) by {
                if n != 0 {
                    if adx >= ady {
                        if dx < 0 {
                            assert(sign(dx as int) * (x - p.x) == -(x - p.x));
                        } else {
                            assert(sign(dx as int) * (x - p.x) == x - p.x);
                        }
                    } else {
                        if dy < 0 {
                            assert(sign(dy as int) == -1);
                            assert(sign(dy as int) * (y - p.y) == -(y - p.y));
                        } else {
                            assert(sign(dy as int) == 1);
                            assert(sign(dy as int) * (y - p.y) == y - p.y);
                        }
                    }
                }
            }
        }
        if px >= -0x8000_0000 && px <= 0x7fff_ffff && py >= -0x8000_0000 && py <= 0x7fff_ffff {
            fb.set_pixel(px as i32, py as i32, c);
        }
        assert forall|x: int, y: int| #[trigger]
            fb.in_bounds(x, y) implies prev.in_bounds(x, y) && fb.pixel(x, y) == if x == px && y
                == py {
                c
            } else {
                prev.pixel(x, y)
            } by {}
        i = i + 1;
    }
}

/// Whether pixel `(x, y)` lies on the horizontal span of row `y` of the
/// triangle with corners `top`, `mid` and `bot` (ordered by y): between the
/// long edge from `top` to `bot` and the two short edges through `mid`.
pub open spec fn in_triangle_span(top: Point, mid: Point, bot: Point, x: int, y: int) -> bool {
    let k = y - top.y;
    let a = edge_x(top, bot, k);
    let b = if y <= mid.y {
        edge_x(top, mid, k)
    } else {
        edge_x(mid, bot, y - mid.y)
    };
    top.y <= y <= bot.y && (a <= x <= b || b <= x <= a)
}

/// Fills the triangle with corners `top`, `mid` and `bot`, ordered by y, one
/// horizontal span per row.
pub fn fill_triangle(fb: &mut FrameBuffer, top: Point, mid: Point, bot: Point, c: Color)
    requires
        old(fb).wf(),
        top.bounded(),
        mid.bounded(),
        bot.bounded(),
        top.y <= mid.y <= bot.y,
    ensures
        final(fb).wf(),
        final(fb).same_size(old(fb)),
        forall|x: int, y: int| #[trigger]
            final(fb).in_bounds(x, y) ==> final(fb).pixel(x, y) == if in_triangle_span(
                top,
                mid,
                bot,
                x,
                y,
            ) {
                c
            } else {
                old(fb).pixel(x, y)
            },
{
    let ghost old_fb = *fb;
    let xv1 = line_xcoords(top, bot);
    let xv_top = line_xcoords(top, mid);
    let xv_bot = line_xcoords(mid, bot);
    let rows: usize = xv1.len();
    let split: usize = xv_top.len();
    let mut i: usize = 0;
    while i < rows
        invariant
            old_fb.wf(),
            fb.wf(),
            fb.same_size(&old_fb),
            top.bounded(),
            mid.bounded(),
            bot.bounded(),
            top.y <= mid.y <= bot.y,
            rows == xv1@.len() == bot.y - top.y + 1,
            split == xv_top@.len() == mid.y - top.y + 1,
            xv_bot@.len() == bot.y - mid.y + 1,
            forall|k: int| 0 <= k < xv1@.len() ==> #[trigger] xv1@[k] as int == edge_x(top, bot, k),
            forall|k: int| 0 <= k < xv_top@.len() ==> #[trigger] xv_top@[k] as int == edge_x(top, mid, k),
            forall|k: int| 0 <= k < xv_bot@.len() ==> #[trigger] xv_bot@[k] as int == edge_x(mid, bot, k),
            0 <= i <= rows,
            forall|x: int, y: int| #[trigger]
                fb.in_bounds(x, y) ==> fb.pixel(x, y) == if in_triangle_span(top, mid, bot, x, y)
                    && y < top.y + i {
                    c
                } else {
                    old_fb.pixel(x, y)
                },
        decreases rows - i,
    {
        let a = xv1[i];
        let b = if i < split { xv_top[i] } else { xv_bot[i - split + 1] };
        let y: i32 = top.y + i as i32;
        let (lo, hi) = if a <= b { (a, b) } else { (b, a) };
        proof {
            lemma_edge_between(top, bot, i as int);
            if i < split {
                lemma_edge_between(top, mid, i as int);
            } else {
                lemma_edge_between(mid, bot, i - split + 1);
            }
        }
        let ghost prev = *fb;
        fb.fill_rect(lo, y, hi - lo + 1, 1, c);
        assert forall|x: int, yy: int| #[trigger]
            fb.in_bounds(x, yy) implies prev.in_bounds(x, yy) && fb.pixel(x, yy) == if yy == y
                && lo <= x <= hi {
                c
            } else {
                prev.pixel(x, yy)
            } by {}
        assert forall|x: int|
            #![auto]
            in_triangle_span(top, mid, bot, x, y as int) == (lo <= x <= hi) by {}
        i = i + 1;
    }
}


/// Channel `s` over channel `d` at opacity `a` of 255.
pub open spec fn blend_channel(s: u8, d: u8, a: u8) -> u8 {
    ((s * a + d * (255 - a)) / 255) as u8
}

/// Pixel `src` composited over `dst` by its alpha.
pub open spec fn blend(src: Rgba, dst: Color) -> Color {
    Color {
        r: blend_channel(src.r, dst.r, src.a),
        g: blend_channel(src.g, dst.g, src.a),
        b: blend_channel(src.b, dst.b, src.a),
    }
}

fn blend_channel_exec(s: u8, d: u8, a: u8) -> (r: u8)
    ensures
        r == blend_channel(s, d, a),
{
    assert(s * a + d * (255 - a) <= 255 * 255) by (nonlinear_arith)
        requires
            s <= 255,
            d <= 255,
            a <= 255,
    ;
    let v: u32 = (s as u32 * a as u32 + d as u32 * (255 - a as u32)) / 255;
    v as u8
}

/// Composites bitmap `bm` over the surface with its top left corner at
/// `(x, y)`; the part off the surface is dropped.
pub fn draw_bitmap(fb: &mut FrameBuffer, bm: &Bitmap, x: i32, y: i32)
    requires
        old(fb).wf(),
        bm.wf(),
        bm.width <= 0x7fff,
        bm.height <= 0x7fff,
        -0x8000 <= x <= 0x7fff,
        -0x8000 <= y <= 0x7fff,
    ensures
        final(fb).wf(),
        final(fb).same_size(old(fb)),
        forall|px: int, py: int| #[trigger]
            final(fb).in_bounds(px, py) ==> final(fb).pixel(px, py) == if in_rect(
                px,
                py,
                x as int,
                y as int,
                bm.width as int,
                bm.height as int,
            ) {
                blend(bm.at(px - x, py - y), old(fb).pixel(px, py))
            } else {
                old(fb).pixel(px, py)
            },
{
    let ghost old_fb = *fb;
    let w = bm.width as i32;
    let h = bm.height as i32;
    let mut by: i32 = 0;
    while by < h
        invariant
            old_fb.wf(),
            fb.wf(),
            fb.same_size(&old_fb),
            bm.wf(),
            w == bm.width,
            h == bm.height,
            w <= 0x7fff,
            h <= 0x7fff,
            -0x8000 <= x <= 0x7fff,
            -0x8000 <= y <= 0x7fff,
            0 <= by <= h,
            forall|px: int, py: int| #[trigger]
                fb.in_bounds(px, py) ==> fb.pixel(px, py) == if in_rect(
                    px,
                    py,
                    x as int,
                    y as int,
                    w as int,
                    by as int,
                ) {
                    blend(bm.at(px - x, py - y), old_fb.pixel(px, py))
                } else {
                    old_fb.pixel(px, py)
                },
        decreases h - by,
    {
        let mut bx: i32 = 0;
        while bx < w
            invariant
                old_fb.wf(),
                fb.wf(),
                fb.same_size(&old_fb),
                bm.wf(),
                w == bm.width,
                h == bm.height,
                w <= 0x7fff,
                h <= 0x7fff,
                -0x8000 <= x <= 0x7fff,
                -0x8000 <= y <= 0x7fff,
                0 <= by < h,
                0 <= bx <= w,
                forall|px: int, py: int| #[trigger]
                    fb.in_bounds(px, py) ==> fb.pixel(px, py) == if in_rect(
                        px,
                        py,
                        x as int,
                        y as int,
                        w as int,
                        by as int,
                    ) || (py == y + by && x <= px < x + bx) {
                        blend(bm.at(px - x, py - y), old_fb.pixel(px, py))
                    } else {
                        old_fb.pixel(px, py)
                    },
            decreases w - bx,
        {
            let px = x + bx;
            let py = y + by;
            if 0 <= px && (px as usize) < fb.width && 0 <= py && (py as usize) < fb.height {
                assert(by * w + bx < w * h) by (nonlinear_arith)
                    requires
                        0 <= by < h,
                        0 <= bx < w,
                ;
                assert(0 <= by * w && w * h <= 0x7fff * 0x7fff) by (nonlinear_arith)
                    requires
                        0 <= by,
                        0 <= w <= 0x7fff,
                        0 <= h <= 0x7fff,
                ;
                let src = bm.pixels[(by as usize) * (w as usize) + bx as usize];
                let dst = fb.get(px as usize, py as usize);
                let c = Color {
                    r: blend_channel_exec(src.r, dst.r, src.a),
                    g: blend_channel_exec(src.g, dst.g, src.a),
                    b: blend_channel_exec(src.b, dst.b, src.a),
                };
                let ghost prev = *fb;
                fb.set_pixel(px, py, c);
                assert forall|qx: int, qy: int| #[trigger]
                    fb.in_bounds(qx, qy) implies prev.in_bounds(qx, qy) && fb.pixel(qx, qy) == if qx
                        == px && qy == py {
                        c
                    } else {
                        prev.pixel(qx, qy)
                    } by {}
            }
            bx = bx + 1;
        }
        by = by + 1;
    }
}

} // verus!
