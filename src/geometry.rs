use vstd::prelude::*;
use vstd::arithmetic::div_mod::lemma_fundamental_div_mod_converse;

verus! {

/// A point in pixel or logical coordinates.
#[derive(Clone, Copy, Debug, PartialEq, Eq, Structural)]
pub struct Point {
    pub x: i32,
    pub y: i32,
}

/// Width of the logical coordinate space.
pub const LOGICAL_WIDTH: i32 = 1280;

/// Height of the logical coordinate space.
pub const LOGICAL_HEIGHT: i32 = 1024;

/// Bound on the coordinates that the rasterizers accept.
pub const COORD_MAX: i32 = 0x100000;

impl Point {
    pub fn new(x: i32, y: i32) -> (p: Point)
        ensures
            p == (Point { x, y }),
    {
        Point { x, y }
    }

    pub open spec fn bounded(&self) -> bool {
        -COORD_MAX <= self.x <= COORD_MAX && -COORD_MAX <= self.y <= COORD_MAX
    }
}

/// Integer division rounding toward zero, as the machine divides.
pub open spec fn trunc_div(a: int, b: int) -> int {
    if a >= 0 {
        a / b
    } else {
        -((-a) / b)
    }
}

pub open spec fn abs(a: int) -> int {
    if a < 0 {
        -a
    } else {
        a
    }
}

pub open spec fn sign(a: int) -> int {
    if a < 0 {
        -1
    } else {
        1
    }
}

/// `a * num / den`, rounded toward zero, for `a` in `i16`'s range.
fn mul_div_trunc(a: i32, num: i32, den: i32) -> (r: i32)
    requires
        -0x8000 <= a <= 0x7fff,
        0 < num <= 4096,
        1024 <= den <= 4096,
    ensures
        r == trunc_div(a * num, den as int),
        -0x20000 <= r <= 0x20000,
        a >= 0 ==> r >= 0,
{
    assert(-0x8000 * 4096 <= a * num <= 0x7fff * 4096) by (nonlinear_arith)
        requires
            -0x8000 <= a <= 0x7fff,
            0 < num <= 4096,
    ;
    let prod: i64 = a as i64 * num as i64;
    if prod >= 0 {
        let q = prod / den as i64;
        assert(0 <= q <= 0x20000) by (nonlinear_arith)
            requires
                q == prod as int / den as int,
                0 <= prod <= 0x7fff * 4096,
                den >= 1024,
        ;
        q as i32
    } else {
        let q = (-prod) / den as i64;
        assert(0 <= q <= 0x20000) by (nonlinear_arith)
            requires
                q == (-prod) as int / den as int,
                0 <= -prod <= 0x8000 * 4096,
                den >= 1024,
        ;
        (-q) as i32
    }
}

/// The pixel that a point maps to in a `width` by `height` mode: when logical
/// coordinates are on, the 1280 by 1024 logical space is scaled down to the
/// mode; otherwise the point is taken as it is.
pub open spec fn scale_spec(p: Point, logical: bool, width: int, height: int) -> Point {
    if logical {
        Point {
            x: trunc_div(p.x * width, LOGICAL_WIDTH as int) as i32,
            y: trunc_div(p.y * height, LOGICAL_HEIGHT as int) as i32,
        }
    } else {
        p
    }
}

pub fn scale(p: Point, logical: bool, width: i32, height: i32) -> (r: Point)
    requires
        -0x8000 <= p.x <= 0x7fff,
        -0x8000 <= p.y <= 0x7fff,
        0 < width <= 4096,
        0 < height <= 4096,
    ensures
        r == scale_spec(p, logical, width as int, height as int),
        -0x20000 <= r.x <= 0x20000,
        -0x20000 <= r.y <= 0x20000,
        p.x >= 0 ==> r.x >= 0,
        p.y >= 0 ==> r.y >= 0,
{
    if logical {
        Point {
            x: mul_div_trunc(p.x, width, LOGICAL_WIDTH),
            y: mul_div_trunc(p.y, height, LOGICAL_HEIGHT),
        }
    } else {
        p
    }
}

/// Applies the graphics origin: with logical coordinates the y axis points
/// up from the bottom row, otherwise down from the top row.
pub open spec fn translate_spec(p: Point, logical: bool, height: int, origin: Point) -> Point {
    if logical {
        Point { x: (p.x + origin.x) as i32, y: (height - 1 - p.y - origin.y) as i32 }
    } else {
        Point { x: (p.x + origin.x) as i32, y: (p.y + origin.y) as i32 }
    }
}

pub fn translate(p: Point, logical: bool, height: i32, origin: Point) -> (r: Point)
    requires
        -0x20000 <= p.x <= 0x20000,
        -0x20000 <= p.y <= 0x20000,
        0 <= origin.x <= 0x20000,
        0 <= origin.y <= 0x20000,
        0 < height <= 4096,
    ensures
        r == translate_spec(p, logical, height as int, origin),
        -0x41000 <= r.x <= 0x41000,
        -0x41000 <= r.y <= 0x41000,
{
    if logical {
        Point { x: p.x + origin.x, y: height - 1 - p.y - origin.y }
    } else {
        Point { x: p.x + origin.x, y: p.y + origin.y }
    }
}

/// The logical point that a pixel maps back to: `translate` and then
/// `scale` undone, each division rounding toward zero.
pub open spec fn logical_of(q: Point, width: int, height: int, origin: Point) -> (int, int) {
    (
        trunc_div((q.x - origin.x) * LOGICAL_WIDTH, width),
        trunc_div((height - 1 - q.y - origin.y) * LOGICAL_HEIGHT, height),
    )
}

proof fn lemma_scale_round_trip_axis(a: int, w: int, l: int)
    requires
        0 < w <= l,
    ensures
        abs(trunc_div(trunc_div(trunc_div(a * w, l) * l, w) * w, l) - trunc_div(a * w, l)) <= 1,
{
    let q = trunc_div(a * w, l);
    let b = trunc_div(q * l, w);
    let q2 = trunc_div(b * w, l);
    if a >= 0 {
        assert(a * w >= 0) by (nonlinear_arith)
            requires
                a >= 0,
                w > 0,
        ;
        assert(q >= 0 && q * l <= a * w) by (nonlinear_arith)
            requires
                q == (a * w) / l,
                a * w >= 0,
                l > 0,
        ;
        assert(q * l >= 0) by (nonlinear_arith)
            requires
                q >= 0,
                l > 0,
        ;
        assert(b >= 0 && b * w <= q * l && b * w > q * l - w) by (nonlinear_arith)
            requires
                b == (q * l) / w,
                q * l >= 0,
                w > 0,
        ;
        assert(b * w >= 0) by (nonlinear_arith)
            requires
                b >= 0,
                w > 0,
        ;
        assert(q2 <= q && q2 >= q - 1) by (nonlinear_arith)
            requires
                q2 == (b * w) / l,
                b * w >= 0,
                b * w <= q * l,
                b * w > q * l - w,
                0 < w <= l,
                q >= 0,
        ;
    } else {
        let na = -a;
        assert(na * w > 0) by (nonlinear_arith)
            requires
                na > 0,
                w > 0,
        ;
        assert(a * w == -(na * w)) by (nonlinear_arith)
            requires
                na == -a,
        ;
        let nq = (na * w) / l;
        assert(nq >= 0 && nq * l <= na * w) by (nonlinear_arith)
            requires
                nq == (na * w) / l,
                na * w >= 0,
                l > 0,
        ;
        assert(q == -nq);
        assert(q * l == -(nq * l)) by (nonlinear_arith)
            requires
                q == -nq,
        ;
        assert(nq * l >= 0) by (nonlinear_arith)
            requires
                nq >= 0,
                l > 0,
        ;
        let nb = (nq * l) / w;
        assert(nb >= 0 && nb * w <= nq * l && nb * w > nq * l - w) by (nonlinear_arith)
            requires
                nb == (nq * l) / w,
                nq * l >= 0,
                w > 0,
        ;
        if nq * l == 0 {
            assert(b == 0);
            assert(q2 == 0) by (nonlinear_arith)
                requires
                    q2 == trunc_div(b * w, l),
                    b == 0,
                    l > 0,
            ;
            assert(nq == 0) by (nonlinear_arith)
                requires
                    nq * l == 0,
                    l > 0,
            ;
        } else {
            assert(b == -nb);
            assert(b * w == -(nb * w)) by (nonlinear_arith)
                requires
                    b == -nb,
            ;
            assert(nb * w >= 0) by (nonlinear_arith)
                requires
                    nb >= 0,
                    w > 0,
            ;
            let nq2 = (nb * w) / l;
            assert(nq2 <= nq && nq2 >= nq - 1) by (nonlinear_arith)
                requires
                    nq2 == (nb * w) / l,
                    nb * w >= 0,
                    nb * w <= nq * l,
                    nb * w > nq * l - w,
                    0 < w <= l,
                    nq >= 0,
            ;
            if nb * w == 0 {
                assert(q2 == 0);
                assert(nq2 == 0);
            } else {
                assert(q2 == -nq2);
            }
        }
    }
}

/// With logical coordinates on, a point taken to its pixel and mapped back
/// lands on the same pixel, up to one pixel per axis of rounding.
pub proof fn lemma_logical_round_trip(p: Point, width: i32, height: i32, origin: Point)
    requires
        -0x8000 <= p.x <= 0x7fff,
        -0x8000 <= p.y <= 0x7fff,
        0 < width <= LOGICAL_WIDTH,
        0 < height <= LOGICAL_HEIGHT,
        0 <= origin.x <= 4096,
        0 <= origin.y <= 4096,
    ensures
        ({
            let s = scale_spec(p, true, width as int, height as int);
            let q = translate_spec(s, true, height as int, origin);
            let back = logical_of(q, width as int, height as int, origin);
            let again = scale_spec(
                Point { x: back.0 as i32, y: back.1 as i32 },
                true,
                width as int,
                height as int,
            );
            abs(again.x - s.x) <= 1 && abs(again.y - s.y) <= 1
        }),
{
    let s = scale_spec(p, true, width as int, height as int);
    lemma_scale_round_trip_axis(p.x as int, width as int, LOGICAL_WIDTH as int);
    lemma_scale_round_trip_axis(p.y as int, height as int, LOGICAL_HEIGHT as int);
    assert(-0x8000 * 4096 <= p.x * width <= 0x7fff * 4096) by (nonlinear_arith)
        requires
            -0x8000 <= p.x <= 0x7fff,
            0 < width <= 4096,
    ;
    assert(-0x8000 * 4096 <= p.y * height <= 0x7fff * 4096) by (nonlinear_arith)
        requires
            -0x8000 <= p.y <= 0x7fff,
            0 < height <= 4096,
    ;
}

/// `a / d == q` whenever `q * d <= a < q * d + d`.
proof fn lemma_floor_unique(a: int, d: int, q: int)
    requires
        d > 0,
        q * d <= a < q * d + d,
    ensures
        a / d == q,
{
    lemma_fundamental_div_mod_converse(a, d, q, a - q * d);
}

/// The x coordinate that the edge from `top` down to `bot` takes on its
/// scanline `k` (scanline 0 is `top.y`). A flat edge has the single value
/// `bot.x`. A steep edge (at most one column per row) moves one column
/// whenever its error term, which starts at minus half the height, turns
/// positive. A shallow edge keeps, for each row strictly between the ends,
/// the column at which it stepped onto that row; the end rows take the end
/// points.
pub open spec fn edge_x(top: Point, bot: Point, k: int) -> int {
    let dy = bot.y - top.y;
    let dx = abs(top.x - bot.x);
    let s: int = if top.x > bot.x {
        -1
    } else {
        1
    };
    if dy == 0 {
        bot.x as int
    } else if dx > dy {
        if k == 0 {
            top.x as int
        } else if k == dy {
            bot.x as int
        } else {
            top.x + s * ((k * dx + dx / 2) / dy)
        }
    } else {
        top.x + s * ((k * dx - dy / 2 + dy - 1) / dy)
    }
}

/// A flat edge has one scanline, whose x is that of its lower end,
/// wherever its upper end lies.
pub proof fn lemma_flat_edge(top: Point, bot: Point)
    requires
        top.y == bot.y,
    ensures
        bot.y - top.y + 1 == 1,
        edge_x(top, bot, 0) == bot.x,
{
}

/// The x coordinate of each scanline of the edge from `top` down to `bot`,
/// one per row from `top.y` to `bot.y`.
pub fn line_xcoords(top: Point, bot: Point) -> (xc: Vec<i32>)
    requires
        top.bounded(),
        bot.bounded(),
        top.y <= bot.y,
    ensures
        xc@.len() == bot.y - top.y + 1,
        forall|k: int| 0 <= k < xc@.len() ==> #[trigger] xc@[k] as int == edge_x(top, bot, k),
{
    let mut xc: Vec<i32> = Vec::new();
    let dy: i32 = bot.y - top.y;
    let dx: i32 = if top.x > bot.x { top.x - bot.x } else { bot.x - top.x };
    let ghost s: int = if top.x > bot.x { -1 } else { 1 };
    if dy == 0 {
        xc.push(bot.x);
    } else if dx > dy {
        let ghost h: int = dx / 2;
        xc.push(top.x);
        let mut t: i32 = -(dx / 2);
        let mut c: i32 = 0;
        let mut k: i32 = 0;
        while k <= dx
            invariant
                0 < dy < dx <= 2 * COORD_MAX,
                dy == bot.y - top.y,
                dx == abs(top.x - bot.x),
                s == if top.x > bot.x { -1int } else { 1int },
                h == dx / 2,
                0 <= k <= dx + 1,
                0 <= c <= dy + 1,
                t == -h + k * dy - c * dx,
                -dx < t <= 0,
                xc@.len() == if c == 0 { 1 } else if c <= dy { c as int } else { dy as int },
                xc@[0] == top.x,
                forall|j: int| 1 <= j < xc@.len() ==> #[trigger] xc@[j] as int == top.x + s * ((j
                    * dx + h) / (dy as int)),
            decreases dx + 1 - k,
        {
            let x: i32 = if top.x > bot.x { top.x - k } else { top.x + k };
            assert(x == top.x + s * k);
            if t + dy > 0 {
                proof {
                    lemma_floor_unique(c * dx + h, dy as int, k as int);
                    assert((c + 1) * dx == c * dx + dx) by (nonlinear_arith);
                    assert(c + 1 <= dy + 1) by (nonlinear_arith)
                        requires
                            (c + 1) * dx < k * dy + dy - h + dx,
                            k <= dx,
                            0 <= h,
                            0 < dy < dx,
                            c >= 0,
                    ;
                }
                if c != 0 && c != dy {
                    xc.push(x);
                }
                t = t + dy - dx;
                c = c + 1;
            } else {
                t = t + dy;
            }
            assert((k + 1) * dy == k * dy + dy) by (nonlinear_arith);
            k = k + 1;
        }
        proof {
            assert(c * dx == -h + dx * dy + dy - t) by (nonlinear_arith)
                requires
                    t == -h + k * dy - c * dx,
                    k == dx + 1,
            ;
            assert((c - dy + 1) * dx == c * dx - dy * dx + dx) by (nonlinear_arith);
            assert(0 <= h <= dx) by {
                assert(h == dx / 2);
            }
            assert((c - dy + 1) * dx > 0) by (nonlinear_arith)
                requires
                    (c - dy + 1) * dx == c * dx - dy * dx + dx,
                    c * dx == -h + dx * dy + dy - t,
                    t <= 0,
                    0 <= h <= dx,
                    dy > 0,
            ;
            assert(c - dy + 1 > 0) by (nonlinear_arith)
                requires
                    (c - dy + 1) * dx > 0,
                    dx > 0,
            ;
        }
        xc.push(bot.x);
    } else {
        let ghost h: int = dy / 2;
        let mut t: i32 = -(dy / 2);
        let mut x: i32 = top.x;
        let mut k: i32 = 0;
        let ghost mut c: int = 0;
        while k <= dy
            invariant
                0 < dy <= 2 * COORD_MAX,
                0 <= dx <= dy,
                dy == bot.y - top.y,
                dx == abs(top.x - bot.x),
                s == if top.x > bot.x { -1int } else { 1int },
                h == dy / 2,
                0 <= k <= dy + 1,
                0 <= c <= k,
                t == -h + k * dx - c * dy,
                -dy < t <= 0,
                x == if top.x > bot.x { top.x - c } else { top.x + c },
                top.bounded(),
                bot.bounded(),
                xc@.len() == k,
                forall|j: int| 0 <= j < xc@.len() ==> #[trigger] xc@[j] as int == edge_x(top, bot, j),
            decreases dy + 1 - k,
        {
            proof {
                lemma_floor_unique(k * dx - h + dy - 1, dy as int, c);
                assert(c <= dx) by (nonlinear_arith)
                    requires
                        t == -h + k * dx - c * dy,
                        -dy < t,
                        k <= dy,
                        0 <= dx <= dy,
                        0 <= h,
                ;
            }
            assert(x == top.x + s * c) by {
                if top.x > bot.x {
                    assert(s * c == -c);
                } else {
                    assert(s * c == c);
                }
            }
            assert(x == edge_x(top, bot, k as int));
            xc.push(x);
            assert((k + 1) * dx == k * dx + dx) by (nonlinear_arith);
            if t + dx > 0 {
                x = if top.x > bot.x { x - 1 } else { x + 1 };
                t = t + dx - dy;
                proof {
                    assert((c + 1) * dy == c * dy + dy) by (nonlinear_arith);
                    c = c + 1;
                }
            } else {
                t = t + dx;
            }
            k = k + 1;
        }
    }
    xc
}

/// Each scanline of an edge lies between the columns of its two ends.
pub proof fn lemma_edge_between(top: Point, bot: Point, k: int)
    requires
        top.y <= bot.y,
        0 <= k <= bot.y - top.y,
    ensures
        top.x <= edge_x(top, bot, k) <= bot.x || bot.x <= edge_x(top, bot, k) <= top.x,
{
    let dy = bot.y - top.y;
    let dx = abs(top.x - bot.x);
    if dy != 0 {
        if dx > dy {
            if 0 < k < dy {
                let v = (k * dx + dx / 2) / dy;
                assert(0 <= v <= dx) by (nonlinear_arith)
                    requires
                        v == (k * dx + dx / 2) / dy,
                        0 < k < dy,
                        0 < dy < dx,
                ;
                if top.x > bot.x {
                    assert(edge_x(top, bot, k) == top.x + (-1) * v);
                    assert((-1) * v == -v);
                } else {
                    assert(edge_x(top, bot, k) == top.x + v);
                }
            }
        } else {
            let v = (k * dx - dy / 2 + dy - 1) / dy;
            assert(0 <= v <= dx) by (nonlinear_arith)
                requires
                    v == (k * dx - dy / 2 + dy - 1) / dy,
                    0 <= k <= dy,
                    0 <= dx <= dy,
                    dy > 0,
            ;
            if top.x > bot.x {
                assert(edge_x(top, bot, k) == top.x + (-1) * v);
                assert((-1) * v == -v);
            } else {
                assert(edge_x(top, bot, k) == top.x + v);
            }
        }
    }
}

} // verus!
