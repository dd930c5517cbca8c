use vstd::prelude::*;

verus! {

/// An RGB pixel value.
#[derive(Clone, Copy, Debug, PartialEq, Eq, Structural)]
pub struct Color {
    pub r: u8,
    pub g: u8,
    pub b: u8,
}

impl Color {
    pub fn rgb(r: u8, g: u8, b: u8) -> (c: Color)
        ensures
            c == (Color { r, g, b }),
    {
        Color { r, g, b }
    }
}

/// Largest framebuffer dimension, in pixels.
pub const MAX_DIM: usize = 4096;

/// A rectangular pixel surface, stored row by row.
pub struct FrameBuffer {
    pub width: usize,
    pub height: usize,
    pub rows: Vec<Vec<Color>>,
}

/// Whether `(x, y)` lies in the rectangle at `(rx, ry)` of size `w` by `h`.
pub open spec fn in_rect(x: int, y: int, rx: int, ry: int, w: int, h: int) -> bool {
    rx <= x < rx + w && ry <= y < ry + h
}

impl FrameBuffer {
    pub open spec fn wf(&self) -> bool {
        &&& 0 < self.width <= MAX_DIM
        &&& 0 < self.height <= MAX_DIM
        &&& self.rows@.len() == self.height
        &&& forall|y: int| 0 <= y < self.height ==> #[trigger] self.rows@[y]@.len() == self.width
    }

    pub open spec fn in_bounds(&self, x: int, y: int) -> bool {
        0 <= x < self.width && 0 <= y < self.height
    }

    /// The pixel at column `x` of row `y`.
    pub open spec fn pixel(&self, x: int, y: int) -> Color {
        self.rows@[y]@[x]
    }

    /// Same size as `other`.
    pub open spec fn same_size(&self, other: &FrameBuffer) -> bool {
        self.width == other.width && self.height == other.height
    }

    /// Every pixel of the surface holds `c`.
    pub open spec fn all(&self, c: Color) -> bool {
        forall|x: int, y: int| #[trigger] self.in_bounds(x, y) ==> self.pixel(x, y) == c
    }

    /// A row of `width` pixels of color `c`.
    fn solid_row(width: usize, c: Color) -> (row: Vec<Color>)
        ensures
            row@.len() == width,
            forall|x: int| 0 <= x < width ==> #[trigger] row@[x] == c,
    {
        let mut row: Vec<Color> = Vec::new();
        for i in 0..width
            invariant
                row@.len() == i,
                forall|x: int| 0 <= x < i ==> #[trigger] row@[x] == c,
        {
            row.push(c);
        }
        row
    }

    /// A surface of the given size filled with `c`.
    pub fn new(width: usize, height: usize, c: Color) -> (fb: FrameBuffer)
        requires
            0 < width <= MAX_DIM,
            0 < height <= MAX_DIM,
        ensures
            fb.wf(),
            fb.width == width,
            fb.height == height,
            fb.all(c),
    {
        let mut rows: Vec<Vec<Color>> = Vec::new();
        for j in 0..height
            invariant
                rows@.len() == j,
                forall|y: int| 0 <= y < j ==> #[trigger] rows@[y]@.len() == width,
                forall|x: int, y: int|
                    0 <= y < j && 0 <= x < width ==> #[trigger] rows@[y]@[x] == c,
        {
            let row = Self::solid_row(width, c);
            rows.push(row);
        }
        FrameBuffer { width, height, rows }
    }

    /// The pixel at `(x, y)`.
    pub fn get(&self, x: usize, y: usize) -> (c: Color)
        requires
            self.wf(),
            self.in_bounds(x as int, y as int),
        ensures
            c == self.pixel(x as int, y as int),
    {
        self.rows[y][x]
    }

    /// Fills the part of the rectangle at `(x, y)` of size `w` by `h` that
    /// lies on the surface with `c`; the rest of the surface is unchanged.
    pub fn fill_rect(&mut self, x: i32, y: i32, w: i32, h: i32, c: Color)
        requires
            old(self).wf(),
        ensures
            final(self).wf(),
            final(self).same_size(old(self)),
            forall|px: int, py: int| #[trigger]
                final(self).in_bounds(px, py) ==> final(self).pixel(px, py) == if in_rect(
                    px,
                    py,
                    x as int,
                    y as int,
                    w as int,
                    h as int,
                ) {
                    c
                } else {
                    old(self).pixel(px, py)
                },
    {
        let ghost old_fb = *self;
        let width = self.width as i64;
        let height = self.height as i64;
        let x0: i64 = if (x as i64) < 0 { 0 } else { x as i64 };
        let y0: i64 = if (y as i64) < 0 { 0 } else { y as i64 };
        let x1: i64 = if (x as i64) + (w as i64) > width { width } else { (x as i64) + (w as i64) };
        let y1: i64 = if (y as i64) + (h as i64) > height { height } else { (y as i64) + (h as i64) };
        if x0 >= x1 || y0 >= y1 {
            return;
        }
        let mut j: i64 = y0;
        while j < y1
            invariant
                old_fb.wf(),
                self.wf(),
                self.same_size(&old_fb),
                width == self.width,
                height == self.height,
                0 <= x0 < x1 <= width,
                0 <= y0 <= j <= y1 <= height,
                x0 == if x < 0 { 0 } else { x as int },
                y0 == if y < 0 { 0 } else { y as int },
                x1 == if x + w > width { width as int } else { x + w },
                y1 == if y + h > height { height as int } else { y + h },
                forall|px: int, py: int| #[trigger]
                    self.in_bounds(px, py) ==> self.pixel(px, py) == if in_rect(
                        px,
                        py,
                        x as int,
                        y as int,
                        w as int,
                        (j - y) as int,
                    ) {
                        c
                    } else {
                        old_fb.pixel(px, py)
                    },
            decreases y1 - j,
        {
            let ju = j as usize;
            let mut i: i64 = x0;
            while i < x1
                invariant
                    old_fb.wf(),
                    self.wf(),
                    self.same_size(&old_fb),
                    width == self.width,
                    height == self.height,
                    0 <= x0 <= i <= x1 <= width,
                    0 <= y0 <= j < y1 <= height,
                    ju == j,
                    x0 == if x < 0 { 0 } else { x as int },
                    y0 == if y < 0 { 0 } else { y as int },
                    x1 == if x + w > width { width as int } else { x + w },
                    y1 == if y + h > height { height as int } else { y + h },
                    forall|px: int, py: int| #[trigger]
                        self.in_bounds(px, py) ==> self.pixel(px, py) == if in_rect(
                            px,
                            py,
                            x as int,
                            y as int,
                            w as int,
                            (j - y) as int,
                        ) || (py == j && x <= px < i) {
                            c
                        } else {
                            old_fb.pixel(px, py)
                        },
                decreases x1 - i,
            {
                let iu = i as usize;
                let ghost prev = *self;
                self.rows[ju][iu] = c;
                assert(forall|px: int, py: int| #[trigger]
                    self.in_bounds(px, py) ==> prev.in_bounds(px, py) && self.pixel(px, py) == if px
                        == i && py == j {
                        c
                    } else {
                        prev.pixel(px, py)
                    });
                i = i + 1;
            }
            j = j + 1;
        }
    }

    /// Sets the pixel at `(x, y)` to `c` when it lies on the surface.
    pub fn set_pixel(&mut self, x: i32, y: i32, c: Color)
        requires
            old(self).wf(),
        ensures
            final(self).wf(),
            final(self).same_size(old(self)),
            forall|px: int, py: int| #[trigger]
                final(self).in_bounds(px, py) ==> final(self).pixel(px, py) == if px == x && py
                    == y {
                    c
                } else {
                    old(self).pixel(px, py)
                },
    {
        if 0 <= x && (x as usize) < self.width && 0 <= y && (y as usize) < self.height {
            self.rows[y as usize][x as usize] = c;
        }
    }

    /// Pixel of the surface after moving its rows from `start_row` down by
    /// `dx`, `dy`: rows above `start_row` keep their pixels, the rest show
    /// the pixel from `(x - dx, y - dy)` when that lies on the surface, at
    /// or below `start_row`, and `bg` where nothing moved in.
    pub open spec fn shifted_pixel(&self, start_row: int, dx: int, dy: int, bg: Color, x: int, y: int) -> Color {
        if y < start_row {
            self.pixel(x, y)
        } else if 0 <= x - dx < self.width && 0 <= y - dy < self.height && start_row <= y - dy {
            self.pixel(x - dx, y - dy)
        } else {
            bg
        }
    }

    /// A new surface holding this one with its rows from `start_row` on moved
    /// by `dx`, `dy`; the uncovered area takes `bg`.
    pub fn shifted(&self, start_row: i32, dx: i32, dy: i32, bg: Color) -> (r: FrameBuffer)
        requires
            self.wf(),
        ensures
            r.wf(),
            r.same_size(self),
            forall|x: int, y: int| #[trigger]
                r.in_bounds(x, y) ==> r.pixel(x, y) == self.shifted_pixel(
                    start_row as int,
                    dx as int,
                    dy as int,
                    bg,
                    x,
                    y,
                ),
    {
        let width = self.width;
        let height = self.height;
        let mut rows: Vec<Vec<Color>> = Vec::new();
        for j in 0..height
            invariant
                self.wf(),
                width == self.width,
                height == self.height,
                rows@.len() == j,
                forall|y: int| 0 <= y < j ==> #[trigger] rows@[y]@.len() == width,
                forall|x: int, y: int|
                    0 <= y < j && 0 <= x < width ==> #[trigger] rows@[y]@[x]
                        == self.shifted_pixel(start_row as int, dx as int, dy as int, bg, x, y),
        {
            let mut row: Vec<Color> = Vec::new();
            for i in 0..width
                invariant
                    self.wf(),
                    width == self.width,
                    height == self.height,
                    0 <= j < height,
                    row@.len() == i,
                    forall|x: int|
                        0 <= x < i ==> #[trigger] row@[x] == self.shifted_pixel(
                            start_row as int,
                            dx as int,
                            dy as int,
                            bg,
                            x,
                            j as int,
                        ),
            {
                let yy = j as i64;
                let xx = i as i64;
                let sx = xx - dx as i64;
                let sy = yy - dy as i64;
                let c = if yy < start_row as i64 {
                    self.rows[j][i]
                } else if 0 <= sx && sx < width as i64 && 0 <= sy && sy < height as i64
                    && start_row as i64 <= sy {
                    self.rows[sy as usize][sx as usize]
                } else {
                    bg
                };
                row.push(c);
            }
            rows.push(row);
        }
        FrameBuffer { width, height, rows }
    }

    /// Scrolling up by `d` rows keeps every row that stays on the surface
    /// bit for bit (row `y` shows what row `y + d` showed) and fills the `d`
    /// rows uncovered at the bottom with `bg`.
    pub proof fn lemma_scroll_up_rows(&self, d: int, bg: Color, x: int, y: int)
        requires
            self.wf(),
            0 < d <= self.height,
            self.in_bounds(x, y),
        ensures
            y < self.height - d ==> self.shifted_pixel(0, 0, -d, bg, x, y) == self.pixel(x, y + d),
            y >= self.height - d ==> self.shifted_pixel(0, 0, -d, bg, x, y) == bg,
    {
    }
}

} // verus!
