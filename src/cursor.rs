use vstd::prelude::*;

verus! {

/// Largest screen dimension, in pixels, that a cursor accepts.
pub const MAX_SCREEN: i32 = 4096;

/// Largest glyph dimension, in pixels, that a cursor accepts.
pub const MAX_FONT: i32 = 64;

/// Largest row coordinate that the cursor reaches: far below any screen,
/// and far enough from the top of `i32` that pixel arithmetic on it cannot
/// overflow.
pub const MAX_POSITION_Y: i32 = 0x3fff_ffff;

/// Flow control of paged mode.
#[derive(Clone, Copy, Debug, PartialEq, Eq, Structural)]
pub enum PageState {
    /// Lines moved down since the last scroll.
    Counting(i32),
    /// A screenful has been written: a scroll is deferred until continuation.
    AwaitingContinue,
    /// Continuation was granted: the deferred scroll happens on the next poll.
    ContinueGranted,
}

/// Text-cell position of the cursor and the paging state.
pub struct Cursor {
    pub position_x: i32,
    pub position_y: i32,
    pub screen_width: i32,
    pub screen_height: i32,
    pub font_width: i32,
    pub font_height: i32,
    pub paged_mode: bool,
    pub paged_count: PageState,
}

impl Cursor {
    /// Screen and font dimensions that a cursor can work with.
    pub open spec fn dims_ok(screen_width: int, screen_height: int, font_width: int, font_height: int) -> bool {
        &&& 0 < screen_width <= MAX_SCREEN
        &&& 0 < screen_height <= MAX_SCREEN
        &&& 0 < font_width <= MAX_FONT
        &&& 0 < font_height <= MAX_FONT
    }

    /// The cursor stays on a column of the screen, and its row within the
    /// machine bound.
    pub open spec fn wf(&self) -> bool {
        &&& Self::dims_ok(
            self.screen_width as int,
            self.screen_height as int,
            self.font_width as int,
            self.font_height as int,
        )
        &&& 0 <= self.position_x < self.screen_width
        &&& 0 <= self.position_y <= MAX_POSITION_Y
        &&& (self.paged_count matches PageState::Counting(n) ==> 0 <= n && n * self.font_height
            < self.screen_height)
    }

    /// Paging state after one more line was moved down.
    pub open spec fn next_page_state(&self) -> PageState {
        match self.paged_count {
            PageState::Counting(n) => if (n + 1) * self.font_height >= self.screen_height {
                PageState::AwaitingContinue
            } else {
                PageState::Counting((n + 1) as i32)
            },
            PageState::AwaitingContinue => PageState::AwaitingContinue,
            PageState::ContinueGranted => if self.font_height >= self.screen_height {
                PageState::AwaitingContinue
            } else {
                PageState::Counting(1)
            },
        }
    }

    /// Row position after moving down one text row: one glyph height
    /// further, up to the machine bound on the row coordinate.
    pub open spec fn row_below(&self) -> i32 {
        if self.position_y + self.font_height <= MAX_POSITION_Y {
            (self.position_y + self.font_height) as i32
        } else {
            self.position_y
        }
    }

    /// The cursor after `down`.
    pub open spec fn moved_down(&self) -> Cursor {
        Cursor {
            position_y: self.row_below(),
            paged_count: if self.paged_mode {
                self.next_page_state()
            } else {
                self.paged_count
            },
            ..*self
        }
    }

    /// The cursor after `up`.
    pub open spec fn moved_up(&self) -> Cursor {
        Cursor {
            position_y: if self.position_y - self.font_height < 0 {
                0
            } else {
                (self.position_y - self.font_height) as i32
            },
            ..*self
        }
    }

    /// The cursor after `left`.
    pub open spec fn moved_left(&self) -> Cursor {
        Cursor {
            position_x: if self.position_x - self.font_width < 0 {
                0
            } else {
                (self.position_x - self.font_width) as i32
            },
            ..*self
        }
    }

    /// The cursor after `right`: one column on, or the start of the next
    /// row past the right edge.
    pub open spec fn moved_right(&self) -> Cursor {
        if self.position_x + self.font_width < self.screen_width {
            Cursor { position_x: (self.position_x + self.font_width) as i32, ..*self }
        } else {
            Cursor { position_x: 0, ..self.moved_down() }
        }
    }

    /// The cursor after `home`.
    pub open spec fn homed(&self) -> Cursor {
        Cursor { position_x: 0, ..*self }
    }

    /// Whether the cursor row reaches below the screen, so that the screen
    /// must scroll; never while paged mode waits for continuation.
    pub open spec fn needs_scroll(&self) -> bool {
        &&& !(self.paged_mode && self.paged_count == PageState::AwaitingContinue)
        &&& self.position_y - self.screen_height + self.font_height > 0
    }

    /// The cursor after the screen scrolled up by one glyph height.
    pub open spec fn scrolled(&self) -> Cursor {
        Cursor { position_y: (self.position_y - self.font_height) as i32, ..*self }
    }

    pub fn new(screen_width: i32, screen_height: i32, font_width: i32, font_height: i32) -> (r:
        Cursor)
        requires
            Self::dims_ok(
                screen_width as int,
                screen_height as int,
                font_width as int,
                font_height as int,
            ),
        ensures
            r.wf(),
            r.position_x == 0,
            r.position_y == 0,
            r.screen_width == screen_width,
            r.screen_height == screen_height,
            r.font_width == font_width,
            r.font_height == font_height,
            !r.paged_mode,
            r.paged_count == PageState::Counting(0),
    {
        Cursor {
            position_x: 0,
            position_y: 0,
            screen_width,
            screen_height,
            font_width,
            font_height,
            paged_mode: false,
            paged_count: PageState::Counting(0),
        }
    }

    /// Moves to the start of the current row.
    pub fn home(&mut self)
        requires
            old(self).wf(),
        ensures
            final(self).wf(),
            *final(self) == old(self).homed(),
    {
        self.position_x = 0;
    }

    /// Moves down one text row; in paged mode counts the row and defers the
    /// scroll once a screenful has been written.
    pub fn down(&mut self)
        requires
            old(self).wf(),
        ensures
            final(self).wf(),
            *final(self) == old(self).moved_down(),
    {
        if self.position_y <= MAX_POSITION_Y - self.font_height {
            self.position_y = self.position_y + self.font_height;
        }
        if self.paged_mode {
            match self.paged_count {
                PageState::Counting(n) => {
                    let fh = self.font_height;
                    assert(n <= n * fh) by (nonlinear_arith)
                        requires
                            n >= 0,
                            fh >= 1,
                    ;
                    assert((n + 1) * fh == n * fh + fh) by (nonlinear_arith);
                    if (n + 1) * self.font_height >= self.screen_height {
                        self.paged_count = PageState::AwaitingContinue;
                    } else {
                        self.paged_count = PageState::Counting(n + 1);
                    }
                },
                PageState::AwaitingContinue => {},
                PageState::ContinueGranted => {
                    if self.font_height >= self.screen_height {
                        self.paged_count = PageState::AwaitingContinue;
                    } else {
                        self.paged_count = PageState::Counting(1);
                    }
                },
            }
        }
    }

    /// Moves up one text row, stopping at the top.
    pub fn up(&mut self)
        requires
            old(self).wf(),
        ensures
            final(self).wf(),
            *final(self) == old(self).moved_up(),
    {
        let next = self.position_y - self.font_height;
        self.position_y = if next < 0 { 0 } else { next };
    }

    /// Moves left one column, stopping at the left edge.
    pub fn left(&mut self)
        requires
            old(self).wf(),
        ensures
            final(self).wf(),
            *final(self) == old(self).moved_left(),
    {
        let next = self.position_x - self.font_width;
        self.position_x = if next < 0 { 0 } else { next };
    }

    /// Moves right one column; past the right edge it wraps to the start of
    /// the next row.
    pub fn right(&mut self)
        requires
            old(self).wf(),
        ensures
            final(self).wf(),
            *final(self) == old(self).moved_right(),
            old(self).position_x + old(self).font_width >= old(self).screen_width ==> final(self).position_x == 0 && final(self).position_y == old(self).row_below(),
    {
        let next = self.position_x + self.font_width;
        if next >= self.screen_width {
            self.home();
            self.down();
        } else {
            self.position_x = next;
        }
    }

    /// Moving right from the last column wraps to column 0 of the next row,
    /// counting the row in paged mode.
    pub proof fn lemma_right_wraps(&self)
        requires
            self.wf(),
            self.position_x == self.screen_width - self.font_width,
            self.position_y + self.font_height <= MAX_POSITION_Y,
        ensures
            self.moved_right().position_x == 0,
            self.moved_right().position_y == self.position_y + self.font_height,
            self.moved_right() == (Cursor { position_x: 0, ..self.moved_down() }),
    {
    }
}

} // verus!
