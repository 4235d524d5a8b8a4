use vstd::prelude::*;

verus! {

/// A cursor position on the screen, by column and row.
#[derive(Debug, Clone, Copy, PartialEq, Eq, Structural)]
pub struct Point {
    pub col: u32,
    pub row: u32,
}

impl Point {
    /// Moves the cursor to the start of drawing the next row: one line down,
    /// same column.
    pub fn new_line(&mut self)
        requires
            old(self).row < u32::MAX,
        ensures
            final(self).row == old(self).row + 1,
            final(self).col == old(self).col,
    {
        self.row += 1;
    }
}

/// A rectangle, of the screen or of the grid drawn on it.
#[derive(Debug, Clone, Copy, PartialEq, Eq, Structural)]
pub struct Size {
    pub width: u32,
    pub height: u32,
}

impl Size {
    pub fn new(width: u32, height: u32) -> (r: Self)
        ensures
            r.width == width,
            r.height == height,
    {
        Self { width, height }
    }
}

/// The geometry of a frame: which screen it is drawn on, how large the grid
/// is, and where the cursor stands. The terminal handle itself stays with
/// the caller, which queues the drawing commands against this state.
#[derive(Debug, Clone, Copy, PartialEq, Eq, Structural)]
pub struct Display {
    pub screen: Size,
    pub grid: Size,
    pub cursor: Point,
}

/// Collects the screen and grid sizes before a `Display` is built.
#[derive(Debug, Clone, Copy, PartialEq, Eq, Structural)]
pub struct DisplayBuilder {
    pub screen: Option<Size>,
    pub grid: Option<Size>,
}

impl Display {
    pub fn builder() -> (r: DisplayBuilder)
        ensures
            r.screen is None,
            r.grid is None,
    {
        DisplayBuilder::default()
    }

    /// Puts the cursor back to the centered starting position, ready for the
    /// next frame; screen and grid stay as they are.
    pub fn reset_cursor(&mut self)
        requires
            old(self).grid.width / 2 <= old(self).screen.width / 2,
            old(self).grid.height / 2 <= old(self).screen.height / 2,
        ensures
            final(self).cursor == DisplayBuilder::spec_default_cursor(
                old(self).grid,
                old(self).screen,
            ),
            final(self).screen == old(self).screen,
            final(self).grid == old(self).grid,
    {
        self.cursor = DisplayBuilder::calc_default_cursor(self.grid, self.screen);
    }
}

impl DisplayBuilder {
    pub fn default() -> (r: Self)
        ensures
            r.screen is None,
            r.grid is None,
    {
        Self { screen: None, grid: None }
    }

    /// The cursor position that centers a grid of size `grid` on a screen of
    /// size `screen`.
    pub open spec fn spec_default_cursor(grid: Size, screen: Size) -> Point {
        Point {
            col: (screen.width / 2 - grid.width / 2) as u32,
            row: (screen.height / 2 - grid.height / 2) as u32,
        }
    }

    /// The screen size a build settles on: wherever the grid would not fit,
    /// the screen is widened to the grid plus a margin of ten.
    pub open spec fn spec_adjusted_screen(grid: Size, screen: Size) -> Size {
        Size {
            width: if grid.width > screen.width {
                (grid.width + 10) as u32
            } else {
                screen.width
            },
            height: if grid.height > screen.height {
                (grid.height + 10) as u32
            } else {
                screen.height
            },
        }
    }

    pub fn calc_default_cursor(grid: Size, screen: Size) -> (r: Point)
        requires
            grid.width / 2 <= screen.width / 2,
            grid.height / 2 <= screen.height / 2,
        ensures
            r == Self::spec_default_cursor(grid, screen),
    {
        Point {
            col: screen.width / 2 - grid.width / 2,
            row: screen.height / 2 - grid.height / 2,
        }
    }

    pub fn screen(self, width: u32, height: u32) -> (r: Self)
        ensures
            r.screen matches Some(s) && s.width == width && s.height == height,
            r.grid == self.grid,
    {
        let mut this = self;
        this.screen = Some(Size::new(width, height));
        this
    }

    pub fn grid(self, width: u32, height: u32) -> (r: Self)
        ensures
            r.grid matches Some(s) && s.width == width && s.height == height,
            r.screen == self.screen,
    {
        let mut this = self;
        this.grid = Some(Size::new(width, height));
        this
    }

    /// Settles the frame geometry: adopts the grid, widens the screen where
    /// the grid would not fit, and centers the cursor. Whether the widened
    /// screen must be pushed to the terminal is the caller's to check and
    /// queue.
    pub fn build(self) -> (r: Display)
        requires
            self.screen is Some,
            self.grid is Some,
            self.grid->0.width <= u32::MAX - 10,
            self.grid->0.height <= u32::MAX - 10,
        ensures
            r.grid == self.grid->0,
            r.screen == Self::spec_adjusted_screen(self.grid->0, self.screen->0),
            r.cursor == Self::spec_default_cursor(self.grid->0, r.screen),
    {
        let mut screen = self.screen.unwrap();
        let grid = self.grid.unwrap();
        if grid.width > screen.width {
            screen.width = grid.width + 10;
        }
        if grid.height > screen.height {
            screen.height = grid.height + 10;
        }
        Display { screen, grid, cursor: Self::calc_default_cursor(grid, screen) }
    }
}

} // verus!
