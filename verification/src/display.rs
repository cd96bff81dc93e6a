//! The pixel grid: a monochrome screen onto which sprites are XOR-drawn.

use vstd::prelude::*;

verus! {

pub const DISPLAY_WIDTH: usize = 64;

pub const DISPLAY_HEIGHT: usize = 32;

/// Number of pixels in one sprite row: each sprite byte is one row.
pub const SPRITE_WIDTH: usize = 8;

/// What a display holds: `pixels[x][y]` is the pixel in column `x` and row
/// `y`, and `needs_redraw` says that the grid changed since it was last shown.
pub struct Screen {
    pub pixels: Seq<Seq<bool>>,
    pub needs_redraw: bool,
}

/// A grid of `DISPLAY_WIDTH` columns of `DISPLAY_HEIGHT` pixels each.
pub open spec fn is_grid(pixels: Seq<Seq<bool>>) -> bool {
    &&& pixels.len() == DISPLAY_WIDTH
    &&& forall|x: int| 0 <= x < DISPLAY_WIDTH ==> (#[trigger] pixels[x]).len() == DISPLAY_HEIGHT
}

/// The grid with every pixel off.
pub open spec fn blank() -> Seq<Seq<bool>> {
    Seq::new(DISPLAY_WIDTH as nat, |x: int| Seq::new(DISPLAY_HEIGHT as nat, |y: int| false))
}

/// Bit `column` of a sprite row, counted from the most significant bit, which
/// is the leftmost pixel.
pub open spec fn sprite_bit(byte: u8, column: u8) -> bool {
    byte & (0x80u8 >> column) != 0
}

/// Whether row `row` of a sprite placed at `(x, y)` flips the pixel
/// `(px, py)`. Coordinates wrap at the right and bottom edges.
pub open spec fn row_hits(x: int, y: int, byte: u8, row: int, px: int, py: int) -> bool {
    let column = (px - x) % (DISPLAY_WIDTH as int);
    &&& py == (y + row) % (DISPLAY_HEIGHT as int)
    &&& column < SPRITE_WIDTH
    &&& sprite_bit(byte, column as u8)
}

/// The pixel `(px, py)` once the first `rows` rows of `sprite` have been
/// XOR-drawn at `(x, y)`.
pub open spec fn drawn_pixel(
    pixels: Seq<Seq<bool>>,
    x: int,
    y: int,
    sprite: Seq<u8>,
    rows: int,
    px: int,
    py: int,
) -> bool
    decreases rows,
{
    if rows <= 0 {
        pixels[px][py]
    } else {
        drawn_pixel(pixels, x, y, sprite, rows - 1, px, py) ^ row_hits(
            x,
            y,
            sprite[rows - 1],
            rows - 1,
            px,
            py,
        )
    }
}

/// Whether row `row` of `sprite`, drawn at `(x, y)` after the rows before
/// it, lands a set bit on a pixel that those rows left on.
pub open spec fn row_collides(
    pixels: Seq<Seq<bool>>,
    x: int,
    y: int,
    sprite: Seq<u8>,
    row: int,
) -> bool {
    exists|px: int, py: int|
        0 <= px < DISPLAY_WIDTH && 0 <= py < DISPLAY_HEIGHT && #[trigger] drawn_pixel(
            pixels,
            x,
            y,
            sprite,
            row,
            px,
            py,
        ) && row_hits(x, y, sprite[row], row, px, py)
}

/// Whether drawing the first `rows` rows of `sprite` at `(x, y)` turns off a
/// pixel that was on when its row was drawn.
pub open spec fn erased(pixels: Seq<Seq<bool>>, x: int, y: int, sprite: Seq<u8>, rows: int) -> bool
    decreases rows,
{
    rows > 0 && (erased(pixels, x, y, sprite, rows - 1) || row_collides(
        pixels,
        x,
        y,
        sprite,
        rows - 1,
    ))
}

/// The grid after the whole of `sprite` has been XOR-drawn at `(x, y)`.
pub open spec fn drawn(pixels: Seq<Seq<bool>>, x: int, y: int, sprite: Seq<u8>) -> Seq<Seq<bool>> {
    Seq::new(
        DISPLAY_WIDTH as nat,
        |px: int|
            Seq::new(
                DISPLAY_HEIGHT as nat,
                |py: int| drawn_pixel(pixels, x, y, sprite, sprite.len() as int, px, py),
            ),
    )
}

/// The collision flag that drawing `sprite` at `(x, y)` reports.
pub open spec fn collision_flag(pixels: Seq<Seq<bool>>, x: int, y: int, sprite: Seq<u8>) -> u8 {
    if erased(pixels, x, y, sprite, sprite.len() as int) {
        1
    } else {
        0
    }
}

/// Whether one of the first `columns` pixels of row `row` lands on a pixel
/// that the rows before it left on.
spec fn row_erases(
    pixels: Seq<Seq<bool>>,
    x: int,
    y: int,
    sprite: Seq<u8>,
    row: int,
    columns: int,
) -> bool {
    exists|px: int, py: int|
        0 <= px < DISPLAY_WIDTH && 0 <= py < DISPLAY_HEIGHT && #[trigger] drawn_pixel(
            pixels,
            x,
            y,
            sprite,
            row,
            px,
            py,
        ) && row_hits(x, y, sprite[row], row, px, py) && (px - x) % (DISPLAY_WIDTH as int)
            < columns
}

/// A grid in the middle of a draw: the first `row` rows of the sprite are on
/// it in full, and of row `row` the first `columns` pixels.
spec fn partly_drawn(
    grid: Seq<Seq<bool>>,
    before: Seq<Seq<bool>>,
    x: int,
    y: int,
    sprite: Seq<u8>,
    row: int,
    columns: int,
) -> bool {
    &&& is_grid(grid)
    &&& forall|px: int, py: int|
        0 <= px < DISPLAY_WIDTH && 0 <= py < DISPLAY_HEIGHT ==> grid[px][py] == (
        #[trigger] drawn_pixel(before, x, y, sprite, row, px, py) ^ (row_hits(
            x,
            y,
            sprite[row],
            row,
            px,
            py,
        ) && (px - x) % (DISPLAY_WIDTH as int) < columns))
}

/// Column `column` of a sprite at `x` lands on exactly one screen column.
proof fn lemma_column(x: int, column: int, px: int)
    requires
        0 <= x,
        0 <= column < DISPLAY_WIDTH,
        0 <= px < DISPLAY_WIDTH,
    ensures
        (px - x) % (DISPLAY_WIDTH as int) == column <==> px == (x + column) % (
        DISPLAY_WIDTH as int),
{
}

/// Drawing one more pixel of a row keeps the grid and the collision flag in
/// step with the model.
proof fn lemma_pixel_step(
    grid: Seq<Seq<bool>>,
    before: Seq<Seq<bool>>,
    x: int,
    y: int,
    sprite: Seq<u8>,
    row: int,
    column: int,
    flag: bool,
)
    requires
        0 <= x,
        0 <= y,
        0 <= row < sprite.len(),
        0 <= column < SPRITE_WIDTH,
        partly_drawn(grid, before, x, y, sprite, row, column),
        flag <==> erased(before, x, y, sprite, row) || row_erases(
            before,
            x,
            y,
            sprite,
            row,
            column,
        ),
    ensures
        ({
            let xp = (x + column) % (DISPLAY_WIDTH as int);
            let yp = (y + row) % (DISPLAY_HEIGHT as int);
            let previous = grid[xp][yp];
            let lit = previous ^ sprite_bit(sprite[row], column as u8);
            let next = grid.update(xp, grid[xp].update(yp, lit));
            &&& partly_drawn(next, before, x, y, sprite, row, column + 1)
            &&& (flag || (previous && !lit)) <==> erased(before, x, y, sprite, row) || row_erases(
                before,
                x,
                y,
                sprite,
                row,
                column + 1,
            )
        }),
{
    let xp = (x + column) % (DISPLAY_WIDTH as int);
    let yp = (y + row) % (DISPLAY_HEIGHT as int);
    let previous = grid[xp][yp];
    let bit = sprite_bit(sprite[row], column as u8);
    let lit = previous ^ bit;
    let next = grid.update(xp, grid[xp].update(yp, lit));
    let under = drawn_pixel(before, x, y, sprite, row, xp, yp);
    lemma_column(x, column, xp);
    assert(previous == under);
    assert forall|px: int, py: int|
        0 <= px < DISPLAY_WIDTH && 0 <= py < DISPLAY_HEIGHT implies next[px][py] == (
    #[trigger] drawn_pixel(before, x, y, sprite, row, px, py) ^ (row_hits(
        x,
        y,
        sprite[row],
        row,
        px,
        py,
    ) && (px - x) % (DISPLAY_WIDTH as int) < column + 1)) by {
        lemma_column(x, column, px);
    }
    if previous && bit {
        // The pixel just drawn is a witness.
        assert(under && row_hits(x, y, sprite[row], row, xp, yp) && (xp - x) % (
        DISPLAY_WIDTH as int) < column + 1);
    } else if row_erases(before, x, y, sprite, row, column + 1) {
        // A witness among the first `column + 1` pixels is not the pixel just
        // drawn, so it is among the first `column`.
        let (px, py) = choose|px: int, py: int|
            0 <= px < DISPLAY_WIDTH && 0 <= py < DISPLAY_HEIGHT && #[trigger] drawn_pixel(
                before,
                x,
                y,
                sprite,
                row,
                px,
                py,
            ) && row_hits(x, y, sprite[row], row, px, py) && (px - x) % (DISPLAY_WIDTH as int)
                < column + 1;
        lemma_column(x, column, px);
    }
}

/// A row drawn in full is one more row of the model.
proof fn lemma_row_step(
    grid: Seq<Seq<bool>>,
    before: Seq<Seq<bool>>,
    x: int,
    y: int,
    sprite: Seq<u8>,
    row: int,
    flag: bool,
)
    requires
        0 <= row < sprite.len(),
        partly_drawn(grid, before, x, y, sprite, row, SPRITE_WIDTH as int),
        flag <==> erased(before, x, y, sprite, row) || row_erases(
            before,
            x,
            y,
            sprite,
            row,
            SPRITE_WIDTH as int,
        ),
    ensures
        partly_drawn(grid, before, x, y, sprite, row + 1, 0),
        flag <==> erased(before, x, y, sprite, row + 1),
{
    assert forall|px: int, py: int|
        0 <= px < DISPLAY_WIDTH && 0 <= py < DISPLAY_HEIGHT implies grid[px][py] == (
    #[trigger] drawn_pixel(before, x, y, sprite, row + 1, px, py) ^ (row_hits(
        x,
        y,
        sprite[row + 1],
        row + 1,
        px,
        py,
    ) && (px - x) % (DISPLAY_WIDTH as int) < 0)) by {
        assert(drawn_pixel(before, x, y, sprite, row + 1, px, py) == (drawn_pixel(
            before,
            x,
            y,
            sprite,
            row,
            px,
            py,
        ) ^ row_hits(x, y, sprite[row], row, px, py)));
    }
}

/// The interface the processor uses to reach the screen.
pub trait DisplayTrait: View<V = Screen> {
    /// XOR-draws `sprite`, one byte per row, with its top left corner at
    /// `(x, y)`, wrapping at the edges. Returns 1 if a lit pixel was turned
    /// off and 0 otherwise, and marks the screen for redrawing.
    fn draw_sprite(&mut self, x: usize, y: usize, sprite: &[u8]) -> (collision: u8)
        ensures
            final(self)@.pixels == drawn(old(self)@.pixels, x as int, y as int, sprite@),
            final(self)@.needs_redraw,
            collision == collision_flag(old(self)@.pixels, x as int, y as int, sprite@),
    ;

    /// Whether the grid changed since it was last shown.
    fn needs_redraw(&self) -> (pending: bool)
        ensures
            pending == self@.needs_redraw,
    ;

    /// Turns every pixel off.
    fn clear(&mut self)
        ensures
            final(self)@.pixels == blank(),
            final(self)@.needs_redraw == old(self)@.needs_redraw,
    ;
}

/// Direct access to single pixels, for inspection.
pub trait DisplayDebugTrait: View<V = Screen> {
    /// Whether the pixel in column `x` and row `y` is on.
    fn read_pixel(&self, x: usize, y: usize) -> (value: bool)
        requires
            x < DISPLAY_WIDTH,
            y < DISPLAY_HEIGHT,
        ensures
            value == self@.pixels[x as int][y as int],
    ;

    /// Turns the pixel in column `x` and row `y` on or off, without marking
    /// the screen for redrawing.
    fn write_pixel(&mut self, x: usize, y: usize, value: bool)
        requires
            x < DISPLAY_WIDTH,
            y < DISPLAY_HEIGHT,
        ensures
            final(self)@.pixels == old(self)@.pixels.update(
                x as int,
                old(self)@.pixels[x as int].update(y as int, value),
            ),
            final(self)@.needs_redraw == old(self)@.needs_redraw,
    ;
}

/// The screen: `DISPLAY_WIDTH` columns of `DISPLAY_HEIGHT` pixels, each on or
/// off.
pub struct Display {
    pixels: [[bool; DISPLAY_HEIGHT]; DISPLAY_WIDTH],
    needs_redraw: bool,
    display_scale: u8,
}

impl View for Display {
    type V = Screen;

    closed spec fn view(&self) -> Screen {
        Screen {
            pixels: Seq::new(DISPLAY_WIDTH as nat, |x: int| self.pixels@[x]@),
            needs_redraw: self.needs_redraw,
        }
    }
}

impl DisplayTrait for Display {
    fn draw_sprite(&mut self, x: usize, y: usize, sprite: &[u8]) -> (collision: u8) {
        self.needs_redraw = true;
        let mut collision: u8 = 0;
        let ghost before = self@.pixels;
        let left: usize = x % DISPLAY_WIDTH;
        let top: usize = y % DISPLAY_HEIGHT;
        let mut row: usize = 0;
        while row < sprite.len()
            invariant
                row <= sprite.len(),
                left == x % DISPLAY_WIDTH,
                top == y % DISPLAY_HEIGHT,
                self.needs_redraw,
                partly_drawn(self@.pixels, before, x as int, y as int, sprite@, row as int, 0),
                collision <= 1,
                collision == 1 <==> erased(before, x as int, y as int, sprite@, row as int),
            decreases sprite.len() - row,
        {
            let yp: usize = (top + row % DISPLAY_HEIGHT) % DISPLAY_HEIGHT;
            let byte: u8 = sprite[row];
            let mut column: usize = 0;
            while column < SPRITE_WIDTH
                invariant
                    column <= SPRITE_WIDTH,
                    row < sprite.len(),
                    left == x % DISPLAY_WIDTH,
                    yp == (y + row) % (DISPLAY_HEIGHT as int),
                    byte == sprite@[row as int],
                    self.needs_redraw,
                    partly_drawn(
                        self@.pixels,
                        before,
                        x as int,
                        y as int,
                        sprite@,
                        row as int,
                        column as int,
                    ),
                    collision <= 1,
                    collision == 1 <==> erased(before, x as int, y as int, sprite@, row as int)
                        || row_erases(
                        before,
                        x as int,
                        y as int,
                        sprite@,
                        row as int,
                        column as int,
                    ),
                decreases SPRITE_WIDTH - column,
            {
                let xp: usize = (left + column) % DISPLAY_WIDTH;
                let ghost grid = self@.pixels;
                let ghost flag = collision == 1;
                let previous: bool = self.pixels[xp][yp];
                let bit: bool = Display::get_bit(byte, column as u8);
                let lit: bool = previous ^ bit;
                self.pixels[xp][yp] = lit;
                if previous && !lit {
                    collision = 1;
                }
                proof {
                    lemma_pixel_step(
                        grid,
                        before,
                        x as int,
                        y as int,
                        sprite@,
                        row as int,
                        column as int,
                        flag,
                    );
                }
                column += 1;
            }
            proof {
                lemma_row_step(
                    self@.pixels,
                    before,
                    x as int,
                    y as int,
                    sprite@,
                    row as int,
                    collision == 1,
                );
            }
            row += 1;
        }
        assert(self@.pixels =~~= drawn(before, x as int, y as int, sprite@));
        collision
    }

    fn needs_redraw(&self) -> (pending: bool) {
        self.needs_redraw
    }

    fn clear(&mut self) {
        self.pixels = [[false; DISPLAY_HEIGHT]; DISPLAY_WIDTH];
        assert(self@.pixels =~~= blank());
    }
}

impl DisplayDebugTrait for Display {
    fn read_pixel(&self, x: usize, y: usize) -> (value: bool) {
        self.pixels[x][y]
    }

    fn write_pixel(&mut self, x: usize, y: usize, value: bool) {
        self.pixels[x][y] = value;
    }
}

impl Display {
    /// A blank screen that is shown `display_scale` times enlarged.
    pub fn new(display_scale: u8) -> (display: Display)
        ensures
            display@.pixels == blank(),
            !display@.needs_redraw,
            display.scale() == display_scale,
    {
        let display = Display {
            pixels: [[false; DISPLAY_HEIGHT]; DISPLAY_WIDTH],
            needs_redraw: false,
            display_scale: display_scale,
        };
        assert(display@.pixels =~~= blank());
        display
    }

    /// The factor by which the screen is enlarged when shown.
    pub closed spec fn scale(&self) -> u8 {
        self.display_scale
    }

    /// The factor by which the screen is enlarged when shown.
    pub fn display_scale(&self) -> (display_scale: u8)
        ensures
            display_scale == self.scale(),
    {
        self.display_scale
    }

    /// Records that the grid has been shown as it is.
    pub fn mark_drawn(&mut self)
        ensures
            final(self)@ == (Screen { needs_redraw: false, ..old(self)@ }),
            final(self).scale() == old(self).scale(),
    {
        self.needs_redraw = false;
    }

    /// Width and height of the window that shows the screen, in host pixels.
    pub fn window_size(&self) -> (size: (u32, u32))
        ensures
            size.0 == DISPLAY_WIDTH * self.scale(),
            size.1 == DISPLAY_HEIGHT * self.scale(),
    {
        let scale: u32 = self.display_scale as u32;
        assert(DISPLAY_WIDTH * scale <= DISPLAY_WIDTH * u8::MAX);
        assert(DISPLAY_HEIGHT * scale <= DISPLAY_HEIGHT * u8::MAX);
        (DISPLAY_WIDTH as u32 * scale, DISPLAY_HEIGHT as u32 * scale)
    }

    /// The square of host pixels that shows the pixel `(x, y)`: its left and
    /// top edge, and the length of its sides.
    pub fn pixel_rect(&self, x: usize, y: usize) -> (rect: (i32, i32, u32))
        requires
            x < DISPLAY_WIDTH,
            y < DISPLAY_HEIGHT,
        ensures
            rect.0 == x * self.scale(),
            rect.1 == y * self.scale(),
            rect.2 == self.scale(),
    {
        let scale: i32 = self.display_scale as i32;
        assert(0 <= x * scale <= DISPLAY_WIDTH * u8::MAX) by (nonlinear_arith)
            requires
                0 <= x < DISPLAY_WIDTH,
                0 <= scale <= u8::MAX,
        ;
        assert(0 <= y * scale <= DISPLAY_HEIGHT * u8::MAX) by (nonlinear_arith)
            requires
                0 <= y < DISPLAY_HEIGHT,
                0 <= scale <= u8::MAX,
        ;
        (x as i32 * scale, y as i32 * scale, self.display_scale as u32)
    }

    /// Every `Display` holds a full grid.
    pub proof fn lemma_grid(&self)
        ensures
            is_grid(self@.pixels),
    {
    }

    fn get_bit(byte: u8, bit_index: u8) -> (bit: bool)
        requires
            bit_index < SPRITE_WIDTH,
        ensures
            bit == sprite_bit(byte, bit_index),
    {
        byte & (0x80u8 >> bit_index) != 0
    }
}

} // verus!
