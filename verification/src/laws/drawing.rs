//! Drawing: which pixels a sprite flips, when it collides, and how it wraps.

use crate::display::{
    collision_flag, drawn, drawn_pixel, erased, is_grid, row_collides, row_hits, sprite_bit,
    DISPLAY_HEIGHT, DISPLAY_WIDTH, SPRITE_WIDTH,
};
use vstd::prelude::*;

verus! {

/// The row of a sprite placed at `y` that lands on screen row `py`.
pub open spec fn sprite_row(y: int, py: int) -> int {
    (py - y) % (DISPLAY_HEIGHT as int)
}

/// Whether a sprite placed at `(x, y)` flips the pixel `(px, py)`: one of
/// its set bits lands there.
pub open spec fn covers(x: int, y: int, sprite: Seq<u8>, px: int, py: int) -> bool {
    let row = sprite_row(y, py);
    row < sprite.len() && row_hits(x, y, sprite[row], row, px, py)
}

/// Row `row` of a sprite at `y` lands on exactly one screen row.
proof fn lemma_row(y: int, row: int, py: int)
    requires
        0 <= y,
        0 <= row < DISPLAY_HEIGHT,
        0 <= py < DISPLAY_HEIGHT,
    ensures
        sprite_row(y, py) == row <==> py == (y + row) % (DISPLAY_HEIGHT as int),
{
}

/// While the rows of a sprite do not lap over each other, each pixel is
/// flipped at most once: by the one row that lands on it.
proof fn lemma_drawn_rows(
    pixels: Seq<Seq<bool>>,
    x: int,
    y: int,
    sprite: Seq<u8>,
    rows: int,
    px: int,
    py: int,
)
    requires
        0 <= y,
        0 <= rows <= sprite.len(),
        rows <= DISPLAY_HEIGHT,
        0 <= py < DISPLAY_HEIGHT,
    ensures
        drawn_pixel(pixels, x, y, sprite, rows, px, py) == (pixels[px][py] ^ (sprite_row(y, py)
            < rows && covers(x, y, sprite, px, py))),
    decreases rows,
{
    if rows > 0 {
        lemma_drawn_rows(pixels, x, y, sprite, rows - 1, px, py);
        lemma_row(y, rows - 1, py);
    }
}

/// Drawing a sprite of at most as many rows as the screen has flips exactly
/// the pixels that its set bits land on, wrapped at the edges, and leaves
/// every other pixel as it was.
pub proof fn lemma_drawn(pixels: Seq<Seq<bool>>, x: int, y: int, sprite: Seq<u8>, px: int, py: int)
    requires
        0 <= x,
        0 <= y,
        sprite.len() <= DISPLAY_HEIGHT,
        0 <= px < DISPLAY_WIDTH,
        0 <= py < DISPLAY_HEIGHT,
    ensures
        drawn(pixels, x, y, sprite)[px][py] == (pixels[px][py] ^ covers(x, y, sprite, px, py)),
{
    lemma_drawn_rows(pixels, x, y, sprite, sprite.len() as int, px, py);
}

/// While the rows of a sprite do not lap over each other, a lit pixel is
/// turned off exactly if one of the rows lands a set bit on a pixel that was
/// lit before the drawing began.
proof fn lemma_erased_rows(pixels: Seq<Seq<bool>>, x: int, y: int, sprite: Seq<u8>, rows: int)
    requires
        0 <= y,
        0 <= rows <= sprite.len(),
        rows <= DISPLAY_HEIGHT,
    ensures
        erased(pixels, x, y, sprite, rows) <==> exists|px: int, py: int|
            0 <= px < DISPLAY_WIDTH && 0 <= py < DISPLAY_HEIGHT && pixels[px][py] && sprite_row(
                y,
                py,
            ) < rows && #[trigger] covers(x, y, sprite, px, py),
    decreases rows,
{
    if rows > 0 {
        let row = rows - 1;
        lemma_erased_rows(pixels, x, y, sprite, row);
        if row_collides(pixels, x, y, sprite, row) {
            let (px, py) = choose|px: int, py: int|
                0 <= px < DISPLAY_WIDTH && 0 <= py < DISPLAY_HEIGHT && #[trigger] drawn_pixel(
                    pixels,
                    x,
                    y,
                    sprite,
                    row,
                    px,
                    py,
                ) && row_hits(x, y, sprite[row], row, px, py);
            lemma_drawn_rows(pixels, x, y, sprite, row, px, py);
            lemma_row(y, row, py);
            assert(pixels[px][py] && sprite_row(y, py) < rows && covers(x, y, sprite, px, py));
        }
        if exists|px: int, py: int|
            0 <= px < DISPLAY_WIDTH && 0 <= py < DISPLAY_HEIGHT && pixels[px][py] && sprite_row(
                y,
                py,
            ) < rows && #[trigger] covers(x, y, sprite, px, py) {
            let (px, py) = choose|px: int, py: int|
                0 <= px < DISPLAY_WIDTH && 0 <= py < DISPLAY_HEIGHT && pixels[px][py]
                    && sprite_row(y, py) < rows && #[trigger] covers(x, y, sprite, px, py);
            if sprite_row(y, py) == row {
                lemma_drawn_rows(pixels, x, y, sprite, row, px, py);
                lemma_row(y, row, py);
                assert(drawn_pixel(pixels, x, y, sprite, row, px, py) && row_hits(
                    x,
                    y,
                    sprite[row],
                    row,
                    px,
                    py,
                ));
                assert(row_collides(pixels, x, y, sprite, row));
            } else {
                assert(pixels[px][py] && sprite_row(y, py) < row && covers(x, y, sprite, px, py));
            }
        }
    }
}

/// Drawing a sprite of at most as many rows as the screen has reports a
/// collision exactly if one of its set bits lands on a pixel that is lit.
pub proof fn lemma_collision(pixels: Seq<Seq<bool>>, x: int, y: int, sprite: Seq<u8>)
    requires
        0 <= x,
        0 <= y,
        sprite.len() <= DISPLAY_HEIGHT,
    ensures
        collision_flag(pixels, x, y, sprite) == 1 <==> exists|px: int, py: int|
            0 <= px < DISPLAY_WIDTH && 0 <= py < DISPLAY_HEIGHT && pixels[px][py]
                && #[trigger] covers(x, y, sprite, px, py),
        collision_flag(pixels, x, y, sprite) == 0 || collision_flag(pixels, x, y, sprite) == 1,
{
    lemma_erased_rows(pixels, x, y, sprite, sprite.len() as int);
    if exists|px: int, py: int|
        0 <= px < DISPLAY_WIDTH && 0 <= py < DISPLAY_HEIGHT && pixels[px][py] && #[trigger] covers(
            x,
            y,
            sprite,
            px,
            py,
        ) {
        let (px, py) = choose|px: int, py: int|
            0 <= px < DISPLAY_WIDTH && 0 <= py < DISPLAY_HEIGHT && pixels[px][py]
                && #[trigger] covers(x, y, sprite, px, py);
        assert(pixels[px][py] && sprite_row(y, py) < sprite.len() && covers(
            x,
            y,
            sprite,
            px,
            py,
        ));
    }
}

/// A sprite drawn where no pixel under its set bits is lit reports no
/// collision. Drawn again in the same place it turns every one of those
/// pixels off again, and reports a collision if it has a set bit at all.
pub proof fn lemma_draw_then_redraw(pixels: Seq<Seq<bool>>, x: int, y: int, sprite: Seq<u8>)
    requires
        0 <= x,
        0 <= y,
        sprite.len() <= DISPLAY_HEIGHT,
        forall|px: int, py: int|
            0 <= px < DISPLAY_WIDTH && 0 <= py < DISPLAY_HEIGHT && #[trigger] covers(
                x,
                y,
                sprite,
                px,
                py,
            ) ==> !pixels[px][py],
    ensures
        collision_flag(pixels, x, y, sprite) == 0,
        collision_flag(drawn(pixels, x, y, sprite), x, y, sprite) == 1 <==> exists|
            px: int,
            py: int,
        |
            0 <= px < DISPLAY_WIDTH && 0 <= py < DISPLAY_HEIGHT && #[trigger] covers(
                x,
                y,
                sprite,
                px,
                py,
            ),
{
    let once = drawn(pixels, x, y, sprite);
    lemma_collision(pixels, x, y, sprite);
    lemma_collision(once, x, y, sprite);
    assert forall|px: int, py: int|
        0 <= px < DISPLAY_WIDTH && 0 <= py < DISPLAY_HEIGHT && #[trigger] covers(
            x,
            y,
            sprite,
            px,
            py,
        ) implies once[px][py] by {
        lemma_drawn(pixels, x, y, sprite, px, py);
    }
}

/// A sprite drawn four pixels from the right edge has its columns 0 to 3 on
/// the last four screen columns and its columns 4 to 7 on the first four:
/// each of these pixels is flipped exactly if the bit of its column is set.
pub proof fn lemma_wraps_at_right_edge(
    pixels: Seq<Seq<bool>>,
    y: int,
    sprite: Seq<u8>,
    row: int,
    column: int,
)
    requires
        0 <= y,
        sprite.len() <= DISPLAY_HEIGHT,
        0 <= row < sprite.len(),
        0 <= column < SPRITE_WIDTH,
    ensures
        ({
            let x = DISPLAY_WIDTH - 4;
            let px = if column < 4 {
                x + column
            } else {
                column - 4
            };
            let py = (y + row) % (DISPLAY_HEIGHT as int);
            drawn(pixels, x, y, sprite)[px][py] == (pixels[px][py] ^ sprite_bit(
                sprite[row],
                column as u8,
            ))
        }),
{
    let x = DISPLAY_WIDTH - 4;
    let px = if column < 4 {
        x + column
    } else {
        column - 4
    };
    let py = (y + row) % (DISPLAY_HEIGHT as int);
    lemma_drawn(pixels, x, y, sprite, px, py);
    lemma_row(y, row, py);
    assert((px - x) % (DISPLAY_WIDTH as int) == column);
}

/// A sprite drawn twice in the same place leaves the screen as it was.
pub proof fn lemma_drawn_twice(pixels: Seq<Seq<bool>>, x: int, y: int, sprite: Seq<u8>)
    requires
        is_grid(pixels),
        0 <= x,
        0 <= y,
        sprite.len() <= DISPLAY_HEIGHT,
    ensures
        drawn(drawn(pixels, x, y, sprite), x, y, sprite) == pixels,
{
    let once = drawn(pixels, x, y, sprite);
    let twice = drawn(once, x, y, sprite);
    assert forall|px: int, py: int|
        0 <= px < DISPLAY_WIDTH && 0 <= py < DISPLAY_HEIGHT implies #[trigger] twice[px][py]
        == pixels[px][py] by {
        lemma_drawn(pixels, x, y, sprite, px, py);
        lemma_drawn(once, x, y, sprite, px, py);
    }
    assert(twice =~~= pixels);
}

} // verus!
