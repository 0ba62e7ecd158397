//! Sprite drawing on the 64 by 32 screen.

use vstd::prelude::*;
use crate::machine::{collides, drawn, lit, pixels, sprite_bit, sprite_rows};

verus! {

/// Whether the sprite covers the pixel `(px, py)` with a set bit that lies
/// before row `row`, or in row `row` before column `col`: the part of the
/// sprite that a draw has painted when it stands at `(row, col)`.
spec fn painted(sprite: Seq<u8>, x0: int, y0: int, k: int, row: int, col: int) -> bool {
    let at_col = (k % 64 - x0) % 64;
    let at_row = (k / 64 - y0) % 32;
    lit(sprite, x0, y0, k % 64, k / 64) && (at_row < row || (at_row == row && at_col < col))
}

/// Going `d` columns right of column `b` with wrap-around arrives at
/// column `a` exactly when `a` lies `d` columns after `b`.
proof fn lemma_wrap_columns(a: int, b: int, d: int)
    requires
        0 <= a < 64,
        0 <= b < 64,
        0 <= d < 64,
    ensures
        (a - b) % 64 == d <==> a == (b + d) % 64,
{
    assert((a - b) % 64 == if a >= b {
        a - b
    } else {
        a - b + 64
    });
    assert((b + d) % 64 == if b + d < 64 {
        b + d
    } else {
        b + d - 64
    });
}

/// The same for rows.
proof fn lemma_wrap_rows(a: int, b: int, d: int)
    requires
        0 <= a < 32,
        0 <= b < 32,
        0 <= d < 32,
    ensures
        (a - b) % 32 == d <==> a == (b + d) % 32,
{
    assert((a - b) % 32 == if a >= b {
        a - b
    } else {
        a - b + 32
    });
    assert((b + d) % 32 == if b + d < 32 {
        b + d
    } else {
        b + d - 32
    });
}

/// A sprite cell lands on one pixel and on no other.
proof fn lemma_cell_pixel(x0: int, y0: int, row: int, col: int, k: int)
    requires
        0 <= x0 < 64,
        0 <= y0 < 32,
        0 <= row < 32,
        0 <= col < 64,
        0 <= k < 2048,
    ensures
        ((k / 64 - y0) % 32 == row && (k % 64 - x0) % 64 == col) <==> k == ((y0 + row) % 32) * 64
            + (x0 + col) % 64,
{
    let px = k % 64;
    let py = k / 64;
    let to_x = (x0 + col) % 64;
    let to_y = (y0 + row) % 32;
    assert(k == py * 64 + px && 0 <= px < 64 && 0 <= py < 32);
    assert(0 <= to_x < 64 && 0 <= to_y < 32);
    lemma_wrap_columns(px, x0, col);
    lemma_wrap_rows(py, y0, row);
    assert(k == to_y * 64 + to_x <==> (py == to_y && px == to_x));
}

/// Draws the sprite of `rows` rows that memory holds from `index` on, with
/// its top left corner at `(x0, y0)`. Every pixel under a set bit is
/// flipped; pixels past an edge of the screen come back in at the opposite
/// edge. Returns whether some pixel went from on to off.
pub fn draw_sprite(
    screen: &mut Vec<u8>,
    memory: &Vec<u8>,
    index: usize,
    rows: usize,
    x0: usize,
    y0: usize,
) -> (collision: bool)
    requires
        old(screen)@.len() == 2048,
        forall|k: int| 0 <= k < 2048 ==> #[trigger] old(screen)@[k] <= 1,
        index + rows <= memory@.len(),
        rows <= 32,
        x0 < 64,
        y0 < 32,
    ensures
        final(screen)@.len() == 2048,
        forall|k: int| 0 <= k < 2048 ==> #[trigger] final(screen)@[k] <= 1,
        pixels(final(screen)@) == drawn(
            pixels(old(screen)@),
            sprite_rows(memory@, index as int, rows as int),
            x0 as int,
            y0 as int,
        ),
        collision == collides(
            pixels(old(screen)@),
            sprite_rows(memory@, index as int, rows as int),
            x0 as int,
            y0 as int,
        ),
{
    let ghost before = pixels(screen@);
    let ghost sprite = sprite_rows(memory@, index as int, rows as int);
    let size: usize = memory.len();
    let mut collision: bool = false;
    let mut row: usize = 0;
    while row < rows
        invariant
            row <= rows,
            rows <= 32,
            index + rows <= size == memory@.len(),
            x0 < 64,
            y0 < 32,
            screen@.len() == 2048,
            before.len() == 2048,
            sprite == sprite_rows(memory@, index as int, rows as int),
            forall|k: int| 0 <= k < 2048 ==> #[trigger] screen@[k] <= 1,
            forall|k: int|
                0 <= k < 2048 ==> (#[trigger] screen@[k] != 0) == (before[k] != painted(
                    sprite,
                    x0 as int,
                    y0 as int,
                    k,
                    row as int,
                    0,
                )),
            collision == exists|k: int|
                0 <= k < 2048 && #[trigger] before[k] && painted(
                    sprite,
                    x0 as int,
                    y0 as int,
                    k,
                    row as int,
                    0,
                ),
        decreases rows - row,
    {
        let bits: u8 = memory[index + row];
        let py: usize = (y0 + row) % 32;
        let mut col: u8 = 0;
        while col < 8
            invariant
                row < rows,
                rows <= 32,
                col <= 8,
                x0 < 64,
                y0 < 32,
                py == (y0 + row) % 32,
                sprite.len() == rows,
                bits == sprite[row as int],
                screen@.len() == 2048,
                before.len() == 2048,
                forall|k: int| 0 <= k < 2048 ==> #[trigger] screen@[k] <= 1,
                forall|k: int|
                    0 <= k < 2048 ==> (#[trigger] screen@[k] != 0) == (before[k] != painted(
                        sprite,
                        x0 as int,
                        y0 as int,
                        k,
                        row as int,
                        col as int,
                    )),
                collision == exists|k: int|
                    0 <= k < 2048 && #[trigger] before[k] && painted(
                        sprite,
                        x0 as int,
                        y0 as int,
                        k,
                        row as int,
                        col as int,
                    ),
            decreases 8 - col,
        {
            let px: usize = (x0 + col as usize) % 64;
            let at: usize = py * 64 + px;
            let ghost was = collision;
            if bits & (0x80u8 >> col) != 0 {
                if screen[at] != 0 {
                    collision = true;
                    screen.set(at, 0);
                } else {
                    screen.set(at, 1);
                }
            }
            proof {
                assert forall|k: int| 0 <= k < 2048 implies #[trigger] painted(
                    sprite,
                    x0 as int,
                    y0 as int,
                    k,
                    row as int,
                    col + 1,
                ) == (painted(sprite, x0 as int, y0 as int, k, row as int, col as int) || (k == at
                    && sprite_bit(bits, col))) by {
                    lemma_cell_pixel(x0 as int, y0 as int, row as int, col as int, k);
                }
                if collision && !was {
                    assert(before[at as int] && painted(
                        sprite,
                        x0 as int,
                        y0 as int,
                        at as int,
                        row as int,
                        col + 1,
                    ));
                }
            }
            col += 1;
        }
        row += 1;
    }
    assert(pixels(screen@) =~= drawn(before, sprite, x0 as int, y0 as int));
    collision
}

} // verus!
