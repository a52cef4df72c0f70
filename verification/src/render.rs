//! The one piece of presentation logic that is pure computation: painting a
//! square block of pixels into a row-major framebuffer, clipped to the
//! screen.

use vstd::arithmetic::div_mod::lemma_fundamental_div_mod;
use vstd::arithmetic::div_mod::lemma_fundamental_div_mod_converse;
use vstd::arithmetic::div_mod::lemma_div_pos_is_pos;
use vstd::arithmetic::div_mod::lemma_mod_bound;
use vstd::prelude::*;

verus! {

/// Screen width in pixels.
pub const SCREEN_WIDTH: usize = 300;

/// Screen height in pixels.
pub const SCREEN_HEIGHT: usize = 500;

/// Side length of one board cell, in pixels.
pub const BLOCK_SIZE: i32 = 20;

/// Whether pixel index `i` of a SCREEN_WIDTH-wide row-major framebuffer lies
/// inside the square of side BLOCK_SIZE whose top-left pixel is (x, y).
pub open spec fn in_square(x: int, y: int, i: int) -> bool {
    &&& x <= i % (SCREEN_WIDTH as int) < x + BLOCK_SIZE
    &&& y <= i / (SCREEN_WIDTH as int) < y + BLOCK_SIZE
}

/// Whether the square at (x, y) pokes out of the screen on any side; such a
/// draw request is ignored entirely.
pub open spec fn square_clipped(x: int, y: int) -> bool {
    x < 0 || y < 0 || x + BLOCK_SIZE > SCREEN_WIDTH as int || y + BLOCK_SIZE > SCREEN_HEIGHT as int
}

/// The framebuffer with the square at (x, y) painted in `color`: pixels
/// inside the square take the color, all others keep their value.
pub open spec fn painted(buf: Seq<u32>, x: int, y: int, color: u32) -> Seq<u32> {
    Seq::new(
        buf.len(),
        |i: int|
            if in_square(x, y, i) {
                color
            } else {
                buf[i]
            },
    )
}

/// The framebuffer with only the first rows of the square painted: all
/// pixels of the square strictly above row `row`, and those on row `row`
/// strictly left of column `col` (both relative to the square's corner).
spec fn painted_upto(buf: Seq<u32>, x: int, y: int, color: u32, row: int, col: int) -> Seq<u32> {
    Seq::new(
        buf.len(),
        |i: int|
            if in_square(x, y, i) && (i / (SCREEN_WIDTH as int) < y + row || (i / (
            SCREEN_WIDTH as int) == y + row && i % (SCREEN_WIDTH as int) < x + col)) {
                color
            } else {
                buf[i]
            },
    )
}

/// A pixel coordinate pair addresses a flat index iff it is the index's
/// euclidean decomposition by the screen width.
proof fn lemma_pixel_coords(idx: int, px: int, py: int)
    requires
        0 <= px < SCREEN_WIDTH as int,
        0 <= py,
    ensures
        (py * (SCREEN_WIDTH as int) + px == idx) <==> (px == idx % (SCREEN_WIDTH as int) && py
            == idx / (SCREEN_WIDTH as int)),
{
    lemma_fundamental_div_mod(idx, SCREEN_WIDTH as int);
    lemma_fundamental_div_mod_converse(
        py * (SCREEN_WIDTH as int) + px,
        SCREEN_WIDTH as int,
        py,
        px,
    );
    vstd::arithmetic::mul::lemma_mul_is_commutative(py, SCREEN_WIDTH as int);
}

/// Paint the square with top-left corner (x, y) in `color`: every pixel of
/// the buffer that lies inside the square (and inside the buffer) takes the
/// color, every other pixel keeps its value. A square that pokes out of the
/// screen is not drawn at all.
pub fn draw_square(buffer: &mut Vec<u32>, x: i32, y: i32, color: u32)
    ensures
        final(buffer)@.len() == old(buffer)@.len(),
        square_clipped(x as int, y as int) ==> final(buffer)@ == old(buffer)@,
        !square_clipped(x as int, y as int) ==> final(buffer)@ == painted(
            old(buffer)@,
            x as int,
            y as int,
            color,
        ),
{
    if x < 0 || y < 0 || x > SCREEN_WIDTH as i32 - BLOCK_SIZE || y > SCREEN_HEIGHT as i32
        - BLOCK_SIZE {
        return ;
    }
    let ghost buf0 = buffer@;
    let w: usize = SCREEN_WIDTH;
    let mut row: i32 = 0;
    proof {
        assert(buffer@ =~= painted_upto(buf0, x as int, y as int, color, 0, 0));
    }
    while row < BLOCK_SIZE
        invariant
            0 <= x,
            0 <= y,
            x + BLOCK_SIZE <= SCREEN_WIDTH as int,
            y + BLOCK_SIZE <= SCREEN_HEIGHT as int,
            w == SCREEN_WIDTH,
            0 <= row <= BLOCK_SIZE,
            buffer@ == painted_upto(buf0, x as int, y as int, color, row as int, 0),
        decreases BLOCK_SIZE - row,
    {
        let py: usize = (y + row) as usize;
        let mut col: i32 = 0;
        while col < BLOCK_SIZE
            invariant
                0 <= x,
                0 <= y,
                x + BLOCK_SIZE <= SCREEN_WIDTH as int,
                y + BLOCK_SIZE <= SCREEN_HEIGHT as int,
                w == SCREEN_WIDTH,
                0 <= row < BLOCK_SIZE,
                py == y + row,
                0 <= col <= BLOCK_SIZE,
                buffer@ == painted_upto(buf0, x as int, y as int, color, row as int, col as int),
            decreases BLOCK_SIZE - col,
        {
            let px: usize = (x + col) as usize;
            let index: usize = py * w + px;
            let ghost pre = buffer@;
            proof {
                lemma_pixel_coords(index as int, px as int, py as int);
            }
            if index < buffer.len() {
                buffer[index] = color;
            }
            proof {
                assert forall|i: int|
                    0 <= i < buf0.len() implies buffer@[i] == painted_upto(
                    buf0,
                    x as int,
                    y as int,
                    color,
                    row as int,
                    col + 1,
                )[i] by {
                    lemma_mod_bound(i, SCREEN_WIDTH as int);
                    lemma_div_pos_is_pos(i, SCREEN_WIDTH as int);
                    lemma_pixel_coords(i, i % (SCREEN_WIDTH as int), i / (SCREEN_WIDTH as int));
                    if i != index {
                        assert(buffer@[i] == pre[i]);
                    }
                }
                assert(buffer@ =~= painted_upto(
                    buf0,
                    x as int,
                    y as int,
                    color,
                    row as int,
                    col + 1,
                ));
            }
            col += 1;
        }
        proof {
            assert forall|i: int|
                0 <= i < buf0.len() implies painted_upto(
                buf0,
                x as int,
                y as int,
                color,
                row as int,
                BLOCK_SIZE as int,
            )[i] == painted_upto(buf0, x as int, y as int, color, row + 1, 0)[i] by {
            }
            assert(painted_upto(buf0, x as int, y as int, color, row as int, BLOCK_SIZE as int)
                =~= painted_upto(buf0, x as int, y as int, color, row + 1, 0));
        }
        row += 1;
    }
    proof {
        assert forall|i: int|
            0 <= i < buf0.len() implies painted_upto(
            buf0,
            x as int,
            y as int,
            color,
            BLOCK_SIZE as int,
            0,
        )[i] == painted(buf0, x as int, y as int, color)[i] by {
        }
        assert(painted_upto(buf0, x as int, y as int, color, BLOCK_SIZE as int, 0) =~= painted(
            buf0,
            x as int,
            y as int,
            color,
        ));
    }
}

} // verus!
