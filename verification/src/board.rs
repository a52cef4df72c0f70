//! The playfield: an occupancy grid with collision queries, piece placement,
//! and full-row clearing with downward compaction.
//!
//! The grid is a flat vector of `width * height` cells in row-major order,
//! row 0 at the top, each cell either empty or occupied by a piece kind.

use vstd::arithmetic::div_mod::lemma_fundamental_div_mod;
use vstd::arithmetic::div_mod::lemma_mod_bound;
use vstd::arithmetic::div_mod::lemma_fundamental_div_mod_converse;
use vstd::arithmetic::mul::lemma_mul_inequality;
use vstd::arithmetic::mul::lemma_mul_is_distributive_add_other_way;
use vstd::arithmetic::mul::lemma_mul_is_distributive_sub_other_way;
use vstd::arithmetic::mul::lemma_mul_nonnegative;
use vstd::prelude::*;

use crate::geometry::Tetromino;
use crate::geometry::TetrominoKind;

verus! {

/// Row `r` of a row-major grid with the given width.
pub open spec fn row_of(cells: Seq<Option<TetrominoKind>>, width: int, r: int) -> Seq<
    Option<TetrominoKind>,
> {
    cells.subrange(r * width, (r + 1) * width)
}

/// A row is full iff every cell in it is occupied.
pub open spec fn row_full(row: Seq<Option<TetrominoKind>>) -> bool {
    forall|j: int| 0 <= j < row.len() ==> #[trigger] row[j] is Some
}

/// A row is empty iff every cell in it is vacant.
pub open spec fn row_empty(row: Seq<Option<TetrominoKind>>) -> bool {
    forall|j: int| 0 <= j < row.len() ==> #[trigger] row[j] is None
}

/// The rows among the first `n` that are not full, top to bottom, in their
/// original relative order.
pub open spec fn kept_rows(cells: Seq<Option<TetrominoKind>>, width: int, n: int) -> Seq<
    Seq<Option<TetrominoKind>>,
>
    decreases n,
{
    if n <= 0 {
        Seq::empty()
    } else if row_full(row_of(cells, width, n - 1)) {
        kept_rows(cells, width, n - 1)
    } else {
        kept_rows(cells, width, n - 1).push(row_of(cells, width, n - 1))
    }
}

/// How many of the first `n` rows are full.
pub open spec fn full_row_count(cells: Seq<Option<TetrominoKind>>, width: int, n: int) -> int
    decreases n,
{
    if n <= 0 {
        0
    } else if row_full(row_of(cells, width, n - 1)) {
        full_row_count(cells, width, n - 1) + 1
    } else {
        full_row_count(cells, width, n - 1)
    }
}

/// The rows laid back out as one flat sequence, in order.
pub open spec fn concat_rows(rows: Seq<Seq<Option<TetrominoKind>>>) -> Seq<Option<TetrominoKind>>
    decreases rows.len(),
{
    if rows.len() == 0 {
        Seq::empty()
    } else {
        concat_rows(rows.drop_last()) + rows.last()
    }
}

/// `n` vacant cells.
pub open spec fn blank_cells(n: int) -> Seq<Option<TetrominoKind>> {
    Seq::new(
        if n >= 0 {
            n as nat
        } else {
            0
        },
        |i: int| Option::None,
    )
}

/// The whole grid after line clearing: all full rows removed, the remaining
/// rows compacted downward in order, and the vacated rows at the top refilled
/// with empty cells.
pub open spec fn cleared_cells(
    cells: Seq<Option<TetrominoKind>>,
    width: int,
    height: int,
) -> Seq<Option<TetrominoKind>> {
    blank_cells(full_row_count(cells, width, height) * width) + concat_rows(
        kept_rows(cells, width, height),
    )
}

/// Whether (x, y) is one of the piece's four world cells.
pub open spec fn covers(t: Tetromino, x: int, y: int) -> bool {
    exists|i: int| 0 <= i < 4 && #[trigger] t.world_x(i) == x && t.world_y(i) == y
}

/// The grid after writing the piece's kind into its four world cells.
pub open spec fn place_cells(
    cells: Seq<Option<TetrominoKind>>,
    width: int,
    t: Tetromino,
) -> Seq<Option<TetrominoKind>> {
    Seq::new(
        cells.len(),
        |idx: int|
            if covers(t, idx % width, idx / width) {
                Option::Some(t.kind)
            } else {
                cells[idx]
            },
    )
}

/// A coordinate pair addresses a flat index iff it is the index's euclidean
/// decomposition by the row width.
proof fn lemma_idx_coords(w: int, idx: int, cx: int, cy: int)
    requires
        0 < w,
        0 <= cx < w,
        0 <= cy,
    ensures
        (cy * w + cx == idx) <==> (cx == idx % w && cy == idx / w),
{
    lemma_fundamental_div_mod(idx, w);
    lemma_fundamental_div_mod_converse(cy * w + cx, w, cy, cx);
    vstd::arithmetic::mul::lemma_mul_is_commutative(cy, w);
}

/// A cell index y * width + x stays within a width * height grid.
proof fn lemma_index_bounds(width: int, height: int, x: int, y: int)
    requires
        0 < width,
        0 < height,
        0 <= x < width,
        0 <= y < height,
    ensures
        0 <= y * width + x,
        y * width + x < width * height,
        (y + 1) * width <= width * height,
        (y + 1) * width == y * width + width,
{
    lemma_mul_nonnegative(y, width);
    lemma_mul_is_distributive_add_other_way(width, y, 1);
    lemma_mul_inequality(y + 1, height, width);
    vstd::arithmetic::mul::lemma_mul_is_commutative(height, width);
}

/// Counting and keeping rows is consistent: among the first `n` rows, the
/// kept (non-full) ones and the full ones add up to `n`, and every kept row
/// has exactly `width` cells.
pub proof fn lemma_kept_rows_props(
    cells: Seq<Option<TetrominoKind>>,
    width: int,
    height: int,
    n: int,
)
    requires
        0 < width,
        0 <= n <= height,
        cells.len() == width * height,
    ensures
        kept_rows(cells, width, n).len() + full_row_count(cells, width, n) == n,
        0 <= full_row_count(cells, width, n) <= n,
        forall|k: int|
            0 <= k < kept_rows(cells, width, n).len() ==> (#[trigger] kept_rows(
                cells,
                width,
                n,
            )[k]).len() == width,
    decreases n,
{
    if n > 0 {
        lemma_kept_rows_props(cells, width, height, n - 1);
        lemma_index_bounds(width, height, 0, n - 1);
        vstd::arithmetic::mul::lemma_mul_is_commutative(width, height);
        assert(row_of(cells, width, n - 1).len() == width);
    }
}

/// Concatenating rows of uniform width gives a sequence whose k-th chunk of
/// `width` cells is exactly the k-th row.
pub proof fn lemma_concat_rows_uniform(rows: Seq<Seq<Option<TetrominoKind>>>, width: int)
    requires
        0 < width,
        forall|k: int| 0 <= k < rows.len() ==> (#[trigger] rows[k]).len() == width,
    ensures
        concat_rows(rows).len() == rows.len() * width,
        forall|k: int|
            0 <= k < rows.len() ==> #[trigger] concat_rows(rows).subrange(
                k * width,
                (k + 1) * width,
            ) == rows[k],
    decreases rows.len(),
{
    if rows.len() == 0 {
        assert(concat_rows(rows).len() == rows.len() * width) by {
            vstd::arithmetic::mul::lemma_mul_by_zero_is_zero(width);
        }
    } else {
        let prefix = rows.drop_last();
        lemma_concat_rows_uniform(prefix, width);
        lemma_mul_is_distributive_add_other_way(width, rows.len() - 1, 1);
        assert(concat_rows(rows).len() == rows.len() * width);
        assert forall|k: int| 0 <= k < rows.len() implies #[trigger] concat_rows(rows).subrange(
            k * width,
            (k + 1) * width,
        ) == rows[k] by {
            lemma_mul_nonnegative(k, width);
            lemma_mul_is_distributive_add_other_way(width, k, 1);
            lemma_mul_inequality(k + 1, rows.len() as int, width);
            if k == rows.len() - 1 {
                assert(concat_rows(rows).subrange(k * width, (k + 1) * width) =~= rows[k]);
            } else {
                lemma_mul_inequality(k + 1, rows.len() as int - 1, width);
                assert(concat_rows(rows).subrange(k * width, (k + 1) * width) =~= concat_rows(
                    prefix,
                ).subrange(k * width, (k + 1) * width));
                assert(concat_rows(prefix).subrange(k * width, (k + 1) * width) == prefix[k]);
            }
        }
    }
}

/// Line clearing never changes the total cell count, leaves exactly the
/// vacated top rows empty, and keeps the non-full rows in their original
/// relative order.
pub proof fn lemma_clear_preserves_rows(
    cells: Seq<Option<TetrominoKind>>,
    width: int,
    height: int,
)
    requires
        0 < width,
        0 < height,
        cells.len() == width * height,
    ensures
        cleared_cells(cells, width, height).len() == cells.len(),
        0 <= full_row_count(cells, width, height) <= height,
        kept_rows(cells, width, height).len() == height - full_row_count(cells, width, height),
        forall|i: int|
            0 <= i < full_row_count(cells, width, height) ==> row_empty(
                #[trigger] row_of(cleared_cells(cells, width, height), width, i),
            ),
        forall|i: int|
            full_row_count(cells, width, height) <= i < height ==> #[trigger] row_of(
                cleared_cells(cells, width, height),
                width,
                i,
            ) == kept_rows(cells, width, height)[i - full_row_count(cells, width, height)],
{
    let c = full_row_count(cells, width, height);
    let kept = kept_rows(cells, width, height);
    let out = cleared_cells(cells, width, height);
    lemma_kept_rows_props(cells, width, height, height);
    lemma_concat_rows_uniform(kept, width);
    lemma_mul_nonnegative(c, width);
    assert(out.len() == cells.len()) by {
        lemma_mul_is_distributive_add_other_way(width, c, height - c);
        vstd::arithmetic::mul::lemma_mul_is_commutative(width, c);
        vstd::arithmetic::mul::lemma_mul_is_commutative(width, height - c);
        vstd::arithmetic::mul::lemma_mul_is_commutative(width, height);
    }
    assert forall|i: int| 0 <= i < c implies row_empty(
        #[trigger] row_of(out, width, i),
    ) by {
        lemma_mul_nonnegative(i, width);
        lemma_mul_is_distributive_add_other_way(width, i, 1);
        lemma_mul_inequality(i + 1, c, width);
        assert forall|j: int| 0 <= j < row_of(out, width, i).len() implies #[trigger] row_of(
            out,
            width,
            i,
        )[j] is None by {
            assert(out[i * width + j] == blank_cells(c * width)[i * width + j]);
        }
    }
    assert forall|i: int| c <= i < height implies #[trigger] row_of(out, width, i) == kept[i
        - c] by {
        lemma_mul_nonnegative(i, width);
        lemma_mul_nonnegative(i - c, width);
        lemma_mul_is_distributive_add_other_way(width, i, 1);
        lemma_mul_is_distributive_add_other_way(width, i - c, 1);
        lemma_mul_is_distributive_sub_other_way(width, i, c);
        lemma_mul_inequality(i + 1 - c, height - c, width);
        assert(row_of(out, width, i) =~= concat_rows(kept).subrange(
            (i - c) * width,
            (i - c + 1) * width,
        ));
        assert(concat_rows(kept).subrange((i - c) * width, (i - c + 1) * width) == kept[i - c]);
    }
}

/// The playfield grid. Owned exclusively by the game state; mutated only via
/// placement and line clearing.
pub struct Board {
    pub width: i32,
    pub height: i32,
    pub cells: Vec<Option<TetrominoKind>>,
}

impl Board {
    /// Structural invariant: positive dimensions small enough that cell
    /// indexing cannot overflow, and exactly width * height cells.
    pub open spec fn wf(self) -> bool {
        &&& 0 < self.width <= 0x1000_0000
        &&& 0 < self.height <= 0x1000_0000
        &&& self.width * self.height <= i32::MAX
        &&& self.cells@.len() == self.width * self.height
    }

    /// The cell at (x, y); meaningful for 0 <= x < width, 0 <= y < height.
    pub open spec fn spec_cell(self, x: int, y: int) -> Option<TetrominoKind> {
        self.cells@[y * self.width + x]
    }

    pub open spec fn in_bounds(self, x: int, y: int) -> bool {
        0 <= x < self.width && 0 <= y < self.height
    }

    /// A coordinate is "occupied" if it lies outside the grid on any side
    /// (including above the top) or its grid cell is non-empty.
    pub open spec fn spec_occupied(self, x: int, y: int) -> bool {
        !self.in_bounds(x, y) || self.spec_cell(x, y) is Some
    }

    /// True iff none of the piece's four world cells are occupied.
    pub open spec fn spec_can_place(self, t: Tetromino) -> bool {
        forall|i: int|
            0 <= i < 4 ==> !#[trigger] self.spec_occupied(t.world_x(i), t.world_y(i))
    }

    /// A fresh, fully empty grid.
    pub fn new(width: i32, height: i32) -> (b: Board)
        requires
            0 < width <= 0x1000_0000,
            0 < height <= 0x1000_0000,
            width * height <= i32::MAX,
        ensures
            b.wf(),
            b.width == width,
            b.height == height,
            b.cells@ == blank_cells(width * height),
    {
        let n: usize = (width * height) as usize;
        let mut cells: Vec<Option<TetrominoKind>> = Vec::new();
        while cells.len() < n
            invariant
                cells@.len() <= n,
                forall|i: int| 0 <= i < cells@.len() ==> #[trigger] cells@[i] is None,
            decreases n - cells@.len(),
        {
            cells.push(None);
        }
        proof {
            assert(cells@ =~= blank_cells(width * height));
        }
        Board { width, height, cells }
    }

    /// Occupancy query for one coordinate; out-of-bounds always counts as
    /// blocked.
    pub fn is_occupied(&self, pos: crate::geometry::Pos) -> (r: bool)
        requires
            self.wf(),
        ensures
            r == self.spec_occupied(pos.x as int, pos.y as int),
    {
        if pos.x < 0 || pos.y < 0 || pos.x >= self.width || pos.y >= self.height {
            return true;
        }
        proof {
            lemma_index_bounds(self.width as int, self.height as int, pos.x as int, pos.y as int);
        }
        self.cells[(pos.y * self.width + pos.x) as usize].is_some()
    }

    /// Collision query for a whole piece.
    pub fn can_place(&self, t: &Tetromino) -> (r: bool)
        requires
            self.wf(),
            t.pos_ok(),
        ensures
            r == self.spec_can_place(*t),
    {
        let cells = t.world_cells();
        let r = !(self.is_occupied(cells[0]) || self.is_occupied(cells[1]) || self.is_occupied(
            cells[2],
        ) || self.is_occupied(cells[3]));
        proof {
            if r {
                assert forall|i: int|
                    0 <= i < 4 implies !#[trigger] self.spec_occupied(
                    t.world_x(i),
                    t.world_y(i),
                ) by {
                    if i == 0 {
                    } else if i == 1 {
                    } else if i == 2 {
                    } else {
                    }
                }
            }
        }
        r
    }

    /// Write `value` at (x, y) if the coordinate lies inside the grid; a
    /// write outside the grid is ignored.
    fn set_occupied(&mut self, pos: crate::geometry::Pos, value: Option<TetrominoKind>)
        requires
            old(self).wf(),
        ensures
            final(self).wf(),
            final(self).width == old(self).width,
            final(self).height == old(self).height,
            old(self).in_bounds(pos.x as int, pos.y as int) ==> final(self).cells@ == old(
                self,
            ).cells@.update(pos.y * old(self).width + pos.x, value),
            !old(self).in_bounds(pos.x as int, pos.y as int) ==> final(self).cells@ == old(
                self,
            ).cells@,
    {
        if pos.x >= 0 && pos.x < self.width && pos.y >= 0 && pos.y < self.height {
            proof {
                lemma_index_bounds(
                    self.width as int,
                    self.height as int,
                    pos.x as int,
                    pos.y as int,
                );
            }
            let idx: usize = (pos.y * self.width + pos.x) as usize;
            self.cells[idx] = value;
        }
    }

    /// Attempt to settle a piece: if any of its cells is blocked, the grid is
    /// unchanged and the result is false; otherwise its four cells are
    /// written with the piece's kind.
    pub fn try_place(&mut self, t: &Tetromino) -> (r: bool)
        requires
            old(self).wf(),
            t.pos_ok(),
        ensures
            final(self).wf(),
            final(self).width == old(self).width,
            final(self).height == old(self).height,
            r == old(self).spec_can_place(*t),
            !r ==> final(self).cells@ == old(self).cells@,
            r ==> final(self).cells@ == place_cells(old(self).cells@, old(self).width as int, *t),
    {
        if !self.can_place(t) {
            return false;
        }
        let ghost pre = *self;
        let cells = t.world_cells();
        proof {
            assert forall|i: int| 0 <= i < 4 implies pre.in_bounds(
                t.world_x(i),
                t.world_y(i),
            ) by {
                assert(!pre.spec_occupied(t.world_x(i), t.world_y(i)));
            }
            assert(cells@[0].x == t.world_x(0) && cells@[0].y == t.world_y(0));
            assert(cells@[1].x == t.world_x(1) && cells@[1].y == t.world_y(1));
            assert(cells@[2].x == t.world_x(2) && cells@[2].y == t.world_y(2));
            assert(cells@[3].x == t.world_x(3) && cells@[3].y == t.world_y(3));
        }
        self.set_occupied(cells[0], Some(t.kind));
        self.set_occupied(cells[1], Some(t.kind));
        self.set_occupied(cells[2], Some(t.kind));
        self.set_occupied(cells[3], Some(t.kind));
        proof {
            self.lemma_place_cells_eq(pre, *t, cells@);
        }
        true
    }

    /// After the four in-bounds updates of `try_place`, the grid equals the
    /// pointwise placement description.
    proof fn lemma_place_cells_eq(self, pre: Board, t: Tetromino, world: Seq<crate::geometry::Pos>)
        requires
            pre.wf(),
            pre.spec_can_place(t),
            world.len() == 4,
            forall|i: int|
                0 <= i < 4 ==> #[trigger] world[i].x == t.world_x(i) && world[i].y == t.world_y(i),
            self.cells@ == pre.cells@.update(world[0].y * pre.width + world[0].x, Option::Some(t.kind))
                .update(world[1].y * pre.width + world[1].x, Option::Some(t.kind))
                .update(world[2].y * pre.width + world[2].x, Option::Some(t.kind))
                .update(world[3].y * pre.width + world[3].x, Option::Some(t.kind)),
        ensures
            self.cells@ == place_cells(pre.cells@, pre.width as int, t),
    {
        let w = pre.width as int;
        let target = place_cells(pre.cells@, w, t);
        assert forall|i: int| 0 <= i < 4 implies 0 <= #[trigger] t.world_x(i) < w && 0 <= t.world_y(
            i,
        ) < pre.height by {
            assert(!pre.spec_occupied(t.world_x(i), t.world_y(i)));
        }
        assert forall|i: int| 0 <= i < 4 implies 0 <= #[trigger] (world[i].y * pre.width
            + world[i].x) < pre.cells@.len() by {
            assert(world[i].x == t.world_x(i) && world[i].y == t.world_y(i));
            lemma_index_bounds(w, pre.height as int, t.world_x(i), t.world_y(i));
        }
        assert forall|idx: int| 0 <= idx < self.cells@.len() implies self.cells@[idx]
            == target[idx] by {
            lemma_fundamental_div_mod(idx, w);
            lemma_mod_bound(idx, w);
            let x = idx % w;
            let y = idx / w;
            assert forall|i: int| 0 <= i < 4 implies ((world[i].y * pre.width + world[i].x == idx)
                <==> (#[trigger] t.world_x(i) == x && t.world_y(i) == y)) by {
                assert(world[i].x == t.world_x(i) && world[i].y == t.world_y(i));
                lemma_idx_coords(w, idx, t.world_x(i), t.world_y(i));
            }
            if covers(t, x, y) {
                let i = choose|i: int|
                    0 <= i < 4 && #[trigger] t.world_x(i) == x && t.world_y(i) == y;
                assert(world[i].y * pre.width + world[i].x == idx);
                if i == 0 {
                } else if i == 1 {
                } else if i == 2 {
                } else {
                }
                assert(self.cells@[idx] == Option::Some(t.kind));
            } else {
                assert forall|i: int| 0 <= i < 4 implies world[i].y * pre.width + world[i].x
                    != idx by {
                    assert(!(t.world_x(i) == x && t.world_y(i) == y));
                }
                assert(self.cells@[idx] == pre.cells@[idx]);
            }
        }
        assert(self.cells@ =~= target);
    }

    /// Scan all rows, remove the full ones, compact the rest downward, refill
    /// the vacated rows at the top with empty cells, and return how many rows
    /// were cleared (the score delta).
    pub fn check_clear(&mut self) -> (cleared: usize)
        requires
            old(self).wf(),
        ensures
            final(self).wf(),
            final(self).width == old(self).width,
            final(self).height == old(self).height,
            final(self).cells@ == cleared_cells(
                old(self).cells@,
                old(self).width as int,
                old(self).height as int,
            ),
            cleared as int == full_row_count(
                old(self).cells@,
                old(self).width as int,
                old(self).height as int,
            ),
            cleared <= old(self).height,
    {
        let w: usize = self.width as usize;
        let h: usize = self.height as usize;
        let ghost cells0 = self.cells@;
        let mut kept: Vec<Option<TetrominoKind>> = Vec::new();
        let mut kept_count: usize = 0;
        let mut row: usize = 0;
        while row < h
            invariant
                self.wf(),
                self.cells@ == cells0,
                w == self.width,
                h == self.height,
                row <= h,
                kept_count <= row,
                kept_rows(cells0, w as int, row as int).len() == kept_count,
                kept@ == concat_rows(kept_rows(cells0, w as int, row as int)),
                kept@.len() == kept_count * w,
                full_row_count(cells0, w as int, row as int) == row - kept_count,
            decreases h - row,
        {
            let ghost this_row = row_of(cells0, w as int, row as int);
            proof {
                lemma_index_bounds(w as int, h as int, 0, row as int);
                assert(this_row.len() == w) by {
                    lemma_mul_is_distributive_add_other_way(w as int, row as int, 1);
                }
            }
            let mut has_empty = false;
            let mut j: usize = 0;
            while j < w
                invariant
                    self.wf(),
                    self.cells@ == cells0,
                    w == self.width,
                    h == self.height,
                    row < h,
                    j <= w,
                    this_row == row_of(cells0, w as int, row as int),
                    this_row.len() == w,
                    forall|k: int| 0 <= k < this_row.len() ==> this_row[k] == cells0[row * w + k],
                    has_empty == exists|k: int| 0 <= k < j && #[trigger] this_row[k] is None,
                decreases w - j,
            {
                proof {
                    lemma_index_bounds(w as int, h as int, j as int, row as int);
                }
                let c = self.cells[row * w + j];
                proof {
                    assert(this_row[j as int] == c);
                }
                if c.is_none() {
                    has_empty = true;
                    proof {
                        assert(this_row[j as int] is None);
                    }
                }
                j += 1;
            }
            proof {
                if has_empty {
                    let k = choose|k: int| 0 <= k < w && #[trigger] this_row[k] is None;
                    assert(!row_full(this_row));
                } else {
                    assert(row_full(this_row));
                }
            }
            if has_empty {
                // this row survives: copy its cells over in order
                let ghost kept_pre = kept@;
                let mut j2: usize = 0;
                while j2 < w
                    invariant
                        self.wf(),
                        self.cells@ == cells0,
                        w == self.width,
                        h == self.height,
                        row < h,
                        j2 <= w,
                        this_row == row_of(cells0, w as int, row as int),
                        this_row.len() == w,
                        forall|k: int| 0 <= k < this_row.len() ==> this_row[k] == cells0[row * w + k],
                        kept@ == kept_pre + this_row.subrange(0, j2 as int),
                    decreases w - j2,
                {
                    proof {
                        lemma_index_bounds(w as int, h as int, j2 as int, row as int);
                    }
                    let c = self.cells[row * w + j2];
                    kept.push(c);
                    proof {
                        assert(kept@ =~= kept_pre + this_row.subrange(0, j2 + 1));
                    }
                    j2 += 1;
                }
                proof {
                    assert(this_row.subrange(0, w as int) =~= this_row);
                    assert(kept_rows(cells0, w as int, row + 1) == kept_rows(
                        cells0,
                        w as int,
                        row as int,
                    ).push(this_row));
                    assert(kept@ =~= concat_rows(kept_rows(cells0, w as int, row + 1))) by {
                        assert(kept_rows(cells0, w as int, row + 1).drop_last() =~= kept_rows(
                            cells0,
                            w as int,
                            row as int,
                        ));
                    }
                    lemma_mul_is_distributive_add_other_way(w as int, kept_count as int, 1);
                }
                kept_count += 1;
            }
            row += 1;
        }
        let cleared: usize = h - kept_count;
        proof {
            lemma_mul_inequality(cleared as int, h as int, w as int);
            vstd::arithmetic::mul::lemma_mul_is_commutative(h as int, w as int);
            lemma_mul_nonnegative(cleared as int, w as int);
        }
        let pad: usize = cleared * w;
        let mut new_cells: Vec<Option<TetrominoKind>> = Vec::new();
        while new_cells.len() < pad
            invariant
                new_cells@.len() <= pad,
                forall|i: int| 0 <= i < new_cells@.len() ==> #[trigger] new_cells@[i] is None,
            decreases pad - new_cells@.len(),
        {
            new_cells.push(None);
        }
        proof {
            assert(new_cells@ =~= blank_cells(cleared as int * w as int));
        }
        new_cells.append(&mut kept);
        self.cells = new_cells;
        proof {
            assert(full_row_count(cells0, w as int, h as int) == cleared as int);
            assert(self.cells@ == cleared_cells(cells0, w as int, h as int));
            assert(self.cells@.len() == self.width * self.height) by {
                lemma_mul_is_distributive_add_other_way(
                    w as int,
                    cleared as int,
                    kept_count as int,
                );
                vstd::arithmetic::mul::lemma_mul_is_commutative(w as int, h as int);
                vstd::arithmetic::mul::lemma_mul_is_commutative(w as int, cleared as int);
                vstd::arithmetic::mul::lemma_mul_is_commutative(w as int, kept_count as int);
            }
        }
        cleared
    }
}

/// Placement queries depend only on the grid's dimensions and contents: two
/// boards that agree on those agree on every `can_place` answer.
pub proof fn lemma_can_place_same(b1: Board, b2: Board, t: Tetromino)
    requires
        b1.width == b2.width,
        b1.height == b2.height,
        b1.cells@ == b2.cells@,
        b1.spec_can_place(t),
    ensures
        b2.spec_can_place(t),
{
    assert forall|i: int| 0 <= i < 4 implies !#[trigger] b2.spec_occupied(
        t.world_x(i),
        t.world_y(i),
    ) by {
        assert(!b1.spec_occupied(t.world_x(i), t.world_y(i)));
    }
}

/// For all boards, a piece with any world cell at x < 0, x >= width, y < 0 or
/// y >= height cannot be placed: out-of-bounds always counts as blocked.
pub proof fn lemma_can_place_out_of_bounds(b: Board, t: Tetromino, i: int)
    requires
        0 <= i < 4,
        t.world_x(i) < 0 || t.world_x(i) >= b.width || t.world_y(i) < 0 || t.world_y(i)
            >= b.height,
    ensures
        !b.spec_can_place(t),
{
    assert(b.spec_occupied(t.world_x(i), t.world_y(i)));
}

} // verus!
