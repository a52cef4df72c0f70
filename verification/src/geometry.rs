//! Piece shape tables and coordinate arithmetic: positions, rotation states,
//! the seven tetromino kinds with their 7x4 relative-cell offset table, and
//! the `Tetromino` value type (kind + anchor position + orientation).

use vstd::prelude::*;

verus! {

pub const RED: u32 = 0xFF0000;
pub const GREEN: u32 = 0x00FF00;
pub const BLUE: u32 = 0x0000FF;
pub const CYAN: u32 = 0x00FFFF;
pub const YELLOW: u32 = 0xFFFF00;
pub const ORANGE: u32 = 0xFFA500;
pub const PURPLE: u32 = 0x800080;

/// The seven fixed tetromino shapes.
#[derive(Clone, Copy, Debug, PartialEq, Eq, Structural)]
pub enum TetrominoKind {
    I,
    O,
    T,
    J,
    L,
    S,
    Z,
}

impl TetrominoKind {
    /// Display color of this kind, as a 0xRRGGBB pixel value.
    pub open spec fn spec_color(self) -> u32 {
        match self {
            TetrominoKind::I => RED,
            TetrominoKind::O => GREEN,
            TetrominoKind::T => BLUE,
            TetrominoKind::J => CYAN,
            TetrominoKind::L => YELLOW,
            TetrominoKind::S => ORANGE,
            TetrominoKind::Z => PURPLE,
        }
    }

    pub fn color(&self) -> (c: u32)
        ensures
            c == self.spec_color(),
    {
        match self {
            TetrominoKind::I => RED,
            TetrominoKind::O => GREEN,
            TetrominoKind::T => BLUE,
            TetrominoKind::J => CYAN,
            TetrominoKind::L => YELLOW,
            TetrominoKind::S => ORANGE,
            TetrominoKind::Z => PURPLE,
        }
    }
}

/// One of the four discrete rotation states, cyclically ordered.
#[derive(Clone, Copy, Debug, PartialEq, Eq, Structural)]
pub enum Rotation {
    R0,
    R90,
    R180,
    R270,
}

impl Rotation {
    pub open spec fn spec_cw(self) -> Rotation {
        match self {
            Rotation::R0 => Rotation::R90,
            Rotation::R90 => Rotation::R180,
            Rotation::R180 => Rotation::R270,
            Rotation::R270 => Rotation::R0,
        }
    }

    pub open spec fn spec_ccw(self) -> Rotation {
        match self {
            Rotation::R90 => Rotation::R0,
            Rotation::R180 => Rotation::R90,
            Rotation::R270 => Rotation::R180,
            Rotation::R0 => Rotation::R270,
        }
    }

    /// Next rotation state clockwise; total on the 4-cycle.
    pub fn cw(self) -> (r: Rotation)
        ensures
            r == self.spec_cw(),
    {
        match self {
            Rotation::R0 => Rotation::R90,
            Rotation::R90 => Rotation::R180,
            Rotation::R180 => Rotation::R270,
            Rotation::R270 => Rotation::R0,
        }
    }

    /// Next rotation state counter-clockwise; total on the 4-cycle.
    pub fn ccw(self) -> (r: Rotation)
        ensures
            r == self.spec_ccw(),
    {
        match self {
            Rotation::R90 => Rotation::R0,
            Rotation::R180 => Rotation::R90,
            Rotation::R270 => Rotation::R180,
            Rotation::R0 => Rotation::R270,
        }
    }
}

/// Board-cell coordinates, y increasing downward. Immutable value type.
#[derive(Clone, Copy, Debug, PartialEq, Eq, Structural)]
pub struct Pos {
    pub x: i32,
    pub y: i32,
}

impl Pos {
    /// Componentwise vector addition.
    pub fn add(self, other: Pos) -> (r: Pos)
        requires
            i32::MIN <= self.x + other.x <= i32::MAX,
            i32::MIN <= self.y + other.y <= i32::MAX,
        ensures
            r.x == self.x + other.x,
            r.y == self.y + other.y,
    {
        Pos { x: self.x + other.x, y: self.y + other.y }
    }

    /// Componentwise scalar multiplication.
    pub fn mul(self, rhs: i32) -> (r: Pos)
        requires
            i32::MIN <= self.x * rhs <= i32::MAX,
            i32::MIN <= self.y * rhs <= i32::MAX,
        ensures
            r.x == self.x * rhs,
            r.y == self.y * rhs,
    {
        Pos { x: self.x * rhs, y: self.y * rhs }
    }
}

/// The fixed relative-cell table: for every (kind, orientation) pair, the
/// four cell offsets from the piece's anchor. Static data, never mutated.
pub open spec fn spec_rel_cells(kind: TetrominoKind, rot: Rotation) -> Seq<Pos> {
    match kind {
        TetrominoKind::I => match rot {
            Rotation::R0 => seq![Pos { x: -1i32, y: 0 }, Pos { x: 0, y: 0 }, Pos { x: 1, y: 0 }, Pos { x: 2, y: 0 }],
            Rotation::R90 => seq![Pos { x: 1, y: -1i32 }, Pos { x: 1, y: 0 }, Pos { x: 1, y: 1 }, Pos { x: 1, y: 2 }],
            Rotation::R180 => seq![Pos { x: -1i32, y: 1 }, Pos { x: 0, y: 1 }, Pos { x: 1, y: 1 }, Pos { x: 2, y: 1 }],
            Rotation::R270 => seq![Pos { x: 0, y: -1i32 }, Pos { x: 0, y: 0 }, Pos { x: 0, y: 1 }, Pos { x: 0, y: 2 }],
        },
        TetrominoKind::O => seq![Pos { x: 0, y: 0 }, Pos { x: 1, y: 0 }, Pos { x: 0, y: 1 }, Pos { x: 1, y: 1 }],
        TetrominoKind::T => match rot {
            Rotation::R0 => seq![Pos { x: -1i32, y: 0 }, Pos { x: 0, y: 0 }, Pos { x: 1, y: 0 }, Pos { x: 0, y: -1i32 }],
            Rotation::R90 => seq![Pos { x: 0, y: -1i32 }, Pos { x: 0, y: 0 }, Pos { x: 1, y: 0 }, Pos { x: 0, y: 1 }],
            Rotation::R180 => seq![Pos { x: -1i32, y: 0 }, Pos { x: 0, y: 0 }, Pos { x: 1, y: 0 }, Pos { x: 0, y: 1 }],
            Rotation::R270 => seq![Pos { x: -1i32, y: 0 }, Pos { x: 0, y: 0 }, Pos { x: 0, y: -1i32 }, Pos { x: 0, y: 1 }],
        },
        TetrominoKind::J => match rot {
            Rotation::R0 => seq![Pos { x: -1i32, y: -1i32 }, Pos { x: -1i32, y: 0 }, Pos { x: 0, y: 0 }, Pos { x: 1, y: 0 }],
            Rotation::R90 => seq![Pos { x: 0, y: -1i32 }, Pos { x: 1, y: -1i32 }, Pos { x: 0, y: 0 }, Pos { x: 0, y: 1 }],
            Rotation::R180 => seq![Pos { x: -1i32, y: 0 }, Pos { x: 0, y: 0 }, Pos { x: 1, y: 0 }, Pos { x: 1, y: 1 }],
            Rotation::R270 => seq![Pos { x: 0, y: -1i32 }, Pos { x: 0, y: 0 }, Pos { x: 0, y: 1 }, Pos { x: -1i32, y: 1 }],
        },
        TetrominoKind::L => match rot {
            Rotation::R0 => seq![Pos { x: -1i32, y: 0 }, Pos { x: 0, y: 0 }, Pos { x: 1, y: 0 }, Pos { x: 1, y: -1i32 }],
            Rotation::R90 => seq![Pos { x: 0, y: -1i32 }, Pos { x: 0, y: 0 }, Pos { x: 0, y: 1 }, Pos { x: 1, y: 1 }],
            Rotation::R180 => seq![Pos { x: -1i32, y: 1 }, Pos { x: -1i32, y: 0 }, Pos { x: 0, y: 0 }, Pos { x: 1, y: 0 }],
            Rotation::R270 => seq![Pos { x: -1i32, y: -1i32 }, Pos { x: 0, y: -1i32 }, Pos { x: 0, y: 0 }, Pos { x: 0, y: 1 }],
        },
        TetrominoKind::S => match rot {
            Rotation::R0 => seq![Pos { x: -1i32, y: 0 }, Pos { x: 0, y: 0 }, Pos { x: 0, y: -1i32 }, Pos { x: 1, y: -1i32 }],
            Rotation::R90 => seq![Pos { x: 0, y: -1i32 }, Pos { x: 0, y: 0 }, Pos { x: 1, y: 0 }, Pos { x: 1, y: 1 }],
            Rotation::R180 => seq![Pos { x: -1i32, y: 1 }, Pos { x: 0, y: 1 }, Pos { x: 0, y: 0 }, Pos { x: 1, y: 0 }],
            Rotation::R270 => seq![Pos { x: -1i32, y: -1i32 }, Pos { x: -1i32, y: 0 }, Pos { x: 0, y: 0 }, Pos { x: 0, y: 1 }],
        },
        TetrominoKind::Z => match rot {
            Rotation::R0 => seq![Pos { x: -1i32, y: -1i32 }, Pos { x: 0, y: -1i32 }, Pos { x: 0, y: 0 }, Pos { x: 1, y: 0 }],
            Rotation::R90 => seq![Pos { x: 1, y: -1i32 }, Pos { x: 1, y: 0 }, Pos { x: 0, y: 0 }, Pos { x: 0, y: 1 }],
            Rotation::R180 => seq![Pos { x: -1i32, y: 0 }, Pos { x: 0, y: 0 }, Pos { x: 0, y: 1 }, Pos { x: 1, y: 1 }],
            Rotation::R270 => seq![Pos { x: 0, y: -1i32 }, Pos { x: 0, y: 0 }, Pos { x: -1i32, y: 0 }, Pos { x: -1i32, y: 1 }],
        },
    }
}

/// Every entry of the relative-cell table has exactly 4 offsets, and each
/// offset component lies in [-1, 2].
pub proof fn lemma_rel_cells_bounds(kind: TetrominoKind, rot: Rotation)
    ensures
        spec_rel_cells(kind, rot).len() == 4,
        forall|i: int|
            0 <= i < 4 ==> -1 <= #[trigger] spec_rel_cells(kind, rot)[i].x <= 2
                && -1 <= spec_rel_cells(kind, rot)[i].y <= 2,
{
    assert forall|i: int|
        0 <= i < 4 implies -1 <= #[trigger] spec_rel_cells(kind, rot)[i].x <= 2
        && -1 <= spec_rel_cells(kind, rot)[i].y <= 2 by {
        if i == 0 {
        } else if i == 1 {
        } else if i == 2 {
        } else {
        }
    }
}

/// A tetromino: {kind, anchor position, orientation}. Value type, freely
/// copied; replaced wholesale on every move, never mutated in place.
#[derive(Clone, Copy, Debug, PartialEq, Eq, Structural)]
pub struct Tetromino {
    pub kind: TetrominoKind,
    pub pos: Pos,
    pub rot: Rotation,
}

impl Tetromino {
    /// x-coordinate of the piece's i-th world cell (anchor + offset).
    pub open spec fn world_x(self, i: int) -> int {
        self.pos.x + spec_rel_cells(self.kind, self.rot)[i].x
    }

    /// y-coordinate of the piece's i-th world cell (anchor + offset).
    pub open spec fn world_y(self, i: int) -> int {
        self.pos.y + spec_rel_cells(self.kind, self.rot)[i].y
    }

    /// The anchor is far enough from the i32 limits that world-cell
    /// arithmetic (anchor plus a relative offset) cannot overflow. A pure
    /// machine limit: every coordinate a game can reach satisfies it.
    pub open spec fn pos_ok(self) -> bool {
        &&& -0x4000_0000 <= self.pos.x <= 0x4000_0000
        &&& -0x4000_0000 <= self.pos.y <= 0x4000_0000
    }

    /// A one-cell stricter margin: after a single move or wall-kick offset
    /// the anchor is still `pos_ok`, so a candidate piece can be built and
    /// collision-checked. Also a pure machine limit.
    pub open spec fn pos_step_ok(self) -> bool {
        &&& -0x2000_0000 <= self.pos.x <= 0x2000_0000
        &&& -0x2000_0000 <= self.pos.y <= 0x2000_0000
    }

    pub fn new(kind: TetrominoKind, pos: Pos) -> (t: Tetromino)
        ensures
            t.kind == kind,
            t.pos == pos,
            t.rot == Rotation::R0,
    {
        Tetromino { kind, pos, rot: Rotation::R0 }
    }

    /// The four relative cell offsets for a (kind, orientation) pair, as a
    /// fixed-length array. Pure lookup, no failure modes.
    pub fn relative_cells(kind: TetrominoKind, rot: Rotation) -> (r: [Pos; 4])
        ensures
            r@ == spec_rel_cells(kind, rot),
    {
        let r = match kind {
            TetrominoKind::I => match rot {
                Rotation::R0 => [Pos { x: -1i32, y: 0 }, Pos { x: 0, y: 0 }, Pos { x: 1, y: 0 }, Pos { x: 2, y: 0 }],
                Rotation::R90 => [Pos { x: 1, y: -1i32 }, Pos { x: 1, y: 0 }, Pos { x: 1, y: 1 }, Pos { x: 1, y: 2 }],
                Rotation::R180 => [Pos { x: -1i32, y: 1 }, Pos { x: 0, y: 1 }, Pos { x: 1, y: 1 }, Pos { x: 2, y: 1 }],
                Rotation::R270 => [Pos { x: 0, y: -1i32 }, Pos { x: 0, y: 0 }, Pos { x: 0, y: 1 }, Pos { x: 0, y: 2 }],
            },
            TetrominoKind::O => [Pos { x: 0, y: 0 }, Pos { x: 1, y: 0 }, Pos { x: 0, y: 1 }, Pos { x: 1, y: 1 }],
            TetrominoKind::T => match rot {
                Rotation::R0 => [Pos { x: -1i32, y: 0 }, Pos { x: 0, y: 0 }, Pos { x: 1, y: 0 }, Pos { x: 0, y: -1i32 }],
                Rotation::R90 => [Pos { x: 0, y: -1i32 }, Pos { x: 0, y: 0 }, Pos { x: 1, y: 0 }, Pos { x: 0, y: 1 }],
                Rotation::R180 => [Pos { x: -1i32, y: 0 }, Pos { x: 0, y: 0 }, Pos { x: 1, y: 0 }, Pos { x: 0, y: 1 }],
                Rotation::R270 => [Pos { x: -1i32, y: 0 }, Pos { x: 0, y: 0 }, Pos { x: 0, y: -1i32 }, Pos { x: 0, y: 1 }],
            },
            TetrominoKind::J => match rot {
                Rotation::R0 => [Pos { x: -1i32, y: -1i32 }, Pos { x: -1i32, y: 0 }, Pos { x: 0, y: 0 }, Pos { x: 1, y: 0 }],
                Rotation::R90 => [Pos { x: 0, y: -1i32 }, Pos { x: 1, y: -1i32 }, Pos { x: 0, y: 0 }, Pos { x: 0, y: 1 }],
                Rotation::R180 => [Pos { x: -1i32, y: 0 }, Pos { x: 0, y: 0 }, Pos { x: 1, y: 0 }, Pos { x: 1, y: 1 }],
                Rotation::R270 => [Pos { x: 0, y: -1i32 }, Pos { x: 0, y: 0 }, Pos { x: 0, y: 1 }, Pos { x: -1i32, y: 1 }],
            },
            TetrominoKind::L => match rot {
                Rotation::R0 => [Pos { x: -1i32, y: 0 }, Pos { x: 0, y: 0 }, Pos { x: 1, y: 0 }, Pos { x: 1, y: -1i32 }],
                Rotation::R90 => [Pos { x: 0, y: -1i32 }, Pos { x: 0, y: 0 }, Pos { x: 0, y: 1 }, Pos { x: 1, y: 1 }],
                Rotation::R180 => [Pos { x: -1i32, y: 1 }, Pos { x: -1i32, y: 0 }, Pos { x: 0, y: 0 }, Pos { x: 1, y: 0 }],
                Rotation::R270 => [Pos { x: -1i32, y: -1i32 }, Pos { x: 0, y: -1i32 }, Pos { x: 0, y: 0 }, Pos { x: 0, y: 1 }],
            },
            TetrominoKind::S => match rot {
                Rotation::R0 => [Pos { x: -1i32, y: 0 }, Pos { x: 0, y: 0 }, Pos { x: 0, y: -1i32 }, Pos { x: 1, y: -1i32 }],
                Rotation::R90 => [Pos { x: 0, y: -1i32 }, Pos { x: 0, y: 0 }, Pos { x: 1, y: 0 }, Pos { x: 1, y: 1 }],
                Rotation::R180 => [Pos { x: -1i32, y: 1 }, Pos { x: 0, y: 1 }, Pos { x: 0, y: 0 }, Pos { x: 1, y: 0 }],
                Rotation::R270 => [Pos { x: -1i32, y: -1i32 }, Pos { x: -1i32, y: 0 }, Pos { x: 0, y: 0 }, Pos { x: 0, y: 1 }],
            },
            TetrominoKind::Z => match rot {
                Rotation::R0 => [Pos { x: -1i32, y: -1i32 }, Pos { x: 0, y: -1i32 }, Pos { x: 0, y: 0 }, Pos { x: 1, y: 0 }],
                Rotation::R90 => [Pos { x: 1, y: -1i32 }, Pos { x: 1, y: 0 }, Pos { x: 0, y: 0 }, Pos { x: 0, y: 1 }],
                Rotation::R180 => [Pos { x: -1i32, y: 0 }, Pos { x: 0, y: 0 }, Pos { x: 0, y: 1 }, Pos { x: 1, y: 1 }],
                Rotation::R270 => [Pos { x: 0, y: -1i32 }, Pos { x: 0, y: 0 }, Pos { x: -1i32, y: 0 }, Pos { x: -1i32, y: 1 }],
            },
        };
        proof {
            assert(r@ =~= spec_rel_cells(kind, rot));
        }
        r
    }

    /// The piece's four world cells: anchor + each relative offset,
    /// order-preserving.
    pub fn world_cells(&self) -> (r: [Pos; 4])
        requires
            self.pos_ok(),
        ensures
            r@.len() == 4,
            forall|i: int| 0 <= i < 4 ==> (#[trigger] r@[i]).x == self.world_x(i),
            forall|i: int| 0 <= i < 4 ==> (#[trigger] r@[i]).y == self.world_y(i),
    {
        proof {
            lemma_rel_cells_bounds(self.kind, self.rot);
        }
        let rel = Self::relative_cells(self.kind, self.rot);
        [self.pos.add(rel[0]), self.pos.add(rel[1]), self.pos.add(rel[2]), self.pos.add(rel[3])]
    }

    /// The same piece turned one step clockwise, anchor unchanged.
    pub fn rotate_cw(&self) -> (r: Tetromino)
        ensures
            r.kind == self.kind,
            r.pos == self.pos,
            r.rot == self.rot.spec_cw(),
    {
        Tetromino { rot: self.rot.cw(), ..*self }
    }

    /// The same piece turned one step counter-clockwise, anchor unchanged.
    pub fn rotate_ccw(&self) -> (r: Tetromino)
        ensures
            r.kind == self.kind,
            r.pos == self.pos,
            r.rot == self.rot.spec_ccw(),
    {
        Tetromino { rot: self.rot.ccw(), ..*self }
    }
}

} // verus!
