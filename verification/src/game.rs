//! Movement primitives and the game state machine: one logical tick reads a
//! debounced command, attempts the corresponding move, then evaluates
//! gravity, locking, game-over and scoring.

use vstd::prelude::*;

use crate::board::blank_cells;
use crate::board::cleared_cells;
use crate::board::full_row_count;
use crate::board::place_cells;
use crate::board::Board;
use crate::geometry::lemma_rel_cells_bounds;
use crate::geometry::Pos;
use crate::geometry::Rotation;
use crate::geometry::Tetromino;
use crate::geometry::TetrominoKind;
use crate::input::ConstMotion;
use crate::input::KeyState;
use crate::input::LockMgr;
use crate::input::MotionConfig;
use crate::input::MotionState;

verus! {

/// Grace period (ms) a grounded piece is given before it is forced to
/// settle.
pub const LOCK_DELAY: u64 = 500;

/// The same piece shifted one cell down.
pub open spec fn spec_down(t: Tetromino) -> Tetromino {
    Tetromino { pos: Pos { x: t.pos.x, y: (t.pos.y + 1) as i32 }, ..t }
}

/// The same piece shifted one cell left or right.
pub open spec fn spec_horizon(t: Tetromino, is_left: bool) -> Tetromino {
    Tetromino {
        pos: Pos {
            x: if is_left {
                (t.pos.x - 1) as i32
            } else {
                (t.pos.x + 1) as i32
            },
            y: t.pos.y,
        },
        ..t
    }
}

/// The same piece with its anchor moved to row `y`.
pub open spec fn spec_at_y(t: Tetromino, y: int) -> Tetromino {
    Tetromino { pos: Pos { x: t.pos.x, y: y as i32 }, ..t }
}

/// The hard-drop resting condition: `p` is `t` slid straight down as far as
/// it will go — every intermediate position is placeable and one more step
/// down is not.
pub open spec fn is_rest(b: Board, t: Tetromino, p: Tetromino) -> bool {
    &&& p.kind == t.kind
    &&& p.rot == t.rot
    &&& p.pos.x == t.pos.x
    &&& p.pos.y >= t.pos.y
    &&& forall|j: int| t.pos.y < j <= p.pos.y ==> b.spec_can_place(#[trigger] spec_at_y(t, j))
    &&& !b.spec_can_place(spec_at_y(t, p.pos.y + 1))
}

/// A placeable piece has all four world cells inside the grid, so its anchor
/// lies within two cells of the board on every side.
pub proof fn lemma_can_place_near(b: Board, t: Tetromino)
    requires
        b.wf(),
        b.spec_can_place(t),
    ensures
        -2 <= t.pos.x <= b.width,
        -2 <= t.pos.y <= b.height,
        t.pos_step_ok(),
{
    assert(!b.spec_occupied(t.world_x(0), t.world_y(0)));
    lemma_rel_cells_bounds(t.kind, t.rot);
}

/// Candidate one cell below; accepted iff placeable. Pure: no mutation.
pub fn try_down(board: &Board, t: &Tetromino) -> (r: Option<Tetromino>)
    requires
        board.wf(),
        t.pos_step_ok(),
    ensures
        r == if board.spec_can_place(spec_down(*t)) {
            Option::Some(spec_down(*t))
        } else {
            Option::None::<Tetromino>
        },
        r matches Some(t2) ==> t2.pos_step_ok(),
{
    let d = Pos { x: 0, y: 1 };
    let t2 = Tetromino { kind: t.kind, pos: t.pos.add(d), rot: t.rot };
    proof {
        assert(t2 == spec_down(*t));
    }
    if board.can_place(&t2) {
        proof {
            lemma_can_place_near(*board, t2);
        }
        Some(t2)
    } else {
        None
    }
}

/// Candidate one cell to the side; accepted iff placeable. Pure.
pub fn try_horizon(board: &Board, t: &Tetromino, is_left: bool) -> (r: Option<Tetromino>)
    requires
        board.wf(),
        t.pos_step_ok(),
    ensures
        r == if board.spec_can_place(spec_horizon(*t, is_left)) {
            Option::Some(spec_horizon(*t, is_left))
        } else {
            Option::None::<Tetromino>
        },
        r matches Some(t2) ==> t2.pos_step_ok(),
{
    let d = if is_left {
        Pos { x: -1, y: 0 }
    } else {
        Pos { x: 1, y: 0 }
    };
    let t2 = Tetromino { kind: t.kind, pos: t.pos.add(d), rot: t.rot };
    proof {
        assert(t2 == spec_horizon(*t, is_left));
    }
    if board.can_place(&t2) {
        proof {
            lemma_can_place_near(*board, t2);
        }
        Some(t2)
    } else {
        None
    }
}

/// Slide the piece down until it cannot descend any further and return the
/// resting piece. Never fails: a piece that cannot move down at all is
/// returned unchanged.
pub fn try_hard_drop(board: &Board, t: &Tetromino) -> (r: Option<Tetromino>)
    requires
        board.wf(),
        t.pos_step_ok(),
    ensures
        r matches Some(p) ==> is_rest(*board, *t, p) && p.pos_step_ok(),
        r is Some,
{
    let mut cur: Tetromino = *t;
    loop
        invariant
            board.wf(),
            t.pos_step_ok(),
            cur.pos_step_ok(),
            cur.kind == t.kind,
            cur.rot == t.rot,
            cur.pos.x == t.pos.x,
            cur.pos.y >= t.pos.y,
            forall|j: int|
                t.pos.y < j <= cur.pos.y ==> board.spec_can_place(#[trigger] spec_at_y(*t, j)),
        ensures
            cur.pos_step_ok(),
            cur.kind == t.kind,
            cur.rot == t.rot,
            cur.pos.x == t.pos.x,
            cur.pos.y >= t.pos.y,
            forall|j: int|
                t.pos.y < j <= cur.pos.y ==> board.spec_can_place(#[trigger] spec_at_y(*t, j)),
            !board.spec_can_place(spec_down(cur)),
        decreases board.height + 5 - cur.pos.y,
    {
        let next = try_down(board, &cur);
        match next {
            Some(n) => {
                proof {
                    assert(spec_at_y(*t, cur.pos.y + 1) == spec_down(cur));
                    // a placeable candidate sits within the board, which
                    // bounds the descent and keeps the decrease non-negative
                    lemma_can_place_near(*board, n);
                }
                cur = n;
            },
            None => {
                break ;
            },
        }
    }
    proof {
        assert(spec_at_y(*t, cur.pos.y + 1) == spec_down(cur));
    }
    Some(cur)
}

/// The hard-drop resting place of a piece on a board is unique.
pub proof fn lemma_rest_unique(b: Board, t: Tetromino, p: Tetromino, q: Tetromino)
    requires
        is_rest(b, t, p),
        is_rest(b, t, q),
    ensures
        p == q,
{
    if p.pos.y < q.pos.y {
        assert(b.spec_can_place(spec_at_y(t, p.pos.y + 1)));
    } else if q.pos.y < p.pos.y {
        assert(b.spec_can_place(spec_at_y(t, q.pos.y + 1)));
    }
}

/// Hard drop is idempotent: dropping the resting piece again leaves it
/// exactly where it is.
pub proof fn lemma_hard_drop_idempotent(b: Board, t: Tetromino, p: Tetromino, q: Tetromino)
    requires
        is_rest(b, t, p),
        is_rest(b, p, q),
    ensures
        q == p,
{
    if q.pos.y > p.pos.y {
        assert(b.spec_can_place(spec_at_y(p, p.pos.y + 1)));
        assert(spec_at_y(p, p.pos.y + 1) == spec_at_y(t, p.pos.y + 1));
    }
}

/// Horizontal offset of the i-th wall-kick attempt.
pub open spec fn kick_dx(i: int) -> int {
    if i == 1 {
        -1
    } else if i == 2 {
        1
    } else {
        0
    }
}

/// Vertical offset of the i-th wall-kick attempt.
pub open spec fn kick_dy(i: int) -> int {
    if i == 3 {
        -1
    } else if i == 4 {
        1
    } else {
        0
    }
}

/// The piece turned clockwise, anchor unchanged.
pub open spec fn spec_rotated(t: Tetromino) -> Tetromino {
    Tetromino { rot: t.rot.spec_cw(), ..t }
}

/// The (already rotated) piece shifted by the i-th kick offset.
pub open spec fn spec_kicked(t: Tetromino, i: int) -> Tetromino {
    Tetromino {
        pos: Pos { x: (t.pos.x + kick_dx(i)) as i32, y: (t.pos.y + kick_dy(i)) as i32 },
        ..t
    }
}

/// Rotate clockwise, then try the fixed, ordered kick offsets
/// {(0,0), (-1,0), (+1,0), (0,-1), (0,+1)} on the rotated piece; the first
/// offset that yields a placeable piece wins, and if none succeeds the
/// rotation fails entirely.
pub open spec fn spec_rotate_kick(b: Board, t: Tetromino) -> Option<Tetromino> {
    let rt = spec_rotated(t);
    if b.spec_can_place(spec_kicked(rt, 0)) {
        Option::Some(spec_kicked(rt, 0))
    } else if b.spec_can_place(spec_kicked(rt, 1)) {
        Option::Some(spec_kicked(rt, 1))
    } else if b.spec_can_place(spec_kicked(rt, 2)) {
        Option::Some(spec_kicked(rt, 2))
    } else if b.spec_can_place(spec_kicked(rt, 3)) {
        Option::Some(spec_kicked(rt, 3))
    } else if b.spec_can_place(spec_kicked(rt, 4)) {
        Option::Some(spec_kicked(rt, 4))
    } else {
        Option::None
    }
}

/// Clockwise rotation with the simplified wall-kick table.
pub fn rotate_with_kick(board: &Board, t: &Tetromino) -> (r: Option<Tetromino>)
    requires
        board.wf(),
        t.pos_step_ok(),
    ensures
        r == spec_rotate_kick(*board, *t),
        r matches Some(p) ==> board.spec_can_place(p) && p.pos_step_ok(),
{
    let rotated = t.rotate_cw();
    proof {
        assert(rotated == spec_rotated(*t));
        assert(rotated == spec_kicked(rotated, 0));
    }
    if board.can_place(&rotated) {
        proof {
            lemma_can_place_near(*board, rotated);
        }
        return Some(rotated);
    }
    let c1 = Tetromino { pos: Pos { x: rotated.pos.x - 1, y: rotated.pos.y }, ..rotated };
    proof {
        assert(c1 == spec_kicked(rotated, 1));
    }
    if board.can_place(&c1) {
        proof {
            lemma_can_place_near(*board, c1);
        }
        return Some(c1);
    }
    let c2 = Tetromino { pos: Pos { x: rotated.pos.x + 1, y: rotated.pos.y }, ..rotated };
    proof {
        assert(c2 == spec_kicked(rotated, 2));
    }
    if board.can_place(&c2) {
        proof {
            lemma_can_place_near(*board, c2);
        }
        return Some(c2);
    }
    let c3 = Tetromino { pos: Pos { x: rotated.pos.x, y: rotated.pos.y - 1 }, ..rotated };
    proof {
        assert(c3 == spec_kicked(rotated, 3));
    }
    if board.can_place(&c3) {
        proof {
            lemma_can_place_near(*board, c3);
        }
        return Some(c3);
    }
    let c4 = Tetromino { pos: Pos { x: rotated.pos.x, y: rotated.pos.y + 1 }, ..rotated };
    proof {
        assert(c4 == spec_kicked(rotated, 4));
    }
    if board.can_place(&c4) {
        proof {
            lemma_can_place_near(*board, c4);
        }
        return Some(c4);
    }
    None
}

/// Rotation is all-or-nothing: the kicked rotation fails (and the caller
/// keeps the piece's orientation and position unchanged) exactly when no
/// kick offset yields a placeable rotated piece.
pub proof fn lemma_rotation_all_or_nothing(b: Board, t: Tetromino)
    ensures
        spec_rotate_kick(b, t) is None <==> (forall|i: int|
            0 <= i < 5 ==> !b.spec_can_place(#[trigger] spec_kicked(spec_rotated(t), i))),
{
    if spec_rotate_kick(b, t) is None {
        assert forall|i: int| 0 <= i < 5 implies !b.spec_can_place(
            #[trigger] spec_kicked(spec_rotated(t), i),
        ) by {
            if i == 0 {
            } else if i == 1 {
            } else if i == 2 {
            } else if i == 3 {
            } else {
            }
        }
    }
}

/// The (unique) resting piece of a hard drop, as a specification value.
pub open spec fn spec_rest(b: Board, t: Tetromino) -> Tetromino {
    choose|p: Tetromino| is_rest(b, t, p)
}

/// Descending one free step before hard-dropping does not change the resting
/// place: the shadow stays valid across a gravity step.
pub proof fn lemma_rest_after_down(b: Board, t: Tetromino, p: Tetromino)
    requires
        is_rest(b, t, p),
        b.spec_can_place(spec_down(t)),
    ensures
        is_rest(b, spec_down(t), p),
{
    assert(spec_at_y(t, t.pos.y + 1) == spec_down(t));
    if p.pos.y == t.pos.y {
        assert(b.spec_can_place(spec_at_y(t, p.pos.y + 1)));
        assert(false);
    }
    assert forall|j: int|
        spec_down(t).pos.y < j <= p.pos.y implies b.spec_can_place(
        #[trigger] spec_at_y(spec_down(t), j),
    ) by {
        assert(spec_at_y(spec_down(t), j) == spec_at_y(t, j));
    }
    assert(spec_at_y(spec_down(t), p.pos.y + 1) == spec_at_y(t, p.pos.y + 1));
}

/// The resting condition too depends only on the grid's dimensions and
/// contents.
pub proof fn lemma_rest_same_board(b1: Board, b2: Board, t: Tetromino, p: Tetromino)
    requires
        b1.width == b2.width,
        b1.height == b2.height,
        b1.cells@ == b2.cells@,
        is_rest(b1, t, p),
    ensures
        is_rest(b2, t, p),
{
    assert forall|j: int| t.pos.y < j <= p.pos.y implies b2.spec_can_place(
        #[trigger] spec_at_y(t, j),
    ) by {
        assert(b1.spec_can_place(spec_at_y(t, j)));
        crate::board::lemma_can_place_same(b1, b2, spec_at_y(t, j));
    }
    if b2.spec_can_place(spec_at_y(t, p.pos.y + 1)) {
        crate::board::lemma_can_place_same(b2, b1, spec_at_y(t, p.pos.y + 1));
    }
}

/// Addition on a usize score that sticks at the maximum instead of wrapping.
pub open spec fn spec_sat_add_usize(a: int, b: int) -> int {
    if a + b <= usize::MAX {
        a + b
    } else {
        usize::MAX as int
    }
}

/// Produces the next piece at a spawn coordinate. The one exchangeable
/// dependency of the game state, injected at construction so that a
/// deterministic source can stand in for the random one.
pub trait TetrisGenerator {
    fn next(&mut self, x: i32, y: i32) -> (t: Tetromino)
        ensures
            t.pos.x == x,
            t.pos.y == y,
            t.rot == Rotation::R0,
    ;
}

/// Relies on rand::rng and rand::RngExt::random_range: a value drawn from
/// the thread-local generator, uniform in [0, 7). The range is non-empty, so
/// the call cannot panic; nothing beyond the range is assumed of the
/// outcome.
#[verifier::external_body]
fn random_kind_index() -> (r: u8)
    ensures
        r < 7,
{
    rand::RngExt::random_range(&mut rand::rng(), 0..7)
}

/// The piece kind that a drawn index in [0, 7) stands for: one entry per
/// kind, in the fixed order I, O, T, J, L, S, Z.
pub open spec fn spec_kind_of_index(r: int) -> TetrominoKind {
    if r == 0 {
        TetrominoKind::I
    } else if r == 1 {
        TetrominoKind::O
    } else if r == 2 {
        TetrominoKind::T
    } else if r == 3 {
        TetrominoKind::J
    } else if r == 4 {
        TetrominoKind::L
    } else if r == 5 {
        TetrominoKind::S
    } else {
        TetrominoKind::Z
    }
}

/// Map a drawn index to its piece kind, exactly as the table says; every one
/// of the seven kinds is the image of exactly one index.
pub fn kind_of_index(r: u8) -> (k: TetrominoKind)
    requires
        r < 7,
    ensures
        k == spec_kind_of_index(r as int),
{
    match r {
        0 => TetrominoKind::I,
        1 => TetrominoKind::O,
        2 => TetrominoKind::T,
        3 => TetrominoKind::J,
        4 => TetrominoKind::L,
        5 => TetrominoKind::S,
        _ => TetrominoKind::Z,
    }
}

/// Uniform-random piece source backed by the `rand` crate's thread-local
/// generator.
pub struct RandomGenerator {}

impl RandomGenerator {
    pub fn new() -> (g: RandomGenerator) {
        RandomGenerator {}
    }
}

impl TetrisGenerator for RandomGenerator {
    fn next(&mut self, x: i32, y: i32) -> (t: Tetromino) {
        let shape = kind_of_index(random_kind_index());
        Tetromino::new(shape, Pos { x, y })
    }
}

/// Deterministic piece source: always produces the same kind. The
/// fixed-sequence variant used for reproducible games and tests.
pub struct FixedGenerator {
    pub kind: TetrominoKind,
}

impl FixedGenerator {
    pub fn new(kind: TetrominoKind) -> (g: FixedGenerator)
        ensures
            g.kind == kind,
    {
        FixedGenerator { kind }
    }
}

impl TetrisGenerator for FixedGenerator {
    fn next(&mut self, x: i32, y: i32) -> (t: Tetromino)
        ensures
            t.kind == old(self).kind,
    {
        Tetromino::new(self.kind, Pos { x, y })
    }
}

/// The five logical player actions, plus the absence of one.
#[derive(PartialEq, Eq, Debug, Copy, Clone, Structural)]
pub enum GameCommand {
    MoveLeft,
    MoveRight,
    SoftDrop,
    HardDrop,
    Rotate,
    Idle,
}

/// The whole simulation state: current piece, cached shadow, board, one
/// debounce state machine per action, gravity and lock timers, piece source,
/// score and the sticky game-over flag.
pub struct GameState<G: TetrisGenerator> {
    pub current_tetris: Tetromino,
    pub shadow: Option<Tetromino>,
    pub shadow_out_of_date: bool,
    pub board: Board,
    pub ms_left: MotionState,
    pub ms_right: MotionState,
    pub ms_soft: MotionState,
    pub ms_hard: MotionState,
    pub ms_rotate: MotionState,
    pub gravity: ConstMotion,
    pub lock_mgr: LockMgr,
    pub tetris_generator: G,
    pub score: usize,
    pub game_over: bool,
}

/// Factory for a playable game: the standard timings with the uniform-random
/// piece source.
pub fn create_new_game(width: i32, height: i32, now: u64) -> (g: GameState<RandomGenerator>)
    requires
        0 < width <= 0x1000_0000,
        0 < height <= 0x1000_0000,
        width * height <= i32::MAX,
    ensures
        g.wf(),
        g.board.width == width,
        g.board.height == height,
        g.board.cells@ == blank_cells(width * height),
        g.current_tetris.pos.x == width / 2,
        g.current_tetris.pos.y == 1,
        g.current_tetris.rot == Rotation::R0,
        g.shadow is None,
        g.shadow_out_of_date,
        g.ms_left == (MotionState {
            key_state: KeyState::NPRESS,
            last_time: Option::None,
            config: MotionConfig { das_delay: 120, arr: 80 },
        }),
        g.ms_right == g.ms_left,
        g.ms_soft == (MotionState {
            key_state: KeyState::NPRESS,
            last_time: Option::None,
            config: MotionConfig { das_delay: 120, arr: 120 },
        }),
        g.ms_hard == (MotionState {
            key_state: KeyState::NPRESS,
            last_time: Option::None,
            config: MotionConfig { das_delay: 999999, arr: 999999 },
        }),
        g.ms_rotate == g.ms_hard,
        g.gravity.impl_motion == (MotionState {
            key_state: KeyState::PRESS,
            last_time: Option::Some(now),
            config: MotionConfig { das_delay: 500, arr: 500 },
        }),
        g.lock_mgr == (LockMgr { lock_delay: LOCK_DELAY, lock_start_time: Option::None }),
        g.score == 0,
        !g.game_over,
{
    GameState::new(width, height, now, RandomGenerator::new())
}

impl<G: TetrisGenerator> GameState<G> {
    /// Invariant: the board is well-formed, the current piece sits near it,
    /// and a fresh shadow cache really is the current piece's resting place.
    pub open spec fn wf(self) -> bool {
        &&& self.board.wf()
        &&& self.current_tetris.pos_step_ok()
        &&& (!self.shadow_out_of_date ==> (self.shadow matches Some(p) && is_rest(
            self.board,
            self.current_tetris,
            p,
        )))
    }

    /// Whether the debounce machine of `command` fires on this tick.
    pub open spec fn spec_fired(self, press: bool, command: GameCommand, now: u64) -> bool {
        match command {
            GameCommand::MoveLeft => self.ms_left.spec_fires(press, now),
            GameCommand::MoveRight => self.ms_right.spec_fires(press, now),
            GameCommand::SoftDrop => self.ms_soft.spec_fires(press, now),
            GameCommand::HardDrop => self.ms_hard.spec_fires(press, now),
            GameCommand::Rotate => self.ms_rotate.spec_fires(press, now),
            GameCommand::Idle => false,
        }
    }

    /// The state after stepping the one debounce machine of `command`.
    pub open spec fn spec_with_motions(
        self,
        press: bool,
        command: GameCommand,
        now: u64,
    ) -> GameState<G> {
        match command {
            GameCommand::MoveLeft => GameState {
                ms_left: self.ms_left.spec_step(press, now),
                ..self
            },
            GameCommand::MoveRight => GameState {
                ms_right: self.ms_right.spec_step(press, now),
                ..self
            },
            GameCommand::SoftDrop => GameState {
                ms_soft: self.ms_soft.spec_step(press, now),
                ..self
            },
            GameCommand::HardDrop => GameState {
                ms_hard: self.ms_hard.spec_step(press, now),
                ..self
            },
            GameCommand::Rotate => GameState {
                ms_rotate: self.ms_rotate.spec_step(press, now),
                ..self
            },
            GameCommand::Idle => self,
        }
    }

    /// The movement primitive a fired command attempts on (board, piece).
    pub open spec fn spec_attempt(b: Board, t: Tetromino, command: GameCommand) -> Option<
        Tetromino,
    > {
        match command {
            GameCommand::MoveLeft => if b.spec_can_place(spec_horizon(t, true)) {
                Option::Some(spec_horizon(t, true))
            } else {
                Option::None
            },
            GameCommand::MoveRight => if b.spec_can_place(spec_horizon(t, false)) {
                Option::Some(spec_horizon(t, false))
            } else {
                Option::None
            },
            GameCommand::SoftDrop => if b.spec_can_place(spec_down(t)) {
                Option::Some(spec_down(t))
            } else {
                Option::None
            },
            GameCommand::HardDrop => Option::Some(spec_rest(b, t)),
            GameCommand::Rotate => spec_rotate_kick(b, t),
            GameCommand::Idle => Option::None,
        }
    }

    /// Relates the states before and after one settle attempt of the current
    /// piece: if it fits, it is written into the board, full rows are
    /// cleared and added to the score (saturating), and the next piece is
    /// spawned at (width / 2, 1) in spawn orientation with the shadow marked
    /// stale; if it does not fit, nothing changes. Timers, shadow cache and
    /// the game-over flag are related by the caller, not here.
    pub open spec fn spec_settle_rel(pre: GameState<G>, post: GameState<G>) -> bool {
        &&& post.board.width == pre.board.width
        &&& post.board.height == pre.board.height
        &&& if pre.board.spec_can_place(pre.current_tetris) {
            let placed = place_cells(pre.board.cells@, pre.board.width as int, pre.current_tetris);
            &&& post.board.cells@ == cleared_cells(
                placed,
                pre.board.width as int,
                pre.board.height as int,
            )
            &&& post.score as int == spec_sat_add_usize(
                pre.score as int,
                full_row_count(placed, pre.board.width as int, pre.board.height as int),
            )
            &&& post.current_tetris.pos.x == pre.board.width / 2
            &&& post.current_tetris.pos.y == 1
            &&& post.current_tetris.rot == Rotation::R0
            &&& post.shadow_out_of_date
        } else {
            &&& post.board.cells@ == pre.board.cells@
            &&& post.score == pre.score
            &&& post.current_tetris == pre.current_tetris
            &&& post.shadow_out_of_date == pre.shadow_out_of_date
        }
    }

    /// The full tick relation of `update`: how one call with
    /// `(press, command, now)` transforms the state and what it returns.
    /// Deterministic up to the kind of a newly spawned piece and the piece
    /// source's internal state.
    pub open spec fn spec_update_rel(
        pre: GameState<G>,
        post: GameState<G>,
        changed: bool,
        press: bool,
        command: GameCommand,
        now: u64,
    ) -> bool {
        if pre.game_over {
            &&& post == pre
            &&& !changed
        } else {
            let fired = pre.spec_fired(press, command, now);
            let mid = pre.spec_with_motions(press, command, now);
            if command == GameCommand::HardDrop && fired {
                let p = spec_rest(pre.board, pre.current_tetris);
                let mid2 = GameState { current_tetris: p, shadow_out_of_date: true, ..mid };
                &&& changed
                &&& Self::spec_settle_rel(mid2, post)
                &&& post.game_over == !pre.board.spec_can_place(p)
                &&& post.lock_mgr == (LockMgr {
                    lock_start_time: Option::None,
                    lock_delay: pre.lock_mgr.lock_delay,
                })
                &&& post.shadow == pre.shadow
                &&& post.gravity == pre.gravity
                &&& post.ms_left == mid.ms_left
                &&& post.ms_right == mid.ms_right
                &&& post.ms_soft == mid.ms_soft
                &&& post.ms_hard == mid.ms_hard
                &&& post.ms_rotate == mid.ms_rotate
            } else {
                let moved = if fired {
                    Self::spec_attempt(pre.board, pre.current_tetris, command)
                } else {
                    Option::None
                };
                let res = moved is Some;
                let cur = match moved {
                    Option::Some(p) => p,
                    Option::None => pre.current_tetris,
                };
                let stale = pre.shadow_out_of_date || res;
                if !pre.board.spec_can_place(spec_down(cur)) {
                    let started = if mid.lock_mgr.lock_start_time is Some {
                        mid.lock_mgr
                    } else {
                        LockMgr {
                            lock_start_time: Option::Some(now),
                            lock_delay: mid.lock_mgr.lock_delay,
                        }
                    };
                    if started.spec_locked(now) {
                        let mid2 = GameState {
                            current_tetris: cur,
                            shadow_out_of_date: stale,
                            lock_mgr: LockMgr {
                                lock_start_time: Option::None,
                                lock_delay: pre.lock_mgr.lock_delay,
                            },
                            ..mid
                        };
                        &&& changed
                        &&& Self::spec_settle_rel(mid2, post)
                        &&& post.game_over == !pre.board.spec_can_place(cur)
                        &&& post.lock_mgr == (LockMgr {
                            lock_start_time: Option::None,
                            lock_delay: pre.lock_mgr.lock_delay,
                        })
                        &&& post.shadow == pre.shadow
                        &&& post.gravity == pre.gravity
                        &&& post.ms_left == mid.ms_left
                        &&& post.ms_right == mid.ms_right
                        &&& post.ms_soft == mid.ms_soft
                        &&& post.ms_hard == mid.ms_hard
                        &&& post.ms_rotate == mid.ms_rotate
                    } else {
                        &&& changed == res
                        &&& post == (GameState {
                            current_tetris: cur,
                            shadow_out_of_date: stale,
                            lock_mgr: started,
                            ..mid
                        })
                    }
                } else {
                    let g_fired = pre.gravity.impl_motion.spec_fires(true, now);
                    let cur2 = if g_fired {
                        spec_down(cur)
                    } else {
                        cur
                    };
                    &&& changed == (res || g_fired)
                    &&& post == (GameState {
                        current_tetris: cur2,
                        shadow_out_of_date: stale,
                        lock_mgr: LockMgr {
                            lock_start_time: Option::None,
                            lock_delay: pre.lock_mgr.lock_delay,
                        },
                        gravity: ConstMotion {
                            impl_motion: pre.gravity.impl_motion.spec_step(true, now),
                        },
                        ..mid
                    })
                }
            }
        }
    }

    pub fn get_score(&self) -> (s: usize)
        ensures
            s == self.score,
    {
        self.score
    }

    pub fn get_game_over(&self) -> (over: bool)
        ensures
            over == self.game_over,
    {
        self.game_over
    }

    /// Build a game on a fresh width x height board: piece spawned from the
    /// source at (width / 2, 1), standard DAS/ARR timings for the movement
    /// actions, hard drop and rotate debounced to single shots, 500 ms
    /// gravity and the standard lock delay.
    pub fn new(width: i32, height: i32, now: u64, generator: G) -> (g: GameState<G>)
        requires
            0 < width <= 0x1000_0000,
            0 < height <= 0x1000_0000,
            width * height <= i32::MAX,
        ensures
            g.wf(),
            g.board.width == width,
            g.board.height == height,
            g.board.cells@ == blank_cells(width * height),
            g.current_tetris.pos.x == width / 2,
            g.current_tetris.pos.y == 1,
            g.current_tetris.rot == Rotation::R0,
            g.shadow is None,
            g.shadow_out_of_date,
            g.ms_left == (MotionState {
                key_state: KeyState::NPRESS,
                last_time: Option::None,
                config: MotionConfig { das_delay: 120, arr: 80 },
            }),
            g.ms_right == g.ms_left,
            g.ms_soft == (MotionState {
                key_state: KeyState::NPRESS,
                last_time: Option::None,
                config: MotionConfig { das_delay: 120, arr: 120 },
            }),
            g.ms_hard == (MotionState {
                key_state: KeyState::NPRESS,
                last_time: Option::None,
                config: MotionConfig { das_delay: 999999, arr: 999999 },
            }),
            g.ms_rotate == g.ms_hard,
            g.gravity.impl_motion == (MotionState {
                key_state: KeyState::PRESS,
                last_time: Option::Some(now),
                config: MotionConfig { das_delay: 500, arr: 500 },
            }),
            g.lock_mgr == (LockMgr { lock_delay: LOCK_DELAY, lock_start_time: Option::None }),
            g.score == 0,
            !g.game_over,
    {
        let mut generator = generator;
        let x = width / 2;
        proof {
            lemma_spawn_x_bounds(width as int);
        }
        let current_tetris = generator.next(x, 1);
        GameState {
            current_tetris,
            shadow: None,
            shadow_out_of_date: true,
            board: Board::new(width, height),
            gravity: ConstMotion::new(500, now),
            ms_left: MotionState::new(120, 80),
            ms_right: MotionState::new(120, 80),
            ms_soft: MotionState::new(120, 120),
            ms_hard: MotionState::new(999999, 999999),
            ms_rotate: MotionState::new(999999, 999999),
            lock_mgr: LockMgr::new(LOCK_DELAY),
            tetris_generator: generator,
            score: 0,
            game_over: false,
        }
    }

    /// Step the debounce machine of `command` and report whether the action
    /// fires this tick.
    fn debounce_update(&mut self, is_press: bool, command: GameCommand, now: u64) -> (fires: bool)
        ensures
            fires == old(self).spec_fired(is_press, command, now),
            *final(self) == old(self).spec_with_motions(is_press, command, now),
    {
        match command {
            GameCommand::MoveLeft => self.ms_left.update(is_press, now),
            GameCommand::MoveRight => self.ms_right.update(is_press, now),
            GameCommand::SoftDrop => self.ms_soft.update(is_press, now),
            GameCommand::HardDrop => self.ms_hard.update(is_press, now),
            GameCommand::Rotate => self.ms_rotate.update(is_press, now),
            GameCommand::Idle => false,
        }
    }

    /// Settle the current piece: place it, clear and score full rows, spawn
    /// the successor. Returns true — the game is over — iff the piece did
    /// not fit where it was.
    fn is_game_over(&mut self) -> (over: bool)
        requires
            old(self).wf(),
        ensures
            final(self).wf(),
            over == !old(self).board.spec_can_place(old(self).current_tetris),
            Self::spec_settle_rel(*old(self), *final(self)),
            final(self).shadow == old(self).shadow,
            final(self).ms_left == old(self).ms_left,
            final(self).ms_right == old(self).ms_right,
            final(self).ms_soft == old(self).ms_soft,
            final(self).ms_hard == old(self).ms_hard,
            final(self).ms_rotate == old(self).ms_rotate,
            final(self).gravity == old(self).gravity,
            final(self).lock_mgr == old(self).lock_mgr,
            final(self).game_over == old(self).game_over,
    {
        let t = self.current_tetris;
        if self.board.try_place(&t) {
            let k = self.board.check_clear();
            self.score = if self.score <= usize::MAX - k {
                self.score + k
            } else {
                usize::MAX
            };
            let x = self.board.width / 2;
            proof {
                lemma_spawn_x_bounds(self.board.width as int);
            }
            let nt = self.tetris_generator.next(x, 1);
            self.current_tetris = nt;
            self.shadow_out_of_date = true;
            false
        } else {
            proof {
                if !self.shadow_out_of_date {
                    lemma_rest_same_board(
                        old(self).board,
                        self.board,
                        self.current_tetris,
                        self.shadow->0,
                    );
                }
            }
            true
        }
    }

    /// Step the gravity timer; if it fires and the piece can descend, return
    /// the piece one cell down.
    fn do_gravity(&mut self, now: u64) -> (r: Option<Tetromino>)
        requires
            old(self).wf(),
        ensures
            final(self).wf(),
            *final(self) == (GameState {
                gravity: ConstMotion {
                    impl_motion: old(self).gravity.impl_motion.spec_step(true, now),
                },
                ..*old(self)
            }),
            r == if old(self).gravity.impl_motion.spec_fires(true, now) && old(
                self,
            ).board.spec_can_place(spec_down(old(self).current_tetris)) {
                Option::Some(spec_down(old(self).current_tetris))
            } else {
                Option::None::<Tetromino>
            },
    {
        if !self.gravity.update(now) {
            return None;
        }
        try_down(&self.board, &self.current_tetris)
    }

    /// One logical tick for one action: debounce it, attempt the movement,
    /// then evaluate hard-drop settling, locking and gravity. Returns
    /// whether any piece state changed. A game-over state is a sticky no-op.
    #[verifier::rlimit(100)]
    pub fn update(&mut self, press: bool, command: GameCommand, now: u64) -> (changed: bool)
        requires
            old(self).wf(),
        ensures
            final(self).wf(),
            Self::spec_update_rel(*old(self), *final(self), changed, press, command, now),
    {
        if self.game_over {
            return false;
        }
        let ghost pre = *self;
        let can_action = self.debounce_update(press, command, now);
        let moved = if can_action {
            match command {
                GameCommand::MoveLeft => try_horizon(&self.board, &self.current_tetris, true),
                GameCommand::MoveRight => try_horizon(&self.board, &self.current_tetris, false),
                GameCommand::SoftDrop => try_down(&self.board, &self.current_tetris),
                GameCommand::HardDrop => {
                    let dropped = try_hard_drop(&self.board, &self.current_tetris);
                    proof {
                        if dropped is Some {
                            let p = dropped->0;
                            let sr = spec_rest(pre.board, pre.current_tetris);
                            assert(exists|q: Tetromino| is_rest(pre.board, pre.current_tetris, q));
                            lemma_rest_unique(pre.board, pre.current_tetris, p, sr);
                        }
                    }
                    dropped
                },
                GameCommand::Rotate => rotate_with_kick(&self.board, &self.current_tetris),
                GameCommand::Idle => Option::None,
            }
        } else {
            Option::None
        };
        let mut res = false;
        if let Some(next_pos) = moved {
            self.current_tetris = next_pos;
            self.shadow_out_of_date = true;
            res = true;
        }
        if command == GameCommand::HardDrop && res {
            let over = self.is_game_over();
            self.game_over = over;
            self.lock_mgr.reset();
            return true;
        }
        if try_down(&self.board, &self.current_tetris).is_none() {
            self.lock_mgr.start_if_not(now);
            if self.lock_mgr.lock(now) {
                self.lock_mgr.reset();
                let over = self.is_game_over();
                self.game_over = over;
                // the piece settled (or the settle ended the game): that is
                // a piece state change whether or not the command moved it
                return true;
            }
            return res;
        }
        self.lock_mgr.reset();
        let fell = self.do_gravity(now);
        if let Some(t) = fell {
            proof {
                if !self.shadow_out_of_date {
                    let sh = self.shadow->0;
                    lemma_rest_after_down(self.board, self.current_tetris, sh);
                }
            }
            self.current_tetris = t;
            res = true;
        }
        res
    }

    /// Convenience wrapper: one tick with the key held down.
    pub fn update_press(&mut self, command: GameCommand, now: u64) -> (changed: bool)
        requires
            old(self).wf(),
        ensures
            final(self).wf(),
            Self::spec_update_rel(*old(self), *final(self), changed, true, command, now),
    {
        self.update(true, command, now)
    }

    /// The lazily cached hard-drop projection of the current piece (the
    /// "ghost piece"), recomputed if the piece changed since the last call.
    pub fn get_shadow(&mut self) -> (r: Option<Tetromino>)
        requires
            old(self).wf(),
        ensures
            final(self).wf(),
            *final(self) == (GameState {
                shadow: r,
                shadow_out_of_date: false,
                ..*old(self)
            }),
            r matches Some(p) && is_rest(final(self).board, final(self).current_tetris, p),
    {
        if self.shadow_out_of_date {
            self.shadow = try_hard_drop(&self.board, &self.current_tetris);
            self.shadow_out_of_date = false;
        }
        self.shadow
    }

    pub fn get_tetromino(&self) -> (t: &Tetromino)
        ensures
            *t == self.current_tetris,
    {
        &self.current_tetris
    }

    pub fn get_board(&self) -> (b: &Board)
        ensures
            *b == self.board,
    {
        &self.board
    }
}

/// Half of a positive width is a valid, in-range spawn column.
proof fn lemma_spawn_x_bounds(width: int)
    requires
        0 < width <= 0x1000_0000,
    ensures
        0 <= width / 2 <= width,
{
}

} // verus!
