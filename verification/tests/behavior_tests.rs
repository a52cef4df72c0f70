use tetris::board::Board;
use tetris::game::kind_of_index;
use tetris::game::rotate_with_kick;
use tetris::game::try_hard_drop;
use tetris::game::FixedGenerator;
use tetris::game::GameCommand;
use tetris::game::GameState;
use tetris::game::RandomGenerator;
use tetris::game::TetrisGenerator;
use tetris::geometry::Pos;
use tetris::geometry::Rotation;
use tetris::geometry::Tetromino;
use tetris::geometry::TetrominoKind;
use tetris::input::MotionState;
use tetris::render::draw_square;
use tetris::render::BLOCK_SIZE;
use tetris::render::SCREEN_HEIGHT;
use tetris::render::SCREEN_WIDTH;

#[test]
fn test_can_place_rejects_out_of_bounds() {
    let board = Board { width: 4, height: 4, cells: vec![None; 16] };
    // a world cell at x < 0
    assert!(!board.can_place(&Tetromino::new(TetrominoKind::O, Pos { x: -2, y: 0 })));
    // a world cell at x >= width
    assert!(!board.can_place(&Tetromino::new(TetrominoKind::O, Pos { x: 3, y: 0 })));
    // a world cell at y < 0
    assert!(!board.can_place(&Tetromino::new(TetrominoKind::O, Pos { x: 0, y: -2 })));
    // a world cell at y >= height
    assert!(!board.can_place(&Tetromino::new(TetrominoKind::O, Pos { x: 0, y: 3 })));
    // fully inside: fine
    assert!(board.can_place(&Tetromino::new(TetrominoKind::O, Pos { x: 0, y: 0 })));
}

#[test]
fn test_hard_drop_twice_is_hard_drop_once() {
    let board = Board { width: 10, height: 10, cells: vec![None; 100] };
    let t = Tetromino::new(TetrominoKind::T, Pos { x: 5, y: 1 });
    let once = try_hard_drop(&board, &t).unwrap();
    let twice = try_hard_drop(&board, &once).unwrap();
    assert_eq!(once, twice);
    assert_eq!(once.pos, Pos { x: 5, y: 9 });
}

#[test]
fn test_check_clear_compacts_and_counts() {
    let mut board = Board {
        width: 3,
        height: 3,
        cells: vec![
            Some(TetrominoKind::I),
            None,
            None,
            Some(TetrominoKind::O),
            Some(TetrominoKind::O),
            Some(TetrominoKind::O),
            None,
            Some(TetrominoKind::T),
            None,
        ],
    };
    let cleared = board.check_clear();
    assert_eq!(cleared, 1);
    // cell count unchanged, the full middle row removed, the two non-full
    // rows compacted downward in their original order, one blank row on top
    assert_eq!(
        board.cells,
        vec![
            None,
            None,
            None,
            Some(TetrominoKind::I),
            None,
            None,
            None,
            Some(TetrominoKind::T),
            None,
        ]
    );
}

#[test]
fn test_check_clear_empty_board() {
    let mut board = Board { width: 2, height: 2, cells: vec![None; 4] };
    assert_eq!(board.check_clear(), 0);
    assert_eq!(board.cells, vec![None; 4]);
}

/// A board whose cells are all filled except the current I-piece's own row
/// segment: every kicked rotation collides, so rotation must fail and leave
/// the piece untouched.
fn blocked_board_around_i() -> Board {
    let mut cells = vec![Some(TetrominoKind::O); 100];
    for x in 4..8 {
        cells[10 + x] = None; // row 1, the piece's own cells
    }
    Board { width: 10, height: 10, cells }
}

#[test]
fn test_rotation_all_or_nothing() {
    let board = blocked_board_around_i();
    let t = Tetromino::new(TetrominoKind::I, Pos { x: 5, y: 1 });
    assert_eq!(rotate_with_kick(&board, &t), None);
}

#[test]
fn test_rotation_blocked_leaves_piece_unchanged() {
    let mut game = GameState::new(10, 10, 0, FixedGenerator::new(TetrominoKind::I));
    game.board = blocked_board_around_i();
    assert!(!game.update(true, GameCommand::Rotate, 0));
    assert_eq!(game.current_tetris.pos, Pos { x: 5, y: 1 });
    assert_eq!(game.current_tetris.rot, Rotation::R0);
}

#[test]
fn test_rotation_cycle() {
    let t = Tetromino::new(TetrominoKind::T, Pos { x: 5, y: 5 });
    assert_eq!(t.rot, Rotation::R0);
    let r1 = t.rotate_cw();
    assert_eq!(r1.rot, Rotation::R90);
    assert_eq!(r1.pos, t.pos);
    let back = r1.rotate_ccw();
    assert_eq!(back.rot, Rotation::R0);
    let full = t.rotate_cw().rotate_cw().rotate_cw().rotate_cw();
    assert_eq!(full.rot, Rotation::R0);
}

#[test]
fn test_fresh_press_always_fires() {
    // a huge DAS delay does not matter for the very first held tick
    let mut m = MotionState::new(5000, 9999);
    assert!(m.update(true, 42));
    assert!(!m.update(true, 43));
    // releasing and re-pressing re-fires immediately: no carried timestamp
    m.update(false, 44);
    assert!(m.update(true, 44));
}

#[test]
fn test_threshold_is_strict() {
    let mut m = MotionState::new(100, 50);
    assert!(m.update(true, 0));
    // elapsed time exactly equal to the DAS delay does not yet fire
    assert!(!m.update(true, 100));
    assert!(m.update(true, 101));
    // same for the ARR interval
    assert!(!m.update(true, 151));
    assert!(m.update(true, 152));
}

#[test]
fn test_world_cells_of_i_piece() {
    let t = Tetromino::new(TetrominoKind::I, Pos { x: 5, y: 1 });
    let cells = t.world_cells();
    assert_eq!(
        cells,
        [Pos { x: 4, y: 1 }, Pos { x: 5, y: 1 }, Pos { x: 6, y: 1 }, Pos { x: 7, y: 1 }]
    );
}

#[test]
fn test_kind_colors() {
    assert_eq!(TetrominoKind::I.color(), 0xFF0000);
    assert_eq!(TetrominoKind::O.color(), 0x00FF00);
    assert_eq!(TetrominoKind::T.color(), 0x0000FF);
    assert_eq!(TetrominoKind::J.color(), 0x00FFFF);
    assert_eq!(TetrominoKind::L.color(), 0xFFFF00);
    assert_eq!(TetrominoKind::S.color(), 0xFFA500);
    assert_eq!(TetrominoKind::Z.color(), 0x800080);
}

#[test]
fn test_shadow_is_drop_projection() {
    let mut game = GameState::new(10, 10, 0, FixedGenerator::new(TetrominoKind::I));
    let shadow = game.get_shadow().unwrap();
    assert_eq!(shadow.pos, Pos { x: 5, y: 9 });
    assert_eq!(shadow.kind, TetrominoKind::I);
    // reading the shadow does not move the piece
    assert_eq!(game.current_tetris.pos, Pos { x: 5, y: 1 });
}

#[test]
fn test_shadow_stable_under_gravity() {
    let mut game = GameState::new(10, 10, 0, FixedGenerator::new(TetrominoKind::I));
    let before = game.get_shadow();
    game.update(true, GameCommand::Idle, 501);
    assert_eq!(game.current_tetris.pos, Pos { x: 5, y: 2 });
    let after = game.get_shadow();
    assert_eq!(before, after);
}

#[test]
fn test_line_clear_scores_one_per_row() {
    let mut game = GameState::new(4, 5, 0, FixedGenerator::new(TetrominoKind::O));
    assert!(game.update(true, GameCommand::HardDrop, 0));
    assert_eq!(game.get_score(), 0);
    assert!(game.update(true, GameCommand::MoveLeft, 0));
    assert!(game.update(true, GameCommand::MoveLeft, 200));
    assert!(!game.update(false, GameCommand::HardDrop, 300));
    assert!(game.update(true, GameCommand::HardDrop, 300));
    // two O pieces fill the bottom two rows completely: both clear at once
    assert_eq!(game.get_score(), 2);
    assert_eq!(game.board.cells, vec![None; 20]);
    assert!(!game.get_game_over());
}

#[test]
fn test_game_over_is_sticky() {
    // a one-row board: the spawn row y = 1 is already out of bounds, so the
    // first forced settle ends the game
    let mut game = GameState::new(6, 1, 0, FixedGenerator::new(TetrominoKind::I));
    assert!(!game.get_game_over());
    game.update(true, GameCommand::Idle, 501);
    assert!(!game.get_game_over());
    game.update(true, GameCommand::Idle, 1002);
    assert!(game.get_game_over());
    // every further tick is a no-op
    let pos = game.current_tetris.pos;
    assert!(!game.update(true, GameCommand::SoftDrop, 2000));
    assert!(!game.update(true, GameCommand::HardDrop, 3000));
    assert_eq!(game.current_tetris.pos, pos);
    assert!(game.get_game_over());
}

#[test]
fn test_random_generator_spawns_where_asked() {
    let mut generator = RandomGenerator::new();
    for _ in 0..20 {
        let t = generator.next(7, 2);
        assert_eq!(t.pos, Pos { x: 7, y: 2 });
        assert_eq!(t.rot, Rotation::R0);
    }
}

#[test]
fn test_wall_kick_slides_off_the_wall() {
    // an I piece hugging the left wall in vertical orientation: rotating at
    // x = 0 needs a kick, and must end up fully inside the board
    let board = Board { width: 10, height: 10, cells: vec![None; 100] };
    let mut t = Tetromino::new(TetrominoKind::I, Pos { x: 0, y: 4 });
    t = t.rotate_cw(); // vertical, occupying column x + 1
    let rotated = rotate_with_kick(&board, &t).unwrap();
    assert_eq!(rotated.rot, Rotation::R180);
    assert!(board.can_place(&rotated));
}

#[test]
fn test_draw_square_paints_exact_block() {
    let mut buffer: Vec<u32> = vec![0; SCREEN_WIDTH * SCREEN_HEIGHT];
    draw_square(&mut buffer, 40, 60, 0xABCDEF);
    // inside the 20x20 block
    assert_eq!(buffer[60 * SCREEN_WIDTH + 40], 0xABCDEF);
    assert_eq!(buffer[79 * SCREEN_WIDTH + 59], 0xABCDEF);
    // just outside it, on every side
    assert_eq!(buffer[60 * SCREEN_WIDTH + 39], 0);
    assert_eq!(buffer[60 * SCREEN_WIDTH + 60], 0);
    assert_eq!(buffer[59 * SCREEN_WIDTH + 40], 0);
    assert_eq!(buffer[80 * SCREEN_WIDTH + 40], 0);
}

#[test]
fn test_draw_square_clips_offscreen() {
    let mut buffer: Vec<u32> = vec![7; SCREEN_WIDTH * SCREEN_HEIGHT];
    draw_square(&mut buffer, -1, 0, 0xABCDEF);
    draw_square(&mut buffer, 0, (SCREEN_HEIGHT as i32) - (BLOCK_SIZE - 1), 0xABCDEF);
    assert!(buffer.iter().all(|&p| p == 7));
}

#[test]
fn test_pos_vector_arithmetic() {
    let a = Pos { x: 1, y: 2 };
    let b = Pos { x: 3, y: -4 };
    assert_eq!(a.add(b), Pos { x: 4, y: -2 });
    assert_eq!(b.mul(3), Pos { x: 9, y: -12 });
}

#[test]
fn test_kind_of_index_table() {
    assert_eq!(kind_of_index(0), TetrominoKind::I);
    assert_eq!(kind_of_index(1), TetrominoKind::O);
    assert_eq!(kind_of_index(2), TetrominoKind::T);
    assert_eq!(kind_of_index(3), TetrominoKind::J);
    assert_eq!(kind_of_index(4), TetrominoKind::L);
    assert_eq!(kind_of_index(5), TetrominoKind::S);
    assert_eq!(kind_of_index(6), TetrominoKind::Z);
}

#[test]
fn test_primitives_accept_far_away_pieces() {
    // the primitives put no domain restriction on the piece: one far from
    // the board simply cannot be placed anywhere
    let board = Board { width: 4, height: 4, cells: vec![None; 16] };
    let far = Tetromino::new(TetrominoKind::O, Pos { x: 1000, y: -1000 });
    assert_eq!(try_hard_drop(&board, &far), Some(far));
    assert_eq!(rotate_with_kick(&board, &far), None);
}
