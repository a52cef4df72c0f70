use tetris::game::create_new_game;
use tetris::game::FixedGenerator;
use tetris::game::GameCommand;
use tetris::game::GameState;
use tetris::geometry::Pos;
use tetris::geometry::TetrominoKind;

#[test]
fn test_game_init() {
    let game = create_new_game(10, 10, 0);
    assert_eq!(game.current_tetris.pos, Pos { x: 5, y: 1 });
    assert_eq!(game.board.width, 10);
    assert_eq!(game.board.height, 10);
    assert_eq!(game.board.cells, vec![None; 100]);
}

#[test]
fn test_tetris_move() {
    let init_time = 0u64;
    let mut game = create_new_game(10, 10, init_time);
    assert_eq!(game.current_tetris.pos, Pos { x: 5, y: 1 });
    game.update_press(GameCommand::MoveLeft, init_time);
    assert_eq!(game.current_tetris.pos, Pos { x: 4, y: 1 });

    // debounce
    game.update_press(GameCommand::MoveLeft, init_time);
    assert_ne!(game.current_tetris.pos, Pos { x: 3, y: 1 });

    // debounce pass
    game.update_press(GameCommand::MoveLeft, init_time + 121);
    assert_eq!(game.current_tetris.pos, Pos { x: 3, y: 1 });
}

#[test]
fn test_tetris_gravity() {
    let init_time = 0u64;
    let mut game = create_new_game(10, 10, init_time);
    assert_eq!(game.current_tetris.pos, Pos { x: 5, y: 1 });
    game.update_press(GameCommand::Idle, init_time + 500);
    assert_eq!(game.current_tetris.pos, Pos { x: 5, y: 1 });
    game.update_press(GameCommand::Idle, init_time + 501);
    assert_eq!(game.current_tetris.pos, Pos { x: 5, y: 2 });
    game.update_press(GameCommand::Idle, init_time + 1002);
    assert_eq!(game.current_tetris.pos, Pos { x: 5, y: 3 });
}

#[test]
fn test_hard_drop() {
    let init_time = 0u64;
    let mut game = GameState::new(10, 10, init_time, FixedGenerator::new(TetrominoKind::I));
    assert_eq!(game.current_tetris.pos, Pos { x: 5, y: 1 });
    game.update_press(GameCommand::HardDrop, init_time);
    assert_ne!(game.board.cells[9 * 10 + 4], None);
    assert_ne!(game.board.cells[9 * 10 + 5], None);
    assert_ne!(game.board.cells[9 * 10 + 6], None);
    assert_ne!(game.board.cells[9 * 10 + 7], None);
}

#[test]
fn test_soft_drop() {
    let init_time = 0u64;
    let mut game = create_new_game(10, 10, init_time);
    assert_eq!(game.current_tetris.pos, Pos { x: 5, y: 1 });
    game.update_press(GameCommand::SoftDrop, init_time);
    assert_eq!(game.current_tetris.pos, Pos { x: 5, y: 2 });

    // + gravity
    game.update_press(GameCommand::SoftDrop, init_time + 501);
    assert_eq!(game.current_tetris.pos, Pos { x: 5, y: 4 });
}

#[test]
fn test_hard_drop_debounce() {
    let init_time = 0u64;
    let mut game = GameState::new(10, 10, init_time, FixedGenerator::new(TetrominoKind::I));
    game.update_press(GameCommand::SoftDrop, init_time);
    assert_eq!(game.current_tetris.pos, Pos { x: 5, y: 2 });

    // trigger hard drop
    assert!(game.update_press(GameCommand::HardDrop, init_time));
    // create a new tetromino
    assert_eq!(game.current_tetris.pos, Pos { x: 5, y: 1 });

    // won't trigger
    assert!(!game.update_press(GameCommand::HardDrop, init_time));
    assert_eq!(game.current_tetris.pos, Pos { x: 5, y: 1 });

    // release
    assert!(!game.update(false, GameCommand::HardDrop, init_time));
    // can trigger
    assert!(game.update(true, GameCommand::HardDrop, init_time));
}

#[test]
fn test_lock() {
    let init_time = 0u64;
    let mut game = GameState::new(10, 3, init_time, FixedGenerator::new(TetrominoKind::I));
    assert!(game.update_press(GameCommand::SoftDrop, init_time));
    assert_eq!(game.current_tetris.pos, Pos { x: 5, y: 2 });

    // lock time is 500, we can still move left
    assert!(game.update_press(GameCommand::MoveLeft, init_time + 500));
    assert_eq!(game.current_tetris.pos, Pos { x: 4, y: 2 });

    // lock! settling the piece is a piece state change, so the tick
    // reports true
    assert!(game.update_press(GameCommand::Idle, init_time + 501));
    assert_ne!(game.board.cells[2 * 10 + 3], None);
    assert_ne!(game.board.cells[2 * 10 + 4], None);
    assert_ne!(game.board.cells[2 * 10 + 5], None);
    assert_ne!(game.board.cells[2 * 10 + 6], None);
    // new
    assert_eq!(game.current_tetris.pos, Pos { x: 5, y: 1 });
}

#[test]
fn test_bug_hard_drop_instant_game_over() {
    let init_time = 0u64;
    let mut game = GameState::new(10, 5, init_time, FixedGenerator::new(TetrominoKind::I));
    game.update(true, GameCommand::HardDrop, init_time);
    game.update(true, GameCommand::HardDrop, init_time);
    game.update(true, GameCommand::HardDrop, init_time);
    assert!(!game.get_game_over());
}
