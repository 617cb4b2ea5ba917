use falling_blocks::board::ActivePiece;
use falling_blocks::engine::Action;
use falling_blocks::engine::App;
use falling_blocks::engine::LoopTimers;
use falling_blocks::engine::gravity_tick;
use falling_blocks::engine::handle_input;
use falling_blocks::engine::input_poll_due;
use falling_blocks::engine::is_frame_too_small;
use falling_blocks::engine::make_frame_layout;
use falling_blocks::engine::sleep_budget_ms;
use falling_blocks::engine::take_redraw;
use falling_blocks::tetromino::Colors;
use falling_blocks::tetromino::MoveDirection;
use falling_blocks::tetromino::Tetromino;
use falling_blocks::tetromino::TetrominoRotation;
use falling_blocks::tetromino::TetrominoShape;
use falling_blocks::utils::Rect;
use falling_blocks::utils::Vec2;

fn app_with_piece(shape: TetrominoShape) -> App {
    let mut app = App::new();
    app.game_board.active_piece = Some(ActivePiece {
        pos: Vec2::new(3, 0),
        tetromino: Tetromino::new(shape, TetrominoRotation::Zero),
    });
    app
}

#[test]
fn test_new_app_state() {
    let app = App::new();
    assert_eq!(app.game_board.grid.len(), 22);
    assert_eq!(app.game_board.grid[0].len(), 10);
    assert!(app.game_board.active_piece.is_none());
    assert!(!app.should_quit);
    assert_eq!(app.debug_text, "Hello Wold\n");
}

#[test]
fn test_move_left_then_right_restores_position() {
    let mut app = app_with_piece(TetrominoShape::T);
    app.apply_action(Action::MovePiece(MoveDirection::Left), TetrominoShape::O);
    assert_eq!(app.game_board.active_piece.unwrap().pos, Vec2::new(2, 0));
    app.apply_action(Action::MovePiece(MoveDirection::Right), TetrominoShape::O);
    assert_eq!(app.game_board.active_piece.unwrap().pos, Vec2::new(3, 0));
}

#[test]
fn test_commit_key_writes_yellow_and_respawns() {
    // Grid of 10 x 22, an O piece at (3, 0); the lock key commits it.
    let mut app = app_with_piece(TetrominoShape::O);
    let mut timers = LoopTimers::new(0);
    handle_input(&mut app, &mut timers, 100, Some('d'), TetrominoShape::pick_random_shape());
    assert_eq!(app.game_board.grid[0][3], Some(Colors::Yellow));
    assert_eq!(app.game_board.grid[0][4], Some(Colors::Yellow));
    assert_eq!(app.game_board.grid[1][3], Some(Colors::Yellow));
    assert_eq!(app.game_board.grid[1][4], Some(Colors::Yellow));
    let spawned = app.game_board.active_piece.unwrap();
    assert_eq!(spawned.pos, Vec2::new(3, 0));
    assert_eq!(spawned.tetromino.rotation, TetrominoRotation::Zero);
}

#[test]
fn test_rotate_key_cw_gives_ninety_table() {
    // Starting at rotation Zero, the clockwise key on a T piece yields the
    // Ninety offset table exactly as catalogued.
    let mut app = app_with_piece(TetrominoShape::T);
    let mut timers = LoopTimers::new(0);
    handle_input(&mut app, &mut timers, 100, Some('L'), TetrominoShape::O);
    let ap = app.game_board.active_piece.unwrap();
    assert_eq!(ap.tetromino.rotation, TetrominoRotation::Ninety);
    assert_eq!(ap.tetromino.blocks, [(0, 1), (1, 1), (2, 1), (1, 2)]);
    assert_eq!(ap.pos, Vec2::new(3, 0));
}

#[test]
fn test_gravity_and_manual_descent_do_not_double_apply() {
    let mut app = app_with_piece(TetrominoShape::T);
    let mut timers = LoopTimers::new(0);
    // The gravity interval elapses with no input: y grows by exactly 1.
    gravity_tick(&mut app, &mut timers, 1000);
    assert_eq!(app.game_board.active_piece.unwrap().pos, Vec2::new(3, 1));
    assert_eq!(timers.last_gravity_update, 1000);
    // A manual descent before the next interval resets the gravity timer.
    handle_input(&mut app, &mut timers, 1500, Some('j'), TetrominoShape::O);
    assert_eq!(app.game_board.active_piece.unwrap().pos, Vec2::new(3, 2));
    assert_eq!(timers.last_gravity_update, 1500);
    // Gravity checked before the reset interval ends applies nothing.
    gravity_tick(&mut app, &mut timers, 2400);
    assert_eq!(app.game_board.active_piece.unwrap().pos, Vec2::new(3, 2));
    // Once the interval from the manual descent elapses, it applies again.
    gravity_tick(&mut app, &mut timers, 2500);
    assert_eq!(app.game_board.active_piece.unwrap().pos, Vec2::new(3, 3));
}

#[test]
fn test_quit_key_raises_flag_only() {
    let mut app = app_with_piece(TetrominoShape::T);
    let mut timers = LoopTimers::new(0);
    handle_input(&mut app, &mut timers, 100, Some('q'), TetrominoShape::O);
    assert!(app.should_quit);
    assert_eq!(app.game_board.active_piece.unwrap().pos, Vec2::new(3, 0));
    assert!(timers.needs_redraw);
    assert_eq!(timers.last_input_check, 100);
}

#[test]
fn test_unmapped_key_changes_nothing() {
    let mut app = app_with_piece(TetrominoShape::T);
    let mut timers = LoopTimers::new(0);
    take_redraw(&mut timers);
    handle_input(&mut app, &mut timers, 100, Some('x'), TetrominoShape::O);
    assert!(!app.should_quit);
    assert!(!timers.needs_redraw);
    assert_eq!(timers.last_input_check, 0);
    assert_eq!(app.game_board.active_piece.unwrap().pos, Vec2::new(3, 0));
}

#[test]
fn test_input_poll_due_at_interval() {
    let timers = LoopTimers::new(50);
    assert!(!input_poll_due(&timers, 149));
    assert!(input_poll_due(&timers, 150));
}

#[test]
fn test_take_redraw_clears_flag() {
    let mut timers = LoopTimers::new(0);
    assert!(take_redraw(&mut timers));
    assert!(!take_redraw(&mut timers));
}

#[test]
fn test_sleep_budget_remainder() {
    assert_eq!(sleep_budget_ms(0, 3), 7);
    assert_eq!(sleep_budget_ms(100, 100), 10);
    assert_eq!(sleep_budget_ms(0, 15), 0);
}

#[test]
fn test_frame_too_small_threshold() {
    assert!(is_frame_too_small(59, 48));
    assert!(is_frame_too_small(60, 47));
    assert!(!is_frame_too_small(60, 48));
}

#[test]
fn test_frame_layout_centers_board() {
    let fl = make_frame_layout(Rect::new(0, 0, 60, 48), 30, 44);
    assert_eq!(fl.game, Rect::new(0, 0, 60, 44));
    assert_eq!(fl.debug, Rect::new(0, 44, 60, 4));
    assert_eq!(fl.left, Rect::new(0, 0, 15, 44));
    assert_eq!(fl.board, Rect::new(15, 0, 30, 44));
    assert_eq!(fl.right, Rect::new(45, 0, 15, 44));
}
