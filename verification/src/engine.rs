use vstd::prelude::*;

use crate::board::ActivePiece;
use crate::board::GameBoard;
use crate::board::piece_covers;
use crate::board::piece_in_bounds;
use crate::tetromino::MoveDirection;
use crate::tetromino::Tetromino;
use crate::tetromino::TetrominoRotation;
use crate::tetromino::TetrominoShape;
use crate::tetromino::is_catalog;
use crate::tetromino::rotation_step;
use crate::utils::Rect;
use crate::utils::Vec2;

verus! {

/// Grid columns of the fixed play field.
pub const GAME_WIDTH: usize = 10;

/// Grid rows of the fixed play field.
pub const GAME_HEIGHT: usize = 22;

/// Spawn column of a freshly spawned piece's anchor.
pub const SPAWN_X: usize = 3;

/// Spawn row of a freshly spawned piece's anchor.
pub const SPAWN_Y: usize = 0;

/// Milliseconds between two input polls.
pub const INPUT_RATE_MS: u64 = 100;

/// Milliseconds of one logical loop tick.
pub const LOOP_RATE_MS: u64 = 10;

/// Milliseconds between two gravity steps.
pub const GRAVITY_RATE_MS: u64 = 1000;

/// Smallest display width on which a frame is drawn.
pub const MIN_FRAME_WIDTH: u16 = 60;

/// Smallest display height on which a frame is drawn.
pub const MIN_FRAME_HEIGHT: u16 = 48;

/// What a key press asks the game to do.
#[derive(Debug, Clone, Copy, PartialEq, Eq, Structural)]
pub enum Action {
    Quit,
    DebugDrawCurrentPiece,
    MovePiece(MoveDirection),
}

/// The whole game state one loop iteration reads and writes.
pub struct App {
    pub game_board: GameBoard,
    pub should_quit: bool,
    pub debug_text: String,
}

/// The scheduler's state: the last-checked timestamps of the two timed
/// duties and the redraw-needed flag. All timestamps are in milliseconds of
/// a monotone clock.
pub struct LoopTimers {
    pub last_input_check: u64,
    pub last_gravity_update: u64,
    pub needs_redraw: bool,
}

/// The case-sensitive key map: which action a pressed character asks for.
pub open spec fn action_of_key(c: char) -> Option<Action> {
    if c == 'q' {
        Some(Action::Quit)
    } else if c == 'd' {
        Some(Action::DebugDrawCurrentPiece)
    } else if c == 'h' {
        Some(Action::MovePiece(MoveDirection::Left))
    } else if c == 'j' {
        Some(Action::MovePiece(MoveDirection::Down))
    } else if c == 'l' {
        Some(Action::MovePiece(MoveDirection::Right))
    } else if c == 'H' {
        Some(Action::MovePiece(MoveDirection::CCW))
    } else if c == 'L' {
        Some(Action::MovePiece(MoveDirection::CW))
    } else {
        None
    }
}

/// The action a poll outcome asks for: nothing when no key press arrived.
pub open spec fn key_event_action(key: Option<char>) -> Option<Action> {
    match key {
        None => None,
        Some(c) => action_of_key(c),
    }
}

/// An active piece after one unconditional translation by one cell.
pub open spec fn translated(ap: ActivePiece, direction: MoveDirection) -> ActivePiece {
    match direction {
        MoveDirection::Left => ActivePiece {
            pos: Vec2 { x: (ap.pos.x - 1) as usize, y: ap.pos.y },
            tetromino: ap.tetromino,
        },
        MoveDirection::Right => ActivePiece {
            pos: Vec2 { x: (ap.pos.x + 1) as usize, y: ap.pos.y },
            tetromino: ap.tetromino,
        },
        MoveDirection::Down => ActivePiece {
            pos: Vec2 { x: ap.pos.x, y: (ap.pos.y + 1) as usize },
            tetromino: ap.tetromino,
        },
        _ => ap,
    }
}

/// The inputs on which a move or rotate action completes: the unimplemented
/// drop is never allowed, and a translation must not take the anchor's
/// coordinates outside the machine range (the game checks no grid boundary).
pub open spec fn move_allowed(app: App, direction: MoveDirection) -> bool {
    match app.game_board.active_piece {
        None => !(direction is FirmDrop),
        Some(ap) => match direction {
            MoveDirection::Left => ap.pos.x > 0,
            MoveDirection::Right => ap.pos.x < usize::MAX,
            MoveDirection::Down => ap.pos.y < usize::MAX,
            MoveDirection::CW => true,
            MoveDirection::CCW => true,
            MoveDirection::FirmDrop => false,
        },
    }
}

/// The inputs on which an action completes; a commit further needs the
/// piece's cells inside the grid, since it writes them unchecked.
pub open spec fn action_allowed(app: App, action: Action) -> bool {
    match action {
        Action::Quit => true,
        Action::DebugDrawCurrentPiece => match app.game_board.active_piece {
            None => true,
            Some(ap) => piece_in_bounds(
                ap.pos,
                ap.tetromino,
                app.game_board.height(),
                app.game_board.width(),
            ),
        },
        Action::MovePiece(direction) => move_allowed(app, direction),
    }
}

/// One move or rotate action: the active piece is replaced wholesale by the
/// moved or re-instantiated piece; the grid, the flags and the text stay.
/// Without an active piece nothing changes.
pub open spec fn move_applied(before: App, direction: MoveDirection, after: App) -> bool {
    &&& after.game_board.grid == before.game_board.grid
    &&& after.game_board.grid_dims_chars == before.game_board.grid_dims_chars
    &&& after.should_quit == before.should_quit
    &&& after.debug_text == before.debug_text
    &&& match before.game_board.active_piece {
        None => after.game_board.active_piece is None,
        Some(ap) => match direction {
            MoveDirection::Left | MoveDirection::Right | MoveDirection::Down => {
                after.game_board.active_piece == Some(translated(ap, direction))
            },
            MoveDirection::CW | MoveDirection::CCW => {
                after.game_board.active_piece matches Some(nap) && nap.pos == ap.pos
                    && rotation_step(ap.tetromino, direction, nap.tetromino)
            },
            MoveDirection::FirmDrop => false,
        },
    }
}

/// The manual lock: the active piece's cells are written into the grid and a
/// fresh piece of the given shape spawns at the fixed spawn position with
/// rotation Zero. Without an active piece nothing changes.
pub open spec fn commit_and_spawn(before: App, next_shape: TetrominoShape, after: App) -> bool {
    match before.game_board.active_piece {
        None => after == before,
        Some(ap) => {
            &&& after.game_board.wf()
            &&& after.game_board.height() == before.game_board.height()
            &&& after.game_board.width() == before.game_board.width()
            &&& forall|y: int, x: int|
                0 <= y < before.game_board.height() && 0 <= x < before.game_board.width()
                    ==> after.game_board.cell(y, x) == (if piece_covers(ap.pos, ap.tetromino, y, x) {
                    Some(ap.tetromino.color)
                } else {
                    before.game_board.cell(y, x)
                })
            &&& after.game_board.active_piece matches Some(nap) && nap.pos == (Vec2 {
                x: SPAWN_X,
                y: SPAWN_Y,
            }) && is_catalog(nap.tetromino, next_shape, TetrominoRotation::Zero)
            &&& after.should_quit == before.should_quit
            &&& after.debug_text == before.debug_text
        },
    }
}

/// What applying an action does to the game state.
pub open spec fn action_applied(
    before: App,
    action: Action,
    next_shape: TetrominoShape,
    after: App,
) -> bool {
    match action {
        Action::Quit => {
            &&& after.game_board == before.game_board
            &&& after.debug_text == before.debug_text
            &&& after.should_quit == true
        },
        Action::DebugDrawCurrentPiece => commit_and_spawn(before, next_shape, after),
        Action::MovePiece(direction) => move_applied(before, direction, after),
    }
}

impl App {
    /// A fresh game: the fixed-size all-empty board, no active piece, no
    /// quit request, and the greeting in the debug pane.
    pub fn new() -> (r: App)
        ensures
            r.game_board.wf(),
            r.game_board.height() == GAME_HEIGHT,
            r.game_board.width() == GAME_WIDTH,
            forall|y: int, x: int|
                0 <= y < GAME_HEIGHT && 0 <= x < GAME_WIDTH ==> r.game_board.cell(y, x) is None,
            r.game_board.active_piece is None,
            r.should_quit == false,
            r.debug_text@ == "Hello Wold\n"@,
    {
        App {
            game_board: GameBoard::new(GAME_HEIGHT, GAME_WIDTH),
            should_quit: false,
            debug_text: "Hello Wold\n".to_owned(),
        }
    }

    /// Replaces the active piece by one moved a cell in the given direction,
    /// or rotated one step; a move is unconditional, with no boundary or
    /// collision check.
    pub fn move_active_piece(&mut self, direction: MoveDirection)
        requires
            move_allowed(*old(self), direction),
        ensures
            move_applied(*old(self), direction, *final(self)),
    {
        match direction {
            MoveDirection::Left => {
                if let Some(ap) = self.game_board.active_piece {
                    self.game_board.active_piece = Some(
                        ActivePiece {
                            pos: Vec2::new(ap.pos.x - 1, ap.pos.y),
                            tetromino: ap.tetromino,
                        },
                    );
                }
            },
            MoveDirection::Right => {
                if let Some(ap) = self.game_board.active_piece {
                    self.game_board.active_piece = Some(
                        ActivePiece {
                            pos: Vec2::new(ap.pos.x + 1, ap.pos.y),
                            tetromino: ap.tetromino,
                        },
                    );
                }
            },
            MoveDirection::Down => {
                if let Some(ap) = self.game_board.active_piece {
                    self.game_board.active_piece = Some(
                        ActivePiece {
                            pos: Vec2::new(ap.pos.x, ap.pos.y + 1),
                            tetromino: ap.tetromino,
                        },
                    );
                }
            },
            MoveDirection::CW | MoveDirection::CCW => {
                if let Some(ap) = self.game_board.active_piece {
                    let rotated = ap.tetromino.rotate(direction);
                    self.game_board.active_piece = Some(
                        ActivePiece { pos: ap.pos, tetromino: rotated },
                    );
                }
            },
            MoveDirection::FirmDrop => {
                proof {
                    assert(false);
                }
            },
        }
    }

    /// The manual lock-and-respawn: commits the active piece's four cells
    /// into the grid and spawns a piece of the given shape at the fixed
    /// spawn position with rotation Zero.
    pub fn commit_active_piece(&mut self, next_shape: TetrominoShape)
        requires
            old(self).game_board.wf(),
            action_allowed(*old(self), Action::DebugDrawCurrentPiece),
        ensures
            commit_and_spawn(*old(self), next_shape, *final(self)),
    {
        if let Some(ap) = self.game_board.active_piece {
            self.game_board.draw_to_board(ap.pos, ap.tetromino);
            let ghost mid = self.game_board;
            let new_ap = ActivePiece {
                pos: Vec2::new(SPAWN_X, SPAWN_Y),
                tetromino: Tetromino::new(next_shape, TetrominoRotation::Zero),
            };
            self.game_board.active_piece = Some(new_ap);
            proof {
                assert forall|y: int, x: int|
                    0 <= y < old(self).game_board.height() && 0 <= x < old(
                        self,
                    ).game_board.width() implies self.game_board.cell(y, x) == (if piece_covers(
                    ap.pos,
                    ap.tetromino,
                    y,
                    x,
                ) {
                    Some(ap.tetromino.color)
                } else {
                    old(self).game_board.cell(y, x)
                }) by {
                    assert(self.game_board.cell(y, x) == mid.cell(y, x));
                }
            }
        }
    }

    /// Applies one action: quit raises the quit flag, the lock action
    /// commits and respawns, a move or rotation replaces the active piece.
    pub fn apply_action(&mut self, action: Action, next_shape: TetrominoShape)
        requires
            old(self).game_board.wf(),
            action_allowed(*old(self), action),
        ensures
            action_applied(*old(self), action, next_shape, *final(self)),
    {
        match action {
            Action::Quit => {
                self.should_quit = true;
            },
            Action::DebugDrawCurrentPiece => {
                self.commit_active_piece(next_shape);
            },
            Action::MovePiece(direction) => {
                self.move_active_piece(direction);
            },
        }
    }
}

impl LoopTimers {
    /// Scheduler state at loop start: both duties count from `now_ms`, and
    /// the first frame is drawn.
    pub fn new(now_ms: u64) -> (r: LoopTimers)
        ensures
            r.last_input_check == now_ms,
            r.last_gravity_update == now_ms,
            r.needs_redraw == true,
    {
        LoopTimers { last_input_check: now_ms, last_gravity_update: now_ms, needs_redraw: true }
    }
}

/// Whether the input-poll interval has elapsed since the last applied input.
pub fn input_poll_due(timers: &LoopTimers, now_ms: u64) -> (b: bool)
    requires
        now_ms >= timers.last_input_check,
    ensures
        b == (now_ms - timers.last_input_check >= INPUT_RATE_MS),
{
    now_ms - timers.last_input_check >= INPUT_RATE_MS
}

/// Whether the gravity interval has elapsed since the last gravity step or
/// manual descent.
pub open spec fn gravity_due(timers: LoopTimers, now_ms: u64) -> bool {
    now_ms - timers.last_gravity_update >= GRAVITY_RATE_MS
}

/// Takes one poll outcome (a pressed character, or nothing) and applies the
/// action it maps to, if any: the state changes per the action, the display
/// becomes dirty, the input timestamp advances to `now_ms`, and a manual
/// descent with an active piece also resets the gravity timer. A poll that
/// yields nothing, or an unmapped key, changes nothing.
pub fn handle_input(
    app: &mut App,
    timers: &mut LoopTimers,
    now_ms: u64,
    key: Option<char>,
    next_shape: TetrominoShape,
)
    requires
        old(app).game_board.wf(),
        match key_event_action(key) {
            Some(action) => action_allowed(*old(app), action),
            None => true,
        },
    ensures
        match key_event_action(key) {
            Some(action) => {
                &&& action_applied(*old(app), action, next_shape, *final(app))
                &&& final(timers).needs_redraw == true
                &&& final(timers).last_input_check == now_ms
                &&& final(timers).last_gravity_update == (if action == Action::MovePiece(
                    MoveDirection::Down,
                ) && old(app).game_board.active_piece is Some {
                    now_ms
                } else {
                    old(timers).last_gravity_update
                })
            },
            None => *final(app) == *old(app) && *final(timers) == *old(timers),
        },
{
    let action = match key {
        None => None,
        Some(c) => {
            if c == 'q' {
                Some(Action::Quit)
            } else if c == 'd' {
                Some(Action::DebugDrawCurrentPiece)
            } else if c == 'h' {
                Some(Action::MovePiece(MoveDirection::Left))
            } else if c == 'j' {
                Some(Action::MovePiece(MoveDirection::Down))
            } else if c == 'l' {
                Some(Action::MovePiece(MoveDirection::Right))
            } else if c == 'H' {
                Some(Action::MovePiece(MoveDirection::CCW))
            } else if c == 'L' {
                Some(Action::MovePiece(MoveDirection::CW))
            } else {
                None
            }
        },
    };
    if let Some(action) = action {
        let down_with_piece = match action {
            Action::MovePiece(MoveDirection::Down) => app.game_board.active_piece.is_some(),
            _ => false,
        };
        app.apply_action(action, next_shape);
        if down_with_piece {
            timers.last_gravity_update = now_ms;
        }
        timers.needs_redraw = true;
        timers.last_input_check = now_ms;
    }
}

/// One gravity check: if the gravity interval has elapsed, the active piece
/// descends one cell unconditionally (no landing or collision check), the
/// gravity timer resets to `now_ms` and the display becomes dirty; the input
/// timestamp never moves. Before the interval elapses nothing changes.
pub fn gravity_tick(app: &mut App, timers: &mut LoopTimers, now_ms: u64)
    requires
        now_ms >= old(timers).last_gravity_update,
        move_allowed(*old(app), MoveDirection::Down),
    ensures
        final(timers).last_input_check == old(timers).last_input_check,
        gravity_due(*old(timers), now_ms) ==> {
            &&& move_applied(*old(app), MoveDirection::Down, *final(app))
            &&& final(timers).last_gravity_update == now_ms
            &&& final(timers).needs_redraw == true
        },
        !gravity_due(*old(timers), now_ms) ==> *final(app) == *old(app) && *final(timers) == *old(
            timers,
        ),
{
    if now_ms - timers.last_gravity_update >= GRAVITY_RATE_MS {
        app.move_active_piece(MoveDirection::Down);
        timers.last_gravity_update = now_ms;
        timers.needs_redraw = true;
    }
}

/// Whether a frame must be drawn now; asking clears the flag.
pub fn take_redraw(timers: &mut LoopTimers) -> (b: bool)
    ensures
        b == old(timers).needs_redraw,
        final(timers).needs_redraw == false,
        final(timers).last_input_check == old(timers).last_input_check,
        final(timers).last_gravity_update == old(timers).last_gravity_update,
{
    let b = timers.needs_redraw;
    timers.needs_redraw = false;
    b
}

/// How long to sleep at the end of an iteration: the remainder of the fixed
/// tick budget, or nothing when the iteration already took longer.
pub fn sleep_budget_ms(loop_start_ms: u64, now_ms: u64) -> (r: u64)
    requires
        now_ms >= loop_start_ms,
    ensures
        r == (if now_ms - loop_start_ms < LOOP_RATE_MS {
            LOOP_RATE_MS - (now_ms - loop_start_ms)
        } else {
            0
        }),
{
    let served = now_ms - loop_start_ms;
    if served < LOOP_RATE_MS {
        LOOP_RATE_MS - served
    } else {
        0
    }
}

/// Moving the active piece left one cell and then right one cell returns
/// the whole game state to where it began, provided the piece was not on
/// the leftmost column.
pub proof fn lemma_move_left_then_right_identity(a0: App, a1: App, a2: App)
    requires
        a0.game_board.active_piece matches Some(ap) && ap.pos.x > 0,
        move_applied(a0, MoveDirection::Left, a1),
        move_applied(a1, MoveDirection::Right, a2),
    ensures
        a2.game_board.active_piece == a0.game_board.active_piece,
        a2.game_board.grid == a0.game_board.grid,
        a2.should_quit == a0.should_quit,
        a2.debug_text == a0.debug_text,
{
}

/// Whether the available display area is under the fixed minimum, in which
/// case the frame shows only the size warning.
pub fn is_frame_too_small(width: u16, height: u16) -> (b: bool)
    ensures
        b == (width < MIN_FRAME_WIDTH || height < MIN_FRAME_HEIGHT),
{
    width < MIN_FRAME_WIDTH || height < MIN_FRAME_HEIGHT
}

/// The regions of one frame: the board centered in the fixed-height game
/// strip between two filler wings, and the debug pane below.
#[derive(Debug, Clone, Copy, PartialEq, Eq, Structural)]
pub struct FrameLayout {
    pub game: Rect,
    pub debug: Rect,
    pub left: Rect,
    pub board: Rect,
    pub right: Rect,
}

/// Splits the frame vertically into a game strip of the board's character
/// height and a debug pane taking the rest, then splits the strip
/// horizontally into left filler, centered board and right filler.
pub fn make_frame_layout(frame: Rect, board_chars_x: u16, board_chars_y: u16) -> (fl: FrameLayout)
    requires
        frame.x + frame.width <= u16::MAX,
        frame.y + frame.height <= u16::MAX,
        frame.height >= board_chars_y,
        frame.width >= board_chars_x,
    ensures
        fl.game == (Rect { x: frame.x, y: frame.y, width: frame.width, height: board_chars_y }),
        fl.debug == (Rect {
            x: frame.x,
            y: (frame.y + board_chars_y) as u16,
            width: frame.width,
            height: (frame.height - board_chars_y) as u16,
        }),
        fl.left == (Rect {
            x: frame.x,
            y: frame.y,
            width: ((frame.width - board_chars_x) / 2) as u16,
            height: board_chars_y,
        }),
        fl.board == (Rect {
            x: (frame.x + (frame.width - board_chars_x) / 2) as u16,
            y: frame.y,
            width: board_chars_x,
            height: board_chars_y,
        }),
        fl.right == (Rect {
            x: (frame.x + (frame.width - board_chars_x) / 2 + board_chars_x) as u16,
            y: frame.y,
            width: ((frame.width - board_chars_x) / 2) as u16,
            height: board_chars_y,
        }),
{
    let wing_width = (frame.width - board_chars_x) / 2;
    let game = Rect::new(frame.x, frame.y, frame.width, board_chars_y);
    let debug = Rect::new(
        frame.x,
        frame.y + board_chars_y,
        frame.width,
        frame.height - board_chars_y,
    );
    let left = Rect::new(frame.x, frame.y, wing_width, board_chars_y);
    let board = Rect::new(frame.x + wing_width, frame.y, board_chars_x, board_chars_y);
    let right = Rect::new(
        frame.x + wing_width + board_chars_x,
        frame.y,
        wing_width,
        board_chars_y,
    );
    FrameLayout { game, debug, left, board, right }
}

} // verus!
