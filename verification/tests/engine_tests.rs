use tetris::board::{is_invalid_state, Block, Board, BOARD_HEIGHT, BOARD_WIDTH};
use tetris::game::{calculate_and_create_ghost_piece, Game, MoveOutcome};
use tetris::pieces::{BlockType, Piece, PieceType};
use tetris::sequence::{make_piece_sequence, rng_from_seed};

fn sequence() -> Vec<PieceType> {
    let mut rng = rng_from_seed(1);
    make_piece_sequence(&mut rng)
}

fn piece_at(t: PieceType, x: i8, y: i8, rotation: u8) -> Piece {
    let mut p = Piece::from_piece_type(&t);
    p.position.x = x;
    p.position.y = y;
    for _ in 0..rotation {
        p.rotate_clockwise();
    }
    p
}

fn absolute_cells(p: &Piece) -> Vec<(i16, i16)> {
    let mut cells: Vec<(i16, i16)> = p
        .blocks()
        .iter()
        .map(|o| (p.position.x as i16 + o.x as i16, p.position.y as i16 + o.y as i16))
        .collect();
    cells.sort();
    cells
}

fn game_with(board: Board, active: Piece) -> Game {
    Game::from_parts(board, active, None, sequence(), 0)
}

fn fill_cell(board: &mut Board, x: usize, y: usize, t: BlockType) {
    board.blocks[y][x] = Block { block_type: t };
}

fn assert_board_is(board: &Board, expected_filled: &[(usize, usize, BlockType)]) {
    for y in 0..BOARD_HEIGHT {
        for x in 0..BOARD_WIDTH {
            let got = board.blocks[y][x].block_type;
            let want = expected_filled
                .iter()
                .find(|(fx, fy, _)| *fx == x && *fy == y)
                .map(|(_, _, t)| *t)
                .unwrap_or(BlockType::Empty);
            assert_eq!(got, want, "cell ({}, {})", x, y);
        }
    }
}

#[test]
fn rotation_closure_on_open_board() {
    let mut game = game_with(Board::empty(), piece_at(PieceType::T, 5, 10, 0));
    let before = absolute_cells(&game.active_piece());
    for _ in 0..4 {
        game.rotate_clockwise();
    }
    assert_eq!(absolute_cells(&game.active_piece()), before);
    assert_eq!(game.active_piece().current_rotation, 0);
    for _ in 0..4 {
        game.rotate_counterclockwise();
    }
    assert_eq!(absolute_cells(&game.active_piece()), before);
    assert_eq!(game.active_piece().current_rotation, 0);
}

#[test]
fn o_piece_cells_identical_across_rotations() {
    let mut p = piece_at(PieceType::O, 4, 10, 0);
    let base = absolute_cells(&p);
    for _ in 0..4 {
        p.rotate_clockwise();
        assert_eq!(absolute_cells(&p), base);
    }
}

#[test]
fn i_piece_kicks_off_left_wall() {
    // A vertical I piece whose cells hug the left wall; rotating it to
    // horizontal cannot fit as-is and must resolve through the kick search.
    let mut game = game_with(Board::empty(), piece_at(PieceType::I, 0, 5, 3));
    game.rotate_clockwise();
    let p = game.active_piece();
    assert_eq!(p.current_rotation, 0);
    assert_eq!((p.position.x, p.position.y), (1, 5));
    for (x, y) in absolute_cells(&p) {
        assert!(0 <= x && x < BOARD_WIDTH as i16 && 0 <= y && y < BOARD_HEIGHT as i16);
    }
}

#[test]
fn l_piece_against_right_wall_resolves_or_reverts() {
    let mut game = game_with(Board::empty(), piece_at(PieceType::L, 9, 5, 3));
    let before = absolute_cells(&game.active_piece());
    game.rotate_clockwise();
    let p = game.active_piece();
    let after = absolute_cells(&p);
    // The left kick candidate resolves this rotation deterministically.
    assert!(after != before);
    assert_eq!((p.position.x, p.position.y), (8, 5));
    assert_eq!(p.current_rotation, 0);
    for (x, y) in after {
        assert!(0 <= x && x < BOARD_WIDTH as i16 && 0 <= y && y < BOARD_HEIGHT as i16);
    }
}

#[test]
fn single_row_clear_shifts_rows_down() {
    let mut board = Board::empty();
    for x in 0..9 {
        fill_cell(&mut board, x, 19, BlockType::L);
    }
    // A vertical I piece above the single gap in the bottom row.
    let mut game = game_with(board, piece_at(PieceType::I, 8, 16, 1));
    let outcome = game.slam();
    assert_eq!(outcome, MoveOutcome::SpawnedNewPiece);
    // The bottom row filled and cleared; the piece's three remaining cells
    // moved down one row; the top row is empty.
    assert_board_is(game.board(), &[
        (9, 17, BlockType::I),
        (9, 18, BlockType::I),
        (9, 19, BlockType::I),
    ]);
}

#[test]
fn four_rows_clear_simultaneously() {
    let mut board = Board::empty();
    for y in 16..20 {
        for x in 0..9 {
            fill_cell(&mut board, x, y, BlockType::J);
        }
    }
    // A marker block above the full rows must fall 4 rows.
    fill_cell(&mut board, 0, 15, BlockType::S);
    let mut game = game_with(board, piece_at(PieceType::I, 8, 2, 1));
    let outcome = game.slam();
    assert_eq!(outcome, MoveOutcome::SpawnedNewPiece);
    assert_board_is(game.board(), &[(0, 19, BlockType::S)]);
}

#[test]
fn tick_moves_down_then_locks() {
    let mut game = game_with(Board::empty(), piece_at(PieceType::O, 4, 17, 0));
    // Cells occupy rows 17 and 18; one step down still fits.
    assert_eq!(game.move_down_and_stick(), MoveOutcome::NothingSpecial);
    assert_eq!(game.active_piece().position.y, 18);
    // Now the cells occupy rows 18 and 19; the next step locks and spawns.
    assert_eq!(game.move_down_and_stick(), MoveOutcome::SpawnedNewPiece);
    assert_board_is(game.board(), &[
        (4, 18, BlockType::O),
        (5, 18, BlockType::O),
        (4, 19, BlockType::O),
        (5, 19, BlockType::O),
    ]);
}

#[test]
fn blocked_spawn_point_ends_the_game() {
    let mut board = Board::empty();
    // Fill the spawn area so that both the spawn row and the softened row
    // below it collide for every piece type.
    for y in 0..4 {
        for x in 3..9 {
            fill_cell(&mut board, x, y, BlockType::Z);
        }
    }
    let mut game = game_with(board, piece_at(PieceType::O, 0, 18, 0));
    let outcome = game.move_down_and_stick();
    assert_eq!(outcome, MoveOutcome::GameOver);
    assert!(game.is_game_over());
    // After the game is over, mutating operations are not accepted.
    let pos_before = (game.active_piece().position.x, game.active_piece().position.y);
    game.try_and_move_left();
    game.rotate_clockwise();
    game.hold_piece();
    assert_eq!(game.move_down_and_stick(), MoveOutcome::GameOver);
    let pos_after = (game.active_piece().position.x, game.active_piece().position.y);
    assert_eq!(pos_before, pos_after);
}

#[test]
fn hold_stores_then_swaps() {
    let mut game = Game::new(11);
    assert!(game.held_piece().is_none());
    let first = game.active_piece().shape;
    let upcoming = game.peek(0);
    game.hold_piece();
    assert_eq!(game.held_piece(), Some(first));
    assert_eq!(game.active_piece().shape, upcoming);
    game.hold_piece();
    assert_eq!(game.held_piece(), Some(upcoming));
    assert_eq!(game.active_piece().shape, first);
}

#[test]
fn ghost_projection_never_mutates() {
    let mut board = Board::empty();
    for x in 2..8 {
        fill_cell(&mut board, x, 15, BlockType::T);
    }
    let game = game_with(board, piece_at(PieceType::T, 5, 3, 0));
    let active = game.active_piece();
    let board_before = game.board().duplicate();
    let mut last_y: i8 = -100;
    for _ in 0..5 {
        let ghost = calculate_and_create_ghost_piece(&active, game.board());
        assert_eq!(ghost.block_type, BlockType::Shadow);
        assert!(ghost.position.y >= active.position.y);
        if last_y != -100 {
            assert_eq!(ghost.position.y, last_y);
        }
        last_y = ghost.position.y;
    }
    // The active piece and the board are untouched.
    assert_eq!(game.active_piece().position.x, active.position.x);
    assert_eq!(game.active_piece().position.y, active.position.y);
    for y in 0..BOARD_HEIGHT {
        for x in 0..BOARD_WIDTH {
            assert_eq!(game.board().blocks[y][x].block_type,
                board_before.blocks[y][x].block_type);
        }
    }
    // The ghost rests at the maximal valid row: valid there, invalid below.
    let mut at_rest = active;
    at_rest.position.y = last_y;
    assert!(!is_invalid_state(&at_rest, game.board()));
    at_rest.position.y = last_y + 1;
    assert!(is_invalid_state(&at_rest, game.board()));
}

#[test]
fn snapshot_overlays_active_over_ghost() {
    let game = game_with(Board::empty(), piece_at(PieceType::O, 4, 0, 0));
    let rs = game.render_state();
    // The active O piece sits at the top; its ghost rests on the floor.
    for (x, y) in [(4usize, 0usize), (5, 0), (4, 1), (5, 1)] {
        assert_eq!(rs.board.blocks[y][x].block_type, BlockType::O);
    }
    for (x, y) in [(4usize, 18usize), (5, 18), (4, 19), (5, 19)] {
        assert_eq!(rs.board.blocks[y][x].block_type, BlockType::Shadow);
    }
    // Snapshots are pure: taking another changes nothing.
    let rs2 = game.render_state();
    for y in 0..BOARD_HEIGHT {
        for x in 0..BOARD_WIDTH {
            assert_eq!(rs.board.blocks[y][x].block_type, rs2.board.blocks[y][x].block_type);
        }
    }
}

#[test]
fn snapshot_shows_held_piece_and_previews() {
    let mut game = Game::new(3);
    let rs = game.render_state();
    // No held piece yet: the held grid is empty.
    for row in rs.held_piece_board.blocks.iter() {
        for b in row.iter() {
            assert_eq!(b.block_type, BlockType::Empty);
        }
    }
    // Each of the 4 preview slots shows 4 cells of the upcoming type.
    for slot in 0..4 {
        let t = game.peek(slot);
        let shown = piece_at(t, 2, 2 + 4 * slot as i8, 0);
        let mut count = 0;
        for (x, y) in absolute_cells(&shown) {
            let b = rs.next_pieces_board.blocks[y as usize][x as usize].block_type;
            assert_ne!(b, BlockType::Empty);
            count += 1;
        }
        assert_eq!(count, 4);
    }
    game.hold_piece();
    let rs2 = game.render_state();
    let mut held_cells = 0;
    for row in rs2.held_piece_board.blocks.iter() {
        for b in row.iter() {
            if b.block_type != BlockType::Empty {
                held_cells += 1;
            }
        }
    }
    assert_eq!(held_cells, 4);
}

#[test]
fn spawned_piece_is_nudged_down_when_top_row_collides() {
    // A J piece's rotation state 0 reaches one row above its pivot, so at
    // the spawn row 0 it is out of bounds and is softened one row down.
    let mut game = game_with(Board::empty(), piece_at(PieceType::O, 4, 17, 0));
    // Lock the O piece; the next draw spawns at row 0 or row 1.
    assert_eq!(game.move_down_and_stick(), MoveOutcome::NothingSpecial);
    assert_eq!(game.move_down_and_stick(), MoveOutcome::SpawnedNewPiece);
    let p = game.active_piece();
    assert_eq!(p.position.x, 5);
    assert!(p.position.y == 0 || p.position.y == 1);
    for (x, y) in absolute_cells(&p) {
        assert!(0 <= x && x < BOARD_WIDTH as i16 && 0 <= y && y < BOARD_HEIGHT as i16);
    }
}

#[test]
fn single_row_clear_via_tick() {
    let mut board = Board::empty();
    for x in 0..9 {
        fill_cell(&mut board, x, 19, BlockType::L);
    }
    // The vertical I piece already rests in the gap; one gravity step locks it.
    let mut game = game_with(board, piece_at(PieceType::I, 8, 17, 1));
    assert_eq!(game.move_down_and_stick(), MoveOutcome::SpawnedNewPiece);
    assert_board_is(game.board(), &[
        (9, 17, BlockType::I),
        (9, 18, BlockType::I),
        (9, 19, BlockType::I),
    ]);
}

#[test]
fn next_spawn_matches_look_ahead() {
    let mut game = Game::new(5);
    let expected = game.peek(0);
    assert_eq!(game.slam(), MoveOutcome::SpawnedNewPiece);
    assert_eq!(game.active_piece().shape, expected);
}
