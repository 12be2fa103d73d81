//! The move engine: one mutable instance owning the active piece, the board,
//! the held-piece slot and the sequencer cursor. Every player and gravity
//! operation either fully applies or fully reverts before returning, and the
//! active piece is in a valid position at the end of every operation for as
//! long as the game is not over.

use vstd::prelude::*;
use crate::pieces::{BlockType, Piece, PieceType, PieceView, block_of,
    lemma_offsets_bounded};
use crate::board::{BOARD_HEIGHT, BOARD_WIDTH, Block, Board, board_wf, board_with_piece,
    collapse_rows, empty_board, empty_row, grid_view, in_bounds, invalid_state,
    is_invalid_state, kept_rows, lemma_in_bounds_position, row_full,
    stick_piece_to_grid};
use crate::sequence::{SEQUENCE_LEN, bag_fair, get_piece_from_sequence, make_piece_sequence,
    rng_from_seed};

verus! {

/// The signal a gravity step or a slam returns to the caller.
#[derive(Clone, Copy, Debug, PartialEq, Eq, Structural)]
pub enum MoveOutcome {
    SpawnedNewPiece,
    GameOver,
    NothingSpecial,
}

/// The mathematical model of the whole engine state.
pub struct GameView {
    pub board: Seq<Seq<BlockType>>,
    pub active: PieceView,
    pub held: Option<PieceType>,
    pub sequence: Seq<PieceType>,
    pub index: int,
    pub over: bool,
}

/// Structural well-formedness of an engine state: board dimensions, piece
/// shape data, the fair 350-draw sequence and the cursor's range.
pub open spec fn game_wf(g: GameView) -> bool {
    &&& board_wf(g.board)
    &&& g.active.wf()
    &&& g.active.block == block_of(g.active.shape)
    &&& -2 <= g.active.x <= 10
    &&& -2 <= g.active.y <= 20
    &&& g.sequence.len() == SEQUENCE_LEN
    &&& bag_fair(g.sequence)
    &&& 0 <= g.index < SEQUENCE_LEN
}

/// For as long as the game is not over, the active piece sits in a valid
/// position: in bounds and not overlapping a filled cell.
pub open spec fn active_valid(g: GameView) -> bool {
    !g.over ==> !invalid_state(g.active, g.board)
}

/// A fresh piece of type `t` before any spawn adjustment.
pub open spec fn fresh_piece(t: PieceType) -> PieceView {
    PieceView { shape: t, block: block_of(t), x: 0, y: 0, rotation: 0 }
}

/// The piece moved to the spawn point: pivot at the centre column of the top
/// row, softened one row down when that position is invalid. The softened
/// position is not guaranteed to be valid either; the caller decides what a
/// still-invalid spawn means.
pub open spec fn at_spawn(p: PieceView, b: Seq<Seq<BlockType>>) -> PieceView {
    let q = PieceView { x: BOARD_WIDTH as int / 2, y: 0, ..p };
    if invalid_state(q, b) { q.shifted(0, 1) } else { q }
}

/// The piece of type `t` as it spawns on board `b`.
pub open spec fn spawned_piece(t: PieceType, b: Seq<Seq<BlockType>>) -> PieceView {
    at_spawn(fresh_piece(t), b)
}

/// The engine after drawing the next piece from the sequence and placing it
/// at the spawn point. The cursor cycles through the stored 350-draw
/// sequence, so the supply never exhausts.
pub open spec fn spawn_spec(g: GameView) -> GameView {
    GameView {
        active: spawned_piece(g.sequence[g.index], g.board),
        index: (g.index + 1) % (SEQUENCE_LEN as int),
        ..g
    }
}

/// The engine after an attempted one-cell move of the active piece by
/// (dx, dy): applied when the moved position is valid, reverted (a no-op)
/// otherwise, and a no-op once the game is over.
pub open spec fn try_shift_spec(g: GameView, dx: int, dy: int) -> GameView {
    if g.over {
        g
    } else if !invalid_state(g.active.shifted(dx, dy), g.board) {
        GameView { active: g.active.shifted(dx, dy), ..g }
    } else {
        g
    }
}

/// The ordered translation candidates a rotation tries, first to last:
/// the rotated position itself, then left, right, down, then down-left for
/// clockwise (down-right for counterclockwise), then up, then up-right for
/// clockwise (up-left for counterclockwise). This exact order is a
/// determinism contract.
pub open spec fn kick_candidates(cw: bool) -> Seq<(int, int)> {
    if cw {
        seq![(0, 0), (-1, 0), (1, 0), (0, 1), (-1, 1), (0, -1), (1, -1)]
    } else {
        seq![(0, 0), (-1, 0), (1, 0), (0, 1), (1, 1), (0, -1), (-1, -1)]
    }
}

/// The first candidate translation of `cands` that puts the piece in a
/// valid position, applied to the piece; `None` when none fits.
pub open spec fn first_fit(p: PieceView, b: Seq<Seq<BlockType>>, cands: Seq<(int, int)>)
    -> Option<PieceView>
    decreases cands.len(),
{
    if cands.len() == 0 {
        None
    } else if !invalid_state(p.shifted(cands[0].0, cands[0].1), b) {
        Some(p.shifted(cands[0].0, cands[0].1))
    } else {
        first_fit(p, b, cands.drop_first())
    }
}

/// The engine after a rotation: the rotation index advances (clockwise) or
/// retreats (counterclockwise), and the first kick candidate that yields a
/// valid state is committed with it; when none fits, the whole attempt is
/// reverted. A no-op once the game is over.
pub open spec fn rotate_spec(g: GameView, cw: bool) -> GameView {
    if g.over {
        g
    } else {
        let rp = if cw { g.active.rotated_cw() } else { g.active.rotated_ccw() };
        match first_fit(rp, g.board, kick_candidates(cw)) {
            Some(q) => GameView { active: q, ..g },
            None => g,
        }
    }
}

/// The engine after the active piece locks: its cells written into the
/// board, full rows collapsed, the next draw spawned at the spawn point and
/// the cursor advanced; the game is over when the newly spawned piece is
/// invalid on the collapsed board.
pub open spec fn lock_and_spawn_spec(g: GameView) -> GameView {
    let b = collapse_rows(board_with_piece(g.board, g.active));
    let p = spawned_piece(g.sequence[g.index], b);
    GameView {
        board: b,
        active: p,
        held: g.held,
        sequence: g.sequence,
        index: (g.index + 1) % (SEQUENCE_LEN as int),
        over: invalid_state(p, b),
    }
}

/// One gravity step and what it returns: the piece moves down one cell when
/// it can; otherwise it locks, rows collapse and the next piece spawns,
/// ending the game when the spawn is invalid.
pub open spec fn tick_spec(g: GameView) -> (GameView, MoveOutcome) {
    if g.over {
        (g, MoveOutcome::GameOver)
    } else if !invalid_state(g.active.shifted(0, 1), g.board) {
        (GameView { active: g.active.shifted(0, 1), ..g }, MoveOutcome::NothingSpecial)
    } else {
        let g2 = lock_and_spawn_spec(g);
        (g2, if g2.over { MoveOutcome::GameOver } else { MoveOutcome::SpawnedNewPiece })
    }
}

/// The engine after holding: with an empty slot, the active piece's type is
/// stored and the next draw spawns; with an occupied slot, the stored type
/// and the active piece's type swap, the swapped-in piece respawning at the
/// spawn point. Repeated holds are allowed. The game ends when the
/// spawned piece is invalid.
pub open spec fn hold_spec(g: GameView) -> GameView {
    if g.over {
        g
    } else {
        match g.held {
            None => {
                let g1 = spawn_spec(g);
                GameView {
                    held: Some(g.active.shape),
                    over: invalid_state(g1.active, g1.board),
                    ..g1
                }
            },
            Some(h) => {
                let p = spawned_piece(h, g.board);
                GameView {
                    active: p,
                    held: Some(g.active.shape),
                    over: invalid_state(p, g.board),
                    ..g
                }
            },
        }
    }
}

/// The piece, falling straight down from its own position, comes to rest at
/// pivot row `y`: every position from its own row down to `y` is valid and
/// the position one row further down is not.
pub open spec fn rests_at(p: PieceView, b: Seq<Seq<BlockType>>, y: int) -> bool {
    &&& p.y <= y
    &&& forall|yy: int| p.y <= yy <= y ==> !invalid_state(#[trigger] p.at_y(yy), b)
    &&& invalid_state(p.at_y(y + 1), b)
}

/// At most one row can satisfy `rests_at`, so it pins the resting position.
pub proof fn lemma_rests_at_unique(p: PieceView, b: Seq<Seq<BlockType>>, y1: int, y2: int)
    requires
        rests_at(p, b, y1),
        rests_at(p, b, y2),
    ensures
        y1 == y2,
{
    if y1 < y2 {
        assert(!invalid_state(p.at_y(y1 + 1), b));
    }
    if y2 < y1 {
        assert(!invalid_state(p.at_y(y2 + 1), b));
    }
}

/// Whether a piece position is valid depends only on its occupied cells,
/// never on the tag its cells carry.
pub proof fn lemma_validity_ignores_block(p: PieceView, q: PieceView, b: Seq<Seq<BlockType>>)
    requires
        p.shape == q.shape,
        p.rotation == q.rotation,
        p.x == q.x,
        p.y == q.y,
    ensures
        invalid_state(p, b) == invalid_state(q, b),
{
    assert(p.cells() =~= q.cells());
}

/// The engine owning all game state.
pub struct Game {
    sequence_index: usize,
    sequence: Vec<PieceType>,
    active_piece: Piece,
    held_piece: Option<PieceType>,
    board: Board,
    game_over: bool,
}

impl View for Game {
    type V = GameView;

    closed spec fn view(&self) -> GameView {
        GameView {
            board: self.board@,
            active: self.active_piece@,
            held: self.held_piece,
            sequence: self.sequence@,
            index: self.sequence_index as int,
            over: self.game_over,
        }
    }
}

impl Game {
    /// Structural well-formedness plus the active piece's validity.
    pub open spec fn wf(&self) -> bool {
        &&& game_wf(self@)
        &&& active_valid(self@)
    }

    /// The current board.
    pub fn board(&self) -> (r: &Board)
        ensures
            r@ == self@.board,
    {
        &self.board
    }

    /// The active falling piece.
    pub fn active_piece(&self) -> (r: Piece)
        ensures
            r@ == self@.active,
    {
        self.active_piece
    }

    /// The held piece's type, if one is held.
    pub fn held_piece(&self) -> (r: Option<PieceType>)
        ensures
            r == self@.held,
    {
        self.held_piece
    }

    /// The sequencer cursor: the logical position of the next draw.
    pub fn sequence_index(&self) -> (r: usize)
        ensures
            r == self@.index,
    {
        self.sequence_index
    }

    /// Whether a spawn has failed and the engine stopped accepting
    /// mutating operations.
    pub fn is_game_over(&self) -> (r: bool)
        ensures
            r == self@.over,
    {
        self.game_over
    }

    /// Look ahead without consuming: the type of the `offset`-th upcoming
    /// draw, 0 being the draw the next spawn will take.
    pub fn peek(&self, offset: usize) -> (r: PieceType)
        requires
            game_wf(self@),
        ensures
            r == self@.sequence[(self@.index + offset) % (SEQUENCE_LEN as int)],
    {
        let i = (self.sequence_index + offset % SEQUENCE_LEN) % SEQUENCE_LEN;
        proof {
            vstd::arithmetic::div_mod::lemma_add_mod_noop(self@.index, offset as int,
                SEQUENCE_LEN as int);
            vstd::arithmetic::div_mod::lemma_small_mod(self@.index as nat, SEQUENCE_LEN as nat);
        }
        self.sequence[i]
    }

    /// Build an engine from explicit parts. The active piece must sit in a
    /// valid position on the given board.
    pub fn from_parts(board: Board, active_piece: Piece, held_piece: Option<PieceType>,
        sequence: Vec<PieceType>, sequence_index: usize) -> (r: Game)
        requires
            board.wf(),
            active_piece@.wf(),
            active_piece@.block == block_of(active_piece@.shape),
            sequence@.len() == SEQUENCE_LEN,
            bag_fair(sequence@),
            sequence_index < SEQUENCE_LEN,
            !invalid_state(active_piece@, board@),
        ensures
            r.wf(),
            r@ == (GameView {
                board: board@,
                active: active_piece@,
                held: held_piece,
                sequence: sequence@,
                index: sequence_index as int,
                over: false,
            }),
    {
        proof {
            lemma_in_bounds_position(active_piece@);
        }
        Game { sequence_index, sequence, active_piece, held_piece, board, game_over: false }
    }

    /// Try to move the active piece one cell to the left; a no-op when the
    /// moved position would be invalid.
    pub fn try_and_move_left(self: &mut Game)
        requires
            game_wf(old(self)@),
        ensures
            game_wf(final(self)@),
            final(self)@ == try_shift_spec(old(self)@, -1, 0),
            active_valid(old(self)@) ==> active_valid(final(self)@),
    {
        if self.game_over {
            return;
        }
        self.active_piece.position.x = self.active_piece.position.x - 1;
        if is_invalid_state(&self.active_piece, &self.board) {
            self.active_piece.position.x = self.active_piece.position.x + 1;
        } else {
            proof { lemma_in_bounds_position(self@.active); }
        }
    }

    /// Try to move the active piece one cell to the right; a no-op when the
    /// moved position would be invalid.
    pub fn try_and_move_right(self: &mut Game)
        requires
            game_wf(old(self)@),
        ensures
            game_wf(final(self)@),
            final(self)@ == try_shift_spec(old(self)@, 1, 0),
            active_valid(old(self)@) ==> active_valid(final(self)@),
    {
        if self.game_over {
            return;
        }
        self.active_piece.position.x = self.active_piece.position.x + 1;
        if is_invalid_state(&self.active_piece, &self.board) {
            self.active_piece.position.x = self.active_piece.position.x - 1;
        } else {
            proof { lemma_in_bounds_position(self@.active); }
        }
    }

    /// Try to move the active piece one cell down; a no-op when the moved
    /// position would be invalid.
    pub fn try_and_move_down(self: &mut Game)
        requires
            game_wf(old(self)@),
        ensures
            game_wf(final(self)@),
            final(self)@ == try_shift_spec(old(self)@, 0, 1),
            active_valid(old(self)@) ==> active_valid(final(self)@),
    {
        if self.game_over {
            return;
        }
        self.active_piece.position.y = self.active_piece.position.y + 1;
        if is_invalid_state(&self.active_piece, &self.board) {
            self.active_piece.position.y = self.active_piece.position.y - 1;
        } else {
            proof { lemma_in_bounds_position(self@.active); }
        }
    }

    /// Kick candidate: one cell up.
    fn try_and_move_up(self: &mut Game)
        requires
            game_wf(old(self)@),
        ensures
            game_wf(final(self)@),
            final(self)@ == try_shift_spec(old(self)@, 0, -1),
            active_valid(old(self)@) ==> active_valid(final(self)@),
    {
        if self.game_over {
            return;
        }
        self.active_piece.position.y = self.active_piece.position.y - 1;
        if is_invalid_state(&self.active_piece, &self.board) {
            self.active_piece.position.y = self.active_piece.position.y + 1;
        } else {
            proof { lemma_in_bounds_position(self@.active); }
        }
    }

    /// Kick candidate: one cell up and one to the left.
    fn try_and_move_up_left(self: &mut Game)
        requires
            game_wf(old(self)@),
        ensures
            game_wf(final(self)@),
            final(self)@ == try_shift_spec(old(self)@, -1, -1),
            active_valid(old(self)@) ==> active_valid(final(self)@),
    {
        if self.game_over {
            return;
        }
        self.active_piece.position.y = self.active_piece.position.y - 1;
        self.active_piece.position.x = self.active_piece.position.x - 1;
        if is_invalid_state(&self.active_piece, &self.board) {
            self.active_piece.position.y = self.active_piece.position.y + 1;
            self.active_piece.position.x = self.active_piece.position.x + 1;
        } else {
            proof { lemma_in_bounds_position(self@.active); }
        }
    }

    /// Kick candidate: one cell up and one to the right.
    fn try_and_move_up_right(self: &mut Game)
        requires
            game_wf(old(self)@),
        ensures
            game_wf(final(self)@),
            final(self)@ == try_shift_spec(old(self)@, 1, -1),
            active_valid(old(self)@) ==> active_valid(final(self)@),
    {
        if self.game_over {
            return;
        }
        self.active_piece.position.y = self.active_piece.position.y - 1;
        self.active_piece.position.x = self.active_piece.position.x + 1;
        if is_invalid_state(&self.active_piece, &self.board) {
            self.active_piece.position.y = self.active_piece.position.y + 1;
            self.active_piece.position.x = self.active_piece.position.x - 1;
        } else {
            proof { lemma_in_bounds_position(self@.active); }
        }
    }

    /// Kick candidate: one cell down and one to the left.
    fn try_and_move_down_left(self: &mut Game)
        requires
            game_wf(old(self)@),
        ensures
            game_wf(final(self)@),
            final(self)@ == try_shift_spec(old(self)@, -1, 1),
            active_valid(old(self)@) ==> active_valid(final(self)@),
    {
        if self.game_over {
            return;
        }
        self.active_piece.position.y = self.active_piece.position.y + 1;
        self.active_piece.position.x = self.active_piece.position.x - 1;
        if is_invalid_state(&self.active_piece, &self.board) {
            self.active_piece.position.y = self.active_piece.position.y - 1;
            self.active_piece.position.x = self.active_piece.position.x + 1;
        } else {
            proof { lemma_in_bounds_position(self@.active); }
        }
    }

    /// Kick candidate: one cell down and one to the right.
    fn try_and_move_down_right(self: &mut Game)
        requires
            game_wf(old(self)@),
        ensures
            game_wf(final(self)@),
            final(self)@ == try_shift_spec(old(self)@, 1, 1),
            active_valid(old(self)@) ==> active_valid(final(self)@),
    {
        if self.game_over {
            return;
        }
        self.active_piece.position.y = self.active_piece.position.y + 1;
        self.active_piece.position.x = self.active_piece.position.x + 1;
        if is_invalid_state(&self.active_piece, &self.board) {
            self.active_piece.position.y = self.active_piece.position.y - 1;
            self.active_piece.position.x = self.active_piece.position.x - 1;
        } else {
            proof { lemma_in_bounds_position(self@.active); }
        }
    }

    /// Rotate the active piece clockwise, resolving an invalid rotated
    /// position through the ordered kick candidates; fully reverted when no
    /// candidate fits.
    pub fn rotate_clockwise(self: &mut Game)
        requires
            game_wf(old(self)@),
        ensures
            game_wf(final(self)@),
            final(self)@ == rotate_spec(old(self)@, true),
            active_valid(old(self)@) ==> active_valid(final(self)@),
            !old(self)@.over && !invalid_state(old(self)@.active.rotated_cw(), old(self)@.board)
                ==> final(self)@.active == old(self)@.active.rotated_cw(),
    {
        if self.game_over {
            return;
        }
        self.active_piece.rotate_clockwise();
        if is_invalid_state(&self.active_piece, &self.board) {
            self.try_and_move_left();
        }
        if is_invalid_state(&self.active_piece, &self.board) {
            self.try_and_move_right();
        }
        if is_invalid_state(&self.active_piece, &self.board) {
            self.try_and_move_down();
        }
        if is_invalid_state(&self.active_piece, &self.board) {
            self.try_and_move_down_left();
        }
        if is_invalid_state(&self.active_piece, &self.board) {
            self.try_and_move_up();
        }
        if is_invalid_state(&self.active_piece, &self.board) {
            self.try_and_move_up_right();
        }
        if is_invalid_state(&self.active_piece, &self.board) {
            self.active_piece.rotate_counterclockwise();
        }
        proof {
            reveal_with_fuel(first_fit, 8);
            assert(old(self)@.active.rotated_cw().rotated_ccw() == old(self)@.active);
            assert(self@ == rotate_spec(old(self)@, true));
        }
    }

    /// Rotate the active piece counterclockwise, resolving an invalid
    /// rotated position through the ordered kick candidates; fully reverted
    /// when no candidate fits.
    pub fn rotate_counterclockwise(self: &mut Game)
        requires
            game_wf(old(self)@),
        ensures
            game_wf(final(self)@),
            final(self)@ == rotate_spec(old(self)@, false),
            active_valid(old(self)@) ==> active_valid(final(self)@),
            !old(self)@.over && !invalid_state(old(self)@.active.rotated_ccw(), old(self)@.board)
                ==> final(self)@.active == old(self)@.active.rotated_ccw(),
    {
        if self.game_over {
            return;
        }
        self.active_piece.rotate_counterclockwise();
        if is_invalid_state(&self.active_piece, &self.board) {
            self.try_and_move_left();
        }
        if is_invalid_state(&self.active_piece, &self.board) {
            self.try_and_move_right();
        }
        if is_invalid_state(&self.active_piece, &self.board) {
            self.try_and_move_down();
        }
        if is_invalid_state(&self.active_piece, &self.board) {
            self.try_and_move_down_right();
        }
        if is_invalid_state(&self.active_piece, &self.board) {
            self.try_and_move_up();
        }
        if is_invalid_state(&self.active_piece, &self.board) {
            self.try_and_move_up_left();
        }
        if is_invalid_state(&self.active_piece, &self.board) {
            self.active_piece.rotate_clockwise();
        }
        proof {
            reveal_with_fuel(first_fit, 8);
            assert(old(self)@.active.rotated_ccw().rotated_cw() == old(self)@.active);
            assert(self@ == rotate_spec(old(self)@, false));
        }
    }

    /// Move the piece to the spawn point: the centre column of the top row,
    /// softened one row down when that position is invalid. The softened
    /// position is not guaranteed to be valid either.
    fn move_piece_to_spawn_point(piece: &mut Piece, board: &Board)
        requires
            old(piece)@.wf(),
            board.wf(),
        ensures
            final(piece)@ == at_spawn(old(piece)@, board@),
    {
        let width = board.blocks[0].len();
        proof {
            assert(board@[0].len() == board.blocks@[0]@.len());
        }
        piece.position.x = (width / 2) as i8;
        piece.position.y = 0;
        if is_invalid_state(piece, board) {
            piece.position.y = piece.position.y + 1;
        }
    }

    /// Draw the next piece from the sequence, place it at the spawn point
    /// and advance the cursor, cycling through the stored sequence.
    fn spawn_next_piece(self: &mut Game)
        requires
            game_wf(old(self)@),
        ensures
            game_wf(final(self)@),
            final(self)@ == spawn_spec(old(self)@),
    {
        let a = get_piece_from_sequence(&self.sequence, self.sequence_index);
        proof {
            vstd::arithmetic::div_mod::lemma_small_mod(self@.index as nat, SEQUENCE_LEN as nat);
        }
        self.active_piece = Piece::from_piece_type(&a);
        Game::move_piece_to_spawn_point(&mut self.active_piece, &self.board);
        self.sequence_index = (self.sequence_index + 1) % SEQUENCE_LEN;
    }

    /// Write the piece's four cells into the board with the piece's tag.
    fn stick_piece_to_board(piece: &Piece, board: &mut Board)
        requires
            piece@.wf(),
            old(board).wf(),
            in_bounds(piece@),
        ensures
            final(board).wf(),
            final(board)@ == board_with_piece(old(board)@, piece@),
    {
        proof {
            assert forall|k: int| 0 <= k < 4 implies {
                let c = #[trigger] piece@.cells()[k];
                0 <= c.1 < board.blocks@.len() && 0 <= c.0 < board.blocks@[c.1]@.len()
            } by {
                let c = piece@.cells()[k];
                assert(0 <= c.0 < BOARD_WIDTH && 0 <= c.1 < BOARD_HEIGHT);
                assert(board@[c.1].len() == board.blocks@[c.1]@.len());
            }
        }
        stick_piece_to_grid(piece, &mut board.blocks);
        proof {
            let b = board_with_piece(old(board)@, piece@);
            assert(board_wf(b)) by {
                assert(forall|y: int| 0 <= y < b.len() ==> (#[trigger] b[y]).len() == BOARD_WIDTH);
            }
        }
    }

    /// Collapse every full row: rows that are not full keep their order at
    /// the bottom and as many empty rows enter at the top, so several
    /// simultaneously full rows collapse in one pass.
    fn clear_full_lines(board: &mut Board)
        requires
            old(board).wf(),
        ensures
            final(board).wf(),
            final(board)@ == collapse_rows(old(board)@),
    {
        let ghost orig = board@;
        let mut kept: Vec<Vec<Block>> = Vec::new();
        let mut y: usize = 0;
        proof {
            reveal(Seq::filter);
            assert(orig.subrange(0, 0) =~= Seq::<Seq<BlockType>>::empty());
            assert(grid_view(kept@) =~= kept_rows(orig.subrange(0, 0)));
        }
        while y < BOARD_HEIGHT
            invariant
                board.wf(),
                board@ == orig,
                y <= BOARD_HEIGHT,
                grid_view(kept@) == kept_rows(orig.subrange(0, y as int)),
                forall|i: int| 0 <= i < kept@.len() ==> (#[trigger] kept@[i])@.len() == BOARD_WIDTH,
            decreases BOARD_HEIGHT - y,
        {
            let mut full = true;
            let mut x: usize = 0;
            while x < BOARD_WIDTH
                invariant
                    board.wf(),
                    board@ == orig,
                    y < BOARD_HEIGHT,
                    x <= BOARD_WIDTH,
                    full <==> (forall|j: int| 0 <= j < x ==> orig[y as int][j] != BlockType::Empty),
                decreases BOARD_WIDTH - x,
            {
                proof {
                    assert(orig[y as int][x as int]
                        == board.blocks@[y as int]@[x as int].block_type);
                }
                if board.blocks[y][x].block_type == BlockType::Empty {
                    full = false;
                }
                x = x + 1;
            }
            assert(full == row_full(orig[y as int]));
            let ghost pre = kept@;
            if !full {
                let row = crate::board::copy_row(&board.blocks[y]);
                kept.push(row);
            }
            proof {
                reveal(Seq::filter);
                let s1 = orig.subrange(0, y as int);
                let s2 = orig.subrange(0, y + 1);
                assert(s2.drop_last() =~= s1);
                assert(s2.last() == orig[y as int]);
                if full {
                    assert(kept_rows(s2) == kept_rows(s1));
                } else {
                    assert(kept_rows(s2) == kept_rows(s1).push(orig[y as int]));
                    assert(grid_view(kept@) =~= grid_view(pre).push(
                        Seq::new(kept@[pre.len() as int]@.len() as nat,
                            |x: int| kept@[pre.len() as int]@[x].block_type)));
                    assert(Seq::new(kept@[pre.len() as int]@.len() as nat,
                        |x: int| kept@[pre.len() as int]@[x].block_type) =~= orig[y as int]);
                    assert(grid_view(kept@) =~= kept_rows(s2));
                }
            }
            y = y + 1;
        }
        proof {
            assert(orig.subrange(0, BOARD_HEIGHT as int) =~= orig);
            orig.lemma_filter_len(crate::board::not_full_pred());
        }
        let ghost kept_v = grid_view(kept@);
        let n_empty: usize = BOARD_HEIGHT - kept.len();
        let mut rows: Vec<Vec<Block>> = Vec::new();
        while rows.len() < n_empty
            invariant
                rows@.len() <= n_empty,
                forall|i: int| 0 <= i < rows@.len() ==> (#[trigger] rows@[i])@
                    == Seq::new(BOARD_WIDTH as nat, |x: int| Block { block_type: BlockType::Empty }),
            decreases n_empty - rows.len(),
        {
            rows.push(crate::board::empty_row_vec());
        }
        let ghost pre_append = rows@;
        let ghost kept_rows_v = kept@;
        rows.append(&mut kept);
        board.blocks = rows;
        proof {
            assert(board@ =~~= collapse_rows(orig)) by {
                let col = collapse_rows(orig);
                assert(kept_v == kept_rows(orig));
                assert(board@.len() == col.len());
                assert forall|i: int| 0 <= i < col.len() implies board@[i] =~= col[i] by {
                    if i < n_empty {
                        assert(board.blocks@[i] == pre_append[i]);
                        assert(board@[i] =~= empty_row());
                        assert(col[i] == empty_row());
                    } else {
                        assert(board.blocks@[i] == kept_rows_v[i - n_empty]);
                        assert(board@[i] =~= kept_v[i - n_empty]);
                        assert(col[i] == kept_v[i - n_empty]);
                    }
                }
            }
            assert(board.wf()) by {
                assert(forall|i: int| 0 <= i < board@.len()
                    ==> (#[trigger] board@[i]).len() == BOARD_WIDTH);
            }
        }
    }

    /// Lock the active piece: write its cells into the board and collapse
    /// full rows.
    fn stick_current_piece(self: &mut Game)
        requires
            game_wf(old(self)@),
            in_bounds(old(self)@.active),
        ensures
            game_wf(final(self)@),
            final(self)@ == (GameView {
                board: collapse_rows(board_with_piece(old(self)@.board, old(self)@.active)),
                ..old(self)@
            }),
    {
        Game::stick_piece_to_board(&self.active_piece, &mut self.board);
        Game::clear_full_lines(&mut self.board);
    }

    /// One gravity step: move the active piece down one cell; when it
    /// cannot move, lock it, collapse full rows and spawn the next piece,
    /// reporting `GameOver` when the spawn is invalid.
    pub fn move_down_and_stick(self: &mut Game) -> (r: MoveOutcome)
        requires
            old(self).wf(),
        ensures
            final(self).wf(),
            final(self)@ == tick_spec(old(self)@).0,
            r == tick_spec(old(self)@).1,
    {
        if self.game_over {
            return MoveOutcome::GameOver;
        }
        proof {
            lemma_in_bounds_position(self@.active);
        }
        self.active_piece.position.y = self.active_piece.position.y + 1;
        if is_invalid_state(&self.active_piece, &self.board) {
            self.active_piece.position.y = self.active_piece.position.y - 1;
            self.stick_current_piece();
            self.spawn_next_piece();
            if is_invalid_state(&self.active_piece, &self.board) {
                self.game_over = true;
                return MoveOutcome::GameOver;
            } else {
                return MoveOutcome::SpawnedNewPiece;
            }
        }
        proof {
            lemma_in_bounds_position(self@.active);
        }
        MoveOutcome::NothingSpecial
    }

    /// Hard drop: run the active piece straight down to its resting
    /// position, then lock, collapse and spawn exactly as a gravity step
    /// does; never returns `NothingSpecial`.
    pub fn slam(self: &mut Game) -> (r: MoveOutcome)
        requires
            old(self).wf(),
        ensures
            final(self).wf(),
            old(self)@.over ==> final(self)@ == old(self)@ && r == MoveOutcome::GameOver,
            !old(self)@.over ==> exists|y: int| {
                &&& #[trigger] rests_at(old(self)@.active, old(self)@.board, y)
                &&& final(self)@ == lock_and_spawn_spec(
                    GameView { active: old(self)@.active.at_y(y), ..old(self)@ })
                &&& r == (if final(self)@.over { MoveOutcome::GameOver }
                    else { MoveOutcome::SpawnedNewPiece })
            },
    {
        if self.game_over {
            return MoveOutcome::GameOver;
        }
        proof {
            lemma_in_bounds_position(self@.active);
        }
        loop
            invariant
                !old(self)@.over,
                game_wf(old(self)@),
                game_wf(self@),
                !self@.over,
                !invalid_state(self@.active, self@.board),
                self@.active == old(self)@.active.at_y(self@.active.y),
                old(self)@.active.y <= self@.active.y <= 20,
                forall|yy: int| old(self)@.active.y <= yy <= self@.active.y
                    ==> !invalid_state(#[trigger] old(self)@.active.at_y(yy), self@.board),
                self@.board == old(self)@.board,
                self@.held == old(self)@.held,
                self@.sequence == old(self)@.sequence,
                self@.index == old(self)@.index,
            decreases BOARD_HEIGHT + 2 - self@.active.y,
        {
            self.active_piece.position.y = self.active_piece.position.y + 1;
            if is_invalid_state(&self.active_piece, &self.board) {
                self.active_piece.position.y = self.active_piece.position.y - 1;
                let ghost rest = self@.active.y;
                proof {
                    assert(rests_at(old(self)@.active, old(self)@.board, rest));
                }
                self.stick_current_piece();
                self.spawn_next_piece();
                if is_invalid_state(&self.active_piece, &self.board) {
                    self.game_over = true;
                    return MoveOutcome::GameOver;
                } else {
                    return MoveOutcome::SpawnedNewPiece;
                }
            }
            proof {
                lemma_in_bounds_position(self@.active);
            }
        }
    }

    /// Hold: store or swap the active piece's type and spawn its
    /// replacement at the spawn point. Holding repeatedly is allowed; each
    /// call swaps again.
    pub fn hold_piece(self: &mut Game)
        requires
            old(self).wf(),
        ensures
            final(self).wf(),
            final(self)@ == hold_spec(old(self)@),
    {
        if self.game_over {
            return;
        }
        match self.held_piece {
            None => {
                self.held_piece = Some(PieceType::from_block_type(&self.active_piece.block_type));
                self.spawn_next_piece();
                if is_invalid_state(&self.active_piece, &self.board) {
                    self.game_over = true;
                }
            }
            Some(held_piece) => {
                let new_active_piece = Piece::from_piece_type(&held_piece);
                self.held_piece = Some(PieceType::from_block_type(&self.active_piece.block_type));
                self.active_piece = new_active_piece;
                Game::move_piece_to_spawn_point(&mut self.active_piece, &self.board);
                if is_invalid_state(&self.active_piece, &self.board) {
                    self.game_over = true;
                }
            }
        }
    }

    /// A fresh game: an empty board, an empty hold slot, a fair sequence
    /// drawn from the given seed, and the first draw placed at the spawn
    /// point.
    pub fn new(seed: u64) -> (game: Game)
        ensures
            game.wf(),
            game@.board == empty_board(),
            game@.held is None,
            game@.index == 1,
            game@.active == spawned_piece(game@.sequence[0], empty_board()),
            game@.over == invalid_state(game@.active, empty_board()),
    {
        let board = Board::empty();
        let sequence_index: usize = 0;
        let mut rng = rng_from_seed(seed);
        let sequence = make_piece_sequence(&mut rng);
        let active_piece = Piece::from_piece_type(&PieceType::I);
        let mut game = Game {
            sequence_index,
            sequence,
            active_piece,
            held_piece: None,
            board,
            game_over: false,
        };
        game.spawn_next_piece();
        if is_invalid_state(&game.active_piece, &game.board) {
            game.game_over = true;
        }
        game
    }
}

/// Law: rotating the active piece 4 times in the same direction, on a board
/// where every rotation state at the same pivot is valid (so no kick
/// fires), returns the engine to exactly its original state.
pub proof fn lemma_rotation_closure(g: GameView, cw: bool)
    requires
        !g.over,
        0 <= g.active.rotation < 4,
        forall|r: int| 0 <= r < 4
            ==> !invalid_state(#[trigger] g.active.with_rotation(r), g.board),
    ensures
        rotate_spec(rotate_spec(rotate_spec(rotate_spec(g, cw), cw), cw), cw) == g,
{
    let p = g.active;
    let d: int = if cw { 1 } else { 3 };
    let r0 = p.rotation;
    let r1 = (r0 + d) % 4;
    let r2 = (r1 + d) % 4;
    let r3 = (r2 + d) % 4;
    let r4 = (r3 + d) % 4;
    assert(0 <= r1 < 4 && 0 <= r2 < 4 && 0 <= r3 < 4 && r4 == r0);

    let g1 = rotate_spec(g, cw);
    assert((if cw { g.active.rotated_cw() } else { g.active.rotated_ccw() })
        == p.with_rotation(r1));
    assert(!invalid_state(p.with_rotation(r1), g.board));
    lemma_rotate_no_kick(g, cw);

    let g2 = rotate_spec(g1, cw);
    assert((if cw { g1.active.rotated_cw() } else { g1.active.rotated_ccw() })
        == p.with_rotation(r2));
    assert(!invalid_state(p.with_rotation(r2), g.board));
    lemma_rotate_no_kick(g1, cw);

    let g3 = rotate_spec(g2, cw);
    assert((if cw { g2.active.rotated_cw() } else { g2.active.rotated_ccw() })
        == p.with_rotation(r3));
    assert(!invalid_state(p.with_rotation(r3), g.board));
    lemma_rotate_no_kick(g2, cw);

    let g4 = rotate_spec(g3, cw);
    assert((if cw { g3.active.rotated_cw() } else { g3.active.rotated_ccw() })
        == p.with_rotation(r4));
    assert(!invalid_state(p.with_rotation(r4), g.board));
    lemma_rotate_no_kick(g3, cw);

    assert(g4.active == p.with_rotation(r0));
    assert(p.with_rotation(r0) == p);
    assert(g4 == g);
}

/// When the plainly rotated position is itself valid, a rotation commits it
/// with no translation.
proof fn lemma_rotate_no_kick(g: GameView, cw: bool)
    requires
        !g.over,
        !invalid_state(if cw { g.active.rotated_cw() } else { g.active.rotated_ccw() }, g.board),
    ensures
        rotate_spec(g, cw) == (GameView {
            active: if cw { g.active.rotated_cw() } else { g.active.rotated_ccw() },
            ..g
        }),
{
    reveal_with_fuel(first_fit, 2);
    let rp = if cw { g.active.rotated_cw() } else { g.active.rotated_ccw() };
    assert(rp.shifted(0, 0) == rp);
    assert(first_fit(rp, g.board, kick_candidates(cw)) == Some(rp));
}

/// Law: holding with an empty slot stores the active piece's type and
/// spawns the next draw; holding again swaps the stored type back in as the
/// active piece and stores the type drawn by the first hold. Repeated holds
/// are allowed, not guarded.
pub proof fn lemma_hold_swap(g: GameView)
    requires
        game_wf(g),
        !g.over,
        g.held is None,
        !hold_spec(g).over,
    ensures
        hold_spec(g).held == Some(g.active.shape),
        hold_spec(g).active.shape == g.sequence[g.index],
        hold_spec(hold_spec(g)).active.shape == g.active.shape,
        hold_spec(hold_spec(g)).held == Some(g.sequence[g.index]),
{
    let g1 = hold_spec(g);
    assert(g1.active == spawned_piece(g.sequence[g.index], g.board));
    assert(g1.active.shape == g.sequence[g.index]);
    assert(hold_spec(g1).active == spawned_piece(g.active.shape, g1.board));
}

/// An empty grid of the given dimensions.
pub open spec fn small_board(height: int, width: int) -> Seq<Seq<BlockType>> {
    Seq::new(height as nat, |y: int| Seq::new(width as nat, |x: int| BlockType::Empty))
}

/// The row at which the piece, falling straight down, comes to rest.
pub open spec fn rest_y(p: PieceView, b: Seq<Seq<BlockType>>) -> int {
    choose|y: int| rests_at(p, b, y)
}

/// The ghost piece of an engine state: the active piece retagged with the
/// ghost tag at its resting row.
pub open spec fn ghost_of(g: GameView) -> PieceView {
    PieceView { block: BlockType::Shadow, ..g.active.at_y(rest_y(g.active, g.board)) }
}

/// The board of a presentation snapshot: the ghost's cells overlaid first,
/// the active piece's cells second, so the active piece covers the ghost
/// where the two overlap.
pub open spec fn snapshot_board_spec(g: GameView) -> Seq<Seq<BlockType>> {
    board_with_piece(board_with_piece(g.board, ghost_of(g)), g.active)
}

/// The held-piece display grid: 5 rows of 6 cells, showing the held type,
/// if any, at a fixed offset.
pub open spec fn held_board_spec(held: Option<PieceType>) -> Seq<Seq<BlockType>> {
    match held {
        None => small_board(5, 6),
        Some(t) => board_with_piece(small_board(5, 6),
            PieceView { shape: t, block: block_of(t), x: 2, y: 2, rotation: 0 }),
    }
}

/// The piece shown in preview slot `slot`: the `slot`-th upcoming draw, at
/// a fixed column and one fixed row per slot.
pub open spec fn preview_piece(s: Seq<PieceType>, index: int, slot: int) -> PieceView {
    PieceView {
        shape: s[(index + slot) % s.len() as int],
        block: block_of(s[(index + slot) % s.len() as int]),
        x: 2,
        y: 2 + 4 * slot,
        rotation: 0,
    }
}

/// The next-pieces display grid: 16 rows of 6 cells, showing the next 4
/// upcoming draws in 4 fixed slots.
pub open spec fn next_board_spec(s: Seq<PieceType>, index: int) -> Seq<Seq<BlockType>> {
    board_with_piece(board_with_piece(board_with_piece(board_with_piece(
        small_board(16, 6),
        preview_piece(s, index, 0)),
        preview_piece(s, index, 1)),
        preview_piece(s, index, 2)),
        preview_piece(s, index, 3))
}

/// The read-only presentation snapshot: the board with the active and ghost
/// pieces overlaid, the next-pieces preview grid and the held-piece grid.
pub struct RenderState {
    pub board: Board,
    pub next_pieces_board: NextPiecesBoard,
    pub held_piece_board: HeldPieceBoard,
}

/// The fixed-size display grid for the held piece.
pub struct HeldPieceBoard {
    pub blocks: Vec<Vec<Block>>,
}

impl View for HeldPieceBoard {
    type V = Seq<Seq<BlockType>>;

    open spec fn view(&self) -> Seq<Seq<BlockType>> {
        grid_view(self.blocks@)
    }
}

/// The fixed-size display grid for the next-pieces preview.
pub struct NextPiecesBoard {
    pub blocks: Vec<Vec<Block>>,
}

impl View for NextPiecesBoard {
    type V = Seq<Seq<BlockType>>;

    open spec fn view(&self) -> Seq<Seq<BlockType>> {
        grid_view(self.blocks@)
    }
}

/// An empty display grid of the given dimensions.
fn empty_grid(height: usize, width: usize) -> (r: Vec<Vec<Block>>)
    ensures
        grid_view(r@) == small_board(height as int, width as int),
        r@.len() == height,
        forall|i: int| 0 <= i < r@.len() ==> (#[trigger] r@[i])@.len() == width,
{
    let mut rows: Vec<Vec<Block>> = Vec::new();
    while rows.len() < height
        invariant
            rows@.len() <= height,
            forall|i: int| 0 <= i < rows@.len() ==> (#[trigger] rows@[i])@
                == Seq::new(width as nat, |x: int| Block { block_type: BlockType::Empty }),
        decreases height - rows.len(),
    {
        let mut row: Vec<Block> = Vec::new();
        while row.len() < width
            invariant
                row@.len() <= width,
                forall|x: int| 0 <= x < row@.len() ==> #[trigger] row@[x]
                    == (Block { block_type: BlockType::Empty }),
            decreases width - row.len(),
        {
            row.push(Block { block_type: BlockType::Empty });
        }
        proof {
            assert(row@ =~= Seq::new(width as nat, |x: int| Block { block_type: BlockType::Empty }));
        }
        rows.push(row);
    }
    proof {
        assert(grid_view(rows@) =~~= small_board(height as int, width as int)) by {
            assert forall|y: int| 0 <= y < rows@.len()
                implies grid_view(rows@)[y] =~= small_board(height as int, width as int)[y] by {
            }
        }
    }
    rows
}

/// Place a fresh piece of type `t` in rotation state 0 at column 2, row
/// `y`, writing its cells into the display grid.
fn place_display_piece(rows: &mut Vec<Vec<Block>>, t: PieceType, y: i8)
    requires
        forall|i: int| 0 <= i < old(rows)@.len() ==> (#[trigger] old(rows)@[i])@.len() == 6,
        1 <= y as int,
        y as int + 1 < old(rows)@.len(),
    ensures
        grid_view(final(rows)@) == board_with_piece(grid_view(old(rows)@),
            (PieceView { shape: t, block: block_of(t), x: 2, y: y as int, rotation: 0 })),
        final(rows)@.len() == old(rows)@.len(),
        forall|i: int| 0 <= i < final(rows)@.len()
            ==> (#[trigger] final(rows)@[i])@.len() == old(rows)@[i]@.len(),
{
    let mut piece = Piece::from_piece_type(&t);
    piece.position.x = 2;
    piece.position.y = y;
    proof {
        assert forall|k: int| 0 <= k < 4 implies {
            let c = #[trigger] piece@.cells()[k];
            0 <= c.1 < rows@.len() && 0 <= c.0 < rows@[c.1]@.len()
        } by {
            lemma_offsets_bounded(t, 0, k);
            crate::pieces::lemma_spawn_offsets_y(t, k);
        }
    }
    stick_piece_to_grid(&piece, rows);
}

impl HeldPieceBoard {
    /// The display grid for the held slot: empty, or showing the held type
    /// at its fixed offset.
    pub fn from_piece_type(maybe_piece_type: &Option<PieceType>) -> (r: HeldPieceBoard)
        ensures
            r@ == held_board_spec(*maybe_piece_type),
    {
        let mut blocks = empty_grid(5, 6);
        match maybe_piece_type {
            None => {}
            Some(piece_type) => {
                place_display_piece(&mut blocks, *piece_type, 2);
            }
        }
        HeldPieceBoard { blocks }
    }
}

impl NextPiecesBoard {
    /// The display grid for the next 4 upcoming draws, read by look-ahead:
    /// the stored sequence is cycled, never indexed past its end.
    pub fn from_sequence(sequence: &Vec<PieceType>, sequence_index: &usize) -> (r: NextPiecesBoard)
        requires
            sequence@.len() == SEQUENCE_LEN,
        ensures
            r@ == next_board_spec(sequence@, *sequence_index as int),
    {
        let normalized_index: usize = *sequence_index % sequence.len();
        let mut blocks = empty_grid(16, 6);
        let mut slot: usize = 0;
        while slot < 4
            invariant
                sequence@.len() == SEQUENCE_LEN,
                normalized_index == *sequence_index as int % (SEQUENCE_LEN as int),
                slot <= 4,
                forall|i: int| 0 <= i < blocks@.len() ==> (#[trigger] blocks@[i])@.len() == 6,
                blocks@.len() == 16,
                grid_view(blocks@) == preview_upto(sequence@, *sequence_index as int, slot as int),
            decreases 4 - slot,
        {
            let idx = (normalized_index + slot) % sequence.len();
            let t = sequence[idx];
            proof {
                vstd::arithmetic::div_mod::lemma_add_mod_noop(*sequence_index as int,
                    slot as int, SEQUENCE_LEN as int);
                vstd::arithmetic::div_mod::lemma_small_mod(slot as nat, SEQUENCE_LEN as nat);
                assert(t == preview_piece(sequence@, *sequence_index as int, slot as int).shape);
            }
            let y: i8 = 2 + 4 * (slot as i8);
            place_display_piece(&mut blocks, t, y);
            slot = slot + 1;
        }
        proof {
            reveal_with_fuel(preview_upto, 5);
            assert(grid_view(blocks@) == next_board_spec(sequence@, *sequence_index as int));
        }
        NextPiecesBoard { blocks }
    }
}

/// The preview grid after the first `n` slots have been drawn.
spec fn preview_upto(s: Seq<PieceType>, index: int, n: int) -> Seq<Seq<BlockType>>
    decreases n,
{
    if n <= 0 {
        small_board(16, 6)
    } else {
        board_with_piece(preview_upto(s, index, n - 1), preview_piece(s, index, n - 1))
    }
}

impl Game {
    /// Compose the read-only presentation snapshot: the board overlaid with
    /// the ghost then the active piece, the preview grid of the next 4
    /// draws, and the held-piece grid. The engine state is not touched: the
    /// snapshot is a pure function of it.
    pub fn render_state(self: &Game) -> (r: RenderState)
        requires
            self.wf(),
            !self@.over,
        ensures
            r.board@ == snapshot_board_spec(self@),
            r.next_pieces_board@ == next_board_spec(self@.sequence, self@.index),
            r.held_piece_board@ == held_board_spec(self@.held),
    {
        let ghost_piece = calculate_and_create_ghost_piece(&self.active_piece, &self.board);
        let next_pieces_board = NextPiecesBoard::from_sequence(&self.sequence, &self.sequence_index);
        let held_piece_board = HeldPieceBoard::from_piece_type(&self.held_piece);
        let mut board = self.board.duplicate();
        proof {
            vstd::arithmetic::div_mod::lemma_small_mod(self@.index as nat, SEQUENCE_LEN as nat);
            lemma_rests_at_unique(self@.active, self@.board, ghost_piece@.y,
                rest_y(self@.active, self@.board));
            assert(ghost_piece@ == ghost_of(self@));
            lemma_validity_ignores_block(ghost_piece@, self@.active.at_y(ghost_piece@.y),
                self@.board);
            assert(in_bounds(ghost_piece@));
            lemma_in_bounds_position(self@.active);
        }
        Game::stick_piece_to_board(&ghost_piece, &mut board);
        Game::stick_piece_to_board(&self.active_piece, &mut board);
        RenderState { board, held_piece_board, next_pieces_board }
    }
}

/// Project where the active piece would rest if dropped straight down: a
/// copy of the piece, tagged as the ghost, moved down to the last valid
/// position. Neither the piece nor the board is changed.
pub fn calculate_and_create_ghost_piece(piece: &Piece, board: &Board) -> (r: Piece)
    requires
        piece@.wf(),
        board.wf(),
        !invalid_state(piece@, board@),
    ensures
        r@ == (PieceView { block: BlockType::Shadow, ..piece@ }).at_y(r@.y),
        rests_at(piece@, board@, r@.y),
{
    proof {
        lemma_in_bounds_position(piece@);
        lemma_validity_ignores_block(PieceView { block: BlockType::Shadow, ..piece@ }, piece@,
            board@);
    }
    let mut ghost_piece = *piece;
    ghost_piece.block_type = BlockType::Shadow;
    loop
        invariant
            piece@.wf(),
            board.wf(),
            ghost_piece@ == (PieceView { block: BlockType::Shadow, ..piece@ }).at_y(
                ghost_piece@.y),
            piece@.y <= ghost_piece@.y <= 20,
            forall|yy: int| piece@.y <= yy <= ghost_piece@.y
                ==> !invalid_state(#[trigger] piece@.at_y(yy), board@),
        ensures
            rests_at(piece@, board@, ghost_piece@.y),
        decreases BOARD_HEIGHT + 2 - ghost_piece@.y,
    {
        ghost_piece.position.y = ghost_piece.position.y + 1;
        proof {
            lemma_validity_ignores_block(ghost_piece@, piece@.at_y(ghost_piece@.y), board@);
        }
        if is_invalid_state(&ghost_piece, board) {
            ghost_piece.position.y = ghost_piece.position.y - 1;
            break;
        }
        proof {
            lemma_in_bounds_position(ghost_piece@);
        }
    }
    ghost_piece
}

} // verus!
