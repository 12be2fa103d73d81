//! The fixed 10-wide by 20-tall board, and the collision predicates that are
//! the sole authority for the legality of a piece position.

use vstd::prelude::*;
use crate::pieces::{BlockType, Piece, PieceView};

verus! {

pub const BOARD_WIDTH: usize = 10;

pub const BOARD_HEIGHT: usize = 20;

/// One board cell.
#[derive(Clone, Copy, Debug, PartialEq, Eq, Structural)]
pub struct Block {
    pub block_type: BlockType,
}

/// The playing field: `BOARD_HEIGHT` rows of `BOARD_WIDTH` cells each,
/// row 0 at the top.
#[derive(Debug)]
pub struct Board {
    pub blocks: Vec<Vec<Block>>,
}

/// The model of a grid of cells: the tag held at each position.
pub open spec fn grid_view(rows: Seq<Vec<Block>>) -> Seq<Seq<BlockType>> {
    Seq::new(rows.len(), |y: int| Seq::new(rows[y]@.len(),
        |x: int| rows[y]@[x].block_type))
}

impl View for Board {
    type V = Seq<Seq<BlockType>>;

    open spec fn view(&self) -> Seq<Seq<BlockType>> {
        grid_view(self.blocks@)
    }
}

/// A board model has exactly the fixed dimensions.
pub open spec fn board_wf(b: Seq<Seq<BlockType>>) -> bool {
    &&& b.len() == BOARD_HEIGHT
    &&& forall|y: int| 0 <= y < b.len() ==> (#[trigger] b[y]).len() == BOARD_WIDTH
}

/// A row of empty cells.
pub open spec fn empty_row() -> Seq<BlockType> {
    Seq::new(BOARD_WIDTH as nat, |x: int| BlockType::Empty)
}

/// The board with every cell empty.
pub open spec fn empty_board() -> Seq<Seq<BlockType>> {
    Seq::new(BOARD_HEIGHT as nat, |y: int| empty_row())
}

/// Every cell of the piece lies inside a grid of the given dimensions.
pub open spec fn cells_within(p: PieceView, height: int, width: int) -> bool {
    forall|k: int| 0 <= k < 4 ==> {
        let c = #[trigger] p.cells()[k];
        0 <= c.0 < width && 0 <= c.1 < height
    }
}

/// Every cell of the piece lies inside the board.
pub open spec fn in_bounds(p: PieceView) -> bool {
    cells_within(p, BOARD_HEIGHT as int, BOARD_WIDTH as int)
}

/// Some cell of the piece lands on a non-empty board cell.
pub open spec fn overlaps_filled(p: PieceView, b: Seq<Seq<BlockType>>) -> bool {
    exists|k: int| 0 <= k < 4 && {
        let c = #[trigger] p.cells()[k];
        b[c.1][c.0] != BlockType::Empty
    }
}

/// The combined validity test: a piece position is invalid when it is out of
/// bounds or overlaps a filled cell.
pub open spec fn invalid_state(p: PieceView, b: Seq<Seq<BlockType>>) -> bool {
    !in_bounds(p) || overlaps_filled(p, b)
}

/// The board with the piece's four cells written with the piece's tag.
pub open spec fn board_with_piece(b: Seq<Seq<BlockType>>, p: PieceView) -> Seq<Seq<BlockType>> {
    Seq::new(b.len(), |y: int| Seq::new(b[y].len(), |x: int|
        if p.cells().contains((x, y)) { p.block } else { b[y][x] }))
}

/// Every cell of the row is filled.
pub open spec fn row_full(r: Seq<BlockType>) -> bool {
    forall|x: int| 0 <= x < r.len() ==> r[x] != BlockType::Empty
}

/// The predicate selecting the rows a collapse keeps: those not full.
pub open spec fn not_full_pred() -> spec_fn(Seq<BlockType>) -> bool {
    |r: Seq<BlockType>| !row_full(r)
}

/// The rows of the board that are not full, in order.
pub open spec fn kept_rows(b: Seq<Seq<BlockType>>) -> Seq<Seq<BlockType>> {
    b.filter(not_full_pred())
}

/// The board after collapsing all full rows: the rows that are not full keep
/// their order at the bottom, and as many empty rows enter at the top.
pub open spec fn collapse_rows(b: Seq<Seq<BlockType>>) -> Seq<Seq<BlockType>> {
    Seq::new((b.len() - kept_rows(b).len()) as nat, |y: int| empty_row()) + kept_rows(b)
}

impl Board {
    /// The board model has the fixed dimensions.
    pub open spec fn wf(&self) -> bool {
        board_wf(self@)
    }

    /// A fresh board with every cell empty.
    pub fn empty() -> (r: Board)
        ensures
            r@ == empty_board(),
            r.wf(),
    {
        let mut blocks: Vec<Vec<Block>> = Vec::new();
        while blocks.len() < BOARD_HEIGHT
            invariant
                blocks@.len() <= BOARD_HEIGHT,
                forall|y: int| 0 <= y < blocks@.len() ==> #[trigger] blocks@[y]@
                    =~= Seq::new(BOARD_WIDTH as nat, |x: int| Block { block_type: BlockType::Empty }),
            decreases BOARD_HEIGHT - blocks.len(),
        {
            blocks.push(empty_row_vec());
        }
        let r = Board { blocks };
        assert(r@ =~= empty_board()) by {
            assert(forall|y: int| 0 <= y < BOARD_HEIGHT ==> #[trigger] r@[y] =~= empty_row());
        }
        r
    }
}

/// A well-formed piece whose cells all lie on the board has its pivot close
/// to the board: the offsets stay within -1 and 2 on both axes.
pub proof fn lemma_in_bounds_position(p: PieceView)
    requires
        p.wf(),
        in_bounds(p),
    ensures
        -2 <= p.x <= 10,
        -2 <= p.y <= 20,
{
    crate::pieces::lemma_offsets_bounded(p.shape, p.rotation, 0);
    assert(p.cells()[0] == (p.x + crate::pieces::offsets(p.shape, p.rotation)[0].0,
        p.y + crate::pieces::offsets(p.shape, p.rotation)[0].1));
}

/// A row of `BOARD_WIDTH` empty cells.
pub(crate) fn empty_row_vec() -> (r: Vec<Block>)
    ensures
        r@ == Seq::new(BOARD_WIDTH as nat, |x: int| Block { block_type: BlockType::Empty }),
{
    let mut row: Vec<Block> = Vec::new();
    while row.len() < BOARD_WIDTH
        invariant
            row@.len() <= BOARD_WIDTH,
            forall|x: int| 0 <= x < row@.len() ==> #[trigger] row@[x]
                == (Block { block_type: BlockType::Empty }),
        decreases BOARD_WIDTH - row.len(),
    {
        row.push(Block { block_type: BlockType::Empty });
    }
    proof {
        assert(row@ =~= Seq::new(BOARD_WIDTH as nat, |x: int| Block { block_type: BlockType::Empty }));
    }
    row
}

/// A cell-for-cell copy of a row.
pub(crate) fn copy_row(row: &Vec<Block>) -> (r: Vec<Block>)
    ensures
        r@ == row@,
{
    let mut r: Vec<Block> = Vec::new();
    let mut i: usize = 0;
    while i < row.len()
        invariant
            i <= row@.len(),
            r@ == row@.subrange(0, i as int),
        decreases row@.len() - i,
    {
        r.push(row[i]);
        proof {
            assert(row@.subrange(0, i as int).push(row@[i as int])
                =~= row@.subrange(0, i + 1));
        }
        i = i + 1;
    }
    proof {
        assert(row@.subrange(0, row@.len() as int) =~= row@);
    }
    r
}

impl Board {
    /// A cell-for-cell copy of the whole board.
    pub fn duplicate(&self) -> (r: Board)
        ensures
            r@ == self@,
    {
        let mut rows: Vec<Vec<Block>> = Vec::new();
        let mut i: usize = 0;
        while i < self.blocks.len()
            invariant
                i <= self.blocks@.len(),
                rows@.len() == i,
                forall|y: int| 0 <= y < i ==> (#[trigger] rows@[y])@ == self.blocks@[y]@,
            decreases self.blocks@.len() - i,
        {
            rows.push(copy_row(&self.blocks[i]));
            i = i + 1;
        }
        let r = Board { blocks: rows };
        proof {
            assert(r@ =~~= self@);
        }
        r
    }
}

/// Write one grid cell.
pub fn set_grid_cell(rows: &mut Vec<Vec<Block>>, x: usize, y: usize, bt: BlockType)
    requires
        y < old(rows)@.len(),
        x < old(rows)@[y as int]@.len(),
    ensures
        grid_view(final(rows)@) == grid_view(old(rows)@).update(y as int,
            grid_view(old(rows)@)[y as int].update(x as int, bt)),
        final(rows)@.len() == old(rows)@.len(),
        forall|i: int| 0 <= i < final(rows)@.len()
            ==> (#[trigger] final(rows)@[i])@.len() == old(rows)@[i]@.len(),
{
    rows[y][x] = Block { block_type: bt };
    proof {
        assert(grid_view(rows@) =~~= grid_view(old(rows)@).update(y as int,
            grid_view(old(rows)@)[y as int].update(x as int, bt)));
    }
}

/// The grid after the first `n` of the piece's cells have been written.
spec fn board_with_piece_upto(b: Seq<Seq<BlockType>>, p: PieceView, n: int) -> Seq<Seq<BlockType>> {
    Seq::new(b.len(), |y: int| Seq::new(b[y].len(), |x: int|
        if exists|k: int| 0 <= k < n && p.cells()[k] == (x, y) { p.block } else { b[y][x] }))
}

/// Write the piece's four cells into the grid with the piece's tag.
pub fn stick_piece_to_grid(piece: &Piece, rows: &mut Vec<Vec<Block>>)
    requires
        piece@.wf(),
        forall|k: int| 0 <= k < 4 ==> {
            let c = #[trigger] piece@.cells()[k];
            0 <= c.1 < old(rows)@.len() && 0 <= c.0 < old(rows)@[c.1]@.len()
        },
    ensures
        grid_view(final(rows)@) == board_with_piece(grid_view(old(rows)@), piece@),
        final(rows)@.len() == old(rows)@.len(),
        forall|i: int| 0 <= i < final(rows)@.len()
            ==> (#[trigger] final(rows)@[i])@.len() == old(rows)@[i]@.len(),
{
    let ghost orig = grid_view(rows@);
    proof {
        assert(grid_view(rows@) =~~= board_with_piece_upto(orig, piece@, 0));
    }
    let offs = piece.blocks();
    let mut k: usize = 0;
    while k < 4
        invariant
            piece@.wf(),
            k <= 4,
            forall|j: int| 0 <= j < 4 ==> ((#[trigger] offs@[j]).x as int, offs@[j].y as int)
                == crate::pieces::offsets(piece@.shape, piece@.rotation)[j],
            forall|j: int| 0 <= j < 4 ==> {
                let c = #[trigger] piece@.cells()[j];
                0 <= c.1 < orig.len() && 0 <= c.0 < orig[c.1].len()
            },
            rows@.len() == old(rows)@.len(),
            forall|i: int| 0 <= i < rows@.len()
                ==> (#[trigger] rows@[i])@.len() == old(rows)@[i]@.len(),
            grid_view(rows@) == board_with_piece_upto(orig, piece@, k as int),
        decreases 4 - k,
    {
        let ghost pre = grid_view(rows@);
        let ghost c = piece@.cells()[k as int];
        assert(c == (piece@.x + offs@[k as int].x, piece@.y + offs@[k as int].y));
        let x: usize = (piece.position.x as i16 + offs[k].x as i16) as usize;
        let y: usize = (piece.position.y as i16 + offs[k].y as i16) as usize;
        proof {
            assert(rows@.len() == grid_view(rows@).len());
            assert(grid_view(rows@).len() == orig.len());
            assert(rows@[y as int]@.len() == grid_view(rows@)[y as int].len());
            assert(grid_view(rows@)[y as int].len() == orig[y as int].len());
        }
        set_grid_cell(rows, x, y, piece.block_type);
        proof {
            assert(grid_view(rows@) =~~= board_with_piece_upto(orig, piece@, k + 1)) by {
                assert forall|yy: int| 0 <= yy < orig.len()
                    implies grid_view(rows@)[yy] =~= board_with_piece_upto(orig, piece@, k + 1)[yy] by {
                    assert forall|xx: int| 0 <= xx < orig[yy].len()
                        implies grid_view(rows@)[yy][xx]
                            == board_with_piece_upto(orig, piece@, k + 1)[yy][xx] by {
                        if (xx, yy) == c {
                            assert(grid_view(rows@)[yy][xx] == piece@.block);
                        } else {
                            assert(grid_view(rows@)[yy][xx] == pre[yy][xx]);
                            assert(forall|j: int| 0 <= j < k + 1 && #[trigger] piece@.cells()[j] == (xx, yy)
                                ==> j < k);
                        }
                    }
                }
            }
        }
        k = k + 1;
    }
    proof {
        assert(board_with_piece_upto(orig, piece@, 4) =~~= board_with_piece(orig, piece@)) by {
            assert forall|yy: int| 0 <= yy < orig.len()
                implies board_with_piece_upto(orig, piece@, 4)[yy] =~= board_with_piece(orig, piece@)[yy] by {
                assert forall|xx: int| 0 <= xx < orig[yy].len()
                    implies board_with_piece_upto(orig, piece@, 4)[yy][xx]
                        == board_with_piece(orig, piece@)[yy][xx] by {
                    assert(piece@.cells().contains((xx, yy))
                        <==> exists|j: int| 0 <= j < 4 && piece@.cells()[j] == (xx, yy));
                }
            }
        }
    }
}

/// True iff some cell of the piece has x < 0, x >= the board width,
/// y < 0, or y >= the board height.
pub fn piece_is_out_of_bounds(piece: &Piece, board: &Board) -> (r: bool)
    requires
        piece@.wf(),
    ensures
        r == !in_bounds(piece@),
{
    let offs = piece.blocks();
    let mut k: usize = 0;
    while k < 4
        invariant
            piece@.wf(),
            k <= 4,
            forall|j: int| 0 <= j < 4 ==> ((#[trigger] offs@[j]).x as int, offs@[j].y as int)
                == crate::pieces::offsets(piece@.shape, piece@.rotation)[j],
            forall|j: int| 0 <= j < k ==> {
                let c = #[trigger] piece@.cells()[j];
                0 <= c.0 < BOARD_WIDTH && 0 <= c.1 < BOARD_HEIGHT
            },
        decreases 4 - k,
    {
        let x: i16 = piece.position.x as i16 + offs[k].x as i16;
        let y: i16 = piece.position.y as i16 + offs[k].y as i16;
        if x < 0 || x >= BOARD_WIDTH as i16 || y < 0 || y >= BOARD_HEIGHT as i16 {
            assert(piece@.cells()[k as int] == (x as int, y as int));
            return true;
        }
        assert(piece@.cells()[k as int] == (x as int, y as int));
        k = k + 1;
    }
    false
}

/// True iff some cell of the piece lands on a non-empty board cell.
/// The piece must already be known to lie inside the board.
pub fn collisions_exist(active_piece: &Piece, board: &Board) -> (r: bool)
    requires
        active_piece@.wf(),
        board.wf(),
        in_bounds(active_piece@),
    ensures
        r == overlaps_filled(active_piece@, board@),
{
    let offs = active_piece.blocks();
    let mut k: usize = 0;
    while k < 4
        invariant
            active_piece@.wf(),
            board.wf(),
            in_bounds(active_piece@),
            k <= 4,
            forall|j: int| 0 <= j < 4 ==> ((#[trigger] offs@[j]).x as int, offs@[j].y as int)
                == crate::pieces::offsets(active_piece@.shape, active_piece@.rotation)[j],
            forall|j: int| 0 <= j < k ==> {
                let c = #[trigger] active_piece@.cells()[j];
                board@[c.1][c.0] == BlockType::Empty
            },
        decreases 4 - k,
    {
        assert(active_piece@.cells()[k as int]
            == (active_piece@.x + offs@[k as int].x, active_piece@.y + offs@[k as int].y));
        let x: i16 = active_piece.position.x as i16 + offs[k].x as i16;
        let y: i16 = active_piece.position.y as i16 + offs[k].y as i16;
        if board.blocks[y as usize][x as usize].block_type != BlockType::Empty {
            return true;
        }
        k = k + 1;
    }
    false
}

/// The combined validity test from the design: out of bounds or overlapping.
pub fn is_invalid_state(piece: &Piece, board: &Board) -> (r: bool)
    requires
        piece@.wf(),
        board.wf(),
    ensures
        r == invalid_state(piece@, board@),
{
    if piece_is_out_of_bounds(piece, board) {
        true
    } else {
        collisions_exist(piece, board)
    }
}

} // verus!
