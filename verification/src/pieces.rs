//! Piece types, rotation tables and the piece model.
//!
//! Each of the 7 piece types has 4 rotation states in clockwise order;
//! each state is a list of 4 cell offsets relative to the piece's pivot.

use vstd::prelude::*;

verus! {

/// The 7 piece shapes.
#[derive(Clone, Copy, Debug, PartialEq, Eq, Structural)]
pub enum PieceType {
    O,
    I,
    L,
    J,
    S,
    Z,
    T,
}

/// What one board cell holds: a locked piece's tag, the ghost preview tag,
/// or nothing.
#[derive(Clone, Copy, Debug, PartialEq, Eq, Structural)]
pub enum BlockType {
    O,
    I,
    L,
    J,
    S,
    Z,
    T,
    Shadow,
    Empty,
}

/// A board-relative integer coordinate pair.
#[derive(Clone, Copy, Debug, PartialEq, Eq, Structural)]
pub struct Vector2 {
    pub x: i8,
    pub y: i8,
}

/// The block tag that cells of a locked piece of type `t` carry.
pub open spec fn block_of(t: PieceType) -> BlockType {
    match t {
        PieceType::O => BlockType::O,
        PieceType::I => BlockType::I,
        PieceType::L => BlockType::L,
        PieceType::J => BlockType::J,
        PieceType::S => BlockType::S,
        PieceType::Z => BlockType::Z,
        PieceType::T => BlockType::T,
    }
}

/// The rotation table: the 4 cell offsets of a piece of type `t`
/// in rotation state `r`, relative to the pivot, as (x, y) pairs.
/// Rotation states are listed in clockwise order.
pub open spec fn offsets(t: PieceType, r: int) -> Seq<(int, int)>
    recommends
        0 <= r < 4,
{
    match t {
        PieceType::O => seq![(0, 0), (1, 0), (0, 1), (1, 1)],
        PieceType::I => if r == 0 {
            seq![(-1, 0), (0, 0), (1, 0), (2, 0)]
        } else if r == 1 {
            seq![(1, -1), (1, 0), (1, 1), (1, 2)]
        } else if r == 2 {
            seq![(-1, 1), (0, 1), (1, 1), (2, 1)]
        } else {
            seq![(0, -1), (0, 0), (0, 1), (0, 2)]
        },
        PieceType::L => if r == 0 {
            seq![(-1, 0), (0, 0), (1, 0), (1, -1)]
        } else if r == 1 {
            seq![(0, -1), (0, 0), (0, 1), (1, 1)]
        } else if r == 2 {
            seq![(-1, 1), (-1, 0), (0, 0), (1, 0)]
        } else {
            seq![(-1, -1), (0, -1), (0, 0), (0, 1)]
        },
        PieceType::J => if r == 0 {
            seq![(-1, -1), (-1, 0), (0, 0), (1, 0)]
        } else if r == 1 {
            seq![(1, -1), (0, -1), (0, 0), (0, 1)]
        } else if r == 2 {
            seq![(-1, 0), (0, 0), (1, 0), (1, 1)]
        } else {
            seq![(0, -1), (0, 0), (0, 1), (-1, 1)]
        },
        PieceType::S => if r == 0 {
            seq![(1, 0), (0, 0), (0, 1), (-1, 1)]
        } else if r == 1 {
            seq![(0, -1), (0, 0), (1, 0), (1, 1)]
        } else if r == 2 {
            seq![(1, 1), (0, 1), (0, 2), (-1, 2)]
        } else {
            seq![(-1, -1), (-1, 0), (0, 0), (0, 1)]
        },
        PieceType::Z => if r == 0 {
            seq![(-1, 0), (0, 0), (0, 1), (1, 1)]
        } else if r == 1 {
            seq![(1, -1), (1, 0), (0, 0), (0, 1)]
        } else if r == 2 {
            seq![(-1, 1), (0, 1), (0, 2), (1, 2)]
        } else {
            seq![(0, -1), (0, 0), (-1, 0), (-1, 1)]
        },
        PieceType::T => if r == 0 {
            seq![(-1, 0), (0, 0), (0, -1), (1, 0)]
        } else if r == 1 {
            seq![(0, -1), (0, 0), (1, 0), (0, 1)]
        } else if r == 2 {
            seq![(-1, 0), (0, 0), (0, 1), (1, 0)]
        } else {
            seq![(0, -1), (0, 0), (-1, 0), (0, 1)]
        },
    }
}

/// Every offset in the rotation table lies within -1 and 2 on both axes.
pub proof fn lemma_offsets_bounded(t: PieceType, r: int, k: int)
    requires
        0 <= r < 4,
        0 <= k < 4,
    ensures
        -1 <= offsets(t, r)[k].0 <= 2,
        -1 <= offsets(t, r)[k].1 <= 2,
{
    match t {
        PieceType::O => {},
        PieceType::I => {},
        PieceType::L => {},
        PieceType::J => {},
        PieceType::S => {},
        PieceType::Z => {},
        PieceType::T => {},
    }
}

/// In rotation state 0 every offset's y component lies within -1 and 1.
pub proof fn lemma_spawn_offsets_y(t: PieceType, k: int)
    requires
        0 <= k < 4,
    ensures
        -1 <= offsets(t, 0)[k].1 <= 1,
{
    match t {
        PieceType::O => {},
        PieceType::I => {},
        PieceType::L => {},
        PieceType::J => {},
        PieceType::S => {},
        PieceType::Z => {},
        PieceType::T => {},
    }
}

/// The mathematical model of a piece: its shape, the tag its cells carry,
/// its pivot position and its rotation state.
pub struct PieceView {
    pub shape: PieceType,
    pub block: BlockType,
    pub x: int,
    pub y: int,
    pub rotation: int,
}

impl PieceView {
    /// A piece model is well formed when its rotation index is in range and
    /// its block tag is either its shape's own tag or the ghost tag.
    pub open spec fn wf(self) -> bool {
        &&& 0 <= self.rotation < 4
        &&& (self.block == block_of(self.shape) || self.block == BlockType::Shadow)
    }

    /// The four absolute board cells the piece occupies, as (x, y) pairs.
    pub open spec fn cells(self) -> Seq<(int, int)> {
        Seq::new(4, |k: int| (self.x + offsets(self.shape, self.rotation)[k].0,
                              self.y + offsets(self.shape, self.rotation)[k].1))
    }

    /// The same piece moved by (dx, dy).
    pub open spec fn shifted(self, dx: int, dy: int) -> PieceView {
        PieceView { x: self.x + dx, y: self.y + dy, ..self }
    }

    /// The same piece at pivot row `y`.
    pub open spec fn at_y(self, y: int) -> PieceView {
        PieceView { y: y, ..self }
    }

    /// The same piece in rotation state `r`.
    pub open spec fn with_rotation(self, r: int) -> PieceView {
        PieceView { rotation: r, ..self }
    }

    /// The same piece advanced one rotation state clockwise.
    pub open spec fn rotated_cw(self) -> PieceView {
        PieceView { rotation: (self.rotation + 1) % 4, ..self }
    }

    /// The same piece retreated one rotation state (counterclockwise).
    pub open spec fn rotated_ccw(self) -> PieceView {
        PieceView { rotation: (self.rotation + 3) % 4, ..self }
    }
}

/// Law: the O piece's occupied cells are identical across all 4 rotation
/// states.
pub proof fn lemma_o_piece_rotation_invariant(p: PieceView, r1: int, r2: int)
    requires
        p.shape == PieceType::O,
        0 <= r1 < 4,
        0 <= r2 < 4,
    ensures
        p.with_rotation(r1).cells() == p.with_rotation(r2).cells(),
{
    assert(p.with_rotation(r1).cells() =~= p.with_rotation(r2).cells());
}

/// An active falling piece: its pivot position on the board, the tag its
/// cells carry, its shape and its current rotation state.
#[derive(Clone, Copy, Debug)]
pub struct Piece {
    pub position: Vector2,
    pub block_type: BlockType,
    pub shape: PieceType,
    pub current_rotation: u8,
}

impl View for Piece {
    type V = PieceView;

    open spec fn view(&self) -> PieceView {
        PieceView {
            shape: self.shape,
            block: self.block_type,
            x: self.position.x as int,
            y: self.position.y as int,
            rotation: self.current_rotation as int,
        }
    }
}

impl Piece {
    /// The four offsets of this piece's current rotation state.
    pub fn blocks(self: &Piece) -> (r: [Vector2; 4])
        requires
            self@.wf(),
        ensures
            forall|k: int| 0 <= k < 4 ==> ((#[trigger] r@[k]).x as int, r@[k].y as int)
                == offsets(self@.shape, self@.rotation)[k],
    {
        let r: u8 = self.current_rotation;
        match self.shape {
            PieceType::O => [v2(0, 0), v2(1, 0), v2(0, 1), v2(1, 1)],
            PieceType::I => if r == 0 {
                [v2(-1, 0), v2(0, 0), v2(1, 0), v2(2, 0)]
            } else if r == 1 {
                [v2(1, -1), v2(1, 0), v2(1, 1), v2(1, 2)]
            } else if r == 2 {
                [v2(-1, 1), v2(0, 1), v2(1, 1), v2(2, 1)]
            } else {
                [v2(0, -1), v2(0, 0), v2(0, 1), v2(0, 2)]
            },
            PieceType::L => if r == 0 {
                [v2(-1, 0), v2(0, 0), v2(1, 0), v2(1, -1)]
            } else if r == 1 {
                [v2(0, -1), v2(0, 0), v2(0, 1), v2(1, 1)]
            } else if r == 2 {
                [v2(-1, 1), v2(-1, 0), v2(0, 0), v2(1, 0)]
            } else {
                [v2(-1, -1), v2(0, -1), v2(0, 0), v2(0, 1)]
            },
            PieceType::J => if r == 0 {
                [v2(-1, -1), v2(-1, 0), v2(0, 0), v2(1, 0)]
            } else if r == 1 {
                [v2(1, -1), v2(0, -1), v2(0, 0), v2(0, 1)]
            } else if r == 2 {
                [v2(-1, 0), v2(0, 0), v2(1, 0), v2(1, 1)]
            } else {
                [v2(0, -1), v2(0, 0), v2(0, 1), v2(-1, 1)]
            },
            PieceType::S => if r == 0 {
                [v2(1, 0), v2(0, 0), v2(0, 1), v2(-1, 1)]
            } else if r == 1 {
                [v2(0, -1), v2(0, 0), v2(1, 0), v2(1, 1)]
            } else if r == 2 {
                [v2(1, 1), v2(0, 1), v2(0, 2), v2(-1, 2)]
            } else {
                [v2(-1, -1), v2(-1, 0), v2(0, 0), v2(0, 1)]
            },
            PieceType::Z => if r == 0 {
                [v2(-1, 0), v2(0, 0), v2(0, 1), v2(1, 1)]
            } else if r == 1 {
                [v2(1, -1), v2(1, 0), v2(0, 0), v2(0, 1)]
            } else if r == 2 {
                [v2(-1, 1), v2(0, 1), v2(0, 2), v2(1, 2)]
            } else {
                [v2(0, -1), v2(0, 0), v2(-1, 0), v2(-1, 1)]
            },
            PieceType::T => if r == 0 {
                [v2(-1, 0), v2(0, 0), v2(0, -1), v2(1, 0)]
            } else if r == 1 {
                [v2(0, -1), v2(0, 0), v2(1, 0), v2(0, 1)]
            } else if r == 2 {
                [v2(-1, 0), v2(0, 0), v2(0, 1), v2(1, 0)]
            } else {
                [v2(0, -1), v2(0, 0), v2(-1, 0), v2(0, 1)]
            },
        }
    }

    /// Advance the rotation state by one, clockwise, wrapping from 3 to 0.
    pub fn rotate_clockwise(self: &mut Piece)
        requires
            old(self)@.wf(),
        ensures
            final(self)@ == old(self)@.rotated_cw(),
    {
        if self.current_rotation == 3 {
            self.current_rotation = 0;
        } else {
            self.current_rotation = self.current_rotation + 1;
        }
    }

    /// Retreat the rotation state by one, counterclockwise, wrapping from 0 to 3.
    pub fn rotate_counterclockwise(self: &mut Piece)
        requires
            old(self)@.wf(),
        ensures
            final(self)@ == old(self)@.rotated_ccw(),
    {
        if self.current_rotation == 0 {
            self.current_rotation = 3;
        } else {
            self.current_rotation = self.current_rotation - 1;
        }
    }

    /// A fresh piece of the given type at pivot (0, 0) in rotation state 0.
    pub fn from_piece_type(piece_type: &PieceType) -> (r: Piece)
        ensures
            r@ == (PieceView { shape: *piece_type, block: block_of(*piece_type), x: 0, y: 0, rotation: 0 }),
    {
        let block_type = match piece_type {
            PieceType::O => BlockType::O,
            PieceType::I => BlockType::I,
            PieceType::L => BlockType::L,
            PieceType::J => BlockType::J,
            PieceType::S => BlockType::S,
            PieceType::Z => BlockType::Z,
            PieceType::T => BlockType::T,
        };
        Piece {
            position: Vector2 { x: 0, y: 0 },
            block_type,
            shape: *piece_type,
            current_rotation: 0,
        }
    }
}

/// Shorthand for building an offset pair.
fn v2(x: i8, y: i8) -> (r: Vector2)
    ensures
        r.x == x,
        r.y == y,
{
    Vector2 { x, y }
}

impl PieceType {
    /// The piece type whose cells carry the given tag.
    /// The ghost and empty tags name no piece type.
    pub fn from_block_type(block_type: &BlockType) -> (r: PieceType)
        requires
            *block_type != BlockType::Shadow,
            *block_type != BlockType::Empty,
        ensures
            block_of(r) == *block_type,
    {
        match block_type {
            BlockType::O => PieceType::O,
            BlockType::I => PieceType::I,
            BlockType::L => PieceType::L,
            BlockType::J => PieceType::J,
            BlockType::S => PieceType::S,
            BlockType::Z => PieceType::Z,
            BlockType::T => PieceType::T,
            BlockType::Shadow => PieceType::O,
            BlockType::Empty => PieceType::O,
        }
    }
}

} // verus!
