//! The board: a grid of 9 rows by 5 columns in which each cell is empty or
//! holds one entity, stored in player 1's orientation.

use crate::card::{CardEntity, EntityView};
use vstd::prelude::*;

verus! {

/// The number of columns of the board.
pub const BOARD_WIDTH: i32 = 5;

/// The number of rows of the board.
pub const BOARD_HEIGHT: i32 = 9;

/// The number of cells of the board.
pub const BOARD_CELLS: usize = 45;

/// Whether `(x, y)` is a cell of the board.
pub open spec fn in_bounds(x: int, y: int) -> bool {
    0 <= x < BOARD_WIDTH && 0 <= y < BOARD_HEIGHT
}

/// The board's invariant over its mathematical value: only cells of the board
/// are occupied, and each entity's stored position is the cell that holds it.
/// (That a cell holds at most one entity is what a map says by itself.)
pub open spec fn positions_agree(cells: Map<(int, int), EntityView>) -> bool {
    forall|p: (int, int)| #[trigger]
        cells.dom().contains(p) ==> in_bounds(p.0, p.1) && cells[p].position_x == p.0
            && cells[p].position_y == p.1
}

/// The column that the other player sees for column `x`.
pub open spec fn mirror_x(x: int) -> int {
    BOARD_WIDTH - 1 - x
}

/// The row that the other player sees for row `y`.
pub open spec fn mirror_y(y: int) -> int {
    BOARD_HEIGHT - 1 - y
}

/// The 9 by 5 grid of cells.
#[derive(Debug, PartialEq, Eq)]
pub struct Board {
    cells: Vec<Option<CardEntity>>,
}

/// The place in the row-major list of cells that holds cell `(x, y)`.
spec fn slot(x: int, y: int) -> int {
    y * BOARD_WIDTH + x
}

impl View for Board {
    type V = Map<(int, int), EntityView>;

    /// The occupied cells, each `(column, row)` with the entity in it.
    closed spec fn view(&self) -> Map<(int, int), EntityView> {
        Map::new(
            |p: (int, int)| in_bounds(p.0, p.1) && self.cells@[slot(p.0, p.1)] is Some,
            |p: (int, int)| self.cells@[slot(p.0, p.1)]->0@,
        )
    }
}

impl Board {
    /// The board is whole: it has all its cells, and every entity's stored
    /// position is the cell that holds it.
    pub closed spec fn wf(&self) -> bool {
        &&& self.cells@.len() == BOARD_CELLS
        &&& forall|x: int, y: int|
            in_bounds(x, y) && (#[trigger] self.cells@[slot(x, y)]) is Some ==> {
                &&& self.cells@[slot(x, y)]->0@.position_x == x
                &&& self.cells@[slot(x, y)]->0@.position_y == y
            }
    }

    /// A whole board satisfies the invariant over its value.
    pub proof fn lemma_positions_agree(&self)
        requires
            self.wf(),
        ensures
            positions_agree(self@),
    {
    }

    /// An empty board.
    pub fn new() -> (board: Board)
        ensures
            board.wf(),
            board@ == Map::<(int, int), EntityView>::empty(),
    {
        let mut cells: Vec<Option<CardEntity>> = Vec::new();
        let mut i: usize = 0;
        while i < BOARD_CELLS
            invariant
                i <= BOARD_CELLS,
                cells@.len() == i,
                forall|k: int| 0 <= k < i ==> (#[trigger] cells@[k]) is None,
            decreases BOARD_CELLS - i,
        {
            cells.push(None);
            i = i + 1;
        }
        let board = Board { cells };
        assert(board@ =~= Map::<(int, int), EntityView>::empty());
        board
    }

    /// Whether `(x, y)` is a cell of the board.
    pub fn contains(x: i32, y: i32) -> (inside: bool)
        ensures
            inside == in_bounds(x as int, y as int),
    {
        0 <= x && x < BOARD_WIDTH && 0 <= y && y < BOARD_HEIGHT
    }

    /// The entity in cell `(x, y)`, if the board has that cell and it is
    /// occupied.
    pub fn get(&self, x: i32, y: i32) -> (entity: Option<&CardEntity>)
        requires
            self.wf(),
        ensures
            entity is Some <==> self@.dom().contains((x as int, y as int)),
            entity is Some ==> entity->0@ == self@[(x as int, y as int)],
    {
        if !Board::contains(x, y) {
            return None;
        }
        let i: usize = (y * BOARD_WIDTH + x) as usize;
        self.cells[i].as_ref()
    }

    /// Takes the entity out of cell `(x, y)`, if the board has that cell and
    /// it is occupied.
    pub fn take(&mut self, x: i32, y: i32) -> (entity: Option<CardEntity>)
        requires
            old(self).wf(),
        ensures
            final(self).wf(),
            entity is Some <==> old(self)@.dom().contains((x as int, y as int)),
            entity is Some ==> entity->0@ == old(self)@[(x as int, y as int)],
            final(self)@ == old(self)@.remove((x as int, y as int)),
    {
        if !Board::contains(x, y) {
            assert(self@ =~= old(self)@.remove((x as int, y as int)));
            return None;
        }
        let i: usize = (y * BOARD_WIDTH + x) as usize;
        let entity = self.cells[i].take();
        proof {
            assert forall|a: int, b: int| in_bounds(a, b) && (a != x || b != y) implies slot(a, b)
                != slot(x as int, y as int) by {}
            assert(self@ =~= old(self)@.remove((x as int, y as int)));
        }
        entity
    }

    /// Puts the entity into the cell that its stored position names. Where
    /// the board has no such cell, or the cell is occupied, the board stays
    /// as it is and the entity comes back.
    pub fn place(&mut self, entity: CardEntity) -> (res: Result<(), CardEntity>)
        requires
            old(self).wf(),
        ensures
            final(self).wf(),
            res is Ok <==> in_bounds(entity@.position_x, entity@.position_y) && !old(
                self,
            )@.dom().contains((entity@.position_x, entity@.position_y)),
            res is Ok ==> final(self)@ == old(self)@.insert(
                (entity@.position_x, entity@.position_y),
                entity@,
            ),
            res is Err ==> final(self)@ == old(self)@ && res->Err_0@ == entity@,
    {
        let x: i32 = entity.get_x_pos();
        let y: i32 = entity.get_y_pos();
        if !Board::contains(x, y) {
            return Err(entity);
        }
        let i: usize = (y * BOARD_WIDTH + x) as usize;
        if self.cells[i].is_some() {
            return Err(entity);
        }
        let ghost value = entity@;
        self.cells[i] = Some(entity);
        proof {
            assert forall|a: int, b: int| in_bounds(a, b) && (a != x || b != y) implies slot(a, b)
                != slot(x as int, y as int) by {}
            assert(self@ =~= old(self)@.insert((x as int, y as int), value));
        }
        Ok(())
    }

    /// Prepares every entity on the board, of either player, for a new turn.
    pub fn reset_all(&mut self)
        requires
            old(self).wf(),
        ensures
            final(self).wf(),
            final(self)@ == old(self)@.map_values(|e: EntityView| e.refreshed()),
    {
        let mut i: usize = 0;
        while i < BOARD_CELLS
            invariant
                i <= BOARD_CELLS,
                self.cells@.len() == BOARD_CELLS,
                old(self).wf(),
                forall|k: int|
                    0 <= k < BOARD_CELLS ==> ((#[trigger] self.cells@[k]) is Some <==> old(
                        self,
                    ).cells@[k] is Some),
                forall|k: int|
                    0 <= k < i && (#[trigger] self.cells@[k]) is Some ==> self.cells@[k]->0@
                        == old(self).cells@[k]->0@.refreshed(),
                forall|k: int|
                    i <= k < BOARD_CELLS ==> (#[trigger] self.cells@[k]) == old(self).cells@[k],
            decreases BOARD_CELLS - i,
        {
            match &mut self.cells[i] {
                Some(entity) => {
                    entity.reset();
                },
                None => {},
            }
            i = i + 1;
        }
        proof {
            assert forall|x: int, y: int| in_bounds(x, y) implies 0 <= #[trigger] slot(x, y)
                < BOARD_CELLS by {}
            assert(self@ =~= old(self)@.map_values(|e: EntityView| e.refreshed()));
        }
    }
}

} // verus!
