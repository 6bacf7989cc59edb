use vstd::prelude::*;

use crate::grid::Grid;
use crate::item::Item;

verus! {

/// The state of the game after a successful placement.
#[derive(Clone, Copy, Debug, PartialEq, Eq, Structural)]
pub enum Outcome {
    InProgress,
    Win(Item),
    Draw,
}

/// Why a placement was refused; the board is left as it was.
#[derive(Clone, Copy, Debug, PartialEq, Eq, Structural)]
pub enum PlaceError {
    /// The board already holds a won line; the winner is given.
    GameOver(Item),
    /// The column has no empty cell left.
    ColumnFull,
}

/// The lowest empty row of column `c` at or above row `r`.
pub open spec fn empty_row_from(g: Grid, c: int, r: int) -> Option<int>
    decreases r + 1,
{
    if r < 0 {
        None
    } else if g.at(r, c) == Item::Empty {
        Some(r)
    } else {
        empty_row_from(g, c, r - 1)
    }
}

/// The row where a piece dropped into column `c` comes to rest: the lowest empty one.
pub open spec fn drop_row(g: Grid, c: int) -> Option<int> {
    empty_row_from(g, c, 3)
}

/// The state of the game on board `g`.
pub open spec fn outcome_of(g: Grid) -> Outcome {
    match g.winner_of() {
        Some(t) => Outcome::Win(t),
        None => if g.is_full() {
            Outcome::Draw
        } else {
            Outcome::InProgress
        },
    }
}

/// The board and the result after `team` drops a piece into column `column` of `g`.
pub open spec fn placed(g: Grid, column: int, team: Item) -> (Grid, Result<Outcome, PlaceError>) {
    match g.winner_of() {
        Some(w) => (g, Err(PlaceError::GameOver(w))),
        None => match drop_row(g, column) {
            None => (g, Err(PlaceError::ColumnFull)),
            Some(r) => {
                let next = g.with_cell(r, column, team);
                (next, Ok(outcome_of(next)))
            },
        },
    }
}

impl Grid {
    /// The state of the game on this board.
    pub fn outcome(&self) -> (r: Outcome)
        ensures
            r == outcome_of(*self),
    {
        match self.winner() {
            Some(t) => Outcome::Win(t),
            None => if self.full() {
                Outcome::Draw
            } else {
                Outcome::InProgress
            },
        }
    }

    /// Drops a piece of `team` into column `column` (0 to 3): it lands in
    /// the lowest empty cell of that column. Refused, with the board left
    /// as it was, when the board already has a winner or the column is full.
    pub fn drop_piece(&mut self, column: usize, team: Item) -> (r: Result<Outcome, PlaceError>)
        requires
            column < 4,
            team != Item::Empty,
        ensures
            (*final(self), r) == placed(*old(self), column as int, team),
    {
        if let Some(w) = self.winner() {
            return Err(PlaceError::GameOver(w));
        }
        let mut row: usize = 4;
        while row > 0
            invariant
                row <= 4,
                column < 4,
                *self == *old(self),
                old(self).winner_of() is None,
                drop_row(*self, column as int) == empty_row_from(*self, column as int, row - 1),
            decreases row,
        {
            row -= 1;
            if self.0[row][column] == Item::Empty {
                self.set(row, column, team);
                return Ok(self.outcome());
            }
        }
        Err(PlaceError::ColumnFull)
    }
}


/// Column `c` of `g` holds pieces in exactly its bottom `k` cells.
pub open spec fn filled_from_bottom(g: Grid, c: int, k: int) -> bool {
    forall|r: int| 0 <= r < 4 ==> (#[trigger] g.at(r, c) != Item::Empty) == (r >= 4 - k)
}

/// When column `c` holds pieces in exactly its bottom `k` cells, the lowest
/// empty cell at or above row `r` is row `3 - k`, or there is none once the
/// column is full.
proof fn lemma_empty_row_from_stack(g: Grid, c: int, k: int, r: int)
    requires
        filled_from_bottom(g, c, k),
        0 <= k <= 4,
        3 - k <= r <= 3,
    ensures
        empty_row_from(g, c, r) == if k < 4 {
            Some(3 - k)
        } else {
            None::<int>
        },
    decreases r + 1,
{
    if r >= 0 && r > 3 - k {
        assert(g.at(r, c) != Item::Empty);
        lemma_empty_row_from_stack(g, c, k, r - 1);
    } else if r >= 0 {
        assert(g.at(r, c) == Item::Empty);
    }
}

/// Gravity: while nobody has won, a piece dropped into a column whose
/// bottom `k` cells hold pieces and whose other cells are empty lands just
/// above them, so the column then holds pieces in exactly its bottom `k + 1`
/// cells, and no other cell changes. A column whose four cells all hold
/// pieces refuses the piece and the board stays as it was.
pub proof fn lemma_gravity(g: Grid, column: int, team: Item, k: int)
    requires
        0 <= column < 4,
        team != Item::Empty,
        0 <= k <= 4,
        filled_from_bottom(g, column, k),
        g.winner_of() is None,
    ensures
        k < 4 ==> placed(g, column, team).1 is Ok,
        k < 4 ==> placed(g, column, team).0.at(3 - k, column) == team,
        k < 4 ==> filled_from_bottom(placed(g, column, team).0, column, k + 1),
        k < 4 ==> forall|r: int, c: int|
            0 <= r < 4 && 0 <= c < 4 && (r, c) != (3 - k, column) ==> #[trigger] placed(
                g,
                column,
                team,
            ).0.at(r, c) == g.at(r, c),
        k == 4 ==> placed(g, column, team) == (g, Err::<Outcome, PlaceError>(PlaceError::ColumnFull)),
{
    lemma_empty_row_from_stack(g, column, k, 3);
    if k < 4 {
        g.lemma_with_cell_at(3 - k, column, team);
    }
}

/// The board after each of `moves` in turn, a move being a column and a team.
pub open spec fn play(g: Grid, moves: Seq<(int, Item)>) -> Grid
    decreases moves.len(),
{
    if moves.len() == 0 {
        g
    } else {
        let before = play(g, moves.drop_last());
        placed(before, moves.last().0, moves.last().1).0
    }
}

/// Terminal lock: once a placement wins the game for `w`, every later
/// placement, whatever its column and team, is refused as `GameOver(w)`, and
/// the board stays as the winning placement left it.
pub proof fn lemma_terminal_lock(g: Grid, column: int, team: Item, w: Item, moves: Seq<(int, Item)>)
    requires
        placed(g, column, team).1 == Ok::<Outcome, PlaceError>(Outcome::Win(w)),
    ensures
        play(placed(g, column, team).0, moves) == placed(g, column, team).0,
        forall|i: int|
            0 <= i < moves.len() ==> placed(
                #[trigger] play(placed(g, column, team).0, moves.take(i)),
                moves[i].0,
                moves[i].1,
            ) == (placed(g, column, team).0, Err::<Outcome, PlaceError>(PlaceError::GameOver(w))),
    decreases moves.len(),
{
    let won = placed(g, column, team).0;
    assert(won.winner_of() == Some(w));
    if moves.len() > 0 {
        let rest = moves.drop_last();
        lemma_terminal_lock(g, column, team, w, rest);
        assert forall|i: int| 0 <= i < moves.len() implies placed(
            #[trigger] play(won, moves.take(i)),
            moves[i].0,
            moves[i].1,
        ) == (won, Err::<Outcome, PlaceError>(PlaceError::GameOver(w))) by {
            if i < rest.len() {
                assert(moves.take(i) =~= rest.take(i));
                assert(moves[i] == rest[i]);
            } else {
                assert(moves.take(i) =~= rest);
            }
        }
    }
}

} // verus!
