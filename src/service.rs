use vstd::prelude::*;

use rand::rngs::StdRng;

use crate::grid::Grid;
use crate::item::{glyph, team_named, Item};
use crate::placement::{placed, Outcome, PlaceError};
use crate::random::{draws, holds_bits, seed_rng, seeded};

verus! {

/// The seed that a reset gives the shared generator.
pub const BOARD_SEED: u64 = 2024;

/// The status of a reply to a request.
#[derive(Clone, Copy, Debug, PartialEq, Eq, Structural)]
pub enum Status {
    Success,
    BadRequest,
    ServiceUnavailable,
}

/// A reply to a request: its status and the text of its body.
#[derive(Debug)]
pub struct Reply {
    pub status: Status,
    pub body: String,
}

/// The text that announces the winner `t`.
pub open spec fn win_suffix(t: Item) -> Seq<char> {
    seq![glyph(t)] + " wins!\n"@
}

/// The text that says that nobody has won.
pub open spec fn no_winner_suffix() -> Seq<char> {
    "No winner.\n"@
}

/// The board as the service shows it: its rendering, and the winner if there is one.
pub open spec fn shown(g: Grid) -> Seq<char> {
    match g.winner_of() {
        Some(t) => g.text() + win_suffix(t),
        None => g.text(),
    }
}

/// The board followed by the winner, or that nobody has won.
pub open spec fn judged(g: Grid) -> Seq<char> {
    match g.winner_of() {
        Some(t) => g.text() + win_suffix(t),
        None => g.text() + no_winner_suffix(),
    }
}

/// The board, status and body after a placement request by the team named
/// `team` into column `column` (1 to 4) of board `g`.
pub open spec fn place_reply(g: Grid, team: Seq<char>, column: u8) -> (Grid, Status, Seq<char>) {
    match team_named(team) {
        None => (g, Status::BadRequest, Seq::empty()),
        Some(t) => if column < 1 || column > 4 {
            (g, Status::BadRequest, Seq::empty())
        } else {
            let (next, res) = placed(g, column - 1, t);
            match res {
                Err(PlaceError::GameOver(w)) => (next, Status::ServiceUnavailable, g.text() + win_suffix(w)),
                Err(PlaceError::ColumnFull) => (next, Status::ServiceUnavailable, g.text() + no_winner_suffix()),
                Ok(Outcome::Win(w)) => (next, Status::Success, next.text() + win_suffix(w)),
                Ok(_) => (next, Status::Success, next.text()),
            }
        },
    }
}

/// Appends the announcement of the winner `t` to `s`.
fn append_win(s: &mut String, t: Item)
    ensures
        final(s)@ == old(s)@ + win_suffix(t),
{
    proof {
        reveal_strlit(" wins!\n");
    }
    s.append(t.glyph_str());
    s.append(" wins!\n");
    assert(final(s)@ =~= old(s)@ + win_suffix(t));
}

/// The current board, with the winner if there is one.
pub fn board(grid: &Grid) -> (r: Reply)
    ensures
        r.status == Status::Success,
        r.body@ == shown(*grid),
{
    let mut body = grid.render();
    if let Some(t) = grid.winner() {
        append_win(&mut body, t);
    }
    Reply { status: Status::Success, body }
}

/// Clears the board and seeds the generator anew with the fixed seed;
/// replies with the empty board.
pub fn reset(grid: &mut Grid, rng: &mut StdRng) -> (r: Reply)
    ensures
        final(grid).is_clear(),
        *final(rng) == seeded(BOARD_SEED),
        r.status == Status::Success,
        r.body@ == final(grid).text(),
{
    *rng = seed_rng(BOARD_SEED);
    *grid = Grid::new();
    Reply { status: Status::Success, body: grid.render() }
}

/// A placement request: `team` (`cookie` or `milk`) drops a piece into
/// column `column`, counted from 1. A team or column out of range is a bad
/// request; a board that already has a winner or a full column makes the
/// service unavailable; in neither case does the board change.
pub fn place(grid: &mut Grid, team: &str, column: u8) -> (r: Reply)
    ensures
        (*final(grid), r.status, r.body@) == place_reply(*old(grid), team@, column),
{
    let t = match Item::parse_team(team) {
        Some(t) => t,
        None => {
            return Reply { status: Status::BadRequest, body: String::new() };
        },
    };
    if column < 1 || column > 4 {
        return Reply { status: Status::BadRequest, body: String::new() };
    }
    match grid.drop_piece((column - 1) as usize, t) {
        Err(PlaceError::GameOver(w)) => {
            let mut body = grid.render();
            append_win(&mut body, w);
            Reply { status: Status::ServiceUnavailable, body }
        },
        Err(PlaceError::ColumnFull) => {
            proof {
                reveal_strlit("No winner.\n");
            }
            let mut body = grid.render();
            body.append("No winner.\n");
            Reply { status: Status::ServiceUnavailable, body }
        },
        Ok(Outcome::Win(w)) => {
            let mut body = grid.render();
            append_win(&mut body, w);
            Reply { status: Status::Success, body }
        },
        Ok(_) => Reply { status: Status::Success, body: grid.render() },
    }
}

/// Replaces the board with one drawn from the shared generator, whatever
/// the board held; replies with the new board followed by the winner.
pub fn random_board(grid: &mut Grid, rng: &mut StdRng) -> (r: Reply)
    ensures
        holds_bits(*final(grid), draws(*old(rng), 16).0),
        *final(rng) == draws(*old(rng), 16).1,
        r.status == Status::Success,
        r.body@ == judged(*final(grid)),
{
    *grid = Grid::new_rand(rng);
    let mut body = grid.render();
    match grid.winner() {
        Some(t) => append_win(&mut body, t),
        None => {
            proof {
                reveal_strlit("No winner.\n");
            }
            body.append("No winner.\n");
        },
    }
    Reply { status: Status::Success, body }
}


/// Showing the board is a read: the text it shows depends on the board
/// alone, so two requests with no change in between show the same text.
pub proof fn lemma_show_is_stable(first: Grid, second: Grid)
    requires
        first == second,
    ensures
        shown(first) == shown(second),
{
}

/// Two boards that hold the same sixteen bits, row by row, are the same board.
pub proof fn lemma_bits_decide_board(a: Grid, b: Grid, bits: Seq<bool>)
    requires
        holds_bits(a, bits),
        holds_bits(b, bits),
    ensures
        a == b,
{
    assert forall|r: int| 0 <= r < 4 implies a.0@[r] =~= b.0@[r] by {
        assert forall|c: int| 0 <= c < 4 implies a.0@[r]@[c] == b.0@[r]@[c] by {
            assert(a.at(r, c) == b.at(r, c));
        }
    }
    assert(a.0 =~= b.0);
}

/// Determinism: after a reset the generator is in the same state whatever
/// came before, so the random board drawn next from it is the same board
/// every time, and the generator is left in the same state.
pub proof fn lemma_reset_replays(rng_a: StdRng, board_a: Grid, rng_b: StdRng, board_b: Grid)
    requires
        rng_a == seeded(BOARD_SEED),
        rng_b == seeded(BOARD_SEED),
        holds_bits(board_a, draws(rng_a, 16).0),
        holds_bits(board_b, draws(rng_b, 16).0),
    ensures
        board_a == board_b,
        draws(rng_a, 16).1 == draws(rng_b, 16).1,
{
    lemma_bits_decide_board(board_a, board_b, draws(rng_a, 16).0);
}

} // verus!
