use vstd::prelude::*;

use rand::rngs::StdRng;
use rand::{Rng, SeedableRng};

use crate::grid::Grid;
use crate::item::Item;

verus! {

/// rand's seeded generator, carried as an opaque value. It is a
/// deterministic generator: what it hands out depends on its state alone.
#[verifier::external_type_specification]
#[verifier::external_body]
pub struct ExStdRng(StdRng);

/// The generator that `StdRng::seed_from_u64(seed)` builds.
pub uninterp spec fn seeded(seed: u64) -> StdRng;

/// The boolean that the generator `rng` hands out next, and the generator after it.
pub uninterp spec fn bool_draw(rng: StdRng) -> (bool, StdRng);

/// Relies on `SeedableRng::seed_from_u64` for `StdRng`: the generator's
/// state is a function of the seed alone.
#[verifier::external_body]
pub(crate) fn seed_rng(seed: u64) -> (r: StdRng)
    ensures
        r == seeded(seed),
{
    StdRng::seed_from_u64(seed)
}

/// Relies on `Rng::gen::<bool>` for `StdRng`: the `Standard` distribution
/// takes one `u32` from the generator and tests its top bit, so the value
/// and the generator's next state are a function of its current state.
#[verifier::external_body]
pub(crate) fn next_bool(rng: &mut StdRng) -> (b: bool)
    ensures
        (b, *final(rng)) == bool_draw(*old(rng)),
{
    rng.gen::<bool>()
}

/// The next `n` booleans that `rng` hands out, and the generator after them.
pub open spec fn draws(rng: StdRng, n: nat) -> (Seq<bool>, StdRng)
    decreases n,
{
    if n == 0 {
        (Seq::empty(), rng)
    } else {
        let (before, mid) = draws(rng, (n - 1) as nat);
        let (b, next) = bool_draw(mid);
        (before.push(b), next)
    }
}

/// The item that a drawn boolean puts on the board.
pub open spec fn item_of_bit(b: bool) -> Item {
    if b {
        Item::Cookie
    } else {
        Item::Milk
    }
}

/// The board holds, row by row from the top and left to right, the items of `bits`.
pub open spec fn holds_bits(g: Grid, bits: Seq<bool>) -> bool {
    forall|r: int, c: int|
        0 <= r < 4 && 0 <= c < 4 ==> #[trigger] g.at(r, c) == item_of_bit(bits[4 * r + c])
}

impl Grid {
    /// The board whose cells, row by row from the top and left to right,
    /// are `Cookie` for each true bit and `Milk` for each false one.
    pub fn from_bits(bits: &Vec<bool>) -> (g: Grid)
        requires
            bits@.len() == 16,
        ensures
            holds_bits(g, bits@),
    {
        let mut g = Grid::new();
        let mut row: usize = 0;
        while row < 4
            invariant
                row <= 4,
                bits@.len() == 16,
                forall|r: int, c: int|
                    0 <= r < row && 0 <= c < 4 ==> #[trigger] g.at(r, c) == item_of_bit(
                        bits@[4 * r + c],
                    ),
            decreases 4 - row,
        {
            let mut col: usize = 0;
            while col < 4
                invariant
                    row < 4,
                    col <= 4,
                    bits@.len() == 16,
                    forall|r: int, c: int|
                        0 <= r < row && 0 <= c < 4 ==> #[trigger] g.at(r, c) == item_of_bit(
                            bits@[4 * r + c],
                        ),
                    forall|c: int|
                        0 <= c < col ==> #[trigger] g.at(row as int, c) == item_of_bit(
                            bits@[4 * row + c],
                        ),
                decreases 4 - col,
            {
                let item = if bits[row * 4 + col] {
                    Item::Cookie
                } else {
                    Item::Milk
                };
                g.set(row, col, item);
                col += 1;
            }
            row += 1;
        }
        g
    }

    /// A board filled from the next sixteen booleans of `rng`, one per
    /// cell, row by row from the top and left to right: `Cookie` for true,
    /// `Milk` for false. No cell is left empty.
    pub fn new_rand(rng: &mut StdRng) -> (g: Grid)
        ensures
            holds_bits(g, draws(*old(rng), 16).0),
            *final(rng) == draws(*old(rng), 16).1,
    {
        let mut bits: Vec<bool> = Vec::new();
        let mut i: usize = 0;
        while i < 16
            invariant
                i <= 16,
                bits@.len() == i,
                (bits@, *rng) == draws(*old(rng), i as nat),
            decreases 16 - i,
        {
            let b = next_bool(rng);
            bits.push(b);
            i += 1;
        }
        Grid::from_bits(&bits)
    }
}

} // verus!
