use vstd::prelude::*;

use vstd::array::spec_array_update;

use crate::item::{border, glyph, Item};

verus! {

broadcast use vstd::array::group_array_axioms;

/// The board: four rows of four cells, row 0 at the top, column 0 at the left.
#[derive(Clone, Copy, Debug)]
pub struct Grid(pub [[Item; 4]; 4]);

/// The number of lines a player can complete: four rows, four columns, two diagonals.
pub open spec fn num_lines() -> int {
    10
}

/// The cell at position `i` (0 to 3) of line `k`. Lines 0 to 3 are the rows,
/// 4 to 7 the columns, 8 the main diagonal and 9 the anti-diagonal.
pub open spec fn line_cell(k: int, i: int) -> (int, int) {
    if k < 4 {
        (k, i)
    } else if k < 8 {
        (i, k - 4)
    } else if k == 8 {
        (i, i)
    } else {
        (i, 3 - i)
    }
}

/// The bottom border row: six border glyphs and a newline.
pub open spec fn bottom_text() -> Seq<char> {
    seq![border(), border(), border(), border(), border(), border(), '\n']
}

impl Grid {
    /// The item at row `r`, column `c`.
    pub open spec fn at(self, r: int, c: int) -> Item {
        self.0@[r]@[c]
    }

    /// The item at position `i` of line `k`.
    pub open spec fn line_at(self, k: int, i: int) -> Item {
        self.at(line_cell(k, i).0, line_cell(k, i).1)
    }

    /// Line `k` holds four equal items, none of them empty.
    pub open spec fn line_won(self, k: int) -> bool {
        &&& self.line_at(k, 0) != Item::Empty
        &&& self.line_at(k, 1) == self.line_at(k, 0)
        &&& self.line_at(k, 2) == self.line_at(k, 0)
        &&& self.line_at(k, 3) == self.line_at(k, 0)
    }

    /// The owner of the first won line from line `k` on, in scan order.
    pub open spec fn first_win_from(self, k: int) -> Option<Item>
        decreases num_lines() - k,
    {
        if k >= num_lines() || k < 0 {
            None
        } else if self.line_won(k) {
            Some(self.line_at(k, 0))
        } else {
            self.first_win_from(k + 1)
        }
    }

    /// The winner: the owner of the first won line in scan order.
    pub open spec fn winner_of(self) -> Option<Item> {
        self.first_win_from(0)
    }

    /// No cell is empty.
    pub open spec fn is_full(self) -> bool {
        forall|r: int, c: int| 0 <= r < 4 && 0 <= c < 4 ==> self.at(r, c) != Item::Empty
    }

    /// Every cell is empty.
    pub open spec fn is_clear(self) -> bool {
        forall|r: int, c: int| 0 <= r < 4 && 0 <= c < 4 ==> self.at(r, c) == Item::Empty
    }

    /// The board with the cell at row `r`, column `c` replaced by `item`.
    pub open spec fn with_cell(self, r: int, c: int, item: Item) -> Grid {
        Grid(spec_array_update(self.0, r, spec_array_update(self.0@[r], c, item)))
    }

    /// The text of row `r`: a border glyph, the four cells, a border glyph, a newline.
    pub open spec fn row_text(self, r: int) -> Seq<char> {
        seq![
            border(),
            glyph(self.at(r, 0)),
            glyph(self.at(r, 1)),
            glyph(self.at(r, 2)),
            glyph(self.at(r, 3)),
            border(),
            '\n',
        ]
    }

    /// The text of the first `n` rows, top down.
    pub open spec fn rows_text(self, n: int) -> Seq<char>
        decreases n,
    {
        if n <= 0 {
            Seq::empty()
        } else {
            self.rows_text(n - 1) + self.row_text(n - 1)
        }
    }

    /// The rendered board: its four rows, then a bottom row of six border glyphs.
    pub open spec fn text(self) -> Seq<char> {
        self.rows_text(4) + bottom_text()
    }

    /// Replacing one cell leaves every other cell as it was.
    pub proof fn lemma_with_cell_at(self, row: int, col: int, item: Item)
        requires
            0 <= row < 4,
            0 <= col < 4,
        ensures
            forall|r: int, c: int|
                0 <= r < 4 && 0 <= c < 4 ==> #[trigger] self.with_cell(row, col, item).at(r, c)
                    == if r == row && c == col {
                    item
                } else {
                    self.at(r, c)
                },
    {
    }

    /// An empty board.
    pub fn new() -> (g: Grid)
        ensures
            g.is_clear(),
    {
        Grid([
            [Item::Empty, Item::Empty, Item::Empty, Item::Empty],
            [Item::Empty, Item::Empty, Item::Empty, Item::Empty],
            [Item::Empty, Item::Empty, Item::Empty, Item::Empty],
            [Item::Empty, Item::Empty, Item::Empty, Item::Empty],
        ])
    }

    /// The item at row `row`, column `col`.
    pub fn get(&self, row: usize, col: usize) -> (r: Item)
        requires
            row < 4,
            col < 4,
        ensures
            r == self.at(row as int, col as int),
    {
        self.0[row][col]
    }

    /// Puts `item` in the cell at row `row`, column `col`.
    pub fn set(&mut self, row: usize, col: usize, item: Item)
        requires
            row < 4,
            col < 4,
        ensures
            *final(self) == old(self).with_cell(row as int, col as int, item),
            forall|r: int, c: int|
                0 <= r < 4 && 0 <= c < 4 ==> #[trigger] final(self).at(r, c) == if r == row && c
                    == col {
                    item
                } else {
                    old(self).at(r, c)
                },
    {
        self.0[row][col] = item;
        proof {
            let want = old(self).with_cell(row as int, col as int, item);
            assert(self.0@[row as int] =~= want.0@[row as int]);
            assert(self.0 =~= want.0);
        }
    }

    /// The item at position `i` of line `k`.
    fn line_item(&self, k: usize, i: usize) -> (r: Item)
        requires
            k < 10,
            i < 4,
        ensures
            r == self.line_at(k as int, i as int),
    {
        if k < 4 {
            self.0[k][i]
        } else if k < 8 {
            self.0[i][k - 4]
        } else if k == 8 {
            self.0[i][i]
        } else {
            self.0[i][3 - i]
        }
    }

    /// The winner, if a line holds four equal items that are not empty.
    /// Rows are scanned first, top to bottom, then columns, left to right,
    /// then the main diagonal, then the anti-diagonal; the first won line
    /// decides.
    pub fn winner(&self) -> (r: Option<Item>)
        ensures
            r == self.winner_of(),
            r matches Some(t) ==> t != Item::Empty,
    {
        let mut k: usize = 0;
        while k < 10
            invariant
                k <= 10,
                self.first_win_from(0) == self.first_win_from(k as int),
            decreases 10 - k,
        {
            let first = self.line_item(k, 0);
            if first != Item::Empty && self.line_item(k, 1) == first && self.line_item(k, 2)
                == first && self.line_item(k, 3) == first {
                return Some(first);
            }
            k += 1;
        }
        None
    }

    /// Whether no cell is empty.
    pub fn full(&self) -> (r: bool)
        ensures
            r == self.is_full(),
    {
        let mut row: usize = 0;
        while row < 4
            invariant
                row <= 4,
                forall|r: int, c: int| 0 <= r < row && 0 <= c < 4 ==> self.at(r, c) != Item::Empty,
            decreases 4 - row,
        {
            let mut col: usize = 0;
            while col < 4
                invariant
                    row < 4,
                    col <= 4,
                    forall|r: int, c: int|
                        0 <= r < row && 0 <= c < 4 ==> self.at(r, c) != Item::Empty,
                    forall|c: int| 0 <= c < col ==> self.at(row as int, c) != Item::Empty,
                decreases 4 - col,
            {
                if self.0[row][col] == Item::Empty {
                    assert(self.at(row as int, col as int) == Item::Empty);
                    return false;
                }
                col += 1;
            }
            row += 1;
        }
        true
    }

    /// The board as text, one line per row and a bottom border line.
    pub fn render(&self) -> (s: String)
        ensures
            s@ == self.text(),
    {
        let mut s = String::new();
        let mut row: usize = 0;
        while row < 4
            invariant
                row <= 4,
                s@ == self.rows_text(row as int),
            decreases 4 - row,
        {
            proof {
                reveal_strlit("⬜");
                reveal_strlit("⬜\n");
            }
            let ghost s0 = s@;
            s.append("⬜");
            s.append(self.0[row][0].glyph_str());
            s.append(self.0[row][1].glyph_str());
            s.append(self.0[row][2].glyph_str());
            s.append(self.0[row][3].glyph_str());
            s.append("⬜\n");
            assert(s@ =~= s0 + self.row_text(row as int));
            assert(s@ =~= self.rows_text(row + 1));
            row += 1;
        }
        proof {
            reveal_strlit("⬜⬜⬜⬜⬜⬜\n");
        }
        s.append("⬜⬜⬜⬜⬜⬜\n");
        assert(s@ =~= self.text());
        s
    }
}


/// A board with every cell empty has no winner: no line can be won without
/// a piece on it.
pub proof fn lemma_clear_board_has_no_winner(g: Grid)
    requires
        g.is_clear(),
    ensures
        g.winner_of() is None,
{
    lemma_no_line_won_from(g, 0);
}

/// On a board with every cell empty, no line from line `k` on is won.
proof fn lemma_no_line_won_from(g: Grid, k: int)
    requires
        g.is_clear(),
        0 <= k,
    ensures
        g.first_win_from(k) is None,
    decreases num_lines() - k,
{
    if k < num_lines() {
        assert(g.line_at(k, 0) == Item::Empty);
        lemma_no_line_won_from(g, k + 1);
    }
}

} // verus!
