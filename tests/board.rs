use cookie_board::grid::Grid;
use cookie_board::item::Item;
use cookie_board::placement::{Outcome, PlaceError};
use cookie_board::service::{board, place, random_board, reset, Status, BOARD_SEED};
use rand::rngs::StdRng;
use rand::{Rng, SeedableRng};

const EMPTY_BOARD: &str = "⬜⬛⬛⬛⬛⬜\n⬜⬛⬛⬛⬛⬜\n⬜⬛⬛⬛⬛⬜\n⬜⬛⬛⬛⬛⬜\n⬜⬜⬜⬜⬜⬜\n";

fn fresh() -> (Grid, StdRng) {
    (Grid::new(), StdRng::seed_from_u64(BOARD_SEED))
}

fn cells(g: &Grid) -> Vec<Item> {
    let mut v = Vec::new();
    for r in 0..4 {
        for c in 0..4 {
            v.push(g.get(r, c));
        }
    }
    v
}

/// A full board on which no line is won.
fn full_without_winner() -> Grid {
    let bits = vec![
        true, true, false, false, //
        false, false, true, true, //
        true, true, false, false, //
        false, false, true, true,
    ];
    Grid::from_bits(&bits)
}

#[test]
fn empty_board_has_no_winner() {
    let g = Grid::new();
    assert_eq!(g.winner(), None);
    assert!(!g.full());
    assert_eq!(g.outcome(), Outcome::InProgress);
}

#[test]
fn show_twice_gives_same_text() {
    let (mut g, _) = fresh();
    place(&mut g, "cookie", 2);
    let first = board(&g);
    let second = board(&g);
    assert_eq!(first.status, Status::Success);
    assert_eq!(first.body, second.body);
}

#[test]
fn reset_then_random_board_is_reproducible() {
    let (mut g1, mut r1) = fresh();
    random_board(&mut g1, &mut r1);
    place(&mut g1, "milk", 1);
    reset(&mut g1, &mut r1);
    assert_eq!(cells(&g1), vec![Item::Empty; 16]);
    let a = random_board(&mut g1, &mut r1);

    let (mut g2, mut r2) = fresh();
    random_board(&mut g2, &mut r2);
    random_board(&mut g2, &mut r2);
    reset(&mut g2, &mut r2);
    let b = random_board(&mut g2, &mut r2);

    assert_eq!(a.body, b.body);
    assert_eq!(cells(&g1), cells(&g2));
}

#[test]
fn pieces_stack_from_the_bottom() {
    let (mut g, _) = fresh();
    let teams = ["cookie", "milk", "cookie", "milk"];
    for (k, team) in teams.iter().enumerate() {
        let r = place(&mut g, team, 3);
        assert_eq!(r.status, Status::Success);
        for row in 0..4 {
            let filled = g.get(row, 2) != Item::Empty;
            assert_eq!(filled, row >= 3 - k);
        }
    }
    assert_eq!(g.get(3, 2), Item::Cookie);
    assert_eq!(g.get(2, 2), Item::Milk);
    assert_eq!(g.get(1, 2), Item::Cookie);
    assert_eq!(g.get(0, 2), Item::Milk);
}

#[test]
fn no_placement_after_a_win() {
    let (mut g, _) = fresh();
    for col in 1..=4 {
        place(&mut g, "milk", col);
    }
    let won = g;
    for col in 1..=4 {
        for team in ["cookie", "milk"] {
            let r = place(&mut g, team, col);
            assert_eq!(r.status, Status::ServiceUnavailable);
            assert_eq!(r.body, format!("{}🥛 wins!\n", won.render()));
            assert_eq!(cells(&g), cells(&won));
        }
    }
    assert_eq!(g.drop_piece(0, Item::Cookie), Err(PlaceError::GameOver(Item::Milk)));
}

#[test]
fn bottom_row_of_cookies_wins() {
    let (mut g, _) = fresh();
    for col in 1..=3 {
        let r = place(&mut g, "cookie", col);
        assert_eq!(r.status, Status::Success);
        assert_eq!(r.body, g.render());
    }
    let r = place(&mut g, "cookie", 4);
    assert_eq!(r.status, Status::Success);
    let expected = "⬜⬛⬛⬛⬛⬜\n⬜⬛⬛⬛⬛⬜\n⬜⬛⬛⬛⬛⬜\n⬜🍪🍪🍪🍪⬜\n⬜⬜⬜⬜⬜⬜\n🍪 wins!\n";
    assert_eq!(r.body, expected);
    for c in 0..4 {
        assert_eq!(g.get(3, c), Item::Cookie);
    }
    assert_eq!(g.winner(), Some(Item::Cookie));
}

#[test]
fn reset_then_show_is_empty() {
    let (mut g, mut rng) = fresh();
    place(&mut g, "cookie", 1);
    let r = reset(&mut g, &mut rng);
    assert_eq!(r.status, Status::Success);
    assert_eq!(r.body, EMPTY_BOARD);
    let shown = board(&g);
    assert_eq!(shown.status, Status::Success);
    assert_eq!(shown.body, EMPTY_BOARD);
}

#[test]
fn full_column_is_refused() {
    let (mut g, _) = fresh();
    for team in ["cookie", "milk", "cookie", "milk"] {
        let r = place(&mut g, team, 1);
        assert_eq!(r.status, Status::Success);
    }
    let before = g;
    let r = place(&mut g, "cookie", 1);
    assert_eq!(r.status, Status::ServiceUnavailable);
    assert_eq!(r.body, format!("{}No winner.\n", before.render()));
    assert_eq!(cells(&g), cells(&before));
    assert_eq!(g.drop_piece(0, Item::Milk), Err(PlaceError::ColumnFull));
}

#[test]
fn consecutive_random_boards_follow_the_stream() {
    let (mut g, mut rng) = fresh();
    let first = random_board(&mut g, &mut rng);
    let first_cells = cells(&g);
    let second = random_board(&mut g, &mut rng);
    assert_ne!(first_cells, cells(&g));
    assert_ne!(first.body, second.body);

    let mut stream = StdRng::seed_from_u64(2024);
    let bits: Vec<bool> = (0..32).map(|_| stream.gen::<bool>()).collect();
    let one = Grid::from_bits(&bits[..16].to_vec());
    let two = Grid::from_bits(&bits[16..].to_vec());
    assert_eq!(first_cells, cells(&one));
    assert_eq!(cells(&g), cells(&two));
    assert!(second.body.ends_with(" wins!\n") || second.body.ends_with("No winner.\n"));
}

#[test]
fn random_board_names_the_winner_or_none() {
    let (mut g, mut rng) = fresh();
    for _ in 0..8 {
        let r = random_board(&mut g, &mut rng);
        assert_eq!(r.status, Status::Success);
        assert!(!cells(&g).contains(&Item::Empty));
        let expected = match g.winner() {
            Some(Item::Cookie) => format!("{}🍪 wins!\n", g.render()),
            Some(Item::Milk) => format!("{}🥛 wins!\n", g.render()),
            _ => format!("{}No winner.\n", g.render()),
        };
        assert_eq!(r.body, expected);
    }
}

#[test]
fn random_board_ignores_a_finished_game() {
    let (mut g, mut rng) = fresh();
    for col in 1..=4 {
        place(&mut g, "cookie", col);
    }
    let r = random_board(&mut g, &mut rng);
    assert_eq!(r.status, Status::Success);
    assert!(!cells(&g).contains(&Item::Empty));
}

#[test]
fn bad_team_or_column_is_a_bad_request() {
    let (mut g, _) = fresh();
    for (team, col) in [("chocolate", 1u8), ("Cookie", 2), ("cookie", 0), ("milk", 5), ("", 3)] {
        let r = place(&mut g, team, col);
        assert_eq!(r.status, Status::BadRequest);
        assert_eq!(r.body, "");
        assert_eq!(cells(&g), vec![Item::Empty; 16]);
    }
}

#[test]
fn team_names() {
    assert_eq!(Item::parse_team("cookie"), Some(Item::Cookie));
    assert_eq!(Item::parse_team("milk"), Some(Item::Milk));
    assert_eq!(Item::parse_team("milk "), None);
    assert_eq!(Item::parse_team("team-a"), None);
}

#[test]
fn render_shows_each_cell() {
    let mut g = Grid::new();
    g.set(0, 0, Item::Cookie);
    g.set(3, 3, Item::Milk);
    assert_eq!(
        g.render(),
        "⬜🍪⬛⬛⬛⬜\n⬜⬛⬛⬛⬛⬜\n⬜⬛⬛⬛⬛⬜\n⬜⬛⬛⬛🥛⬜\n⬜⬜⬜⬜⬜⬜\n"
    );
    assert_eq!(Grid::new().render(), EMPTY_BOARD);
}

#[test]
fn columns_and_diagonals_win() {
    let mut col = Grid::new();
    for r in 0..4 {
        col.set(r, 1, Item::Milk);
    }
    assert_eq!(col.winner(), Some(Item::Milk));

    let mut diag = Grid::new();
    for i in 0..4 {
        diag.set(i, i, Item::Cookie);
    }
    assert_eq!(diag.winner(), Some(Item::Cookie));

    let mut anti = Grid::new();
    for i in 0..4 {
        anti.set(i, 3 - i, Item::Milk);
    }
    assert_eq!(anti.winner(), Some(Item::Milk));

    let mut broken = anti;
    broken.set(2, 1, Item::Cookie);
    assert_eq!(broken.winner(), None);
}

#[test]
fn rows_are_scanned_before_columns() {
    // Row 0 is all milk and column 0 all cookie but for its top cell.
    let bits = vec![
        false, false, false, false, //
        true, false, true, false, //
        true, true, false, true, //
        true, false, true, true,
    ];
    let g = Grid::from_bits(&bits);
    assert_eq!(g.winner(), Some(Item::Milk));

    // Both a row of cookies and a column of milk: the row decides.
    let mut h = Grid::new();
    for c in 0..4 {
        h.set(3, c, Item::Cookie);
    }
    let mut m = h;
    for r in 0..4 {
        m.set(r, 0, Item::Milk);
    }
    assert_eq!(m.winner(), Some(Item::Milk));
    for c in 0..4 {
        m.set(1, c, Item::Cookie);
    }
    assert_eq!(m.winner(), Some(Item::Cookie));
}

#[test]
fn full_board_without_line_is_a_draw() {
    let g = full_without_winner();
    assert!(g.full());
    assert_eq!(g.winner(), None);
    assert_eq!(g.outcome(), Outcome::Draw);

    let mut h = g;
    h.set(0, 0, Item::Empty);
    assert!(!h.full());
    assert_eq!(h.drop_piece(0, Item::Cookie), Ok(Outcome::Draw));
    assert_eq!(cells(&h), cells(&g));

    // The service shows a drawn board without a winner line.
    let mut k = g;
    k.set(0, 0, Item::Empty);
    let r = place(&mut k, "cookie", 1);
    assert_eq!(r.status, Status::Success);
    assert_eq!(r.body, g.render());
}

#[test]
fn drop_piece_reports_outcomes() {
    let mut g = Grid::new();
    assert_eq!(g.drop_piece(1, Item::Milk), Ok(Outcome::InProgress));
    assert_eq!(g.get(3, 1), Item::Milk);
    assert_eq!(g.drop_piece(1, Item::Cookie), Ok(Outcome::InProgress));
    assert_eq!(g.get(2, 1), Item::Cookie);
    for c in [0, 2] {
        g.drop_piece(c, Item::Milk).unwrap();
    }
    assert_eq!(g.drop_piece(3, Item::Milk), Ok(Outcome::Win(Item::Milk)));
}

#[test]
fn from_bits_fills_row_by_row() {
    let mut bits = vec![false; 16];
    bits[1] = true;
    bits[14] = true;
    let g = Grid::from_bits(&bits);
    assert_eq!(g.get(0, 1), Item::Cookie);
    assert_eq!(g.get(3, 2), Item::Cookie);
    assert_eq!(g.get(0, 0), Item::Milk);
    assert_eq!(g.get(1, 1), Item::Milk);
    assert_eq!(cells(&g).iter().filter(|i| **i == Item::Cookie).count(), 2);
}

#[test]
fn seeded_stream_gives_known_first_board() {
    let mut rng = StdRng::seed_from_u64(7);
    let mut expected = StdRng::seed_from_u64(BOARD_SEED);
    let mut g = Grid::new();
    reset(&mut g, &mut rng);
    let got = Grid::new_rand(&mut rng);
    let bits: Vec<bool> = (0..16).map(|_| expected.gen::<bool>()).collect();
    assert_eq!(cells(&got), cells(&Grid::from_bits(&bits)));
    // The generator has moved on by exactly sixteen draws.
    assert_eq!(rng.gen::<u64>(), expected.gen::<u64>());
}
