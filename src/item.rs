use vstd::prelude::*;

verus! {

/// What a cell of the board holds: one of the two teams, or nothing.
#[derive(Clone, Copy, Debug, PartialEq, Eq, Structural)]
pub enum Item {
    Cookie,
    Empty,
    Milk,
}

/// The glyph that shows an item on the rendered board.
pub open spec fn glyph(item: Item) -> char {
    match item {
        Item::Cookie => '🍪',
        Item::Empty => '⬛',
        Item::Milk => '🥛',
    }
}

/// The glyph of the board's border.
pub open spec fn border() -> char {
    '⬜'
}

/// The team named by `s`, if it names one.
pub open spec fn team_named(s: Seq<char>) -> Option<Item> {
    if s == "cookie"@ {
        Some(Item::Cookie)
    } else if s == "milk"@ {
        Some(Item::Milk)
    } else {
        None
    }
}

impl Item {
    /// The item as a one-glyph string.
    pub fn glyph_str(&self) -> (r: &'static str)
        ensures
            r@ == seq![glyph(*self)],
    {
        proof {
            reveal_strlit("🍪");
            reveal_strlit("⬛");
            reveal_strlit("🥛");
        }
        match self {
            Item::Cookie => "🍪",
            Item::Empty => "⬛",
            Item::Milk => "🥛",
        }
    }

    /// Reads a team name: `cookie` or `milk`.
    pub fn parse_team(s: &str) -> (r: Option<Item>)
        ensures
            r == team_named(s@),
    {
        let t = String::from_str(s);
        let cookie = String::from_str("cookie");
        let milk = String::from_str("milk");
        if t == cookie {
            Some(Item::Cookie)
        } else if t == milk {
            Some(Item::Milk)
        } else {
            None
        }
    }
}

} // verus!
