//! The eight directions a gradient or a placement can point to.

use vstd::prelude::*;
use vstd::string::*;
use crate::text::same_text;

verus! {

#[derive(Debug, Clone, Copy, PartialEq, Eq, Structural)]
pub enum Direction {
    Bottom,
    BottomLeft,
    BottomRight,
    Top,
    TopLeft,
    TopRight,
    Left,
    Right,
}

impl Default for Direction {
    fn default() -> (d: Self)
        ensures
            d == Direction::Bottom,
    {
        Direction::Bottom
    }
}

impl Direction {
    /// How many directions there are.
    pub const COUNT: usize = 8;

    /// The keyword of a direction: its name in lower case, words joined by a
    /// hyphen.
    pub open spec fn keyword(self) -> Seq<char> {
        match self {
            Direction::Bottom => "bottom"@,
            Direction::BottomLeft => "bottom-left"@,
            Direction::BottomRight => "bottom-right"@,
            Direction::Top => "top"@,
            Direction::TopLeft => "top-left"@,
            Direction::TopRight => "top-right"@,
            Direction::Left => "left"@,
            Direction::Right => "right"@,
        }
    }

    /// The direction that a keyword names, if it names one.
    pub open spec fn of_keyword(t: Seq<char>) -> Option<Direction> {
        if t == "bottom"@ {
            Some(Direction::Bottom)
        } else if t == "bottom-left"@ {
            Some(Direction::BottomLeft)
        } else if t == "bottom-right"@ {
            Some(Direction::BottomRight)
        } else if t == "top"@ {
            Some(Direction::Top)
        } else if t == "top-left"@ {
            Some(Direction::TopLeft)
        } else if t == "top-right"@ {
            Some(Direction::TopRight)
        } else if t == "left"@ {
            Some(Direction::Left)
        } else if t == "right"@ {
            Some(Direction::Right)
        } else {
            None
        }
    }

    /// The words that follow a gradient's opening bracket for a direction.
    pub open spec fn gradient_side(self) -> Seq<char> {
        match self {
            Direction::Bottom => "to bottom"@,
            Direction::BottomLeft => "to left bottom"@,
            Direction::BottomRight => "to bottom right"@,
            Direction::Left => "to left"@,
            Direction::Right => "to right"@,
            Direction::Top => "to top"@,
            Direction::TopLeft => "to top left"@,
            Direction::TopRight => "to top right"@,
        }
    }

    pub fn as_str(&self) -> (s: &'static str)
        ensures
            s@ == self.keyword(),
    {
        match self {
            Direction::Bottom => "bottom",
            Direction::BottomLeft => "bottom-left",
            Direction::BottomRight => "bottom-right",
            Direction::Top => "top",
            Direction::TopLeft => "top-left",
            Direction::TopRight => "top-right",
            Direction::Left => "left",
            Direction::Right => "right",
        }
    }

    pub fn to_text(&self) -> (s: String)
        ensures
            s@ == self.keyword(),
    {
        String::from_str(self.as_str())
    }

    pub fn gradient_side_text(&self) -> (s: &'static str)
        ensures
            s@ == self.gradient_side(),
    {
        match self {
            Direction::Bottom => "to bottom",
            Direction::BottomLeft => "to left bottom",
            Direction::BottomRight => "to bottom right",
            Direction::Left => "to left",
            Direction::Right => "to right",
            Direction::Top => "to top",
            Direction::TopLeft => "to top left",
            Direction::TopRight => "to top right",
        }
    }

    /// Reads a keyword; the match is exact, case included.
    pub fn parse(s: &str) -> (d: Option<Direction>)
        ensures
            d == Direction::of_keyword(s@),
    {
        if same_text(s, "bottom") {
            Some(Direction::Bottom)
        } else if same_text(s, "bottom-left") {
            Some(Direction::BottomLeft)
        } else if same_text(s, "bottom-right") {
            Some(Direction::BottomRight)
        } else if same_text(s, "top") {
            Some(Direction::Top)
        } else if same_text(s, "top-left") {
            Some(Direction::TopLeft)
        } else if same_text(s, "top-right") {
            Some(Direction::TopRight)
        } else if same_text(s, "left") {
            Some(Direction::Left)
        } else if same_text(s, "right") {
            Some(Direction::Right)
        } else {
            None
        }
    }

    /// Every direction once, in the order of declaration.
    pub fn all() -> (v: Vec<Direction>)
        ensures
            v@ == seq![
                Direction::Bottom,
                Direction::BottomLeft,
                Direction::BottomRight,
                Direction::Top,
                Direction::TopLeft,
                Direction::TopRight,
                Direction::Left,
                Direction::Right,
            ],
            v@.len() == Direction::COUNT,
    {
        let v = vec![
            Direction::Bottom,
            Direction::BottomLeft,
            Direction::BottomRight,
            Direction::Top,
            Direction::TopLeft,
            Direction::TopRight,
            Direction::Left,
            Direction::Right,
        ];
        assert(v@ =~= seq![
            Direction::Bottom,
            Direction::BottomLeft,
            Direction::BottomRight,
            Direction::Top,
            Direction::TopLeft,
            Direction::TopRight,
            Direction::Left,
            Direction::Right,
        ]);
        v
    }

    /// Reading the keyword of a direction gives that direction back.
    pub proof fn keyword_round_trip(d: Direction)
        ensures
            Direction::of_keyword(d.keyword()) == Some(d),
    {
        reveal_strlit("bottom");
        reveal_strlit("bottom-left");
        reveal_strlit("bottom-right");
        reveal_strlit("top");
        reveal_strlit("top-left");
        reveal_strlit("top-right");
        reveal_strlit("left");
        reveal_strlit("right");
        assert("bottom"@.len() == 6);
        assert("bottom-left"@.len() == 11);
        assert("bottom-right"@.len() == 12);
        assert("top"@.len() == 3);
        assert("top-left"@.len() == 8);
        assert("top-right"@.len() == 9);
        assert("left"@.len() == 4);
        assert("right"@.len() == 5);
    }

    /// A keyword is read as a direction only if it is that direction's keyword.
    pub proof fn keyword_read_exact(t: Seq<char>, d: Direction)
        requires
            Direction::of_keyword(t) == Some(d),
        ensures
            d.keyword() == t,
    {
    }
}

} // verus!
