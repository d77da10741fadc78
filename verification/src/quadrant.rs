//! The four arena quadrants and how a point is assigned to one.

use vstd::prelude::*;
use crate::text::{
    chars_of, is_blank, lemma_trimmed_ignores_padding, lemma_trimmed_uppercase, spells, trim_bounds,
    trimmed, uppercase,
};

verus! {

/// The id of the landmark marker that stands in the top left quadrant.
pub const TOP_LEFT_MARKER_ID: i32 = 13;

/// The id of the landmark marker that stands in the top right quadrant.
pub const TOP_RIGHT_MARKER_ID: i32 = 11;

/// The id of the landmark marker that stands in the bottom left quadrant.
pub const BOTTOM_LEFT_MARKER_ID: i32 = 14;

/// The id of the landmark marker that stands in the bottom right quadrant.
pub const BOTTOM_RIGHT_MARKER_ID: i32 = 12;

/// One of the four regions that the frame's midlines cut the arena into.
#[derive(Clone, Copy, Debug, PartialEq, Eq, Structural)]
pub enum Quadrant {
    TopLeft,
    TopRight,
    BottomLeft,
    BottomRight,
}

impl Quadrant {
    /// Whether the point `(x, y)` lies in this quadrant's region of a frame
    /// `w` wide and `h` high. A point on a midline belongs to the region on
    /// the greater side of it.
    pub open spec fn contains(self, x: int, y: int, w: int, h: int) -> bool {
        match self {
            Quadrant::TopLeft => 2 * x < w && 2 * y < h,
            Quadrant::TopRight => 2 * x >= w && 2 * y < h,
            Quadrant::BottomLeft => 2 * x < w && 2 * y >= h,
            Quadrant::BottomRight => 2 * x >= w && 2 * y >= h,
        }
    }

    /// The quadrant of the point `(x, y)` in a frame `w` wide and `h` high:
    /// left or right of the vertical midline, above or below the horizontal one.
    pub open spec fn at(x: int, y: int, w: int, h: int) -> Quadrant {
        if 2 * x < w {
            if 2 * y < h {
                Quadrant::TopLeft
            } else {
                Quadrant::BottomLeft
            }
        } else {
            if 2 * y < h {
                Quadrant::TopRight
            } else {
                Quadrant::BottomRight
            }
        }
    }

    /// The quadrant of the point `(x, y)` in a frame `w` wide and `h` high.
    /// It is the one quadrant whose region contains the point.
    pub fn from_pos(x: i32, y: i32, w: i32, h: i32) -> (q: Quadrant)
        ensures
            q == Quadrant::at(x as int, y as int, w as int, h as int),
            q.contains(x as int, y as int, w as int, h as int),
            forall|p: Quadrant| p.contains(x as int, y as int, w as int, h as int) ==> p == q,
    {
        let right = 2 * (x as i64) >= w as i64;
        let below = 2 * (y as i64) >= h as i64;
        match (right, below) {
            (false, false) => Quadrant::TopLeft,
            (true, false) => Quadrant::TopRight,
            (false, true) => Quadrant::BottomLeft,
            (true, true) => Quadrant::BottomRight,
        }
    }

    /// The id of the landmark marker that stands in this quadrant.
    pub open spec fn marker_id(self) -> i32 {
        match self {
            Quadrant::TopLeft => TOP_LEFT_MARKER_ID,
            Quadrant::TopRight => TOP_RIGHT_MARKER_ID,
            Quadrant::BottomLeft => BOTTOM_LEFT_MARKER_ID,
            Quadrant::BottomRight => BOTTOM_RIGHT_MARKER_ID,
        }
    }

    /// The id of the landmark marker that stands in this quadrant.
    pub fn landmark_id(self) -> (id: i32)
        ensures
            id == self.marker_id(),
    {
        match self {
            Quadrant::TopLeft => TOP_LEFT_MARKER_ID,
            Quadrant::TopRight => TOP_RIGHT_MARKER_ID,
            Quadrant::BottomLeft => BOTTOM_LEFT_MARKER_ID,
            Quadrant::BottomRight => BOTTOM_RIGHT_MARKER_ID,
        }
    }

    /// The quadrant that a code names. A quadrant goes by the id of its
    /// landmark marker, by two letters, by `Q` and its number, by its number
    /// alone, and by its full name.
    pub open spec fn named(code: Seq<char>) -> Option<Quadrant> {
        if code == "13"@ || code == "TL"@ || code == "Q1"@ || code == "1"@ || code == "TOP_LEFT"@ {
            Some(Quadrant::TopLeft)
        } else if code == "11"@ || code == "TR"@ || code == "Q2"@ || code == "2"@ || code
            == "TOP_RIGHT"@ {
            Some(Quadrant::TopRight)
        } else if code == "14"@ || code == "BL"@ || code == "Q3"@ || code == "3"@ || code
            == "BOTTOM_LEFT"@ {
            Some(Quadrant::BottomLeft)
        } else if code == "12"@ || code == "BR"@ || code == "Q4"@ || code == "4"@ || code
            == "BOTTOM_RIGHT"@ {
            Some(Quadrant::BottomRight)
        } else {
            None
        }
    }

    /// The quadrant that a text names: the one that goes by the text's
    /// code, read without the white space around it and in upper case.
    pub open spec fn parsed(s: Seq<char>) -> Option<Quadrant> {
        Quadrant::named(uppercase(trimmed(s)))
    }

    /// Reads a quadrant from a text. White space around the code and the
    /// case of its letters do not count; a text that is no quadrant's code
    /// gives `None`.
    pub fn parse(s: &str) -> (q: Option<Quadrant>)
        ensures
            q == Quadrant::parsed(s@),
    {
        let chars: Vec<char> = chars_of(s);
        let (start, end) = trim_bounds(&chars);
        if spells(&chars, start, end, "13") || spells(&chars, start, end, "TL") || spells(
            &chars,
            start,
            end,
            "Q1",
        ) || spells(&chars, start, end, "1") || spells(&chars, start, end, "TOP_LEFT") {
            Some(Quadrant::TopLeft)
        } else if spells(&chars, start, end, "11") || spells(&chars, start, end, "TR") || spells(
            &chars,
            start,
            end,
            "Q2",
        ) || spells(&chars, start, end, "2") || spells(&chars, start, end, "TOP_RIGHT") {
            Some(Quadrant::TopRight)
        } else if spells(&chars, start, end, "14") || spells(&chars, start, end, "BL") || spells(
            &chars,
            start,
            end,
            "Q3",
        ) || spells(&chars, start, end, "3") || spells(&chars, start, end, "BOTTOM_LEFT") {
            Some(Quadrant::BottomLeft)
        } else if spells(&chars, start, end, "12") || spells(&chars, start, end, "BR") || spells(
            &chars,
            start,
            end,
            "Q4",
        ) || spells(&chars, start, end, "4") || spells(&chars, start, end, "BOTTOM_RIGHT") {
            Some(Quadrant::BottomRight)
        } else {
            None
        }
    }
}

/// Every point lies in exactly one quadrant's region: the four regions
/// cover the plane, and no two of them share a point.
pub proof fn lemma_quadrants_partition(x: int, y: int, w: int, h: int)
    ensures
        Quadrant::at(x, y, w, h).contains(x, y, w, h),
        forall|q: Quadrant| q.contains(x, y, w, h) <==> q == Quadrant::at(x, y, w, h),
        forall|p: Quadrant, q: Quadrant| p.contains(x, y, w, h) && q.contains(x, y, w, h) ==> p == q,
{
}

/// The case of its letters does not change what a text names: two texts
/// that are the same in upper case name the same quadrant, or both none.
pub proof fn lemma_parse_ignores_case(s: Seq<char>, t: Seq<char>)
    requires
        uppercase(s) == uppercase(t),
    ensures
        Quadrant::parsed(s) == Quadrant::parsed(t),
{
    lemma_trimmed_uppercase(s);
    lemma_trimmed_uppercase(t);
}

/// White space around it does not change what a text names.
pub proof fn lemma_parse_ignores_padding(lead: Seq<char>, s: Seq<char>, trail: Seq<char>)
    requires
        is_blank(lead),
        is_blank(trail),
    ensures
        Quadrant::parsed(lead + s + trail) == Quadrant::parsed(s),
{
    lemma_trimmed_ignores_padding(lead, s, trail);
}

} // verus!
