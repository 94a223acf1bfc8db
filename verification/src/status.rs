//! The status colour of a service, ordered by severity.

use vstd::prelude::*;

verus! {

/// Health of a single service: `Red` is worst, `Green` is best.
#[derive(Clone, Copy, Debug, PartialEq, Eq, Structural)]
pub enum StatusColor {
    Red,
    Orange,
    Green,
}

impl StatusColor {
    /// Severity rank: Red (2) > Orange (1) > Green (0).
    pub open spec fn severity(self) -> int {
        match self {
            StatusColor::Red => 2,
            StatusColor::Orange => 1,
            StatusColor::Green => 0,
        }
    }

    /// The label used on the wire for each colour.
    pub open spec fn label_spec(self) -> Seq<char> {
        match self {
            StatusColor::Red => "RED"@,
            StatusColor::Orange => "ORANGE"@,
            StatusColor::Green => "GREEN"@,
        }
    }

    /// Uppercase wire label of this colour.
    pub fn label(self) -> (r: &'static str)
        ensures
            r@ == self.label_spec(),
    {
        match self {
            StatusColor::Red => "RED",
            StatusColor::Orange => "ORANGE",
            StatusColor::Green => "GREEN",
        }
    }
}

/// The colour a wire label denotes: anything but the two healthy labels
/// is read as `Red`.
pub open spec fn color_of_label(s: Seq<char>) -> StatusColor {
    if s == "GREEN"@ {
        StatusColor::Green
    } else if s == "ORANGE"@ {
        StatusColor::Orange
    } else {
        StatusColor::Red
    }
}

/// Parses a wire label; unknown labels are conservatively `Red`.
pub fn status_from_label(s: &str) -> (c: StatusColor)
    ensures
        c == color_of_label(s@),
{
    if str_eq(s, "GREEN") {
        StatusColor::Green
    } else if str_eq(s, "ORANGE") {
        StatusColor::Orange
    } else {
        StatusColor::Red
    }
}

/// String-slice equality, routed through vstd's `String` specifications.
fn str_eq(a: &str, b: &str) -> (r: bool)
    ensures
        r == (a@ == b@),
{
    a.to_owned() == b.to_owned()
}

} // verus!
