use vstd::prelude::*;

verus! {

/// The descriptive word for a speed ranking; rankings outside `[-2, 3]` get a
/// fallback label.
pub open spec fn speed_label(speed: int) -> Seq<char> {
    if speed == -2 {
        "crawling"@
    } else if speed == -1 {
        "edging"@
    } else if speed == 0 {
        "cruising"@
    } else if speed == 1 {
        "speeding"@
    } else if speed == 2 {
        "racing"@
    } else if speed == 3 {
        "tempting death"@
    } else {
        "freaking out"@
    }
}

/// Get the label for each speed ranking.
///
/// A total lookup: every speed ranking outside `[-2, 3]` maps to the fallback
/// label rather than failing.
pub fn speed_adj(speed: &isize) -> (r: &str)
    ensures
        r@ == speed_label(*speed as int),
{
    if *speed == -2 {
        "crawling"
    } else if *speed == -1 {
        "edging"
    } else if *speed == 0 {
        "cruising"
    } else if *speed == 1 {
        "speeding"
    } else if *speed == 2 {
        "racing"
    } else if *speed == 3 {
        "tempting death"
    } else {
        "freaking out"
    }
}

/// The descriptive word for a turn ranking; rankings outside `[1, 6]` get a
/// fallback label.
pub open spec fn turn_label(turn: int) -> Seq<char> {
    if turn == 1 {
        "straight"@
    } else if turn == 2 {
        "slight"@
    } else if turn == 3 {
        "smooth"@
    } else if turn == 4 {
        "sharp"@
    } else if turn == 5 {
        "banked"@
    } else if turn == 6 {
        "U"@
    } else {
        "impossible"@
    }
}

/// Get the label for each turn ranking.
///
/// A total lookup: every turn ranking outside `[1, 6]` maps to the fallback
/// label rather than failing.
pub fn turn_adj(turn: &isize) -> (r: &str)
    ensures
        r@ == turn_label(*turn as int),
{
    if *turn == 1 {
        "straight"
    } else if *turn == 2 {
        "slight"
    } else if *turn == 3 {
        "smooth"
    } else if *turn == 4 {
        "sharp"
    } else if *turn == 5 {
        "banked"
    } else if *turn == 6 {
        "U"
    } else {
        "impossible"
    }
}

} // verus!
