//! Direction controller: resolves the four directional input signals into the
//! single heading committed for the current tick.

use vstd::prelude::*;

verus! {

/// The committed direction of travel for a tick.
#[derive(Copy, Clone, Debug, PartialEq, Eq, Structural)]
pub enum Heading {
    Up,
    Down,
    Left,
    Right,
}

impl Default for Heading {
    /// The initial heading of a fresh game is rightward.
    fn default() -> (d: Heading)
        ensures
            d == Heading::Right,
    {
        Heading::Right
    }
}

/// The heading committed for a tick, given the heading carried over from the
/// previous tick and the four resolved input signals. The inputs are checked
/// in the fixed order up, down, left, right, and a later check overwrites an
/// earlier one, so among simultaneously asserted inputs the last-checked wins.
/// No validation against the current heading is performed: a direct reversal
/// is committed as-is.
pub open spec fn spec_resolve(cur: Heading, up: bool, down: bool, left: bool, right: bool) -> Heading {
    if right {
        Heading::Right
    } else if left {
        Heading::Left
    } else if down {
        Heading::Down
    } else if up {
        Heading::Up
    } else {
        cur
    }
}

/// The heading opposite to `d`; committing it is not prevented by
/// `resolve_direction` (reversals are unguarded).
pub open spec fn spec_opposite(d: Heading) -> Heading {
    match d {
        Heading::Up => Heading::Down,
        Heading::Down => Heading::Up,
        Heading::Left => Heading::Right,
        Heading::Right => Heading::Left,
    }
}

/// Resolve the directional inputs polled this tick into the committed heading,
/// last-write-wins over the fixed check order up, down, left, right.
pub fn resolve_direction(cur: Heading, up: bool, down: bool, left: bool, right: bool) -> (d: Heading)
    ensures
        d == spec_resolve(cur, up, down, left, right),
{
    let mut d = cur;
    if up {
        d = Heading::Up;
    }
    if down {
        d = Heading::Down;
    }
    if left {
        d = Heading::Left;
    }
    if right {
        d = Heading::Right;
    }
    d
}

/// Direction commit precedence: when several inputs are asserted in one tick,
/// the committed heading is the one checked last among up, down, left, right
/// in that fixed order; when none is asserted the previous heading stands.
pub proof fn lemma_direction_precedence(cur: Heading, up: bool, down: bool, left: bool, right: bool)
    ensures
        right ==> spec_resolve(cur, up, down, left, right) == Heading::Right,
        !right && left ==> spec_resolve(cur, up, down, left, right) == Heading::Left,
        !right && !left && down ==> spec_resolve(cur, up, down, left, right) == Heading::Down,
        !right && !left && !down && up ==> spec_resolve(cur, up, down, left, right) == Heading::Up,
        !right && !left && !down && !up ==> spec_resolve(cur, up, down, left, right) == cur,
{
}

/// A reversal is never filtered out: the opposite of the current heading,
/// asserted alone, is committed like any other input.
pub proof fn lemma_reversal_committed(cur: Heading)
    ensures
        spec_resolve(
            cur,
            spec_opposite(cur) == Heading::Up,
            spec_opposite(cur) == Heading::Down,
            spec_opposite(cur) == Heading::Left,
            spec_opposite(cur) == Heading::Right,
        ) == spec_opposite(cur),
{
}

} // verus!
