//! The behavioural laws of the per-tick update, stated and proved over the
//! mathematical model that the executable functions' contracts use.

use vstd::prelude::*;

use crate::chain::SegModel;
use crate::chain::spec_dx;
use crate::chain::spec_dy;
use crate::chain::spec_grown_part;
use crate::chain::spec_moved;
use crate::chain::spec_moved_head;
use crate::direction::Heading;
use crate::direction::spec_opposite;
use crate::direction::spec_resolve;
use crate::game::GameModel;
use crate::game::TargetModel;
use crate::game::spec_hits;
use crate::game::spec_tick;

verus! {

/// The chain invariant: a tick never leaves the chain empty. Whatever the
/// inputs, a chain of at least one segment comes out of the update with at
/// least one segment.
pub proof fn lemma_chain_never_empty(
    g: GameModel,
    up: bool,
    down: bool,
    left: bool,
    right: bool,
    rx: int,
    ry: int,
)
    requires
        g.parts.len() >= 1,
    ensures
        spec_tick(g, up, down, left, right, rx, ry).parts.len() >= 1,
{
}

/// Single-segment step: a one-segment chain heading right, with no
/// consumption this tick, moves its sole segment by exactly its own edge
/// length along the x axis, and the chain length is unchanged.
pub proof fn lemma_single_segment_step(g: GameModel, rx: int, ry: int)
    requires
        g.parts.len() == 1,
        g.last_dir == Heading::Right,
        !spec_hits(spec_moved_head(g.parts, Heading::Right), g.food),
    ensures
        ({
            let t = spec_tick(g, false, false, false, false, rx, ry);
            &&& t.parts.len() == 1
            &&& t.parts[0].x == g.parts[0].x + g.parts[0].size
            &&& t.parts[0].y == g.parts[0].y
            &&& t.parts[0].size == g.parts[0].size
            &&& t.food == g.food
        }),
{
}

/// Follow-the-leader preserves length: for a chain of two or more segments
/// and a tick without consumption, the chain keeps its length, the new head
/// sits exactly one `size` unit from the old head in the committed heading's
/// direction, and the old tail is removed from its prior slot — the rest of
/// the chain is the old chain with the tail dropped, shifted back one slot.
pub proof fn lemma_follow_the_leader(
    g: GameModel,
    up: bool,
    down: bool,
    left: bool,
    right: bool,
    rx: int,
    ry: int,
)
    requires
        g.parts.len() >= 2,
        !spec_hits(
            spec_moved_head(g.parts, spec_resolve(g.last_dir, up, down, left, right)),
            g.food,
        ),
    ensures
        ({
            let d = spec_resolve(g.last_dir, up, down, left, right);
            let t = spec_tick(g, up, down, left, right, rx, ry);
            &&& t.parts.len() == g.parts.len()
            &&& t.parts[0].x == g.parts[0].x + spec_dx(d, g.parts[0].size)
            &&& t.parts[0].y == g.parts[0].y + spec_dy(d, g.parts[0].size)
            &&& t.parts == seq![spec_moved_head(g.parts, d)] + g.parts.drop_last()
            &&& forall|i: int| 1 <= i < g.parts.len() ==> t.parts[i] == g.parts[i - 1]
            &&& t.food == g.food
        }),
{
    let d = spec_resolve(g.last_dir, up, down, left, right);
    let t = spec_tick(g, up, down, left, right, rx, ry);
    assert forall|i: int| 1 <= i < g.parts.len() implies t.parts[i] == g.parts[i - 1] by {
        assert(t.parts[i] == g.parts.drop_last()[i - 1]);
    }
}

/// Growth on consumption: when a one-segment chain's head lands strictly
/// inside the target's tolerance box, the tick produces a chain of exactly
/// two segments, relocates the target to the drawn coordinates — inside
/// `[0, w) x [0, h)` whenever the random source drew inside those bounds —
/// and places the new segment one `size` unit beyond the post-move head in
/// the committed heading's direction.
pub proof fn lemma_growth_on_collision(
    g: GameModel,
    up: bool,
    down: bool,
    left: bool,
    right: bool,
    rx: int,
    ry: int,
    w: int,
    h: int,
)
    requires
        g.parts.len() == 1,
        spec_hits(spec_moved_head(g.parts, spec_resolve(g.last_dir, up, down, left, right)), g.food),
        0 <= rx < w,
        0 <= ry < h,
    ensures
        ({
            let d = spec_resolve(g.last_dir, up, down, left, right);
            let t = spec_tick(g, up, down, left, right, rx, ry);
            &&& t.parts.len() == 2
            &&& 0 <= t.food.x < w
            &&& 0 <= t.food.y < h
            &&& t.food.size == g.food.size
            &&& t.parts[1].x == t.parts[0].x + spec_dx(d, t.parts[0].size)
            &&& t.parts[1].y == t.parts[0].y + spec_dy(d, t.parts[0].size)
            &&& t.parts[0] == spec_moved_head(g.parts, d)
        }),
{
}

/// No double growth: a tick whose post-move head lies inside the target's
/// tolerance box appends exactly one segment — the chain grows by one, no
/// more — and relocates the target exactly once, to the drawn coordinates.
pub proof fn lemma_no_double_growth(
    g: GameModel,
    up: bool,
    down: bool,
    left: bool,
    right: bool,
    rx: int,
    ry: int,
)
    requires
        g.parts.len() >= 1,
        spec_hits(spec_moved_head(g.parts, spec_resolve(g.last_dir, up, down, left, right)), g.food),
    ensures
        ({
            let d = spec_resolve(g.last_dir, up, down, left, right);
            let t = spec_tick(g, up, down, left, right, rx, ry);
            &&& t.parts.len() == g.parts.len() + 1
            &&& t.parts == spec_moved(g.parts, d).push(
                spec_grown_part(spec_moved_head(g.parts, d), d),
            )
            &&& t.food == (TargetModel { x: rx, y: ry, size: g.food.size })
        }),
{
}

/// Reversal is unguarded (documented behaviour, not a bug-fix target):
/// for a two-segment chain whose tail trails the head by one step of the
/// current heading, asserting the opposite direction alone is committed
/// as-is, and the follow-the-leader step then places the new head exactly
/// on the old tail's position — the head doubles back onto its own body's
/// cell.
pub proof fn lemma_reversal_unguarded(g: GameModel, rx: int, ry: int)
    requires
        g.parts.len() == 2,
        g.parts[1].x == g.parts[0].x - spec_dx(g.last_dir, g.parts[0].size),
        g.parts[1].y == g.parts[0].y - spec_dy(g.last_dir, g.parts[0].size),
    ensures
        ({
            let o = spec_opposite(g.last_dir);
            let up = (o == Heading::Up);
            let down = (o == Heading::Down);
            let left = (o == Heading::Left);
            let right = (o == Heading::Right);
            let t = spec_tick(g, up, down, left, right, rx, ry);
            &&& spec_resolve(g.last_dir, up, down, left, right) == o
            &&& t.last_dir == o
            &&& t.parts[0].x == g.parts[1].x
            &&& t.parts[0].y == g.parts[1].y
        }),
{
}

} // verus!
