//! The aggregate game state and the per-tick update: direction arbitration,
//! chain repositioning, target-collision detection, and growth.

use vstd::prelude::*;
use std::collections::VecDeque;

use crate::chain::Segment;
use crate::chain::SegModel;
use crate::chain::chain_model;
use crate::chain::fits_i64;
use crate::chain::grow_chain;
use crate::chain::grow_fits;
use crate::chain::move_chain;
use crate::chain::move_fits;
use crate::chain::spec_grown_part;
use crate::chain::spec_moved;
use crate::chain::spec_moved_head;
use crate::direction::Heading;
use crate::direction::resolve_direction;
use crate::direction::spec_resolve;

verus! {

/// Edge length given to the head segment at game initialization.
pub const PLAYER_SIZE: i64 = 20;

/// Edge length of the target.
pub const TARGET_SIZE: i64 = 20;

/// The consumable target: a square spawn point at `(x, y)` with edge length
/// `size`. Exactly one exists at a time; it is relocated, never destroyed,
/// on consumption. Its display attribute (a color) is owned by the renderer
/// outside this library.
#[derive(Copy, Clone, Debug, PartialEq, Eq, Structural)]
pub struct Target {
    pub x: i64,
    pub y: i64,
    pub size: i64,
}

/// Mathematical model of the target, with unbounded integer coordinates.
pub struct TargetModel {
    pub x: int,
    pub y: int,
    pub size: int,
}

impl View for Target {
    type V = TargetModel;

    open spec fn view(&self) -> TargetModel {
        TargetModel { x: self.x as int, y: self.y as int, size: self.size as int }
    }
}

/// The whole game state: the segment chain (front = head), the heading
/// committed on the last tick, and the target.
pub struct Game {
    pub parts: VecDeque<Segment>,
    pub last_dir: Heading,
    pub food: Target,
}

/// Mathematical model of the game state.
#[verifier::ext_equal]
pub struct GameModel {
    pub parts: Seq<SegModel>,
    pub last_dir: Heading,
    pub food: TargetModel,
}

impl View for Game {
    type V = GameModel;

    open spec fn view(&self) -> GameModel {
        GameModel {
            parts: chain_model(self.parts@),
            last_dir: self.last_dir,
            food: self.food@,
        }
    }
}

impl Game {
    /// The state invariant: the chain is never empty.
    pub open spec fn wf(self) -> bool {
        self.parts@.len() >= 1
    }
}

impl Default for Game {
    /// A fresh game: a one-segment chain at the origin with zero size (the
    /// real position and size are set by `init_game`), heading right, and
    /// the target at the origin with its fixed edge length.
    fn default() -> (g: Game)
        ensures
            g.wf(),
            g@.parts == seq![SegModel { x: 0, y: 0, size: 0 }],
            g@.last_dir == Heading::Right,
            g@.food == (TargetModel { x: 0, y: 0, size: TARGET_SIZE as int }),
    {
        let mut parts: VecDeque<Segment> = VecDeque::new();
        parts.push_back(Segment { x: 0, y: 0, size: 0 });
        let g = Game {
            parts,
            last_dir: Heading::Right,
            food: Target { x: 0, y: 0, size: TARGET_SIZE },
        };
        proof {
            assert(g@.parts =~= seq![SegModel { x: 0, y: 0, size: 0 }]);
        }
        g
    }
}

/// The head is strictly inside the target's tolerance box: its point
/// position lies strictly within `size` of the target's corner on both
/// axes. The test uses the target's `size` as a radius-like tolerance in
/// both directions (a generous square proximity test, not exact bounding-box
/// intersection).
pub open spec fn spec_hits(seg: SegModel, t: TargetModel) -> bool {
    &&& t.x - t.size < seg.x < t.x + t.size
    &&& t.y - t.size < seg.y < t.y + t.size
}

/// The target's tolerance box bounds are representable as machine integers.
pub open spec fn target_box_fits(t: TargetModel) -> bool {
    &&& fits_i64(t.x - t.size)
    &&& fits_i64(t.x + t.size)
    &&& fits_i64(t.y - t.size)
    &&& fits_i64(t.y + t.size)
}

/// Decide whether segment `seg` (in practice, the post-move head) lies
/// strictly inside the tolerance box of target `t`.
pub fn hits_target(seg: &Segment, t: &Target) -> (b: bool)
    requires
        target_box_fits(t@),
    ensures
        b == spec_hits(seg@, t@),
{
    seg.x > t.x - t.size && seg.x < t.x + t.size && seg.y > t.y - t.size && seg.y < t.y + t.size
}

/// Every machine-integer addition and subtraction performed by one tick's
/// update stays representable: the repositioned head, the target's tolerance
/// box, and — when that head lands inside the box — the appended growth
/// segment.
pub open spec fn tick_fits(g: GameModel, d: Heading) -> bool {
    &&& move_fits(g.parts, d)
    &&& target_box_fits(g.food)
    &&& (spec_hits(spec_moved_head(g.parts, d), g.food) ==> grow_fits(spec_moved(g.parts, d), d))
}

/// The whole game state after one tick, given the four resolved directional
/// input signals and the two random coordinates `(rx, ry)` the target moves
/// to if it is consumed this tick. The committed heading is resolved first;
/// the chain is repositioned; then, if the new head lies strictly inside the
/// target's tolerance box, the target is relocated to `(rx, ry)` and exactly
/// one growth segment is appended — at most once per tick.
pub open spec fn spec_tick(
    g: GameModel,
    up: bool,
    down: bool,
    left: bool,
    right: bool,
    rx: int,
    ry: int,
) -> GameModel
    recommends
        g.parts.len() >= 1,
{
    let d = spec_resolve(g.last_dir, up, down, left, right);
    let moved = spec_moved(g.parts, d);
    if spec_hits(moved[0], g.food) {
        GameModel {
            parts: moved.push(spec_grown_part(moved[0], d)),
            last_dir: d,
            food: TargetModel { x: rx, y: ry, size: g.food.size },
        }
    } else {
        GameModel { parts: moved, last_dir: d, food: g.food }
    }
}

/// Place the head mid-screen with its fixed edge length and the target at
/// one third of the screen in both axes, for a screen of `width` by
/// `height`. Everything else is left as `Default` built it.
pub fn init_game(game: &mut Game, width: i64, height: i64)
    requires
        old(game).wf(),
        0 <= width,
        0 <= height,
    ensures
        final(game).wf(),
        final(game)@.parts == old(game)@.parts.update(
            0,
            (SegModel { x: width as int / 2, y: height as int / 2, size: PLAYER_SIZE as int }),
        ),
        final(game)@.last_dir == old(game)@.last_dir,
        final(game)@.food == (TargetModel {
            x: width as int / 3,
            y: height as int / 3,
            size: old(game)@.food.size,
        }),
{
    let ghost m0 = game@;
    game.food.x = width / 3;
    game.food.y = height / 3;
    let mut head = game.parts.pop_front().unwrap();
    head.x = width / 2;
    head.y = height / 2;
    head.size = PLAYER_SIZE;
    game.parts.push_front(head);
    proof {
        assert(game@.parts =~= m0.parts.update(
            0,
            (SegModel { x: width as int / 2, y: height as int / 2, size: PLAYER_SIZE as int }),
        ));
    }
}

/// One simulation tick. `up`, `down`, `left`, `right` are the resolved
/// directional input signals polled for this tick; `rand_x` and `rand_y` are
/// the two independently drawn random coordinates to be used as the target's
/// new position if the target is consumed this tick (they are ignored
/// otherwise). The chain never comes out shorter than one segment.
pub fn update_game(
    game: &mut Game,
    up: bool,
    down: bool,
    left: bool,
    right: bool,
    rand_x: i64,
    rand_y: i64,
)
    requires
        old(game).wf(),
        tick_fits(old(game)@, spec_resolve(old(game)@.last_dir, up, down, left, right)),
    ensures
        final(game).wf(),
        final(game)@ == spec_tick(old(game)@, up, down, left, right, rand_x as int, rand_y as int),
        final(game)@.parts.len() >= 1,
{
    let ghost m0 = game@;
    let d = resolve_direction(game.last_dir, up, down, left, right);
    game.last_dir = d;
    move_chain(&mut game.parts, d);
    let head: Segment = game.parts[0];
    if hits_target(&head, &game.food) {
        game.food.x = rand_x;
        game.food.y = rand_y;
        grow_chain(&mut game.parts, d);
    }
    proof {
        assert(game@ =~= spec_tick(m0, up, down, left, right, rand_x as int, rand_y as int));
    }
}

} // verus!
