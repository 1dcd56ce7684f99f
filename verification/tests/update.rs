use std::collections::VecDeque;

use snaker::Game;
use snaker::Heading;
use snaker::Segment;
use snaker::Target;
use snaker::hits_target;
use snaker::init_game;
use snaker::update_game;

fn game_with(parts: Vec<Segment>, dir: Heading, food: Target) -> Game {
    let mut chain: VecDeque<Segment> = VecDeque::new();
    for p in parts {
        chain.push_back(p);
    }
    Game { parts: chain, last_dir: dir, food }
}

fn far_food() -> Target {
    Target { x: 1_000_000, y: 1_000_000, size: 20 }
}

#[test]
fn default_game_state() {
    let g = Game::default();
    assert_eq!(g.parts.len(), 1);
    assert_eq!(g.parts[0], Segment { x: 0, y: 0, size: 0 });
    assert_eq!(g.last_dir, Heading::Right);
    assert_eq!(g.food, Target { x: 0, y: 0, size: 20 });
}

#[test]
fn init_places_head_and_target() {
    let mut g = Game::default();
    init_game(&mut g, 800, 600);
    assert_eq!(g.parts.len(), 1);
    assert_eq!(g.parts[0], Segment { x: 400, y: 300, size: 20 });
    assert_eq!(g.food, Target { x: 266, y: 200, size: 20 });
    assert_eq!(g.last_dir, Heading::Right);
}

#[test]
fn single_segment_step_right() {
    let mut g = game_with(
        vec![Segment { x: 100, y: 100, size: 20 }],
        Heading::Right,
        far_food(),
    );
    update_game(&mut g, false, false, false, false, 7, 8);
    assert_eq!(g.parts.len(), 1);
    assert_eq!(g.parts[0], Segment { x: 120, y: 100, size: 20 });
    assert_eq!(g.food, far_food());
}

#[test]
fn single_segment_step_each_direction() {
    // The y axis grows downward: up subtracts, down adds.
    let start = Segment { x: 100, y: 100, size: 20 };
    let cases = [
        (Heading::Up, Segment { x: 100, y: 80, size: 20 }),
        (Heading::Down, Segment { x: 100, y: 120, size: 20 }),
        (Heading::Left, Segment { x: 80, y: 100, size: 20 }),
        (Heading::Right, Segment { x: 120, y: 100, size: 20 }),
    ];
    for (dir, expected) in cases {
        let mut g = game_with(vec![start], dir, far_food());
        update_game(&mut g, false, false, false, false, 0, 0);
        assert_eq!(g.parts.len(), 1);
        assert_eq!(g.parts[0], expected);
    }
}

#[test]
fn input_commits_heading_for_the_step() {
    let mut g = game_with(
        vec![Segment { x: 100, y: 100, size: 20 }],
        Heading::Right,
        far_food(),
    );
    update_game(&mut g, true, false, false, false, 0, 0);
    assert_eq!(g.last_dir, Heading::Up);
    assert_eq!(g.parts[0], Segment { x: 100, y: 80, size: 20 });
}

#[test]
fn later_checked_input_wins_in_a_tick() {
    // Up and down asserted together: down is checked last of the two.
    let mut g = game_with(
        vec![Segment { x: 100, y: 100, size: 20 }],
        Heading::Right,
        far_food(),
    );
    update_game(&mut g, true, true, false, false, 0, 0);
    assert_eq!(g.last_dir, Heading::Down);
    assert_eq!(g.parts[0], Segment { x: 100, y: 120, size: 20 });
}

#[test]
fn follow_the_leader_preserves_length_and_order() {
    // A straight three-segment chain heading right.
    let mut g = game_with(
        vec![
            Segment { x: 140, y: 100, size: 20 },
            Segment { x: 120, y: 100, size: 20 },
            Segment { x: 100, y: 100, size: 20 },
        ],
        Heading::Right,
        far_food(),
    );
    update_game(&mut g, false, false, false, false, 0, 0);
    assert_eq!(g.parts.len(), 3);
    // The old tail was recycled one step ahead of the old head; the rest
    // shifted back one slot; the old tail's prior slot is gone.
    assert_eq!(g.parts[0], Segment { x: 160, y: 100, size: 20 });
    assert_eq!(g.parts[1], Segment { x: 140, y: 100, size: 20 });
    assert_eq!(g.parts[2], Segment { x: 120, y: 100, size: 20 });
}

#[test]
fn follow_the_leader_turn() {
    let mut g = game_with(
        vec![
            Segment { x: 140, y: 100, size: 20 },
            Segment { x: 120, y: 100, size: 20 },
        ],
        Heading::Right,
        far_food(),
    );
    // Commit up: the new head goes one unit above the old head.
    update_game(&mut g, true, false, false, false, 0, 0);
    assert_eq!(g.parts.len(), 2);
    assert_eq!(g.parts[0], Segment { x: 140, y: 80, size: 20 });
    assert_eq!(g.parts[1], Segment { x: 140, y: 100, size: 20 });
}

#[test]
fn growth_on_collision() {
    // Moved head lands at (120, 100), strictly inside the target's
    // tolerance box x in (110, 150), y in (85, 125).
    let mut g = game_with(
        vec![Segment { x: 100, y: 100, size: 20 }],
        Heading::Right,
        Target { x: 130, y: 105, size: 20 },
    );
    update_game(&mut g, false, false, false, false, 50, 60);
    assert_eq!(g.parts.len(), 2);
    // Target relocated to the drawn coordinates.
    assert_eq!(g.food, Target { x: 50, y: 60, size: 20 });
    // New segment one size unit beyond the post-move head.
    assert_eq!(g.parts[0], Segment { x: 120, y: 100, size: 20 });
    assert_eq!(g.parts[1], Segment { x: 140, y: 100, size: 20 });
}

#[test]
fn no_double_growth_in_one_tick() {
    let mut g = game_with(
        vec![
            Segment { x: 120, y: 100, size: 20 },
            Segment { x: 100, y: 100, size: 20 },
        ],
        Heading::Right,
        Target { x: 140, y: 100, size: 20 },
    );
    let before = g.parts.len();
    update_game(&mut g, false, false, false, false, 9, 11);
    // Exactly one segment appended and the target relocated exactly once.
    assert_eq!(g.parts.len(), before + 1);
    assert_eq!(g.food, Target { x: 9, y: 11, size: 20 });
}

#[test]
fn collision_box_edges_are_strict() {
    let t = Target { x: 100, y: 100, size: 20 };
    // Strictly inside on both axes: hit.
    assert!(hits_target(&Segment { x: 101, y: 119, size: 20 }, &t));
    // Exactly on a box edge: no hit (the test is strict).
    assert!(!hits_target(&Segment { x: 80, y: 100, size: 20 }, &t));
    assert!(!hits_target(&Segment { x: 120, y: 100, size: 20 }, &t));
    assert!(!hits_target(&Segment { x: 100, y: 80, size: 20 }, &t));
    assert!(!hits_target(&Segment { x: 100, y: 120, size: 20 }, &t));
    // Outside: no hit.
    assert!(!hits_target(&Segment { x: 0, y: 0, size: 20 }, &t));
}

#[test]
fn reversal_overlaps_head_and_tail() {
    // Moving right with the tail directly behind the head; committing left
    // is not prevented and the new head lands on the old tail's cell.
    let mut g = game_with(
        vec![
            Segment { x: 120, y: 100, size: 20 },
            Segment { x: 100, y: 100, size: 20 },
        ],
        Heading::Right,
        far_food(),
    );
    update_game(&mut g, false, false, true, false, 0, 0);
    assert_eq!(g.last_dir, Heading::Left);
    assert_eq!(g.parts.len(), 2);
    assert_eq!(g.parts[0], Segment { x: 100, y: 100, size: 20 });
    assert_eq!(g.parts[1], Segment { x: 120, y: 100, size: 20 });
}

#[test]
fn chain_never_empty_over_many_ticks() {
    let mut g = Game::default();
    init_game(&mut g, 800, 600);
    let inputs = [
        (false, false, false, false),
        (true, false, false, false),
        (false, false, true, false),
        (false, true, false, false),
        (false, false, false, true),
    ];
    for i in 0..50 {
        let (u, d, l, r) = inputs[i % inputs.len()];
        update_game(&mut g, u, d, l, r, (i as i64) * 13 % 800, (i as i64) * 7 % 600);
        assert!(g.parts.len() >= 1);
    }
}

#[test]
fn growth_uses_heading_at_consumption_time() {
    // Consume while heading up: the new segment is anchored one unit above
    // the post-move head, not along any previous travel direction.
    let mut g = game_with(
        vec![Segment { x: 100, y: 100, size: 20 }],
        Heading::Right,
        Target { x: 100, y: 70, size: 20 },
    );
    update_game(&mut g, true, false, false, false, 3, 4);
    // Moved head (100, 80) is inside x in (80, 120), y in (50, 90).
    assert_eq!(g.parts.len(), 2);
    assert_eq!(g.parts[0], Segment { x: 100, y: 80, size: 20 });
    assert_eq!(g.parts[1], Segment { x: 100, y: 60, size: 20 });
}
