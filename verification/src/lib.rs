//! Movement-and-growth core of a grid-based snake game.
//!
//! The library models the per-tick state update of a single snake: direction
//! arbitration over the four directional inputs, follow-the-leader chain
//! repositioning, target-collision detection, and one-segment growth on
//! consumption. Window creation, input polling, frame pacing and rendering
//! live outside the library; the core consumes only plain values (booleans
//! for the resolved inputs, integers for screen bounds and the random target
//! position).

mod chain;
mod direction;
mod game;
mod laws;

pub use chain::Segment;
pub use chain::SegModel;
pub use chain::chain_model;
pub use chain::fits_i64;
pub use chain::grow_chain;
pub use chain::grow_fits;
pub use chain::move_chain;
pub use chain::move_fits;
pub use chain::spec_dx;
pub use chain::spec_dy;
pub use chain::spec_grown_part;
pub use chain::spec_moved;
pub use chain::spec_moved_head;
pub use direction::Heading;
pub use direction::lemma_direction_precedence;
pub use direction::lemma_reversal_committed;
pub use direction::resolve_direction;
pub use direction::spec_opposite;
pub use direction::spec_resolve;
pub use game::Game;
pub use game::GameModel;
pub use game::PLAYER_SIZE;
pub use game::TARGET_SIZE;
pub use game::Target;
pub use game::TargetModel;
pub use game::hits_target;
pub use game::init_game;
pub use game::spec_hits;
pub use game::spec_tick;
pub use game::target_box_fits;
pub use game::tick_fits;
pub use game::update_game;
pub use laws::lemma_chain_never_empty;
pub use laws::lemma_follow_the_leader;
pub use laws::lemma_growth_on_collision;
pub use laws::lemma_no_double_growth;
pub use laws::lemma_reversal_unguarded;
pub use laws::lemma_single_segment_step;
