//! The rules of a small arcade game: a player square follows the pointer,
//! collects food, and must avoid enemies that bounce around the play area.
//!
//! All coordinates are integers counted in thousandths of a pixel, with the
//! origin at the centre of the window.
pub mod geometry;
pub mod random;
pub mod game;

pub use geometry::{
    apply_velocity, bounce, lemma_bounce_inverts_crossed_axes, lemma_step_stays_inside, overlaps,
    Bounds, Enemy, Point, ENEMY_SPEED, MAX_EXTENT, SQUARE_SIZE, SUBPIXELS,
};
pub use random::{int_sqrt, make_random_position, make_random_velocity, velocity_toward};
pub use game::{Game, GameState, TickOutcome};
