//! The rules of a ragdoll-faller game: a jointed character falls through an
//! endless field of obstacles, breaks body parts on hard impacts, and the round
//! ends when a broken part or the head is struck too hard.
//!
//! The library decides; it moves no body and draws nothing. A physics world
//! and an input source are expected around it: once per tick their values are
//! handed in, and what the rules have decided is carried out outside.
//!
//! Everything here works on plain integer values. Lengths, speeds and forces are
//! whole world units; ratios such as damping or colour channels are thousandths;
//! joint limits are milliradians and obstacle rotations are degrees. Time is in
//! milliseconds.
//!
//! - [`player_setup`]: the ragdoll, its parts and joints, and their identity
//!   strings.
//! - [`player`]: steering, the damage rules, recentering and the score.
//! - [`environment`]: the walls, and the spawning and removal of obstacles.
//! - [`game_states`]: the states of the game, the world of the rules, and the
//!   order of the rules within a tick.
//! - [`themes`]: what a theme needs to know of the bodies of the game.
//! - [`random`]: the pseudo-random generator, the one part that is taken on
//!   trust.

pub mod environment;
pub mod game_states;
pub mod geometry;
pub mod player;
pub mod player_setup;
pub mod random;
pub mod text;
pub mod themes;
