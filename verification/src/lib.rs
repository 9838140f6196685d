//! A small deterministic simulation core: a player moves on a bounded 2D grid
//! and can rewind to any past instant of a recorded timeline, leaving a marker
//! ("splat") of their prior position at each instant advanced. Revisiting an
//! instant where a past self's splat occupies the player's current cell is a
//! paradox and forces the simulation into a terminal collision state.
//!
//! The crate holds the temporal state engine only: bounded coordinates,
//! fixed-capacity instant and timeline storage, the time-scrub accumulator,
//! the mode state machine, and the collision check. Rendering, input polling
//! and random number generation are collaborators that sit outside it.

pub mod state;
pub mod time_input;
pub mod timeline;
pub mod xy;

pub use state::{
    AdvanceOutcome, CollisionError, Intents, Player, State, StateModel, TimeMode, TimeModeModel,
    EDITING_COLOUR, NEUTRAL_COLOUR, NORMAL_COLOUR, PARADOX_COLOUR,
};
pub use time_input::{InstantIndex, ScrubOp, TimeInput, TimeInputModel, INSTANT_COUNT};
pub use timeline::{Instant, OutOfSplats, PaletteIndex, Splat, SplatModel, SPLAT_COUNT};
pub use xy::{x, y, X, Y};
