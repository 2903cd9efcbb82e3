//! Skeletal animation sequence query and playback-support layer for a 3D
//! character model format: resolve animation sequences by name or by semantic
//! activity tag, drive procedural bone controllers, and surface timed
//! animation events within a playback window.

pub mod activity;
pub mod bone;
pub mod draw;
pub mod events;
pub mod keystate;
pub mod model;
pub mod motion;
pub mod parse;
pub mod rng;
pub mod sequence;

pub use activity::Activity;
pub use bone::{BoneControllerDesc, ControllerSetting};
pub use draw::{DrawLock, DrawSession};
pub use events::{EventKind, EventRecord};
pub use keystate::KeyState;
pub use model::Model;
pub use motion::Motion;
pub use rng::{RandomSource, SeededRandom};
pub use sequence::{PrecachePlan, SequenceDesc};
