//! Control logic of a peck-input board: three keys, each with its own
//! three-channel LED group, watched through one interrupt line.
//!
//! The library holds the decisions only. It never touches a device: the
//! surrounding program performs each [`Action`] the controller asks for and
//! hands the outcome back as an [`Event`].

pub mod board;
pub mod error;
pub mod keys;
pub mod led;
pub mod leds;
pub mod light;
pub mod lines;
pub mod playback;
pub mod ranging;
pub mod theorems;

pub use board::{Action, EdgeKind, Event, PeckBoard, Phase, Stage};
pub use error::{Error, ErrorKind};
pub use keys::{KeyPosition, PeckKeys};
pub use led::LedState;
pub use leds::PeckLEDs;
pub use lines::{ChipNumber, LineGroup};
