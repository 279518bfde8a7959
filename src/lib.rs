//! A terminal spinner: the state of its animation, how each frame is laid
//! out, and how many rows a frame takes on the terminal.
pub mod compose;
pub mod engine;
pub mod option;
pub mod width;

pub use engine::{Ora, OraError, StartAction, StopAction, Tick};
pub use option::{Options, Spinner};
