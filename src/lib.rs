//! The core of a terminal session: an escape-sequence engine drives a character
//! grid, and a snapshot projects the visible window of that grid into
//! positioned, colour-resolved cells for a presentation layer to draw.

pub mod cell;
pub mod engine;
pub mod input;
pub mod message;
pub mod terminal;

pub use cell::{RawCell, RenderableCell};
pub use message::Message;
pub use terminal::Terminal;
