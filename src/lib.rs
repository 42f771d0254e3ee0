//! An immediate-mode layout and rendering engine for character-grid terminals.
//!
//! Each render pass draws elements into a [`Framing`]: the terminal [`Frame`]
//! resolves every box from its [`Props`] and appends cursor-addressed escape
//! sequences to its output, while [`StringFrame`] keeps the rendered text
//! alone.
pub mod console;
pub mod element;
pub mod frame;
pub mod props;
pub mod style;
pub mod utils;

pub use console::Console;
pub use element::{Button, Element, Event, Key};
pub use frame::{Frame, Framing, StringFrame};
pub use props::{Placement, Props};
pub use style::{Color, Dimension, Position, Style};
