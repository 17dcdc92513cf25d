//! Console output for a command-line tool: status, warning, error and note
//! lines with consistent coloring, alignment and wrapping.
//!
//! The library decides what is written: which channel a message goes to,
//! whether verbosity lets it through, how the status token is aligned and
//! colored, and how the message body is wrapped. The result is a sequence of
//! [`Piece`] values that a caller writes to the real streams.

mod color;
mod render;
mod settings;
mod shell;

pub use color::{Color, ColorChoice, ColorMode, ParseFailure};
pub use render::{pad_left, pad_right, spaces_string, wrapped_message, Piece, JUSTIFY_STATUS_LEN};
pub use settings::{Opts, Verbosity};
pub use shell::{OutSink, Shell, StreamKind};

