//! A minimal line-editing core: a byte-driven input decoder, a
//! character-indexed line buffer with a cursor, an append-only history of
//! committed lines, and a renderer that turns every edit into the terminal
//! control bytes that keep the screen in step with the buffer.
//!
//! The crate holds no I/O of its own: a caller feeds it one input byte at a
//! time and writes the bytes the renderer hands back.

pub mod buffer;
pub mod history;
pub mod input;
pub mod render;
pub mod repl;

pub use buffer::LineBuffer;
pub use history::History;
pub use input::Decoder;
pub use input::EditAction;
pub use input::InputType;
pub use repl::Error;
pub use repl::Repl;
pub use repl::ReplState;
