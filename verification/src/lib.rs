//! The runtime of a terminal chat client, and the wire contract it shares
//! with its server.
//!
//! - [`editor`]: the input field, a text with a cursor that counts code
//!   points.
//! - [`history`]: the client's copy of the message log, refreshed as a whole.
//! - [`render`]: the frame, with the scrollback pinned to the newest message.
//! - [`keys`]: keyboard events and what they ask for.
//! - [`session`]: the event loop as a state machine from events to actions.
//! - [`message`], [`format`], [`wire`]: messages, their lines on the screen,
//!   and the body that carries them.
//! - [`log`]: the append-only log that the server keeps.
//! - [`config`]: what a run of the client is started with.
//! - [`utf8`], [`text`]: byte offsets of code points, and what `String` does
//!   at them.

pub mod config;
pub mod editor;
pub mod format;
pub mod history;
pub mod keys;
pub mod log;
pub mod message;
pub mod render;
pub mod session;
pub mod text;
pub mod utf8;
pub mod wire;
