//! Driver logic for a group of 8×8 LED dot-matrix panels.
//!
//! The panels show glyphs, scroll text and play short animations, and a
//! remote channel can put a message ahead of whatever is playing. This crate
//! holds what is decided and computed on the way; it waits for nothing and
//! touches no pin, timer or socket. The program around it owns those: it
//! carries out the pin writes that [`hal`] lists, lets a period pass between
//! two steps of an animation of [`display`], and feeds what it reads from the
//! channel to [`tcpserver`].
//!
//! - [`ambient`]: what is shown while no command asks for anything else.
//! - [`graphics`]: frames, and the bitmap of each character.
//! - [`hal`]: one panel behind its shift register: the control words of a
//!   frame and the pin writes that send them.
//! - [`display`]: one display unit with its override, and the scroll, the
//!   pulse and the flash that draw on it, one frame at a step.
//! - [`group`]: the four units side by side.
//! - [`text`]: the fixed-width buffers that texts are stored and padded in.
//! - [`tcpserver`]: the commands of the remote channel and the course of a
//!   session.

pub mod ambient;
pub mod display;
pub mod graphics;
pub mod group;
pub mod hal;
pub mod tcpserver;
pub mod text;

pub use display::DotMatrixLedMutex;
pub use group::Displays;
pub use text::{copy_str_bytes, null_term_string, pad, Data, Error};
