//! Portable terminal rendering and input events.
//!
//! Drawing goes through rectangular [`region::Region`]s carved out of a
//! console; input arrives as [`event::Event`] values. Two consoles speak to
//! real terminals ([`unix`] by ANSI escape sequences, [`windows`] by native
//! console commands) and one ([`screen`]) keeps its cells in memory.
//!
//! Consoles never perform I/O themselves. What has to reach the terminal is
//! queued in the console, and the caller sends it; what the terminal sent is
//! read by the caller and handed to the console or to
//! [`unix::input::decode_input`].
//!
//! The modules [`buffer`], [`buffer_view`], [`state`], [`commands`] and
//! [`render`] hold the text buffer of an editor built on top, and how it is
//! drawn.

pub mod buffer;
pub mod buffer_view;
pub mod color;
pub mod commands;
pub mod error;
pub mod event;
pub mod frame;
pub mod region;
pub mod render;
pub mod screen;
pub mod state;
pub mod text;
pub mod unix;
pub mod windows;
