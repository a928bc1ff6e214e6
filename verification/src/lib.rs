//! The terminal-session engine of a serial console.
//!
//! Bytes from the device go through the byte parser ([`parser`]), which
//! splits them into text, control bytes and escape sequences. The screen
//! buffer ([`screen_buffer`], [`ingest`]) turns those into a bounded
//! scrollback of styled rows ([`cell`], [`span`], [`line`]): the graphics
//! mode ([`sgr`]) sets colors and attributes ([`style`], [`color_state`]),
//! other control sequences ([`csi`]) move the cursor and erase cells. The
//! user scrolls, selects and copies ([`ui_command`]), and the screen is drawn
//! from a list of instructions for the host terminal ([`render`]).
//!
//! What the buffer is and does is defined on a mathematical model
//! ([`model`]); [`laws`] proves what every operation keeps.
//!
//! The tasks of a session wait, read and write elsewhere; what they decide is
//! here: the actor that owns the port ([`serial_actor`]), the input task
//! ([`input`]), the output task ([`stdout_task`]), the log file
//! ([`file_output`]), the debug record ([`debug`]) and the session's
//! lifecycle ([`session`]). [`configs`], [`cli`], [`paths`] and
//! [`validators`] hold the configuration and the checks of what the user
//! gives.
//!
//! Calls into the terminal library and into parts of the standard library
//! stand behind small wrappers whose contracts are taken on trust;
//! [`terminal`], [`text`] and [`deque`] hold those that several modules share.

pub mod ascii;
pub mod parser;
pub mod style;
pub mod terminal;
pub mod color_state;
pub mod sgr;
pub mod csi;
pub mod position;
pub mod rect;
pub mod cell;
pub mod span;
pub mod line;
pub mod text;
pub mod deque;
pub mod model;
pub mod screen_buffer;
pub mod ingest;
pub mod ui_command;
pub mod render;
pub mod laws;
pub mod paths;
pub mod serial_actor;
pub mod input;
pub mod file_output;
pub mod stdout_task;
pub mod session;
pub mod configs;
pub mod cli;
pub mod validators;
pub mod debug;
