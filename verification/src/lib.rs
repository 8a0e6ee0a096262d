//! Double-buffered frame rendering for interactive terminal prompts.
//!
//! Styled text is accumulated into rows, every row carries a hash of what it
//! shows, and a finished frame is compared row by row with the frame that is
//! on screen, so that only the rows that changed are painted again.
//!
//! The library decides and the caller acts: nothing here touches a
//! terminal. A redraw is handed out as a list of [`command::TerminalCommand`]s
//! for the owner of the terminal to carry out in order. Only when the owner
//! says that it did so does the written frame take the place of the frame on
//! screen: a redraw that failed on the way leaves the frame on screen as the
//! one to compare with.
//!
//! # Layout
//!
//! - [`style`], [`geometry`], [`command`]: the plain data.
//! - [`chars`], [`ansi`], [`width`], [`units`]: from a text to its visual
//!   units, that is characters with their widths and escape sequences.
//! - [`hasher`]: the content hash of a row.
//! - [`frame_model`], [`frame`]: a frame, as a mathematical model and as
//!   the data structure that the model describes.
//! - [`render_model`], [`render_box`]: the redraw.
//! - [`render_ops`], [`backend_model`], [`config`], [`input`],
//!   [`list_option`], [`text`], [`backend`], [`date`]: the widgets of the
//!   prompts.
//! - [`ansi_proofs`], [`frame_proofs`]: the proofs that the data structures
//!   keep their invariants.
//! - [`layout_laws`], [`redraw_laws`]: what holds of every frame and of
//!   every redraw.

pub mod ansi;
pub mod ansi_proofs;
pub mod backend;
pub mod backend_model;
pub mod chars;
pub mod command;
pub mod config;
pub mod date;
pub mod frame;
pub mod frame_model;
pub mod frame_proofs;
pub mod geometry;
pub mod hasher;
pub mod input;
pub mod layout_laws;
pub mod list_option;
pub mod redraw_laws;
pub mod render_box;
pub mod render_model;
pub mod render_ops;
pub mod style;
pub mod text;
pub mod units;
pub mod width;
