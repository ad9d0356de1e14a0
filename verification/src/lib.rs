//! Session orchestration for a multi-tab terminal front end.
//!
//! The crate models the tab/session lifecycle of a terminal emulator window:
//! an ordered registry of sessions with single-select activation, a bounded
//! FIFO multiplexer that fans many per-session event streams into one, and a
//! control loop that interprets UI commands and session events, mutates the
//! registry, and derives the presentation titles. The terminal emulation
//! engine, the pseudo-terminal transport and the rendering toolkit are
//! external collaborators: the control loop only decides, and hands the
//! resulting actions (spawn a session, write a reply, close the window) back
//! to its caller.

pub mod control;
pub mod events;
pub mod mux;
pub mod palette;
pub mod registry;
