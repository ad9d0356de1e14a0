//! Session events.
//!
//! The emulation engine behind each session emits these events; the
//! multiplexer tags each one with the owning session id and the control
//! loop interprets them. Queries that the engine answers through a reply
//! callback are represented by their payload alone: the control loop
//! resolves the payload and hands the reply back through the owning
//! session's no-scroll write path.

use vstd::prelude::*;

verus! {

/// One event out of a session's emulation engine.
pub enum SessionEvent {
    /// The terminal bell rang; no mandated reaction.
    Bell,
    /// The engine asks what color the palette holds at `index`; the reply
    /// must be built from the owning session's palette and written back
    /// into that same session without scrolling.
    ColorQuery { index: usize },
    /// Bytes the engine wants echoed verbatim into its own input stream,
    /// such as device-attribute answers.
    RawWrite { bytes: Vec<u8> },
    /// The engine asks for the current viewport geometry; answered like a
    /// color query, from the owning session's state.
    SizeQuery,
    /// The child process ended or asked to close; equivalent to closing
    /// the session's tab.
    ExitRequested,
    /// Reset the display title to the default placeholder.
    TitleReset,
    /// Set the display title to the given text.
    TitleChanged { text: String },
    /// Cursor or grid state changed; the session should refresh its
    /// render-relevant snapshot.
    RedrawNeeded,
    /// An event variant this layer does not interpret; the loop logs it
    /// and continues, so unknown variants are never fatal.
    Unrecognized,
}

/// An event tagged with the session that emitted it, as it travels
/// through the shared multiplexer channel.
pub struct Envelope {
    pub id: u64,
    pub event: SessionEvent,
}

} // verus!
