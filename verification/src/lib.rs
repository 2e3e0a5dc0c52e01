//! Event notification for widgets of a toolkit that gives each widget one
//! callback slot, for its primary action, and one event-handler slot, for
//! every low-level event.
//!
//! A listener multiplexes the two slots. The callback hook raises a trigger
//! flag that a polling loop reads and clears. The event-handler hook looks
//! the event up in a table of handlers, one for each event code at most:
//! where it finds one, the event goes to that handler and is consumed; where
//! it finds none, the event is recorded for polling.
//!
//! - `events`: event codes and the catalog of the named ones.
//! - `widget`: the widget as plain values, and the arithmetic of placing it.
//! - `base`: the listener's shell, a widget with a trigger state.
//! - `blocking`: the trigger state, the dispatch table and the listener for
//!   a single thread, with the laws they obey.
//! - `asynch`: the listener whose hooks defer their writes to spawned tasks.

pub mod asynch;
pub mod base;
pub mod blocking;
pub mod events;
pub mod widget;

pub use asynch::AsyncListener;
pub use base::BaseListener;
pub use blocking::Listener;
pub use events::event;
pub use events::Event;
