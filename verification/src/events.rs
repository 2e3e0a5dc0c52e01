//! Event codes: the integer identifiers under which the toolkit reports
//! low-level user-interface events to a widget's event-handler hook.

use vstd::prelude::*;

verus! {

/// Nothing was delivered; also the value an emptied event cell holds.
pub const NO_EVENT: i32 = 0;

/// A mouse button went down.
pub const PUSH: i32 = 1;

/// A mouse button was released.
pub const RELEASED: i32 = 2;

/// The pointer entered the widget.
pub const ENTER: i32 = 3;

/// The pointer left the widget.
pub const LEAVE: i32 = 4;

/// The pointer moved with a button held down.
pub const DRAG: i32 = 5;

/// The widget received the keyboard focus.
pub const FOCUS: i32 = 6;

/// The widget lost the keyboard focus.
pub const UNFOCUS: i32 = 7;

/// A key went down.
pub const KEY_DOWN: i32 = 8;

/// A key was released.
pub const KEY_UP: i32 = 9;

/// The window is asked to close.
pub const CLOSE: i32 = 10;

/// The pointer moved without a button held down.
pub const MOVE: i32 = 11;

/// A shortcut key was pressed.
pub const SHORTCUT: i32 = 12;

/// The widget was deactivated.
pub const DEACTIVATE: i32 = 13;

/// The widget was activated.
pub const ACTIVATE: i32 = 14;

/// The widget was hidden.
pub const HIDE: i32 = 15;

/// The widget was shown.
pub const SHOW: i32 = 16;

/// Text was pasted.
pub const PASTE: i32 = 17;

/// The selection was cleared.
pub const SELECTION_CLEAR: i32 = 18;

/// The mouse wheel turned.
pub const MOUSE_WHEEL: i32 = 19;

/// A drag-and-drop payload entered the widget.
pub const DND_ENTER: i32 = 20;

/// A drag-and-drop payload moved over the widget.
pub const DND_DRAG: i32 = 21;

/// A drag-and-drop payload left the widget.
pub const DND_LEAVE: i32 = 22;

/// A drag-and-drop payload was dropped on the widget.
pub const DND_RELEASE: i32 = 23;

/// The screen configuration changed.
pub const SCREEN_CONFIG_CHANGED: i32 = 24;

/// The window entered or left full-screen mode.
pub const FULLSCREEN: i32 = 25;

/// A zoom gesture was made.
pub const ZOOM_GESTURE: i32 = 26;

/// The zoom factor changed.
pub const ZOOM_EVENT: i32 = 27;

/// The window was resized.
pub const RESIZE: i32 = 28;

/// How many codes the catalog holds: the codes from `NO_EVENT` to `RESIZE`.
pub const CATALOG_LEN: usize = 29;

/// Whether `code` is one of the cataloged event codes.
pub open spec fn in_catalog(code: i32) -> bool {
    NO_EVENT <= code <= RESIZE
}

/// One event, identified by its integer code. Any integer is an event; the
/// cataloged ones have names.
#[derive(Clone, Copy, PartialEq, Eq, Structural, Debug)]
pub struct Event {
    pub bits: i32,
}

impl Event {
    /// The event with the given code.
    pub fn from_i32(val: i32) -> (ev: Event)
        ensures
            ev.bits == val,
    {
        Event { bits: val }
    }

    /// The code of this event.
    pub fn bits(&self) -> (code: i32)
        ensures
            code == self.bits,
    {
        self.bits
    }

    /// The sentinel that stands for "no event".
    pub open spec fn spec_none() -> Event {
        Event { bits: NO_EVENT }
    }

    /// The sentinel that stands for "no event".
    #[verifier::when_used_as_spec(spec_none)]
    pub fn none() -> (ev: Event)
        ensures
            ev == Event::spec_none(),
    {
        Event { bits: NO_EVENT }
    }

    /// Whether this event is something other than the sentinel.
    pub open spec fn is_event(self) -> bool {
        self.bits != NO_EVENT
    }

    /// Whether the per-event flags track this event.
    pub fn in_catalog(&self) -> (known: bool)
        ensures
            known == in_catalog(self.bits),
    {
        NO_EVENT <= self.bits && self.bits <= RESIZE
    }
}

/// Whether the toolkit's latest event, as the caller read it from the
/// toolkit, is an event at all: true for every code but the sentinel.
pub fn event(latest: Event) -> (happened: bool)
    ensures
        happened == latest.is_event(),
{
    latest.bits != NO_EVENT
}

} // verus!
