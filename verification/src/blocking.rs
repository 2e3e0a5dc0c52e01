//! The blocking listener: a widget whose hooks write to a trigger state that
//! the thread driving the toolkit polls, and whose event-handler hook
//! dispatches to a table of named-event handlers.

use crate::base::BaseListener;
use crate::base::Trigger;
use crate::events::in_catalog;
use crate::events::Event;
use crate::events::ACTIVATE;
use crate::events::CLOSE;
use crate::events::DEACTIVATE;
use crate::events::DND_DRAG;
use crate::events::DND_ENTER;
use crate::events::DND_LEAVE;
use crate::events::DND_RELEASE;
use crate::events::DRAG;
use crate::events::ENTER;
use crate::events::FOCUS;
use crate::events::FULLSCREEN;
use crate::events::HIDE;
use crate::events::KEY_DOWN;
use crate::events::KEY_UP;
use crate::events::LEAVE;
use crate::events::MOUSE_WHEEL;
use crate::events::MOVE;
use crate::events::NO_EVENT;
use crate::events::PASTE;
use crate::events::PUSH;
use crate::events::RELEASED;
use crate::events::RESIZE;
use crate::events::SCREEN_CONFIG_CHANGED;
use crate::events::SELECTION_CLEAR;
use crate::events::SHORTCUT;
use crate::events::SHOW;
use crate::events::UNFOCUS;
use crate::events::ZOOM_EVENT;
use crate::events::ZOOM_GESTURE;
use crate::widget::Widget;
use std::collections::hash_map::Entry;
use std::collections::HashMap;
use vstd::pervasive::unreached;
use vstd::prelude::*;

verus! {

/// One thing that happens to a listener's trigger state. `H` is the type of
/// the handlers.
pub enum Op<H> {
    /// The primary action fired.
    Fire,
    /// The trigger flag was read and cleared.
    Poll,
    /// The event-handler hook received the event with this code.
    Deliver(i32),
    /// The event cell was read and cleared.
    TakeEvent,
    /// The flag of the event with this code was read and cleared.
    TakeFlag(i32),
    /// The handler was registered for the event with this code.
    Register(i32, H),
}

/// How often the primary action fires in `ops`.
pub open spec fn firings<H>(ops: Seq<Op<H>>) -> nat
    decreases ops.len(),
{
    if ops.len() == 0 {
        0
    } else {
        (if ops[0] is Fire {
            1nat
        } else {
            0nat
        }) + firings(ops.drop_first())
    }
}

/// Whether a handler is registered for `code` somewhere in `ops`.
pub open spec fn registers<H>(ops: Seq<Op<H>>, code: i32) -> bool {
    exists|i: int| 0 <= i < ops.len() && (#[trigger] ops[i] matches Op::Register(c, _) && c == code)
}

/// What a listener's trigger state amounts to: the mathematical value that
/// the contracts of this module speak of.
#[verifier::ext_equal]
pub struct State<H> {
    /// Whether the primary action fired since the last poll.
    pub triggered: bool,
    /// The code of the latest event recorded for polling, or `NO_EVENT`.
    pub event: i32,
    /// The cataloged codes whose per-event flag is raised.
    pub flags: Set<i32>,
    /// The handler registered for each event code that has one.
    pub handlers: Map<i32, H>,
}

impl<H> State<H> {
    /// The state of a listener that was just armed: nothing fired, nothing
    /// recorded, nothing registered.
    pub open spec fn idle() -> Self {
        State { triggered: false, event: NO_EVENT, flags: Set::empty(), handlers: Map::empty() }
    }

    /// The state after the primary action fired.
    pub open spec fn fired(self) -> Self {
        State { triggered: true, ..self }
    }

    /// The state after the trigger flag was read and cleared.
    pub open spec fn polled(self) -> Self {
        State { triggered: false, ..self }
    }

    /// Whether a handler is registered for `code`.
    pub open spec fn handles(self, code: i32) -> bool {
        self.handlers.contains_key(code)
    }

    /// The state after `code` was recorded for polling: it becomes the latest
    /// event, and its flag is raised if the catalog holds it.
    pub open spec fn recorded(self, code: i32) -> Self {
        State {
            event: code,
            flags: if in_catalog(code) {
                self.flags.insert(code)
            } else {
                self.flags
            },
            ..self
        }
    }

    /// The state after the event-handler hook received `code`, where the
    /// handler that ran, if any, is still the one registered: an event
    /// with a handler leaves no trace, any other is recorded.
    pub open spec fn delivered(self, code: i32) -> Self {
        if self.handles(code) {
            self
        } else {
            self.recorded(code)
        }
    }

    /// The state after the latest event was read and cleared.
    pub open spec fn event_taken(self) -> Self {
        State { event: NO_EVENT, ..self }
    }

    /// The state after the flag of `code` was read and cleared.
    pub open spec fn flag_taken(self, code: i32) -> Self {
        State { flags: self.flags.remove(code), ..self }
    }

    /// The state after `handler` was registered for `code`.
    pub open spec fn registered(self, code: i32, handler: H) -> Self {
        State { handlers: self.handlers.insert(code, handler), ..self }
    }

    /// The state after the primary action fired `n` times in a row.
    pub open spec fn fired_times(self, n: nat) -> Self
        decreases n,
    {
        if n == 0 {
            self
        } else {
            self.fired().fired_times((n - 1) as nat)
        }
    }

    /// The state after `op`. A handler that ran is taken to be still the one
    /// registered.
    pub open spec fn after(self, op: Op<H>) -> Self {
        match op {
            Op::Fire => self.fired(),
            Op::Poll => self.polled(),
            Op::Deliver(code) => self.delivered(code),
            Op::TakeEvent => self.event_taken(),
            Op::TakeFlag(code) => self.flag_taken(code),
            Op::Register(code, handler) => self.registered(code, handler),
        }
    }

    /// The state after `ops`, one after the other.
    pub open spec fn after_all(self, ops: Seq<Op<H>>) -> Self
        decreases ops.len(),
    {
        if ops.len() == 0 {
            self
        } else {
            self.after(ops[0]).after_all(ops.drop_first())
        }
    }

    /// How many of the polls in `ops` return true when `ops` happen from this
    /// state on.
    pub open spec fn sightings(self, ops: Seq<Op<H>>) -> nat
        decreases ops.len(),
    {
        if ops.len() == 0 {
            0
        } else {
            (if ops[0] is Poll && self.triggered {
                1nat
            } else {
                0nat
            }) + self.after(ops[0]).sightings(ops.drop_first())
        }
    }
}

/// What the event-handler hook has to do with an event, as `Trig::handle`
/// decided it.
pub enum Reaction<'a, H> {
    /// A handler is registered for the event. The hook runs it on the widget,
    /// redraws the widget, and reports the event as consumed.
    Handled(&'a mut H),
    /// No handler is registered for the event. It was recorded for polling,
    /// and the hook reports it as not consumed.
    Recorded,
}

impl<'a, H> Reaction<'a, H> {
    /// Whether the hook reports the event as consumed, which keeps the toolkit
    /// from handling it by default.
    pub open spec fn spec_consumed(&self) -> bool {
        self is Handled
    }

    /// Whether the hook reports the event as consumed, which keeps the toolkit
    /// from handling it by default.
    #[verifier::when_used_as_spec(spec_consumed)]
    pub fn consumed(&self) -> (yes: bool)
        ensures
            yes == self.spec_consumed(),
    {
        match self {
            Reaction::Handled(_) => true,
            Reaction::Recorded => false,
        }
    }

    /// Whether the hook redraws the widget: after a handler ran, and only then.
    pub open spec fn spec_redraws(&self) -> bool {
        self is Handled
    }

    /// Whether the hook redraws the widget: after a handler ran, and only then.
    #[verifier::when_used_as_spec(spec_redraws)]
    pub fn redraws(&self) -> (yes: bool)
        ensures
            yes == self.spec_redraws(),
    {
        match self {
            Reaction::Handled(_) => true,
            Reaction::Recorded => false,
        }
    }
}

/// Whether the flag word `flags` holds the flag of `code` raised: the
/// cataloged code `c` has bit `c`.
spec fn raised(flags: u32, code: i32) -> bool {
    in_catalog(code) && flags & (1u32 << (code as u32)) != 0
}

proof fn lemma_none_raised(code: i32)
    ensures
        !raised(0, code),
{
    let c = code as u32;
    assert(0u32 & (1u32 << c) == 0) by (bit_vector);
}

proof fn lemma_raised(flags: u32, code: i32, other: i32)
    requires
        in_catalog(code),
    ensures
        raised(flags | (1u32 << (code as u32)), other) == (other == code || raised(flags, other)),
{
    let c = code as u32;
    let d = other as u32;
    assert(c < 32 && d < 32 ==> (((flags | (1u32 << c)) & (1u32 << d) != 0) == (c == d || flags
        & (1u32 << d) != 0))) by (bit_vector);
}

proof fn lemma_lowered(flags: u32, code: i32, other: i32)
    requires
        in_catalog(code),
    ensures
        raised(flags & !(1u32 << (code as u32)), other) == (other != code && raised(flags, other)),
{
    let c = code as u32;
    let d = other as u32;
    assert(c < 32 && d < 32 ==> (((flags & !(1u32 << c)) & (1u32 << d) != 0) == (c != d && flags
        & (1u32 << d) != 0))) by (bit_vector);
}

/// The trigger state of a blocking listener: the trigger flag that the
/// callback hook raises, the event cell and the per-event flags that the
/// event-handler hook fills, and the table of named-event handlers that it
/// dispatches to. `H` is the type of the handlers.
pub struct Trig<H> {
    triggered: bool,
    event: i32,
    flags: u32,
    events: HashMap<i32, H>,
}

impl<H> View for Trig<H> {
    type V = State<H>;

    closed spec fn view(&self) -> State<H> {
        State {
            triggered: self.triggered,
            event: self.event,
            flags: Set::new(|code: i32| raised(self.flags, code)),
            handlers: self.events@,
        }
    }
}

impl<H> Trig<H> {
    /// The trigger state of a freshly armed listener.
    pub fn new() -> (trig: Self)
        ensures
            trig@ == State::<H>::idle(),
    {
        let trig = Trig { triggered: false, event: NO_EVENT, flags: 0, events: HashMap::new() };
        proof {
            assert forall|code: i32| !trig@.flags.contains(code) by {
                lemma_none_raised(code);
            }
            assert(trig@.flags =~= Set::<i32>::empty());
        }
        trig
    }

    /// The callback hook: the widget's primary action fired.
    pub fn fire(&mut self)
        ensures
            final(self)@ == old(self)@.fired(),
    {
        self.triggered = true;
    }

    /// Reads and clears the trigger flag: true if the primary action fired
    /// since the last call.
    pub fn triggered(&mut self) -> (fired: bool)
        ensures
            fired == old(self)@.triggered,
            final(self)@ == old(self)@.polled(),
    {
        let fired = self.triggered;
        self.triggered = false;
        fired
    }

    /// Reads and clears the event cell: the latest event recorded for polling
    /// since the last call, or the sentinel.
    pub fn event(&mut self) -> (latest: Event)
        ensures
            latest.bits == old(self)@.event,
            final(self)@ == old(self)@.event_taken(),
    {
        let latest = Event::from_i32(self.event);
        self.event = NO_EVENT;
        latest
    }

    /// Reads and clears the flag of one cataloged event: true if that event
    /// was recorded for polling since the last call for it.
    pub fn done(&mut self, ev: Event) -> (raised: bool)
        requires
            in_catalog(ev.bits),
        ensures
            raised == old(self)@.flags.contains(ev.bits),
            final(self)@ == old(self)@.flag_taken(ev.bits),
    {
        let mask = 1u32 << (ev.bits as u32);
        let raised = self.flags & mask != 0;
        self.flags = self.flags & !mask;
        proof {
            assert forall|code: i32|
                self@.flags.contains(code) == old(self)@.flags.remove(ev.bits).contains(code) by {
                lemma_lowered(old(self).flags, ev.bits, code);
            }
            assert(self@.flags =~= old(self)@.flags.remove(ev.bits));
        }
        raised
    }

    /// Registers `cb` as the handler of `ev`, in place of any handler that was
    /// registered for it.
    pub fn on(&mut self, ev: Event, cb: H)
        ensures
            final(self)@ == old(self)@.registered(ev.bits, cb),
    {
        self.events.insert(ev.bits, cb);
    }

    /// The event-handler hook: the widget received `ev`. An event with a
    /// registered handler yields that handler and leaves the polling state
    /// alone; any other event is recorded for polling.
    pub fn handle(&mut self, ev: Event) -> (reaction: Reaction<'_, H>)
        ensures
            old(self)@.handles(ev.bits) ==> (reaction matches Reaction::Handled(handler)
                && *handler == old(self)@.handlers[ev.bits]
                && final(self)@ == old(self)@.registered(ev.bits, *final(handler))),
            !old(self)@.handles(ev.bits) ==> (reaction is Recorded
                && final(self)@ == old(self)@.recorded(ev.bits)),
    {
        let code = ev.bits;
        if self.events.contains_key(&code) {
            match self.events.entry(code) {
                Entry::Occupied(slot) => Reaction::Handled(slot.into_mut()),
                Entry::Vacant(_) => unreached(),
            }
        } else {
            self.event = code;
            if ev.in_catalog() {
                self.flags = self.flags | (1u32 << (code as u32));
            }
            proof {
                assert forall|other: i32|
                    self@.flags.contains(other) == old(self)@.recorded(code).flags.contains(
                        other,
                    ) by {
                    if in_catalog(code) {
                        lemma_raised(old(self).flags, code, other);
                    }
                }
                assert(self@.flags =~= old(self)@.recorded(code).flags);
            }
            Reaction::Recorded
        }
    }
}

impl<H> Trigger for Trig<H> {
    /// Nothing fired, nothing is recorded and no handler is registered.
    open spec fn idle(&self) -> bool {
        self@ == State::<H>::idle()
    }

    fn armed() -> (trig: Self) {
        Trig::new()
    }
}

/// The blocking listener on a widget. `H` is the type of its named-event
/// handlers.
pub type Listener<H> = BaseListener<Trig<H>>;

/// A handler that can hold any closure: an owned, type-erased function from
/// the widget to nothing.
pub type Handler = Box<dyn FnMut(&mut Widget)>;

impl<H> BaseListener<Trig<H>> {
    /// What the listener's trigger state amounts to.
    pub open spec fn state(&self) -> State<H> {
        self.trigger()@
    }

    /// The callback hook: the widget's primary action fired.
    pub fn fire(&mut self)
        ensures
            final(self).state() == old(self).state().fired(),
            final(self).widget() == old(self).widget(),
    {
        self.trig.fire();
    }

    /// The event-handler hook: the widget received `ev`. An event with a
    /// registered handler yields that handler, together with the widget
    /// that the handler is to run on, for which a redraw is then requested,
    /// and leaves the polling state alone. Any other event is recorded for
    /// polling and leaves the widget alone.
    pub fn handle(&mut self, ev: Event) -> ((reaction, wid): (Reaction<'_, H>, &mut Widget))
        ensures
            old(self).state().handles(ev.bits) ==> (reaction matches Reaction::Handled(handler)
                && *handler == old(self).state().handlers[ev.bits]
                && final(self).state() == old(self).state().registered(ev.bits, *final(handler))
                && *wid == (Widget { redraw: true, ..old(self).widget() })),
            !old(self).state().handles(ev.bits) ==> (reaction is Recorded
                && final(self).state() == old(self).state().recorded(ev.bits)
                && *wid == old(self).widget()),
            final(self).widget() == *final(wid),
    {
        let reaction = self.trig.handle(ev);
        if reaction.consumed() {
            self.wid.redraw = true;
        }
        (reaction, &mut self.wid)
    }

    /// Checks whether the widget was triggered: true if its primary action
    /// fired since the last call. Reading clears the flag.
    pub fn triggered(&mut self) -> (fired: bool)
        ensures
            fired == old(self).state().triggered,
            final(self).state() == old(self).state().polled(),
            final(self).widget() == old(self).widget(),
    {
        self.trig.triggered()
    }

    /// The latest event that the widget received and no handler took, or the
    /// sentinel if there was none since the last call. Reading clears the
    /// cell.
    pub fn event(&mut self) -> (latest: Event)
        ensures
            latest.bits == old(self).state().event,
            final(self).state() == old(self).state().event_taken(),
            final(self).widget() == old(self).widget(),
    {
        self.trig.event()
    }

    /// Checks whether the widget received the cataloged event `ev`, and no
    /// handler took it, since the last call for that event. Reading clears
    /// the event's flag.
    pub fn done(&mut self, ev: Event) -> (raised: bool)
        requires
            in_catalog(ev.bits),
        ensures
            raised == old(self).state().flags.contains(ev.bits),
            final(self).state() == old(self).state().flag_taken(ev.bits),
            final(self).widget() == old(self).widget(),
    {
        self.trig.done(ev)
    }

    /// What the widget should do on the event `ev`: registers `cb` in place
    /// of any handler that was registered for it.
    pub fn on(&mut self, ev: Event, cb: H)
        ensures
            final(self).state() == old(self).state().registered(ev.bits, cb),
            final(self).widget() == old(self).widget(),
    {
        self.trig.on(ev, cb);
    }

    /// What the widget should do when the pointer enters it.
    pub fn on_hover(&mut self, cb: H)
        ensures
            final(self).state() == old(self).state().registered(ENTER, cb),
            final(self).widget() == old(self).widget(),
    {
        self.on(Event::from_i32(ENTER), cb);
    }

    /// What the widget should do when the pointer leaves it.
    pub fn on_leave(&mut self, cb: H)
        ensures
            final(self).state() == old(self).state().registered(LEAVE, cb),
            final(self).widget() == old(self).widget(),
    {
        self.on(Event::from_i32(LEAVE), cb);
    }

    /// What the widget should do when a mouse button goes down on it.
    pub fn on_click(&mut self, cb: H)
        ensures
            final(self).state() == old(self).state().registered(PUSH, cb),
            final(self).widget() == old(self).widget(),
    {
        self.on(Event::from_i32(PUSH), cb);
    }

    /// What the widget should do when a mouse button is released on it.
    pub fn on_release(&mut self, cb: H)
        ensures
            final(self).state() == old(self).state().registered(RELEASED, cb),
            final(self).widget() == old(self).widget(),
    {
        self.on(Event::from_i32(RELEASED), cb);
    }

    /// What the widget should do when the pointer is dragged over it.
    pub fn on_drag(&mut self, cb: H)
        ensures
            final(self).state() == old(self).state().registered(DRAG, cb),
            final(self).widget() == old(self).widget(),
    {
        self.on(Event::from_i32(DRAG), cb);
    }

    /// What the widget should do when it receives the keyboard focus.
    pub fn on_focus(&mut self, cb: H)
        ensures
            final(self).state() == old(self).state().registered(FOCUS, cb),
            final(self).widget() == old(self).widget(),
    {
        self.on(Event::from_i32(FOCUS), cb);
    }

    /// What the widget should do when it loses the keyboard focus.
    pub fn on_unfocus(&mut self, cb: H)
        ensures
            final(self).state() == old(self).state().registered(UNFOCUS, cb),
            final(self).widget() == old(self).widget(),
    {
        self.on(Event::from_i32(UNFOCUS), cb);
    }

    /// What the widget should do when a key goes down.
    pub fn on_keydown(&mut self, cb: H)
        ensures
            final(self).state() == old(self).state().registered(KEY_DOWN, cb),
            final(self).widget() == old(self).widget(),
    {
        self.on(Event::from_i32(KEY_DOWN), cb);
    }

    /// What the widget should do when a key is released.
    pub fn on_keyup(&mut self, cb: H)
        ensures
            final(self).state() == old(self).state().registered(KEY_UP, cb),
            final(self).widget() == old(self).widget(),
    {
        self.on(Event::from_i32(KEY_UP), cb);
    }

    /// What the widget should do when it is asked to close.
    pub fn on_close(&mut self, cb: H)
        ensures
            final(self).state() == old(self).state().registered(CLOSE, cb),
            final(self).widget() == old(self).widget(),
    {
        self.on(Event::from_i32(CLOSE), cb);
    }

    /// What the widget should do when the pointer moves over it.
    pub fn on_move(&mut self, cb: H)
        ensures
            final(self).state() == old(self).state().registered(MOVE, cb),
            final(self).widget() == old(self).widget(),
    {
        self.on(Event::from_i32(MOVE), cb);
    }

    /// What the widget should do when a shortcut key is pressed.
    pub fn on_shortcut(&mut self, cb: H)
        ensures
            final(self).state() == old(self).state().registered(SHORTCUT, cb),
            final(self).widget() == old(self).widget(),
    {
        self.on(Event::from_i32(SHORTCUT), cb);
    }

    /// What the widget should do when it is deactivated.
    pub fn on_deactivate(&mut self, cb: H)
        ensures
            final(self).state() == old(self).state().registered(DEACTIVATE, cb),
            final(self).widget() == old(self).widget(),
    {
        self.on(Event::from_i32(DEACTIVATE), cb);
    }

    /// What the widget should do when it is activated.
    pub fn on_activate(&mut self, cb: H)
        ensures
            final(self).state() == old(self).state().registered(ACTIVATE, cb),
            final(self).widget() == old(self).widget(),
    {
        self.on(Event::from_i32(ACTIVATE), cb);
    }

    /// What the widget should do when it is hidden.
    pub fn on_hide(&mut self, cb: H)
        ensures
            final(self).state() == old(self).state().registered(HIDE, cb),
            final(self).widget() == old(self).widget(),
    {
        self.on(Event::from_i32(HIDE), cb);
    }

    /// What the widget should do when it is shown.
    pub fn on_show(&mut self, cb: H)
        ensures
            final(self).state() == old(self).state().registered(SHOW, cb),
            final(self).widget() == old(self).widget(),
    {
        self.on(Event::from_i32(SHOW), cb);
    }

    /// What the widget should do when text is pasted into it.
    pub fn on_paste(&mut self, cb: H)
        ensures
            final(self).state() == old(self).state().registered(PASTE, cb),
            final(self).widget() == old(self).widget(),
    {
        self.on(Event::from_i32(PASTE), cb);
    }

    /// What the widget should do when the selection is cleared.
    pub fn on_selection_clear(&mut self, cb: H)
        ensures
            final(self).state() == old(self).state().registered(SELECTION_CLEAR, cb),
            final(self).widget() == old(self).widget(),
    {
        self.on(Event::from_i32(SELECTION_CLEAR), cb);
    }

    /// What the widget should do when the mouse wheel turns over it.
    pub fn on_mousewheel(&mut self, cb: H)
        ensures
            final(self).state() == old(self).state().registered(MOUSE_WHEEL, cb),
            final(self).widget() == old(self).widget(),
    {
        self.on(Event::from_i32(MOUSE_WHEEL), cb);
    }

    /// What the widget should do when a drag-and-drop payload enters it.
    pub fn on_dnd_enter(&mut self, cb: H)
        ensures
            final(self).state() == old(self).state().registered(DND_ENTER, cb),
            final(self).widget() == old(self).widget(),
    {
        self.on(Event::from_i32(DND_ENTER), cb);
    }

    /// What the widget should do when a drag-and-drop payload moves over it.
    pub fn on_dnd_drag(&mut self, cb: H)
        ensures
            final(self).state() == old(self).state().registered(DND_DRAG, cb),
            final(self).widget() == old(self).widget(),
    {
        self.on(Event::from_i32(DND_DRAG), cb);
    }

    /// What the widget should do when a drag-and-drop payload leaves it.
    pub fn on_dnd_leave(&mut self, cb: H)
        ensures
            final(self).state() == old(self).state().registered(DND_LEAVE, cb),
            final(self).widget() == old(self).widget(),
    {
        self.on(Event::from_i32(DND_LEAVE), cb);
    }

    /// What the widget should do when a drag-and-drop payload is dropped on it.
    pub fn on_dnd_release(&mut self, cb: H)
        ensures
            final(self).state() == old(self).state().registered(DND_RELEASE, cb),
            final(self).widget() == old(self).widget(),
    {
        self.on(Event::from_i32(DND_RELEASE), cb);
    }

    /// What the widget should do when the screen configuration changes.
    pub fn on_screen_config_changed(&mut self, cb: H)
        ensures
            final(self).state() == old(self).state().registered(SCREEN_CONFIG_CHANGED, cb),
            final(self).widget() == old(self).widget(),
    {
        self.on(Event::from_i32(SCREEN_CONFIG_CHANGED), cb);
    }

    /// What the widget should do when it enters or leaves full-screen mode.
    pub fn on_fullscreen(&mut self, cb: H)
        ensures
            final(self).state() == old(self).state().registered(FULLSCREEN, cb),
            final(self).widget() == old(self).widget(),
    {
        self.on(Event::from_i32(FULLSCREEN), cb);
    }

    /// What the widget should do on a zoom gesture.
    pub fn on_zoom_gesture(&mut self, cb: H)
        ensures
            final(self).state() == old(self).state().registered(ZOOM_GESTURE, cb),
            final(self).widget() == old(self).widget(),
    {
        self.on(Event::from_i32(ZOOM_GESTURE), cb);
    }

    /// What the widget should do when the zoom factor changes.
    pub fn on_zoom(&mut self, cb: H)
        ensures
            final(self).state() == old(self).state().registered(ZOOM_EVENT, cb),
            final(self).widget() == old(self).widget(),
    {
        self.on(Event::from_i32(ZOOM_EVENT), cb);
    }

    /// What the widget should do when it is resized.
    pub fn on_resize(&mut self, cb: H)
        ensures
            final(self).state() == old(self).state().registered(RESIZE, cb),
            final(self).widget() == old(self).widget(),
    {
        self.on(Event::from_i32(RESIZE), cb);
    }
}

/// Read-and-clear: however often the primary action fired in a row, at least
/// once, the next poll returns true and leaves the state as a poll of the
/// state before the firings would, so that a second poll returns false.
pub proof fn law_read_and_clear<H>(s: State<H>, n: nat)
    requires
        n >= 1,
    ensures
        s.fired_times(n).triggered,
        s.fired_times(n).polled() == s.polled(),
        !s.fired_times(n).polled().triggered,
    decreases n,
{
    if n > 1 {
        law_read_and_clear(s.fired(), (n - 1) as nat);
    } else {
        assert(s.fired().fired_times(0) == s.fired());
    }
}

/// At most one sighting for each firing: whatever happens to a listener and
/// in whatever order, the polls that return true are no more than the
/// firings, and one more where the flag was up at the start.
pub proof fn law_sightings_bounded<H>(s: State<H>, ops: Seq<Op<H>>)
    ensures
        s.sightings(ops) <= firings(ops) + (if s.triggered {
            1nat
        } else {
            0nat
        }),
    decreases ops.len(),
{
    if ops.len() > 0 {
        law_sightings_bounded(s.after(ops[0]), ops.drop_first());
    }
}

/// Last write wins: of two events received in a row, with no handler for the
/// second, the event cell holds the second, and once read it holds the
/// sentinel.
pub proof fn law_last_event_wins<H>(s: State<H>, a: i32, b: i32)
    requires
        !s.handles(b),
    ensures
        s.delivered(a).delivered(b).event == b,
        s.delivered(a).delivered(b).event_taken().event == NO_EVENT,
{
}

/// Dispatch precedence: once `h` is registered for `x`, an occurrence of `x`
/// goes to `h` and leaves the polling state as it was, while an occurrence of
/// an event `y` without a handler is recorded: it becomes the latest event,
/// and its flag is raised if the catalog holds it.
pub proof fn law_dispatch_precedence<H>(s: State<H>, x: i32, h: H, y: i32)
    requires
        y != x,
        !s.handles(y),
    ensures
        s.registered(x, h).handles(x),
        s.registered(x, h).handlers[x] == h,
        s.registered(x, h).delivered(x) == s.registered(x, h),
        !s.registered(x, h).handles(y),
        s.registered(x, h).delivered(y).event == y,
        in_catalog(y) ==> s.registered(x, h).delivered(y).flags.contains(y),
{
}

/// Handlers persist: whatever happens to a listener, as long as no handler
/// is registered for `x` in between, `x` has a handler afterwards if and only
/// if it had one before, and it is the same. So every later occurrence of an
/// event with a handler still goes to that handler.
pub proof fn law_handler_persists<H>(s: State<H>, ops: Seq<Op<H>>, x: i32)
    requires
        !registers(ops, x),
    ensures
        s.after_all(ops).handles(x) == s.handles(x),
        s.handles(x) ==> s.after_all(ops).handlers[x] == s.handlers[x],
    decreases ops.len(),
{
    if ops.len() > 0 {
        let rest = ops.drop_first();
        assert(!registers(rest, x)) by {
            if registers(rest, x) {
                let i = choose|i: int|
                    0 <= i < rest.len() && (#[trigger] rest[i] matches Op::Register(c, _) && c
                        == x);
                assert(ops[i + 1] == rest[i]);
            }
        }
        assert(!(ops[0] matches Op::Register(c, _) && c == x));
        law_handler_persists(s.after(ops[0]), rest, x);
    }
}

/// Replacement: registering a second handler for an event leaves the state
/// that registering the second alone would have left, so nothing can reach
/// the first through that event again.
pub proof fn law_replacement<H>(s: State<H>, x: i32, h1: H, h2: H)
    ensures
        s.registered(x, h1).registered(x, h2) == s.registered(x, h2),
{
    assert(s.registered(x, h1).registered(x, h2) =~= s.registered(x, h2));
}

} // verus!
