use fltk_evented::blocking::Handler;
use fltk_evented::blocking::Reaction;
use fltk_evented::blocking::Trig;
use fltk_evented::events;
use fltk_evented::widget::Widget;
use fltk_evented::Event;
use fltk_evented::Listener;
use std::cell::Cell;
use std::rc::Rc;

fn button() -> Listener<Handler> {
    Widget::new(160, 210, 80, 40, Some("Click me!")).into()
}

fn counting(count: &Rc<Cell<u32>>) -> Handler {
    let count = count.clone();
    Box::new(move |_| count.set(count.get() + 1))
}

/// What the event-handler hook does with the listener's answer: runs the
/// handler on the widget, and says whether the event was consumed.
fn deliver(listener: &mut Listener<Handler>, code: i32) -> bool {
    let (reaction, wid) = listener.handle(Event::from_i32(code));
    match reaction {
        Reaction::Handled(cb) => {
            cb(wid);
            true
        }
        Reaction::Recorded => false,
    }
}

#[test]
fn fresh_listener_is_not_triggered() {
    let mut but = button();
    assert!(!but.triggered());
    assert!(!but.triggered());
}

#[test]
fn one_firing_is_seen_once() {
    let mut but = button();
    but.fire();
    assert!(but.triggered());
    assert!(!but.triggered());
}

#[test]
fn many_firings_are_seen_once() {
    for firings in 1..6 {
        let mut but = button();
        for _ in 0..firings {
            but.fire();
        }
        assert!(but.triggered());
        assert!(!but.triggered());
    }
}

#[test]
fn sightings_never_outnumber_firings() {
    let mut but = button();
    let script = [true, false, false, true, true, false, true, false, false, false, true];
    let mut firings = 0;
    let mut sightings = 0;
    for fire in script {
        if fire {
            but.fire();
            firings += 1;
        } else if but.triggered() {
            sightings += 1;
        }
        assert!(sightings <= firings);
    }
    assert_eq!(firings, 5);
    assert_eq!(sightings, 3);
    assert!(but.triggered());
}

#[test]
fn firing_leaves_the_event_cell_alone() {
    let mut but = button();
    but.fire();
    assert_eq!(but.event(), Event::none());
    assert!(but.triggered());
}

#[test]
fn fresh_listener_has_no_event() {
    let mut but = button();
    assert_eq!(but.event(), Event::none());
}

#[test]
fn an_event_without_handler_is_recorded_and_not_consumed() {
    let mut but = button();
    assert!(!deliver(&mut but, events::ENTER));
    assert_eq!(but.event(), Event::from_i32(events::ENTER));
    assert_eq!(but.event(), Event::none());
}

#[test]
fn the_last_event_wins() {
    let mut but = button();
    deliver(&mut but, events::ENTER);
    deliver(&mut but, events::LEAVE);
    assert_eq!(but.event(), Event::from_i32(events::LEAVE));
    assert_eq!(but.event(), Event::none());
}

#[test]
fn the_last_event_wins_over_a_handled_one() {
    let count = Rc::new(Cell::new(0));
    let mut but = button();
    but.on_hover(counting(&count));
    deliver(&mut but, events::ENTER);
    deliver(&mut but, events::LEAVE);
    assert_eq!(but.event(), Event::from_i32(events::LEAVE));
    assert_eq!(count.get(), 1);
}

#[test]
fn a_handled_event_does_not_overwrite_the_recorded_one() {
    let count = Rc::new(Cell::new(0));
    let mut but = button();
    but.on_leave(counting(&count));
    deliver(&mut but, events::ENTER);
    deliver(&mut but, events::LEAVE);
    assert_eq!(but.event(), Event::from_i32(events::ENTER));
}

#[test]
fn recording_leaves_the_trigger_flag_alone() {
    let mut but = button();
    deliver(&mut but, events::PUSH);
    assert!(!but.triggered());
    but.fire();
    deliver(&mut but, events::RELEASED);
    assert!(but.triggered());
}

#[test]
fn a_registered_handler_runs_on_every_occurrence() {
    let count = Rc::new(Cell::new(0));
    let mut but = button();
    but.on(Event::from_i32(events::PUSH), counting(&count));
    for seen in 1..5 {
        assert!(deliver(&mut but, events::PUSH));
        assert_eq!(count.get(), seen);
    }
}

#[test]
fn a_registered_handler_suppresses_polling() {
    let count = Rc::new(Cell::new(0));
    let mut but = button();
    but.on_click(counting(&count));
    assert!(deliver(&mut but, events::PUSH));
    assert_eq!(but.event(), Event::none());
    assert!(!but.done(Event::from_i32(events::PUSH)));
    assert!(!but.triggered());
}

#[test]
fn an_unregistered_event_sets_its_flag() {
    let count = Rc::new(Cell::new(0));
    let mut but = button();
    but.on_click(counting(&count));
    assert!(!deliver(&mut but, events::RELEASED));
    assert_eq!(count.get(), 0);
    assert!(but.done(Event::from_i32(events::RELEASED)));
    assert!(!but.done(Event::from_i32(events::RELEASED)));
    assert_eq!(but.event(), Event::from_i32(events::RELEASED));
}

#[test]
fn flags_are_read_and_cleared_one_by_one() {
    let mut but = button();
    deliver(&mut but, events::ENTER);
    deliver(&mut but, events::MOVE);
    deliver(&mut but, events::ENTER);
    deliver(&mut but, events::NO_EVENT);
    deliver(&mut but, events::RESIZE);
    assert!(but.done(Event::from_i32(events::MOVE)));
    assert!(!but.done(Event::from_i32(events::MOVE)));
    assert!(!but.done(Event::from_i32(events::LEAVE)));
    assert!(but.done(Event::from_i32(events::RESIZE)));
    assert!(but.done(Event::from_i32(events::NO_EVENT)));
    assert!(but.done(Event::from_i32(events::ENTER)));
    assert!(!but.done(Event::from_i32(events::ENTER)));
    assert!(!but.done(Event::from_i32(events::RESIZE)));
}

#[test]
fn reading_the_event_cell_leaves_the_flags() {
    let mut but = button();
    deliver(&mut but, events::FOCUS);
    assert_eq!(but.event(), Event::from_i32(events::FOCUS));
    assert!(but.done(Event::from_i32(events::FOCUS)));
}

#[test]
fn an_uncataloged_event_is_recorded_without_a_flag() {
    let mut but = button();
    assert!(!deliver(&mut but, 4711));
    assert_eq!(but.event(), Event::from_i32(4711));
    assert!(!deliver(&mut but, -3));
    assert_eq!(but.event(), Event::from_i32(-3));
    for code in 0..29 {
        assert!(!but.done(Event::from_i32(code)));
    }
}

#[test]
fn an_uncataloged_event_can_have_a_handler() {
    let count = Rc::new(Cell::new(0));
    let mut but = button();
    but.on(Event::from_i32(4711), counting(&count));
    assert!(deliver(&mut but, 4711));
    assert_eq!(count.get(), 1);
    assert_eq!(but.event(), Event::none());
}

#[test]
fn a_second_handler_replaces_the_first() {
    let first = Rc::new(Cell::new(0));
    let second = Rc::new(Cell::new(0));
    let mut but = button();
    but.on_hover(counting(&first));
    assert!(deliver(&mut but, events::ENTER));
    but.on_hover(counting(&second));
    for _ in 0..3 {
        assert!(deliver(&mut but, events::ENTER));
    }
    assert_eq!(first.get(), 1);
    assert_eq!(second.get(), 3);
}

#[test]
fn handlers_of_different_events_are_independent() {
    let hover = Rc::new(Cell::new(0));
    let leave = Rc::new(Cell::new(0));
    let mut but = button();
    but.on_hover(counting(&hover));
    but.on_leave(counting(&leave));
    deliver(&mut but, events::ENTER);
    deliver(&mut but, events::LEAVE);
    deliver(&mut but, events::LEAVE);
    deliver(&mut but, events::PUSH);
    assert_eq!(hover.get(), 1);
    assert_eq!(leave.get(), 2);
    assert_eq!(but.event(), Event::from_i32(events::PUSH));
}

#[test]
fn a_handler_gets_the_listeners_widget() {
    let mut but = button();
    but.on_click(Box::new(|b: &mut Widget| b.label = String::from("Clicked")));
    assert!(deliver(&mut but, events::PUSH));
    assert_eq!(but.label, "Clicked");
}

#[test]
fn a_redraw_is_requested_after_a_handler_and_only_then() {
    let count = Rc::new(Cell::new(0));
    let mut but = button();
    but.on_click(counting(&count));
    deliver(&mut but, events::RELEASED);
    assert!(!but.redraw);
    deliver(&mut but, events::PUSH);
    assert!(but.redraw);
}

#[test]
fn the_reaction_says_what_the_hook_reports() {
    let mut but = button();
    but.on_click(Box::new(|_| ()));
    let (handled, _) = but.handle(Event::from_i32(events::PUSH));
    assert!(handled.consumed());
    assert!(handled.redraws());
    assert!(matches!(handled, Reaction::Handled(_)));
    let (recorded, _) = but.handle(Event::from_i32(events::DRAG));
    assert!(!recorded.consumed());
    assert!(!recorded.redraws());
    assert!(matches!(recorded, Reaction::Recorded));
}

#[test]
fn a_stateful_handler_keeps_its_state_in_the_table() {
    let seen = Rc::new(Cell::new(0));
    let mut but = button();
    let out = seen.clone();
    let mut calls = 0;
    but.on_keydown(Box::new(move |_| {
        calls += 1;
        out.set(calls);
    }));
    deliver(&mut but, events::KEY_DOWN);
    deliver(&mut but, events::KEY_DOWN);
    assert_eq!(seen.get(), 2);
}

#[test]
fn each_named_registration_uses_its_own_code() {
    let registrations: [(fn(&mut Listener<Handler>, Handler), i32); 28] = [
        (Listener::on_hover, events::ENTER),
        (Listener::on_leave, events::LEAVE),
        (Listener::on_click, events::PUSH),
        (Listener::on_release, events::RELEASED),
        (Listener::on_drag, events::DRAG),
        (Listener::on_focus, events::FOCUS),
        (Listener::on_unfocus, events::UNFOCUS),
        (Listener::on_keydown, events::KEY_DOWN),
        (Listener::on_keyup, events::KEY_UP),
        (Listener::on_close, events::CLOSE),
        (Listener::on_move, events::MOVE),
        (Listener::on_shortcut, events::SHORTCUT),
        (Listener::on_deactivate, events::DEACTIVATE),
        (Listener::on_activate, events::ACTIVATE),
        (Listener::on_hide, events::HIDE),
        (Listener::on_show, events::SHOW),
        (Listener::on_paste, events::PASTE),
        (Listener::on_selection_clear, events::SELECTION_CLEAR),
        (Listener::on_mousewheel, events::MOUSE_WHEEL),
        (Listener::on_dnd_enter, events::DND_ENTER),
        (Listener::on_dnd_drag, events::DND_DRAG),
        (Listener::on_dnd_leave, events::DND_LEAVE),
        (Listener::on_dnd_release, events::DND_RELEASE),
        (Listener::on_screen_config_changed, events::SCREEN_CONFIG_CHANGED),
        (Listener::on_fullscreen, events::FULLSCREEN),
        (Listener::on_zoom_gesture, events::ZOOM_GESTURE),
        (Listener::on_zoom, events::ZOOM_EVENT),
        (Listener::on_resize, events::RESIZE),
    ];
    for (register, code) in registrations {
        let count = Rc::new(Cell::new(0));
        let mut but = button();
        register(&mut but, counting(&count));
        for other in 0..29 {
            assert_eq!(deliver(&mut but, other), other == code);
        }
        assert_eq!(count.get(), 1);
    }
}

#[test]
fn trigger_state_works_without_a_widget() {
    let mut trig: Trig<u8> = Trig::new();
    assert!(!trig.triggered());
    trig.fire();
    trig.on(Event::from_i32(events::PASTE), 9);
    match trig.handle(Event::from_i32(events::PASTE)) {
        Reaction::Handled(h) => {
            assert_eq!(*h, 9);
            *h = 10;
        }
        Reaction::Recorded => panic!("the handler is registered"),
    }
    assert!(matches!(trig.handle(Event::from_i32(events::PASTE)), Reaction::Handled(&mut 10)));
    assert!(matches!(trig.handle(Event::from_i32(events::SHOW)), Reaction::Recorded));
    assert!(trig.done(Event::from_i32(events::SHOW)));
    assert_eq!(trig.event(), Event::from_i32(events::SHOW));
    assert!(trig.triggered());
}
