use fltk_evented::blocking::Trig;
use fltk_evented::events;
use fltk_evented::widget::Align;
use fltk_evented::widget::Widget;
use fltk_evented::BaseListener;
use fltk_evented::Event;
use fltk_evented::Listener;

type Plain = Listener<u8>;

fn window(x: i32, y: i32, w: i32, h: i32) -> Widget {
    let mut win = Widget::new(x, y, w, h, None);
    win.window = true;
    win
}

#[test]
fn from_widget_keeps_the_widget_and_starts_idle() {
    let mut listener: Plain = BaseListener::from_widget(Widget::new(1, 2, 3, 4, Some("go")));
    assert_eq!((listener.x, listener.y, listener.w, listener.h), (1, 2, 3, 4));
    assert_eq!(listener.label, "go");
    assert!(!listener.triggered());
    assert_eq!(listener.event(), Event::none());
    assert!(!listener.done(Event::from_i32(events::PUSH)));
}

#[test]
fn into_arms_a_listener() {
    let mut listener: Plain = Widget::new(160, 210, 80, 40, Some("Click me!")).into();
    assert_eq!((listener.x, listener.y, listener.w, listener.h), (160, 210, 80, 40));
    assert!(!listener.triggered());
    let mut other: BaseListener<Trig<u8>> = BaseListener::from(Widget::new(9, 8, 7, 6, None));
    assert_eq!(other.x, 9);
    assert_eq!(other.event(), Event::none());
}

#[test]
fn new_makes_the_widget() {
    let listener = Plain::new(160, 210, 80, 35, Some("Click me!"));
    assert_eq!((listener.x, listener.y, listener.w, listener.h), (160, 210, 80, 35));
    assert_eq!(listener.label, "Click me!");
    assert!(!listener.window);
    assert!(!listener.deleted);
    assert!(!listener.redraw);
    assert_eq!(listener.parent, None);
}

#[test]
fn default_listener_has_the_default_widget() {
    let mut listener = Plain::default();
    assert_eq!((listener.x, listener.y, listener.w, listener.h), (0, 0, 0, 0));
    assert_eq!(listener.label, "");
    assert!(!listener.triggered());
}

#[test]
fn default_fill_listener_covers_the_parent() {
    let parent = Widget::new(10, 20, 100, 50, None).anchor();
    let listener = Plain::default_fill(Some(parent));
    assert_eq!((listener.x, listener.y, listener.w, listener.h), (10, 20, 100, 50));
    assert!(listener.redraw);
    let alone = Plain::default_fill(None);
    assert_eq!((alone.x, alone.y, alone.w, alone.h), (0, 0, 0, 0));
}

#[test]
fn the_widget_can_be_changed_through_the_listener() {
    let mut listener = Plain::new(1, 2, 3, 4, None);
    listener.x = 50;
    listener.label = String::from("changed");
    listener.redraw = true;
    assert_eq!(listener.x, 50);
    assert_eq!(listener.label, "changed");
    assert!(listener.redraw);
    assert!(!listener.triggered());
}

#[test]
fn builders_chain_as_on_a_widget() {
    let listener = Plain::default()
        .with_pos(5, 6)
        .with_size(120, 160)
        .with_label("+")
        .with_align(Align { bits: 4 })
        .with_type(2);
    assert_eq!((listener.x, listener.y, listener.w, listener.h), (5, 6, 120, 160));
    assert_eq!(listener.label, "+");
    assert_eq!(listener.align.bits, 4);
    assert_eq!(listener.kind, 2);
    assert!(!listener.redraw);
}

#[test]
fn listener_placement_is_widget_placement() {
    let other = Widget::new(10, 20, 100, 50, None);
    let listener = Plain::new(3, 4, 30, 20, None);
    let below = listener.below_of(&other, 5);
    assert_eq!((below.x, below.y), (10, 75));
    let above = below.above_of(&other, 5);
    assert_eq!((above.x, above.y), (10, -5));
    let right = above.right_of(&other, 5);
    assert_eq!((right.x, right.y), (115, 20));
    let left = right.left_of(&other, 5);
    assert_eq!((left.x, left.y), (-25, 20));
    let centered = left.center_of(&other);
    assert_eq!((centered.x, centered.y), (45, 35));
    let on_x = centered.with_pos(0, 0).center_x(&other);
    assert_eq!((on_x.x, on_x.y), (45, 0));
    let on_y = on_x.with_pos(0, 0).center_y(&other);
    assert_eq!((on_y.x, on_y.y), (0, 35));
    let sized = on_y.size_of(&other);
    assert_eq!((sized.x, sized.y, sized.w, sized.h), (0, 35, 100, 50));
    assert!(sized.redraw);
}

#[test]
fn listener_centers_in_a_window_from_zero() {
    let win = window(400, 300, 160, 200);
    let listener = Plain::default().with_size(120, 160).center_of(&win);
    assert_eq!((listener.x, listener.y, listener.w, listener.h), (20, 20, 120, 160));
}

#[test]
fn listener_parent_placement_reads_the_parent() {
    let mut listener = Plain::new(3, 4, 30, 20, None);
    listener.parent = Some(window(400, 300, 160, 200).anchor());
    let centered = listener.center_of_parent();
    assert_eq!((centered.x, centered.y), (65, 90));
    let sized = centered.size_of_parent();
    assert_eq!((sized.w, sized.h), (160, 200));
    let orphan = Plain::new(3, 4, 30, 20, None).center_of_parent().size_of_parent();
    assert_eq!((orphan.x, orphan.y, orphan.w, orphan.h), (3, 4, 30, 20));
}

#[test]
fn builders_keep_the_trigger_state() {
    let other = Widget::new(10, 20, 100, 50, None);
    let mut listener = Plain::new(3, 4, 30, 20, None);
    listener.fire();
    listener.on_click(7);
    let _ = listener.handle(Event::from_i32(events::LEAVE));
    let mut listener = listener
        .with_pos(1, 1)
        .with_size(10, 10)
        .with_label("kept")
        .below_of(&other, 0)
        .center_of(&other)
        .size_of(&other)
        .center_of_parent();
    assert!(listener.triggered());
    assert_eq!(listener.event(), Event::from_i32(events::LEAVE));
    let (reaction, _) = listener.handle(Event::from_i32(events::PUSH));
    assert!(reaction.consumed());
}
