//! The widget as the listeners see it: its geometry, its label and flags, and
//! the arithmetic of placing it against another widget.

use vstd::prelude::*;

verus! {

/// Half of `d`, rounded toward zero.
pub open spec fn half(d: int) -> int {
    if d >= 0 {
        d / 2
    } else {
        -((-d) / 2)
    }
}

/// Whether `v` is a coordinate that a widget can hold.
pub open spec fn fits(v: int) -> bool {
    i32::MIN <= v <= i32::MAX
}

/// Halving rounds toward zero: the half of a length that is not negative is
/// the largest integer whose double is no more than the length, and the half
/// of a negative length is the negative of the half of its absolute value.
pub proof fn law_half_rounds_toward_zero(d: int)
    ensures
        d >= 0 ==> 2 * half(d) <= d < 2 * half(d) + 2,
        half(-d) == -half(d),
{
}

/// How a label is aligned against its widget, as the toolkit's bit set.
#[derive(Clone, Copy, PartialEq, Eq, Structural, Debug)]
pub struct Align {
    pub bits: i32,
}

/// What placement reads of the widget that another one is placed against: its
/// position and size, whether it is a top-level container, and whether the
/// toolkit reports it deleted.
#[derive(Clone, Copy, PartialEq, Eq, Structural, Debug)]
pub struct Anchor {
    pub x: i32,
    pub y: i32,
    pub w: i32,
    pub h: i32,
    pub window: bool,
    pub deleted: bool,
}

impl Anchor {
    /// Whether a widget can be placed against this one: it is not deleted and
    /// its size is known, that is, neither dimension is zero.
    pub open spec fn usable(self) -> bool {
        !self.deleted && self.w != 0 && self.h != 0
    }

    /// Where the coordinates of a widget placed inside this one start on
    /// the x axis: at zero inside a top-level container, whose coordinates are
    /// relative to itself, and at this widget's own position otherwise.
    pub open spec fn origin_x(self) -> int {
        if self.window {
            0
        } else {
            self.x as int
        }
    }

    /// As `origin_x`, on the y axis.
    pub open spec fn origin_y(self) -> int {
        if self.window {
            0
        } else {
            self.y as int
        }
    }

    /// The x coordinate at which a widget of width `w` is centered on this one.
    pub open spec fn centered_x(self, w: i32) -> int {
        self.origin_x() + half(self.w - w)
    }

    /// The y coordinate at which a widget of height `h` is centered on this one.
    pub open spec fn centered_y(self, h: i32) -> int {
        self.origin_y() + half(self.h - h)
    }
}

/// One widget: the plain values that the listeners read and change.
#[derive(Clone, Debug)]
pub struct Widget {
    pub x: i32,
    pub y: i32,
    pub w: i32,
    pub h: i32,
    pub label: String,
    pub align: Align,
    /// The toolkit's number for the widget's type.
    pub kind: i32,
    /// Whether the widget is a top-level container.
    pub window: bool,
    /// Whether the toolkit reports the widget deleted.
    pub deleted: bool,
    /// The widget's parent, as placement reads it, if it has one.
    pub parent: Option<Anchor>,
    /// Whether a redraw of the widget is requested.
    pub redraw: bool,
}

/// A way of placing a widget against another one.
#[derive(Clone, Copy, PartialEq, Eq, Structural, Debug)]
pub enum Placement {
    /// Below the other widget, the given padding away from its lower edge.
    Below(i32),
    /// Above the other widget, the given padding away from its upper edge.
    Above(i32),
    /// To the right of the other widget, the given padding away from its
    /// right edge.
    RightOf(i32),
    /// To the left of the other widget, the given padding away from its left
    /// edge.
    LeftOf(i32),
    /// Centered on the other widget on both axes.
    Center,
    /// Centered on the other widget on the x axis.
    CenterX,
    /// Centered on the other widget on the y axis.
    CenterY,
    /// Of the other widget's size, at the place where it is.
    SizeOf,
}

/// Half of `d`, rounded toward zero.
fn halve(d: i64) -> (r: i64)
    ensures
        r == half(d as int),
{
    d / 2
}

/// Whether `v` is a coordinate that a widget can hold.
fn in_range(v: i64) -> (r: bool)
    ensures
        r == fits(v as int),
{
    -0x8000_0000 <= v && v <= 0x7fff_ffff
}

impl Widget {
    /// What placement reads of this widget.
    pub open spec fn spec_anchor(&self) -> Anchor {
        Anchor {
            x: self.x,
            y: self.y,
            w: self.w,
            h: self.h,
            window: self.window,
            deleted: self.deleted,
        }
    }

    /// What placement reads of this widget.
    #[verifier::when_used_as_spec(spec_anchor)]
    pub fn anchor(&self) -> (a: Anchor)
        ensures
            a == self.spec_anchor(),
    {
        Anchor {
            x: self.x,
            y: self.y,
            w: self.w,
            h: self.h,
            window: self.window,
            deleted: self.deleted,
        }
    }

    /// This widget at position `(x, y)`.
    pub open spec fn moved(self, x: i32, y: i32) -> Widget {
        Widget { x, y, ..self }
    }

    /// This widget with size `(w, h)`.
    pub open spec fn sized(self, w: i32, h: i32) -> Widget {
        Widget { w, h, ..self }
    }

    /// This widget after a relative placement put it at `(x, y)` with its size
    /// kept: moved, and with a redraw requested.
    pub open spec fn placed(self, x: int, y: int) -> Widget {
        Widget { x: x as i32, y: y as i32, redraw: true, ..self }
    }

    /// This widget after a relative sizing gave it the size `(w, h)` with its
    /// position kept: resized, and with a redraw requested.
    pub open spec fn fitted(self, w: i32, h: i32) -> Widget {
        Widget { w, h, redraw: true, ..self }
    }

    /// The x coordinate that the placement `p` against `a` gives this widget.
    pub open spec fn target_x(self, a: Anchor, p: Placement) -> int {
        match p {
            Placement::Below(_) | Placement::Above(_) => a.x as int,
            Placement::RightOf(padding) => a.x + a.w + padding,
            Placement::LeftOf(padding) => a.x - self.w - padding,
            Placement::Center | Placement::CenterX => a.centered_x(self.w),
            Placement::CenterY | Placement::SizeOf => self.x as int,
        }
    }

    /// The y coordinate that the placement `p` against `a` gives this widget.
    pub open spec fn target_y(self, a: Anchor, p: Placement) -> int {
        match p {
            Placement::Below(padding) => a.y + a.h + padding,
            Placement::Above(padding) => a.y - padding - self.h,
            Placement::RightOf(_) | Placement::LeftOf(_) => a.y as int,
            Placement::Center | Placement::CenterY => a.centered_y(self.h),
            Placement::CenterX | Placement::SizeOf => self.y as int,
        }
    }

    /// Whether this widget can be placed against `a` in the way `p`: it is
    /// not deleted, `a` is not deleted and has a known size, and the place is
    /// one that a widget can hold.
    pub open spec fn admits(self, a: Anchor, p: Placement) -> bool {
        !self.deleted && a.usable() && fits(self.target_x(a, p)) && fits(self.target_y(a, p))
    }

    /// This widget placed against `a` in the way `p`.
    pub open spec fn placed_by(self, a: Anchor, p: Placement) -> Widget {
        match p {
            Placement::SizeOf => self.fitted(a.w, a.h),
            _ => self.placed(self.target_x(a, p), self.target_y(a, p)),
        }
    }

    fn place_x(&self, a: &Anchor, p: Placement) -> (x: i64)
        ensures
            x == self.target_x(*a, p),
    {
        let origin: i64 = if a.window {
            0
        } else {
            a.x as i64
        };
        match p {
            Placement::Below(_) | Placement::Above(_) => a.x as i64,
            Placement::RightOf(padding) => a.x as i64 + a.w as i64 + padding as i64,
            Placement::LeftOf(padding) => a.x as i64 - self.w as i64 - padding as i64,
            Placement::Center | Placement::CenterX => origin + halve(a.w as i64 - self.w as i64),
            Placement::CenterY | Placement::SizeOf => self.x as i64,
        }
    }

    fn place_y(&self, a: &Anchor, p: Placement) -> (y: i64)
        ensures
            y == self.target_y(*a, p),
    {
        let origin: i64 = if a.window {
            0
        } else {
            a.y as i64
        };
        match p {
            Placement::Below(padding) => a.y as i64 + a.h as i64 + padding as i64,
            Placement::Above(padding) => a.y as i64 - padding as i64 - self.h as i64,
            Placement::RightOf(_) | Placement::LeftOf(_) => a.y as i64,
            Placement::Center | Placement::CenterY => origin + halve(a.h as i64 - self.h as i64),
            Placement::CenterX | Placement::SizeOf => self.y as i64,
        }
    }

    /// Whether this widget can be placed against `a` in the way `p`.
    pub fn can_place(&self, a: &Anchor, p: Placement) -> (ok: bool)
        ensures
            ok == self.admits(*a, p),
    {
        !self.deleted && !a.deleted && a.w != 0 && a.h != 0 && in_range(self.place_x(a, p))
            && in_range(self.place_y(a, p))
    }

    /// Places this widget against `a` in the way `p`, and requests a redraw
    /// of it.
    pub fn place(self, a: &Anchor, p: Placement) -> (placed: Widget)
        requires
            self.admits(*a, p),
        ensures
            placed == self.placed_by(*a, p),
    {
        let x = self.place_x(a, p) as i32;
        let y = self.place_y(a, p) as i32;
        let mut placed = self;
        match p {
            Placement::SizeOf => {
                placed.w = a.w;
                placed.h = a.h;
            },
            _ => {
                placed.x = x;
                placed.y = y;
            },
        }
        placed.redraw = true;
        placed
    }

    /// A widget at `(x, y)` with size `(w, h)` and the given label: an
    /// ordinary, live widget without a parent and with nothing to redraw.
    pub fn new(x: i32, y: i32, w: i32, h: i32, label: Option<&str>) -> (wid: Widget)
        ensures
            wid.x == x && wid.y == y && wid.w == w && wid.h == h,
            match label {
                Some(title) => wid.label@ == title@,
                None => wid.label@.len() == 0,
            },
            wid.align.bits == 0,
            wid.kind == 0,
            !wid.window && !wid.deleted && !wid.redraw,
            wid.parent is None,
    {
        let label = match label {
            Some(title) => title.to_string(),
            None => String::new(),
        };
        Widget {
            x,
            y,
            w,
            h,
            label,
            align: Align { bits: 0 },
            kind: 0,
            window: false,
            deleted: false,
            parent: None,
            redraw: false,
        }
    }

    /// A widget that fills `parent`: of the parent's size, and centered on it.
    /// Without a parent it is the default widget.
    pub fn default_fill(parent: Option<Anchor>) -> (wid: Widget)
        requires
            parent matches Some(p) ==> p.usable(),
        ensures
            wid.parent == parent,
            wid.label@.len() == 0 && wid.align.bits == 0 && wid.kind == 0,
            !wid.window && !wid.deleted,
            match parent {
                Some(p) => wid.x == p.origin_x() && wid.y == p.origin_y() && wid.w == p.w && wid.h
                    == p.h && wid.redraw,
                None => wid.x == 0 && wid.y == 0 && wid.w == 0 && wid.h == 0 && !wid.redraw,
            },
    {
        let mut wid = Widget::new(0, 0, 0, 0, None);
        wid.parent = parent;
        wid.size_of_parent().center_of_parent()
    }

    /// Moves the widget to `(x, y)`.
    pub fn with_pos(self, x: i32, y: i32) -> (wid: Widget)
        requires
            !self.deleted,
        ensures
            wid == self.moved(x, y),
    {
        let mut wid = self;
        wid.x = x;
        wid.y = y;
        wid
    }

    /// Gives the widget the size `(width, height)`.
    pub fn with_size(self, width: i32, height: i32) -> (wid: Widget)
        requires
            !self.deleted,
        ensures
            wid == self.sized(width, height),
    {
        let mut wid = self;
        wid.w = width;
        wid.h = height;
        wid
    }

    /// Gives the widget the label `title`.
    pub fn with_label(self, title: &str) -> (wid: Widget)
        ensures
            wid.label@ == title@,
            wid == (Widget { label: wid.label, ..self }),
    {
        let mut wid = self;
        wid.label = title.to_string();
        wid
    }

    /// Gives the widget's label the alignment `align`.
    pub fn with_align(self, align: Align) -> (wid: Widget)
        ensures
            wid == (Widget { align, ..self }),
    {
        let mut wid = self;
        wid.align = align;
        wid
    }

    /// Gives the widget the type that the toolkit numbers `typ`.
    pub fn with_type(self, typ: i32) -> (wid: Widget)
        ensures
            wid == (Widget { kind: typ, ..self }),
    {
        let mut wid = self;
        wid.kind = typ;
        wid
    }

    /// Places the widget below `wid`, `padding` away from its lower edge.
    pub fn below_of(self, wid: &Widget, padding: i32) -> (placed: Widget)
        requires
            !self.deleted,
            wid.anchor().usable(),
            fits(wid.y + wid.h + padding),
        ensures
            placed == self.placed(wid.x as int, wid.y + wid.h + padding),
    {
        self.place(&wid.anchor(), Placement::Below(padding))
    }

    /// Places the widget above `wid`, `padding` away from its upper edge.
    pub fn above_of(self, wid: &Widget, padding: i32) -> (placed: Widget)
        requires
            !self.deleted,
            wid.anchor().usable(),
            fits(wid.y - padding - self.h),
        ensures
            placed == self.placed(wid.x as int, wid.y - padding - self.h),
    {
        self.place(&wid.anchor(), Placement::Above(padding))
    }

    /// Places the widget to the right of `wid`, `padding` away from its right
    /// edge.
    pub fn right_of(self, wid: &Widget, padding: i32) -> (placed: Widget)
        requires
            !self.deleted,
            wid.anchor().usable(),
            fits(wid.x + wid.w + padding),
        ensures
            placed == self.placed(wid.x + wid.w + padding, wid.y as int),
    {
        self.place(&wid.anchor(), Placement::RightOf(padding))
    }

    /// Places the widget to the left of `wid`, `padding` away from its left
    /// edge.
    pub fn left_of(self, wid: &Widget, padding: i32) -> (placed: Widget)
        requires
            !self.deleted,
            wid.anchor().usable(),
            fits(wid.x - self.w - padding),
        ensures
            placed == self.placed(wid.x - self.w - padding, wid.y as int),
    {
        self.place(&wid.anchor(), Placement::LeftOf(padding))
    }

    /// Centers the widget on `w` on both axes: on each axis it is put half
    /// of what `w` is longer, rounded toward zero, past where the coordinates
    /// inside `w` start.
    pub fn center_of(self, w: &Widget) -> (placed: Widget)
        requires
            !self.deleted,
            w.anchor().usable(),
            fits(w.anchor().centered_x(self.w)),
            fits(w.anchor().centered_y(self.h)),
        ensures
            placed == self.placed(w.anchor().centered_x(self.w), w.anchor().centered_y(self.h)),
    {
        self.place(&w.anchor(), Placement::Center)
    }

    /// Centers the widget on its parent on both axes. A widget without a
    /// parent stays as it is.
    pub fn center_of_parent(self) -> (placed: Widget)
        requires
            !self.deleted,
            self.parent matches Some(p) ==> p.usable() && fits(p.centered_x(self.w)) && fits(
                p.centered_y(self.h),
            ),
        ensures
            placed == match self.parent {
                Some(p) => self.placed(p.centered_x(self.w), p.centered_y(self.h)),
                None => self,
            },
    {
        match self.parent {
            Some(p) => self.place(&p, Placement::Center),
            None => self,
        }
    }

    /// Centers the widget on `w` on the x axis and keeps its y coordinate.
    pub fn center_x(self, w: &Widget) -> (placed: Widget)
        requires
            !self.deleted,
            w.anchor().usable(),
            fits(w.anchor().centered_x(self.w)),
        ensures
            placed == self.placed(w.anchor().centered_x(self.w), self.y as int),
    {
        self.place(&w.anchor(), Placement::CenterX)
    }

    /// Centers the widget on `w` on the y axis and keeps its x coordinate.
    pub fn center_y(self, w: &Widget) -> (placed: Widget)
        requires
            !self.deleted,
            w.anchor().usable(),
            fits(w.anchor().centered_y(self.h)),
        ensures
            placed == self.placed(self.x as int, w.anchor().centered_y(self.h)),
    {
        self.place(&w.anchor(), Placement::CenterY)
    }

    /// Gives the widget the size of `w`.
    pub fn size_of(self, w: &Widget) -> (sized: Widget)
        requires
            !self.deleted,
            w.anchor().usable(),
        ensures
            sized == self.fitted(w.w, w.h),
    {
        self.place(&w.anchor(), Placement::SizeOf)
    }

    /// Gives the widget the size of its parent. A widget without a parent
    /// stays as it is.
    pub fn size_of_parent(self) -> (sized: Widget)
        requires
            !self.deleted,
            self.parent matches Some(p) ==> p.usable(),
        ensures
            sized == match self.parent {
                Some(p) => self.fitted(p.w, p.h),
                None => self,
            },
    {
        match self.parent {
            Some(p) => self.place(&p, Placement::SizeOf),
            None => self,
        }
    }
}

impl Default for Widget {
    /// The widget at the origin, of no size and without a label.
    fn default() -> (wid: Widget)
        ensures
            wid.x == 0 && wid.y == 0 && wid.w == 0 && wid.h == 0,
            wid.label@.len() == 0,
            wid.align.bits == 0,
            wid.kind == 0,
            !wid.window && !wid.deleted && !wid.redraw,
            wid.parent is None,
    {
        Widget::new(0, 0, 0, 0, None)
    }
}

} // verus!
