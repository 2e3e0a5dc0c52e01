//! The base listener: one widget together with the trigger state that its
//! hooks write to and its queries read.

use crate::widget::Align;
use crate::widget::Anchor;
use crate::widget::Widget;
use crate::widget::fits;
use vstd::prelude::*;
use vstd::std_specs::convert::FromSpecImpl;

verus! {

/// A trigger state that a listener can be armed with.
pub trait Trigger: Sized {
    /// Whether this is the state of a listener on whose widget nothing has
    /// happened yet, as far as the state can be spoken of.
    spec fn idle(&self) -> bool;

    /// The state that a listener starts with.
    fn armed() -> (trig: Self)
        ensures
            trig.idle(),
    ;
}

/// The base listener. It owns its widget and hands every operation on the
/// widget through to it.
#[derive(Debug, Clone)]
pub struct BaseListener<TRIG> {
    pub(crate) wid: Widget,
    pub(crate) trig: TRIG,
}

impl<TRIG> BaseListener<TRIG> {
    /// The widget that this listener owns.
    pub open(crate) spec fn widget(&self) -> Widget {
        self.wid
    }

    /// The trigger state of this listener.
    pub open(crate) spec fn trigger(&self) -> TRIG {
        self.trig
    }
}

impl<TRIG> core::ops::Deref for BaseListener<TRIG> {
    type Target = Widget;

    /// The listener's widget, to read.
    fn deref(&self) -> (wid: &Widget)
        ensures
            *wid == self.widget(),
    {
        &self.wid
    }
}

impl<TRIG> core::ops::DerefMut for BaseListener<TRIG> {
    /// The listener's widget, to change. The trigger state stays as it is.
    fn deref_mut(&mut self) -> (wid: &mut Widget)
        ensures
            *wid == old(self).widget(),
            final(self).widget() == *final(wid),
            final(self).trigger() == old(self).trigger(),
    {
        &mut self.wid
    }
}

impl<TRIG: Trigger> BaseListener<TRIG> {
    /// Arms a listener on `wid`.
    pub fn from_widget(wid: Widget) -> (listener: Self)
        ensures
            listener.widget() == wid,
            listener.trigger().idle(),
    {
        BaseListener { wid, trig: TRIG::armed() }
    }

    /// Arms a listener on a new widget at `(x, y)` with size `(w, h)` and the
    /// given label.
    pub fn new(x: i32, y: i32, w: i32, h: i32, label: Option<&str>) -> (listener: Self)
        ensures
            listener.widget().x == x && listener.widget().y == y,
            listener.widget().w == w && listener.widget().h == h,
            match label {
                Some(title) => listener.widget().label@ == title@,
                None => listener.widget().label@.len() == 0,
            },
            listener.widget().align.bits == 0,
            listener.widget().kind == 0,
            !listener.widget().window && !listener.widget().deleted && !listener.widget().redraw,
            listener.widget().parent is None,
            listener.trigger().idle(),
    {
        BaseListener { wid: Widget::new(x, y, w, h, label), trig: TRIG::armed() }
    }

    /// Arms a listener on a new widget that fills `parent`.
    pub fn default_fill(parent: Option<Anchor>) -> (listener: Self)
        requires
            parent matches Some(p) ==> p.usable(),
        ensures
            listener.widget().parent == parent,
            listener.widget().label@.len() == 0,
            listener.widget().align.bits == 0,
            listener.widget().kind == 0,
            !listener.widget().window && !listener.widget().deleted,
            match parent {
                Some(p) => {
                    &&& listener.widget().x == p.origin_x()
                    &&& listener.widget().y == p.origin_y()
                    &&& listener.widget().w == p.w
                    &&& listener.widget().h == p.h
                    &&& listener.widget().redraw
                },
                None => {
                    &&& listener.widget().x == 0
                    &&& listener.widget().y == 0
                    &&& listener.widget().w == 0
                    &&& listener.widget().h == 0
                    &&& !listener.widget().redraw
                },
            },
            listener.trigger().idle(),
    {
        BaseListener { wid: Widget::default_fill(parent), trig: TRIG::armed() }
    }
}

impl<TRIG: Trigger> From<Widget> for BaseListener<TRIG> {
    /// Arms a listener on `wid`.
    fn from(wid: Widget) -> (listener: Self)
        ensures
            listener.widget() == wid,
            listener.trigger().idle(),
    {
        BaseListener { wid, trig: TRIG::armed() }
    }
}

impl<TRIG: Trigger> FromSpecImpl<Widget> for BaseListener<TRIG> {
    /// Arming makes a trigger state of its own for each listener, so the
    /// listener is not told by the widget alone.
    open spec fn obeys_from_spec() -> bool {
        false
    }

    open spec fn from_spec(wid: Widget) -> Self {
        arbitrary()
    }
}

impl<TRIG: Trigger> Default for BaseListener<TRIG> {
    /// Arms a listener on the default widget.
    fn default() -> (listener: Self)
        ensures
            listener.widget().x == 0 && listener.widget().y == 0,
            listener.widget().w == 0 && listener.widget().h == 0,
            listener.widget().label@.len() == 0,
            listener.widget().align.bits == 0,
            listener.widget().kind == 0,
            !listener.widget().window && !listener.widget().deleted && !listener.widget().redraw,
            listener.widget().parent is None,
            listener.trigger().idle(),
    {
        BaseListener { wid: Widget::default(), trig: TRIG::armed() }
    }
}

impl<TRIG> BaseListener<TRIG> {
    /// Moves the widget to `(x, y)`.
    pub fn with_pos(self, x: i32, y: i32) -> (listener: Self)
        requires
            !self.widget().deleted,
        ensures
            listener.widget() == self.widget().moved(x, y),
            listener.trigger() == self.trigger(),
    {
        BaseListener { wid: self.wid.with_pos(x, y), trig: self.trig }
    }

    /// Gives the widget the size `(width, height)`.
    pub fn with_size(self, width: i32, height: i32) -> (listener: Self)
        requires
            !self.widget().deleted,
        ensures
            listener.widget() == self.widget().sized(width, height),
            listener.trigger() == self.trigger(),
    {
        BaseListener { wid: self.wid.with_size(width, height), trig: self.trig }
    }

    /// Gives the widget the label `title`.
    pub fn with_label(self, title: &str) -> (listener: Self)
        ensures
            listener.widget().label@ == title@,
            listener.widget() == (Widget { label: listener.widget().label, ..self.widget() }),
            listener.trigger() == self.trigger(),
    {
        BaseListener { wid: self.wid.with_label(title), trig: self.trig }
    }

    /// Gives the widget's label the alignment `align`.
    pub fn with_align(self, align: Align) -> (listener: Self)
        ensures
            listener.widget() == (Widget { align, ..self.widget() }),
            listener.trigger() == self.trigger(),
    {
        BaseListener { wid: self.wid.with_align(align), trig: self.trig }
    }

    /// Gives the widget the type that the toolkit numbers `typ`.
    pub fn with_type(self, typ: i32) -> (listener: Self)
        ensures
            listener.widget() == (Widget { kind: typ, ..self.widget() }),
            listener.trigger() == self.trigger(),
    {
        BaseListener { wid: self.wid.with_type(typ), trig: self.trig }
    }

    /// Places the widget below `wid`, `padding` away from its lower edge.
    pub fn below_of(self, wid: &Widget, padding: i32) -> (listener: Self)
        requires
            !self.widget().deleted,
            wid.anchor().usable(),
            fits(wid.y + wid.h + padding),
        ensures
            listener.widget() == self.widget().placed(wid.x as int, wid.y + wid.h + padding),
            listener.trigger() == self.trigger(),
    {
        BaseListener { wid: self.wid.below_of(wid, padding), trig: self.trig }
    }

    /// Places the widget above `wid`, `padding` away from its upper edge.
    pub fn above_of(self, wid: &Widget, padding: i32) -> (listener: Self)
        requires
            !self.widget().deleted,
            wid.anchor().usable(),
            fits(wid.y - padding - self.widget().h),
        ensures
            listener.widget() == self.widget().placed(
                wid.x as int,
                wid.y - padding - self.widget().h,
            ),
            listener.trigger() == self.trigger(),
    {
        BaseListener { wid: self.wid.above_of(wid, padding), trig: self.trig }
    }

    /// Places the widget to the right of `wid`, `padding` away from its right
    /// edge.
    pub fn right_of(self, wid: &Widget, padding: i32) -> (listener: Self)
        requires
            !self.widget().deleted,
            wid.anchor().usable(),
            fits(wid.x + wid.w + padding),
        ensures
            listener.widget() == self.widget().placed(wid.x + wid.w + padding, wid.y as int),
            listener.trigger() == self.trigger(),
    {
        BaseListener { wid: self.wid.right_of(wid, padding), trig: self.trig }
    }

    /// Places the widget to the left of `wid`, `padding` away from its left
    /// edge.
    pub fn left_of(self, wid: &Widget, padding: i32) -> (listener: Self)
        requires
            !self.widget().deleted,
            wid.anchor().usable(),
            fits(wid.x - self.widget().w - padding),
        ensures
            listener.widget() == self.widget().placed(
                wid.x - self.widget().w - padding,
                wid.y as int,
            ),
            listener.trigger() == self.trigger(),
    {
        BaseListener { wid: self.wid.left_of(wid, padding), trig: self.trig }
    }

    /// Centers the widget on `w` on both axes.
    pub fn center_of(self, w: &Widget) -> (listener: Self)
        requires
            !self.widget().deleted,
            w.anchor().usable(),
            fits(w.anchor().centered_x(self.widget().w)),
            fits(w.anchor().centered_y(self.widget().h)),
        ensures
            listener.widget() == self.widget().placed(
                w.anchor().centered_x(self.widget().w),
                w.anchor().centered_y(self.widget().h),
            ),
            listener.trigger() == self.trigger(),
    {
        BaseListener { wid: self.wid.center_of(w), trig: self.trig }
    }

    /// Centers the widget on its parent on both axes. A widget without a
    /// parent stays as it is.
    pub fn center_of_parent(self) -> (listener: Self)
        requires
            !self.widget().deleted,
            self.widget().parent matches Some(p) ==> p.usable() && fits(
                p.centered_x(self.widget().w),
            ) && fits(p.centered_y(self.widget().h)),
        ensures
            listener.widget() == match self.widget().parent {
                Some(p) => self.widget().placed(
                    p.centered_x(self.widget().w),
                    p.centered_y(self.widget().h),
                ),
                None => self.widget(),
            },
            listener.trigger() == self.trigger(),
    {
        BaseListener { wid: self.wid.center_of_parent(), trig: self.trig }
    }

    /// Centers the widget on `w` on the x axis and keeps its y coordinate.
    pub fn center_x(self, w: &Widget) -> (listener: Self)
        requires
            !self.widget().deleted,
            w.anchor().usable(),
            fits(w.anchor().centered_x(self.widget().w)),
        ensures
            listener.widget() == self.widget().placed(
                w.anchor().centered_x(self.widget().w),
                self.widget().y as int,
            ),
            listener.trigger() == self.trigger(),
    {
        BaseListener { wid: self.wid.center_x(w), trig: self.trig }
    }

    /// Centers the widget on `w` on the y axis and keeps its x coordinate.
    pub fn center_y(self, w: &Widget) -> (listener: Self)
        requires
            !self.widget().deleted,
            w.anchor().usable(),
            fits(w.anchor().centered_y(self.widget().h)),
        ensures
            listener.widget() == self.widget().placed(
                self.widget().x as int,
                w.anchor().centered_y(self.widget().h),
            ),
            listener.trigger() == self.trigger(),
    {
        BaseListener { wid: self.wid.center_y(w), trig: self.trig }
    }

    /// Gives the widget the size of `w`.
    pub fn size_of(self, w: &Widget) -> (listener: Self)
        requires
            !self.widget().deleted,
            w.anchor().usable(),
        ensures
            listener.widget() == self.widget().fitted(w.w, w.h),
            listener.trigger() == self.trigger(),
    {
        BaseListener { wid: self.wid.size_of(w), trig: self.trig }
    }

    /// Gives the widget the size of its parent. A widget without a parent
    /// stays as it is.
    pub fn size_of_parent(self) -> (listener: Self)
        requires
            !self.widget().deleted,
            self.widget().parent matches Some(p) ==> p.usable(),
        ensures
            listener.widget() == match self.widget().parent {
                Some(p) => self.widget().fitted(p.w, p.h),
                None => self.widget(),
            },
            listener.trigger() == self.trigger(),
    {
        BaseListener { wid: self.wid.size_of_parent(), trig: self.trig }
    }
}

} // verus!
