use vstd::prelude::*;
use vstd::string::*;
use crate::config::spec_button_note;
use crate::gamepad::button_to_midi_note;
use crate::text::{push_decimal, spec_decimal, string_of};
use crate::types::{Axis, Button, RawEvent};

verus! {

/// Largest X coordinate of the DualShock 4 touchpad.
pub const DS4_TOUCHPAD_X_MAX: i32 = 1920;

/// Largest Y coordinate of the DualShock 4 touchpad.
pub const DS4_TOUCHPAD_Y_MAX: i32 = 942;

/// A coordinate pair that lies strictly inside the touchpad surface.
pub open spec fn spec_inside(x: int, y: int) -> bool {
    0 < x < DS4_TOUCHPAD_X_MAX && 0 < y < DS4_TOUCHPAD_Y_MAX
}

/// The events that report a touch position: the position itself, then the
/// touchpad axes that are asked for.
pub open spec fn spec_position_events(x: i32, y: i32, with_x: bool, with_y: bool) -> Seq<RawEvent> {
    seq![RawEvent::TouchpadMove { x: Some(x), y: Some(y) }]
        + (if with_x { seq![RawEvent::TouchpadAxis { axis: Axis::TouchpadX, coord: x }] } else { Seq::empty() })
        + (if with_y { seq![RawEvent::TouchpadAxis { axis: Axis::TouchpadY, coord: y }] } else { Seq::empty() })
}

/// The events that report a released touch: both touchpad axes centered.
pub open spec fn spec_release_events() -> Seq<RawEvent> {
    seq![RawEvent::TouchpadCenter { axis: Axis::TouchpadX }, RawEvent::TouchpadCenter { axis: Axis::TouchpadY }]
}

/// Absolute difference of two coordinates.
pub open spec fn spec_abs_diff(a: i32, b: i32) -> int {
    if a >= b { a - b } else { b - a }
}

fn abs_diff(a: i32, b: i32) -> (d: i32)
    requires
        0 <= a <= DS4_TOUCHPAD_X_MAX,
        0 <= b <= DS4_TOUCHPAD_X_MAX,
    ensures
        d == spec_abs_diff(a, b),
{
    if a >= b { a - b } else { b - a }
}

fn push_position(events: &mut Vec<RawEvent>, x: i32, y: i32, with_x: bool, with_y: bool)
    ensures
        final(events)@ == old(events)@ + spec_position_events(x, y, with_x, with_y),
{
    events.push(RawEvent::TouchpadMove { x: Some(x), y: Some(y) });
    if with_x {
        events.push(RawEvent::TouchpadAxis { axis: Axis::TouchpadX, coord: x });
    }
    if with_y {
        events.push(RawEvent::TouchpadAxis { axis: Axis::TouchpadY, coord: y });
    }
    assert(events@ =~= old(events)@ + spec_position_events(x, y, with_x, with_y));
}

fn push_release(events: &mut Vec<RawEvent>)
    ensures
        final(events)@ == old(events)@ + spec_release_events(),
{
    events.push(RawEvent::TouchpadCenter { axis: Axis::TouchpadX });
    events.push(RawEvent::TouchpadCenter { axis: Axis::TouchpadY });
    assert(events@ =~= old(events)@ + spec_release_events());
}

/// Touch tracking of a separate HID touchpad: every change of position is
/// reported, and each axis only when it moved.
#[derive(Debug, Clone, Copy, PartialEq, Eq, Structural)]
pub struct HidTouchTracker {
    pub tracking: bool,
    pub last_x: i32,
    pub last_y: i32,
}

impl HidTouchTracker {
    /// The last position lies on the touchpad surface (or is the initial origin).
    pub open spec fn wf(&self) -> bool {
        0 <= self.last_x <= DS4_TOUCHPAD_X_MAX && 0 <= self.last_y <= DS4_TOUCHPAD_Y_MAX
    }

    /// No touch seen yet.
    pub fn new() -> (t: Self)
        ensures
            t.wf(),
            !t.tracking,
            t.last_x == 0 && t.last_y == 0,
    {
        HidTouchTracker { tracking: false, last_x: 0, last_y: 0 }
    }

    /// Tracker and reported events after a touch at `(x, y)`: when no touch is
    /// tracked or the position changed, the position is reported together with
    /// each axis that moved (both axes for a new touch), and it becomes the
    /// tracked position.
    pub open spec fn spec_update(self, x: i32, y: i32) -> (HidTouchTracker, Seq<RawEvent>) {
        let xd = spec_abs_diff(x, self.last_x);
        let yd = spec_abs_diff(y, self.last_y);
        if !self.tracking || xd > 0 || yd > 0 {
            (
                HidTouchTracker { tracking: true, last_x: x, last_y: y },
                spec_position_events(x, y, !self.tracking || xd > 0, !self.tracking || yd > 0),
            )
        } else {
            (self, Seq::empty())
        }
    }

    /// Tracker and reported events after a release: a tracked touch ends with
    /// both axes centered.
    pub open spec fn spec_end(self) -> (HidTouchTracker, Seq<RawEvent>) {
        if self.tracking {
            (HidTouchTracker { tracking: false, ..self }, spec_release_events())
        } else {
            (self, Seq::empty())
        }
    }

    /// Reports a touch at `(x, y)`.
    pub fn update_touchpad_position(&mut self, x: i32, y: i32, events: &mut Vec<RawEvent>)
        requires
            old(self).wf(),
            0 < x <= DS4_TOUCHPAD_X_MAX,
            0 < y <= DS4_TOUCHPAD_Y_MAX,
        ensures
            final(self).wf(),
            *final(self) == old(self).spec_update(x, y).0,
            final(events)@ == old(events)@ + old(self).spec_update(x, y).1,
    {
        let x_diff = abs_diff(x, self.last_x);
        let y_diff = abs_diff(y, self.last_y);
        if !self.tracking || x_diff > 0 || y_diff > 0 {
            push_position(events, x, y, !self.tracking || x_diff > 0, !self.tracking || y_diff > 0);
            self.last_x = x;
            self.last_y = y;
            self.tracking = true;
        } else {
            assert(events@ =~= old(events)@ + Seq::<RawEvent>::empty());
        }
    }

    /// Reports the end of a tracked touch.
    pub fn end_touch(&mut self, events: &mut Vec<RawEvent>)
        ensures
            *final(self) == old(self).spec_end().0,
            final(events)@ == old(events)@ + old(self).spec_end().1,
    {
        if self.tracking {
            self.tracking = false;
            push_release(events);
        } else {
            assert(events@ =~= old(events)@ + Seq::<RawEvent>::empty());
        }
    }
}

/// Touch tracking of the DualShock 4 touchpad inside its input report: a
/// position is reported for a new touch or when it moved more than five
/// units along some axis, always with both axes.
#[derive(Debug, Clone, Copy, PartialEq, Eq, Structural)]
pub struct RawTouchTracker {
    pub touchpad_active: bool,
    pub touchpad_last_x: i32,
    pub touchpad_last_y: i32,
}

/// Smallest movement along an axis that is reported.
pub const TOUCHPAD_MIN_CHANGE: i32 = 5;

impl RawTouchTracker {
    /// The last position lies on the touchpad surface (or is the initial origin).
    pub open spec fn wf(&self) -> bool {
        0 <= self.touchpad_last_x <= DS4_TOUCHPAD_X_MAX && 0 <= self.touchpad_last_y <= DS4_TOUCHPAD_Y_MAX
    }

    /// No touch seen yet.
    pub fn new() -> (t: Self)
        ensures
            t.wf(),
            !t.touchpad_active,
            t.touchpad_last_x == 0 && t.touchpad_last_y == 0,
    {
        RawTouchTracker { touchpad_active: false, touchpad_last_x: 0, touchpad_last_y: 0 }
    }

    /// Tracker and reported events after a touch at `(x, y)`: reported, with
    /// both axes, when no touch is active or it moved more than the minimum
    /// change along some axis.
    pub open spec fn spec_update(self, x: i32, y: i32) -> (RawTouchTracker, Seq<RawEvent>) {
        let xd = spec_abs_diff(x, self.touchpad_last_x);
        let yd = spec_abs_diff(y, self.touchpad_last_y);
        if !self.touchpad_active || xd > TOUCHPAD_MIN_CHANGE || yd > TOUCHPAD_MIN_CHANGE {
            (
                RawTouchTracker { touchpad_active: true, touchpad_last_x: x, touchpad_last_y: y },
                spec_position_events(x, y, true, true),
            )
        } else {
            (self, Seq::empty())
        }
    }

    /// Tracker and reported events after a release: an active touch ends
    /// with both axes centered.
    pub open spec fn spec_end(self) -> (RawTouchTracker, Seq<RawEvent>) {
        if self.touchpad_active {
            (RawTouchTracker { touchpad_active: false, ..self }, spec_release_events())
        } else {
            (self, Seq::empty())
        }
    }

    /// Reports a touch at `(x, y)`.
    pub fn update_touchpad_position(&mut self, x: i32, y: i32, events: &mut Vec<RawEvent>)
        requires
            old(self).wf(),
            0 < x <= DS4_TOUCHPAD_X_MAX,
            0 < y <= DS4_TOUCHPAD_Y_MAX,
        ensures
            final(self).wf(),
            *final(self) == old(self).spec_update(x, y).0,
            final(events)@ == old(events)@ + old(self).spec_update(x, y).1,
    {
        let x_diff = abs_diff(x, self.touchpad_last_x);
        let y_diff = abs_diff(y, self.touchpad_last_y);
        if !self.touchpad_active || x_diff > TOUCHPAD_MIN_CHANGE || y_diff > TOUCHPAD_MIN_CHANGE {
            push_position(events, x, y, true, true);
            self.touchpad_last_x = x;
            self.touchpad_last_y = y;
            self.touchpad_active = true;
        } else {
            assert(events@ =~= old(events)@ + Seq::<RawEvent>::empty());
        }
    }

    /// Reports the end of an active touch.
    pub fn end_touch(&mut self, events: &mut Vec<RawEvent>)
        ensures
            *final(self) == old(self).spec_end().0,
            final(events)@ == old(events)@ + old(self).spec_end().1,
    {
        if self.touchpad_active {
            self.touchpad_active = false;
            push_release(events);
        } else {
            assert(events@ =~= old(events)@ + Seq::<RawEvent>::empty());
        }
    }
}

/// A touch reported twice at the same place is reported once, and a release
/// reported twice is reported once: the trackers only report changes.
pub proof fn lemma_trackers_report_changes_once(h: HidTouchTracker, r: RawTouchTracker, x: i32, y: i32)
    ensures
        h.spec_update(x, y).0.spec_update(x, y).1 == Seq::<RawEvent>::empty(),
        h.spec_end().0.spec_end().1 == Seq::<RawEvent>::empty(),
        r.spec_update(x, y).0.spec_update(x, y).1 == Seq::<RawEvent>::empty(),
        r.spec_end().0.spec_end().1 == Seq::<RawEvent>::empty(),
{
}

// ---------------------------------------------------------------------------
// Kernel input events of the touchpad device.

/// Kind of a kernel input event.
#[derive(Debug, Clone, Copy, PartialEq, Eq, Structural)]
pub enum EvKind {
    Synchronization,
    Key,
    Absolute,
    Other,
}

/// One kernel input event: its kind, code and value.
#[derive(Debug, Clone, Copy, PartialEq, Eq, Structural)]
pub struct TouchInput {
    pub kind: EvKind,
    pub code: u16,
    pub value: i32,
}

/// Absolute axis code of the horizontal position.
pub const ABS_X: u16 = 0x00;
/// Absolute axis code of the vertical position.
pub const ABS_Y: u16 = 0x01;
/// Absolute axis code of a contact's horizontal position.
pub const ABS_MT_POSITION_X: u16 = 0x35;
/// Absolute axis code of a contact's vertical position.
pub const ABS_MT_POSITION_Y: u16 = 0x36;
/// Absolute axis code of a contact's tracking identifier (-1 ends the contact).
pub const ABS_MT_TRACKING_ID: u16 = 0x39;
/// Key code of the touchpad click.
pub const BTN_LEFT: u16 = 272;
/// Key code of a finger touching the surface.
pub const BTN_TOUCH: u16 = 330;

/// State of the touchpad reader between batches of events.
#[derive(Debug, Clone, Copy, PartialEq, Eq, Structural)]
pub struct EvdevTouchpad {
    pub touchpad_x: i32,
    pub touchpad_y: i32,
    pub touchpad_active: bool,
}

/// State while one batch of events is read.
pub struct TouchScan {
    pub pad: EvdevTouchpad,
    pub x_updated: bool,
    pub y_updated: bool,
    pub touch_started: bool,
    pub touch_ended: bool,
    pub out: Seq<RawEvent>,
}

/// The effect of one event on the batch being read.
pub open spec fn spec_touch_step(s: TouchScan, ev: TouchInput) -> TouchScan {
    match ev.kind {
        EvKind::Absolute => {
            if ev.code == ABS_MT_POSITION_X || ev.code == ABS_X {
                TouchScan { pad: EvdevTouchpad { touchpad_x: ev.value, ..s.pad }, x_updated: true, ..s }
            } else if ev.code == ABS_MT_POSITION_Y || ev.code == ABS_Y {
                TouchScan { pad: EvdevTouchpad { touchpad_y: ev.value, ..s.pad }, y_updated: true, ..s }
            } else if ev.code == ABS_MT_TRACKING_ID {
                if ev.value == -1 {
                    TouchScan { touch_ended: true, ..s }
                } else {
                    TouchScan {
                        touch_started: true,
                        pad: EvdevTouchpad { touchpad_active: true, ..s.pad },
                        ..s
                    }
                }
            } else {
                s
            }
        },
        EvKind::Key => {
            if ev.code == BTN_TOUCH && ev.value == 1 {
                TouchScan { touch_started: true, pad: EvdevTouchpad { touchpad_active: true, ..s.pad }, ..s }
            } else if ev.code == BTN_TOUCH && ev.value == 0 {
                TouchScan { touch_ended: true, ..s }
            } else if ev.code == BTN_LEFT {
                TouchScan {
                    out: s.out.push(RawEvent::ButtonPress { button: Button::Touchpad, pressed: ev.value == 1 }),
                    ..s
                }
            } else {
                s
            }
        },
        EvKind::Synchronization => {
            let out = if s.pad.touchpad_active && (s.x_updated || s.y_updated) {
                s.out.push(RawEvent::TouchpadMove {
                    x: if s.x_updated { Some(s.pad.touchpad_x) } else { None },
                    y: if s.y_updated { Some(s.pad.touchpad_y) } else { None },
                })
                    + (if s.x_updated {
                    seq![RawEvent::TouchpadAxis { axis: Axis::TouchpadX, coord: s.pad.touchpad_x }]
                } else {
                    Seq::empty()
                })
                    + (if s.y_updated {
                    seq![RawEvent::TouchpadAxis { axis: Axis::TouchpadY, coord: s.pad.touchpad_y }]
                } else {
                    Seq::empty()
                })
            } else {
                s.out
            };
            TouchScan { out, x_updated: false, y_updated: false, ..s }
        },
        EvKind::Other => s,
    }
}

/// Reading a whole batch of events, from the first to the last.
pub open spec fn spec_touch_scan(s: TouchScan, evs: Seq<TouchInput>) -> TouchScan
    decreases evs.len(),
{
    if evs.len() == 0 {
        s
    } else {
        spec_touch_step(spec_touch_scan(s, evs.drop_last()), evs.last())
    }
}

/// The batch start for a reader state.
pub open spec fn spec_scan_start(pad: EvdevTouchpad) -> TouchScan {
    TouchScan {
        pad,
        x_updated: false,
        y_updated: false,
        touch_started: false,
        touch_ended: false,
        out: Seq::empty(),
    }
}

/// Reader state and events after a batch: a touch that ended without a new
/// one starting in the same batch makes the touchpad inactive and centers
/// both axes.
pub open spec fn spec_touch_batch(pad: EvdevTouchpad, evs: Seq<TouchInput>) -> (EvdevTouchpad, Seq<RawEvent>) {
    let s = spec_touch_scan(spec_scan_start(pad), evs);
    if s.touch_ended && !s.touch_started {
        (EvdevTouchpad { touchpad_active: false, ..s.pad }, s.out + spec_release_events())
    } else {
        (s.pad, s.out)
    }
}

impl EvdevTouchpad {
    /// No touch seen yet.
    pub fn new() -> (t: Self)
        ensures
            t == (EvdevTouchpad { touchpad_x: 0, touchpad_y: 0, touchpad_active: false }),
    {
        EvdevTouchpad { touchpad_x: 0, touchpad_y: 0, touchpad_active: false }
    }

    /// Reads one batch of touchpad events: positions are reported at each
    /// synchronization while a touch is active, clicks as touchpad button
    /// events, and an ended touch as both axes returning to center.
    pub fn process_touchpad_events(&mut self, input: &Vec<TouchInput>) -> (events: Vec<RawEvent>)
        ensures
            (*final(self), events@) == spec_touch_batch(*old(self), input@),
    {
        let mut x_updated = false;
        let mut y_updated = false;
        let mut touch_started = false;
        let mut touch_ended = false;
        let mut events: Vec<RawEvent> = Vec::new();
        let ghost start = spec_scan_start(*self);
        let mut i: usize = 0;
        while i < input.len()
            invariant
                0 <= i <= input.len(),
                ({
                    let s = spec_touch_scan(start, input@.subrange(0, i as int));
                    &&& s.pad == *self
                    &&& s.x_updated == x_updated
                    &&& s.y_updated == y_updated
                    &&& s.touch_started == touch_started
                    &&& s.touch_ended == touch_ended
                    &&& s.out == events@
                }),
            decreases input.len() - i,
        {
            let ev = input[i];
            let ghost before = spec_touch_scan(start, input@.subrange(0, i as int));
            match ev.kind {
                EvKind::Absolute => {
                    if ev.code == ABS_MT_POSITION_X || ev.code == ABS_X {
                        self.touchpad_x = ev.value;
                        x_updated = true;
                    } else if ev.code == ABS_MT_POSITION_Y || ev.code == ABS_Y {
                        self.touchpad_y = ev.value;
                        y_updated = true;
                    } else if ev.code == ABS_MT_TRACKING_ID {
                        if ev.value == -1 {
                            touch_ended = true;
                        } else {
                            touch_started = true;
                            self.touchpad_active = true;
                        }
                    }
                },
                EvKind::Key => {
                    if ev.code == BTN_TOUCH {
                        if ev.value == 1 {
                            touch_started = true;
                            self.touchpad_active = true;
                        } else if ev.value == 0 {
                            touch_ended = true;
                        }
                    } else if ev.code == BTN_LEFT {
                        let pressed = ev.value == 1;
                        events.push(RawEvent::ButtonPress { button: Button::Touchpad, pressed });
                    }
                },
                EvKind::Synchronization => {
                    if self.touchpad_active && (x_updated || y_updated) {
                        events.push(
                            RawEvent::TouchpadMove {
                                x: if x_updated { Some(self.touchpad_x) } else { None },
                                y: if y_updated { Some(self.touchpad_y) } else { None },
                            },
                        );
                        let ghost mid = events@;
                        if x_updated {
                            events.push(RawEvent::TouchpadAxis { axis: Axis::TouchpadX, coord: self.touchpad_x });
                        }
                        let ghost mid2 = events@;
                        if y_updated {
                            events.push(RawEvent::TouchpadAxis { axis: Axis::TouchpadY, coord: self.touchpad_y });
                        }
                        assert(events@ =~= mid
                            + (if x_updated {
                            seq![RawEvent::TouchpadAxis { axis: Axis::TouchpadX, coord: self.touchpad_x }]
                        } else {
                            Seq::empty()
                        })
                            + (if y_updated {
                            seq![RawEvent::TouchpadAxis { axis: Axis::TouchpadY, coord: self.touchpad_y }]
                        } else {
                            Seq::empty()
                        }));
                    }
                    x_updated = false;
                    y_updated = false;
                },
                EvKind::Other => {},
            }
            assert(input@.subrange(0, i + 1).drop_last() =~= input@.subrange(0, i as int));
            i = i + 1;
        }
        assert(input@.subrange(0, i as int) =~= input@);
        if touch_ended && !touch_started {
            self.touchpad_active = false;
            push_release(&mut events);
        }
        events
    }
}

/// Every position report of the touchpad reader carries at least one coordinate.
pub open spec fn spec_moves_have_coordinate(out: Seq<RawEvent>) -> bool {
    forall|k: int| 0 <= k < out.len() ==> (#[trigger] out[k] matches RawEvent::TouchpadMove { x, y }
        ==> x is Some || y is Some)
}

proof fn lemma_scan_moves(s: TouchScan, evs: Seq<TouchInput>)
    requires
        spec_moves_have_coordinate(s.out),
    ensures
        spec_moves_have_coordinate(spec_touch_scan(s, evs).out),
        s.out.is_prefix_of(spec_touch_scan(s, evs).out),
    decreases evs.len(),
{
    if evs.len() > 0 {
        lemma_scan_moves(s, evs.drop_last());
        let p = spec_touch_scan(s, evs.drop_last());
        let q = spec_touch_step(p, evs.last());
        assert(spec_moves_have_coordinate(q.out)) by {
            assert forall|k: int| 0 <= k < q.out.len() implies (#[trigger] q.out[k] matches RawEvent::TouchpadMove { x, y }
                ==> x is Some || y is Some) by {
                if k < p.out.len() {
                    assert(q.out[k] == p.out[k]);
                }
            }
        }
        assert(p.out.is_prefix_of(q.out));
    }
}

/// The touchpad reader never reports a position without a coordinate, and
/// it only adds events: what a batch reports starts with the events of every
/// shorter prefix of the batch.
pub proof fn lemma_touch_batch_moves(pad: EvdevTouchpad, evs: Seq<TouchInput>)
    ensures
        spec_moves_have_coordinate(spec_touch_batch(pad, evs).1),
{
    let s = spec_touch_scan(spec_scan_start(pad), evs);
    lemma_scan_moves(spec_scan_start(pad), evs);
    let out = spec_touch_batch(pad, evs).1;
    assert forall|k: int| 0 <= k < out.len() implies (#[trigger] out[k] matches RawEvent::TouchpadMove { x, y }
        ==> x is Some || y is Some) by {
        if k < s.out.len() {
            assert(out[k] == s.out[k]);
        }
    }
}

/// A batch in which a touch ends and none starts leaves the touchpad
/// inactive, and its report ends with both axes centered.
pub proof fn lemma_touch_batch_release(pad: EvdevTouchpad, evs: Seq<TouchInput>)
    requires
        spec_touch_scan(spec_scan_start(pad), evs).touch_ended,
        !spec_touch_scan(spec_scan_start(pad), evs).touch_started,
    ensures
        !spec_touch_batch(pad, evs).0.touchpad_active,
        spec_touch_batch(pad, evs).1.len() >= 2,
        spec_touch_batch(pad, evs).1.last() == (RawEvent::TouchpadCenter { axis: Axis::TouchpadY }),
{
}

/// The button and state of a button event, for picking the button events
/// out of a list of events.
pub open spec fn spec_press_of() -> spec_fn(RawEvent) -> Option<(Button, bool)> {
    |e: RawEvent| match e {
        RawEvent::ButtonPress { button, pressed } => Some((button, pressed)),
        _ => None,
    }
}

/// What a touchpad click key event (`BTN_LEFT`, code 272) says: the touchpad
/// button, held exactly when the key's value is 1; other events say nothing
/// of a button.
pub open spec fn spec_click_of() -> spec_fn(TouchInput) -> Option<(Button, bool)> {
    |ev: TouchInput| if ev.kind == EvKind::Key && ev.code == 272 {
        Some((Button::Touchpad, ev.value == 1))
    } else {
        None
    }
}

/// Appending events that are not button events leaves the button events alone.
proof fn lemma_presses_unchanged(a: Seq<RawEvent>, b: Seq<RawEvent>)
    requires
        forall|i: int| 0 <= i < b.len() ==> !(#[trigger] b[i] is ButtonPress),
    ensures
        (a + b).filter_map(spec_press_of()) == a.filter_map(spec_press_of()),
    decreases b.len(),
{
    if b.len() == 0 {
        assert(a + b =~= a);
    } else {
        let t = b.drop_last();
        assert forall|i: int| 0 <= i < t.len() implies !(#[trigger] t[i] is ButtonPress) by {
            assert(t[i] == b[i]);
        }
        lemma_presses_unchanged(a, t);
        assert((a + b).drop_last() =~= a + t);
        assert((a + b).last() == b[b.len() - 1]);
    }
}

/// Reading events adds, after the button events already held, one button
/// event for each click key event, in order.
proof fn lemma_scan_clicks(s: TouchScan, evs: Seq<TouchInput>)
    ensures
        spec_touch_scan(s, evs).out.filter_map(spec_press_of()) == s.out.filter_map(spec_press_of())
            + evs.filter_map(spec_click_of()),
    decreases evs.len(),
{
    if evs.len() == 0 {
        assert(evs.filter_map(spec_click_of()) =~= Seq::<(Button, bool)>::empty());
        assert(s.out.filter_map(spec_press_of()) + Seq::<(Button, bool)>::empty() =~= s.out.filter_map(
            spec_press_of(),
        ));
    } else {
        let init = evs.drop_last();
        let ev = evs.last();
        lemma_scan_clicks(s, init);
        let p = spec_touch_scan(s, init);
        let q = spec_touch_step(p, ev);
        let before = p.out.filter_map(spec_press_of());
        if ev.kind == EvKind::Key && ev.code == BTN_LEFT {
            let e = RawEvent::ButtonPress { button: Button::Touchpad, pressed: ev.value == 1 };
            assert(q.out == p.out.push(e));
            assert(q.out.drop_last() =~= p.out);
            assert(q.out.filter_map(spec_press_of()) == before + seq![(Button::Touchpad, ev.value == 1)]);
            assert(evs.filter_map(spec_click_of()) == init.filter_map(spec_click_of()) + seq![
                (Button::Touchpad, ev.value == 1),
            ]);
        } else if ev.kind == EvKind::Synchronization {
            let rest = q.out.subrange(p.out.len() as int, q.out.len() as int);
            assert(q.out =~= p.out + rest);
            assert forall|i: int| 0 <= i < rest.len() implies !(#[trigger] rest[i] is ButtonPress) by {
                assert(rest[i] == q.out[p.out.len() + i]);
            }
            lemma_presses_unchanged(p.out, rest);
            assert(evs.filter_map(spec_click_of()) == init.filter_map(spec_click_of()));
        } else {
            assert(q.out == p.out);
            assert(evs.filter_map(spec_click_of()) == init.filter_map(spec_click_of()));
        }
        assert(before + init.filter_map(spec_click_of()) + seq![(Button::Touchpad, ev.value == 1)] =~= before + (
        init.filter_map(spec_click_of()) + seq![(Button::Touchpad, ev.value == 1)]));
    }
}

/// The button events that a batch of touchpad events reports are, in order,
/// one for each touchpad click key event (`BTN_LEFT`) of the batch: the
/// touchpad button, pressed exactly when the key's value is 1 and released
/// otherwise. Touches, positions and releases add no button event.
pub proof fn lemma_touch_batch_clicks(pad: EvdevTouchpad, evs: Seq<TouchInput>)
    ensures
        spec_touch_batch(pad, evs).1.filter_map(spec_press_of()) == evs.filter_map(spec_click_of()),
{
    let s = spec_scan_start(pad);
    lemma_scan_clicks(s, evs);
    assert(s.out.filter_map(spec_press_of()) =~= Seq::<(Button, bool)>::empty());
    assert(Seq::<(Button, bool)>::empty() + evs.filter_map(spec_click_of()) =~= evs.filter_map(spec_click_of()));
    let sc = spec_touch_scan(s, evs);
    if sc.touch_ended && !sc.touch_started {
        lemma_presses_unchanged(sc.out, spec_release_events());
    }
}

/// The touchpad moves that a batch of events reports one coordinate at a
/// time: each contact X or Y position, in order, with the other coordinate
/// absent.
pub open spec fn spec_position_moves(evs: Seq<TouchInput>) -> Seq<RawEvent>
    decreases evs.len(),
{
    if evs.len() == 0 {
        Seq::empty()
    } else {
        let prev = spec_position_moves(evs.drop_last());
        let ev = evs.last();
        if ev.kind == EvKind::Absolute && ev.code == ABS_MT_POSITION_X {
            prev.push(RawEvent::TouchpadMove { x: Some(ev.value), y: None })
        } else if ev.kind == EvKind::Absolute && ev.code == ABS_MT_POSITION_Y {
            prev.push(RawEvent::TouchpadMove { x: None, y: Some(ev.value) })
        } else {
            prev
        }
    }
}

/// Reports each contact position of a batch of events as a move of one
/// coordinate.
pub fn position_moves(input: &Vec<TouchInput>) -> (events: Vec<RawEvent>)
    ensures
        events@ == spec_position_moves(input@),
{
    let mut events: Vec<RawEvent> = Vec::new();
    let mut i: usize = 0;
    while i < input.len()
        invariant
            0 <= i <= input@.len(),
            events@ == spec_position_moves(input@.subrange(0, i as int)),
        decreases input.len() - i,
    {
        let ev = input[i];
        assert(input@.subrange(0, i + 1).drop_last() =~= input@.subrange(0, i as int));
        if ev.kind == EvKind::Absolute && ev.code == ABS_MT_POSITION_X {
            events.push(RawEvent::TouchpadMove { x: Some(ev.value), y: None });
        } else if ev.kind == EvKind::Absolute && ev.code == ABS_MT_POSITION_Y {
            events.push(RawEvent::TouchpadMove { x: None, y: Some(ev.value) });
        }
        i = i + 1;
    }
    assert(input@.subrange(0, i as int) =~= input@);
    events
}

/// One row of the live control display: the control, its raw value and the
/// MIDI message it gives.
pub struct DisplayUpdate {
    pub control: String,
    pub value: String,
    pub output: String,
}

/// The texts of a display row.
pub open spec fn spec_row(u: DisplayUpdate) -> (Seq<char>, Seq<char>, Seq<char>) {
    (u.control@, u.value@, u.output@)
}

/// The MIDI value shown for a touchpad X coordinate: the coordinate scaled
/// from `0..1920` onto `0..127`, rounded down and kept within a byte.
pub open spec fn spec_touch_midi_x(coord: int) -> int {
    if coord <= 0 {
        0
    } else if coord * 127 / 1920 > 255 {
        255
    } else {
        coord * 127 / 1920
    }
}

/// The MIDI value shown for a touchpad Y coordinate: the coordinate scaled
/// from `942..0` (the top of the pad is highest) onto `0..127`, rounded down
/// and kept within a byte.
pub open spec fn spec_touch_midi_y(coord: int) -> int {
    let v = 127 * (942 - coord);
    if v <= 0 {
        0
    } else if v / 942 > 255 {
        255
    } else {
        v / 942
    }
}

/// Decimal form of a signed number.
pub open spec fn spec_signed_decimal(n: int) -> Seq<char> {
    if n < 0 {
        "-"@ + spec_decimal((-n) as nat)
    } else {
        spec_decimal(n as nat)
    }
}

/// The MIDI note of a button, 0 when it has none.
pub open spec fn spec_note_or_zero(b: Button) -> nat {
    match spec_button_note(b) {
        Some(n) => n as nat,
        None => 0,
    }
}

/// The display row of a touchpad event, if it has one: a click shows its
/// note turned on or off, a touchpad axis its raw coordinate and control
/// change, and a released axis zero on its control change.
pub open spec fn spec_display_update(e: RawEvent) -> Option<(Seq<char>, Seq<char>, Seq<char>)> {
    match e {
        RawEvent::ButtonPress { button, pressed } => Some(
            (
                "Touchpad Click"@,
                if pressed { "true"@ } else { "false"@ },
                "Note "@ + spec_decimal(spec_note_or_zero(button)) + if pressed { ": ON"@ } else { ": OFF"@ },
            ),
        ),
        RawEvent::TouchpadAxis { axis: Axis::TouchpadX, coord } => Some(
            ("Touchpad X"@, spec_signed_decimal(coord as int), "CC 29: "@ + spec_decimal(spec_touch_midi_x(coord as int) as nat)),
        ),
        RawEvent::TouchpadAxis { axis: Axis::TouchpadY, coord } => Some(
            ("Touchpad Y"@, spec_signed_decimal(coord as int), "CC 30: "@ + spec_decimal(spec_touch_midi_y(coord as int) as nat)),
        ),
        RawEvent::TouchpadCenter { axis: Axis::TouchpadX } => Some(("Touchpad X"@, "0"@, "CC 29: 0"@)),
        RawEvent::TouchpadCenter { axis: Axis::TouchpadY } => Some(("Touchpad Y"@, "0"@, "CC 30: 0"@)),
        _ => None,
    }
}

/// The display rows of a list of touchpad events, in order.
pub open spec fn spec_display_updates(evs: Seq<RawEvent>) -> Seq<(Seq<char>, Seq<char>, Seq<char>)>
    decreases evs.len(),
{
    if evs.len() == 0 {
        Seq::empty()
    } else {
        let prev = spec_display_updates(evs.drop_last());
        match spec_display_update(evs.last()) {
            Some(u) => prev.push(u),
            None => prev,
        }
    }
}

/// Appends the decimal form of a signed number.
fn push_signed_decimal(out: &mut String, n: i32)
    ensures
        final(out)@ == old(out)@ + spec_signed_decimal(n as int),
{
    if n < 0 {
        out.append("-");
        let m: i64 = -(n as i64);
        push_decimal(out, m as u64);
        assert(out@ =~= old(out)@ + spec_signed_decimal(n as int));
    } else {
        push_decimal(out, n as u64);
    }
}

/// The MIDI value shown for a touchpad X coordinate.
fn touch_midi_x(coord: i32) -> (r: u64)
    ensures
        r == spec_touch_midi_x(coord as int),
{
    if coord <= 0 {
        return 0;
    }
    let v: i64 = (coord as i64) * 127 / 1920;
    if v > 255 { 255 } else { v as u64 }
}

/// The MIDI value shown for a touchpad Y coordinate.
fn touch_midi_y(coord: i32) -> (r: u64)
    ensures
        r == spec_touch_midi_y(coord as int),
{
    let v: i64 = 127 * (942 - coord as i64);
    if v <= 0 {
        return 0;
    }
    let q: i64 = v / 942;
    if q > 255 { 255 } else { q as u64 }
}

/// The display row of one touchpad event, if it has one.
fn display_update(e: RawEvent) -> (r: Option<DisplayUpdate>)
    ensures
        match r {
            Some(u) => spec_display_update(e) == Some(spec_row(u)),
            None => spec_display_update(e) is None,
        },
{
    match e {
        RawEvent::ButtonPress { button, pressed } => {
            let mut output = string_of("Note ");
            push_decimal(&mut output, button_to_midi_note(button) as u64);
            output.append(if pressed { ": ON" } else { ": OFF" });
            let value = if pressed { string_of("true") } else { string_of("false") };
            Some(DisplayUpdate { control: string_of("Touchpad Click"), value, output })
        },
        RawEvent::TouchpadAxis { axis, coord } => {
            let mut value = String::new();
            push_signed_decimal(&mut value, coord);
            proof {
                assert(value@ =~= spec_signed_decimal(coord as int));
            }
            match axis {
                Axis::TouchpadX => {
                    let mut output = string_of("CC 29: ");
                    push_decimal(&mut output, touch_midi_x(coord));
                    Some(DisplayUpdate { control: string_of("Touchpad X"), value, output })
                },
                Axis::TouchpadY => {
                    let mut output = string_of("CC 30: ");
                    push_decimal(&mut output, touch_midi_y(coord));
                    Some(DisplayUpdate { control: string_of("Touchpad Y"), value, output })
                },
                _ => None,
            }
        },
        RawEvent::TouchpadCenter { axis } => match axis {
            Axis::TouchpadX => Some(
                DisplayUpdate { control: string_of("Touchpad X"), value: string_of("0"), output: string_of("CC 29: 0") },
            ),
            Axis::TouchpadY => Some(
                DisplayUpdate { control: string_of("Touchpad Y"), value: string_of("0"), output: string_of("CC 30: 0") },
            ),
            _ => None,
        },
        _ => None,
    }
}

/// The rows that a batch of touchpad events adds to the live display, in
/// the order of the events: clicks, reported coordinates and released axes.
pub fn touch_display_updates(events: &Vec<RawEvent>) -> (r: Vec<DisplayUpdate>)
    ensures
        r@.map_values(|u: DisplayUpdate| spec_row(u)) == spec_display_updates(events@),
{
    let mut r: Vec<DisplayUpdate> = Vec::new();
    let mut i: usize = 0;
    while i < events.len()
        invariant
            0 <= i <= events@.len(),
            r@.map_values(|u: DisplayUpdate| spec_row(u)) == spec_display_updates(events@.subrange(0, i as int)),
        decreases events.len() - i,
    {
        let ghost before = r@;
        assert(events@.subrange(0, i + 1).drop_last() =~= events@.subrange(0, i as int));
        match display_update(events[i]) {
            Some(u) => {
                r.push(u);
                assert(r@.map_values(|u: DisplayUpdate| spec_row(u)) =~= before.map_values(
                    |u: DisplayUpdate| spec_row(u),
                ).push(spec_row(u)));
            },
            None => {},
        }
        i = i + 1;
    }
    assert(events@.subrange(0, events@.len() as int) =~= events@);
    r
}

/// A batch in which a touch ended and none started ends the display with the
/// two touchpad axes back at zero.
pub proof fn lemma_ended_touch_shows_centered_axes(pad: EvdevTouchpad, evs: Seq<TouchInput>)
    requires
        spec_touch_scan(spec_scan_start(pad), evs).touch_ended,
        !spec_touch_scan(spec_scan_start(pad), evs).touch_started,
    ensures
        ({
            let rows = spec_display_updates(spec_touch_batch(pad, evs).1);
            &&& rows.len() >= 2
            &&& rows[rows.len() - 2] == ("Touchpad X"@, "0"@, "CC 29: 0"@)
            &&& rows[rows.len() - 1] == ("Touchpad Y"@, "0"@, "CC 30: 0"@)
        }),
{
    let out = spec_touch_scan(spec_scan_start(pad), evs).out;
    let all = out + spec_release_events();
    assert(spec_touch_batch(pad, evs).1 == all);
    let mid = out.push(RawEvent::TouchpadCenter { axis: Axis::TouchpadX });
    assert(all.drop_last() =~= mid);
    assert(all.last() == RawEvent::TouchpadCenter { axis: Axis::TouchpadY });
    assert(mid.drop_last() =~= out);
    assert(mid.last() == RawEvent::TouchpadCenter { axis: Axis::TouchpadX });
    let before = spec_display_updates(out);
    assert(spec_display_updates(mid) == before.push(("Touchpad X"@, "0"@, "CC 29: 0"@)));
    assert(spec_display_updates(all) == before.push(("Touchpad X"@, "0"@, "CC 29: 0"@)).push(
        ("Touchpad Y"@, "0"@, "CC 30: 0"@),
    ));
}

} // verus!
