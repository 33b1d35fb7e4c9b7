use vstd::prelude::*;
use crate::buttons::{
    ButtonStates, lemma_apply_records_all, lemma_apply_reports_changes, lemma_apply_twice_quiet, spec_apply_updates,
    spec_distinct_buttons, spec_listed, spec_new_events,
};
use crate::profiles::{spec_code_byte, spec_code_mask, spec_ds4_buttons, ControllerProfile, DpadType, DpadView};
use crate::touchpad::{DS4_TOUCHPAD_X_MAX, DS4_TOUCHPAD_Y_MAX, HidTouchTracker, RawTouchTracker, spec_inside};
use crate::types::{Axis, AxisConfig, Button, RawEvent};

verus! {

// ---------------------------------------------------------------------------
// D-pad.

/// Directions `(up, right, down, left)` held by a DualShock 4 hat value;
/// values above 7 mean released.
pub open spec fn spec_dpad_directions(dpad: u8) -> (bool, bool, bool, bool) {
    if dpad == 0 {
        (true, false, false, false)
    } else if dpad == 1 {
        (true, true, false, false)
    } else if dpad == 2 {
        (false, true, false, false)
    } else if dpad == 3 {
        (false, true, true, false)
    } else if dpad == 4 {
        (false, false, true, false)
    } else if dpad == 5 {
        (false, false, true, true)
    } else if dpad == 6 {
        (false, false, false, true)
    } else if dpad == 7 {
        (true, false, false, true)
    } else {
        (false, false, false, false)
    }
}

/// D-pad button states of a hat value, in the order up, right, down, left.
pub open spec fn spec_dpad_updates(dpad: u8) -> Seq<(Button, bool)> {
    let d = spec_dpad_directions(dpad);
    seq![(Button::DpadUp, d.0), (Button::DpadRight, d.1), (Button::DpadDown, d.2), (Button::DpadLeft, d.3)]
}

/// D-pad button states of a hat value.
pub fn dpad_updates(dpad: u8) -> (r: Vec<(Button, bool)>)
    ensures
        r@ == spec_dpad_updates(dpad),
{
    let (up, right, down, left) = match dpad {
        0 => (true, false, false, false),
        1 => (true, true, false, false),
        2 => (false, true, false, false),
        3 => (false, true, true, false),
        4 => (false, false, true, false),
        5 => (false, false, true, true),
        6 => (false, false, false, true),
        7 => (true, false, false, true),
        _ => (false, false, false, false),
    };
    let r = vec![
        (Button::DpadUp, up),
        (Button::DpadRight, right),
        (Button::DpadDown, down),
        (Button::DpadLeft, left),
    ];
    assert(r@ =~= spec_dpad_updates(dpad));
    r
}

/// A hat value never holds opposite directions, holds at most two, and every
/// value from 0 to 7 holds at least one.
pub proof fn lemma_dpad_consistent(dpad: u8)
    ensures
        !(spec_dpad_directions(dpad).0 && spec_dpad_directions(dpad).2),
        !(spec_dpad_directions(dpad).1 && spec_dpad_directions(dpad).3),
        dpad <= 7 <==> (spec_dpad_directions(dpad).0 || spec_dpad_directions(dpad).1
            || spec_dpad_directions(dpad).2 || spec_dpad_directions(dpad).3),
{
}

// ---------------------------------------------------------------------------
// Reports of the main controller device.

/// Whether `mask` selects any set bit of `b`.
pub open spec fn spec_bit(b: u8, mask: u8) -> bool {
    b & mask != 0
}

/// Button states carried by a DualShock 4 report whose button bytes start
/// at `btn`, followed by the D-pad in the low nibble of the first one.
pub open spec fn spec_ds4_updates(data: Seq<u8>, btn: int) -> Seq<(Button, bool)> {
    let b0 = data[btn];
    let b1 = data[btn + 1];
    let b2 = data[btn + 2];
    seq![
        (Button::Square, spec_bit(b0, 0x10)),
        (Button::Cross, spec_bit(b0, 0x20)),
        (Button::Circle, spec_bit(b0, 0x40)),
        (Button::Triangle, spec_bit(b0, 0x80)),
        (Button::L1, spec_bit(b1, 0x01)),
        (Button::R1, spec_bit(b1, 0x02)),
        (Button::L2, spec_bit(b1, 0x04)),
        (Button::R2, spec_bit(b1, 0x08)),
        (Button::Share, spec_bit(b1, 0x10)),
        (Button::Options, spec_bit(b1, 0x20)),
        (Button::L3, spec_bit(b1, 0x40)),
        (Button::R3, spec_bit(b1, 0x80)),
        (Button::PS, spec_bit(b2, 0x01)),
        (Button::Touchpad, spec_bit(b2, 0x02)),
    ] + spec_dpad_updates(b0 & 0x0F)
}

/// Stick and trigger samples of a DualShock 4 report whose stick bytes start
/// at `stick`; the vertical stick axes are inverted.
pub open spec fn spec_ds4_sticks(data: Seq<u8>, stick: int) -> Seq<RawEvent> {
    seq![
        RawEvent::StickSample { axis: Axis::LeftStickX, raw: data[stick], invert: false },
        RawEvent::StickSample { axis: Axis::LeftStickY, raw: data[stick + 1], invert: true },
        RawEvent::StickSample { axis: Axis::RightStickX, raw: data[stick + 2], invert: false },
        RawEvent::StickSample { axis: Axis::RightStickY, raw: data[stick + 3], invert: true },
        RawEvent::TriggerSample { axis: Axis::L2, raw: data[stick + 7] },
        RawEvent::TriggerSample { axis: Axis::R2, raw: data[stick + 8] },
    ]
}

/// Buttons and events after a DualShock 4 report: in Bluetooth mode every
/// field sits two bytes further on; a report too short for its fields changes
/// nothing.
pub open spec fn spec_ds4_report(
    st: (Map<Button, bool>, Seq<RawEvent>),
    data: Seq<u8>,
    bluetooth: bool,
) -> (Map<Button, bool>, Seq<RawEvent>) {
    let off: int = if bluetooth { 2 } else { 0 };
    if data.len() < 10 + off {
        st
    } else {
        let r = spec_apply_updates(st, spec_ds4_updates(data, 5 + off));
        (r.0, r.1 + spec_ds4_sticks(data, 1 + off))
    }
}

/// Stick samples of a generic gamepad report (bytes 1 to 4, vertical axes inverted).
pub open spec fn spec_generic_sticks(data: Seq<u8>) -> Seq<RawEvent> {
    seq![
        RawEvent::StickSample { axis: Axis::LeftStickX, raw: data[1], invert: false },
        RawEvent::StickSample { axis: Axis::LeftStickY, raw: data[2], invert: true },
        RawEvent::StickSample { axis: Axis::RightStickX, raw: data[3], invert: false },
        RawEvent::StickSample { axis: Axis::RightStickY, raw: data[4], invert: true },
    ]
}

/// Button states of a generic gamepad report: the bits of byte 5 and, when
/// present, the low six bits of byte 6.
pub open spec fn spec_generic_updates(data: Seq<u8>) -> Seq<(Button, bool)> {
    let b0 = data[5];
    let first = seq![
        (Button::Cross, spec_bit(b0, 0x01)),
        (Button::Circle, spec_bit(b0, 0x02)),
        (Button::Square, spec_bit(b0, 0x04)),
        (Button::Triangle, spec_bit(b0, 0x08)),
        (Button::L1, spec_bit(b0, 0x10)),
        (Button::R1, spec_bit(b0, 0x20)),
        (Button::L2, spec_bit(b0, 0x40)),
        (Button::R2, spec_bit(b0, 0x80)),
    ];
    if data.len() >= 7 {
        let b1 = data[6];
        first + seq![
            (Button::Share, spec_bit(b1, 0x01)),
            (Button::Options, spec_bit(b1, 0x02)),
            (Button::L3, spec_bit(b1, 0x04)),
            (Button::R3, spec_bit(b1, 0x08)),
            (Button::PS, spec_bit(b1, 0x10)),
            (Button::Touchpad, spec_bit(b1, 0x20)),
        ]
    } else {
        first
    }
}

/// Buttons and events after a generic gamepad report: the sticks first, then
/// the buttons; a report shorter than six bytes changes nothing.
pub open spec fn spec_generic_report(
    st: (Map<Button, bool>, Seq<RawEvent>),
    data: Seq<u8>,
) -> (Map<Button, bool>, Seq<RawEvent>) {
    if data.len() < 6 {
        st
    } else {
        spec_apply_updates((st.0, st.1 + spec_generic_sticks(data)), spec_generic_updates(data))
    }
}

fn bit(b: u8, mask: u8) -> (r: bool)
    ensures
        r == spec_bit(b, mask),
{
    b & mask != 0
}

fn push_events(events: &mut Vec<RawEvent>, more: Vec<RawEvent>)
    ensures
        final(events)@ == old(events)@ + more@,
{
    let mut i: usize = 0;
    while i < more.len()
        invariant
            0 <= i <= more.len(),
            events@ == old(events)@ + more@.subrange(0, i as int),
        decreases more.len() - i,
    {
        events.push(more[i]);
        i = i + 1;
        assert(events@ =~= old(events)@ + more@.subrange(0, i as int));
    }
    assert(more@.subrange(0, i as int) =~= more@);
}

fn append_updates(a: &mut Vec<(Button, bool)>, b: Vec<(Button, bool)>)
    ensures
        final(a)@ == old(a)@ + b@,
{
    let mut i: usize = 0;
    while i < b.len()
        invariant
            0 <= i <= b.len(),
            a@ == old(a)@ + b@.subrange(0, i as int),
        decreases b.len() - i,
    {
        a.push(b[i]);
        i = i + 1;
        assert(a@ =~= old(a)@ + b@.subrange(0, i as int));
    }
    assert(b@.subrange(0, i as int) =~= b@);
}

/// Decoding state of a controller read through HID.
pub struct HidReportState {
    pub button_states: ButtonStates,
    pub touchpad: HidTouchpad,
    pub last_report: Vec<u8>,
    pub is_dualshock: bool,
    pub is_bluetooth: bool,
}

impl HidReportState {
    /// Nothing seen yet from a controller that is or is not a DualShock.
    pub fn new(is_dualshock: bool) -> (s: Self)
        ensures
            forall|b: Button| !#[trigger] s.button_states@[b],
            s.touchpad == HidTouchpad::spec_new(),
            s.last_report@.len() == 0,
            s.is_dualshock == is_dualshock,
            !s.is_bluetooth,
    {
        HidReportState {
            button_states: ButtonStates::new(),
            touchpad: HidTouchpad::new(),
            last_report: Vec::new(),
            is_dualshock,
            is_bluetooth: false,
        }
    }

    /// Parse a DualShock 4 report.
    pub fn parse_dualshock_report(&mut self, data: &[u8], events: &mut Vec<RawEvent>)
        ensures
            (final(self).button_states@, final(events)@) == spec_ds4_report(
                (old(self).button_states@, old(events)@),
                data@,
                old(self).is_bluetooth,
            ),
            final(self).touchpad == old(self).touchpad,
            final(self).last_report == old(self).last_report,
            final(self).is_dualshock == old(self).is_dualshock,
            final(self).is_bluetooth == old(self).is_bluetooth,
    {
        let offset: usize = if self.is_bluetooth { 2 } else { 0 };
        if data.len() < 10 + offset {
            return;
        }
        let btn_offset = 5 + offset;
        let b0 = data[btn_offset];
        let b1 = data[btn_offset + 1];
        let b2 = data[btn_offset + 2];
        let mut updates = vec![
            (Button::Square, bit(b0, 0x10)),
            (Button::Cross, bit(b0, 0x20)),
            (Button::Circle, bit(b0, 0x40)),
            (Button::Triangle, bit(b0, 0x80)),
            (Button::L1, bit(b1, 0x01)),
            (Button::R1, bit(b1, 0x02)),
            (Button::L2, bit(b1, 0x04)),
            (Button::R2, bit(b1, 0x08)),
            (Button::Share, bit(b1, 0x10)),
            (Button::Options, bit(b1, 0x20)),
            (Button::L3, bit(b1, 0x40)),
            (Button::R3, bit(b1, 0x80)),
            (Button::PS, bit(b2, 0x01)),
            (Button::Touchpad, bit(b2, 0x02)),
        ];
        let dpad = b0 & 0x0F;
        append_updates(&mut updates, dpad_updates(dpad));
        assert(updates@ =~= spec_ds4_updates(data@, btn_offset as int));
        self.button_states.apply_updates(&updates, events);

        let s = 1 + offset;
        let sticks = vec![
            RawEvent::StickSample { axis: Axis::LeftStickX, raw: data[s], invert: false },
            RawEvent::StickSample { axis: Axis::LeftStickY, raw: data[s + 1], invert: true },
            RawEvent::StickSample { axis: Axis::RightStickX, raw: data[s + 2], invert: false },
            RawEvent::StickSample { axis: Axis::RightStickY, raw: data[s + 3], invert: true },
            RawEvent::TriggerSample { axis: Axis::L2, raw: data[s + 7] },
            RawEvent::TriggerSample { axis: Axis::R2, raw: data[s + 8] },
        ];
        assert(sticks@ =~= spec_ds4_sticks(data@, s as int));
        push_events(events, sticks);
    }

    /// Process the D-pad based on the DualShock 4 hat encoding.
    pub fn process_dpad(&mut self, dpad: u8, events: &mut Vec<RawEvent>)
        ensures
            (final(self).button_states@, final(events)@) == spec_apply_updates(
                (old(self).button_states@, old(events)@),
                spec_dpad_updates(dpad),
            ),
            final(self).touchpad == old(self).touchpad,
            final(self).last_report == old(self).last_report,
            final(self).is_dualshock == old(self).is_dualshock,
            final(self).is_bluetooth == old(self).is_bluetooth,
    {
        let updates = dpad_updates(dpad);
        self.button_states.apply_updates(&updates, events);
    }

    /// Generic HID gamepad parsing, best effort.
    #[verifier::spinoff_prover]
    #[verifier::rlimit(40)]
    pub fn parse_generic_report(&mut self, data: &[u8], events: &mut Vec<RawEvent>)
        ensures
            (final(self).button_states@, final(events)@) == spec_generic_report(
                (old(self).button_states@, old(events)@),
                data@,
            ),
            final(self).touchpad == old(self).touchpad,
            final(self).last_report == old(self).last_report,
            final(self).is_dualshock == old(self).is_dualshock,
            final(self).is_bluetooth == old(self).is_bluetooth,
    {
        if data.len() < 6 {
            return;
        }
        let sticks = vec![
            RawEvent::StickSample { axis: Axis::LeftStickX, raw: data[1], invert: false },
            RawEvent::StickSample { axis: Axis::LeftStickY, raw: data[2], invert: true },
            RawEvent::StickSample { axis: Axis::RightStickX, raw: data[3], invert: false },
            RawEvent::StickSample { axis: Axis::RightStickY, raw: data[4], invert: true },
        ];
        assert(sticks@ =~= spec_generic_sticks(data@));
        push_events(events, sticks);
        let b0 = data[5];
        let mut updates = vec![
            (Button::Cross, bit(b0, 0x01)),
            (Button::Circle, bit(b0, 0x02)),
            (Button::Square, bit(b0, 0x04)),
            (Button::Triangle, bit(b0, 0x08)),
            (Button::L1, bit(b0, 0x10)),
            (Button::R1, bit(b0, 0x20)),
            (Button::L2, bit(b0, 0x40)),
            (Button::R2, bit(b0, 0x80)),
        ];
        if data.len() >= 7 {
            let b1 = data[6];
            let second = vec![
                (Button::Share, bit(b1, 0x01)),
                (Button::Options, bit(b1, 0x02)),
                (Button::L3, bit(b1, 0x04)),
                (Button::R3, bit(b1, 0x08)),
                (Button::PS, bit(b1, 0x10)),
                (Button::Touchpad, bit(b1, 0x20)),
            ];
            append_updates(&mut updates, second);
        }
        assert(updates@ =~= spec_generic_updates(data@));
        self.button_states.apply_updates(&updates, events);
    }

    /// Whether a report switches the decoder to Bluetooth mode: while a
    /// DualShock is still taken for USB and a report was seen before, a
    /// report with ID `0x11` marks Bluetooth.
    pub open spec fn spec_bluetooth_after(self, data: Seq<u8>) -> bool {
        if self.last_report@.len() > 0 && self.is_dualshock && !self.is_bluetooth {
            data[0] == 0x11
        } else {
            self.is_bluetooth
        }
    }

    /// Parse a report from the main controller: detect Bluetooth mode, then
    /// decode it as a DualShock 4 report or as a generic gamepad report.
    pub fn parse_hid_report(&mut self, data: &[u8], events: &mut Vec<RawEvent>)
        requires
            old(self).last_report@.len() > 0 && old(self).is_dualshock && !old(self).is_bluetooth
                ==> data@.len() > 0,
        ensures
            final(self).is_bluetooth == old(self).spec_bluetooth_after(data@),
            (final(self).button_states@, final(events)@) == if old(self).is_dualshock {
                spec_ds4_report(
                    (old(self).button_states@, old(events)@),
                    data@,
                    old(self).spec_bluetooth_after(data@),
                )
            } else {
                spec_generic_report((old(self).button_states@, old(events)@), data@)
            },
            final(self).touchpad == old(self).touchpad,
            final(self).last_report == old(self).last_report,
            final(self).is_dualshock == old(self).is_dualshock,
    {
        if self.last_report.len() > 0 && self.is_dualshock && !self.is_bluetooth {
            self.is_bluetooth = data[0] == 0x11;
        }
        if self.is_dualshock {
            self.parse_dualshock_report(data, events);
        } else {
            self.parse_generic_report(data, events);
        }
    }
}

/// The buttons of a DualShock 4 report, in the order in which they are decoded.
pub open spec fn spec_ds4_button_order() -> Seq<Button> {
    seq![
        Button::Square, Button::Cross, Button::Circle, Button::Triangle,
        Button::L1, Button::R1, Button::L2, Button::R2,
        Button::Share, Button::Options, Button::L3, Button::R3,
        Button::PS, Button::Touchpad,
        Button::DpadUp, Button::DpadRight, Button::DpadDown, Button::DpadLeft,
    ]
}

proof fn lemma_ds4_order_distinct()
    ensures
        forall|i: int, j: int| 0 <= i < j < 18 ==> spec_ds4_button_order()[i] != spec_ds4_button_order()[j],
{
    let o = spec_ds4_button_order();
    assert forall|i: int, j: int| 0 <= i < j < 18 implies o[i] != o[j] by {
        crate::buttons::lemma_button_index_injective(o[i], o[j]);
        assert(crate::buttons::spec_button_index(o[i]) != crate::buttons::spec_button_index(o[j])) by {
            assert(crate::buttons::spec_button_index(o[0]) == 2);
            assert(crate::buttons::spec_button_index(o[1]) == 0);
            assert(crate::buttons::spec_button_index(o[2]) == 1);
            assert(crate::buttons::spec_button_index(o[3]) == 3);
            assert(crate::buttons::spec_button_index(o[4]) == 4);
            assert(crate::buttons::spec_button_index(o[5]) == 5);
            assert(crate::buttons::spec_button_index(o[6]) == 6);
            assert(crate::buttons::spec_button_index(o[7]) == 7);
            assert(crate::buttons::spec_button_index(o[8]) == 8);
            assert(crate::buttons::spec_button_index(o[9]) == 9);
            assert(crate::buttons::spec_button_index(o[10]) == 11);
            assert(crate::buttons::spec_button_index(o[11]) == 12);
            assert(crate::buttons::spec_button_index(o[12]) == 10);
            assert(crate::buttons::spec_button_index(o[13]) == 17);
            assert(crate::buttons::spec_button_index(o[14]) == 13);
            assert(crate::buttons::spec_button_index(o[15]) == 16);
            assert(crate::buttons::spec_button_index(o[16]) == 14);
            assert(crate::buttons::spec_button_index(o[17]) == 15);
        }
    }
}

proof fn lemma_ds4_updates_distinct(data: Seq<u8>, btn: int)
    requires
        0 <= btn,
        btn + 2 < data.len(),
    ensures
        spec_distinct_buttons(spec_ds4_updates(data, btn)),
{
    let us = spec_ds4_updates(data, btn);
    let o = spec_ds4_button_order();
    assert(us.len() == 18);
    assert forall|k: int| 0 <= k < 18 implies #[trigger] us[k].0 == o[k] by {}
    lemma_ds4_order_distinct();
    assert forall|i: int, j: int| 0 <= i < j < us.len() implies us[i].0 != us[j].0 by {
        assert(us[i].0 == o[i]);
        assert(us[j].0 == o[j]);
    }
}

/// A DualShock 4 report reports each button change once: decoding the same
/// report again keeps the button table and reports only the stick and
/// trigger samples.
pub proof fn lemma_ds4_report_repeat(st: (Map<Button, bool>, Seq<RawEvent>), data: Seq<u8>, bluetooth: bool)
    ensures
        ({
            let off: int = if bluetooth { 2 } else { 0 };
            let first = spec_ds4_report(st, data, bluetooth);
            let again = spec_ds4_report((first.0, Seq::empty()), data, bluetooth);
            &&& again.0 == first.0
            &&& again.1 == if data.len() < 10 + off { Seq::<RawEvent>::empty() } else { spec_ds4_sticks(data, 1 + off) }
        }),
{
    let off: int = if bluetooth { 2 } else { 0 };
    if data.len() >= 10 + off {
        let us = spec_ds4_updates(data, 5 + off);
        lemma_ds4_updates_distinct(data, 5 + off);
        lemma_apply_twice_quiet(st, us, Seq::empty());
        assert(Seq::<RawEvent>::empty() + spec_ds4_sticks(data, 1 + off) =~= spec_ds4_sticks(data, 1 + off));
    }
}

/// Recording distinct buttons' states and then appending `tail` keeps the
/// events held, then gives one press or release per button whose state
/// changed, carrying its new state, then `tail`; every button whose state
/// changed is reported, and only listed buttons change.
proof fn lemma_report_events(st: (Map<Button, bool>, Seq<RawEvent>), us: Seq<(Button, bool)>, tail: Seq<RawEvent>)
    requires
        spec_distinct_buttons(us),
    ensures
        ({
            let a = spec_apply_updates(st, us);
            let all = a.1 + tail;
            let n = st.1.len() as int;
            let ev = all.subrange(n, all.len() - tail.len());
            &&& all.len() >= n + tail.len()
            &&& all.subrange(0, n) == st.1
            &&& all.subrange(all.len() - tail.len(), all.len() as int) == tail
            &&& forall|b: Button| !spec_listed(us, b) ==> #[trigger] a.0[b] == st.0[b]
            &&& forall|i: int| 0 <= i < ev.len() ==> {
                let e = #[trigger] ev[i];
                &&& e is ButtonPress
                &&& a.0[e->button] == e->pressed
                &&& st.0[e->button] != e->pressed
            }
            &&& forall|i: int, j: int| 0 <= i < j < ev.len() ==> (#[trigger] ev[i])->button != (#[trigger] ev[j])->button
            &&& forall|b: Button| #[trigger] a.0[b] != st.0[b] ==> ev.contains(RawEvent::ButtonPress { button: b, pressed: a.0[b] })
        }),
{
    let a = spec_apply_updates(st, us);
    let all = a.1 + tail;
    let n = st.1.len() as int;
    lemma_apply_reports_changes(st, us);
    lemma_apply_records_all(st, us);
    let new = spec_new_events(st, us);
    let ev = all.subrange(n, all.len() - tail.len());
    assert(ev =~= new);
    assert(all.subrange(0, n) =~= a.1.subrange(0, n));
    assert(all.subrange(all.len() - tail.len(), all.len() as int) =~= tail);
    assert forall|b: Button| #[trigger] a.0[b] != st.0[b] implies ev.contains(
        RawEvent::ButtonPress { button: b, pressed: a.0[b] },
    ) by {
        assert(spec_listed(us, b));
        let k = choose|k: int| 0 <= k < us.len() && us[k].0 == b;
        assert(a.0.dom().contains(us[k].0));
        assert(new.contains(RawEvent::ButtonPress { button: us[k].0, pressed: us[k].1 }));
    }
}

/// What a DualShock 4 report holds, read from its bytes: the first button
/// byte (byte 5, or 7 in Bluetooth mode) carries Square, Cross, Circle and
/// Triangle in bits 0x10, 0x20, 0x40 and 0x80 and the hat in its low
/// nibble; the second carries L1, R1, L2, R2, Share, Options, L3 and R3 in
/// bits 0x01 to 0x80; the third carries PS (0x01) and the touchpad click
/// (0x02). The events held stay first; then comes one press or release for
/// each button whose state changed, with its new state, and nothing else;
/// then the stick and trigger samples.
pub proof fn lemma_ds4_report_reads_bytes(st: (Map<Button, bool>, Seq<RawEvent>), data: Seq<u8>, bluetooth: bool)
    requires
        data.len() >= if bluetooth { 12int } else { 10int },
    ensures
        ({
            let off: int = if bluetooth { 2 } else { 0 };
            let r = spec_ds4_report(st, data, bluetooth);
            let b0 = data[5 + off];
            let b1 = data[6 + off];
            let b2 = data[7 + off];
            let h = b0 & 0x0F;
            let n = st.1.len() as int;
            let ev = r.1.subrange(n, r.1.len() - 6);
            &&& r.0[Button::Square] == (b0 & 0x10 != 0)
            &&& r.0[Button::Cross] == (b0 & 0x20 != 0)
            &&& r.0[Button::Circle] == (b0 & 0x40 != 0)
            &&& r.0[Button::Triangle] == (b0 & 0x80 != 0)
            &&& r.0[Button::L1] == (b1 & 0x01 != 0)
            &&& r.0[Button::R1] == (b1 & 0x02 != 0)
            &&& r.0[Button::L2] == (b1 & 0x04 != 0)
            &&& r.0[Button::R2] == (b1 & 0x08 != 0)
            &&& r.0[Button::Share] == (b1 & 0x10 != 0)
            &&& r.0[Button::Options] == (b1 & 0x20 != 0)
            &&& r.0[Button::L3] == (b1 & 0x40 != 0)
            &&& r.0[Button::R3] == (b1 & 0x80 != 0)
            &&& r.0[Button::PS] == (b2 & 0x01 != 0)
            &&& r.0[Button::Touchpad] == (b2 & 0x02 != 0)
            &&& r.0[Button::DpadUp] == (h == 0 || h == 1 || h == 7)
            &&& r.0[Button::DpadRight] == (h == 1 || h == 2 || h == 3)
            &&& r.0[Button::DpadDown] == (h == 3 || h == 4 || h == 5)
            &&& r.0[Button::DpadLeft] == (h == 5 || h == 6 || h == 7)
            &&& r.0[Button::Unknown] == st.0[Button::Unknown]
            &&& r.1.len() >= n + 6
            &&& r.1.subrange(0, n) == st.1
            &&& r.1.subrange(r.1.len() - 6, r.1.len() as int) == seq![
                RawEvent::StickSample { axis: Axis::LeftStickX, raw: data[1 + off], invert: false },
                RawEvent::StickSample { axis: Axis::LeftStickY, raw: data[2 + off], invert: true },
                RawEvent::StickSample { axis: Axis::RightStickX, raw: data[3 + off], invert: false },
                RawEvent::StickSample { axis: Axis::RightStickY, raw: data[4 + off], invert: true },
                RawEvent::TriggerSample { axis: Axis::L2, raw: data[8 + off] },
                RawEvent::TriggerSample { axis: Axis::R2, raw: data[9 + off] },
            ]
            &&& forall|i: int| 0 <= i < ev.len() ==> {
                let e = #[trigger] ev[i];
                &&& e is ButtonPress
                &&& r.0[e->button] == e->pressed
                &&& st.0[e->button] != e->pressed
            }
            &&& forall|i: int, j: int| 0 <= i < j < ev.len() ==> (#[trigger] ev[i])->button != (#[trigger] ev[j])->button
            &&& forall|b: Button| #[trigger] r.0[b] != st.0[b] ==> ev.contains(RawEvent::ButtonPress { button: b, pressed: r.0[b] })
        }),
{
    let off: int = if bluetooth { 2 } else { 0 };
    let us = spec_ds4_updates(data, 5 + off);
    lemma_ds4_updates_distinct(data, 5 + off);
    lemma_ds4_states(st, data, 5 + off);
    lemma_report_events(st, us, spec_ds4_sticks(data, 1 + off));
}

/// The state that a DualShock 4 report leaves for the button at position
/// `k` of its list is the one the list gives.
proof fn lemma_ds4_entry(st: (Map<Button, bool>, Seq<RawEvent>), data: Seq<u8>, btn: int, k: int)
    requires
        0 <= btn,
        btn + 2 < data.len(),
        0 <= k < 18,
    ensures
        spec_apply_updates(st, spec_ds4_updates(data, btn)).0[spec_ds4_updates(data, btn)[k].0]
            == spec_ds4_updates(data, btn)[k].1,
{
    let us = spec_ds4_updates(data, btn);
    lemma_ds4_updates_distinct(data, btn);
    lemma_apply_records_all(st, us);
    assert(spec_apply_updates(st, us).0.dom().contains(us[k].0));
}

/// The button states that a DualShock 4 report's button bytes, starting at
/// `btn`, leave behind.
proof fn lemma_ds4_states(st: (Map<Button, bool>, Seq<RawEvent>), data: Seq<u8>, btn: int)
    requires
        0 <= btn,
        btn + 2 < data.len(),
    ensures
        ({
            let a = spec_apply_updates(st, spec_ds4_updates(data, btn));
            let b0 = data[btn];
            let b1 = data[btn + 1];
            let b2 = data[btn + 2];
            let h = b0 & 0x0F;
            &&& a.0[Button::Square] == (b0 & 0x10 != 0)
            &&& a.0[Button::Cross] == (b0 & 0x20 != 0)
            &&& a.0[Button::Circle] == (b0 & 0x40 != 0)
            &&& a.0[Button::Triangle] == (b0 & 0x80 != 0)
            &&& a.0[Button::L1] == (b1 & 0x01 != 0)
            &&& a.0[Button::R1] == (b1 & 0x02 != 0)
            &&& a.0[Button::L2] == (b1 & 0x04 != 0)
            &&& a.0[Button::R2] == (b1 & 0x08 != 0)
            &&& a.0[Button::Share] == (b1 & 0x10 != 0)
            &&& a.0[Button::Options] == (b1 & 0x20 != 0)
            &&& a.0[Button::L3] == (b1 & 0x40 != 0)
            &&& a.0[Button::R3] == (b1 & 0x80 != 0)
            &&& a.0[Button::PS] == (b2 & 0x01 != 0)
            &&& a.0[Button::Touchpad] == (b2 & 0x02 != 0)
            &&& a.0[Button::DpadUp] == (h == 0 || h == 1 || h == 7)
            &&& a.0[Button::DpadRight] == (h == 1 || h == 2 || h == 3)
            &&& a.0[Button::DpadDown] == (h == 3 || h == 4 || h == 5)
            &&& a.0[Button::DpadLeft] == (h == 5 || h == 6 || h == 7)
            &&& !spec_listed(spec_ds4_updates(data, btn), Button::Unknown)
        }),
{
    lemma_ds4_face_states(st, data, btn);
    lemma_ds4_other_states(st, data, btn);
    lemma_ds4_hat_states(st, data, btn);
    lemma_ds4_unknown_unlisted(st, data, btn);
}

/// The face buttons of a DualShock 4 report's first button byte.
proof fn lemma_ds4_face_states(st: (Map<Button, bool>, Seq<RawEvent>), data: Seq<u8>, btn: int)
    requires
        0 <= btn,
        btn + 2 < data.len(),
    ensures
        ({
            let a = spec_apply_updates(st, spec_ds4_updates(data, btn));
            let b0 = data[btn];
            let b1 = data[btn + 1];
            let b2 = data[btn + 2];
            let h = b0 & 0x0F;
            &&& a.0[Button::Square] == (b0 & 0x10 != 0)
            &&& a.0[Button::Cross] == (b0 & 0x20 != 0)
            &&& a.0[Button::Circle] == (b0 & 0x40 != 0)
            &&& a.0[Button::Triangle] == (b0 & 0x80 != 0)
        }),
{
    lemma_ds4_entry(st, data, btn, 0);
    lemma_ds4_entry(st, data, btn, 1);
    lemma_ds4_entry(st, data, btn, 2);
    lemma_ds4_entry(st, data, btn, 3);
}

/// The shoulder, stick, option, PS and touchpad buttons of a DualShock 4 report.
proof fn lemma_ds4_other_states(st: (Map<Button, bool>, Seq<RawEvent>), data: Seq<u8>, btn: int)
    requires
        0 <= btn,
        btn + 2 < data.len(),
    ensures
        ({
            let a = spec_apply_updates(st, spec_ds4_updates(data, btn));
            let b0 = data[btn];
            let b1 = data[btn + 1];
            let b2 = data[btn + 2];
            let h = b0 & 0x0F;
            &&& a.0[Button::L1] == (b1 & 0x01 != 0)
            &&& a.0[Button::R1] == (b1 & 0x02 != 0)
            &&& a.0[Button::L2] == (b1 & 0x04 != 0)
            &&& a.0[Button::R2] == (b1 & 0x08 != 0)
            &&& a.0[Button::Share] == (b1 & 0x10 != 0)
            &&& a.0[Button::Options] == (b1 & 0x20 != 0)
            &&& a.0[Button::L3] == (b1 & 0x40 != 0)
            &&& a.0[Button::R3] == (b1 & 0x80 != 0)
            &&& a.0[Button::PS] == (b2 & 0x01 != 0)
            &&& a.0[Button::Touchpad] == (b2 & 0x02 != 0)
        }),
{
    lemma_ds4_entry(st, data, btn, 4);
    lemma_ds4_entry(st, data, btn, 5);
    lemma_ds4_entry(st, data, btn, 6);
    lemma_ds4_entry(st, data, btn, 7);
    lemma_ds4_entry(st, data, btn, 8);
    lemma_ds4_entry(st, data, btn, 9);
    lemma_ds4_entry(st, data, btn, 10);
    lemma_ds4_entry(st, data, btn, 11);
    lemma_ds4_entry(st, data, btn, 12);
    lemma_ds4_entry(st, data, btn, 13);
}

/// The D-pad buttons of a DualShock 4 report's hat nibble.
proof fn lemma_ds4_hat_states(st: (Map<Button, bool>, Seq<RawEvent>), data: Seq<u8>, btn: int)
    requires
        0 <= btn,
        btn + 2 < data.len(),
    ensures
        ({
            let a = spec_apply_updates(st, spec_ds4_updates(data, btn));
            let b0 = data[btn];
            let b1 = data[btn + 1];
            let b2 = data[btn + 2];
            let h = b0 & 0x0F;
            &&& a.0[Button::DpadUp] == (h == 0 || h == 1 || h == 7)
            &&& a.0[Button::DpadRight] == (h == 1 || h == 2 || h == 3)
            &&& a.0[Button::DpadDown] == (h == 3 || h == 4 || h == 5)
            &&& a.0[Button::DpadLeft] == (h == 5 || h == 6 || h == 7)
        }),
{
    lemma_ds4_entry(st, data, btn, 14);
    lemma_ds4_entry(st, data, btn, 15);
    lemma_ds4_entry(st, data, btn, 16);
    lemma_ds4_entry(st, data, btn, 17);
}

/// A DualShock 4 report never names the unknown button.
proof fn lemma_ds4_unknown_unlisted(st: (Map<Button, bool>, Seq<RawEvent>), data: Seq<u8>, btn: int)
    requires
        0 <= btn,
        btn + 2 < data.len(),
    ensures
        ({
            let a = spec_apply_updates(st, spec_ds4_updates(data, btn));
            let b0 = data[btn];
            let b1 = data[btn + 1];
            let b2 = data[btn + 2];
            let h = b0 & 0x0F;
            &&& !spec_listed(spec_ds4_updates(data, btn), Button::Unknown)
        }),
{
    let us = spec_ds4_updates(data, btn);
    assert forall|k: int| 0 <= k < us.len() implies us[k].0 != Button::Unknown by {
        assert(us[k].0 == spec_ds4_button_order()[k]);
    }
}

/// A generic gamepad report reports each button change once: decoding the
/// same report again keeps the button table and reports only the stick
/// samples.
pub proof fn lemma_generic_report_repeat(st: (Map<Button, bool>, Seq<RawEvent>), data: Seq<u8>)
    ensures
        ({
            let first = spec_generic_report(st, data);
            let again = spec_generic_report((first.0, Seq::empty()), data);
            &&& again.0 == first.0
            &&& again.1 == if data.len() < 6 { Seq::<RawEvent>::empty() } else { spec_generic_sticks(data) }
        }),
{
    if data.len() >= 6 {
        let us = spec_generic_updates(data);
        assert(spec_distinct_buttons(us));
        assert(Seq::<RawEvent>::empty() + spec_generic_sticks(data) =~= spec_generic_sticks(data));
        lemma_apply_twice_quiet((st.0, st.1 + spec_generic_sticks(data)), us, spec_generic_sticks(data));
    }
}

/// The buttons of a generic gamepad report are distinct.
proof fn lemma_generic_updates_distinct(data: Seq<u8>)
    requires
        data.len() >= 6,
    ensures
        spec_distinct_buttons(spec_generic_updates(data)),
{
}

/// The state that a generic report leaves for the button at position `k` of
/// its list is the one the list gives.
proof fn lemma_generic_entry(st: (Map<Button, bool>, Seq<RawEvent>), data: Seq<u8>, k: int)
    requires
        data.len() >= 6,
        0 <= k < spec_generic_updates(data).len(),
    ensures
        spec_apply_updates(st, spec_generic_updates(data)).0[spec_generic_updates(data)[k].0]
            == spec_generic_updates(data)[k].1,
{
    let us = spec_generic_updates(data);
    lemma_generic_updates_distinct(data);
    lemma_apply_records_all(st, us);
    assert(spec_apply_updates(st, us).0.dom().contains(us[k].0));
}

/// The buttons of byte 5 of a generic report.
proof fn lemma_generic_first_states(st: (Map<Button, bool>, Seq<RawEvent>), data: Seq<u8>)
    requires
        data.len() >= 6,
    ensures
        ({
            let a = spec_apply_updates(st, spec_generic_updates(data));
            let b0 = data[5];
            &&& a.0[Button::Cross] == (b0 & 0x01 != 0)
            &&& a.0[Button::Circle] == (b0 & 0x02 != 0)
            &&& a.0[Button::Square] == (b0 & 0x04 != 0)
            &&& a.0[Button::Triangle] == (b0 & 0x08 != 0)
            &&& a.0[Button::L1] == (b0 & 0x10 != 0)
            &&& a.0[Button::R1] == (b0 & 0x20 != 0)
            &&& a.0[Button::L2] == (b0 & 0x40 != 0)
            &&& a.0[Button::R2] == (b0 & 0x80 != 0)
        }),
{
    lemma_generic_entry(st, data, 0);
    lemma_generic_entry(st, data, 1);
    lemma_generic_entry(st, data, 2);
    lemma_generic_entry(st, data, 3);
    lemma_generic_entry(st, data, 4);
    lemma_generic_entry(st, data, 5);
    lemma_generic_entry(st, data, 6);
    lemma_generic_entry(st, data, 7);
}

/// The buttons of byte 6 of a generic report, when it has one.
proof fn lemma_generic_second_states(st: (Map<Button, bool>, Seq<RawEvent>), data: Seq<u8>)
    requires
        data.len() >= 7,
    ensures
        ({
            let a = spec_apply_updates(st, spec_generic_updates(data));
            let b1 = data[6];
            &&& a.0[Button::Share] == (b1 & 0x01 != 0)
            &&& a.0[Button::Options] == (b1 & 0x02 != 0)
            &&& a.0[Button::L3] == (b1 & 0x04 != 0)
            &&& a.0[Button::R3] == (b1 & 0x08 != 0)
            &&& a.0[Button::PS] == (b1 & 0x10 != 0)
            &&& a.0[Button::Touchpad] == (b1 & 0x20 != 0)
        }),
{
    lemma_generic_entry(st, data, 8);
    lemma_generic_entry(st, data, 9);
    lemma_generic_entry(st, data, 10);
    lemma_generic_entry(st, data, 11);
    lemma_generic_entry(st, data, 12);
    lemma_generic_entry(st, data, 13);
}

/// The buttons that a generic report does not name.
proof fn lemma_generic_unlisted(data: Seq<u8>)
    requires
        data.len() >= 6,
    ensures
        !spec_listed(spec_generic_updates(data), Button::DpadUp),
        !spec_listed(spec_generic_updates(data), Button::DpadRight),
        !spec_listed(spec_generic_updates(data), Button::DpadDown),
        !spec_listed(spec_generic_updates(data), Button::DpadLeft),
        !spec_listed(spec_generic_updates(data), Button::Unknown),
        data.len() < 7 ==> {
            &&& !spec_listed(spec_generic_updates(data), Button::Share)
            &&& !spec_listed(spec_generic_updates(data), Button::Options)
            &&& !spec_listed(spec_generic_updates(data), Button::L3)
            &&& !spec_listed(spec_generic_updates(data), Button::R3)
            &&& !spec_listed(spec_generic_updates(data), Button::PS)
            &&& !spec_listed(spec_generic_updates(data), Button::Touchpad)
        },
{
    let us = spec_generic_updates(data);
    assert forall|k: int| 0 <= k < us.len() implies {
        &&& us[k].0 != Button::DpadUp
        &&& us[k].0 != Button::DpadRight
        &&& us[k].0 != Button::DpadDown
        &&& us[k].0 != Button::DpadLeft
        &&& us[k].0 != Button::Unknown
        &&& data.len() < 7 ==> k < 8
    } by {}
}

/// What a generic gamepad report holds, read from its bytes: byte 5 carries
/// Cross, Circle, Square, Triangle, L1, R1, L2 and R2 in bits 0x01 to 0x80;
/// byte 6, when the report has one, carries Share, Options, L3, R3, PS and
/// the touchpad click in bits 0x01 to 0x20, and otherwise those buttons keep
/// their state, as the D-pad does. The events held stay first; then come the
/// four stick samples of bytes 1 to 4; then one press or release for each
/// button whose state changed, with its new state, and nothing else.
pub proof fn lemma_generic_report_reads_bytes(st: (Map<Button, bool>, Seq<RawEvent>), data: Seq<u8>)
    requires
        data.len() >= 6,
    ensures
        ({
            let r = spec_generic_report(st, data);
            let b0 = data[5];
            let n = st.1.len() as int;
            let ev = r.1.subrange(n + 4, r.1.len() as int);
            &&& r.0[Button::Cross] == (b0 & 0x01 != 0)
            &&& r.0[Button::Circle] == (b0 & 0x02 != 0)
            &&& r.0[Button::Square] == (b0 & 0x04 != 0)
            &&& r.0[Button::Triangle] == (b0 & 0x08 != 0)
            &&& r.0[Button::L1] == (b0 & 0x10 != 0)
            &&& r.0[Button::R1] == (b0 & 0x20 != 0)
            &&& r.0[Button::L2] == (b0 & 0x40 != 0)
            &&& r.0[Button::R2] == (b0 & 0x80 != 0)
            &&& data.len() >= 7 ==> {
                let b1 = data[6];
                &&& r.0[Button::Share] == (b1 & 0x01 != 0)
                &&& r.0[Button::Options] == (b1 & 0x02 != 0)
                &&& r.0[Button::L3] == (b1 & 0x04 != 0)
                &&& r.0[Button::R3] == (b1 & 0x08 != 0)
                &&& r.0[Button::PS] == (b1 & 0x10 != 0)
                &&& r.0[Button::Touchpad] == (b1 & 0x20 != 0)
            }
            &&& data.len() < 7 ==> {
                &&& r.0[Button::Share] == st.0[Button::Share]
                &&& r.0[Button::Options] == st.0[Button::Options]
                &&& r.0[Button::L3] == st.0[Button::L3]
                &&& r.0[Button::R3] == st.0[Button::R3]
                &&& r.0[Button::PS] == st.0[Button::PS]
                &&& r.0[Button::Touchpad] == st.0[Button::Touchpad]
            }
            &&& r.0[Button::DpadUp] == st.0[Button::DpadUp]
            &&& r.0[Button::DpadRight] == st.0[Button::DpadRight]
            &&& r.0[Button::DpadDown] == st.0[Button::DpadDown]
            &&& r.0[Button::DpadLeft] == st.0[Button::DpadLeft]
            &&& r.0[Button::Unknown] == st.0[Button::Unknown]
            &&& r.1.len() >= n + 4
            &&& r.1.subrange(0, n) == st.1
            &&& r.1.subrange(n, n + 4) == seq![
                RawEvent::StickSample { axis: Axis::LeftStickX, raw: data[1], invert: false },
                RawEvent::StickSample { axis: Axis::LeftStickY, raw: data[2], invert: true },
                RawEvent::StickSample { axis: Axis::RightStickX, raw: data[3], invert: false },
                RawEvent::StickSample { axis: Axis::RightStickY, raw: data[4], invert: true },
            ]
            &&& forall|i: int| 0 <= i < ev.len() ==> {
                let e = #[trigger] ev[i];
                &&& e is ButtonPress
                &&& r.0[e->button] == e->pressed
                &&& st.0[e->button] != e->pressed
            }
            &&& forall|i: int, j: int| 0 <= i < j < ev.len() ==> (#[trigger] ev[i])->button != (#[trigger] ev[j])->button
            &&& forall|b: Button| #[trigger] r.0[b] != st.0[b] ==> ev.contains(RawEvent::ButtonPress { button: b, pressed: r.0[b] })
        }),
{
    let us = spec_generic_updates(data);
    let sticks = spec_generic_sticks(data);
    let st2 = (st.0, st.1 + sticks);
    lemma_generic_updates_distinct(data);
    lemma_generic_first_states(st2, data);
    if data.len() >= 7 {
        lemma_generic_second_states(st2, data);
    }
    lemma_generic_unlisted(data);
    lemma_report_events(st2, us, Seq::empty());
    let a = spec_apply_updates(st2, us);
    let n = st.1.len() as int;
    assert(a.1 + Seq::<RawEvent>::empty() =~= a.1);
    assert(a.1.subrange(0, n) =~= st2.1.subrange(0, n));
    assert(st2.1.subrange(0, n) =~= st.1);
    assert(a.1.subrange(n, n + 4) =~= st2.1.subrange(n, n + 4));
    assert(st2.1.subrange(n, n + 4) =~= sticks);
}

/// The DualShock 4 profile names every button by the report byte and bit at
/// which the built-in decoder reads it over USB: for each entry, the code's
/// byte index is 5, 6 or 7, and the decoder's state for the button is
/// whether the code's bit is set in that byte.
pub proof fn lemma_ds4_profile_matches_decoder(st: (Map<Button, bool>, Seq<RawEvent>), data: Seq<u8>)
    requires
        data.len() >= 10,
    ensures
        forall|k: int| 0 <= k < spec_ds4_buttons().len() ==> {
            let (code, b) = #[trigger] spec_ds4_buttons()[k];
            &&& 5 <= spec_code_byte(code) <= 7
            &&& spec_ds4_report(st, data, false).0[b] == (data[spec_code_byte(code)] & spec_code_mask(code) != 0)
        },
{
    lemma_ds4_report_reads_bytes(st, data, false);
    assert(0x0510u32 >> 8 == 5 && (0x0510u32 & 0xFF) as u8 == 0x10u8 &&
        0x0520u32 >> 8 == 5 && (0x0520u32 & 0xFF) as u8 == 0x20u8 &&
        0x0540u32 >> 8 == 5 && (0x0540u32 & 0xFF) as u8 == 0x40u8 &&
        0x0580u32 >> 8 == 5 && (0x0580u32 & 0xFF) as u8 == 0x80u8 &&
        0x0601u32 >> 8 == 6 && (0x0601u32 & 0xFF) as u8 == 0x01u8 &&
        0x0602u32 >> 8 == 6 && (0x0602u32 & 0xFF) as u8 == 0x02u8 &&
        0x0604u32 >> 8 == 6 && (0x0604u32 & 0xFF) as u8 == 0x04u8 &&
        0x0608u32 >> 8 == 6 && (0x0608u32 & 0xFF) as u8 == 0x08u8 &&
        0x0610u32 >> 8 == 6 && (0x0610u32 & 0xFF) as u8 == 0x10u8 &&
        0x0620u32 >> 8 == 6 && (0x0620u32 & 0xFF) as u8 == 0x20u8 &&
        0x0640u32 >> 8 == 6 && (0x0640u32 & 0xFF) as u8 == 0x40u8 &&
        0x0680u32 >> 8 == 6 && (0x0680u32 & 0xFF) as u8 == 0x80u8 &&
        0x0701u32 >> 8 == 7 && (0x0701u32 & 0xFF) as u8 == 0x01u8 &&
        0x0702u32 >> 8 == 7 && (0x0702u32 & 0xFF) as u8 == 0x02u8) by (bit_vector);
    let t = spec_ds4_buttons();
    assert forall|k: int| 0 <= k < t.len() implies {
        let (code, b) = #[trigger] t[k];
        &&& 5 <= spec_code_byte(code) <= 7
        &&& spec_ds4_report(st, data, false).0[b] == (data[spec_code_byte(code)] & spec_code_mask(code) != 0)
    } by {
        if k == 0 {
        } else if k == 1 {
        } else if k == 2 {
        } else if k == 3 {
        } else if k == 4 {
        } else if k == 5 {
        } else if k == 6 {
        } else if k == 7 {
        } else if k == 8 {
        } else if k == 9 {
        } else if k == 10 {
        } else if k == 11 {
        } else if k == 12 {
        } else if k == 13 {
        }
    }
}

// ---------------------------------------------------------------------------
// Separate HID touchpad device.

/// Layout of the data of a separate touchpad device.
#[derive(Debug, Clone, Copy, PartialEq, Eq, Structural)]
pub enum TouchpadFormat {
    /// Two-byte little-endian coordinates.
    HIDTouchpad1 { x_offset: usize, y_offset: usize, touch_byte: usize, touch_mask: u8 },
    /// One-byte coordinates scaled to the touchpad surface.
    HIDTouchpad2 { x_offset: usize, y_offset: usize, touch_byte: usize, touch_mask: u8 },
    Unknown,
}

/// Decoding state of a separate touchpad device.
#[derive(Debug, Clone, Copy, PartialEq, Eq, Structural)]
pub struct HidTouchpad {
    pub touch: HidTouchTracker,
    pub touchpad_format_detected: bool,
    pub touchpad_format: TouchpadFormat,
}

/// The format guessed from a data sample, by the positions of its non-zero
/// bytes: bytes 1 and 3 mean two-byte coordinates at 1 and 3; bytes 1 and 2
/// one-byte coordinates at 1 and 2; bytes 2 and 4 (with at least six bytes)
/// two-byte coordinates at 2 and 4 after a contact byte. Samples shorter
/// than five bytes give no guess.
pub open spec fn spec_guess_format(data: Seq<u8>) -> Option<TouchpadFormat> {
    if data.len() < 5 {
        None
    } else if data[1] != 0 && data[3] != 0 {
        Some(TouchpadFormat::HIDTouchpad1 { x_offset: 1, y_offset: 3, touch_byte: 0, touch_mask: 0x01 })
    } else if data[1] != 0 && data[2] != 0 {
        Some(TouchpadFormat::HIDTouchpad2 { x_offset: 1, y_offset: 2, touch_byte: 0, touch_mask: 0x01 })
    } else if data.len() >= 6 && data[2] != 0 && data[4] != 0 {
        Some(TouchpadFormat::HIDTouchpad1 { x_offset: 2, y_offset: 4, touch_byte: 1, touch_mask: 0x7F })
    } else {
        None
    }
}

/// Two-byte little-endian value at `o`.
pub open spec fn spec_le16(data: Seq<u8>, o: int) -> int {
    data[o] + 256 * data[o + 1]
}

/// One byte at `o` scaled from 0-255 to 0-`max`.
pub open spec fn spec_scaled(data: Seq<u8>, o: int, max: int) -> int {
    data[o] * max / 255
}

/// At offset `o` a two-byte coordinate pair lies inside the touchpad surface.
pub open spec fn spec_hit16(data: Seq<u8>, o: int) -> bool {
    &&& 0 <= o
    &&& o + 4 < data.len()
    &&& spec_inside(spec_le16(data, o), spec_le16(data, o + 2))
}

/// At offset `o` a one-byte coordinate pair lies inside the touchpad surface.
pub open spec fn spec_hit8(data: Seq<u8>, o: int) -> bool {
    &&& 0 <= o
    &&& o + 2 < data.len()
    &&& spec_inside(spec_scaled(data, o, DS4_TOUCHPAD_X_MAX as int), spec_scaled(data, o + 1, DS4_TOUCHPAD_Y_MAX as int))
}

/// The first offset from `from` on with a two-byte coordinate pair inside the surface.
pub open spec fn spec_first_hit16(data: Seq<u8>, from: int) -> Option<int>
    decreases data.len() - from,
{
    if from < 0 || from + 4 >= data.len() {
        None
    } else if spec_hit16(data, from) {
        Some(from)
    } else {
        spec_first_hit16(data, from + 1)
    }
}

/// The first offset from `from` on with a one-byte coordinate pair inside the surface.
pub open spec fn spec_first_hit8(data: Seq<u8>, from: int) -> Option<int>
    decreases data.len() - from,
{
    if from < 0 || from + 2 >= data.len() {
        None
    } else if spec_hit8(data, from) {
        Some(from)
    } else {
        spec_first_hit8(data, from + 1)
    }
}

proof fn lemma_first_hit16(data: Seq<u8>, from: int)
    requires
        0 <= from,
    ensures
        spec_first_hit16(data, from) matches Some(o) ==> from <= o && spec_hit16(data, o)
            && forall|p: int| from <= p < o ==> !spec_hit16(data, p),
        spec_first_hit16(data, from) is None ==> forall|p: int| from <= p ==> !spec_hit16(data, p),
    decreases data.len() - from,
{
    if from + 4 < data.len() {
        lemma_first_hit16(data, from + 1);
    }
}

proof fn lemma_first_hit8(data: Seq<u8>, from: int)
    requires
        0 <= from,
    ensures
        spec_first_hit8(data, from) matches Some(o) ==> from <= o && spec_hit8(data, o)
            && forall|p: int| from <= p < o ==> !spec_hit8(data, p),
        spec_first_hit8(data, from) is None ==> forall|p: int| from <= p ==> !spec_hit8(data, p),
    decreases data.len() - from,
{
    if from + 2 < data.len() {
        lemma_first_hit8(data, from + 1);
    }
}

fn le16(data: &[u8], o: usize) -> (r: i32)
    requires
        o + 1 < data@.len(),
    ensures
        r == spec_le16(data@, o as int),
        0 <= r <= 0xFFFF,
{
    let a = data[o];
    let b = data[o + 1];
    let r = (a as i32) | ((b as i32) << 8);
    assert(((a as i32) | ((b as i32) << 8)) == a + 256 * b) by (bit_vector);
    r
}

fn scaled(data: &[u8], o: usize, max: i32) -> (r: i32)
    requires
        o < data@.len(),
        0 <= max <= 0xFFFF,
    ensures
        r == spec_scaled(data@, o as int, max as int),
        0 <= r <= max,
{
    let v = data[o] as i32;
    assert(0 <= v * max <= 255 * max) by (nonlinear_arith)
        requires 0 <= v <= 255, 0 <= max;
    let r = v * max / 255;
    assert(r <= max) by (nonlinear_arith)
        requires r == v * max / 255, v <= 255, 0 <= max, 0 <= v * max <= 255 * max;
    r
}

fn min_i32(a: i32, b: i32) -> (r: i32)
    ensures
        r == if a < b { a } else { b },
{
    if a < b { a } else { b }
}

/// The smaller of two sizes.
pub fn min(a: usize, b: usize) -> (r: usize)
    ensures
        r == if a < b { a } else { b },
{
    if a < b { a } else { b }
}

impl HidTouchpad {
    /// Forgets the detected format, so that the next samples are examined
    /// again (the debugging mode starts this way); the touch is kept.
    pub fn restart_format_detection(&mut self)
        ensures
            *final(self) == (HidTouchpad {
                touchpad_format: TouchpadFormat::Unknown,
                touchpad_format_detected: false,
                ..*old(self)
            }),
    {
        self.touchpad_format = TouchpadFormat::Unknown;
        self.touchpad_format_detected = false;
    }
}

impl HidTouchpad {
    /// No touch and no format seen yet.
    pub open spec fn spec_new() -> HidTouchpad {
        HidTouchpad {
            touch: HidTouchTracker { tracking: false, last_x: 0, last_y: 0 },
            touchpad_format_detected: false,
            touchpad_format: TouchpadFormat::Unknown,
        }
    }

    /// No touch and no format seen yet.
    pub fn new() -> (t: Self)
        ensures
            t == Self::spec_new(),
    {
        HidTouchpad {
            touch: HidTouchTracker::new(),
            touchpad_format_detected: false,
            touchpad_format: TouchpadFormat::Unknown,
        }
    }

    /// The decoder after guessing the format from a sample: a guess is
    /// recorded as detected, no guess leaves the decoder unchanged.
    pub open spec fn spec_detect(self, data: Seq<u8>) -> HidTouchpad {
        match spec_guess_format(data) {
            Some(f) => HidTouchpad { touchpad_format: f, touchpad_format_detected: true, ..self },
            None => self,
        }
    }

    /// Detect the touchpad data format from a sample.
    pub fn detect_touchpad_format(&mut self, data: &[u8])
        ensures
            *final(self) == old(self).spec_detect(data@),
    {
        if data.len() < 5 {
            return;
        }
        // Each format needs two of the first bytes to be non-zero.
        if data[1] != 0 && data[3] != 0 {
            self.touchpad_format = TouchpadFormat::HIDTouchpad1 {
                x_offset: 1,
                y_offset: 3,
                touch_byte: 0,
                touch_mask: 0x01,
            };
            self.touchpad_format_detected = true;
            return;
        }
        if data[1] != 0 && data[2] != 0 {
            self.touchpad_format = TouchpadFormat::HIDTouchpad2 {
                x_offset: 1,
                y_offset: 2,
                touch_byte: 0,
                touch_mask: 0x01,
            };
            self.touchpad_format_detected = true;
            return;
        }
        if data.len() >= 6 && data[2] != 0 && data[4] != 0 {
            self.touchpad_format = TouchpadFormat::HIDTouchpad1 {
                x_offset: 2,
                y_offset: 4,
                touch_byte: 1,
                touch_mask: 0x7F,
            };
            self.touchpad_format_detected = true;
        }
    }

    /// Reading the data with the recorded format: a position on the surface
    /// is reported, anything else ends a tracked touch.
    pub open spec fn spec_recorded_format(self, data: Seq<u8>) -> (HidTouchpad, Seq<RawEvent>) {
        match self.touchpad_format {
            TouchpadFormat::HIDTouchpad1 { x_offset, y_offset, .. } => {
                if x_offset + 1 < data.len() && y_offset + 1 < data.len() {
                    let x = if spec_le16(data, x_offset as int) < DS4_TOUCHPAD_X_MAX {
                        spec_le16(data, x_offset as int)
                    } else {
                        DS4_TOUCHPAD_X_MAX as int
                    };
                    let y = if spec_le16(data, y_offset as int) < DS4_TOUCHPAD_Y_MAX {
                        spec_le16(data, y_offset as int)
                    } else {
                        DS4_TOUCHPAD_Y_MAX as int
                    };
                    if spec_inside(x, y) {
                        let r = self.touch.spec_update(x as i32, y as i32);
                        (HidTouchpad { touch: r.0, ..self }, r.1)
                    } else {
                        let r = self.touch.spec_end();
                        (HidTouchpad { touch: r.0, ..self }, r.1)
                    }
                } else {
                    (self, Seq::empty())
                }
            },
            TouchpadFormat::HIDTouchpad2 { x_offset, y_offset, .. } => {
                if x_offset < data.len() && y_offset < data.len() {
                    let x = spec_scaled(data, x_offset as int, DS4_TOUCHPAD_X_MAX as int);
                    let y = spec_scaled(data, y_offset as int, DS4_TOUCHPAD_Y_MAX as int);
                    if x > 0 && y > 0 {
                        let r = self.touch.spec_update(x as i32, y as i32);
                        (HidTouchpad { touch: r.0, ..self }, r.1)
                    } else {
                        let r = self.touch.spec_end();
                        (HidTouchpad { touch: r.0, ..self }, r.1)
                    }
                } else {
                    (self, Seq::empty())
                }
            },
            TouchpadFormat::Unknown => (self, Seq::empty()),
        }
    }

    /// Decoder and reported events after one block of touchpad data: the
    /// format is guessed while none is known; then the first two-byte
    /// coordinate pair on the surface is reported (fixing the format if none
    /// was detected), else, when no touch is tracked, the first one-byte pair,
    /// else the data is read with the recorded format. Blocks shorter than
    /// three bytes are ignored.
    pub open spec fn spec_process(self, data: Seq<u8>) -> (HidTouchpad, Seq<RawEvent>) {
        if data.len() < 3 {
            (self, Seq::empty())
        } else {
            let s1 = if !self.touchpad_format_detected || self.touchpad_format == TouchpadFormat::Unknown {
                self.spec_detect(data)
            } else {
                self
            };
            match spec_first_hit16(data, 0) {
                Some(o) => {
                    let s2 = if !s1.touchpad_format_detected {
                        HidTouchpad {
                            touchpad_format: TouchpadFormat::HIDTouchpad1 {
                                x_offset: o as usize,
                                y_offset: (o + 2) as usize,
                                touch_byte: 0,
                                touch_mask: 0x01,
                            },
                            touchpad_format_detected: true,
                            ..s1
                        }
                    } else {
                        s1
                    };
                    let r = s2.touch.spec_update(spec_le16(data, o) as i32, spec_le16(data, o + 2) as i32);
                    (HidTouchpad { touch: r.0, ..s2 }, r.1)
                },
                None => {
                    if !s1.touch.tracking && spec_first_hit8(data, 0) is Some {
                        let o = spec_first_hit8(data, 0)->0;
                        let s2 = if !s1.touchpad_format_detected {
                            HidTouchpad {
                                touchpad_format: TouchpadFormat::HIDTouchpad2 {
                                    x_offset: o as usize,
                                    y_offset: (o + 1) as usize,
                                    touch_byte: 0,
                                    touch_mask: 0x01,
                                },
                                touchpad_format_detected: true,
                                ..s1
                            }
                        } else {
                            s1
                        };
                        let r = s2.touch.spec_update(
                            spec_scaled(data, o, DS4_TOUCHPAD_X_MAX as int) as i32,
                            spec_scaled(data, o + 1, DS4_TOUCHPAD_Y_MAX as int) as i32,
                        );
                        (HidTouchpad { touch: r.0, ..s2 }, r.1)
                    } else {
                        s1.spec_recorded_format(data)
                    }
                },
            }
        }
    }

    /// Read the data with the recorded format.
    fn read_recorded_format(&mut self, data: &[u8], events: &mut Vec<RawEvent>)
        requires
            old(self).touch.wf(),
        ensures
            final(self).touch.wf(),
            *final(self) == old(self).spec_recorded_format(data@).0,
            final(events)@ == old(events)@ + old(self).spec_recorded_format(data@).1,
    {
        match self.touchpad_format {
            TouchpadFormat::HIDTouchpad1 { x_offset, y_offset, .. } => {
                if data.len() >= 1 && x_offset < data.len() - 1 && y_offset < data.len() - 1 {
                    let x = min_i32(le16(data, x_offset), DS4_TOUCHPAD_X_MAX);
                    let y = min_i32(le16(data, y_offset), DS4_TOUCHPAD_Y_MAX);
                    if x > 0 && y > 0 && x < DS4_TOUCHPAD_X_MAX && y < DS4_TOUCHPAD_Y_MAX {
                        self.touch.update_touchpad_position(x, y, events);
                    } else {
                        self.touch.end_touch(events);
                    }
                } else {
                    assert(events@ =~= old(events)@ + Seq::<RawEvent>::empty());
                }
            },
            TouchpadFormat::HIDTouchpad2 { x_offset, y_offset, .. } => {
                if x_offset < data.len() && y_offset < data.len() {
                    let x = min_i32(scaled(data, x_offset, DS4_TOUCHPAD_X_MAX), DS4_TOUCHPAD_X_MAX);
                    let y = min_i32(scaled(data, y_offset, DS4_TOUCHPAD_Y_MAX), DS4_TOUCHPAD_Y_MAX);
                    if x > 0 && y > 0 {
                        self.touch.update_touchpad_position(x, y, events);
                    } else {
                        self.touch.end_touch(events);
                    }
                } else {
                    assert(events@ =~= old(events)@ + Seq::<RawEvent>::empty());
                }
            },
            TouchpadFormat::Unknown => {
                assert(events@ =~= old(events)@ + Seq::<RawEvent>::empty());
            },
        }
    }

    /// Process one block of data from a separate touchpad device.
    pub fn process_touchpad_data(&mut self, data: &[u8], events: &mut Vec<RawEvent>)
        requires
            old(self).touch.wf(),
        ensures
            final(self).touch.wf(),
            *final(self) == old(self).spec_process(data@).0,
            final(events)@ == old(events)@ + old(self).spec_process(data@).1,
    {
        if data.len() < 3 {
            assert(events@ =~= old(events)@ + Seq::<RawEvent>::empty());
            return;
        }
        if !self.touchpad_format_detected || self.touchpad_format == TouchpadFormat::Unknown {
            self.detect_touchpad_format(data);
        }
        let ghost s1 = *self;
        proof {
            lemma_first_hit16(data@, 0);
            lemma_first_hit8(data@, 0);
        }
        let end16: usize = if data.len() > 4 { data.len() - 4 } else { 0 };
        let mut offset: usize = 0;
        while offset < end16
            invariant
                *self == s1,
                events@ == old(events)@,
                self.touch.wf(),
                s1 == (if !old(self).touchpad_format_detected || old(self).touchpad_format == TouchpadFormat::Unknown {
                    old(self).spec_detect(data@)
                } else {
                    *old(self)
                }),
                data@.len() >= 3,
                end16 == (if data@.len() > 4 { data@.len() - 4 } else { 0 }),
                0 <= offset <= end16,
                forall|p: int| 0 <= p < offset ==> !spec_hit16(data@, p),
            decreases end16 - offset,
        {
            assert(offset + 4 < data.len());
            let x1 = le16(data, offset);
            let y1 = le16(data, offset + 2);
            if x1 > 0 && x1 < DS4_TOUCHPAD_X_MAX && y1 > 0 && y1 < DS4_TOUCHPAD_Y_MAX {
                assert(spec_hit16(data@, offset as int));
                assert(spec_first_hit16(data@, 0) == Some(offset as int)) by {
                    lemma_first_hit16(data@, 0);
                }
                if !self.touchpad_format_detected {
                    self.touchpad_format = TouchpadFormat::HIDTouchpad1 {
                        x_offset: offset,
                        y_offset: offset + 2,
                        touch_byte: 0,
                        touch_mask: 0x01,
                    };
                    self.touchpad_format_detected = true;
                }
                self.touch.update_touchpad_position(x1, y1, events);
                return;
            }
            offset = offset + 1;
        }
        assert(spec_first_hit16(data@, 0) is None) by {
            lemma_first_hit16(data@, 0);
            if spec_first_hit16(data@, 0) is Some {
                let o = spec_first_hit16(data@, 0)->0;
                assert(spec_hit16(data@, o));
            }
        }
        if !self.touch.tracking {
            let end8: usize = data.len() - 2;
            let mut o: usize = 0;
            while o < end8
                invariant
                    *self == s1,
                    events@ == old(events)@,
                    self.touch.wf(),
                    !self.touch.tracking,
                    spec_first_hit16(data@, 0) is None,
                    s1 == (if !old(self).touchpad_format_detected || old(self).touchpad_format == TouchpadFormat::Unknown {
                        old(self).spec_detect(data@)
                    } else {
                        *old(self)
                    }),
                    data@.len() >= 3,
                    end8 == data@.len() - 2,
                    0 <= o <= end8,
                    forall|p: int| 0 <= p < o ==> !spec_hit8(data@, p),
                decreases end8 - o,
            {
                let x2 = scaled(data, o, DS4_TOUCHPAD_X_MAX);
                let y2 = scaled(data, o + 1, DS4_TOUCHPAD_Y_MAX);
                if x2 > 0 && x2 < DS4_TOUCHPAD_X_MAX && y2 > 0 && y2 < DS4_TOUCHPAD_Y_MAX {
                    assert(spec_hit8(data@, o as int));
                    assert(spec_first_hit8(data@, 0) == Some(o as int)) by {
                        lemma_first_hit8(data@, 0);
                    }
                    if !self.touchpad_format_detected {
                        self.touchpad_format = TouchpadFormat::HIDTouchpad2 {
                            x_offset: o,
                            y_offset: o + 1,
                            touch_byte: 0,
                            touch_mask: 0x01,
                        };
                        self.touchpad_format_detected = true;
                    }
                    self.touch.update_touchpad_position(x2, y2, events);
                    return;
                }
                o = o + 1;
            }
            assert(spec_first_hit8(data@, 0) is None) by {
                lemma_first_hit8(data@, 0);
                if spec_first_hit8(data@, 0) is Some {
                    let q = spec_first_hit8(data@, 0)->0;
                    assert(spec_hit8(data@, q));
                }
            }
        }
        self.read_recorded_format(data, events);
    }
}

// ---------------------------------------------------------------------------
// Profile-driven decoding of raw input reports.

/// Button states a profile reads from a report: for each button code in
/// order whose byte is present, whether its mask selects a set bit.
pub open spec fn spec_profile_button_updates(map: Seq<(u32, Button)>, data: Seq<u8>) -> Seq<(Button, bool)>
    decreases map.len(),
{
    if map.len() == 0 {
        Seq::empty()
    } else {
        let prev = spec_profile_button_updates(map.drop_last(), data);
        let code = map.last().0;
        let byte_index = (code >> 8) as int;
        if byte_index < data.len() {
            prev.push((map.last().1, spec_bit(data[byte_index], (code & 0xFF) as u8)))
        } else {
            prev
        }
    }
}

/// Axis samples a profile reads from a report: for each configured axis in
/// order whose byte is present, that byte.
pub open spec fn spec_profile_axis_samples(axes: Seq<(Axis, AxisConfig)>, data: Seq<u8>) -> Seq<RawEvent>
    decreases axes.len(),
{
    if axes.len() == 0 {
        Seq::empty()
    } else {
        let prev = spec_profile_axis_samples(axes.drop_last(), data);
        let (axis, config) = axes.last();
        if config.byte_index < data.len() {
            prev.push(RawEvent::AxisSample { axis, config, raw: data[config.byte_index as int] })
        } else {
            prev
        }
    }
}

/// The buttons listed for a hat value (the first entry for it), if any.
pub open spec fn spec_hat_lookup(masks: Seq<(u8, Seq<Button>)>, v: u8) -> Option<Seq<Button>>
    decreases masks.len(),
{
    if masks.len() == 0 {
        None
    } else if masks[0].0 == v {
        Some(masks[0].1)
    } else {
        spec_hat_lookup(masks.drop_first(), v)
    }
}

/// Release of a D-pad direction that a hat value does not hold.
pub open spec fn spec_release_unless(held: Seq<Button>, d: Button) -> Seq<(Button, bool)> {
    if held.contains(d) { Seq::empty() } else { seq![(d, false)] }
}

/// Button states for a hat value that holds `held`: those pressed, then the
/// other D-pad directions released (in the order up, right, down, left).
pub open spec fn spec_hat_updates(held: Seq<Button>) -> Seq<(Button, bool)> {
    held.map_values(|b: Button| (b, true)) + spec_release_unless(held, Button::DpadUp)
        + spec_release_unless(held, Button::DpadRight) + spec_release_unless(held, Button::DpadDown)
        + spec_release_unless(held, Button::DpadLeft)
}

/// Buttons and events after a report decoded with a profile: the buttons,
/// then the axis samples, then the D-pad.
pub open spec fn spec_parse_with_profile(
    profile: crate::profiles::ProfileView,
    st: (Map<Button, bool>, Seq<RawEvent>),
    data: Seq<u8>,
) -> (Map<Button, bool>, Seq<RawEvent>) {
    let st1 = spec_apply_updates(st, spec_profile_button_updates(profile.button_map, data));
    let st2 = (st1.0, st1.1 + spec_profile_axis_samples(profile.axis_config, data));
    match profile.dpad_type {
        DpadView::Hat { byte_index, mask_values } => {
            if byte_index < data.len() {
                match spec_hat_lookup(mask_values, data[byte_index as int]) {
                    Some(held) => spec_apply_updates(st2, spec_hat_updates(held)),
                    None => st2,
                }
            } else {
                st2
            }
        },
        DpadView::Buttons => st2,
        DpadView::Axes { x_axis, y_axis } => (st2.0, st2.1.push(RawEvent::DpadFromAxes { x_axis, y_axis })),
    }
}

/// Touchpad coordinates inside a DualShock 4 report whose touch data starts
/// at `o`: a 12-bit X from the low nibble of byte `o + 1` and byte `o + 2`,
/// a 12-bit Y from the high nibble of byte `o + 2` and byte `o + 3`.
pub open spec fn spec_report_touch_x(data: Seq<u8>, o: int) -> int {
    (data[o + 1] % 16) * 256 + data[o + 2]
}

/// See [`spec_report_touch_x`].
pub open spec fn spec_report_touch_y(data: Seq<u8>, o: int) -> int {
    (data[o + 2] / 16) * 256 + data[o + 3]
}

/// Decoding state of a controller read as raw input reports.
pub struct RawIoState {
    pub button_states: ButtonStates,
    pub touch: RawTouchTracker,
    pub is_dualshock: bool,
    pub is_bluetooth: bool,
}

fn contains_button(v: &Vec<Button>, b: Button) -> (r: bool)
    ensures
        r == v@.contains(b),
{
    let mut i: usize = 0;
    while i < v.len()
        invariant
            0 <= i <= v.len(),
            forall|j: int| 0 <= j < i ==> v@[j] != b,
        decreases v.len() - i,
    {
        if v[i] == b {
            assert(v@[i as int] == b);
            return true;
        }
        i = i + 1;
    }
    false
}

fn hat_lookup(masks: &Vec<(u8, Vec<Button>)>, v: u8) -> (r: Option<usize>)
    ensures
        match r {
            Some(i) => i < masks@.len() && spec_hat_lookup(
                masks@.map_values(|e: (u8, Vec<Button>)| (e.0, e.1@)),
                v,
            ) == Some(masks@[i as int].1@),
            None => spec_hat_lookup(masks@.map_values(|e: (u8, Vec<Button>)| (e.0, e.1@)), v) is None,
        },
{
    let ghost m = masks@.map_values(|e: (u8, Vec<Button>)| (e.0, e.1@));
    assert(m.subrange(0, m.len() as int) =~= m);
    let mut i: usize = 0;
    while i < masks.len()
        invariant
            m == masks@.map_values(|e: (u8, Vec<Button>)| (e.0, e.1@)),
            0 <= i <= masks.len(),
            spec_hat_lookup(m, v) == spec_hat_lookup(m.subrange(i as int, m.len() as int), v),
        decreases masks.len() - i,
    {
        let ghost rest = m.subrange(i as int, m.len() as int);
        assert(rest[0] == m[i as int]);
        if masks[i].0 == v {
            return Some(i);
        }
        assert(rest.drop_first() =~= m.subrange(i + 1, m.len() as int));
        i = i + 1;
    }
    None
}

impl RawIoState {
    /// Nothing seen yet from a controller that is or is not a DualShock, and
    /// is or is not known to be on Bluetooth.
    pub fn new(is_dualshock: bool, is_bluetooth: bool) -> (s: Self)
        ensures
            forall|b: Button| !#[trigger] s.button_states@[b],
            s.touch.wf() && !s.touch.touchpad_active,
            s.is_dualshock == is_dualshock,
            s.is_bluetooth == is_bluetooth,
    {
        RawIoState {
            button_states: ButtonStates::new(),
            touch: RawTouchTracker::new(),
            is_dualshock,
            is_bluetooth,
        }
    }

    /// Decode a report with a profile: buttons from their codes, axis bytes
    /// from their configurations, and the D-pad from its description.
    pub fn parse_with_profile(&mut self, data: &[u8], profile: &ControllerProfile, events: &mut Vec<RawEvent>)
        ensures
            (final(self).button_states@, final(events)@) == spec_parse_with_profile(
                profile@,
                (old(self).button_states@, old(events)@),
                data@,
            ),
            final(self).touch == old(self).touch,
            final(self).is_dualshock == old(self).is_dualshock,
            final(self).is_bluetooth == old(self).is_bluetooth,
    {
        let mut updates: Vec<(Button, bool)> = Vec::new();
        let mut k: usize = 0;
        while k < profile.button_map.len()
            invariant
                0 <= k <= profile.button_map.len(),
                updates@ == spec_profile_button_updates(profile.button_map@.subrange(0, k as int), data@),
            decreases profile.button_map.len() - k,
        {
            let (code, button) = profile.button_map[k];
            let byte_index = (code >> 8) as usize;
            assert(profile.button_map@.subrange(0, k + 1).drop_last() =~= profile.button_map@.subrange(0, k as int));
            if byte_index < data.len() {
                let bit_mask = (code & 0xFF) as u8;
                updates.push((button, bit(data[byte_index], bit_mask)));
            }
            k = k + 1;
        }
        assert(profile.button_map@.subrange(0, k as int) =~= profile.button_map@);
        self.button_states.apply_updates(&updates, events);

        let mut i: usize = 0;
        let ghost before = events@;
        while i < profile.axis_config.len()
            invariant
                0 <= i <= profile.axis_config.len(),
                events@ == before + spec_profile_axis_samples(profile.axis_config@.subrange(0, i as int), data@),
            decreases profile.axis_config.len() - i,
        {
            let (axis, config) = profile.axis_config[i];
            assert(profile.axis_config@.subrange(0, i + 1).drop_last() =~= profile.axis_config@.subrange(0, i as int));
            if config.byte_index < data.len() {
                events.push(RawEvent::AxisSample { axis, config, raw: data[config.byte_index] });
            }
            i = i + 1;
            assert(events@ =~= before + spec_profile_axis_samples(profile.axis_config@.subrange(0, i as int), data@));
        }
        assert(profile.axis_config@.subrange(0, i as int) =~= profile.axis_config@);

        match &profile.dpad_type {
            DpadType::Hat { byte_index, mask_values } => {
                if *byte_index < data.len() {
                    let hat_value = data[*byte_index];
                    match hat_lookup(mask_values, hat_value) {
                        Some(j) => {
                            let held = &mask_values[j].1;
                            let mut hat: Vec<(Button, bool)> = Vec::new();
                            let mut n: usize = 0;
                            while n < held.len()
                                invariant
                                    0 <= n <= held.len(),
                                    hat@ == held@.subrange(0, n as int).map_values(|b: Button| (b, true)),
                                decreases held.len() - n,
                            {
                                hat.push((held[n], true));
                                n = n + 1;
                                assert(hat@ =~= held@.subrange(0, n as int).map_values(|b: Button| (b, true)));
                            }
                            assert(held@.subrange(0, n as int) =~= held@);
                            let dirs = [Button::DpadUp, Button::DpadRight, Button::DpadDown, Button::DpadLeft];
                            let ghost pressed_part = hat@;
                            if !contains_button(held, Button::DpadUp) {
                                hat.push((Button::DpadUp, false));
                            }
                            let ghost p1 = hat@;
                            if !contains_button(held, Button::DpadRight) {
                                hat.push((Button::DpadRight, false));
                            }
                            let ghost p2 = hat@;
                            if !contains_button(held, Button::DpadDown) {
                                hat.push((Button::DpadDown, false));
                            }
                            let ghost p3 = hat@;
                            if !contains_button(held, Button::DpadLeft) {
                                hat.push((Button::DpadLeft, false));
                            }
                            assert(p1 =~= pressed_part + spec_release_unless(held@, Button::DpadUp));
                            assert(p2 =~= p1 + spec_release_unless(held@, Button::DpadRight));
                            assert(p3 =~= p2 + spec_release_unless(held@, Button::DpadDown));
                            assert(hat@ =~= p3 + spec_release_unless(held@, Button::DpadLeft));
                            assert(hat@ =~= spec_hat_updates(held@));
                            self.button_states.apply_updates(&hat, events);
                        },
                        None => {},
                    }
                }
            },
            DpadType::Buttons => {},
            DpadType::Axes { x_axis, y_axis } => {
                events.push(RawEvent::DpadFromAxes { x_axis: *x_axis, y_axis: *y_axis });
            },
        }
    }

    /// Touchpad state and events after the touch data of a DualShock 4
    /// report (at byte 33, or 35 in Bluetooth mode): a touch (bit 7 of the
    /// state byte clear) on the surface is reported, a lifted finger ends an
    /// active touch; reports without touch data change nothing.
    pub open spec fn spec_extract_touchpad(self, data: Seq<u8>) -> (RawTouchTracker, Seq<RawEvent>) {
        let o: int = if self.is_bluetooth { 35 } else { 33 };
        if !self.is_dualshock || data.len() < 10 || data.len() <= o + 4 {
            (self.touch, Seq::empty())
        } else if data[o] & 0x80 == 0 {
            let x = spec_report_touch_x(data, o);
            let y = spec_report_touch_y(data, o);
            if spec_inside(x, y) {
                self.touch.spec_update(x as i32, y as i32)
            } else {
                (self.touch, Seq::empty())
            }
        } else {
            self.touch.spec_end()
        }
    }

    /// Extract touchpad data from DualShock 4 reports.
    pub fn extract_touchpad_data(&mut self, data: &[u8], events: &mut Vec<RawEvent>)
        requires
            old(self).touch.wf(),
        ensures
            final(self).touch.wf(),
            final(self).touch == old(self).spec_extract_touchpad(data@).0,
            final(events)@ == old(events)@ + old(self).spec_extract_touchpad(data@).1,
            final(self).button_states == old(self).button_states,
            final(self).is_dualshock == old(self).is_dualshock,
            final(self).is_bluetooth == old(self).is_bluetooth,
    {
        if !self.is_dualshock || data.len() < 10 {
            assert(events@ =~= old(events)@ + Seq::<RawEvent>::empty());
            return;
        }
        let touchpad_offset: usize = if self.is_bluetooth { 35 } else { 33 };
        if data.len() <= touchpad_offset + 4 {
            assert(events@ =~= old(events)@ + Seq::<RawEvent>::empty());
            return;
        }
        let touch_state = data[touchpad_offset];
        let is_touching = (touch_state & 0x80) == 0;
        if is_touching {
            let b1 = data[touchpad_offset + 1];
            let b2 = data[touchpad_offset + 2];
            let b3 = data[touchpad_offset + 3];
            let x = (((b1 & 0x0F) as i32) << 8) | (b2 as i32);
            let y = (((b2 & 0xF0) as i32) << 4) | (b3 as i32);
            assert(((((b1 & 0x0F) as i32) << 8) | (b2 as i32)) == (b1 % 16) * 256 + b2) by (bit_vector);
            assert(((((b2 & 0xF0) as i32) << 4) | (b3 as i32)) == (b2 / 16) * 256 + b3) by (bit_vector);
            if x > 0 && x < DS4_TOUCHPAD_X_MAX && y > 0 && y < DS4_TOUCHPAD_Y_MAX {
                self.touch.update_touchpad_position(x, y, events);
            } else {
                assert(events@ =~= old(events)@ + Seq::<RawEvent>::empty());
            }
        } else {
            self.touch.end_touch(events);
        }
    }

    /// Decode one raw input report: detect Bluetooth mode from the report ID
    /// of a DualShock, decode it with the profile, then read its touchpad data.
    pub fn parse_report(&mut self, data: &[u8], profile: &ControllerProfile, events: &mut Vec<RawEvent>)
        requires
            old(self).touch.wf(),
            old(self).is_dualshock && !old(self).is_bluetooth ==> data@.len() > 0,
        ensures
            final(self).touch.wf(),
            final(self).is_bluetooth == (old(self).is_bluetooth || (old(self).is_dualshock && data@[0] == 0x11)),
            final(self).is_dualshock == old(self).is_dualshock,
            ({
                let mid = RawIoState { is_bluetooth: final(self).is_bluetooth, ..*old(self) };
                let st = spec_parse_with_profile(profile@, (old(self).button_states@, old(events)@), data@);
                &&& final(self).button_states@ == st.0
                &&& final(self).touch == mid.spec_extract_touchpad(data@).0
                &&& final(events)@ == st.1 + mid.spec_extract_touchpad(data@).1
            }),
    {
        if self.is_dualshock && !self.is_bluetooth && data[0] == 0x11 {
            self.is_bluetooth = true;
        }
        self.parse_with_profile(data, profile, events);
        if self.is_dualshock {
            self.extract_touchpad_data(data, events);
        } else {
            assert(events@ =~= events@ + Seq::<RawEvent>::empty());
        }
    }
}

} // verus!
