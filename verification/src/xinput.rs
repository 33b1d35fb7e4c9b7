use vstd::prelude::*;
use crate::buttons::{
    ButtonStates, lemma_apply_records_all, lemma_apply_reports_changes, spec_apply_updates, spec_distinct_buttons,
    spec_listed, spec_new_events,
};
use crate::profiles::spec_xbox_buttons;
use crate::types::{Axis, Button, RawEvent};

verus! {

pub const XINPUT_GAMEPAD_DPAD_UP: u16 = 0x0001;
pub const XINPUT_GAMEPAD_DPAD_DOWN: u16 = 0x0002;
pub const XINPUT_GAMEPAD_DPAD_LEFT: u16 = 0x0004;
pub const XINPUT_GAMEPAD_DPAD_RIGHT: u16 = 0x0008;
pub const XINPUT_GAMEPAD_START: u16 = 0x0010;
pub const XINPUT_GAMEPAD_BACK: u16 = 0x0020;
pub const XINPUT_GAMEPAD_LEFT_THUMB: u16 = 0x0040;
pub const XINPUT_GAMEPAD_RIGHT_THUMB: u16 = 0x0080;
pub const XINPUT_GAMEPAD_LEFT_SHOULDER: u16 = 0x0100;
pub const XINPUT_GAMEPAD_RIGHT_SHOULDER: u16 = 0x0200;
pub const XINPUT_GAMEPAD_GUIDE: u16 = 0x0400;
pub const XINPUT_GAMEPAD_A: u16 = 0x1000;
pub const XINPUT_GAMEPAD_B: u16 = 0x2000;
pub const XINPUT_GAMEPAD_X: u16 = 0x4000;
pub const XINPUT_GAMEPAD_Y: u16 = 0x8000;

/// Stick deadzones and trigger threshold of the XInput specification.
pub const XINPUT_GAMEPAD_LEFT_THUMB_DEADZONE: i16 = 7849;
pub const XINPUT_GAMEPAD_RIGHT_THUMB_DEADZONE: i16 = 8689;
pub const XINPUT_GAMEPAD_TRIGGER_THRESHOLD: u8 = 30;

/// The state of an XInput gamepad.
#[derive(Debug, Clone, Copy, PartialEq, Eq, Structural)]
pub struct XInputGamepad {
    pub w_buttons: u16,
    pub b_left_trigger: u8,
    pub b_right_trigger: u8,
    pub s_thumb_lx: i16,
    pub s_thumb_ly: i16,
    pub s_thumb_rx: i16,
    pub s_thumb_ry: i16,
}

/// Absolute value of a stick position.
pub open spec fn spec_abs(v: int) -> int {
    if v < 0 { -v } else { v }
}

/// Normalized stick position as the ratio `(num, den)`: zero inside the
/// deadzone, otherwise the distance beyond the deadzone over the rest of
/// the range, with the sign of the position. A deadzone of the whole range
/// leaves nothing to scale by: the fully deflected stick then counts as one
/// full unit in its direction.
pub open spec fn spec_normalize_stick(value: i16, deadzone: i16) -> (int, int) {
    if spec_abs(value as int) < deadzone {
        (0, 1)
    } else if deadzone == 32767 {
        (if value < 0 { -1int } else { 1int }, 1)
    } else if value < 0 {
        (-(spec_abs(value as int) - deadzone), 32767 - deadzone)
    } else {
        (value - deadzone, 32767 - deadzone)
    }
}

/// Normalize a stick position with deadzone handling, as the ratio `num / den`.
pub fn normalize_stick(value: i16, deadzone: i16) -> (r: (i32, i32))
    requires
        value != i16::MIN,
    ensures
        (r.0 as int, r.1 as int) == spec_normalize_stick(value, deadzone),
        r.1 > 0,
        spec_abs(r.0 as int) <= r.1,
{
    let abs_value: i32 = if value < 0 { -(value as i32) } else { value as i32 };
    if abs_value < deadzone as i32 {
        return (0, 1);
    }
    if deadzone == 32767 {
        return if value < 0 { (-1, 1) } else { (1, 1) };
    }
    let den = 32767 - deadzone as i32;
    if value < 0 {
        (-(abs_value - deadzone as i32), den)
    } else {
        (abs_value - deadzone as i32, den)
    }
}

/// Normalized trigger position as the ratio `(num, den)`: zero below the
/// threshold, otherwise the distance beyond it over the rest of the range.
pub open spec fn spec_normalize_trigger(value: u8) -> (int, int) {
    if value < XINPUT_GAMEPAD_TRIGGER_THRESHOLD {
        (0, 1)
    } else {
        (value - XINPUT_GAMEPAD_TRIGGER_THRESHOLD, 255 - XINPUT_GAMEPAD_TRIGGER_THRESHOLD)
    }
}

/// Normalize a trigger position, as the ratio `num / den`.
pub fn normalize_trigger(value: u8) -> (r: (i32, i32))
    ensures
        (r.0 as int, r.1 as int) == spec_normalize_trigger(value),
        0 <= r.0 <= r.1,
        r.1 > 0,
{
    if value < XINPUT_GAMEPAD_TRIGGER_THRESHOLD {
        return (0, 1);
    }
    ((value - XINPUT_GAMEPAD_TRIGGER_THRESHOLD) as i32, (255 - XINPUT_GAMEPAD_TRIGGER_THRESHOLD) as i32)
}

/// Whether `mask` selects a set bit of the button word.
pub open spec fn spec_held(buttons: u16, mask: u16) -> bool {
    buttons & mask != 0
}

/// Button states of an XInput button word, in the order in which they are
/// reported.
pub open spec fn spec_xinput_updates(b: u16) -> Seq<(Button, bool)> {
    seq![
        (Button::DpadUp, spec_held(b, XINPUT_GAMEPAD_DPAD_UP)),
        (Button::DpadDown, spec_held(b, XINPUT_GAMEPAD_DPAD_DOWN)),
        (Button::DpadLeft, spec_held(b, XINPUT_GAMEPAD_DPAD_LEFT)),
        (Button::DpadRight, spec_held(b, XINPUT_GAMEPAD_DPAD_RIGHT)),
        (Button::Cross, spec_held(b, XINPUT_GAMEPAD_A)),
        (Button::Circle, spec_held(b, XINPUT_GAMEPAD_B)),
        (Button::Square, spec_held(b, XINPUT_GAMEPAD_X)),
        (Button::Triangle, spec_held(b, XINPUT_GAMEPAD_Y)),
        (Button::L1, spec_held(b, XINPUT_GAMEPAD_LEFT_SHOULDER)),
        (Button::R1, spec_held(b, XINPUT_GAMEPAD_RIGHT_SHOULDER)),
        (Button::Options, spec_held(b, XINPUT_GAMEPAD_START)),
        (Button::Share, spec_held(b, XINPUT_GAMEPAD_BACK)),
        (Button::PS, spec_held(b, XINPUT_GAMEPAD_GUIDE)),
        (Button::L3, spec_held(b, XINPUT_GAMEPAD_LEFT_THUMB)),
        (Button::R3, spec_held(b, XINPUT_GAMEPAD_RIGHT_THUMB)),
    ]
}

/// The state that a button word leaves for the button at position `k` of
/// the reported list is the one the list gives.
proof fn lemma_xinput_entry(m: Map<Button, bool>, w: u16, k: int)
    requires
        0 <= k < 15,
    ensures
        spec_apply_updates((m, Seq::empty()), spec_xinput_updates(w)).0[spec_xinput_updates(w)[k].0]
            == spec_xinput_updates(w)[k].1,
{
    let us = spec_xinput_updates(w);
    assert(spec_distinct_buttons(us));
    lemma_apply_records_all((m, Seq::empty()), us);
    assert(spec_apply_updates((m, Seq::empty()), us).0.dom().contains(us[k].0));
}

/// The buttons that an XInput button word carries, read from its bits:
/// D-pad up, down, left and right in 0x0001 to 0x0008, Options (Start) in
/// 0x0010, Share (Back) in 0x0020, L3 and R3 in 0x0040 and 0x0080, L1 and R1
/// in 0x0100 and 0x0200, PS (Guide) in 0x0400, and the A, B, X and Y face
/// buttons as Cross, Circle, Square and Triangle in 0x1000 to 0x8000. The
/// analog triggers, the touchpad and the unknown button keep their state.
/// The events are one press or release for each button whose state changed,
/// with its new state, and nothing else.
pub proof fn lemma_xinput_word_buttons(m: Map<Button, bool>, w: u16)
    ensures
        ({
            let a = spec_apply_updates((m, Seq::empty()), spec_xinput_updates(w));
            &&& a.0[Button::DpadUp] == (w & 0x0001 != 0)
            &&& a.0[Button::DpadDown] == (w & 0x0002 != 0)
            &&& a.0[Button::DpadLeft] == (w & 0x0004 != 0)
            &&& a.0[Button::DpadRight] == (w & 0x0008 != 0)
            &&& a.0[Button::Options] == (w & 0x0010 != 0)
            &&& a.0[Button::Share] == (w & 0x0020 != 0)
            &&& a.0[Button::L3] == (w & 0x0040 != 0)
            &&& a.0[Button::R3] == (w & 0x0080 != 0)
            &&& a.0[Button::L1] == (w & 0x0100 != 0)
            &&& a.0[Button::R1] == (w & 0x0200 != 0)
            &&& a.0[Button::PS] == (w & 0x0400 != 0)
            &&& a.0[Button::Cross] == (w & 0x1000 != 0)
            &&& a.0[Button::Circle] == (w & 0x2000 != 0)
            &&& a.0[Button::Square] == (w & 0x4000 != 0)
            &&& a.0[Button::Triangle] == (w & 0x8000 != 0)
            &&& a.0[Button::L2] == m[Button::L2]
            &&& a.0[Button::R2] == m[Button::R2]
            &&& a.0[Button::Touchpad] == m[Button::Touchpad]
            &&& a.0[Button::Unknown] == m[Button::Unknown]
            &&& forall|i: int| 0 <= i < a.1.len() ==> {
                let e = #[trigger] a.1[i];
                &&& e is ButtonPress
                &&& a.0[e->button] == e->pressed
                &&& m[e->button] != e->pressed
            }
            &&& forall|i: int, j: int| 0 <= i < j < a.1.len() ==> (#[trigger] a.1[i])->button != (#[trigger] a.1[j])->button
            &&& forall|b: Button| #[trigger] a.0[b] != m[b] ==> a.1.contains(RawEvent::ButtonPress { button: b, pressed: a.0[b] })
        }),
{
    lemma_xinput_low_states(m, w);
    lemma_xinput_high_states(m, w);
    lemma_xinput_unlisted(w);
    lemma_xinput_events(m, w);
}

/// The buttons of the low byte of an XInput button word.
proof fn lemma_xinput_low_states(m: Map<Button, bool>, w: u16)
    ensures
        ({
            let a = spec_apply_updates((m, Seq::empty()), spec_xinput_updates(w));
            &&& a.0[Button::DpadUp] == (w & 0x0001 != 0)
            &&& a.0[Button::DpadDown] == (w & 0x0002 != 0)
            &&& a.0[Button::DpadLeft] == (w & 0x0004 != 0)
            &&& a.0[Button::DpadRight] == (w & 0x0008 != 0)
            &&& a.0[Button::Options] == (w & 0x0010 != 0)
            &&& a.0[Button::Share] == (w & 0x0020 != 0)
            &&& a.0[Button::L3] == (w & 0x0040 != 0)
            &&& a.0[Button::R3] == (w & 0x0080 != 0)
        }),
{
    lemma_xinput_entry(m, w, 0);
    lemma_xinput_entry(m, w, 1);
    lemma_xinput_entry(m, w, 2);
    lemma_xinput_entry(m, w, 3);
    lemma_xinput_entry(m, w, 10);
    lemma_xinput_entry(m, w, 11);
    lemma_xinput_entry(m, w, 13);
    lemma_xinput_entry(m, w, 14);
}

/// The buttons of the high byte of an XInput button word.
proof fn lemma_xinput_high_states(m: Map<Button, bool>, w: u16)
    ensures
        ({
            let a = spec_apply_updates((m, Seq::empty()), spec_xinput_updates(w));
            &&& a.0[Button::L1] == (w & 0x0100 != 0)
            &&& a.0[Button::R1] == (w & 0x0200 != 0)
            &&& a.0[Button::PS] == (w & 0x0400 != 0)
            &&& a.0[Button::Cross] == (w & 0x1000 != 0)
            &&& a.0[Button::Circle] == (w & 0x2000 != 0)
            &&& a.0[Button::Square] == (w & 0x4000 != 0)
            &&& a.0[Button::Triangle] == (w & 0x8000 != 0)
        }),
{
    lemma_xinput_entry(m, w, 4);
    lemma_xinput_entry(m, w, 5);
    lemma_xinput_entry(m, w, 6);
    lemma_xinput_entry(m, w, 7);
    lemma_xinput_entry(m, w, 8);
    lemma_xinput_entry(m, w, 9);
    lemma_xinput_entry(m, w, 12);
}

/// An XInput button word names neither the analog triggers, nor the
/// touchpad, nor the unknown button.
proof fn lemma_xinput_unlisted(w: u16)
    ensures
        !spec_listed(spec_xinput_updates(w), Button::L2),
        !spec_listed(spec_xinput_updates(w), Button::R2),
        !spec_listed(spec_xinput_updates(w), Button::Touchpad),
        !spec_listed(spec_xinput_updates(w), Button::Unknown),
{
    let us = spec_xinput_updates(w);
    assert forall|k: int| 0 <= k < us.len() implies {
        &&& us[k].0 != Button::L2
        &&& us[k].0 != Button::R2
        &&& us[k].0 != Button::Touchpad
        &&& us[k].0 != Button::Unknown
    } by {}
}

/// The events of an XInput button word: one press or release for each
/// button whose state changed, with its new state, and nothing else; the
/// buttons it does not name keep their state.
proof fn lemma_xinput_events(m: Map<Button, bool>, w: u16)
    ensures
        ({
            let a = spec_apply_updates((m, Seq::empty()), spec_xinput_updates(w));
            &&& forall|b: Button| !spec_listed(spec_xinput_updates(w), b) ==> #[trigger] a.0[b] == m[b]
            &&& forall|i: int| 0 <= i < a.1.len() ==> {
                let e = #[trigger] a.1[i];
                &&& e is ButtonPress
                &&& a.0[e->button] == e->pressed
                &&& m[e->button] != e->pressed
            }
            &&& forall|i: int, j: int| 0 <= i < j < a.1.len() ==> (#[trigger] a.1[i])->button != (#[trigger] a.1[j])->button
            &&& forall|b: Button| #[trigger] a.0[b] != m[b] ==> a.1.contains(RawEvent::ButtonPress { button: b, pressed: a.0[b] })
        }),
{
    let us = spec_xinput_updates(w);
    let st = (m, Seq::<RawEvent>::empty());
    let a = spec_apply_updates(st, us);
    assert(spec_distinct_buttons(us));
    lemma_apply_reports_changes(st, us);
    lemma_apply_records_all(st, us);
    assert(spec_new_events(st, us) =~= a.1);
    assert forall|b: Button| #[trigger] a.0[b] != m[b] implies a.1.contains(
        RawEvent::ButtonPress { button: b, pressed: a.0[b] },
    ) by {
        assert(spec_listed(us, b));
        let k = choose|k: int| 0 <= k < us.len() && us[k].0 == b;
        assert(a.0.dom().contains(us[k].0));
    }
}

fn held(b: u16, mask: u16) -> (r: bool)
    ensures
        r == spec_held(b, mask),
{
    b & mask != 0
}

/// The stick and trigger samples of a gamepad state; the vertical stick
/// axes are inverted.
pub open spec fn spec_xinput_samples(s: XInputGamepad) -> Seq<RawEvent> {
    let lx = spec_normalize_stick(s.s_thumb_lx, XINPUT_GAMEPAD_LEFT_THUMB_DEADZONE);
    let ly = spec_normalize_stick(s.s_thumb_ly, XINPUT_GAMEPAD_LEFT_THUMB_DEADZONE);
    let rx = spec_normalize_stick(s.s_thumb_rx, XINPUT_GAMEPAD_RIGHT_THUMB_DEADZONE);
    let ry = spec_normalize_stick(s.s_thumb_ry, XINPUT_GAMEPAD_RIGHT_THUMB_DEADZONE);
    let lt = spec_normalize_trigger(s.b_left_trigger);
    let rt = spec_normalize_trigger(s.b_right_trigger);
    seq![
        RawEvent::RatioSample { axis: Axis::LeftStickX, num: lx.0 as i32, den: lx.1 as i32 },
        RawEvent::RatioSample { axis: Axis::LeftStickY, num: (-ly.0) as i32, den: ly.1 as i32 },
        RawEvent::RatioSample { axis: Axis::RightStickX, num: rx.0 as i32, den: rx.1 as i32 },
        RawEvent::RatioSample { axis: Axis::RightStickY, num: (-ry.0) as i32, den: ry.1 as i32 },
        RawEvent::RatioSample { axis: Axis::L2, num: lt.0 as i32, den: lt.1 as i32 },
        RawEvent::RatioSample { axis: Axis::R2, num: rt.0 as i32, den: rt.1 as i32 },
    ]
}

/// Decoding state of an XInput controller: the last button word and the
/// last reported state of every button.
pub struct XInputPad {
    pub last_buttons: u16,
    pub button_states: ButtonStates,
}

impl XInputPad {
    /// A decoder that starts from a first gamepad state.
    pub fn new(first: XInputGamepad) -> (p: Self)
        ensures
            p.last_buttons == first.w_buttons,
            forall|b: Button| !#[trigger] p.button_states@[b],
    {
        XInputPad { last_buttons: first.w_buttons, button_states: ButtonStates::new() }
    }

    /// Decodes a new gamepad state: when the button word changed, each
    /// button's state is recorded and reported on change; then the stick and
    /// trigger samples follow.
    pub fn poll_events(&mut self, state: XInputGamepad) -> (events: Vec<RawEvent>)
        requires
            state.s_thumb_lx != i16::MIN && state.s_thumb_ly != i16::MIN,
            state.s_thumb_rx != i16::MIN && state.s_thumb_ry != i16::MIN,
        ensures
            final(self).last_buttons == state.w_buttons,
            ({
                let r = if old(self).last_buttons != state.w_buttons {
                    spec_apply_updates((old(self).button_states@, Seq::empty()), spec_xinput_updates(state.w_buttons))
                } else {
                    (old(self).button_states@, Seq::empty())
                };
                &&& final(self).button_states@ == r.0
                &&& events@ == r.1 + spec_xinput_samples(state)
            }),
    {
        let mut events: Vec<RawEvent> = Vec::new();
        let b = state.w_buttons;
        if self.last_buttons != b {
            let updates = vec![
                (Button::DpadUp, held(b, XINPUT_GAMEPAD_DPAD_UP)),
                (Button::DpadDown, held(b, XINPUT_GAMEPAD_DPAD_DOWN)),
                (Button::DpadLeft, held(b, XINPUT_GAMEPAD_DPAD_LEFT)),
                (Button::DpadRight, held(b, XINPUT_GAMEPAD_DPAD_RIGHT)),
                (Button::Cross, held(b, XINPUT_GAMEPAD_A)),
                (Button::Circle, held(b, XINPUT_GAMEPAD_B)),
                (Button::Square, held(b, XINPUT_GAMEPAD_X)),
                (Button::Triangle, held(b, XINPUT_GAMEPAD_Y)),
                (Button::L1, held(b, XINPUT_GAMEPAD_LEFT_SHOULDER)),
                (Button::R1, held(b, XINPUT_GAMEPAD_RIGHT_SHOULDER)),
                (Button::Options, held(b, XINPUT_GAMEPAD_START)),
                (Button::Share, held(b, XINPUT_GAMEPAD_BACK)),
                (Button::PS, held(b, XINPUT_GAMEPAD_GUIDE)),
                (Button::L3, held(b, XINPUT_GAMEPAD_LEFT_THUMB)),
                (Button::R3, held(b, XINPUT_GAMEPAD_RIGHT_THUMB)),
            ];
            assert(updates@ =~= spec_xinput_updates(b));
            self.button_states.apply_updates(&updates, &mut events);
        }
        let ghost buttons_part = events@;
        let lx = normalize_stick(state.s_thumb_lx, XINPUT_GAMEPAD_LEFT_THUMB_DEADZONE);
        let ly = normalize_stick(state.s_thumb_ly, XINPUT_GAMEPAD_LEFT_THUMB_DEADZONE);
        let rx = normalize_stick(state.s_thumb_rx, XINPUT_GAMEPAD_RIGHT_THUMB_DEADZONE);
        let ry = normalize_stick(state.s_thumb_ry, XINPUT_GAMEPAD_RIGHT_THUMB_DEADZONE);
        let lt = normalize_trigger(state.b_left_trigger);
        let rt = normalize_trigger(state.b_right_trigger);
        events.push(RawEvent::RatioSample { axis: Axis::LeftStickX, num: lx.0, den: lx.1 });
        events.push(RawEvent::RatioSample { axis: Axis::LeftStickY, num: -ly.0, den: ly.1 });
        events.push(RawEvent::RatioSample { axis: Axis::RightStickX, num: rx.0, den: rx.1 });
        events.push(RawEvent::RatioSample { axis: Axis::RightStickY, num: -ry.0, den: ry.1 });
        events.push(RawEvent::RatioSample { axis: Axis::L2, num: lt.0, den: lt.1 });
        events.push(RawEvent::RatioSample { axis: Axis::R2, num: rt.0, den: rt.1 });
        assert(events@ =~= buttons_part + spec_xinput_samples(state));
        self.last_buttons = b;
        events
    }
}

/// Button bits reported on change by the plain XInput reader, in order.
pub open spec fn spec_change_mappings() -> Seq<(u16, Button)> {
    seq![
        (0x1000u16, Button::Cross),
        (0x2000u16, Button::Circle),
        (0x4000u16, Button::Square),
        (0x8000u16, Button::Triangle),
        (0x0020u16, Button::Share),
        (0x0010u16, Button::Options),
        (0x0001u16, Button::DpadUp),
        (0x0002u16, Button::DpadDown),
        (0x0004u16, Button::DpadLeft),
        (0x0008u16, Button::DpadRight),
        (0x0100u16, Button::L1),
        (0x0200u16, Button::R1),
        (0x0040u16, Button::L3),
        (0x0080u16, Button::R3),
    ]
}

/// Button events for the bits that differ between two button words, in the
/// order of the mapping table, each with the new state of its bit.
pub open spec fn spec_button_changes(table: Seq<(u16, Button)>, buttons: u16, last: u16) -> Seq<RawEvent>
    decreases table.len(),
{
    if table.len() == 0 {
        Seq::empty()
    } else {
        let prev = spec_button_changes(table.drop_last(), buttons, last);
        let (mask, button) = table.last();
        if (buttons ^ last) & mask != 0 {
            prev.push(RawEvent::ButtonPress { button, pressed: buttons & mask != 0 })
        } else {
            prev
        }
    }
}

/// Stick positions inside this distance from center read as centered by the
/// change-reporting reader.
pub const CHANGE_STICK_DEADZONE: i16 = 2500;

/// Trigger values below this read as released by the change-reporting reader.
pub const CHANGE_TRIGGER_DEADZONE: u8 = 5;

/// A stick position over the largest position `max`, as the ratio
/// `num / den`: centered inside the deadzone, else clamped to `-1..=1`.
pub open spec fn spec_deadzone_axis(value: i16, max: i16) -> (int, int) {
    if spec_abs(value as int) < CHANGE_STICK_DEADZONE as int {
        (0, max as int)
    } else if (value as int) < -(max as int) {
        (-(max as int), max as int)
    } else if (value as int) > max as int {
        (max as int, max as int)
    } else {
        (value as int, max as int)
    }
}

/// A trigger value over 255, as the ratio `num / den`: released below the deadzone.
pub open spec fn spec_deadzone_trigger(value: u8) -> (int, int) {
    if value < CHANGE_TRIGGER_DEADZONE { (0, 255) } else { (value as int, 255) }
}

/// The event of a ratio.
pub open spec fn spec_ratio_event(axis: Axis, r: (int, int)) -> RawEvent {
    RawEvent::RatioSample { axis, num: r.0 as i32, den: r.1 as i32 }
}

/// State of the plain XInput reader: the last button word and positions.
#[derive(Debug, Clone, Copy, PartialEq, Eq, Structural)]
pub struct XInputChangeTracker {
    pub last_buttons: u16,
    pub last_left_trigger: u8,
    pub last_right_trigger: u8,
    pub last_thumb_lx: i16,
    pub last_thumb_ly: i16,
    pub last_thumb_rx: i16,
    pub last_thumb_ry: i16,
}

impl XInputChangeTracker {
    /// Everything at rest.
    pub fn new() -> (t: Self)
        ensures
            t == (XInputChangeTracker {
                last_buttons: 0,
                last_left_trigger: 0,
                last_right_trigger: 0,
                last_thumb_lx: 0,
                last_thumb_ly: 0,
                last_thumb_rx: 0,
                last_thumb_ry: 0,
            }),
    {
        XInputChangeTracker {
            last_buttons: 0,
            last_left_trigger: 0,
            last_right_trigger: 0,
            last_thumb_lx: 0,
            last_thumb_ly: 0,
            last_thumb_rx: 0,
            last_thumb_ry: 0,
        }
    }

    /// A stick position as reported: over the largest position, with the
    /// deadzone applied when asked for.
    pub open spec fn spec_stick_ratio(v: i16, deadzones: bool) -> (int, int) {
        if deadzones { spec_deadzone_axis(v, 32767) } else { (v as int, 32767) }
    }

    /// A trigger value as reported: over 255, with the deadzone applied when
    /// asked for.
    pub open spec fn spec_trigger_ratio(v: u8, deadzones: bool) -> (int, int) {
        if deadzones { spec_deadzone_trigger(v) } else { (v as int, 255) }
    }

    /// The events of a new gamepad state: each button whose bit changed,
    /// then each stick and trigger whose position changed, with or without
    /// the deadzones.
    pub open spec fn spec_poll_with(self, s: XInputGamepad, deadzones: bool) -> Seq<RawEvent> {
        spec_button_changes(spec_change_mappings(), s.w_buttons, self.last_buttons)
            + (if s.s_thumb_lx != self.last_thumb_lx { seq![spec_ratio_event(Axis::LeftStickX, Self::spec_stick_ratio(s.s_thumb_lx, deadzones))] } else { Seq::empty() })
            + (if s.s_thumb_ly != self.last_thumb_ly { seq![spec_ratio_event(Axis::LeftStickY, Self::spec_stick_ratio(s.s_thumb_ly, deadzones))] } else { Seq::empty() })
            + (if s.s_thumb_rx != self.last_thumb_rx { seq![spec_ratio_event(Axis::RightStickX, Self::spec_stick_ratio(s.s_thumb_rx, deadzones))] } else { Seq::empty() })
            + (if s.s_thumb_ry != self.last_thumb_ry { seq![spec_ratio_event(Axis::RightStickY, Self::spec_stick_ratio(s.s_thumb_ry, deadzones))] } else { Seq::empty() })
            + (if s.b_left_trigger != self.last_left_trigger { seq![spec_ratio_event(Axis::L2, Self::spec_trigger_ratio(s.b_left_trigger, deadzones))] } else { Seq::empty() })
            + (if s.b_right_trigger != self.last_right_trigger { seq![spec_ratio_event(Axis::R2, Self::spec_trigger_ratio(s.b_right_trigger, deadzones))] } else { Seq::empty() })
    }

    /// The state remembered after reading a gamepad state.
    pub open spec fn spec_after(s: XInputGamepad) -> XInputChangeTracker {
        XInputChangeTracker {
            last_buttons: s.w_buttons,
            last_left_trigger: s.b_left_trigger,
            last_right_trigger: s.b_right_trigger,
            last_thumb_lx: s.s_thumb_lx,
            last_thumb_ly: s.s_thumb_ly,
            last_thumb_rx: s.s_thumb_rx,
            last_thumb_ry: s.s_thumb_ry,
        }
    }

    /// Every stick that moved since the last state has a position whose
    /// magnitude fits in a stick value (that is, not `i16::MIN`).
    pub open spec fn spec_changed_sticks_in_range(self, s: XInputGamepad) -> bool {
        &&& s.s_thumb_lx != self.last_thumb_lx ==> s.s_thumb_lx != i16::MIN
        &&& s.s_thumb_ly != self.last_thumb_ly ==> s.s_thumb_ly != i16::MIN
        &&& s.s_thumb_rx != self.last_thumb_rx ==> s.s_thumb_rx != i16::MIN
        &&& s.s_thumb_ry != self.last_thumb_ry ==> s.s_thumb_ry != i16::MIN
    }

    fn stick_ratio(v: i16, deadzones: bool) -> (r: (i32, i32))
        requires
            deadzones ==> v != i16::MIN,
        ensures
            (r.0 as int, r.1 as int) == Self::spec_stick_ratio(v, deadzones),
    {
        if deadzones { normalize_axis(v, 32767) } else { (v as i32, 32767) }
    }

    fn trigger_ratio(v: u8, deadzones: bool) -> (r: (i32, i32))
        ensures
            (r.0 as int, r.1 as int) == Self::spec_trigger_ratio(v, deadzones),
    {
        if deadzones { normalize_trigger_deadzone(v) } else { (v as i32, 255) }
    }

    #[verifier::rlimit(40)]
    fn poll_with(&mut self, state: XInputGamepad, deadzones: bool) -> (events: Vec<RawEvent>)
        requires
            deadzones ==> old(self).spec_changed_sticks_in_range(state),
        ensures
            events@ == old(self).spec_poll_with(state, deadzones),
            *final(self) == Self::spec_after(state),
    {
        let mut events: Vec<RawEvent> = Vec::new();
        let buttons = state.w_buttons;
        let table: Vec<(u16, Button)> = vec![
            (0x1000, Button::Cross),
            (0x2000, Button::Circle),
            (0x4000, Button::Square),
            (0x8000, Button::Triangle),
            (0x0020, Button::Share),
            (0x0010, Button::Options),
            (0x0001, Button::DpadUp),
            (0x0002, Button::DpadDown),
            (0x0004, Button::DpadLeft),
            (0x0008, Button::DpadRight),
            (0x0100, Button::L1),
            (0x0200, Button::R1),
            (0x0040, Button::L3),
            (0x0080, Button::R3),
        ];
        assert(table@ =~= spec_change_mappings());
        let button_change = buttons ^ self.last_buttons;
        let mut i: usize = 0;
        while i < table.len()
            invariant
                0 <= i <= table.len(),
                button_change == buttons ^ old(self).last_buttons,
                events@ == spec_button_changes(table@.subrange(0, i as int), buttons, old(self).last_buttons),
            decreases table.len() - i,
        {
            let (mask, button) = table[i];
            assert(table@.subrange(0, i + 1).drop_last() =~= table@.subrange(0, i as int));
            if button_change & mask != 0 {
                events.push(RawEvent::ButtonPress { button, pressed: (buttons & mask) != 0 });
            }
            i = i + 1;
        }
        assert(table@.subrange(0, i as int) =~= table@);
        let ghost part = events@;
        if state.s_thumb_lx != self.last_thumb_lx {
            let r = Self::stick_ratio(state.s_thumb_lx, deadzones);
            events.push(RawEvent::RatioSample { axis: Axis::LeftStickX, num: r.0, den: r.1 });
            self.last_thumb_lx = state.s_thumb_lx;
        }
        let ghost p1 = events@;
        if state.s_thumb_ly != self.last_thumb_ly {
            let r = Self::stick_ratio(state.s_thumb_ly, deadzones);
            events.push(RawEvent::RatioSample { axis: Axis::LeftStickY, num: r.0, den: r.1 });
            self.last_thumb_ly = state.s_thumb_ly;
        }
        let ghost p2 = events@;
        if state.s_thumb_rx != self.last_thumb_rx {
            let r = Self::stick_ratio(state.s_thumb_rx, deadzones);
            events.push(RawEvent::RatioSample { axis: Axis::RightStickX, num: r.0, den: r.1 });
            self.last_thumb_rx = state.s_thumb_rx;
        }
        let ghost p3 = events@;
        if state.s_thumb_ry != self.last_thumb_ry {
            let r = Self::stick_ratio(state.s_thumb_ry, deadzones);
            events.push(RawEvent::RatioSample { axis: Axis::RightStickY, num: r.0, den: r.1 });
            self.last_thumb_ry = state.s_thumb_ry;
        }
        let ghost p4 = events@;
        if state.b_left_trigger != self.last_left_trigger {
            let r = Self::trigger_ratio(state.b_left_trigger, deadzones);
            events.push(RawEvent::RatioSample { axis: Axis::L2, num: r.0, den: r.1 });
            self.last_left_trigger = state.b_left_trigger;
        }
        let ghost p5 = events@;
        if state.b_right_trigger != self.last_right_trigger {
            let r = Self::trigger_ratio(state.b_right_trigger, deadzones);
            events.push(RawEvent::RatioSample { axis: Axis::R2, num: r.0, den: r.1 });
            self.last_right_trigger = state.b_right_trigger;
        }
        self.last_buttons = buttons;
        assert(events@ =~= old(self).spec_poll_with(state, deadzones));
        events
    }

    /// Reports what changed since the last state, each position over the
    /// largest one of its range, and remembers the new state.
    pub fn poll_events(&mut self, state: XInputGamepad) -> (events: Vec<RawEvent>)
        ensures
            events@ == old(self).spec_poll_with(state, false),
            *final(self) == Self::spec_after(state),
    {
        self.poll_with(state, false)
    }

    /// Reports what changed since the last state, with the stick and
    /// trigger deadzones applied, and remembers the new state.
    pub fn poll_state(&mut self, state: XInputGamepad) -> (events: Vec<RawEvent>)
        requires
            old(self).spec_changed_sticks_in_range(state),
        ensures
            events@ == old(self).spec_poll_with(state, true),
            *final(self) == Self::spec_after(state),
    {
        self.poll_with(state, true)
    }
}

/// A stick position over the largest position `max` with the change
/// reader's deadzone, as the ratio `num / den`.
pub fn normalize_axis(value: i16, max: i16) -> (r: (i32, i32))
    requires
        value != i16::MIN,
        max > 0,
    ensures
        (r.0 as int, r.1 as int) == spec_deadzone_axis(value, max),
{
    let v = value as i32;
    let m = max as i32;
    let abs_value: i32 = if v < 0 { -v } else { v };
    if abs_value < CHANGE_STICK_DEADZONE as i32 {
        (0, m)
    } else if v < -m {
        (-m, m)
    } else if v > m {
        (m, m)
    } else {
        (v, m)
    }
}

/// A trigger value with the change reader's deadzone, as the ratio `num / den`.
pub fn normalize_trigger_deadzone(value: u8) -> (r: (i32, i32))
    ensures
        (r.0 as int, r.1 as int) == spec_deadzone_trigger(value),
{
    if value < CHANGE_TRIGGER_DEADZONE {
        (0, 255)
    } else {
        (value as i32, 255)
    }
}

/// Reading a state twice reports nothing the second time, with or without
/// deadzones: the change-reporting reader only reports changes.
pub proof fn lemma_change_tracker_repeat_silent(s: XInputGamepad, deadzones: bool)
    ensures
        XInputChangeTracker::spec_after(s).spec_poll_with(s, deadzones) == Seq::<RawEvent>::empty(),
{
    assert(s.w_buttons ^ s.w_buttons == 0) by (bit_vector);
    lemma_no_changes(spec_change_mappings(), s.w_buttons);
    assert(XInputChangeTracker::spec_after(s).spec_poll_with(s, deadzones) =~= Seq::<RawEvent>::empty());
}

proof fn lemma_no_changes(table: Seq<(u16, Button)>, b: u16)
    ensures
        spec_button_changes(table, b, b) == Seq::<RawEvent>::empty(),
    decreases table.len(),
{
    if table.len() > 0 {
        lemma_no_changes(table.drop_last(), b);
        let m = table.last().0;
        assert((b ^ b) & m == 0) by (bit_vector);
    }
}

/// The change-reporting reader reads every button of its table at the bit
/// at which the pad decoder reads it: for each entry, the pad's state for
/// the button after a button word is whether the entry's bit is set.
pub proof fn lemma_xinput_readers_agree(m: Map<Button, bool>, w: u16)
    ensures
        forall|k: int| 0 <= k < spec_change_mappings().len() ==> {
            let (mask, b) = #[trigger] spec_change_mappings()[k];
            spec_apply_updates((m, Seq::empty()), spec_xinput_updates(w)).0[b] == (w & mask != 0)
        },
{
    lemma_xinput_word_buttons(m, w);
    let t = spec_change_mappings();
    assert forall|k: int| 0 <= k < t.len() implies {
        let (mask, b) = #[trigger] t[k];
        spec_apply_updates((m, Seq::empty()), spec_xinput_updates(w)).0[b] == (w & mask != 0)
    } by {
        if k == 0 {
        } else if k == 1 {
        } else if k == 2 {
        } else if k == 3 {
        } else if k == 4 {
        } else if k == 5 {
        } else if k == 6 {
        } else if k == 7 {
        } else if k == 8 {
        } else if k == 9 {
        } else if k == 10 {
        } else if k == 11 {
        } else if k == 12 {
        } else if k == 13 {
        }
    }
}

/// The Xbox controller profile names every button by its XInput bit: for
/// each entry, the pad's state for the button after a button word is
/// whether the entry's code is set in the word.
pub proof fn lemma_xbox_profile_uses_xinput_bits(m: Map<Button, bool>, w: u16)
    ensures
        forall|k: int| 0 <= k < spec_xbox_buttons().len() ==> {
            let (code, b) = #[trigger] spec_xbox_buttons()[k];
            &&& code < 0x1_0000
            &&& spec_apply_updates((m, Seq::empty()), spec_xinput_updates(w)).0[b] == (w & (code as u16) != 0)
        },
{
    lemma_xinput_word_buttons(m, w);
    let t = spec_xbox_buttons();
    assert forall|k: int| 0 <= k < t.len() implies {
        let (code, b) = #[trigger] t[k];
        &&& code < 0x1_0000
        &&& spec_apply_updates((m, Seq::empty()), spec_xinput_updates(w)).0[b] == (w & (code as u16) != 0)
    } by {
        if k == 0 {
        } else if k == 1 {
        } else if k == 2 {
        } else if k == 3 {
        } else if k == 4 {
        } else if k == 5 {
        } else if k == 6 {
        } else if k == 7 {
        } else if k == 8 {
        } else if k == 9 {
        } else if k == 10 {
        } else if k == 11 {
        } else if k == 12 {
        } else if k == 13 {
        } else if k == 14 {
        }
    }
}

} // verus!
