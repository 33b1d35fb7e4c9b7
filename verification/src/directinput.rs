use vstd::prelude::*;
use crate::types::{Axis, Button, RawEvent};

verus! {

// ---------------------------------------------------------------------------
// DirectInput joystick states.

/// Joystick positions inside this distance from center count as centered.
pub const JOYSTICK_DEADZONE: i16 = 7840;

/// Trigger values below this count as released.
pub const TRIGGER_DEADZONE: u8 = 30;

/// The parts of a DirectInput joystick state that the controller reads.
#[derive(Debug, Clone, Copy)]
pub struct DiJoyState {
    pub l_x: i32,
    pub l_y: i32,
    pub l_z: i32,
    pub l_rz: i32,
    pub sliders: [i32; 2],
    pub pov: [u32; 4],
    pub buttons: [u8; 32],
}

/// A joystick position as the ratio `num / den`: centered inside the
/// deadzone, else the position over the largest positive position.
pub open spec fn spec_joystick_deadzone(value: i16) -> (int, int) {
    if -(JOYSTICK_DEADZONE as int) < value < JOYSTICK_DEADZONE as int {
        (0, 32767)
    } else {
        (value as int, 32767)
    }
}

/// A joystick position with the deadzone applied, as the ratio `num / den`.
pub fn apply_joystick_deadzone(value: i16) -> (r: (i32, i32))
    ensures
        (r.0 as int, r.1 as int) == spec_joystick_deadzone(value),
{
    if value > -JOYSTICK_DEADZONE && value < JOYSTICK_DEADZONE {
        (0, 32767)
    } else {
        (value as i32, 32767)
    }
}

/// A trigger value with the deadzone applied.
pub open spec fn spec_trigger_deadzone(value: u8) -> u8 {
    if value < TRIGGER_DEADZONE { 0 } else { value }
}

/// A trigger value with the deadzone applied: values below it read as released.
pub fn apply_trigger_deadzone(value: u8) -> (r: u8)
    ensures
        r == spec_trigger_deadzone(value),
{
    if value < TRIGGER_DEADZONE {
        0
    } else {
        value
    }
}

/// The standard button of a DirectInput button index.
pub open spec fn spec_di_button(index: int) -> Option<Button> {
    if index == 0 {
        Some(Button::Cross)
    } else if index == 1 {
        Some(Button::Circle)
    } else if index == 2 {
        Some(Button::Square)
    } else if index == 3 {
        Some(Button::Triangle)
    } else if index == 4 {
        Some(Button::L1)
    } else if index == 5 {
        Some(Button::R1)
    } else if index == 6 {
        Some(Button::L2)
    } else if index == 7 {
        Some(Button::R2)
    } else if index == 8 {
        Some(Button::Share)
    } else if index == 9 {
        Some(Button::Options)
    } else if index == 10 {
        Some(Button::PS)
    } else {
        None
    }
}

/// Maps a DirectInput button index to a standard button; indices above 10
/// have none.
pub fn map_button(index: usize) -> (r: Option<Button>)
    ensures
        r == spec_di_button(index as int),
{
    match index {
        0 => Some(Button::Cross),
        1 => Some(Button::Circle),
        2 => Some(Button::Square),
        3 => Some(Button::Triangle),
        4 => Some(Button::L1),
        5 => Some(Button::R1),
        6 => Some(Button::L2),
        7 => Some(Button::R2),
        8 => Some(Button::Share),
        9 => Some(Button::Options),
        10 => Some(Button::PS),
        _ => None,
    }
}

/// DirectInput button indices 0 to 10 stand for Cross, Circle, Square,
/// Triangle, L1, R1, L2, R2, Share, Options and PS, in that order; no other
/// index stands for a button.
pub proof fn lemma_di_button_indices(index: int)
    ensures
        0 <= index <= 10 ==> spec_di_button(index) == Some(
            seq![
                Button::Cross,
                Button::Circle,
                Button::Square,
                Button::Triangle,
                Button::L1,
                Button::R1,
                Button::L2,
                Button::R2,
                Button::Share,
                Button::Options,
                Button::PS,
            ][index],
        ),
        !(0 <= index <= 10) ==> spec_di_button(index) is None,
{
    let order = seq![
        Button::Cross,
        Button::Circle,
        Button::Square,
        Button::Triangle,
        Button::L1,
        Button::R1,
        Button::L2,
        Button::R2,
        Button::Share,
        Button::Options,
        Button::PS,
    ];
    if 0 <= index <= 10 {
        assert(order[0] == Button::Cross && order[1] == Button::Circle && order[2] == Button::Square);
        assert(order[3] == Button::Triangle && order[4] == Button::L1 && order[5] == Button::R1);
        assert(order[6] == Button::L2 && order[7] == Button::R2 && order[8] == Button::Share);
        assert(order[9] == Button::Options && order[10] == Button::PS);
    }
}

/// A stick event of a joystick state: the axis value narrowed to 16 bits,
/// with the deadzone applied.
pub open spec fn spec_di_stick(axis: Axis, value: i32) -> RawEvent {
    let r = spec_joystick_deadzone(value as i16);
    RawEvent::RatioSample { axis, num: r.0 as i32, den: r.1 as i32 }
}

/// A trigger event of a joystick state: the point-of-view value narrowed to
/// 8 bits, with the deadzone applied, over 255.
pub open spec fn spec_di_trigger(axis: Axis, value: u32) -> RawEvent {
    RawEvent::RatioSample { axis, num: spec_trigger_deadzone(value as u8) as i32, den: 255 }
}

/// The button events of a joystick state's first `n` buttons: those with a
/// standard button, pressed when their byte is at least 0x80.
pub open spec fn spec_di_buttons(buttons: Seq<u8>, n: nat) -> Seq<RawEvent>
    decreases n,
{
    if n == 0 {
        Seq::empty()
    } else {
        let prev = spec_di_buttons(buttons, (n - 1) as nat);
        match spec_di_button(n - 1) {
            Some(b) => prev.push(RawEvent::ButtonPress { button: b, pressed: buttons[n - 1] >= 0x80 }),
            None => prev,
        }
    }
}

/// The events of a joystick state: the four stick axes, the two triggers,
/// then the mapped buttons.
pub open spec fn spec_di_state_events(s: DiJoyState) -> Seq<RawEvent> {
    seq![
        spec_di_stick(Axis::LeftStickX, s.l_x),
        spec_di_stick(Axis::LeftStickY, s.l_y),
        spec_di_stick(Axis::RightStickX, s.l_z),
        spec_di_stick(Axis::RightStickY, s.l_rz),
        spec_di_trigger(Axis::L2, s.pov@[0]),
        spec_di_trigger(Axis::R2, s.pov@[1]),
    ] + spec_di_buttons(s.buttons@, 32)
}

/// Buttons past the eleventh add no event.
proof fn lemma_di_buttons_past_ps(buttons: Seq<u8>, n: nat)
    requires
        11 <= n,
    ensures
        spec_di_buttons(buttons, n) == spec_di_buttons(buttons, 11),
    decreases n,
{
    if n > 11 {
        lemma_di_buttons_past_ps(buttons, (n - 1) as nat);
    }
}

/// A joystick state gives the four stick samples, the two trigger samples,
/// then exactly eleven button events: one for each of button bytes 0 to 10,
/// in order, for Cross, Circle, Square, Triangle, L1, R1, L2, R2, Share,
/// Options and PS, pressed exactly when the byte is at least 0x80. The other
/// button bytes give nothing.
pub proof fn lemma_di_state_buttons(s: DiJoyState)
    ensures
        ({
            let ev = spec_di_state_events(s);
            let b = s.buttons@;
            &&& ev.len() == 17
            &&& ev[6] == RawEvent::ButtonPress { button: Button::Cross, pressed: b[0] >= 0x80 }
            &&& ev[7] == RawEvent::ButtonPress { button: Button::Circle, pressed: b[1] >= 0x80 }
            &&& ev[8] == RawEvent::ButtonPress { button: Button::Square, pressed: b[2] >= 0x80 }
            &&& ev[9] == RawEvent::ButtonPress { button: Button::Triangle, pressed: b[3] >= 0x80 }
            &&& ev[10] == RawEvent::ButtonPress { button: Button::L1, pressed: b[4] >= 0x80 }
            &&& ev[11] == RawEvent::ButtonPress { button: Button::R1, pressed: b[5] >= 0x80 }
            &&& ev[12] == RawEvent::ButtonPress { button: Button::L2, pressed: b[6] >= 0x80 }
            &&& ev[13] == RawEvent::ButtonPress { button: Button::R2, pressed: b[7] >= 0x80 }
            &&& ev[14] == RawEvent::ButtonPress { button: Button::Share, pressed: b[8] >= 0x80 }
            &&& ev[15] == RawEvent::ButtonPress { button: Button::Options, pressed: b[9] >= 0x80 }
            &&& ev[16] == RawEvent::ButtonPress { button: Button::PS, pressed: b[10] >= 0x80 }
            &&& forall|i: int| 0 <= i < 6 ==> !(#[trigger] ev[i] is ButtonPress)
        }),
{
    let b = s.buttons@;
    lemma_di_buttons_past_ps(b, 32);
    assert(spec_di_buttons(b, 0) =~= Seq::<RawEvent>::empty());
    assert(spec_di_buttons(b, 1) == spec_di_buttons(b, 0).push(
        RawEvent::ButtonPress { button: Button::Cross, pressed: b[0] >= 0x80 },
    ));
    assert(spec_di_buttons(b, 2) == spec_di_buttons(b, 1).push(
        RawEvent::ButtonPress { button: Button::Circle, pressed: b[1] >= 0x80 },
    ));
    assert(spec_di_buttons(b, 3) == spec_di_buttons(b, 2).push(
        RawEvent::ButtonPress { button: Button::Square, pressed: b[2] >= 0x80 },
    ));
    assert(spec_di_buttons(b, 4) == spec_di_buttons(b, 3).push(
        RawEvent::ButtonPress { button: Button::Triangle, pressed: b[3] >= 0x80 },
    ));
    assert(spec_di_buttons(b, 5) == spec_di_buttons(b, 4).push(
        RawEvent::ButtonPress { button: Button::L1, pressed: b[4] >= 0x80 },
    ));
    assert(spec_di_buttons(b, 6) == spec_di_buttons(b, 5).push(
        RawEvent::ButtonPress { button: Button::R1, pressed: b[5] >= 0x80 },
    ));
    assert(spec_di_buttons(b, 7) == spec_di_buttons(b, 6).push(
        RawEvent::ButtonPress { button: Button::L2, pressed: b[6] >= 0x80 },
    ));
    assert(spec_di_buttons(b, 8) == spec_di_buttons(b, 7).push(
        RawEvent::ButtonPress { button: Button::R2, pressed: b[7] >= 0x80 },
    ));
    assert(spec_di_buttons(b, 9) == spec_di_buttons(b, 8).push(
        RawEvent::ButtonPress { button: Button::Share, pressed: b[8] >= 0x80 },
    ));
    assert(spec_di_buttons(b, 10) == spec_di_buttons(b, 9).push(
        RawEvent::ButtonPress { button: Button::Options, pressed: b[9] >= 0x80 },
    ));
    assert(spec_di_buttons(b, 11) == spec_di_buttons(b, 10).push(
        RawEvent::ButtonPress { button: Button::PS, pressed: b[10] >= 0x80 },
    ));
    let head = spec_di_state_events(s).subrange(0, 6);
    assert(spec_di_state_events(s) =~= head + spec_di_buttons(b, 11));
}

/// Turns a joystick state into controller events.
pub fn process_di_state(state: &DiJoyState) -> (events: Vec<RawEvent>)
    ensures
        events@ == spec_di_state_events(*state),
{
    let mut events: Vec<RawEvent> = Vec::new();
    let axes: [(Axis, i32); 4] = [
        (Axis::LeftStickX, state.l_x),
        (Axis::LeftStickY, state.l_y),
        (Axis::RightStickX, state.l_z),
        (Axis::RightStickY, state.l_rz),
    ];
    let mut k: usize = 0;
    while k < 4
        invariant
            0 <= k <= 4,
            axes@ == seq![(Axis::LeftStickX, state.l_x), (Axis::LeftStickY, state.l_y),
                (Axis::RightStickX, state.l_z), (Axis::RightStickY, state.l_rz)],
            events@ == Seq::new(k as nat, |j: int| spec_di_stick(axes@[j].0, axes@[j].1)),
        decreases 4 - k,
    {
        let (axis, value) = axes[k];
        let r = apply_joystick_deadzone(value as i16);
        events.push(RawEvent::RatioSample { axis, num: r.0, den: r.1 });
        k = k + 1;
        assert(events@ =~= Seq::new(k as nat, |j: int| spec_di_stick(axes@[j].0, axes@[j].1)));
    }
    let left = apply_trigger_deadzone(state.pov[0] as u8);
    events.push(RawEvent::RatioSample { axis: Axis::L2, num: left as i32, den: 255 });
    let right = apply_trigger_deadzone(state.pov[1] as u8);
    events.push(RawEvent::RatioSample { axis: Axis::R2, num: right as i32, den: 255 });
    let ghost head = events@;
    assert(head =~= seq![
        spec_di_stick(Axis::LeftStickX, state.l_x),
        spec_di_stick(Axis::LeftStickY, state.l_y),
        spec_di_stick(Axis::RightStickX, state.l_z),
        spec_di_stick(Axis::RightStickY, state.l_rz),
        spec_di_trigger(Axis::L2, state.pov@[0]),
        spec_di_trigger(Axis::R2, state.pov@[1]),
    ]);
    let mut i: usize = 0;
    while i < 32
        invariant
            0 <= i <= 32,
            events@ == head + spec_di_buttons(state.buttons@, i as nat),
        decreases 32 - i,
    {
        let btn = state.buttons[i];
        match map_button(i) {
            Some(button) => {
                events.push(RawEvent::ButtonPress { button, pressed: btn >= 0x80 });
            },
            None => {},
        }
        i = i + 1;
        assert(events@ =~= head + spec_di_buttons(state.buttons@, i as nat));
    }
    events
}

// ---------------------------------------------------------------------------
// DualShock 4 reports read through the HID DirectInput path.

/// Button bits of byte 5 of the report, in the order in which they are
/// reported; the L3 and R3 bits are read at the same masks as Cross and Circle.
pub open spec fn spec_report_buttons() -> Seq<(u8, Button)> {
    seq![
        (0x10u8, Button::Cross),
        (0x20u8, Button::Circle),
        (0x40u8, Button::Square),
        (0x80u8, Button::Triangle),
        (0x01u8, Button::L1),
        (0x02u8, Button::R1),
        (0x04u8, Button::Share),
        (0x08u8, Button::Options),
        (0x10u8, Button::L3),
        (0x20u8, Button::R3),
    ]
}

/// Press events for the entries of a mask table whose bit is set in `byte`.
pub open spec fn spec_mask_presses(table: Seq<(u8, Button)>, byte: u8) -> Seq<RawEvent>
    decreases table.len(),
{
    if table.len() == 0 {
        Seq::empty()
    } else {
        let prev = spec_mask_presses(table.drop_last(), byte);
        let (mask, button) = table.last();
        if byte & mask != 0 {
            prev.push(RawEvent::ButtonPress { button, pressed: true })
        } else {
            prev
        }
    }
}

/// The presses of a report's button byte, read from its bits, in this
/// order: Cross (0x10), Circle (0x20), Square (0x40), Triangle (0x80), L1
/// (0x01), R1 (0x02), Share (0x04), Options (0x08), then L3 and R3, which
/// are read at the Cross and Circle bits (0x10 and 0x20) as well. A clear bit
/// gives nothing.
pub proof fn lemma_report_byte_presses(byte: u8)
    ensures
        ({
            let e1 = if byte & 0x10 != 0 { Seq::<RawEvent>::empty().push(RawEvent::ButtonPress { button: Button::Cross, pressed: true }) } else { Seq::<RawEvent>::empty() };
            let e2 = if byte & 0x20 != 0 { e1.push(RawEvent::ButtonPress { button: Button::Circle, pressed: true }) } else { e1 };
            let e3 = if byte & 0x40 != 0 { e2.push(RawEvent::ButtonPress { button: Button::Square, pressed: true }) } else { e2 };
            let e4 = if byte & 0x80 != 0 { e3.push(RawEvent::ButtonPress { button: Button::Triangle, pressed: true }) } else { e3 };
            let e5 = if byte & 0x01 != 0 { e4.push(RawEvent::ButtonPress { button: Button::L1, pressed: true }) } else { e4 };
            let e6 = if byte & 0x02 != 0 { e5.push(RawEvent::ButtonPress { button: Button::R1, pressed: true }) } else { e5 };
            let e7 = if byte & 0x04 != 0 { e6.push(RawEvent::ButtonPress { button: Button::Share, pressed: true }) } else { e6 };
            let e8 = if byte & 0x08 != 0 { e7.push(RawEvent::ButtonPress { button: Button::Options, pressed: true }) } else { e7 };
            let e9 = if byte & 0x10 != 0 { e8.push(RawEvent::ButtonPress { button: Button::L3, pressed: true }) } else { e8 };
            let e10 = if byte & 0x20 != 0 { e9.push(RawEvent::ButtonPress { button: Button::R3, pressed: true }) } else { e9 };
            spec_mask_presses(spec_report_buttons(), byte) == e10
        }),
{
    let t = spec_report_buttons();
    let e1 = if byte & 0x10 != 0 { Seq::<RawEvent>::empty().push(RawEvent::ButtonPress { button: Button::Cross, pressed: true }) } else { Seq::<RawEvent>::empty() };
    let e2 = if byte & 0x20 != 0 { e1.push(RawEvent::ButtonPress { button: Button::Circle, pressed: true }) } else { e1 };
    let e3 = if byte & 0x40 != 0 { e2.push(RawEvent::ButtonPress { button: Button::Square, pressed: true }) } else { e2 };
    let e4 = if byte & 0x80 != 0 { e3.push(RawEvent::ButtonPress { button: Button::Triangle, pressed: true }) } else { e3 };
    let e5 = if byte & 0x01 != 0 { e4.push(RawEvent::ButtonPress { button: Button::L1, pressed: true }) } else { e4 };
    let e6 = if byte & 0x02 != 0 { e5.push(RawEvent::ButtonPress { button: Button::R1, pressed: true }) } else { e5 };
    let e7 = if byte & 0x04 != 0 { e6.push(RawEvent::ButtonPress { button: Button::Share, pressed: true }) } else { e6 };
    let e8 = if byte & 0x08 != 0 { e7.push(RawEvent::ButtonPress { button: Button::Options, pressed: true }) } else { e7 };
    let e9 = if byte & 0x10 != 0 { e8.push(RawEvent::ButtonPress { button: Button::L3, pressed: true }) } else { e8 };
    let e10 = if byte & 0x20 != 0 { e9.push(RawEvent::ButtonPress { button: Button::R3, pressed: true }) } else { e9 };
    assert(t.subrange(0, 0) =~= Seq::<(u8, Button)>::empty());
    assert(spec_mask_presses(t.subrange(0, 0), byte) =~= Seq::<RawEvent>::empty());
    assert(t.subrange(0, 1).drop_last() =~= t.subrange(0, 0));
    assert(spec_mask_presses(t.subrange(0, 1), byte) == e1);
    assert(t.subrange(0, 2).drop_last() =~= t.subrange(0, 1));
    assert(spec_mask_presses(t.subrange(0, 2), byte) == e2);
    assert(t.subrange(0, 3).drop_last() =~= t.subrange(0, 2));
    assert(spec_mask_presses(t.subrange(0, 3), byte) == e3);
    assert(t.subrange(0, 4).drop_last() =~= t.subrange(0, 3));
    assert(spec_mask_presses(t.subrange(0, 4), byte) == e4);
    assert(t.subrange(0, 5).drop_last() =~= t.subrange(0, 4));
    assert(spec_mask_presses(t.subrange(0, 5), byte) == e5);
    assert(t.subrange(0, 6).drop_last() =~= t.subrange(0, 5));
    assert(spec_mask_presses(t.subrange(0, 6), byte) == e6);
    assert(t.subrange(0, 7).drop_last() =~= t.subrange(0, 6));
    assert(spec_mask_presses(t.subrange(0, 7), byte) == e7);
    assert(t.subrange(0, 8).drop_last() =~= t.subrange(0, 7));
    assert(spec_mask_presses(t.subrange(0, 8), byte) == e8);
    assert(t.subrange(0, 9).drop_last() =~= t.subrange(0, 8));
    assert(spec_mask_presses(t.subrange(0, 9), byte) == e9);
    assert(t.subrange(0, 10).drop_last() =~= t.subrange(0, 9));
    assert(spec_mask_presses(t.subrange(0, 10), byte) == e10);
    assert(t.subrange(0, 10) =~= t);
}

/// A stick byte centered at 128, as the ratio over 128.
pub open spec fn spec_centered_stick(axis: Axis, b: u8) -> RawEvent {
    RawEvent::RatioSample { axis, num: (b - 128) as i32, den: 128 }
}

/// The events of a report: presses for the set button bits, the triggers
/// (bytes 8 and 9) over 255, then the sticks (bytes 1 to 4).
pub open spec fn spec_ds4_direct_events(buf: Seq<u8>) -> Seq<RawEvent> {
    spec_mask_presses(spec_report_buttons(), buf[5]) + seq![
        RawEvent::RatioSample { axis: Axis::L2, num: buf[8] as i32, den: 255 },
        RawEvent::RatioSample { axis: Axis::R2, num: buf[9] as i32, den: 255 },
        spec_centered_stick(Axis::LeftStickX, buf[1]),
        spec_centered_stick(Axis::LeftStickY, buf[2]),
        spec_centered_stick(Axis::RightStickX, buf[3]),
        spec_centered_stick(Axis::RightStickY, buf[4]),
    ]
}

/// The events of one 64-byte DualShock 4 report read over HID.
pub fn ds4_direct_events(buf: &[u8; 64]) -> (events: Vec<RawEvent>)
    ensures
        events@ == spec_ds4_direct_events(buf@),
{
    let mut events: Vec<RawEvent> = Vec::new();
    let buttons = buf[5];
    let table: Vec<(u8, Button)> = vec![
        (0x10, Button::Cross),
        (0x20, Button::Circle),
        (0x40, Button::Square),
        (0x80, Button::Triangle),
        (0x01, Button::L1),
        (0x02, Button::R1),
        (0x04, Button::Share),
        (0x08, Button::Options),
        (0x10, Button::L3),
        (0x20, Button::R3),
    ];
    assert(table@ =~= spec_report_buttons());
    let mut i: usize = 0;
    while i < table.len()
        invariant
            0 <= i <= table.len(),
            buttons == buf@[5],
            events@ == spec_mask_presses(table@.subrange(0, i as int), buttons),
        decreases table.len() - i,
    {
        let (mask, button) = table[i];
        assert(table@.subrange(0, i + 1).drop_last() =~= table@.subrange(0, i as int));
        if buttons & mask != 0 {
            events.push(RawEvent::ButtonPress { button, pressed: true });
        }
        i = i + 1;
    }
    assert(table@.subrange(0, i as int) =~= table@);
    let ghost part = events@;
    events.push(RawEvent::RatioSample { axis: Axis::L2, num: buf[8] as i32, den: 255 });
    events.push(RawEvent::RatioSample { axis: Axis::R2, num: buf[9] as i32, den: 255 });
    events.push(RawEvent::RatioSample { axis: Axis::LeftStickX, num: buf[1] as i32 - 128, den: 128 });
    events.push(RawEvent::RatioSample { axis: Axis::LeftStickY, num: buf[2] as i32 - 128, den: 128 });
    events.push(RawEvent::RatioSample { axis: Axis::RightStickX, num: buf[3] as i32 - 128, den: 128 });
    events.push(RawEvent::RatioSample { axis: Axis::RightStickY, num: buf[4] as i32 - 128, den: 128 });
    assert(events@ =~= spec_ds4_direct_events(buf@));
    events
}

} // verus!
