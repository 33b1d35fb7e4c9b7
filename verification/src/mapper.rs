use vstd::prelude::*;
use crate::buttons::{button_index, lemma_button_index_injective, spec_button_index, ButtonStates};
use crate::config::{
    axis_mappings, button_mappings, find_cc, find_note, lemma_default_axis_table, lemma_default_button_table,
    spec_axis_cc, spec_button_note, MIDI_CHANNEL,
};
use crate::midi::{control_change_message, note_message, spec_status};
use crate::types::{Axis, Button};

verus! {

/// Shortest time, in nanoseconds, between a release and the press before it.
pub const DEBOUNCE_NANOS: u64 = 20_000_000;

/// Recorded value of a control-change number that has not been sent yet.
pub const UNSENT_CC_VALUE: u8 = 255;

/// What the mapper remembers between events: the state of every button, when
/// each one last changed (nanoseconds on a monotonic clock), and the last
/// value sent on every control-change number.
pub struct MapperState {
    pub button_states: ButtonStates,
    pub last_button_time: [Option<u64>; 19],
    pub last_cc_values: Vec<u8>,
}

/// Velocity of a note for a button state: full when pressed, zero when released.
pub open spec fn spec_velocity(pressed: bool) -> u8 {
    if pressed { 127u8 } else { 0u8 }
}

/// The note message of a button state on the mapper's channel.
pub open spec fn spec_note_bytes(note: u8, pressed: bool) -> Seq<u8> {
    seq![
        spec_status(if pressed { 0x90u8 } else { 0x80u8 }, MIDI_CHANNEL),
        note,
        spec_velocity(pressed),
    ]
}

/// The control-change message of a value on the mapper's channel.
pub open spec fn spec_cc_bytes(cc: u8, value: u8) -> Seq<u8> {
    seq![spec_status(0xB0u8, MIDI_CHANNEL), cc, value]
}

impl MapperState {
    /// The table of sent values covers every control-change number.
    pub open spec fn wf(&self) -> bool {
        self.last_cc_values@.len() == 256
    }

    /// When a button last changed, if it ever did.
    pub open spec fn last_change(&self, b: Button) -> Option<u64> {
        self.last_button_time@[spec_button_index(b)]
    }

    /// The last value sent on a control-change number (255 before any).
    pub open spec fn last_cc(&self, cc: u8) -> u8 {
        self.last_cc_values@[cc as int]
    }

    /// Whether a change of `button` to `pressed` at time `now` is ignored:
    /// it repeats the known state, or it releases a button pressed less than
    /// the debounce time ago.
    pub open spec fn spec_ignores(&self, button: Button, pressed: bool, now: u64) -> bool {
        let prev = self.button_states@[button];
        prev == pressed || (prev && match self.last_change(button) {
            Some(t) => (if now >= t { now - t } else { 0 }) < DEBOUNCE_NANOS,
            None => false,
        })
    }

    /// All buttons released, no change seen, no value sent.
    pub fn new() -> (s: Self)
        ensures
            s.wf(),
            forall|b: Button| !#[trigger] s.button_states@[b],
            forall|b: Button| #[trigger] s.last_change(b) is None,
            forall|cc: u8| #[trigger] s.last_cc(cc) == UNSENT_CC_VALUE,
    {
        let mut last_cc_values: Vec<u8> = Vec::new();
        let mut i: usize = 0;
        while i < 256
            invariant
                0 <= i <= 256,
                last_cc_values@.len() == i,
                forall|j: int| 0 <= j < i ==> last_cc_values@[j] == UNSENT_CC_VALUE,
            decreases 256 - i,
        {
            last_cc_values.push(UNSENT_CC_VALUE);
            i = i + 1;
        }
        let s = MapperState {
            button_states: ButtonStates::new(),
            last_button_time: [None; 19],
            last_cc_values,
        };
        assert forall|b: Button| #[trigger] s.last_change(b) is None by {
            lemma_button_index_injective(b, b);
        }
        s
    }

    /// Handles a button event at time `now`: unless it is ignored, records
    /// the new state and time and gives the note message to send for the
    /// button's mapped note (none for a button without one).
    pub fn process_button(&mut self, button: Button, pressed: bool, now: u64) -> (msg: Option<[u8; 3]>)
        requires
            old(self).wf(),
        ensures
            final(self).wf(),
            old(self).spec_ignores(button, pressed, now) ==> {
                &&& msg is None
                &&& final(self).button_states@ == old(self).button_states@
                &&& final(self).last_button_time@ == old(self).last_button_time@
            },
            !old(self).spec_ignores(button, pressed, now) ==> {
                &&& final(self).button_states@ == old(self).button_states@.insert(button, pressed)
                &&& final(self).last_change(button) == Some(now)
                &&& forall|b: Button| b != button ==> #[trigger] final(self).last_change(b) == old(self).last_change(b)
                &&& match spec_button_note(button) {
                    Some(note) => msg matches Some(m) && m@ == spec_note_bytes(note, pressed),
                    None => msg is None,
                }
            },
            final(self).last_cc_values@ == old(self).last_cc_values@,
    {
        let prev = self.button_states.get(button);
        if prev == pressed {
            return None;
        }
        let i = button_index(button);
        if prev {
            match self.last_button_time[i] {
                Some(t) => {
                    let elapsed = if now >= t { now - t } else { 0 };
                    if elapsed < DEBOUNCE_NANOS {
                        return None;
                    }
                },
                None => {},
            }
        }
        let mut ignored: Vec<crate::types::RawEvent> = Vec::new();
        self.button_states.update_button(button, pressed, &mut ignored);
        self.last_button_time[i] = Some(now);
        proof {
            assert forall|b: Button| b != button implies #[trigger] self.last_change(b) == old(self).last_change(b) by {
                lemma_button_index_injective(b, button);
            }
            lemma_default_button_table(button);
        }
        let table = button_mappings();
        match find_note(&table, button) {
            Some(note) => {
                let velocity: u8 = if pressed { 127 } else { 0 };
                let m = note_message(MIDI_CHANNEL, note, velocity);
                assert(m@ =~= spec_note_bytes(note, pressed));
                Some(m)
            },
            None => None,
        }
    }

    /// Handles an axis whose value was converted to the MIDI range: gives the
    /// control-change message for the axis's mapped number when the value
    /// differs from the last one sent on it, and records it.
    pub fn process_axis_value(&mut self, axis: Axis, midi_value: u8) -> (msg: Option<[u8; 3]>)
        requires
            old(self).wf(),
        ensures
            final(self).wf(),
            final(self).button_states@ == old(self).button_states@,
            final(self).last_button_time@ == old(self).last_button_time@,
            spec_axis_cc(axis) matches Some(cc) ==> final(self).last_cc(cc) == midi_value,
            match spec_axis_cc(axis) {
                None => msg is None && final(self).last_cc_values@ == old(self).last_cc_values@,
                Some(cc) => if old(self).last_cc(cc) != midi_value {
                    &&& msg matches Some(m) && m@ == spec_cc_bytes(cc, midi_value)
                    &&& final(self).last_cc_values@ == old(self).last_cc_values@.update(cc as int, midi_value)
                } else {
                    msg is None && final(self).last_cc_values@ == old(self).last_cc_values@
                },
            },
    {
        proof {
            lemma_default_axis_table(axis);
        }
        let table = axis_mappings();
        match find_cc(&table, axis) {
            None => None,
            Some(cc) => {
                let last = self.last_cc_values[cc as usize];
                if last != midi_value {
                    self.last_cc_values.set(cc as usize, midi_value);
                    let m = control_change_message(MIDI_CHANNEL, cc, midi_value);
                    Some(m)
                } else {
                    None
                }
            },
        }
    }
}

/// A press of a released button is always handled, and so is its release
/// once the debounce time has passed since the press.
pub proof fn lemma_press_then_release_handled(s: MapperState, button: Button, pressed_at: u64, now: u64)
    ensures
        !s.button_states@[button] ==> !s.spec_ignores(button, true, pressed_at),
        s.button_states@[button] && s.last_change(button) == Some(pressed_at) && pressed_at <= now
            && now - pressed_at >= DEBOUNCE_NANOS ==> !s.spec_ignores(button, false, now),
{
}

/// A button state repeated at any later time sends nothing and changes
/// nothing, and a release sooner than the debounce time after a press is
/// ignored.
pub proof fn lemma_repeat_and_bounce_ignored(s: MapperState, button: Button, pressed: bool, t: u64, later: u64)
    requires
        s.button_states@[button] == pressed,
        pressed ==> s.last_change(button) == Some(t),
        t <= later,
        later - t < DEBOUNCE_NANOS,
    ensures
        s.spec_ignores(button, pressed, later),
        pressed ==> s.spec_ignores(button, false, later),
{
}

} // verus!
