use vstd::prelude::*;
use crate::types::{Button, RawEvent};

verus! {

/// Position of a button in a state table.
pub open spec fn spec_button_index(b: Button) -> int {
    match b {
        Button::Cross => 0,
        Button::Circle => 1,
        Button::Square => 2,
        Button::Triangle => 3,
        Button::L1 => 4,
        Button::R1 => 5,
        Button::L2 => 6,
        Button::R2 => 7,
        Button::Share => 8,
        Button::Options => 9,
        Button::PS => 10,
        Button::L3 => 11,
        Button::R3 => 12,
        Button::DpadUp => 13,
        Button::DpadDown => 14,
        Button::DpadLeft => 15,
        Button::DpadRight => 16,
        Button::Touchpad => 17,
        Button::Unknown => 18,
    }
}

/// Position of a button in a state table.
pub fn button_index(b: Button) -> (i: usize)
    ensures
        i == spec_button_index(b),
        i < 19,
{
    match b {
        Button::Cross => 0,
        Button::Circle => 1,
        Button::Square => 2,
        Button::Triangle => 3,
        Button::L1 => 4,
        Button::R1 => 5,
        Button::L2 => 6,
        Button::R2 => 7,
        Button::Share => 8,
        Button::Options => 9,
        Button::PS => 10,
        Button::L3 => 11,
        Button::R3 => 12,
        Button::DpadUp => 13,
        Button::DpadDown => 14,
        Button::DpadLeft => 15,
        Button::DpadRight => 16,
        Button::Touchpad => 17,
        Button::Unknown => 18,
    }
}

/// Distinct buttons have distinct positions.
pub proof fn lemma_button_index_injective(a: Button, b: Button)
    ensures
        spec_button_index(a) == spec_button_index(b) ==> a == b,
        0 <= spec_button_index(a) < 19,
{
}

/// The last known pressed state of every button; a button never seen is
/// released.
pub struct ButtonStates {
    pub pressed: [bool; 19],
}

impl View for ButtonStates {
    type V = Map<Button, bool>;

    open spec fn view(&self) -> Map<Button, bool> {
        Map::new(|b: Button| true, |b: Button| self.pressed@[spec_button_index(b)])
    }
}

impl ButtonStates {
    /// All buttons released.
    pub fn new() -> (s: Self)
        ensures
            forall|b: Button| !#[trigger] s@[b],
    {
        ButtonStates { pressed: [false; 19] }
    }

    /// The last known state of `b`.
    pub fn get(&self, b: Button) -> (r: bool)
        ensures
            r == self@[b],
    {
        self.pressed[button_index(b)]
    }

    /// Records the state of a button and reports a change as an event: an
    /// event is pushed exactly when `pressed` differs from the recorded state.
    pub fn update_button(&mut self, button: Button, pressed: bool, events: &mut Vec<RawEvent>)
        ensures
            final(self)@ == old(self)@.insert(button, pressed),
            final(events)@ == if old(self)@[button] != pressed {
                old(events)@.push(RawEvent::ButtonPress { button, pressed })
            } else {
                old(events)@
            },
    {
        let i = button_index(button);
        let prev_state = self.pressed[i];
        if pressed != prev_state {
            events.push(RawEvent::ButtonPress { button, pressed });
            self.pressed[i] = pressed;
        }
        proof {
            assert forall|b: Button| #[trigger] self@[b] == old(self)@.insert(button, pressed)[b] by {
                lemma_button_index_injective(b, button);
            }
            assert(self@ =~= old(self)@.insert(button, pressed));
        }
    }
}

/// Button table and events after recording one state: an event is
/// reported exactly when the state changes.
pub open spec fn spec_button_step(
    st: (Map<Button, bool>, Seq<RawEvent>),
    u: (Button, bool),
) -> (Map<Button, bool>, Seq<RawEvent>) {
    (
        st.0.insert(u.0, u.1),
        if st.0[u.0] != u.1 {
            st.1.push(RawEvent::ButtonPress { button: u.0, pressed: u.1 })
        } else {
            st.1
        },
    )
}

/// Button table and events after recording a sequence of states in order.
pub open spec fn spec_apply_updates(
    st: (Map<Button, bool>, Seq<RawEvent>),
    us: Seq<(Button, bool)>,
) -> (Map<Button, bool>, Seq<RawEvent>)
    decreases us.len(),
{
    if us.len() == 0 {
        st
    } else {
        spec_button_step(spec_apply_updates(st, us.drop_last()), us.last())
    }
}

impl ButtonStates {
    /// Records a sequence of button states in order, reporting each change.
    pub fn apply_updates(&mut self, updates: &Vec<(Button, bool)>, events: &mut Vec<RawEvent>)
        ensures
            (final(self)@, final(events)@) == spec_apply_updates((old(self)@, old(events)@), updates@),
    {
        let mut i: usize = 0;
        while i < updates.len()
            invariant
                0 <= i <= updates.len(),
                (self@, events@) == spec_apply_updates((old(self)@, old(events)@), updates@.subrange(0, i as int)),
            decreases updates.len() - i,
        {
            let (b, p) = updates[i];
            self.update_button(b, p, events);
            assert(updates@.subrange(0, i + 1).drop_last() =~= updates@.subrange(0, i as int));
            i = i + 1;
        }
        assert(updates@.subrange(0, i as int) =~= updates@);
    }
}

/// Recording a state reports it once: recording the same state again
/// reports nothing, and the recorded state is the one given.
pub proof fn lemma_button_step_idempotent(st: (Map<Button, bool>, Seq<RawEvent>), u: (Button, bool))
    ensures
        spec_button_step(spec_button_step(st, u), u).1 == spec_button_step(st, u).1,
        spec_button_step(st, u).0[u.0] == u.1,
{
}

/// No button occurs twice in a list of button states.
pub open spec fn spec_distinct_buttons(us: Seq<(Button, bool)>) -> bool {
    forall|i: int, j: int| 0 <= i < j < us.len() ==> us[i].0 != us[j].0
}

/// After recording a list of states of distinct buttons, each of those
/// buttons holds its state from the list.
pub proof fn lemma_apply_records_all(st: (Map<Button, bool>, Seq<RawEvent>), us: Seq<(Button, bool)>)
    requires
        spec_distinct_buttons(us),
    ensures
        forall|k: int| 0 <= k < us.len() ==> {
            &&& #[trigger] spec_apply_updates(st, us).0.dom().contains(us[k].0)
            &&& spec_apply_updates(st, us).0[us[k].0] == us[k].1
        },
    decreases us.len(),
{
    if us.len() > 0 {
        let init = us.drop_last();
        lemma_apply_records_all(st, init);
        let prev = spec_apply_updates(st, init);
        let last = us[us.len() - 1];
        assert(us.last() == last);
        assert(spec_apply_updates(st, us).0 == prev.0.insert(last.0, last.1));
        assert forall|k: int| 0 <= k < us.len() implies {
            &&& #[trigger] spec_apply_updates(st, us).0.dom().contains(us[k].0)
            &&& spec_apply_updates(st, us).0[us[k].0] == us[k].1
        } by {
            if k < us.len() - 1 {
                assert(init[k] == us[k]);
                assert(us[k].0 != last.0);
                assert(prev.0.dom().contains(init[k].0));
                assert(prev.0[init[k].0] == init[k].1);
            }
        }
    }
}

/// Recording states that the table already holds changes nothing and
/// reports nothing.
pub proof fn lemma_apply_already_held(m: Map<Button, bool>, e: Seq<RawEvent>, us: Seq<(Button, bool)>)
    requires
        forall|k: int| 0 <= k < us.len() ==> m.dom().contains(#[trigger] us[k].0) && m[us[k].0] == us[k].1,
    ensures
        spec_apply_updates((m, e), us) == (m, e),
    decreases us.len(),
{
    if us.len() > 0 {
        let init = us.drop_last();
        assert forall|k: int| 0 <= k < init.len() implies m.dom().contains(#[trigger] init[k].0) && m[init[k].0] == init[k].1 by {
            assert(init[k] == us[k]);
        }
        lemma_apply_already_held(m, e, init);
        let last = us[us.len() - 1];
        assert(m.dom().contains(last.0) && m[last.0] == last.1);
        assert(m.insert(last.0, last.1) =~= m);
    }
}

/// Recording the same list of states of distinct buttons a second time
/// keeps the table and reports no change.
pub proof fn lemma_apply_twice_quiet(st: (Map<Button, bool>, Seq<RawEvent>), us: Seq<(Button, bool)>, e: Seq<RawEvent>)
    requires
        spec_distinct_buttons(us),
    ensures
        spec_apply_updates((spec_apply_updates(st, us).0, e), us) == (spec_apply_updates(st, us).0, e),
{
    lemma_apply_records_all(st, us);
    let m = spec_apply_updates(st, us).0;
    assert forall|k: int| 0 <= k < us.len() implies m.dom().contains(#[trigger] us[k].0) && m[us[k].0] == us[k].1 by {
        assert(spec_apply_updates(st, us).0.dom().contains(us[k].0));
    }
    lemma_apply_already_held(m, e, us);
}

/// `b` is one of the buttons of a list of button states.
pub open spec fn spec_listed(us: Seq<(Button, bool)>, b: Button) -> bool {
    exists|k: int| 0 <= k < us.len() && us[k].0 == b
}

/// The events that recording a list of states adds to the events held.
pub open spec fn spec_new_events(st: (Map<Button, bool>, Seq<RawEvent>), us: Seq<(Button, bool)>) -> Seq<RawEvent> {
    let r = spec_apply_updates(st, us);
    r.1.subrange(st.1.len() as int, r.1.len() as int)
}

/// Recording a list of states of distinct buttons keeps the events already
/// held and adds one press or release for each button whose state changed,
/// carrying its new state, and nothing else; buttons not in the list keep
/// their state.
pub proof fn lemma_apply_reports_changes(st: (Map<Button, bool>, Seq<RawEvent>), us: Seq<(Button, bool)>)
    requires
        spec_distinct_buttons(us),
    ensures
        spec_apply_updates(st, us).1.len() >= st.1.len(),
        spec_apply_updates(st, us).1.subrange(0, st.1.len() as int) == st.1,
        forall|b: Button| !spec_listed(us, b) ==> #[trigger] spec_apply_updates(st, us).0[b] == st.0[b],
        forall|i: int| 0 <= i < spec_new_events(st, us).len() ==> {
            let e = #[trigger] spec_new_events(st, us)[i];
            &&& e is ButtonPress
            &&& spec_listed(us, e->button)
            &&& spec_apply_updates(st, us).0[e->button] == e->pressed
            &&& st.0[e->button] != e->pressed
        },
        forall|i: int, j: int| 0 <= i < j < spec_new_events(st, us).len() ==>
            (#[trigger] spec_new_events(st, us)[i])->button != (#[trigger] spec_new_events(st, us)[j])->button,
        forall|k: int| 0 <= k < us.len() && st.0[us[k].0] != us[k].1 ==> spec_new_events(st, us).contains(
            RawEvent::ButtonPress { button: #[trigger] us[k].0, pressed: us[k].1 },
        ),
    decreases us.len(),
{
    let n = st.1.len() as int;
    if us.len() == 0 {
        assert(spec_new_events(st, us) =~= Seq::<RawEvent>::empty());
        assert(st.1.subrange(0, n) =~= st.1);
    } else {
        let init = us.drop_last();
        let last = us.last();
        assert(spec_distinct_buttons(init)) by {
            assert forall|i: int, j: int| 0 <= i < j < init.len() implies init[i].0 != init[j].0 by {
                assert(init[i] == us[i] && init[j] == us[j]);
            }
        }
        lemma_apply_reports_changes(st, init);
        let ri = spec_apply_updates(st, init);
        let r = spec_apply_updates(st, us);
        let newi = spec_new_events(st, init);
        let new = spec_new_events(st, us);
        assert(last == us[us.len() - 1]);
        // Buttons listed before the last one differ from it.
        assert forall|b: Button| spec_listed(init, b) implies b != last.0 && spec_listed(us, b) by {
            let k = choose|k: int| 0 <= k < init.len() && init[k].0 == b;
            assert(init[k] == us[k]);
        }
        assert(!spec_listed(init, last.0));
        assert(ri.0[last.0] == st.0[last.0]);
        assert(r.0 == ri.0.insert(last.0, last.1));
        assert forall|b: Button| !spec_listed(us, b) implies #[trigger] r.0[b] == st.0[b] by {
            assert(!spec_listed(init, b)) by {
                if spec_listed(init, b) {
                    let k = choose|k: int| 0 <= k < init.len() && init[k].0 == b;
                    assert(init[k] == us[k]);
                }
            }
            assert(b != last.0) by {
                assert(us[us.len() - 1].0 == last.0);
            }
        }
        let e = RawEvent::ButtonPress { button: last.0, pressed: last.1 };
        if ri.0[last.0] != last.1 {
            assert(r.1 == ri.1.push(e));
            assert(new =~= newi.push(e));
        } else {
            assert(r.1 == ri.1);
            assert(new =~= newi);
        }
        assert(r.1.subrange(0, n) =~= ri.1.subrange(0, n));
        assert forall|i: int| 0 <= i < new.len() implies {
            let e = #[trigger] new[i];
            &&& e is ButtonPress
            &&& spec_listed(us, e->button)
            &&& r.0[e->button] == e->pressed
            &&& st.0[e->button] != e->pressed
        } by {
            if i < newi.len() {
                assert(new[i] == newi[i]);
                assert(spec_listed(init, newi[i]->button));
            } else {
                assert(new[i] == e);
                assert(us[us.len() - 1].0 == last.0);
            }
        }
        assert forall|i: int, j: int| 0 <= i < j < new.len() implies (#[trigger] new[i])->button
            != (#[trigger] new[j])->button by {
            assert(new[i] == newi[i]);
            assert(spec_listed(init, newi[i]->button));
            if j < newi.len() {
                assert(new[j] == newi[j]);
            } else {
                assert(new[j] == e);
            }
        }
        assert forall|k: int| 0 <= k < us.len() && st.0[us[k].0] != us[k].1 implies new.contains(
            RawEvent::ButtonPress { button: #[trigger] us[k].0, pressed: us[k].1 },
        ) by {
            if k < us.len() - 1 {
                assert(init[k] == us[k]);
                assert(newi.contains(RawEvent::ButtonPress { button: init[k].0, pressed: init[k].1 }));
                let i = choose|i: int| 0 <= i < newi.len() && newi[i] == RawEvent::ButtonPress {
                    button: init[k].0,
                    pressed: init[k].1,
                };
                assert(new[i] == newi[i]);
            } else {
                assert(new[new.len() - 1] == e);
            }
        }
    }
}

} // verus!
