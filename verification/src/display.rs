use vstd::prelude::*;
use crate::text::str_eq;

verus! {

/// A row of the live control display: control name, raw value, MIDI output.
pub type ControlRow = (String, String, String);

/// The texts of a display row.
pub open spec fn spec_row_texts(r: ControlRow) -> (Seq<char>, Seq<char>, Seq<char>) {
    (r.0@, r.1@, r.2@)
}

/// The texts of a display table.
pub open spec fn spec_table(t: Seq<ControlRow>) -> Seq<(Seq<char>, Seq<char>, Seq<char>)> {
    t.map_values(|r: ControlRow| spec_row_texts(r))
}

/// The rows of a table whose control is not `name`, in order.
pub open spec fn spec_without(
    rows: Seq<(Seq<char>, Seq<char>, Seq<char>)>,
    name: Seq<char>,
) -> Seq<(Seq<char>, Seq<char>, Seq<char>)>
    decreases rows.len(),
{
    if rows.len() == 0 {
        Seq::empty()
    } else {
        let prev = spec_without(rows.drop_last(), name);
        if rows.last().0 == name {
            prev
        } else {
            prev.push(rows.last())
        }
    }
}

/// No control name occurs in two rows.
pub open spec fn spec_names_distinct(rows: Seq<(Seq<char>, Seq<char>, Seq<char>)>) -> bool {
    forall|i: int, j: int| 0 <= i < rows.len() && 0 <= j < rows.len() && i != j ==> rows[i].0 != rows[j].0
}

/// Every row kept comes from the table and does not name `name`; kept rows
/// of a table with distinct names still have distinct names.
proof fn lemma_without(rows: Seq<(Seq<char>, Seq<char>, Seq<char>)>, name: Seq<char>)
    ensures
        forall|k: int| 0 <= k < spec_without(rows, name).len() ==> #[trigger] spec_without(rows, name)[k].0 != name
            && rows.contains(spec_without(rows, name)[k]),
        spec_names_distinct(rows) ==> spec_names_distinct(spec_without(rows, name)),
    decreases rows.len(),
{
    if rows.len() > 0 {
        let t = rows.drop_last();
        lemma_without(t, name);
        let prev = spec_without(t, name);
        assert forall|k: int| 0 <= k < prev.len() implies rows.contains(#[trigger] prev[k]) by {
            let j = choose|j: int| 0 <= j < t.len() && t[j] == prev[k];
            assert(rows[j] == prev[k]);
        }
        assert(rows[rows.len() - 1] == rows.last());
        if spec_names_distinct(rows) {
            assert(spec_names_distinct(t)) by {
                assert forall|i: int, j: int| 0 <= i < t.len() && 0 <= j < t.len() && i != j implies t[i].0 != t[j].0 by {
                    assert(t[i] == rows[i]);
                    assert(t[j] == rows[j]);
                }
            }
            assert forall|k: int| 0 <= k < prev.len() implies #[trigger] prev[k].0 != rows.last().0 by {
                let j = choose|j: int| 0 <= j < t.len() && t[j] == prev[k];
                assert(rows[j] == t[j]);
            }
        }
    }
}

/// Records a control in the display table: any row with the entry's control
/// name is removed and the entry goes last. The names of a table whose names
/// were distinct stay distinct.
pub fn record_control(controls: &mut Vec<ControlRow>, entry: ControlRow)
    ensures
        spec_table(final(controls)@) == spec_without(spec_table(old(controls)@), entry.0@).push(
            spec_row_texts(entry),
        ),
        spec_names_distinct(spec_table(old(controls)@)) ==> spec_names_distinct(spec_table(final(controls)@)),
{
    let mut rows: Vec<ControlRow> = Vec::new();
    core::mem::swap(&mut rows, controls);
    let ghost before = rows@;
    let mut i: usize = 0;
    while i < rows.len()
        invariant
            rows@ == before,
            before == old(controls)@,
            0 <= i <= rows@.len(),
            spec_table(controls@) == spec_without(spec_table(rows@.subrange(0, i as int)), entry.0@),
        decreases rows.len() - i,
    {
        let ghost done = controls@;
        assert(spec_table(rows@.subrange(0, i + 1)).drop_last() =~= spec_table(rows@.subrange(0, i as int)));
        assert(spec_table(rows@.subrange(0, i + 1)).last() == spec_row_texts(rows@[i as int]));
        if !str_eq(rows[i].0.as_str(), entry.0.as_str()) {
            let row = (rows[i].0.clone(), rows[i].1.clone(), rows[i].2.clone());
            controls.push(row);
            assert(spec_table(controls@) =~= spec_table(done).push(spec_row_texts(rows@[i as int])));
        }
        i = i + 1;
    }
    assert(rows@.subrange(0, rows@.len() as int) =~= rows@);
    let ghost kept = controls@;
    controls.push(entry);
    assert(spec_table(controls@) =~= spec_table(kept).push(spec_row_texts(entry)));
    proof {
        let name = entry.0@;
        let base = spec_table(before);
        lemma_without(base, name);
        let w = spec_without(base, name);
        let f = spec_table(controls@);
        if spec_names_distinct(base) {
            assert forall|i: int, j: int| 0 <= i < f.len() && 0 <= j < f.len() && i != j implies f[i].0 != f[j].0 by {
                if i < w.len() && j < w.len() {
                    assert(f[i] == w[i] && f[j] == w[j]);
                } else if i < w.len() {
                    assert(f[i] == w[i]);
                    assert(w[i].0 != name);
                } else {
                    assert(f[j] == w[j]);
                    assert(w[j].0 != name);
                }
            }
        }
    }
}

} // verus!
