use vstd::prelude::*;
use crate::text::{push_hex2, push_hex_upper, spec_hex2, spec_hex_upper, str_eq, string_of};

verus! {

/// A globally unique identifier of a device product.
#[derive(Debug, Clone, Copy)]
pub struct Guid {
    pub data1: u32,
    pub data2: u16,
    pub data3: u16,
    pub data4: [u8; 8],
}

/// The text under which a product GUID is recorded: its first three fields
/// in uppercase hexadecimal without padding, then its last eight bytes as
/// two digits each, separated by hyphens.
pub open spec fn spec_guid_string(g: Guid) -> Seq<char> {
    spec_hex_upper(g.data1 as nat) + "-"@ + spec_hex_upper(g.data2 as nat) + "-"@ + spec_hex_upper(
        g.data3 as nat,
    ) + "-"@ + spec_hex2(g.data4@[0]) + spec_hex2(g.data4@[1]) + spec_hex2(g.data4@[2]) + spec_hex2(
        g.data4@[3],
    ) + spec_hex2(g.data4@[4]) + spec_hex2(g.data4@[5]) + spec_hex2(g.data4@[6]) + spec_hex2(g.data4@[7])
}

/// The text under which a product GUID is recorded.
pub fn guid_to_string(g: &Guid) -> (s: String)
    ensures
        s@ == spec_guid_string(*g),
{
    let mut s = String::new();
    push_hex_upper(&mut s, g.data1);
    s.append("-");
    push_hex_upper(&mut s, g.data2 as u32);
    s.append("-");
    push_hex_upper(&mut s, g.data3 as u32);
    s.append("-");
    let mut i: usize = 0;
    let ghost head = s@;
    while i < 8
        invariant
            0 <= i <= 8,
            s@ == head + spec_hex2_prefix(g.data4@, i as int),
        decreases 8 - i,
    {
        push_hex2(&mut s, g.data4[i]);
        i = i + 1;
    }
    assert(spec_hex2_prefix(g.data4@, 8) =~= spec_hex2(g.data4@[0]) + spec_hex2(g.data4@[1]) + spec_hex2(
        g.data4@[2],
    ) + spec_hex2(g.data4@[3]) + spec_hex2(g.data4@[4]) + spec_hex2(g.data4@[5]) + spec_hex2(g.data4@[6])
        + spec_hex2(g.data4@[7])) by {
        reveal_with_fuel(spec_hex2_prefix, 9);
    }
    assert(s@ =~= spec_guid_string(*g));
    s
}

/// The two-digit forms of the first `n` bytes, concatenated.
pub open spec fn spec_hex2_prefix(bytes: Seq<u8>, n: int) -> Seq<char>
    decreases n,
{
    if n <= 0 {
        Seq::empty()
    } else {
        spec_hex2_prefix(bytes, n - 1) + spec_hex2(bytes[n - 1])
    }
}

/// The products of interest among enumerated devices, and the devices found
/// so far keyed by the text of their product GUIDs.
pub struct DriverSetup {
    pub device_guids: Vec<(String, Guid)>,
    pub candidate_guids: Vec<Guid>,
}

/// The product GUID that is always a candidate: the wireless controller.
pub open spec fn spec_is_default_candidate(g: Guid) -> bool {
    &&& g.data1 == 0x054C
    &&& g.data2 == 0x09CC
    &&& g.data3 == 0
    &&& g.data4@ == Seq::new(8, |i: int| 0u8)
}

/// Recorded devices as text keys and GUIDs.
pub open spec fn spec_entries(v: Seq<(String, Guid)>) -> Seq<(Seq<char>, Guid)> {
    v.map_values(|e: (String, Guid)| (e.0@, e.1))
}

/// The entries with the given key replaced, or appended when the key is new.
pub open spec fn spec_record(entries: Seq<(Seq<char>, Guid)>, key: Seq<char>, g: Guid) -> Seq<(Seq<char>, Guid)> {
    if exists|i: int| 0 <= i < entries.len() && entries[i].0 == key {
        let i = choose|i: int| 0 <= i < entries.len() && entries[i].0 == key;
        entries.update(i, (key, g))
    } else {
        entries.push((key, g))
    }
}

/// The entries whose GUID is a candidate, in order.
pub open spec fn spec_filter_candidates(entries: Seq<(Seq<char>, Guid)>, candidates: Seq<Guid>) -> Seq<(Seq<char>, Guid)>
    decreases entries.len(),
{
    if entries.len() == 0 {
        Seq::empty()
    } else {
        let prev = spec_filter_candidates(entries.drop_last(), candidates);
        if candidates.contains(entries.last().1) {
            prev.push(entries.last())
        } else {
            prev
        }
    }
}

/// No key is recorded twice.
pub open spec fn spec_keys_unique(entries: Seq<(Seq<char>, Guid)>) -> bool {
    forall|i: int, j: int| 0 <= i < entries.len() && 0 <= j < entries.len() && i != j ==> entries[i].0 != entries[j].0
}

fn guid_eq(a: &Guid, b: &Guid) -> (r: bool)
    ensures
        r == (*a == *b),
{
    let mut i: usize = 0;
    if a.data1 != b.data1 || a.data2 != b.data2 || a.data3 != b.data3 {
        return false;
    }
    while i < 8
        invariant
            0 <= i <= 8,
            forall|j: int| 0 <= j < i ==> a.data4@[j] == b.data4@[j],
        decreases 8 - i,
    {
        if a.data4[i] != b.data4[i] {
            return false;
        }
        i = i + 1;
    }
    assert(a.data4@ =~= b.data4@);
    assert(a.data4 == b.data4);
    true
}

impl DriverSetup {
    /// Keys are unique.
    pub open spec fn wf(&self) -> bool {
        spec_keys_unique(spec_entries(self.device_guids@))
    }

    /// A setup with no devices found yet, whose candidates are the default
    /// wireless controller followed by the user's own, if any.
    pub fn new(user_candidate_guids: Option<Vec<Guid>>) -> (s: Self)
        ensures
            s.wf(),
            s.device_guids@.len() == 0,
            s.candidate_guids@.len() >= 1,
            spec_is_default_candidate(s.candidate_guids@[0]),
            s.candidate_guids@.drop_first() == match user_candidate_guids {
                Some(v) => v@,
                None => Seq::empty(),
            },
    {
        let mut candidate_guids = vec![Guid { data1: 0x054C, data2: 0x09CC, data3: 0, data4: [0u8; 8] }];
        let ghost first = candidate_guids@;
        if let Some(user_guids) = user_candidate_guids {
            let mut i: usize = 0;
            while i < user_guids.len()
                invariant
                    0 <= i <= user_guids.len(),
                    candidate_guids@ == first + user_guids@.subrange(0, i as int),
                decreases user_guids.len() - i,
            {
                candidate_guids.push(user_guids[i]);
                i = i + 1;
                assert(candidate_guids@ =~= first + user_guids@.subrange(0, i as int));
            }
            assert(user_guids@.subrange(0, i as int) =~= user_guids@);
        }
        assert(first[0].data4@ =~= Seq::new(8, |i: int| 0u8));
        assert(candidate_guids@.drop_first() =~= match user_candidate_guids {
            Some(v) => v@,
            None => Seq::empty(),
        });
        DriverSetup { device_guids: Vec::new(), candidate_guids }
    }

    /// Records an enumerated device under the text of its product GUID,
    /// replacing a device recorded under the same text.
    pub fn record_device(&mut self, guid: Guid)
        requires
            old(self).wf(),
        ensures
            final(self).wf(),
            spec_entries(final(self).device_guids@) == spec_record(
                spec_entries(old(self).device_guids@),
                spec_guid_string(guid),
                guid,
            ),
            final(self).candidate_guids == old(self).candidate_guids,
    {
        let key = guid_to_string(&guid);
        let ghost e = spec_entries(self.device_guids@);
        let mut i: usize = 0;
        while i < self.device_guids.len()
            invariant
                0 <= i <= self.device_guids.len(),
                e == spec_entries(self.device_guids@),
                e == spec_entries(old(self).device_guids@),
                spec_keys_unique(e),
                key@ == spec_guid_string(guid),
                self.candidate_guids == old(self).candidate_guids,
                forall|j: int| 0 <= j < i ==> e[j].0 != key@,
            decreases self.device_guids.len() - i,
        {
            if str_eq(self.device_guids[i].0.as_str(), key.as_str()) {
                assert(e[i as int].0 == key@);
                self.device_guids.set(i, (key, guid));
                proof {
                    let w = choose|w: int| 0 <= w < e.len() && e[w].0 == key@;
                    assert(w == i);
                    assert(spec_entries(self.device_guids@) =~= e.update(i as int, (key@, guid)));
                    assert forall|x: int, y: int|
                        0 <= x < spec_entries(self.device_guids@).len() && 0 <= y < spec_entries(
                            self.device_guids@,
                        ).len() && x != y implies spec_entries(self.device_guids@)[x].0 != spec_entries(
                        self.device_guids@,
                    )[y].0 by {
                        if x != i && y != i {
                            assert(e[x].0 != e[y].0);
                        } else if x == i {
                            assert(e[y].0 != e[x].0);
                        } else {
                            assert(e[x].0 != e[y].0);
                        }
                    }
                }
                return;
            }
            i = i + 1;
        }
        self.device_guids.push((key, guid));
        assert(spec_entries(self.device_guids@) =~= e.push((key@, guid)));
    }

    /// The recorded devices whose product GUID is one of the candidates, in
    /// the order they were recorded.
    pub fn filter_device_guids(&self) -> (r: Vec<(String, Guid)>)
        ensures
            spec_entries(r@) == spec_filter_candidates(spec_entries(self.device_guids@), self.candidate_guids@),
    {
        let mut r: Vec<(String, Guid)> = Vec::new();
        let mut i: usize = 0;
        while i < self.device_guids.len()
            invariant
                0 <= i <= self.device_guids.len(),
                spec_entries(r@) == spec_filter_candidates(
                    spec_entries(self.device_guids@.subrange(0, i as int)),
                    self.candidate_guids@,
                ),
            decreases self.device_guids.len() - i,
        {
            let g = self.device_guids[i].1;
            let mut is_candidate = false;
            let mut k: usize = 0;
            while k < self.candidate_guids.len()
                invariant
                    0 <= k <= self.candidate_guids.len(),
                    is_candidate == (exists|j: int| 0 <= j < k && self.candidate_guids@[j] == g),
                decreases self.candidate_guids.len() - k,
            {
                if guid_eq(&self.candidate_guids[k], &g) {
                    is_candidate = true;
                }
                k = k + 1;
            }
            assert(is_candidate == self.candidate_guids@.contains(g));
            let ghost prev = r@;
            if is_candidate {
                let key = self.device_guids[i].0.clone();
                r.push((key, g));
                assert(spec_entries(r@) =~= spec_entries(prev).push((self.device_guids@[i as int].0@, g)));
            }
            assert(spec_entries(self.device_guids@.subrange(0, i + 1)).drop_last() =~= spec_entries(
                self.device_guids@.subrange(0, i as int),
            ));
            i = i + 1;
        }
        assert(self.device_guids@.subrange(0, i as int) =~= self.device_guids@);
        r
    }
}

/// The DirectInput joystick device class: a GUID whose first three fields
/// are those of `GUID_Joystick`.
pub open spec fn spec_joystick_class(g: Guid) -> bool {
    g.data1 == 0x4D1E55B2 && g.data2 == 0xF16F && g.data3 == 0x11CF
}

/// Whether a device GUID is of the DirectInput joystick class.
pub fn is_joystick_class(g: &Guid) -> (r: bool)
    ensures
        r == spec_joystick_class(*g),
{
    g.data1 == 0x4D1E55B2 && g.data2 == 0xF16F && g.data3 == 0x11CF
}

} // verus!
