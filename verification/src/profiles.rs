use vstd::prelude::*;
use crate::text::{contains, spec_contains, spec_to_lowercase, string_of, to_lowercase};
use crate::types::{Axis, AxisConfig, Button, DeviceInfo};

verus! {

/// A controller's connection method.
#[derive(Debug, Clone, Copy, PartialEq, Eq, Structural)]
pub enum ConnectionType {
    USB,
    Bluetooth,
    Unknown,
}

/// How a controller reports its D-pad.
pub enum DpadType {
    /// D-pad as a hat value in one report byte; each listed hat value
    /// stands for the buttons it holds down.
    Hat { byte_index: usize, mask_values: Vec<(u8, Vec<Button>)> },
    /// D-pad as individual buttons.
    Buttons,
    /// D-pad as two axes.
    Axes { x_axis: Axis, y_axis: Axis },
}

/// Mathematical form of a [`DpadType`].
pub enum DpadView {
    Hat { byte_index: usize, mask_values: Seq<(u8, Seq<Button>)> },
    Buttons,
    Axes { x_axis: Axis, y_axis: Axis },
}

impl View for DpadType {
    type V = DpadView;

    open spec fn view(&self) -> DpadView {
        match self {
            DpadType::Hat { byte_index, mask_values } => DpadView::Hat {
                byte_index: *byte_index,
                mask_values: mask_values@.map_values(|e: (u8, Vec<Button>)| (e.0, e.1@)),
            },
            DpadType::Buttons => DpadView::Buttons,
            DpadType::Axes { x_axis, y_axis } => DpadView::Axes { x_axis: *x_axis, y_axis: *y_axis },
        }
    }
}

/// Mapping information for one controller model.
///
/// A button code holds the report byte index in its upper bits and the bit
/// mask within that byte in its low eight bits.
pub struct ControllerProfile {
    pub name: String,
    pub description: String,
    pub vid_pid_pairs: Vec<(u16, u16)>,
    pub button_map: Vec<(u32, Button)>,
    pub axis_config: Vec<(Axis, AxisConfig)>,
    pub dpad_type: DpadType,
    pub connection_type: ConnectionType,
}

/// Mathematical form of a [`ControllerProfile`].
pub struct ProfileView {
    pub name: Seq<char>,
    pub description: Seq<char>,
    pub vid_pid_pairs: Seq<(u16, u16)>,
    pub button_map: Seq<(u32, Button)>,
    pub axis_config: Seq<(Axis, AxisConfig)>,
    pub dpad_type: DpadView,
    pub connection_type: ConnectionType,
}

impl View for ControllerProfile {
    type V = ProfileView;

    open spec fn view(&self) -> ProfileView {
        ProfileView {
            name: self.name@,
            description: self.description@,
            vid_pid_pairs: self.vid_pid_pairs@,
            button_map: self.button_map@,
            axis_config: self.axis_config@,
            dpad_type: self.dpad_type@,
            connection_type: self.connection_type,
        }
    }
}

// ---------------------------------------------------------------------------
// Keyed tables held as sequences of pairs.

/// Index of the first entry of `s` with key `k`, or -1.
pub open spec fn spec_key_index<V>(s: Seq<(u32, V)>, k: u32) -> int
    decreases s.len(),
{
    if s.len() == 0 {
        -1
    } else if s[0].0 == k {
        0
    } else {
        let i = spec_key_index(s.drop_first(), k);
        if i >= 0 { i + 1 } else { -1 }
    }
}

/// The value stored under `k`, if any.
pub open spec fn spec_lookup<V>(s: Seq<(u32, V)>, k: u32) -> Option<V> {
    let i = spec_key_index(s, k);
    if i >= 0 { Some(s[i].1) } else { None }
}

/// No key occurs twice.
pub open spec fn spec_keys_distinct<K, V>(s: Seq<(K, V)>) -> bool {
    forall|i: int, j: int| 0 <= i < s.len() && 0 <= j < s.len() && i != j ==> s[i].0 != s[j].0
}

/// `s` with the value under `k` set to `v`: replaced in place if `k` is
/// present, appended otherwise.
pub open spec fn spec_insert<V>(s: Seq<(u32, V)>, k: u32, v: V) -> Seq<(u32, V)> {
    let i = spec_key_index(s, k);
    if i >= 0 { s.update(i, (k, v)) } else { s.push((k, v)) }
}

proof fn lemma_key_index<V>(s: Seq<(u32, V)>, k: u32)
    ensures
        -1 <= spec_key_index(s, k) < s.len(),
        spec_key_index(s, k) >= 0 ==> s[spec_key_index(s, k)].0 == k,
        spec_key_index(s, k) >= 0 ==> forall|j: int|
            0 <= j < spec_key_index(s, k) ==> s[j].0 != k,
        spec_key_index(s, k) == -1 ==> forall|j: int| 0 <= j < s.len() ==> s[j].0 != k,
    decreases s.len(),
{
    if s.len() > 0 {
        let t = s.drop_first();
        lemma_key_index(t, k);
        assert forall|j: int| 0 <= j < t.len() implies t[j] == s[j + 1] by {}
        if s[0].0 != k {
            if spec_key_index(t, k) == -1 {
                assert forall|j: int| 0 <= j < s.len() implies s[j].0 != k by {
                    if j > 0 {
                        assert(s[j] == t[j - 1]);
                    }
                }
            } else {
                let i = spec_key_index(t, k);
                assert forall|j: int| 0 <= j < i + 1 implies s[j].0 != k by {
                    if j > 0 {
                        assert(s[j] == t[j - 1]);
                    }
                }
            }
        }
    }
}

proof fn lemma_insert<V>(s: Seq<(u32, V)>, k: u32, v: V)
    requires
        spec_keys_distinct(s),
    ensures
        spec_keys_distinct(spec_insert(s, k, v)),
        spec_lookup(spec_insert(s, k, v), k) == Some(v),
        forall|k2: u32| k2 != k ==> spec_lookup(spec_insert(s, k, v), k2) == spec_lookup(s, k2),
{
    lemma_key_index(s, k);
    let i = spec_key_index(s, k);
    let t = spec_insert(s, k, v);
    assert(t.len() >= s.len());
    assert forall|j: int| 0 <= j < s.len() && j != i implies t[j] == s[j] by {}
    if i >= 0 {
        assert(t[i] == (k, v));
    } else {
        assert(t[s.len() as int] == (k, v));
    }
    assert(spec_keys_distinct(t)) by {
        assert forall|x: int, y: int| 0 <= x < t.len() && 0 <= y < t.len() && x != y
            implies t[x].0 != t[y].0 by {
            if i >= 0 {
                if x == i {
                    assert(s[y].0 != s[i].0);
                } else if y == i {
                    assert(s[x].0 != s[i].0);
                }
            } else {
                if x == s.len() {
                    assert(s[y].0 != k);
                } else if y == s.len() {
                    assert(s[x].0 != k);
                }
            }
        }
    }
    lemma_key_index(t, k);
    let ti = spec_key_index(t, k);
    if i >= 0 {
        assert(ti == i) by {
            if ti < i {
                assert(t[ti] == s[ti]);
            }
            if ti > i {
                assert(t[i].0 == k);
            }
        }
    } else {
        assert(ti == s.len()) by {
            if ti < s.len() {
                assert(t[ti] == s[ti]);
            }
        }
    }
    assert forall|k2: u32| k2 != k implies spec_lookup(t, k2) == spec_lookup(s, k2) by {
        lemma_key_index(s, k2);
        lemma_key_index(t, k2);
        let a = spec_key_index(s, k2);
        let b = spec_key_index(t, k2);
        if a >= 0 {
            assert(a != i);
            assert(t[a] == s[a]);
            assert(b == a) by {
                if b >= 0 && b < a {
                    if b != i {
                        assert(t[b] == s[b]);
                    }
                }
                if b == -1 {
                    assert(t[a].0 == k2);
                }
            }
        } else {
            if b >= 0 {
                if b < s.len() && b != i {
                    assert(t[b] == s[b]);
                }
            }
            assert(b == -1);
        }
    }
}

/// Index of the entry with key `k` in a table with distinct keys.
fn key_index<V: Copy>(table: &Vec<(u32, V)>, k: u32) -> (r: Option<usize>)
    ensures
        match r {
            Some(i) => spec_key_index(table@, k) == i as int && i < table@.len(),
            None => spec_key_index(table@, k) == -1,
        },
{
    proof {
        lemma_key_index(table@, k);
    }
    let mut i: usize = 0;
    while i < table.len()
        invariant
            0 <= i <= table.len(),
            forall|j: int| 0 <= j < i ==> table@[j].0 != k,
            -1 <= spec_key_index(table@, k) < table@.len(),
            spec_key_index(table@, k) >= 0 ==> table@[spec_key_index(table@, k)].0 == k,
            spec_key_index(table@, k) >= 0 ==> forall|j: int|
                0 <= j < spec_key_index(table@, k) ==> table@[j].0 != k,
            spec_key_index(table@, k) == -1 ==> forall|j: int|
                0 <= j < table@.len() ==> table@[j].0 != k,
        decreases table.len() - i,
    {
        if table[i].0 == k {
            return Some(i);
        }
        i = i + 1;
    }
    None
}

/// Sets the value under `k` to `v`, replacing an entry with the same key.
fn insert_entry<V: Copy>(table: &mut Vec<(u32, V)>, k: u32, v: V)
    ensures
        final(table)@ == spec_insert(old(table)@, k, v),
{
    match key_index(table, k) {
        Some(i) => {
            table.set(i, (k, v));
        },
        None => {
            table.push((k, v));
        },
    }
}

// ---------------------------------------------------------------------------
// Button codes.

/// Report byte index encoded in a button code.
pub open spec fn spec_code_byte(code: u32) -> int {
    (code >> 8) as int
}

/// Bit mask encoded in a button code.
pub open spec fn spec_code_mask(code: u32) -> u8 {
    (code & 0xFF) as u8
}

/// The button code moved `off` bytes further into the report. The byte
/// index is kept modulo 2^24, as it is truncated to the code's 32 bits.
pub open spec fn spec_shift_code(code: u32, off: usize) -> u32 {
    (((((code >> 8) as int + off) % 0x100_0000) * 0x100) + (code % 0x100)) as u32
}

/// Moves a button code `off` bytes further into the report.
pub fn shift_code(code: u32, off: usize) -> (r: u32)
    requires
        (code >> 8) as int + off <= usize::MAX,
    ensures
        r == spec_shift_code(code, off),
{
    let byte_index: usize = (code >> 8) as usize;
    let bit_mask: u32 = code & 0xFF;
    let moved: usize = byte_index + off;
    let low: u32 = (moved & 0xFF_FFFF) as u32;
    let r = (low << 8u32) | bit_mask;
    assert(low == moved % 0x100_0000) by (bit_vector)
        requires low == (moved & 0xFF_FFFF) as u32;
    assert(((low << 8u32) | (code & 0xFF)) == low * 0x100 + code % 0x100) by (bit_vector)
        requires low < 0x100_0000;
    r
}

/// When the moved byte index still fits, the shifted code names the byte
/// `off` further on and keeps its bit mask.
pub proof fn lemma_shift_code_fields(code: u32, off: usize)
    requires
        spec_code_byte(code) + off < 0x100_0000,
    ensures
        spec_code_byte(spec_shift_code(code, off)) == spec_code_byte(code) + off,
        spec_code_mask(spec_shift_code(code, off)) == spec_code_mask(code),
{
    let b: u32 = (((code >> 8) as int + off) % 0x100_0000) as u32;
    assert(b as int == (code >> 8) as int + off);
    let r: u32 = (b as int * 0x100 + code % 0x100) as u32;
    assert(r == spec_shift_code(code, off));
    assert(r >> 8u32 == b && (r & 0xFF) == (code & 0xFF)) by (bit_vector)
        requires b < 0x100_0000, r == b * 0x100 + code % 0x100;
}

/// The table obtained by inserting every shifted entry of `s` in order.
pub open spec fn spec_shift_buttons(s: Seq<(u32, Button)>, off: usize) -> Seq<(u32, Button)>
    decreases s.len(),
{
    if s.len() == 0 {
        Seq::empty()
    } else {
        spec_insert(spec_shift_buttons(s.drop_last(), off), spec_shift_code(s.last().0, off), s.last().1)
    }
}

/// Axis configurations with every byte index moved `off` bytes on.
pub open spec fn spec_shift_axes(s: Seq<(Axis, AxisConfig)>, off: usize) -> Seq<(Axis, AxisConfig)> {
    s.map_values(|e: (Axis, AxisConfig)| (e.0, AxisConfig { byte_index: (e.1.byte_index + off) as usize, ..e.1 }))
}

/// The D-pad description moved `off` bytes on.
pub open spec fn spec_shift_dpad(d: DpadView, off: usize) -> DpadView {
    match d {
        DpadView::Hat { byte_index, mask_values } => DpadView::Hat {
            byte_index: (byte_index + off) as usize,
            mask_values,
        },
        _ => d,
    }
}

/// No byte index of the profile overflows when moved `off` bytes on.
pub open spec fn spec_offset_fits(p: ProfileView, off: usize) -> bool {
    &&& forall|i: int| 0 <= i < p.button_map.len() ==> (p.button_map[i].0 >> 8) as int + off <= usize::MAX
    &&& forall|i: int| 0 <= i < p.axis_config.len() ==> p.axis_config[i].1.byte_index + off <= usize::MAX
    &&& (p.dpad_type matches DpadView::Hat { byte_index, .. } ==> byte_index + off <= usize::MAX)
}

/// The Bluetooth form of a profile.
pub open spec fn spec_bluetooth_variant(p: ProfileView, off: usize) -> ProfileView {
    ProfileView {
        name: p.name + " (Bluetooth)"@,
        description: p.description + " via Bluetooth"@,
        vid_pid_pairs: p.vid_pid_pairs,
        button_map: spec_shift_buttons(p.button_map, off),
        axis_config: spec_shift_axes(p.axis_config, off),
        dpad_type: spec_shift_dpad(p.dpad_type, off),
        connection_type: ConnectionType::Bluetooth,
    }
}

/// Distinct keys in every table of the profile.
pub open spec fn spec_profile_wf(p: ProfileView) -> bool {
    &&& spec_keys_distinct(p.button_map)
    &&& spec_keys_distinct(p.axis_config)
    &&& (p.dpad_type matches DpadView::Hat { mask_values, .. } ==> spec_keys_distinct(mask_values))
}

proof fn lemma_shift_buttons_distinct(s: Seq<(u32, Button)>, off: usize)
    ensures
        spec_keys_distinct(spec_shift_buttons(s, off)),
    decreases s.len(),
{
    if s.len() > 0 {
        lemma_shift_buttons_distinct(s.drop_last(), off);
        lemma_insert(spec_shift_buttons(s.drop_last(), off), spec_shift_code(s.last().0, off), s.last().1);
    }
}

/// Looking a shifted code up in the Bluetooth table finds what the unshifted
/// code held in the USB table, as long as no moved byte index needs more
/// than 24 bits and the USB codes are distinct.
pub proof fn lemma_shift_buttons_lookup(s: Seq<(u32, Button)>, off: usize, code: u32)
    requires
        spec_keys_distinct(s),
        forall|i: int| 0 <= i < s.len() ==> spec_code_byte(#[trigger] s[i].0) + off < 0x100_0000,
        spec_code_byte(code) + off < 0x100_0000,
    ensures
        spec_lookup(spec_shift_buttons(s, off), spec_shift_code(code, off)) == spec_lookup(s, code),
    decreases s.len(),
{
    if s.len() > 0 {
        let t = s.drop_last();
        assert forall|i: int| 0 <= i < t.len() implies spec_code_byte(#[trigger] t[i].0) + off < 0x100_0000 by {
            assert(t[i] == s[i]);
        }
        lemma_shift_buttons_lookup(t, off, code);
        lemma_shift_buttons_distinct(t, off);
        lemma_insert(spec_shift_buttons(t, off), spec_shift_code(s.last().0, off), s.last().1);
        lemma_key_index(s, code);
        lemma_key_index(t, code);
        let last = s.last().0;
        assert(spec_code_byte(s[s.len() - 1].0) + off < 0x100_0000);
        lemma_shift_code_fields(last, off);
        lemma_shift_code_fields(code, off);
        if last == code {
            // the last entry holds `code`; it occurs nowhere before
            assert(spec_key_index(t, code) == -1) by {
                if spec_key_index(t, code) >= 0 {
                    let j = spec_key_index(t, code);
                    assert(s[j].0 == code);
                    assert(s[s.len() - 1].0 == code);
                }
            }
        } else {
            // distinct codes stay distinct after shifting
            assert(spec_shift_code(last, off) != spec_shift_code(code, off)) by {
                if spec_shift_code(last, off) == spec_shift_code(code, off) {
                    assert(spec_code_byte(last) == spec_code_byte(code));
                    assert(spec_code_mask(last) == spec_code_mask(code));
                    assert(last == code) by (bit_vector)
                        requires
                            (last >> 8) == (code >> 8),
                            (last & 0xFF) as u8 == (code & 0xFF) as u8;
                }
            }
            if spec_key_index(t, code) >= 0 {
                assert(spec_key_index(s, code) == spec_key_index(t, code));
            } else {
                assert(spec_key_index(s, code) == -1) by {
                    let j = spec_key_index(s, code);
                    if j >= 0 {
                        if j < t.len() {
                            assert(s[j] == t[j]);
                        }
                    }
                }
            }
        }
    }
}

// ---------------------------------------------------------------------------
// Copies.

fn copy_pairs(v: &Vec<(u16, u16)>) -> (r: Vec<(u16, u16)>)
    ensures
        r@ == v@,
{
    let mut r: Vec<(u16, u16)> = Vec::new();
    let mut i: usize = 0;
    while i < v.len()
        invariant
            0 <= i <= v.len(),
            r@ == v@.subrange(0, i as int),
        decreases v.len() - i,
    {
        r.push(v[i]);
        i = i + 1;
        assert(r@ =~= v@.subrange(0, i as int));
    }
    assert(r@ =~= v@);
    r
}

fn copy_buttons(v: &Vec<Button>) -> (r: Vec<Button>)
    ensures
        r@ == v@,
{
    let mut r: Vec<Button> = Vec::new();
    let mut i: usize = 0;
    while i < v.len()
        invariant
            0 <= i <= v.len(),
            r@ == v@.subrange(0, i as int),
        decreases v.len() - i,
    {
        r.push(v[i]);
        i = i + 1;
        assert(r@ =~= v@.subrange(0, i as int));
    }
    assert(r@ =~= v@);
    r
}

fn copy_masks(v: &Vec<(u8, Vec<Button>)>) -> (r: Vec<(u8, Vec<Button>)>)
    ensures
        r@.map_values(|e: (u8, Vec<Button>)| (e.0, e.1@)) == v@.map_values(
            |e: (u8, Vec<Button>)| (e.0, e.1@),
        ),
{
    let mut r: Vec<(u8, Vec<Button>)> = Vec::new();
    let mut i: usize = 0;
    while i < v.len()
        invariant
            0 <= i <= v.len(),
            r@.len() == i,
            forall|j: int| 0 <= j < i ==> r@[j].0 == v@[j].0 && r@[j].1@ == v@[j].1@,
        decreases v.len() - i,
    {
        let b = copy_buttons(&v[i].1);
        r.push((v[i].0, b));
        i = i + 1;
    }
    assert(r@.map_values(|e: (u8, Vec<Button>)| (e.0, e.1@)) =~= v@.map_values(
        |e: (u8, Vec<Button>)| (e.0, e.1@),
    ));
    r
}

impl ControllerProfile {
    /// Distinct keys in every table of the profile.
    pub open spec fn wf(&self) -> bool {
        spec_profile_wf(self@)
    }

    /// Whether the profile applies to a device, given the lowercase forms of
    /// the device's product name and of the profile's name.
    pub open spec fn spec_matches_lowered(
        self,
        vid: u16,
        pid: u16,
        conn_type: ConnectionType,
        product_lower: Seq<char>,
        name_lower: Seq<char>,
    ) -> bool {
        if self.connection_type != ConnectionType::Unknown && conn_type != ConnectionType::Unknown
            && self.connection_type != conn_type {
            false
        } else {
            self.vid_pid_pairs@.contains((vid, pid)) || spec_contains(product_lower, name_lower)
        }
    }

    /// Whether the profile applies to a device on a connection.
    pub open spec fn spec_matches(self, device_info: DeviceInfo, conn_type: ConnectionType) -> bool {
        self.spec_matches_lowered(
            device_info.vid,
            device_info.pid,
            conn_type,
            spec_to_lowercase(device_info.product@),
            spec_to_lowercase(self.name@),
        )
    }

    /// Matching once both names are lowercase: the connection types must not
    /// conflict (either being `Unknown` never conflicts), and then either the
    /// VID/PID pair is listed or the product name contains the profile name.
    pub fn matches_lowered(
        &self,
        vid: u16,
        pid: u16,
        conn_type: ConnectionType,
        product_lower: &str,
        name_lower: &str,
    ) -> (r: bool)
        ensures
            r == self.spec_matches_lowered(vid, pid, conn_type, product_lower@, name_lower@),
    {
        if self.connection_type != ConnectionType::Unknown && conn_type != ConnectionType::Unknown
            && self.connection_type != conn_type {
            return false;
        }
        let mut i: usize = 0;
        while i < self.vid_pid_pairs.len()
            invariant
                0 <= i <= self.vid_pid_pairs.len(),
                !(self.connection_type != ConnectionType::Unknown && conn_type
                    != ConnectionType::Unknown && self.connection_type != conn_type),
                forall|j: int| 0 <= j < i ==> self.vid_pid_pairs@[j] != (vid, pid),
            decreases self.vid_pid_pairs.len() - i,
        {
            let (v, p) = self.vid_pid_pairs[i];
            if v == vid && p == pid {
                assert(self.vid_pid_pairs@[i as int] == (vid, pid));
                assert(self.vid_pid_pairs@.contains((vid, pid)));
                return true;
            }
            i = i + 1;
        }
        assert(!self.vid_pid_pairs@.contains((vid, pid)));
        contains(product_lower, name_lower)
    }

    /// Check if this profile matches the given device info and connection type.
    pub fn matches(&self, device_info: &DeviceInfo, conn_type: ConnectionType) -> (r: bool)
        ensures
            r == self.spec_matches(*device_info, conn_type),
    {
        let product_lower = to_lowercase(device_info.product.as_str());
        let name_lower = to_lowercase(self.name.as_str());
        self.matches_lowered(
            device_info.vid,
            device_info.pid,
            conn_type,
            product_lower.as_str(),
            name_lower.as_str(),
        )
    }

    /// Create a new profile for Bluetooth based on a USB profile: the name and
    /// description are marked, and every report byte index is moved
    /// `bt_offset` bytes on.
    pub fn create_bluetooth_variant(&self, bt_offset: usize) -> (r: Self)
        requires
            spec_offset_fits(self@, bt_offset),
        ensures
            r@ == spec_bluetooth_variant(self@, bt_offset),
            self.wf() ==> r.wf(),
    {
        let name = self.name.clone().concat(" (Bluetooth)");
        let description = self.description.clone().concat(" via Bluetooth");
        let vid_pid_pairs = copy_pairs(&self.vid_pid_pairs);

        let mut axis_config: Vec<(Axis, AxisConfig)> = Vec::new();
        let mut i: usize = 0;
        while i < self.axis_config.len()
            invariant
                0 <= i <= self.axis_config.len(),
                spec_offset_fits(self@, bt_offset),
                axis_config@ == spec_shift_axes(self.axis_config@.subrange(0, i as int), bt_offset),
            decreases self.axis_config.len() - i,
        {
            let (axis, config) = self.axis_config[i];
            assert(self@.axis_config[i as int].1.byte_index + bt_offset <= usize::MAX);
            let mut new_config = config;
            new_config.byte_index = config.byte_index + bt_offset;
            axis_config.push((axis, new_config));
            i = i + 1;
            assert(axis_config@ =~= spec_shift_axes(self.axis_config@.subrange(0, i as int), bt_offset));
        }
        assert(self.axis_config@.subrange(0, i as int) =~= self.axis_config@);

        let mut button_map: Vec<(u32, Button)> = Vec::new();
        let mut k: usize = 0;
        while k < self.button_map.len()
            invariant
                0 <= k <= self.button_map.len(),
                spec_offset_fits(self@, bt_offset),
                button_map@ == spec_shift_buttons(self.button_map@.subrange(0, k as int), bt_offset),
            decreases self.button_map.len() - k,
        {
            let (code, button) = self.button_map[k];
            assert((self@.button_map[k as int].0 >> 8) as int + bt_offset <= usize::MAX);
            let new_code = shift_code(code, bt_offset);
            insert_entry(&mut button_map, new_code, button);
            k = k + 1;
            assert(self.button_map@.subrange(0, k as int).drop_last()
                =~= self.button_map@.subrange(0, k - 1));
        }
        assert(self.button_map@.subrange(0, k as int) =~= self.button_map@);

        let dpad_type = match &self.dpad_type {
            DpadType::Hat { byte_index, mask_values } => DpadType::Hat {
                byte_index: *byte_index + bt_offset,
                mask_values: copy_masks(mask_values),
            },
            DpadType::Buttons => DpadType::Buttons,
            DpadType::Axes { x_axis, y_axis } => DpadType::Axes { x_axis: *x_axis, y_axis: *y_axis },
        };

        let r = ControllerProfile {
            name,
            description,
            vid_pid_pairs,
            button_map,
            axis_config,
            dpad_type,
            connection_type: ConnectionType::Bluetooth,
        };
        proof {
            lemma_shift_buttons_distinct(self.button_map@, bt_offset);
            if self.wf() {
                let a = self.axis_config@;
                let b = r.axis_config@;
                assert forall|x: int, y: int| 0 <= x < b.len() && 0 <= y < b.len() && x != y
                    implies b[x].0 != b[y].0 by {
                    assert(b[x].0 == a[x].0 && b[y].0 == a[y].0);
                }
            }
        }
        r
    }
}


// ---------------------------------------------------------------------------
// Known controller profiles.

/// Button layout of a DualShock 4 in USB mode.
pub open spec fn spec_ds4_buttons() -> Seq<(u32, Button)> {
    seq![
        (0x0510u32, Button::Square),
        (0x0520u32, Button::Cross),
        (0x0540u32, Button::Circle),
        (0x0580u32, Button::Triangle),
        (0x0601u32, Button::L1),
        (0x0602u32, Button::R1),
        (0x0604u32, Button::L2),
        (0x0608u32, Button::R2),
        (0x0610u32, Button::Share),
        (0x0620u32, Button::Options),
        (0x0640u32, Button::L3),
        (0x0680u32, Button::R3),
        (0x0701u32, Button::PS),
        (0x0702u32, Button::Touchpad),
    ]
}

/// A stick axis: centered at 128 with range 128.
pub open spec fn spec_stick(byte_index: usize, invert: bool, deadzone_milli: u16) -> AxisConfig {
    AxisConfig { byte_index, center_value: 128, range: 128, invert, deadzone_milli, is_trigger: false }
}

/// A trigger axis: from 0 over the whole byte range.
pub open spec fn spec_trigger(byte_index: usize, deadzone_milli: u16) -> AxisConfig {
    AxisConfig { byte_index, center_value: 0, range: 255, invert: false, deadzone_milli, is_trigger: true }
}

/// Axis layout of a DualShock 4 in USB mode.
pub open spec fn spec_ds4_axes() -> Seq<(Axis, AxisConfig)> {
    seq![
        (Axis::LeftStickX, spec_stick(1, false, 50)),
        (Axis::LeftStickY, spec_stick(2, true, 50)),
        (Axis::RightStickX, spec_stick(3, false, 50)),
        (Axis::RightStickY, spec_stick(4, true, 50)),
        (Axis::L2, spec_trigger(8, 10)),
        (Axis::R2, spec_trigger(9, 10)),
    ]
}

/// The buttons each DualShock 4 hat value holds down.
pub open spec fn spec_ds4_hat_masks() -> Seq<(u8, Seq<Button>)> {
    seq![
        (0u8, seq![Button::DpadUp]),
        (1u8, seq![Button::DpadUp, Button::DpadRight]),
        (2u8, seq![Button::DpadRight]),
        (3u8, seq![Button::DpadDown, Button::DpadRight]),
        (4u8, seq![Button::DpadDown]),
        (5u8, seq![Button::DpadDown, Button::DpadLeft]),
        (6u8, seq![Button::DpadLeft]),
        (7u8, seq![Button::DpadUp, Button::DpadLeft]),
        (8u8, Seq::<Button>::empty()),
    ]
}

/// The DualShock 4 profile shared by both versions and both connections.
pub open spec fn spec_ds4_base() -> ProfileView {
    ProfileView {
        name: "DualShock 4 Base"@,
        description: "Sony PlayStation 4 DualShock Controller Base Profile"@,
        vid_pid_pairs: Seq::empty(),
        button_map: spec_ds4_buttons(),
        axis_config: spec_ds4_axes(),
        dpad_type: DpadView::Hat { byte_index: 5, mask_values: spec_ds4_hat_masks() },
        connection_type: ConnectionType::USB,
    }
}

/// The DualShock 4 profile of a version (1, or any other value for 2) on a connection.
pub open spec fn spec_ds4_profile(version: u8, connection: ConnectionType) -> ProfileView {
    let base = if version == 1 {
        ProfileView {
            name: "DualShock 4 v1"@,
            description: "Sony PlayStation 4 DualShock Controller v1 (CUH-ZCT1)"@,
            vid_pid_pairs: seq![(0x054Cu16, 0x05C4u16)],
            ..spec_ds4_base()
        }
    } else {
        ProfileView {
            name: "DualShock 4 v2"@,
            description: "Sony PlayStation 4 DualShock Controller v2 (CUH-ZCT2)"@,
            vid_pid_pairs: seq![(0x054Cu16, 0x09CCu16)],
            ..spec_ds4_base()
        }
    };
    if connection == ConnectionType::Bluetooth {
        ProfileView { vid_pid_pairs: spec_ds4_bluetooth_ids(version), ..spec_bluetooth_variant(base, 2) }
    } else {
        base
    }
}

/// The vendor and product IDs under which a DualShock 4 of a version (1, or
/// any other value for 2) reports itself over Bluetooth.
pub open spec fn spec_ds4_bluetooth_ids(version: u8) -> Seq<(u16, u16)> {
    if version == 1 {
        seq![(0x054Cu16, 0x05C5u16)]
    } else {
        seq![(0x054Cu16, 0x09C2u16)]
    }
}

/// Button layout of an XInput controller.
pub open spec fn spec_xbox_buttons() -> Seq<(u32, Button)> {
    seq![
        (0x0001u32, Button::DpadUp),
        (0x0002u32, Button::DpadDown),
        (0x0004u32, Button::DpadLeft),
        (0x0008u32, Button::DpadRight),
        (0x0010u32, Button::Options),
        (0x0020u32, Button::Share),
        (0x0040u32, Button::L3),
        (0x0080u32, Button::R3),
        (0x0100u32, Button::L1),
        (0x0200u32, Button::R1),
        (0x0400u32, Button::PS),
        (0x1000u32, Button::Cross),
        (0x2000u32, Button::Circle),
        (0x4000u32, Button::Square),
        (0x8000u32, Button::Triangle),
    ]
}

/// The Xbox controller profile.
pub open spec fn spec_xbox_profile() -> ProfileView {
    ProfileView {
        name: "Xbox Controller"@,
        description: "Microsoft Xbox Controller (XInput compatible)"@,
        vid_pid_pairs: seq![(0x045Eu16, 0x028Eu16), (0x045Eu16, 0x02FFu16)],
        button_map: spec_xbox_buttons(),
        axis_config: Seq::empty(),
        dpad_type: DpadView::Buttons,
        connection_type: ConnectionType::Unknown,
    }
}

/// Button layout assumed for an unknown HID gamepad.
pub open spec fn spec_generic_buttons() -> Seq<(u32, Button)> {
    seq![
        (0x0301u32, Button::Cross),
        (0x0302u32, Button::Circle),
        (0x0304u32, Button::Square),
        (0x0308u32, Button::Triangle),
        (0x0310u32, Button::L1),
        (0x0320u32, Button::R1),
    ]
}

/// The fallback profile for an unknown HID gamepad.
pub open spec fn spec_generic_profile() -> ProfileView {
    ProfileView {
        name: "Generic Controller"@,
        description: "Generic HID Gamepad - Basic Mapping"@,
        vid_pid_pairs: Seq::empty(),
        button_map: spec_generic_buttons(),
        axis_config: seq![
            (Axis::LeftStickX, spec_stick(1, false, 100)),
            (Axis::LeftStickY, spec_stick(2, true, 100)),
        ],
        dpad_type: DpadView::Hat { byte_index: 0, mask_values: Seq::empty() },
        connection_type: ConnectionType::Unknown,
    }
}

fn stick(byte_index: usize, invert: bool, deadzone_milli: u16) -> (c: AxisConfig)
    ensures
        c == spec_stick(byte_index, invert, deadzone_milli),
{
    AxisConfig { byte_index, center_value: 128, range: 128, invert, deadzone_milli, is_trigger: false }
}

fn trigger(byte_index: usize, deadzone_milli: u16) -> (c: AxisConfig)
    ensures
        c == spec_trigger(byte_index, deadzone_milli),
{
    AxisConfig { byte_index, center_value: 0, range: 255, invert: false, deadzone_milli, is_trigger: true }
}

/// The Bluetooth profile of a DualShock 4 is its USB profile with every
/// report byte two bytes further on, known by the Bluetooth product ID.
pub proof fn lemma_ds4_bluetooth_is_variant(version: u8)
    ensures
        spec_ds4_profile(version, ConnectionType::Bluetooth) == (ProfileView {
            vid_pid_pairs: spec_ds4_bluetooth_ids(version),
            ..spec_bluetooth_variant(spec_ds4_profile(version, ConnectionType::USB), 2)
        }),
{
}

/// Profile factory to create controller profiles.
pub struct ProfileFactory;

impl ProfileFactory {
    /// Creates a DualShock 4 profile (v1 when `version` is 1, v2 otherwise)
    /// for the specified connection type; in Bluetooth mode every report
    /// byte sits two bytes further on and the pad is known by its Bluetooth
    /// product ID.
    pub fn create_dualshock4_profile(version: u8, connection: ConnectionType) -> (p: ControllerProfile)
        ensures
            p@ == spec_ds4_profile(version, connection),
            p.wf(),
    {
        let mut base = Self::create_dualshock4_base();
        if version == 1 {
            base.name = string_of("DualShock 4 v1");
            base.description = string_of("Sony PlayStation 4 DualShock Controller v1 (CUH-ZCT1)");
            base.vid_pid_pairs = vec![(0x054C, 0x05C4)];
        } else {
            base.name = string_of("DualShock 4 v2");
            base.description = string_of("Sony PlayStation 4 DualShock Controller v2 (CUH-ZCT2)");
            base.vid_pid_pairs = vec![(0x054C, 0x09CC)];
        }
        assert(base.vid_pid_pairs@ =~= spec_ds4_profile(version, ConnectionType::USB).vid_pid_pairs);
        assert(base@ == spec_ds4_profile(version, ConnectionType::USB));
        if connection == ConnectionType::Bluetooth {
            proof {
                assert(spec_offset_fits(base@, 2)) by {
                    assert forall|i: int| 0 <= i < base@.button_map.len()
                        implies (base@.button_map[i].0 >> 8) as int + 2 <= usize::MAX by {
                        let c = base@.button_map[i].0;
                        assert(c >> 8 <= 0xFF_FFFF) by (bit_vector);
                    }
                }
            }
            let mut bt = base.create_bluetooth_variant(2);
            bt.vid_pid_pairs = if version == 1 {
                vec![(0x054C, 0x05C5)]
            } else {
                vec![(0x054C, 0x09C2)]
            };
            assert(bt.vid_pid_pairs@ =~= spec_ds4_bluetooth_ids(version));
            return bt;
        }
        base
    }

    /// Create the base DualShock 4 profile (shared between v1/v2 and USB/Bluetooth).
    fn create_dualshock4_base() -> (p: ControllerProfile)
        ensures
            p@ == spec_ds4_base(),
            p.wf(),
    {
        let button_map: Vec<(u32, Button)> = vec![
            (0x0510, Button::Square),
            (0x0520, Button::Cross),
            (0x0540, Button::Circle),
            (0x0580, Button::Triangle),
            (0x0601, Button::L1),
            (0x0602, Button::R1),
            (0x0604, Button::L2),
            (0x0608, Button::R2),
            (0x0610, Button::Share),
            (0x0620, Button::Options),
            (0x0640, Button::L3),
            (0x0680, Button::R3),
            (0x0701, Button::PS),
            (0x0702, Button::Touchpad),
        ];
        let axis_config: Vec<(Axis, AxisConfig)> = vec![
            (Axis::LeftStickX, stick(1, false, 50)),
            (Axis::LeftStickY, stick(2, true, 50)),
            (Axis::RightStickX, stick(3, false, 50)),
            (Axis::RightStickY, stick(4, true, 50)),
            (Axis::L2, trigger(8, 10)),
            (Axis::R2, trigger(9, 10)),
        ];
        let m0 = vec![Button::DpadUp];
        let m1 = vec![Button::DpadUp, Button::DpadRight];
        let m2 = vec![Button::DpadRight];
        let m3 = vec![Button::DpadDown, Button::DpadRight];
        let m4 = vec![Button::DpadDown];
        let m5 = vec![Button::DpadDown, Button::DpadLeft];
        let m6 = vec![Button::DpadLeft];
        let m7 = vec![Button::DpadUp, Button::DpadLeft];
        let m8: Vec<Button> = Vec::new();
        assert(m0@ =~= seq![Button::DpadUp]);
        assert(m1@ =~= seq![Button::DpadUp, Button::DpadRight]);
        assert(m2@ =~= seq![Button::DpadRight]);
        assert(m3@ =~= seq![Button::DpadDown, Button::DpadRight]);
        assert(m4@ =~= seq![Button::DpadDown]);
        assert(m5@ =~= seq![Button::DpadDown, Button::DpadLeft]);
        assert(m6@ =~= seq![Button::DpadLeft]);
        assert(m7@ =~= seq![Button::DpadUp, Button::DpadLeft]);
        assert(m8@ =~= Seq::<Button>::empty());
        let mask_values: Vec<(u8, Vec<Button>)> = vec![
            (0, m0),
            (1, m1),
            (2, m2),
            (3, m3),
            (4, m4),
            (5, m5),
            (6, m6),
            (7, m7),
            (8, m8),
        ];
        let p = ControllerProfile {
            name: string_of("DualShock 4 Base"),
            description: string_of("Sony PlayStation 4 DualShock Controller Base Profile"),
            vid_pid_pairs: Vec::new(),
            button_map,
            axis_config,
            dpad_type: DpadType::Hat { byte_index: 5, mask_values },
            connection_type: ConnectionType::USB,
        };
        assert(p.button_map@ =~= spec_ds4_buttons());
        assert(p.axis_config@ =~= spec_ds4_axes());
        assert(p.vid_pid_pairs@ =~= Seq::<(u16, u16)>::empty());
        assert(mask_values@.map_values(|e: (u8, Vec<Button>)| (e.0, e.1@)) =~= spec_ds4_hat_masks());
        assert(spec_keys_distinct(spec_ds4_buttons()));
        assert(spec_keys_distinct(spec_ds4_axes()));
        assert(spec_keys_distinct(spec_ds4_hat_masks()));
        p
    }

    /// Creates an Xbox controller profile (XInput button bits, D-pad as buttons,
    /// any connection).
    pub fn create_xbox_profile() -> (p: ControllerProfile)
        ensures
            p@ == spec_xbox_profile(),
            p.wf(),
    {
        let button_map: Vec<(u32, Button)> = vec![
            (0x0001, Button::DpadUp),
            (0x0002, Button::DpadDown),
            (0x0004, Button::DpadLeft),
            (0x0008, Button::DpadRight),
            (0x0010, Button::Options),
            (0x0020, Button::Share),
            (0x0040, Button::L3),
            (0x0080, Button::R3),
            (0x0100, Button::L1),
            (0x0200, Button::R1),
            (0x0400, Button::PS),
            (0x1000, Button::Cross),
            (0x2000, Button::Circle),
            (0x4000, Button::Square),
            (0x8000, Button::Triangle),
        ];
        let p = ControllerProfile {
            name: string_of("Xbox Controller"),
            description: string_of("Microsoft Xbox Controller (XInput compatible)"),
            vid_pid_pairs: vec![(0x045E, 0x028E), (0x045E, 0x02FF)],
            button_map,
            axis_config: Vec::new(),
            dpad_type: DpadType::Buttons,
            connection_type: ConnectionType::Unknown,
        };
        assert(p.button_map@ =~= spec_xbox_buttons());
        assert(p.vid_pid_pairs@ =~= spec_xbox_profile().vid_pid_pairs);
        assert(p.axis_config@ =~= Seq::<(Axis, AxisConfig)>::empty());
        assert(spec_keys_distinct(spec_xbox_buttons()));
        p
    }

    /// Creates the generic fallback profile: a common HID gamepad layout on
    /// any connection.
    pub fn create_generic_profile() -> (p: ControllerProfile)
        ensures
            p@ == spec_generic_profile(),
            p.wf(),
    {
        let button_map: Vec<(u32, Button)> = vec![
            (0x0301, Button::Cross),
            (0x0302, Button::Circle),
            (0x0304, Button::Square),
            (0x0308, Button::Triangle),
            (0x0310, Button::L1),
            (0x0320, Button::R1),
        ];
        let axis_config: Vec<(Axis, AxisConfig)> = vec![
            (Axis::LeftStickX, stick(1, false, 100)),
            (Axis::LeftStickY, stick(2, true, 100)),
        ];
        let mask_values: Vec<(u8, Vec<Button>)> = Vec::new();
        let p = ControllerProfile {
            name: string_of("Generic Controller"),
            description: string_of("Generic HID Gamepad - Basic Mapping"),
            vid_pid_pairs: Vec::new(),
            button_map,
            axis_config,
            dpad_type: DpadType::Hat { byte_index: 0, mask_values },
            connection_type: ConnectionType::Unknown,
        };
        assert(p.button_map@ =~= spec_generic_buttons());
        assert(p.axis_config@ =~= spec_generic_profile().axis_config);
        assert(p.vid_pid_pairs@ =~= Seq::<(u16, u16)>::empty());
        assert(mask_values@.map_values(|e: (u8, Vec<Button>)| (e.0, e.1@)) =~= Seq::<(u8, Seq<Button>)>::empty());
        assert(spec_keys_distinct(spec_generic_buttons()));
        p
    }
}

/// Convenience function to create the generic profile.
pub fn create_generic_profile() -> (p: ControllerProfile)
    ensures
        p@ == spec_generic_profile(),
        p.wf(),
{
    ProfileFactory::create_generic_profile()
}

/// The profiles of all known controllers, most specific first and the
/// generic fallback last.
pub open spec fn spec_known_profiles() -> Seq<ProfileView> {
    seq![
        spec_ds4_profile(1, ConnectionType::USB),
        spec_ds4_profile(1, ConnectionType::Bluetooth),
        spec_ds4_profile(2, ConnectionType::USB),
        spec_ds4_profile(2, ConnectionType::Bluetooth),
        spec_xbox_profile(),
        spec_generic_profile(),
    ]
}

/// Create profiles for all known controllers.
pub fn create_profiles() -> (r: Vec<ControllerProfile>)
    ensures
        r@.map_values(|p: ControllerProfile| p@) == spec_known_profiles(),
        forall|i: int| 0 <= i < r@.len() ==> #[trigger] r@[i].wf(),
{
    let r = vec![
        ProfileFactory::create_dualshock4_profile(1, ConnectionType::USB),
        ProfileFactory::create_dualshock4_profile(1, ConnectionType::Bluetooth),
        ProfileFactory::create_dualshock4_profile(2, ConnectionType::USB),
        ProfileFactory::create_dualshock4_profile(2, ConnectionType::Bluetooth),
        ProfileFactory::create_xbox_profile(),
        ProfileFactory::create_generic_profile(),
    ];
    assert(r@.map_values(|p: ControllerProfile| p@) =~= spec_known_profiles());
    r
}

/// Connection type named by a (lowercase) product name and the vendor and
/// product IDs: Bluetooth words in the name first, then the known Sony
/// DualShock 4 IDs.
pub open spec fn spec_connection_type_lowered(product_lower: Seq<char>, vid: u16, pid: u16) -> ConnectionType {
    if spec_contains(product_lower, "bluetooth"@) || spec_contains(product_lower, "wireless"@) {
        ConnectionType::Bluetooth
    } else if vid == 0x054C && (pid == 0x05C4 || pid == 0x09CC) {
        ConnectionType::USB
    } else if vid == 0x054C && (pid == 0x05C5 || pid == 0x09C2) {
        ConnectionType::Bluetooth
    } else {
        ConnectionType::Unknown
    }
}

/// Connection type detected for a device.
pub open spec fn spec_connection_type(device_info: DeviceInfo) -> ConnectionType {
    spec_connection_type_lowered(spec_to_lowercase(device_info.product@), device_info.vid, device_info.pid)
}

/// Detect the connection type from an already lowercase product name and the IDs.
pub fn connection_type_lowered(product_lower: &str, vid: u16, pid: u16) -> (c: ConnectionType)
    ensures
        c == spec_connection_type_lowered(product_lower@, vid, pid),
{
    let bt = string_of("bluetooth");
    let wl = string_of("wireless");
    if contains(product_lower, bt.as_str()) || contains(product_lower, wl.as_str()) {
        return ConnectionType::Bluetooth;
    }
    if vid == 0x054C && pid == 0x05C4 {
        return ConnectionType::USB;
    }
    if vid == 0x054C && pid == 0x09CC {
        return ConnectionType::USB;
    }
    if vid == 0x054C && (pid == 0x05C5 || pid == 0x09C2) {
        return ConnectionType::Bluetooth;
    }
    ConnectionType::Unknown
}

/// Detect the connection type for a device based on name and IDs.
pub fn detect_connection_type(device_info: &DeviceInfo) -> (c: ConnectionType)
    ensures
        c == spec_connection_type(*device_info),
{
    let product_lower = to_lowercase(device_info.product.as_str());
    connection_type_lowered(product_lower.as_str(), device_info.vid, device_info.pid)
}

/// The connection type used to pick a profile: the Sony DualShock 4 IDs
/// decide it outright, otherwise it is the detected one.
pub open spec fn spec_detailed_connection(device_info: DeviceInfo) -> ConnectionType {
    if device_info.vid == 0x054C && (device_info.pid == 0x05C5 || device_info.pid == 0x09C2) {
        ConnectionType::Bluetooth
    } else if device_info.vid == 0x054C && (device_info.pid == 0x05C4 || device_info.pid == 0x09CC) {
        ConnectionType::USB
    } else {
        spec_connection_type(device_info)
    }
}

/// Index of the first profile that matches the device on the connection, or -1.
pub open spec fn spec_first_match(
    profiles: Seq<ControllerProfile>,
    device_info: DeviceInfo,
    conn: ConnectionType,
) -> int
    decreases profiles.len(),
{
    if profiles.len() == 0 {
        -1
    } else if profiles[0].spec_matches(device_info, conn) {
        0
    } else {
        let i = spec_first_match(profiles.drop_first(), device_info, conn);
        if i >= 0 { i + 1 } else { -1 }
    }
}

/// Index of the best profile for a device: the first one matching on the
/// detailed connection type, else the first matching on any connection, else
/// the last profile (none when the list is empty).
pub open spec fn spec_profile_index(profiles: Seq<ControllerProfile>, device_info: DeviceInfo) -> Option<int> {
    let i = spec_first_match(profiles, device_info, spec_detailed_connection(device_info));
    let j = spec_first_match(profiles, device_info, ConnectionType::Unknown);
    if i >= 0 {
        Some(i)
    } else if j >= 0 {
        Some(j)
    } else if profiles.len() > 0 {
        Some(profiles.len() - 1)
    } else {
        None
    }
}

proof fn lemma_first_match(profiles: Seq<ControllerProfile>, device_info: DeviceInfo, conn: ConnectionType)
    ensures
        -1 <= spec_first_match(profiles, device_info, conn) < profiles.len(),
        spec_first_match(profiles, device_info, conn) >= 0 ==> profiles[spec_first_match(
            profiles,
            device_info,
            conn,
        )].spec_matches(device_info, conn),
        forall|j: int|
            0 <= j < profiles.len() && (spec_first_match(profiles, device_info, conn) == -1
                || j < spec_first_match(profiles, device_info, conn)) ==> !profiles[j].spec_matches(
                device_info,
                conn,
            ),
    decreases profiles.len(),
{
    if profiles.len() > 0 {
        let t = profiles.drop_first();
        lemma_first_match(t, device_info, conn);
        assert forall|j: int| 0 < j < profiles.len() implies profiles[j] == t[j - 1] by {}
    }
}

fn first_match(profiles: &[ControllerProfile], device_info: &DeviceInfo, conn: ConnectionType) -> (r: Option<usize>)
    ensures
        match r {
            Some(i) => spec_first_match(profiles@, *device_info, conn) == i && i < profiles@.len(),
            None => spec_first_match(profiles@, *device_info, conn) == -1,
        },
{
    proof {
        lemma_first_match(profiles@, *device_info, conn);
    }
    let mut i: usize = 0;
    while i < profiles.len()
        invariant
            0 <= i <= profiles@.len(),
            forall|j: int| 0 <= j < i ==> !profiles@[j].spec_matches(*device_info, conn),
            -1 <= spec_first_match(profiles@, *device_info, conn) < profiles@.len(),
            spec_first_match(profiles@, *device_info, conn) >= 0 ==> profiles@[spec_first_match(
                profiles@,
                *device_info,
                conn,
            )].spec_matches(*device_info, conn),
            forall|j: int|
                0 <= j < profiles@.len() && (spec_first_match(profiles@, *device_info, conn) == -1
                    || j < spec_first_match(profiles@, *device_info, conn))
                    ==> !profiles@[j].spec_matches(*device_info, conn),
        decreases profiles.len() - i,
    {
        if profiles[i].matches(device_info, conn) {
            return Some(i);
        }
        i = i + 1;
    }
    None
}

/// Get the index of the best profile for a specific device.
pub fn profile_index_for_device(device_info: &DeviceInfo, profiles: &[ControllerProfile]) -> (r: Option<usize>)
    ensures
        match r {
            Some(i) => spec_profile_index(profiles@, *device_info) == Some(i as int),
            None => spec_profile_index(profiles@, *device_info) is None,
        },
{
    let connection_type = detect_connection_type(device_info);
    let detailed_connection_type = if device_info.vid == 0x054C {
        match device_info.pid {
            0x05C5 => ConnectionType::Bluetooth,
            0x05C4 => ConnectionType::USB,
            0x09C2 => ConnectionType::Bluetooth,
            0x09CC => ConnectionType::USB,
            _ => connection_type,
        }
    } else {
        connection_type
    };
    assert(detailed_connection_type == spec_detailed_connection(*device_info));
    if let Some(i) = first_match(profiles, device_info, detailed_connection_type) {
        return Some(i);
    }
    if let Some(j) = first_match(profiles, device_info, ConnectionType::Unknown) {
        return Some(j);
    }
    if profiles.len() > 0 {
        Some(profiles.len() - 1)
    } else {
        None
    }
}

/// Get the best profile for a specific device: the first profile matching the
/// detailed connection type, else the first matching any connection, else the
/// last profile in the list.
pub fn get_profile_for_device<'a>(
    device_info: &DeviceInfo,
    profiles: &'a [ControllerProfile],
) -> (r: Option<&'a ControllerProfile>)
    ensures
        match r {
            Some(p) => exists|i: int|
                spec_profile_index(profiles@, *device_info) == Some(i) && *p == profiles@[i],
            None => spec_profile_index(profiles@, *device_info) is None,
        },
{
    match profile_index_for_device(device_info, profiles) {
        Some(i) => {
            proof {
                lemma_first_match(profiles@, *device_info, spec_detailed_connection(*device_info));
                lemma_first_match(profiles@, *device_info, ConnectionType::Unknown);
            }
            Some(&profiles[i])
        },
        None => None,
    }
}

/// A first-version DualShock 4 that reports its Bluetooth product ID gets the
/// Bluetooth profile of the known profiles, whatever its product name; a
/// second-version one does too, unless its product name already holds the
/// name of the first-version Bluetooth profile.
pub proof fn lemma_bluetooth_pad_gets_bluetooth_profile(profiles: Seq<ControllerProfile>, device_info: DeviceInfo)
    requires
        profiles.map_values(|p: ControllerProfile| p@) == spec_known_profiles(),
        device_info.vid == 0x054C,
        device_info.pid == 0x05C5 || (device_info.pid == 0x09C2 && !spec_contains(
            spec_to_lowercase(device_info.product@),
            spec_to_lowercase(spec_ds4_profile(1, ConnectionType::Bluetooth).name),
        )),
    ensures
        spec_profile_index(profiles, device_info) == Some(if device_info.pid == 0x05C5 { 1int } else { 3int }),
{
    let known = spec_known_profiles();
    assert(profiles.len() == 6) by {
        assert(profiles.map_values(|p: ControllerProfile| p@).len() == known.len());
    }
    assert forall|i: int| 0 <= i < 6 implies #[trigger] profiles[i]@ == known[i] by {
        assert(profiles.map_values(|p: ControllerProfile| p@)[i] == profiles[i]@);
    }
    let conn = ConnectionType::Bluetooth;
    assert(spec_detailed_connection(device_info) == conn);
    assert(known[1].vid_pid_pairs == seq![(0x054Cu16, 0x05C5u16)]);
    assert(known[3].vid_pid_pairs == seq![(0x054Cu16, 0x09C2u16)]);
    assert(!profiles[0].spec_matches(device_info, conn));
    assert(!profiles[2].spec_matches(device_info, conn));
    let t1 = profiles.drop_first();
    let t2 = t1.drop_first();
    let t3 = t2.drop_first();
    assert(t1[0] == profiles[1]);
    assert(t2[0] == profiles[2]);
    assert(t3[0] == profiles[3]);
    if device_info.pid == 0x05C5 {
        assert(known[1].vid_pid_pairs[0] == (device_info.vid, device_info.pid));
        assert(profiles[1].spec_matches(device_info, conn));
        assert(spec_first_match(t1, device_info, conn) == 0);
    } else {
        assert(known[1].vid_pid_pairs[0] != (device_info.vid, device_info.pid));
        assert(!profiles[1]@.vid_pid_pairs.contains((device_info.vid, device_info.pid)));
        assert(!profiles[1].spec_matches(device_info, conn));
        assert(known[3].vid_pid_pairs[0] == (device_info.vid, device_info.pid));
        assert(profiles[3].spec_matches(device_info, conn));
        assert(spec_first_match(t3, device_info, conn) == 0);
        assert(spec_first_match(t2, device_info, conn) == 1);
        assert(spec_first_match(t1, device_info, conn) == 2);
    }
}

} // verus!
