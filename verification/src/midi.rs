use vstd::prelude::*;
use crate::text::{contains, spec_contains};

verus! {

/// Status byte of a channel message: the message kind in the high nibble and
/// the channel, reduced to 0-15, in the low nibble.
pub open spec fn spec_status(kind: u8, channel: u8) -> u8 {
    kind | (channel & 0x0F)
}

/// Note message as the mapper sends it: a velocity of zero goes out as a note
/// off (`0x80`), any other velocity as a note on (`0x90`).
pub fn note_message(channel: u8, note: u8, velocity: u8) -> (msg: [u8; 3])
    ensures
        msg@ == seq![
            spec_status(if velocity == 0 { 0x80u8 } else { 0x90u8 }, channel),
            note,
            velocity,
        ],
{
    let ch = channel & 0x0F;
    let status_byte: u8 = if velocity == 0 { 0x80 } else { 0x90 };
    let msg = [status_byte | ch, note, velocity];
    assert(msg@ =~= seq![spec_status(status_byte, channel), note, velocity]);
    msg
}

/// Note-on message (`0x90`), whatever the velocity.
pub fn note_on_message(channel: u8, note: u8, velocity: u8) -> (msg: [u8; 3])
    ensures
        msg@ == seq![spec_status(0x90u8, channel), note, velocity],
{
    let msg = [0x90u8 | (channel & 0x0F), note, velocity];
    assert(msg@ =~= seq![spec_status(0x90u8, channel), note, velocity]);
    msg
}

/// Note-off message (`0x80`) with velocity zero.
pub fn note_off_message(channel: u8, note: u8) -> (msg: [u8; 3])
    ensures
        msg@ == seq![spec_status(0x80u8, channel), note, 0u8],
{
    let msg = [0x80u8 | (channel & 0x0F), note, 0u8];
    assert(msg@ =~= seq![spec_status(0x80u8, channel), note, 0u8]);
    msg
}

/// Control-change message (`0xB0`).
pub fn control_change_message(channel: u8, controller: u8, value: u8) -> (msg: [u8; 3])
    ensures
        msg@ == seq![spec_status(0xB0u8, channel), controller, value],
{
    let msg = [0xB0u8 | (channel & 0x0F), controller, value];
    assert(msg@ =~= seq![spec_status(0xB0u8, channel), controller, value]);
    msg
}

/// Program-change message (`0xC0`), two bytes long.
pub fn program_change_message(channel: u8, program: u8) -> (msg: [u8; 2])
    ensures
        msg@ == seq![spec_status(0xC0u8, channel), program],
{
    let msg = [0xC0u8 | (channel & 0x0F), program];
    assert(msg@ =~= seq![spec_status(0xC0u8, channel), program]);
    msg
}

/// A status byte keeps the message kind in its high nibble and carries the
/// channel modulo 16 in its low nibble, so any channel number gives a valid
/// message of the intended kind.
pub proof fn lemma_status_nibbles(kind: u8, channel: u8)
    requires
        kind & 0x0F == 0,
    ensures
        spec_status(kind, channel) >> 4u8 == kind >> 4u8,
        spec_status(kind, channel) & 0x0F == channel % 16,
        spec_status(kind, channel) >= 0x80 <==> kind >= 0x80,
{
    assert((kind | (channel & 0x0F)) >> 4u8 == kind >> 4u8) by (bit_vector)
        requires kind & 0x0F == 0;
    assert((kind | (channel & 0x0F)) & 0x0F == channel % 16) by (bit_vector)
        requires kind & 0x0F == 0;
    assert((kind | (channel & 0x0F)) >= 0x80 <==> kind >= 0x80) by (bit_vector)
        requires kind & 0x0F == 0;
}

/// Why no output port could be chosen.
#[derive(Debug, Clone, Copy, PartialEq, Eq, Structural)]
pub enum PortError {
    /// No output port exists at all.
    NoPorts,
    /// No port's name contains the wanted text.
    NoMatch,
}

/// A port whose name could be read and contains the wanted text.
pub open spec fn spec_port_matches(name: Option<String>, wanted: Seq<char>) -> bool {
    name matches Some(n) && spec_contains(n@, wanted)
}

/// Chooses the output port to connect to, given the names of the ports in
/// order (`None` where a name could not be read): with no wanted text the
/// first port, otherwise the first whose name contains the wanted text.
pub fn select_output_port(names: &Vec<Option<String>>, wanted: &str) -> (r: Result<usize, PortError>)
    ensures
        wanted@.len() == 0 ==> r == (if names@.len() == 0 { Err(PortError::NoPorts) } else { Ok(0usize) }),
        wanted@.len() > 0 ==> match r {
            Ok(i) => i < names@.len() && spec_port_matches(names@[i as int], wanted@)
                && forall|j: int| 0 <= j < i ==> !spec_port_matches(#[trigger] names@[j], wanted@),
            Err(e) => e == PortError::NoMatch
                && forall|j: int| 0 <= j < names@.len() ==> !spec_port_matches(#[trigger] names@[j], wanted@),
        },
{
    if wanted.unicode_len() == 0 {
        if names.len() == 0 {
            return Err(PortError::NoPorts);
        }
        return Ok(0);
    }
    let mut i: usize = 0;
    while i < names.len()
        invariant
            0 <= i <= names@.len(),
            wanted@.len() > 0,
            forall|j: int| 0 <= j < i ==> !spec_port_matches(#[trigger] names@[j], wanted@),
        decreases names.len() - i,
    {
        let found = match &names[i] {
            Some(n) => contains(n.as_str(), wanted),
            None => false,
        };
        if found {
            return Ok(i);
        }
        i = i + 1;
    }
    Err(PortError::NoMatch)
}

/// The first port, by the names of the ports in order, whose name could be
/// read and contains the wanted text (any readable name contains the empty
/// text); none when there is no such port.
pub fn find_named_port(names: &Vec<Option<String>>, wanted: &str) -> (r: Option<usize>)
    ensures
        match r {
            Some(i) => i < names@.len() && spec_port_matches(names@[i as int], wanted@)
                && forall|j: int| 0 <= j < i ==> !spec_port_matches(#[trigger] names@[j], wanted@),
            None => forall|j: int| 0 <= j < names@.len() ==> !spec_port_matches(#[trigger] names@[j], wanted@),
        },
{
    let mut i: usize = 0;
    while i < names.len()
        invariant
            0 <= i <= names@.len(),
            forall|j: int| 0 <= j < i ==> !spec_port_matches(#[trigger] names@[j], wanted@),
        decreases names.len() - i,
    {
        let found = match &names[i] {
            Some(n) => contains(n.as_str(), wanted),
            None => false,
        };
        if found {
            return Some(i);
        }
        i = i + 1;
    }
    None
}

} // verus!
