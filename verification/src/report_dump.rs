use vstd::prelude::*;
use vstd::string::*;
use crate::text::{push_hex2, spec_hex2};

verus! {

/// The printable ASCII characters other than space, in code order.
pub const GRAPHIC_ASCII: &'static str = "!\"#$%&'()*+,-./0123456789:;<=>?@ABCDEFGHIJKLMNOPQRSTUVWXYZ[\\]^_`abcdefghijklmnopqrstuvwxyz{|}~";

/// A byte that stands for a printable ASCII character other than space.
pub open spec fn spec_graphic(b: u8) -> bool {
    0x21 <= b <= 0x7E
}

/// The character shown for a byte: itself when printable, else a dot.
pub open spec fn spec_shown_char(b: u8) -> char {
    if spec_graphic(b) { b as char } else { '.' }
}

/// The one-character string shown for a byte.
pub fn shown_char(b: u8) -> (r: &'static str)
    ensures
        r@ == seq![spec_shown_char(b)],
{
    proof {
        reveal_strlit("!\"#$%&'()*+,-./0123456789:;<=>?@ABCDEFGHIJKLMNOPQRSTUVWXYZ[\\]^_`abcdefghijklmnopqrstuvwxyz{|}~");
        reveal_strlit(".");
    }
    if b >= 0x21 && b <= 0x7E {
        let i = (b - 0x21) as usize;
        let r = GRAPHIC_ASCII.substring_char(i, i + 1);
        assert(r@ =~= seq![spec_shown_char(b)]);
        r
    } else {
        "."
    }
}

/// Hexadecimal dump of bytes: two uppercase digits and a space per byte.
pub open spec fn spec_hex_bytes(data: Seq<u8>) -> Seq<char>
    decreases data.len(),
{
    if data.len() == 0 {
        Seq::empty()
    } else {
        spec_hex_bytes(data.drop_last()) + spec_hex2(data.last()) + seq![' ']
    }
}

/// Character dump of bytes: the shown character and a space per byte.
pub open spec fn spec_char_bytes(data: Seq<u8>) -> Seq<char>
    decreases data.len(),
{
    if data.len() == 0 {
        Seq::empty()
    } else {
        spec_char_bytes(data.drop_last()) + seq![spec_shown_char(data.last()), ' ']
    }
}

/// The hexadecimal line printed for a report.
pub fn hex_dump_line(data: &[u8]) -> (r: String)
    ensures
        r@ == "HEX : "@ + spec_hex_bytes(data@),
{
    let mut out = String::from_str("HEX : ");
    let ghost head = out@;
    let mut i: usize = 0;
    while i < data.len()
        invariant
            0 <= i <= data@.len(),
            head == "HEX : "@,
            out@ == head + spec_hex_bytes(data@.subrange(0, i as int)),
        decreases data.len() - i,
    {
        push_hex2(&mut out, data[i]);
        out.append(" ");
        proof {
            reveal_strlit(" ");
            let pre = data@.subrange(0, i + 1);
            assert(pre.drop_last() =~= data@.subrange(0, i as int));
            assert(out@ =~= head + spec_hex_bytes(pre));
        }
        i = i + 1;
    }
    assert(data@.subrange(0, i as int) =~= data@);
    out
}

/// The character line printed for a report.
pub fn ascii_dump_line(data: &[u8]) -> (r: String)
    ensures
        r@ == "ASCII: "@ + spec_char_bytes(data@),
{
    let mut out = String::from_str("ASCII: ");
    let ghost head = out@;
    let mut i: usize = 0;
    while i < data.len()
        invariant
            0 <= i <= data@.len(),
            head == "ASCII: "@,
            out@ == head + spec_char_bytes(data@.subrange(0, i as int)),
        decreases data.len() - i,
    {
        out.append(shown_char(data[i]));
        out.append(" ");
        proof {
            reveal_strlit(" ");
            let pre = data@.subrange(0, i + 1);
            assert(pre.drop_last() =~= data@.subrange(0, i as int));
            assert(out@ =~= head + spec_char_bytes(pre));
        }
        i = i + 1;
    }
    assert(data@.subrange(0, i as int) =~= data@);
    out
}

} // verus!
