use vstd::prelude::*;
use vstd::string::*;

verus! {

/// Name for the string that `str::to_lowercase` returns for a given string:
/// every character replaced by its Unicode lowercase mapping.
pub uninterp spec fn spec_to_lowercase(s: Seq<char>) -> Seq<char>;

/// Calls `str::to_lowercase`: the result is the named lowercase form of the
/// argument. Nothing is claimed about which characters it holds.
#[verifier::external_body]
pub fn to_lowercase(s: &str) -> (r: String)
    ensures
        r@ == spec_to_lowercase(s@),
{
    s.to_lowercase()
}

/// `needle` occurs in `hay` at position `i`.
pub open spec fn spec_occurs_at(hay: Seq<char>, needle: Seq<char>, i: int) -> bool {
    &&& 0 <= i
    &&& i + needle.len() <= hay.len()
    &&& hay.subrange(i, i + needle.len()) == needle
}

/// `needle` occurs somewhere in `hay` (the empty needle occurs everywhere).
pub open spec fn spec_contains(hay: Seq<char>, needle: Seq<char>) -> bool {
    exists|i: int| spec_occurs_at(hay, needle, i)
}

/// The characters of a string, one by one.
pub fn chars_of(s: &str) -> (r: Vec<char>)
    ensures
        r@ == s@,
{
    let n = s.unicode_len();
    let mut out: Vec<char> = Vec::new();
    let mut i: usize = 0;
    while i < n
        invariant
            n == s@.len(),
            0 <= i <= n,
            out@ == s@.subrange(0, i as int),
        decreases n - i,
    {
        let c = s.get_char(i);
        out.push(c);
        i = i + 1;
        assert(out@ =~= s@.subrange(0, i as int));
    }
    assert(out@ =~= s@);
    out
}

/// Whether `needle` occurs in `hay` starting at index `i`.
pub fn occurs_at(hay: &Vec<char>, needle: &Vec<char>, i: usize) -> (r: bool)
    ensures
        r == spec_occurs_at(hay@, needle@, i as int),
{
    if i > hay.len() || needle.len() > hay.len() - i {
        return false;
    }
    let mut k: usize = 0;
    while k < needle.len()
        invariant
            i + needle.len() <= hay.len(),
            0 <= k <= needle.len(),
            forall|j: int| 0 <= j < k ==> hay@[i + j] == needle@[j],
        decreases needle.len() - k,
    {
        if hay[i + k] != needle[k] {
            assert(hay@.subrange(i as int, i + needle.len())[k as int] != needle@[k as int]);
            return false;
        }
        k = k + 1;
    }
    assert(hay@.subrange(i as int, i + needle.len()) =~= needle@);
    true
}

/// Whether `needle` occurs anywhere in `hay`, over character sequences.
pub fn contains_chars(hay: &Vec<char>, needle: &Vec<char>) -> (r: bool)
    ensures
        r == spec_contains(hay@, needle@),
{
    if needle.len() > hay.len() {
        assert forall|i: int| !spec_occurs_at(hay@, needle@, i) by {}
        return false;
    }
    let last = hay.len() - needle.len();
    let mut i: usize = 0;
    while i < last
        invariant
            last == hay.len() - needle.len(),
            needle.len() <= hay.len(),
            0 <= i <= last,
            forall|j: int| 0 <= j < i ==> !spec_occurs_at(hay@, needle@, j),
        decreases last - i,
    {
        if occurs_at(hay, needle, i) {
            return true;
        }
        i = i + 1;
    }
    if occurs_at(hay, needle, last) {
        return true;
    }
    assert forall|j: int| !spec_occurs_at(hay@, needle@, j) by {
        if 0 <= j < i {
        }
    }
    false
}

/// Whether `needle` occurs anywhere in `hay`.
pub fn contains(hay: &str, needle: &str) -> (r: bool)
    ensures
        r == spec_contains(hay@, needle@),
{
    let h = chars_of(hay);
    let n = chars_of(needle);
    contains_chars(&h, &n)
}

/// Whether two strings hold the same characters.
pub fn str_eq(a: &str, b: &str) -> (r: bool)
    ensures
        r == (a@ == b@),
{
    let x = chars_of(a);
    let y = chars_of(b);
    if x.len() != y.len() {
        return false;
    }
    let mut i: usize = 0;
    while i < x.len()
        invariant
            x@ == a@,
            y@ == b@,
            x.len() == y.len(),
            0 <= i <= x.len(),
            forall|j: int| 0 <= j < i ==> x@[j] == y@[j],
        decreases x.len() - i,
    {
        if x[i] != y[i] {
            assert(a@[i as int] != b@[i as int]);
            return false;
        }
        i = i + 1;
    }
    assert(x@ =~= y@);
    true
}

/// A string from a literal or another string slice.
pub fn string_of(s: &str) -> (r: String)
    ensures
        r@ == s@,
{
    String::from_str(s)
}


/// Uppercase hexadecimal digit of a value below 16.
pub open spec fn spec_hex_digit(d: int) -> char {
    if d < 10 { ('0' as int + d) as char } else { ('A' as int + d - 10) as char }
}

/// Uppercase hexadecimal form of a number, without leading zeros.
pub open spec fn spec_hex_upper(n: nat) -> Seq<char>
    decreases n,
{
    if n < 16 {
        seq![spec_hex_digit(n as int)]
    } else {
        spec_hex_upper(n / 16).push(spec_hex_digit((n % 16) as int))
    }
}

/// Two-digit uppercase hexadecimal form of a byte.
pub open spec fn spec_hex2(b: u8) -> Seq<char> {
    seq![spec_hex_digit(b as int / 16), spec_hex_digit(b as int % 16)]
}

/// The one-character string of a hexadecimal digit.
pub fn hex_digit_str(d: u32) -> (r: &'static str)
    requires
        d < 16,
    ensures
        r@ == seq![spec_hex_digit(d as int)],
{
    proof {
        reveal_strlit("0");
        reveal_strlit("1");
        reveal_strlit("2");
        reveal_strlit("3");
        reveal_strlit("4");
        reveal_strlit("5");
        reveal_strlit("6");
        reveal_strlit("7");
        reveal_strlit("8");
        reveal_strlit("9");
        reveal_strlit("A");
        reveal_strlit("B");
        reveal_strlit("C");
        reveal_strlit("D");
        reveal_strlit("E");
        reveal_strlit("F");
    }
    let r = match d {
        0 => "0",
        1 => "1",
        2 => "2",
        3 => "3",
        4 => "4",
        5 => "5",
        6 => "6",
        7 => "7",
        8 => "8",
        9 => "9",
        10 => "A",
        11 => "B",
        12 => "C",
        13 => "D",
        14 => "E",
        _ => "F",
    };
    assert(r@ =~= seq![spec_hex_digit(d as int)]);
    r
}

/// Appends the uppercase hexadecimal form of `n`.
pub fn push_hex_upper(out: &mut String, n: u32)
    ensures
        final(out)@ == old(out)@ + spec_hex_upper(n as nat),
    decreases n,
{
    if n >= 16 {
        push_hex_upper(out, n / 16);
    }
    out.append(hex_digit_str(n % 16));
    assert(out@ =~= old(out)@ + spec_hex_upper(n as nat));
}

/// Appends the two-digit uppercase hexadecimal form of a byte.
pub fn push_hex2(out: &mut String, b: u8)
    ensures
        final(out)@ == old(out)@ + spec_hex2(b),
{
    out.append(hex_digit_str((b / 16) as u32));
    out.append(hex_digit_str((b % 16) as u32));
    assert(out@ =~= old(out)@ + spec_hex2(b));
}

/// Decimal form of a number, without leading zeros.
pub open spec fn spec_decimal(n: nat) -> Seq<char>
    decreases n,
{
    if n < 10 {
        seq![spec_hex_digit(n as int)]
    } else {
        spec_decimal(n / 10).push(spec_hex_digit((n % 10) as int))
    }
}

/// Appends the decimal form of `n`.
pub fn push_decimal(out: &mut String, n: u64)
    ensures
        final(out)@ == old(out)@ + spec_decimal(n as nat),
    decreases n,
{
    if n >= 10 {
        push_decimal(out, n / 10);
    }
    out.append(hex_digit_str((n % 10) as u32));
    assert(out@ =~= old(out)@ + spec_decimal(n as nat));
}

/// Characters with the Unicode White_Space property.
pub open spec fn spec_is_whitespace(c: char) -> bool {
    let v = c as u32;
    (0x09 <= v <= 0x0D) || v == 0x20 || v == 0x85 || v == 0xA0 || v == 0x1680
        || (0x2000 <= v <= 0x200A) || v == 0x2028 || v == 0x2029 || v == 0x202F
        || v == 0x205F || v == 0x3000
}

/// Whether a character has the Unicode White_Space property.
pub fn is_whitespace(c: char) -> (r: bool)
    ensures
        r == spec_is_whitespace(c),
{
    let v = c as u32;
    (0x09 <= v && v <= 0x0D) || v == 0x20 || v == 0x85 || v == 0xA0 || v == 0x1680
        || (0x2000 <= v && v <= 0x200A) || v == 0x2028 || v == 0x2029 || v == 0x202F
        || v == 0x205F || v == 0x3000
}

/// A string without its leading whitespace.
pub open spec fn spec_trim_start(s: Seq<char>) -> Seq<char>
    decreases s.len(),
{
    if s.len() > 0 && spec_is_whitespace(s[0]) {
        spec_trim_start(s.subrange(1, s.len() as int))
    } else {
        s
    }
}

/// A string without its trailing whitespace.
pub open spec fn spec_trim_end(s: Seq<char>) -> Seq<char>
    decreases s.len(),
{
    if s.len() > 0 && spec_is_whitespace(s.last()) {
        spec_trim_end(s.drop_last())
    } else {
        s
    }
}

/// A string without its leading and trailing whitespace.
pub open spec fn spec_trim(s: Seq<char>) -> Seq<char> {
    spec_trim_end(spec_trim_start(s))
}

/// A string without its leading and trailing whitespace.
pub fn trim(s: &str) -> (r: String)
    ensures
        r@ == spec_trim(s@),
{
    let n = s.unicode_len();
    let mut a: usize = 0;
    assert(s@.subrange(0, n as int) =~= s@);
    while a < n && is_whitespace(s.get_char(a))
        invariant
            n == s@.len(),
            0 <= a <= n,
            spec_trim_start(s@) == spec_trim_start(s@.subrange(a as int, n as int)),
        decreases n - a,
    {
        let ghost t = s@.subrange(a as int, n as int);
        assert(t.subrange(1, t.len() as int) =~= s@.subrange(a + 1, n as int));
        a = a + 1;
    }
    let ghost start = s@.subrange(a as int, n as int);
    assert(spec_trim_start(start) == start);
    let mut b: usize = n;
    while b > a && is_whitespace(s.get_char(b - 1))
        invariant
            n == s@.len(),
            0 <= a <= b <= n,
            start == s@.subrange(a as int, n as int),
            spec_trim_end(start) == spec_trim_end(s@.subrange(a as int, b as int)),
        decreases b - a,
    {
        let ghost t = s@.subrange(a as int, b as int);
        assert(t.drop_last() =~= s@.subrange(a as int, b - 1));
        b = b - 1;
    }
    let ghost t = s@.subrange(a as int, b as int);
    assert(spec_trim_end(t) == t);
    let r = s.substring_char(a, b);
    String::from_str(r)
}

/// `s` with every non-overlapping occurrence of `pat`, from left to right,
/// replaced by `with`.
pub open spec fn spec_replace(s: Seq<char>, pat: Seq<char>, with: Seq<char>) -> Seq<char>
    decreases s.len(),
{
    if s.len() == 0 {
        Seq::empty()
    } else if pat.len() > 0 && pat.len() <= s.len() && s.subrange(0, pat.len() as int) == pat {
        with + spec_replace(s.subrange(pat.len() as int, s.len() as int), pat, with)
    } else {
        seq![s[0]] + spec_replace(s.subrange(1, s.len() as int), pat, with)
    }
}

/// Replaces every occurrence of a non-empty pattern, from left to right.
pub fn replace_all(s: &str, pat: &str, with: &str) -> (r: String)
    requires
        pat@.len() > 0,
    ensures
        r@ == spec_replace(s@, pat@, with@),
{
    let h = chars_of(s);
    let p = chars_of(pat);
    let n = h.len();
    let mut out = String::new();
    let mut seg: usize = 0;
    let mut i: usize = 0;
    assert(s@.subrange(0, n as int) =~= s@);
    assert(out@ + s@.subrange(0, 0) + s@ =~= s@);
    while i < n
        invariant
            h@ == s@,
            p@ == pat@,
            p@.len() > 0,
            n == s@.len(),
            0 <= seg <= i <= n,
            out@ + s@.subrange(seg as int, i as int) + spec_replace(s@.subrange(i as int, n as int), pat@, with@)
                == spec_replace(s@, pat@, with@),
        decreases n - i,
    {
        let ghost rest = s@.subrange(i as int, n as int);
        if occurs_at(&h, &p, i) {
            assert(rest.subrange(0, pat@.len() as int) =~= s@.subrange(i as int, i + pat@.len()));
            assert(rest.subrange(pat@.len() as int, rest.len() as int) =~= s@.subrange(i + pat@.len(), n as int));
            let piece = s.substring_char(seg, i);
            out.append(piece);
            out.append(with);
            i = i + p.len();
            seg = i;
            assert(s@.subrange(seg as int, i as int) =~= Seq::<char>::empty());
        } else {
            assert(!(pat@.len() <= rest.len() && rest.subrange(0, pat@.len() as int) == pat@)) by {
                if pat@.len() <= rest.len() && rest.subrange(0, pat@.len() as int) == pat@ {
                    assert(s@.subrange(i as int, i + pat@.len()) =~= rest.subrange(0, pat@.len() as int));
                }
            }
            assert(rest.subrange(1, rest.len() as int) =~= s@.subrange(i + 1, n as int));
            assert(s@.subrange(seg as int, i + 1) =~= s@.subrange(seg as int, i as int) + seq![s@[i as int]]);
            i = i + 1;
        }
    }
    let piece = s.substring_char(seg, n);
    out.append(piece);
    assert(s@.subrange(n as int, n as int) =~= Seq::<char>::empty());
    out
}

/// The pieces of `s` between line feeds, the first of them continuing `cur`.
pub open spec fn spec_lines_from(s: Seq<char>, cur: Seq<char>) -> Seq<Seq<char>>
    decreases s.len(),
{
    if s.len() == 0 {
        seq![cur]
    } else if s[0] == '\n' {
        seq![cur] + spec_lines_from(s.subrange(1, s.len() as int), Seq::empty())
    } else {
        spec_lines_from(s.subrange(1, s.len() as int), cur.push(s[0]))
    }
}

/// Each piece trimmed, keeping the pieces that are not empty then.
pub open spec fn spec_keep_trimmed(pieces: Seq<Seq<char>>) -> Seq<Seq<char>>
    decreases pieces.len(),
{
    if pieces.len() == 0 {
        Seq::empty()
    } else {
        let t = spec_trim(pieces[0]);
        (if t.len() > 0 { seq![t] } else { Seq::empty() })
            + spec_keep_trimmed(pieces.subrange(1, pieces.len() as int))
    }
}

/// The trimmed non-empty lines of a text.
pub open spec fn spec_nonempty_lines(s: Seq<char>) -> Seq<Seq<char>> {
    spec_keep_trimmed(spec_lines_from(s, Seq::empty()))
}

/// Every piece kept is non-empty.
pub proof fn lemma_kept_nonempty(pieces: Seq<Seq<char>>)
    ensures
        forall|k: int| 0 <= k < spec_keep_trimmed(pieces).len() ==> #[trigger] spec_keep_trimmed(pieces)[k].len() > 0,
    decreases pieces.len(),
{
    if pieces.len() > 0 {
        let rest = pieces.subrange(1, pieces.len() as int);
        lemma_kept_nonempty(rest);
        let t = spec_trim(pieces[0]);
        let head: Seq<Seq<char>> = if t.len() > 0 { seq![t] } else { Seq::empty() };
        assert forall|k: int| 0 <= k < spec_keep_trimmed(pieces).len() implies #[trigger] spec_keep_trimmed(pieces)[k].len() > 0 by {
            if k >= head.len() {
                assert(spec_keep_trimmed(pieces)[k] == spec_keep_trimmed(rest)[k - head.len()]);
            }
        }
    }
}

proof fn lemma_keep_first(cur: Seq<char>, rest: Seq<Seq<char>>)
    ensures
        spec_keep_trimmed(seq![cur] + rest) == (if spec_trim(cur).len() > 0 { seq![spec_trim(cur)] } else {
            Seq::<Seq<char>>::empty()
        }) + spec_keep_trimmed(rest),
{
    let all = seq![cur] + rest;
    assert(all.subrange(1, all.len() as int) =~= rest);
}

/// The lines of a text, each trimmed of surrounding whitespace, without
/// those left empty (a carriage return before a line feed is whitespace).
pub fn nonempty_trimmed_lines(s: &str) -> (r: Vec<String>)
    ensures
        r@.len() == spec_nonempty_lines(s@).len(),
        forall|k: int| 0 <= k < r@.len() ==> #[trigger] r@[k]@ == spec_nonempty_lines(s@)[k],
        forall|k: int| 0 <= k < r@.len() ==> (#[trigger] r@[k])@.len() > 0,
{
    proof {
        lemma_kept_nonempty(spec_lines_from(s@, Seq::empty()));
    }
    let n = s.unicode_len();
    let mut out: Vec<String> = Vec::new();
    let ghost mut views: Seq<Seq<char>> = Seq::empty();
    let mut seg: usize = 0;
    let mut i: usize = 0;
    assert(s@.subrange(0, n as int) =~= s@);
    assert(s@.subrange(0, 0) =~= Seq::<char>::empty());
    while i < n
        invariant
            n == s@.len(),
            0 <= seg <= i <= n,
            out@.len() == views.len(),
            forall|k: int| 0 <= k < out@.len() ==> #[trigger] out@[k]@ == views[k],
            views + spec_keep_trimmed(spec_lines_from(s@.subrange(i as int, n as int), s@.subrange(seg as int, i as int)))
                == spec_nonempty_lines(s@),
        decreases n - i,
    {
        let ghost rest = s@.subrange(i as int, n as int);
        let ghost cur = s@.subrange(seg as int, i as int);
        assert(rest.subrange(1, rest.len() as int) =~= s@.subrange(i + 1, n as int));
        let c = s.get_char(i);
        if c == '\n' {
            let piece = s.substring_char(seg, i);
            let t = trim(piece);
            proof {
                lemma_keep_first(cur, spec_lines_from(s@.subrange(i + 1, n as int), Seq::empty()));
            }
            if t.unicode_len() > 0 {
                proof {
                    views = views.push(t@);
                }
                out.push(t);
            }
            i = i + 1;
            seg = i;
            assert(s@.subrange(seg as int, i as int) =~= Seq::<char>::empty());
            assert(views + spec_keep_trimmed(spec_lines_from(s@.subrange(i as int, n as int), s@.subrange(seg as int, i as int)))
                =~= spec_nonempty_lines(s@));
        } else {
            assert(cur.push(c) =~= s@.subrange(seg as int, i + 1));
            i = i + 1;
        }
    }
    let piece = s.substring_char(seg, n);
    let t = trim(piece);
    proof {
        let cur = s@.subrange(seg as int, n as int);
        assert(s@.subrange(n as int, n as int) =~= Seq::<char>::empty());
        lemma_keep_first(cur, Seq::empty());
        assert(spec_keep_trimmed(Seq::<Seq<char>>::empty()) =~= Seq::<Seq<char>>::empty());
        assert(seq![cur] + Seq::<Seq<char>>::empty() =~= seq![cur]);
    }
    if t.unicode_len() > 0 {
        proof {
            views = views.push(t@);
        }
        out.push(t);
    }
    proof {
        assert(views =~= spec_nonempty_lines(s@));
        assert forall|k: int| 0 <= k < out@.len() implies (#[trigger] out@[k])@.len() > 0 by {
            assert(out@[k]@ == spec_nonempty_lines(s@)[k]);
        }
    }
    out
}

} // verus!
