use vstd::prelude::*;

verus! {

/// Appends one character to a `String`.
///
/// Trusted: `String::push` appends `c` at the end of the string.
#[verifier::external_body]
pub(crate) fn push_char(s: &mut String, c: char)
    ensures
        final(s)@ == old(s)@.push(c),
{
    s.push(c);
}

/// The characters of `s`, in order.
pub fn chars_of(s: &str) -> (v: Vec<char>)
    ensures
        v@ == s@,
{
    let mut v: Vec<char> = Vec::new();
    for c in it: s.chars()
        invariant
            v@ == it.seq().take(it.index() as int),
    {
        v.push(c);
    }
    v
}

/// A `String` holding the characters `v[from..to]`.
pub fn string_of(v: &Vec<char>, from: usize, to: usize) -> (s: String)
    requires
        from <= to <= v.len(),
    ensures
        s@ == v@.subrange(from as int, to as int),
{
    let mut s = String::new();
    let mut i: usize = from;
    while i < to
        invariant
            from <= i <= to <= v.len(),
            s@ == v@.subrange(from as int, i as int),
        decreases to - i,
    {
        push_char(&mut s, v[i]);
        assert(v@.subrange(from as int, i + 1) == v@.subrange(from as int, i as int).push(
            v@[i as int],
        ));
        i = i + 1;
    }
    s
}


/// The decimal digit character for `d` (`0 <= d < 10`).
pub open spec fn digit_char(d: nat) -> char {
    ((d + 48) as u8) as char
}

/// Decimal representation of a natural number, without leading zeros.
pub open spec fn nat_text(n: nat) -> Seq<char>
    decreases n,
{
    if n < 10 {
        seq![digit_char(n)]
    } else {
        nat_text(n / 10).push(digit_char(n % 10))
    }
}

/// Decimal representation of an integer, with a leading `-` when negative.
pub open spec fn int_text(i: int) -> Seq<char> {
    if i < 0 {
        seq!['-'] + nat_text((-i) as nat)
    } else {
        nat_text(i as nat)
    }
}

/// Appends the decimal digits of `n` to `s`.
pub fn push_u64_text(s: &mut String, n: u64)
    ensures
        final(s)@ == old(s)@ + nat_text(n as nat),
    decreases n,
{
    if n < 10 {
        let c = ((n as u8) + 48u8) as char;
        push_char(s, c);
        assert(old(s)@ + nat_text(n as nat) == old(s)@.push(c));
    } else {
        push_u64_text(s, n / 10);
        let c = (((n % 10) as u8) + 48u8) as char;
        push_char(s, c);
        assert(old(s)@ + nat_text(n as nat) == (old(s)@ + nat_text((n / 10) as nat)).push(c));
    }
}

/// Appends the decimal representation of `i` to `s`.
pub fn push_i64_text(s: &mut String, i: i64)
    ensures
        final(s)@ == old(s)@ + int_text(i as int),
{
    if i < 0 {
        let mag: u64 = ((-(i + 1)) as u64) + 1;
        push_char(s, '-');
        push_u64_text(s, mag);
        assert(old(s)@ + int_text(i as int) == old(s)@.push('-') + nat_text(mag as nat));
    } else {
        push_u64_text(s, i as u64);
    }
}

/// Appends the characters of `t` to `s`.
pub fn push_str(s: &mut String, t: &str)
    ensures
        final(s)@ == old(s)@ + t@,
{
    let v = chars_of(t);
    let mut i: usize = 0;
    while i < v.len()
        invariant
            i <= v.len(),
            v@ == t@,
            s@ == old(s)@ + v@.take(i as int),
        decreases v.len() - i,
    {
        push_char(s, v[i]);
        assert(v@.take(i + 1) == v@.take(i as int).push(v@[i as int]));
        i = i + 1;
    }
    assert(v@.take(v.len() as int) == v@);
}


/// `needle` occurs in `hay` starting at position `i`.
pub open spec fn occurs_at(hay: Seq<char>, needle: Seq<char>, i: int) -> bool {
    0 <= i && i + needle.len() <= hay.len() && hay.subrange(i, i + needle.len()) == needle
}

/// `needle` occurs somewhere in `hay` (the empty needle always does).
pub open spec fn seq_contains(hay: Seq<char>, needle: Seq<char>) -> bool {
    exists|i: int| occurs_at(hay, needle, i)
}

/// Whether `needle` occurs in `hay` at position `i`.
pub(crate) fn matches_at(hay: &Vec<char>, needle: &Vec<char>, i: usize) -> (res: bool)
    requires
        i <= hay.len(),
    ensures
        res == occurs_at(hay@, needle@, i as int),
{
    if needle.len() > hay.len() - i {
        return false;
    }
    let mut j: usize = 0;
    while j < needle.len()
        invariant
            j <= needle.len(),
            i + needle.len() <= hay.len(),
            forall|k: int| 0 <= k < j ==> hay@[i + k] == needle@[k],
        decreases needle.len() - j,
    {
        if hay[i + j] != needle[j] {
            assert(hay@.subrange(i as int, i + needle.len())[j as int] != needle@[j as int]);
            return false;
        }
        j = j + 1;
    }
    assert(hay@.subrange(i as int, i + needle.len()) =~= needle@);
    true
}

/// Whether `needle` occurs in `hay`, over character sequences.
pub fn chars_contain(hay: &Vec<char>, needle: &Vec<char>) -> (res: bool)
    ensures
        res == seq_contains(hay@, needle@),
{
    let mut i: usize = 0;
    while i < hay.len()
        invariant
            i <= hay.len(),
            forall|k: int| 0 <= k < i ==> !occurs_at(hay@, needle@, k),
        decreases hay.len() - i,
    {
        if matches_at(hay, needle, i) {
            return true;
        }
        i = i + 1;
    }
    if matches_at(hay, needle, hay.len()) {
        return true;
    }
    assert forall|k: int| !occurs_at(hay@, needle@, k) by {
        if 0 <= k && k < hay@.len() {
        }
    }
    false
}

/// Whether `needle` occurs in `hay` (as `str::contains` with a string pattern).
pub fn str_contains(hay: &str, needle: &str) -> (res: bool)
    ensures
        res == seq_contains(hay@, needle@),
{
    let h = chars_of(hay);
    let n = chars_of(needle);
    chars_contain(&h, &n)
}

/// `prefix` is a prefix of `s`.
pub open spec fn seq_starts_with(s: Seq<char>, prefix: Seq<char>) -> bool {
    prefix.len() <= s.len() && s.take(prefix.len() as int) == prefix
}

/// The whitespace characters that `str::trim` removes (Unicode `White_Space`).
pub open spec fn is_white(c: char) -> bool {
    ||| '\u{9}' <= c <= '\u{d}'
    ||| c == ' '
    ||| c == '\u{85}'
    ||| c == '\u{a0}'
    ||| c == '\u{1680}'
    ||| '\u{2000}' <= c <= '\u{200a}'
    ||| c == '\u{2028}'
    ||| c == '\u{2029}'
    ||| c == '\u{202f}'
    ||| c == '\u{205f}'
    ||| c == '\u{3000}'
}

/// Whether `c` is a Unicode whitespace character.
pub fn is_white_char(c: char) -> (res: bool)
    ensures
        res == is_white(c),
{
    ('\u{9}' <= c && c <= '\u{d}') || c == ' ' || c == '\u{85}' || c == '\u{a0}' || c
        == '\u{1680}' || ('\u{2000}' <= c && c <= '\u{200a}') || c == '\u{2028}' || c
        == '\u{2029}' || c == '\u{202f}' || c == '\u{205f}' || c == '\u{3000}'
}

/// `s` without its leading whitespace.
pub open spec fn trim_start(s: Seq<char>) -> Seq<char>
    decreases s.len(),
{
    if s.len() > 0 && is_white(s[0]) {
        trim_start(s.drop_first())
    } else {
        s
    }
}

/// `s` without its trailing whitespace.
pub open spec fn trim_end(s: Seq<char>) -> Seq<char>
    decreases s.len(),
{
    if s.len() > 0 && is_white(s.last()) {
        trim_end(s.drop_last())
    } else {
        s
    }
}

/// `s` without leading and trailing whitespace.
pub open spec fn trim(s: Seq<char>) -> Seq<char> {
    trim_end(trim_start(s))
}

/// The end position (exclusive) after dropping trailing whitespace of `s[from..to]`.
fn skip_white_back(s: &Vec<char>, from: usize, to: usize) -> (j: usize)
    requires
        from <= to <= s.len(),
    ensures
        from <= j <= to,
        trim_end(s@.subrange(from as int, to as int)) == s@.subrange(from as int, j as int),
{
    let mut j = to;
    while j > from && is_white_char(s[j - 1])
        invariant
            from <= j <= to <= s.len(),
            trim_end(s@.subrange(from as int, to as int)) == trim_end(
                s@.subrange(from as int, j as int),
            ),
        decreases j,
    {
        assert(s@.subrange(from as int, j as int).drop_last() == s@.subrange(
            from as int,
            j - 1,
        ));
        j = j - 1;
    }
    j
}

/// `s[from..to]` with whitespace trimmed at both ends, as a range `[a, b)` of `s`.
pub fn trim_range(s: &Vec<char>, from: usize, to: usize) -> (r: (usize, usize))
    requires
        from <= to <= s.len(),
    ensures
        from <= r.0 <= r.1 <= to,
        trim(s@.subrange(from as int, to as int)) == s@.subrange(r.0 as int, r.1 as int),
{
    let a = skip_white_sub(s, from, to);
    let b = skip_white_back(s, a, to);
    (a, b)
}

/// The position of the first non-whitespace character of `s[from..to]`
/// (`to` when there is none).
pub(crate) fn skip_white_sub(s: &Vec<char>, from: usize, to: usize) -> (i: usize)
    requires
        from <= to <= s.len(),
    ensures
        from <= i <= to,
        trim_start(s@.subrange(from as int, to as int)) == s@.subrange(i as int, to as int),
{
    let mut i = from;
    while i < to && is_white_char(s[i])
        invariant
            from <= i <= to <= s.len(),
            trim_start(s@.subrange(from as int, to as int)) == trim_start(
                s@.subrange(i as int, to as int),
            ),
        decreases to - i,
    {
        assert(s@.subrange(i as int, to as int).drop_first() == s@.subrange(i + 1, to as int));
        i = i + 1;
    }
    i
}

} // verus!
