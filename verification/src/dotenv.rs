use vstd::prelude::*;

use crate::strmap::StrMap;
use crate::text::{
    chars_of, matches_at, nat_text, push_str, push_u64_text, seq_starts_with, skip_white_sub,
    string_of, trim, trim_range, trim_start,
};

verus! {

/// Values read from a `.env` file (or from the environment), by key.
pub type EnvMap = StrMap<String>;

/// `v` without one pair of matching surrounding quotes (`"…"` or `'…'`).
pub open spec fn unquote(v: Seq<char>) -> Seq<char> {
    if v.len() >= 2 && ((v[0] == '"' && v.last() == '"') || (v[0] == '\'' && v.last() == '\'')) {
        v.subrange(1, v.len() - 1)
    } else {
        v
    }
}

/// `p` is the first position of `c` in `u`.
pub open spec fn is_first(u: Seq<char>, c: char, p: int) -> bool {
    0 <= p < u.len() && u[p] == c && forall|q: int| 0 <= q < p ==> u[q] != c
}

/// What one line of a `.env` file says.
pub enum DotenvLine {
    /// Empty or a comment.
    Blank,
    /// Not of the form `KEY=VALUE`.
    Malformed,
    /// An assignment of a value to a key.
    Assign(Seq<char>, Seq<char>),
}

/// `u` after an optional leading `export ` and the whitespace behind it.
pub open spec fn without_export(t: Seq<char>) -> Seq<char> {
    if seq_starts_with(t, "export "@) {
        trim_start(t.skip("export "@.len() as int))
    } else {
        t
    }
}

/// The meaning of one raw line: blank lines and `#` comments say nothing; a
/// line (after an optional `export `) splits at its first `=` into a trimmed
/// key and a trimmed, unquoted value; any other line is malformed.
pub open spec fn line_meaning(raw: Seq<char>) -> DotenvLine {
    let t = trim(raw);
    if t.len() == 0 || t[0] == '#' {
        DotenvLine::Blank
    } else {
        let u = without_export(t);
        if exists|p: int| is_first(u, '=', p) {
            let p = choose|p: int| is_first(u, '=', p);
            DotenvLine::Assign(trim(u.take(p)), unquote(trim(u.skip(p + 1))))
        } else {
            DotenvLine::Malformed
        }
    }
}

/// The lines of `s`: the pieces between `\n` characters (a `\r` before the
/// `\n` stays in the piece; it is whitespace and trimming drops it).
pub open spec fn lines_of(s: Seq<char>) -> Seq<Seq<char>>
    decreases s.len(),
{
    if s.len() == 0 {
        seq![Seq::empty()]
    } else if s.last() == '\n' {
        lines_of(s.drop_last()).push(Seq::empty())
    } else {
        let ls = lines_of(s.drop_last());
        ls.update(ls.len() - 1, ls.last().push(s.last()))
    }
}

/// The assignments of a sequence of lines, or the 1-based number of the
/// first malformed line.
pub open spec fn parse_lines(ls: Seq<Seq<char>>) -> Result<Map<Seq<char>, Seq<char>>, nat>
    decreases ls.len(),
{
    if ls.len() == 0 {
        Ok(Map::empty())
    } else {
        match parse_lines(ls.drop_last()) {
            Err(n) => Err(n),
            Ok(m) => match line_meaning(ls.last()) {
                DotenvLine::Blank => Ok(m),
                DotenvLine::Malformed => Err(ls.len()),
                DotenvLine::Assign(k, v) => Ok(m.insert(k, v)),
            },
        }
    }
}

/// The message for a malformed line.
pub open spec fn malformed_text(n: nat) -> Seq<char> {
    "line "@ + nat_text(n) + " is not KEY=VALUE"@
}

/// `m` holds exactly the keys of `t`, each with the text `t` gives it.
pub open spec fn same_text(m: Map<Seq<char>, String>, t: Map<Seq<char>, Seq<char>>) -> bool {
    &&& forall|k: Seq<char>| #[trigger] m.dom().contains(k) <==> t.dom().contains(k)
    &&& forall|k: Seq<char>| #[trigger] m.dom().contains(k) ==> m[k]@ == t[k]
}

/// A classified line, as executable values.
enum LineParse {
    Blank,
    Malformed,
    Assign(String, String),
}

/// Strips one pair of matching quotes from `v[a..b]`, as a range.
fn unquote_range(v: &Vec<char>, a: usize, b: usize) -> (r: (usize, usize))
    requires
        a <= b <= v.len(),
    ensures
        a <= r.0 <= r.1 <= b,
        v@.subrange(r.0 as int, r.1 as int) == unquote(v@.subrange(a as int, b as int)),
{
    if b - a >= 2 && ((v[a] == '"' && v[b - 1] == '"') || (v[a] == '\'' && v[b - 1] == '\'')) {
        assert(v@.subrange(a + 1, b - 1) == v@.subrange(a as int, b as int).subrange(
            1,
            b - a - 1,
        ));
        (a + 1, b - 1)
    } else {
        (a, b)
    }
}

/// Removes one pair of matching surrounding quotes (`"…"` or `'…'`).
pub fn unquote_env_value(value: &str) -> (res: String)
    ensures
        res@ == unquote(value@),
{
    let v = chars_of(value);
    let (a, b) = unquote_range(&v, 0, v.len());
    assert(v@.subrange(0, v@.len() as int) == v@);
    string_of(&v, a, b)
}

/// Classifies the line `v[from..to]`.
fn parse_line(v: &Vec<char>, from: usize, to: usize) -> (res: LineParse)
    requires
        from <= to <= v.len(),
    ensures
        match line_meaning(v@.subrange(from as int, to as int)) {
            DotenvLine::Blank => res is Blank,
            DotenvLine::Malformed => res is Malformed,
            DotenvLine::Assign(k, x) => res matches LineParse::Assign(rk, rx) && rk@ == k
                && rx@ == x,
        },
{
    let ghost raw = v@.subrange(from as int, to as int);
    let (a, b) = trim_range(v, from, to);
    let ghost t = v@.subrange(a as int, b as int);
    assert(t == trim(raw));
    if a == b || v[a] == '#' {
        return LineParse::Blank;
    }
    let prefix = chars_of("export ");
    let exported = matches_at(v, &prefix, a) && a + prefix.len() <= b;
    proof {
        if a + prefix@.len() <= b {
            assert(t.take(prefix@.len() as int) == v@.subrange(a as int, a + prefix@.len()));
        }
        assert(exported == seq_starts_with(t, "export "@));
    }
    let c = if exported {
        let c = skip_white_sub(v, a + prefix.len(), b);
        assert(t.skip(prefix@.len() as int) == v@.subrange(a + prefix@.len(), b as int));
        c
    } else {
        a
    };
    let ghost u = v@.subrange(c as int, b as int);
    assert(u == without_export(t));
    let mut p = c;
    while p < b && v[p] != '='
        invariant
            c <= p <= b <= v.len(),
            u == v@.subrange(c as int, b as int),
            forall|q: int| 0 <= q < p - c ==> u[q] != '=',
        decreases b - p,
    {
        p = p + 1;
    }
    if p == b {
        assert forall|x: int| !is_first(u, '=', x) by {
            if 0 <= x < u.len() {
                assert(u[x] != '=');
            }
        }
        return LineParse::Malformed;
    }
    let ghost pos = (p - c) as int;
    assert(is_first(u, '=', pos));
    proof {
        let other = choose|x: int| is_first(u, '=', x);
        assert(is_first(u, '=', other));
        if other < pos {
            assert(u[other] != '=');
        }
        if pos < other {
            assert(u[pos] != '=');
        }
        assert(other == pos);
    }
    let (ka, kb) = trim_range(v, c, p);
    assert(u.take(pos) == v@.subrange(c as int, p as int));
    let (va, vb) = trim_range(v, p + 1, b);
    assert(u.skip(pos + 1) == v@.subrange(p + 1, b as int));
    let (qa, qb) = unquote_range(v, va, vb);
    let key = string_of(v, ka, kb);
    let value = string_of(v, qa, qb);
    LineParse::Assign(key, value)
}

/// Parses `.env` text: one `KEY=VALUE` per line, optionally prefixed by
/// `export `, values optionally quoted; blank lines and `#` comments are
/// ignored; a later assignment of a key overrides an earlier one. Fails on
/// the first line that is none of these, naming its 1-based number.
pub fn parse_dotenv(raw: &str) -> (res: Result<EnvMap, String>)
    ensures
        res is Ok <==> parse_lines(lines_of(raw@)) is Ok,
        res matches Ok(m) ==> same_text(m@, parse_lines(lines_of(raw@))->Ok_0),
        res matches Err(e) ==> e@ == malformed_text(parse_lines(lines_of(raw@))->Err_0),
{
    let v = chars_of(raw);
    let mut values: EnvMap = StrMap::new();
    let ghost mut done: Seq<Seq<char>> = Seq::empty();
    let mut start: usize = 0;
    let mut count: usize = 0;
    let mut i: usize = 0;
    assert(v@.take(0) == Seq::<char>::empty());
    assert(v@.subrange(0, 0) == Seq::<char>::empty());
    while i < v.len()
        invariant
            start <= i <= v.len(),
            v@ == raw@,
            count == done.len(),
            count <= start,
            lines_of(v@.take(i as int)) == done.push(v@.subrange(start as int, i as int)),
            parse_lines(done) is Ok,
            same_text(values@, parse_lines(done)->Ok_0),
        decreases v.len() - i,
    {
        assert(v@.take(i + 1).drop_last() == v@.take(i as int));
        if v[i] == '\n' {
            let ghost line = v@.subrange(start as int, i as int);
            match parse_line(&v, start, i) {
                LineParse::Blank => {},
                LineParse::Malformed => {
                    proof {
                        let failed = done.push(line);
                        assert(failed.drop_last() == done);
                        assert(parse_lines(failed) == Err::<Map<Seq<char>, Seq<char>>, nat>(
                            (count + 1) as nat,
                        ));
                        assert(v@.take(i + 1).drop_last() == v@.take(i as int));
                        assert(lines_of(v@.take(i + 1)) == failed.push(Seq::empty()));
                        lemma_lines_prefix(v@, i + 1, v@.len() as int);
                        assert(v@.take(v@.len() as int) == v@);
                        assert(failed.push(Seq::<char>::empty()).take(failed.len() as int) == failed);
                        lemma_err_prefix(lines_of(v@), failed.len() as int);
                    }
                    let mut e = String::new();
                    push_str(&mut e, "line ");
                    push_u64_text(&mut e, (count + 1) as u64);
                    push_str(&mut e, " is not KEY=VALUE");
                    return Err(e);
                },
                LineParse::Assign(k, x) => {
                    values.insert(k, x);
                },
            }
            proof {
                assert(done.push(line).drop_last() == done);
                assert(v@.subrange(i + 1, i + 1) == Seq::<char>::empty());
                done = done.push(line);
            }
            start = i + 1;
            count = count + 1;
        } else {
            let ghost ls = done.push(v@.subrange(start as int, i as int));
            assert(v@.subrange(start as int, i + 1) == v@.subrange(start as int, i as int).push(
                v@[i as int],
            ));
            assert(ls.update(ls.len() - 1, ls.last().push(v@[i as int])) == done.push(
                v@.subrange(start as int, i + 1),
            ));
        }
        i = i + 1;
    }
    assert(v@.take(v.len() as int) == v@);
    let ghost line = v@.subrange(start as int, v.len() as int);
    assert(done.push(line).drop_last() == done);
    match parse_line(&v, start, v.len()) {
        LineParse::Blank => {},
        LineParse::Malformed => {
            if start == v.len() {
                assert(line == Seq::<char>::empty());
                assert(trim(line) == Seq::<char>::empty());
            }
            let mut e = String::new();
            push_str(&mut e, "line ");
            push_u64_text(&mut e, (count + 1) as u64);
            push_str(&mut e, " is not KEY=VALUE");
            return Err(e);
        },
        LineParse::Assign(k, x) => {
            values.insert(k, x);
        },
    }
    Ok(values)
}

/// Once the first `m` lines fail, all of them fail the same way.
proof fn lemma_err_prefix(ls: Seq<Seq<char>>, m: int)
    requires
        0 <= m <= ls.len(),
        parse_lines(ls.take(m)) is Err,
    ensures
        parse_lines(ls) == parse_lines(ls.take(m)),
    decreases ls.len(),
{
    if ls.len() > m {
        assert(ls.drop_last().take(m) == ls.take(m));
        lemma_err_prefix(ls.drop_last(), m);
    } else {
        assert(ls.take(m) == ls);
    }
}

/// There is always at least one line.
proof fn lemma_lines_nonempty(s: Seq<char>)
    ensures
        lines_of(s).len() >= 1,
    decreases s.len(),
{
    if s.len() > 0 {
        lemma_lines_nonempty(s.drop_last());
    }
}

/// Reading further never changes the lines completed so far.
proof fn lemma_lines_prefix(s: Seq<char>, i: int, j: int)
    requires
        0 <= i <= j <= s.len(),
    ensures
        lines_of(s.take(j)).len() >= lines_of(s.take(i)).len(),
        lines_of(s.take(j)).take(lines_of(s.take(i)).len() - 1) == lines_of(s.take(i)).take(
            lines_of(s.take(i)).len() - 1,
        ),
    decreases j - i,
{
    lemma_lines_nonempty(s.take(i));
    if j > i {
        lemma_lines_prefix(s, i, j - 1);
        lemma_lines_nonempty(s.take(j - 1));
        assert(s.take(j).drop_last() == s.take(j - 1));
        let n = lines_of(s.take(i)).len() - 1;
        let prev = lines_of(s.take(j - 1));
        assert(lines_of(s.take(j)).take(n) == prev.take(n));
    }
}

} // verus!
