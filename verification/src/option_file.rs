//! The file in which the picks of the user are kept: one `key=value` line per option.
use vstd::prelude::*;
use crate::text::{chars_of, string_from_range, push_all, push_char};

verus! {

/// The prefix of `s` before the first `c` (all of `s` when `c` does not occur).
pub open spec fn before(s: Seq<char>, c: char) -> Seq<char>
    decreases s.len(),
{
    if s.len() == 0 || s[0] == c {
        seq![]
    } else {
        seq![s[0]] + before(s.drop_first(), c)
    }
}

/// The ASCII whitespace characters, as `split_ascii_whitespace` knows them.
pub open spec fn is_ascii_ws(c: char) -> bool {
    c == ' ' || c == '\t' || c == '\n' || c == '\x0C' || c == '\r'
}

/// The longest prefix of `s` without ASCII whitespace.
pub open spec fn token_prefix(s: Seq<char>) -> Seq<char>
    decreases s.len(),
{
    if s.len() == 0 || is_ascii_ws(s[0]) {
        seq![]
    } else {
        seq![s[0]] + token_prefix(s.drop_first())
    }
}

/// The first whitespace-separated word of `s`, if there is one.
pub open spec fn first_token(s: Seq<char>) -> Option<Seq<char>>
    decreases s.len(),
{
    if s.len() == 0 {
        None
    } else if is_ascii_ws(s[0]) {
        first_token(s.drop_first())
    } else {
        Some(token_prefix(s))
    }
}

pub proof fn lemma_before_len(s: Seq<char>, c: char)
    ensures
        before(s, c).len() <= s.len(),
        before(s, c).len() < s.len() ==> s[before(s, c).len() as int] == c,
        before(s, c) == s.take(before(s, c).len() as int),
    decreases s.len(),
{
    if s.len() > 0 && s[0] != c {
        lemma_before_len(s.drop_first(), c);
        assert(before(s, c) =~= s.take(before(s, c).len() as int));
    } else {
        assert(before(s, c) =~= s.take(0));
    }
}

/// `before` is the prefix up to the first occurrence.
pub proof fn lemma_before_char(s: Seq<char>, c: char, k: int)
    requires
        0 <= k <= s.len(),
        forall|j: int| 0 <= j < k ==> s[j] != c,
        k == s.len() || s[k] == c,
    ensures
        before(s, c) == s.take(k),
    decreases s.len(),
{
    if s.len() == 0 || s[0] == c {
        assert(before(s, c) =~= s.take(k));
    } else {
        lemma_before_char(s.drop_first(), c, k - 1);
        assert(before(s, c) =~= s.take(k));
    }
}

/// `token_prefix` is the prefix up to the first whitespace.
pub proof fn lemma_token_prefix(s: Seq<char>, k: int)
    requires
        0 <= k <= s.len(),
        forall|j: int| 0 <= j < k ==> !is_ascii_ws(s[j]),
        k == s.len() || is_ascii_ws(s[k]),
    ensures
        token_prefix(s) == s.take(k),
    decreases s.len(),
{
    if s.len() == 0 || is_ascii_ws(s[0]) {
        assert(token_prefix(s) =~= s.take(k));
    } else {
        lemma_token_prefix(s.drop_first(), k - 1);
        assert(token_prefix(s) =~= s.take(k));
    }
}

/// Leading whitespace does not change the first word.
pub proof fn lemma_first_token_skip(s: Seq<char>, k: int)
    requires
        0 <= k <= s.len(),
        forall|j: int| 0 <= j < k ==> is_ascii_ws(s[j]),
    ensures
        first_token(s) == first_token(s.skip(k)),
    decreases k,
{
    if k > 0 {
        lemma_first_token_skip(s.drop_first(), k - 1);
        assert(s.drop_first().skip(k - 1) =~= s.skip(k));
    } else {
        assert(s.skip(0) =~= s);
    }
}

/// One line of the file: the key before the first `=`, and the first word of what stands
/// between that `=` and the next one. `None` for a line without `=` or without such a word.
pub open spec fn parse_line(line: Seq<char>) -> Option<(Seq<char>, Seq<char>)> {
    let key = before(line, '=');
    if key.len() >= line.len() {
        None
    } else {
        match first_token(before(line.skip(key.len() + 1int), '=')) {
            None => None,
            Some(t) => Some((key, t)),
        }
    }
}

/// The entries of the file, read line by line up to the first empty line or the end.
/// `None` when a line before that cannot be read.
pub open spec fn parse_entries(content: Seq<char>) -> Option<Seq<(Seq<char>, Seq<char>)>>
    decreases content.len(),
{
    let line = before(content, '\n');
    if line.len() == 0 {
        Some(seq![])
    } else {
        match parse_line(line) {
            None => None,
            Some(e) => if line.len() >= content.len() {
                Some(seq![e])
            } else {
                proof {
                    lemma_before_len(content, '\n');
                }
                match parse_entries(content.skip(line.len() + 1int)) {
                    None => None,
                    Some(rest) => Some(seq![e] + rest),
                }
            },
        }
    }
}

/// The line written for one entry.
pub open spec fn entry_line(key: Seq<char>, value: Seq<char>) -> Seq<char> {
    key + seq!['='] + value + seq!['\n']
}

/// The file written for a list of entries.
pub open spec fn serialize_entries(es: Seq<(Seq<char>, Seq<char>)>) -> Seq<char>
    decreases es.len(),
{
    if es.len() == 0 {
        seq![]
    } else {
        serialize_entries(es.drop_last()) + entry_line(es.last().0, es.last().1)
    }
}

/// One key and the value written for it.
pub struct OptionEntry {
    pub key: String,
    pub value: String,
}

pub open spec fn entry_view(e: OptionEntry) -> (Seq<char>, Seq<char>) {
    (e.key@, e.value@)
}

/// Finds the first `c` in `cs[from..to]`; `to` when there is none.
fn find_char(cs: &Vec<char>, from: usize, to: usize, c: char) -> (r: usize)
    requires
        from <= to <= cs.len(),
    ensures
        from <= r <= to,
        before(cs@.subrange(from as int, to as int), c) == cs@.subrange(from as int, r as int),
        r < to ==> cs@[r as int] == c,
{
    let mut k = from;
    while k < to && cs[k] != c
        invariant
            from <= k <= to <= cs.len(),
            forall|j: int| from <= j < k ==> cs@[j] != c,
        decreases to - k,
    {
        k = k + 1;
    }
    proof {
        let s = cs@.subrange(from as int, to as int);
        lemma_before_char(s, c, k - from);
        assert(s.take(k - from) =~= cs@.subrange(from as int, k as int));
    }
    k
}

fn is_ws(c: char) -> (r: bool)
    ensures
        r == is_ascii_ws(c),
{
    c == ' ' || c == '\t' || c == '\n' || c == '\x0C' || c == '\r'
}

/// The first word of `cs[from..to]`, as a range, if there is one.
fn find_token(cs: &Vec<char>, from: usize, to: usize) -> (r: Option<(usize, usize)>)
    requires
        from <= to <= cs.len(),
    ensures
        match r {
            None => first_token(cs@.subrange(from as int, to as int)) is None,
            Some((a, b)) => from <= a <= b <= to && first_token(cs@.subrange(from as int, to as int))
                == Some(cs@.subrange(a as int, b as int)),
        },
{
    let ghost s = cs@.subrange(from as int, to as int);
    let mut a = from;
    while a < to && is_ws(cs[a])
        invariant
            from <= a <= to <= cs.len(),
            s == cs@.subrange(from as int, to as int),
            forall|j: int| from <= j < a ==> is_ascii_ws(cs@[j]),
        decreases to - a,
    {
        a = a + 1;
    }
    proof {
        lemma_first_token_skip(s, a - from);
        assert(s.skip(a - from) =~= cs@.subrange(a as int, to as int));
    }
    if a == to {
        return None;
    }
    let mut b = a;
    while b < to && !is_ws(cs[b])
        invariant
            from <= a <= b <= to <= cs.len(),
            a < to,
            !is_ascii_ws(cs@[a as int]),
            forall|j: int| a <= j < b ==> !is_ascii_ws(cs@[j]),
        decreases to - b,
    {
        b = b + 1;
    }
    proof {
        let t = cs@.subrange(a as int, to as int);
        lemma_token_prefix(t, b - a);
        assert(t.take(b - a) =~= cs@.subrange(a as int, b as int));
    }
    Some((a, b))
}

/// Reads the entries of an options file. `None` when a line before the first empty one has
/// no `=`, or nothing but whitespace after its first `=`.
pub fn parse_option_file(content: &str) -> (r: Option<Vec<OptionEntry>>)
    ensures
        match r {
            None => parse_entries(content@) is None,
            Some(v) => parse_entries(content@) == Some(v@.map_values(|e: OptionEntry| entry_view(e))),
        },
{
    let cs = chars_of(content);
    let n = cs.len();
    let mut out: Vec<OptionEntry> = Vec::new();
    let mut pos: usize = 0;
    proof {
        assert(cs@.skip(0) =~= cs@);
        match parse_entries(cs@) {
            None => {},
            Some(r0) => {
                assert(out@.map_values(|e: OptionEntry| entry_view(e)) + r0 =~= r0);
            },
        }
    }
    loop
        invariant
            cs@ == content@,
            n == cs.len(),
            pos <= n,
            parse_entries(content@) == match parse_entries(cs@.skip(pos as int)) {
                None => None::<Seq<(Seq<char>, Seq<char>)>>,
                Some(rest) => Some(out@.map_values(|e: OptionEntry| entry_view(e)) + rest),
            },
        decreases n - pos,
    {
        let ghost rest = cs@.skip(pos as int);
        let end = find_char(&cs, pos, n, '\n');
        assert(cs@.subrange(pos as int, n as int) =~= rest);
        let ghost line = cs@.subrange(pos as int, end as int);
        assert(before(rest, '\n') == line);
        if end == pos {
            assert(out@.map_values(|e: OptionEntry| entry_view(e)) + seq![] =~= out@.map_values(
                |e: OptionEntry| entry_view(e),
            ));
            return Some(out);
        }
        let eq = find_char(&cs, pos, end, '=');
        assert(cs@.subrange(pos as int, end as int) == line);
        if eq == end {
            return None;
        }
        let seg_end = find_char(&cs, eq + 1, end, '=');
        proof {
            assert(line.skip(eq - pos + 1) =~= cs@.subrange(eq + 1, end as int));
        }
        let tok = find_token(&cs, eq + 1, seg_end);
        match tok {
            None => {
                return None;
            },
            Some((a, b)) => {
                let key = string_from_range(&cs, pos, eq);
                let value = string_from_range(&cs, a, b);
                let ghost before_out = out@.map_values(|e: OptionEntry| entry_view(e));
                let entry = OptionEntry { key, value };
                let ghost ev = entry_view(entry);
                out.push(entry);
                assert(out@.map_values(|e: OptionEntry| entry_view(e)) =~= before_out.push(ev));
                if end == n {
                    assert(before_out + seq![ev] =~= before_out.push(ev));
                    return Some(out);
                }
                proof {
                    assert(rest.skip(line.len() + 1int) =~= cs@.skip(end + 1));
                    match parse_entries(cs@.skip(end + 1)) {
                        None => {},
                        Some(r2) => {
                            assert(before_out + (seq![ev] + r2) =~= before_out.push(ev) + r2);
                        },
                    }
                }
                pos = end + 1;
            },
        }
    }
}

/// Writes the file for a list of entries: `key=value` and a newline for each, in order.
pub fn serialize_option_file(entries: &Vec<OptionEntry>) -> (r: String)
    ensures
        r@ == serialize_entries(entries@.map_values(|e: OptionEntry| entry_view(e))),
{
    let ghost es = entries@.map_values(|e: OptionEntry| entry_view(e));
    let mut out = String::new();
    let mut i: usize = 0;
    while i < entries.len()
        invariant
            i <= entries.len(),
            es == entries@.map_values(|e: OptionEntry| entry_view(e)),
            out@ == serialize_entries(es.take(i as int)),
        decreases entries.len() - i,
    {
        push_all(&mut out, entries[i].key.as_str());
        push_char(&mut out, '=');
        push_all(&mut out, entries[i].value.as_str());
        push_char(&mut out, '\n');
        proof {
            assert(es.take(i + 1).drop_last() =~= es.take(i as int));
            assert(out@ =~= serialize_entries(es.take(i + 1)));
        }
        i = i + 1;
    }
    assert(es.take(entries.len() as int) =~= es);
    out
}

/// A key the file can hold: no `=` and no line break in it.
pub open spec fn storable_key(k: Seq<char>) -> bool {
    forall|i: int| 0 <= i < k.len() ==> k[i] != '=' && k[i] != '\n'
}

/// A value the file can hold: a single word without `=`.
pub open spec fn storable_value(v: Seq<char>) -> bool {
    v.len() > 0 && forall|i: int| 0 <= i < v.len() ==> v[i] != '=' && !is_ascii_ws(v[i])
}

proof fn lemma_serialize_front(es: Seq<(Seq<char>, Seq<char>)>)
    requires
        es.len() > 0,
    ensures
        serialize_entries(es) == entry_line(es[0].0, es[0].1) + serialize_entries(es.drop_first()),
    decreases es.len(),
{
    if es.len() == 1 {
        assert(es.drop_last() =~= seq![]);
        assert(es.drop_first() =~= seq![]);
        assert(serialize_entries(es) =~= entry_line(es[0].0, es[0].1) + serialize_entries(
            es.drop_first(),
        ));
    } else {
        lemma_serialize_front(es.drop_last());
        assert(es.drop_last().drop_first() =~= es.drop_first().drop_last());
        assert(es.drop_first().last() == es.last());
        assert(serialize_entries(es) =~= entry_line(es[0].0, es[0].1) + serialize_entries(
            es.drop_first(),
        ));
    }
}

/// Reading back a written file gives the entries that were written, provided every key and
/// value is one the file can hold.
pub proof fn law_option_file_round_trip(es: Seq<(Seq<char>, Seq<char>)>)
    requires
        forall|i: int| 0 <= i < es.len() ==> storable_key(#[trigger] es[i].0) && storable_value(es[i].1),
    ensures
        parse_entries(serialize_entries(es)) == Some(es),
    decreases es.len(),
{
    if es.len() == 0 {
        assert(before(seq![], '\n') =~= seq![]);
        assert(serialize_entries(es) =~= seq![]);
    } else {
        let k = es[0].0;
        let v = es[0].1;
        assert(storable_key(k) && storable_value(v));
        lemma_serialize_front(es);
        let rest = serialize_entries(es.drop_first());
        let content = serialize_entries(es);
        let line = k + seq!['='] + v;
        assert(content =~= line + seq!['\n'] + rest);
        lemma_before_char(content, '\n', line.len() as int);
        assert(content.take(line.len() as int) =~= line);
        lemma_before_char(line, '=', k.len() as int);
        assert(line.take(k.len() as int) =~= k);
        assert(line.skip(k.len() + 1int) =~= v);
        lemma_before_char(v, '=', v.len() as int);
        assert(v.take(v.len() as int) =~= v);
        lemma_token_prefix(v, v.len() as int);
        assert(first_token(v) == Some(token_prefix(v)));
        assert(parse_line(line) == Some((k, v)));
        assert(content.skip(line.len() + 1int) =~= rest);
        law_option_file_round_trip(es.drop_first());
        assert(seq![(k, v)] + es.drop_first() =~= es);
    }
}

} // verus!
