//! Normalisation of the free-form text that delegated probes print.

use vstd::prelude::*;

verus! {

/// Characters with the Unicode `White_Space` property.
pub open spec fn is_white_space_char(c: char) -> bool {
    let u = c as u32;
    (0x9 <= u && u <= 0xd) || u == 0x20 || u == 0x85 || u == 0xa0 || u == 0x1680 || (0x2000 <= u
        && u <= 0x200a) || u == 0x2028 || u == 0x2029 || u == 0x202f || u == 0x205f || u == 0x3000
}

pub fn is_white_space(c: char) -> (r: bool)
    ensures
        r == is_white_space_char(c),
{
    let u = c as u32;
    (0x9 <= u && u <= 0xd) || u == 0x20 || u == 0x85 || u == 0xa0 || u == 0x1680 || (0x2000 <= u
        && u <= 0x200a) || u == 0x2028 || u == 0x2029 || u == 0x202f || u == 0x205f || u == 0x3000
}

pub open spec fn trim_start(s: Seq<char>) -> Seq<char>
    decreases s.len(),
{
    if s.len() > 0 && is_white_space_char(s[0]) {
        trim_start(s.drop_first())
    } else {
        s
    }
}

pub open spec fn trim_end(s: Seq<char>) -> Seq<char>
    decreases s.len(),
{
    if s.len() > 0 && is_white_space_char(s.last()) {
        trim_end(s.drop_last())
    } else {
        s
    }
}

/// `s` without leading and trailing white space.
pub open spec fn trimmed(s: Seq<char>) -> Seq<char> {
    trim_end(trim_start(s))
}

/// The number of characters before the first `c` in `s`, or `s.len()`.
pub open spec fn index_of(s: Seq<char>, c: char) -> nat
    decreases s.len(),
{
    if s.len() == 0 || s[0] == c {
        0
    } else {
        1 + index_of(s.drop_first(), c)
    }
}

proof fn lemma_index_of(s: Seq<char>, c: char, j: int)
    requires
        0 <= j <= s.len(),
        forall|k: int| 0 <= k < j ==> s[k] != c,
        j == s.len() || s[j] == c,
    ensures
        index_of(s, c) == j,
    decreases j,
{
    if j > 0 {
        lemma_index_of(s.drop_first(), c, j - 1);
    }
}

/// Whether `raw` begins with `path` followed by `:`, as tools that print
/// `<path>: <type>` do.
pub open spec fn has_path_prefix(raw: Seq<char>, path: Seq<char>) -> bool {
    path.len() < raw.len() && raw.subrange(0, path.len() as int) == path && raw[path.len() as int]
        == ':'
}

/// The text after the first `:` of `raw`, trimmed; empty without a `:`.
pub open spec fn after_first_colon(raw: Seq<char>) -> Seq<char> {
    let k = index_of(raw, ':');
    if k < raw.len() {
        trimmed(raw.subrange(k + 1int, raw.len() as int))
    } else {
        Seq::empty()
    }
}

/// The type text of a delegated probe run on `path`: the output without its
/// leading `<path>:` prefix, trimmed. Output that does not begin with that
/// prefix falls back to the text after its first `:`, trimmed.
pub open spec fn probe_type_of(raw: Seq<char>, path: Seq<char>) -> Seq<char> {
    if has_path_prefix(raw, path) {
        trimmed(raw.subrange(path.len() + 1int, raw.len() as int))
    } else {
        after_first_colon(raw)
    }
}

/// `s` with leading and trailing white space removed.
pub fn trim_text(s: &str) -> (r: String)
    ensures
        r@ == trimmed(s@),
{
    let n = s.unicode_len();
    let mut a: usize = 0;
    assert(s@.subrange(0, n as int) =~= s@);
    while a < n && is_white_space(s.get_char(a))
        invariant
            a <= n == s@.len(),
            trim_start(s@) == trim_start(s@.subrange(a as int, n as int)),
        decreases n - a,
    {
        assert(s@.subrange(a as int, n as int).drop_first() =~= s@.subrange(a + 1, n as int));
        a = a + 1;
    }
    assert(trim_start(s@.subrange(a as int, n as int)) == s@.subrange(a as int, n as int));
    let mut b: usize = n;
    while b > a && is_white_space(s.get_char(b - 1))
        invariant
            a <= b <= n == s@.len(),
            trimmed(s@) == trim_end(s@.subrange(a as int, b as int)),
        decreases b,
    {
        assert(s@.subrange(a as int, b as int).drop_last() =~= s@.subrange(a as int, b - 1));
        b = b - 1;
    }
    let t = s.substring_char(a, b);
    String::from_str(t)
}

/// Whether `raw` begins with `path` followed by `:`.
pub fn starts_with_path(raw: &str, path: &str) -> (r: bool)
    ensures
        r == has_path_prefix(raw@, path@),
{
    let n = raw.unicode_len();
    let m = path.unicode_len();
    if m >= n {
        return false;
    }
    let mut i: usize = 0;
    while i < m
        invariant
            i <= m < n,
            n == raw@.len(),
            m == path@.len(),
            forall|k: int| 0 <= k < i ==> raw@[k] == path@[k],
        decreases m - i,
    {
        if raw.get_char(i) != path.get_char(i) {
            assert(raw@.subrange(0, m as int)[i as int] != path@[i as int]);
            return false;
        }
        i = i + 1;
    }
    assert(raw@.subrange(0, m as int) =~= path@);
    raw.get_char(m) == ':'
}

/// Extracts the type text from the output of a delegated probe that prints
/// `<path>: <type>` for the `path` it was run on.
pub fn probe_type_text(raw: &str, path: &str) -> (r: String)
    ensures
        r@ == probe_type_of(raw@, path@),
{
    let n = raw.unicode_len();
    if starts_with_path(raw, path) {
        let m = path.unicode_len();
        return trim_text(raw.substring_char(m + 1, n));
    }
    let mut i: usize = 0;
    while i < n && raw.get_char(i) != ':'
        invariant
            i <= n == raw@.len(),
            forall|k: int| 0 <= k < i ==> raw@[k] != ':',
        decreases n - i,
    {
        i = i + 1;
    }
    proof {
        lemma_index_of(raw@, ':', i as int);
    }
    if i < n {
        trim_text(raw.substring_char(i + 1, n))
    } else {
        String::new()
    }
}

/// What one line contributes to the candidates: itself trimmed when it holds
/// a percentage mark, else nothing.
pub open spec fn candidate(line: Seq<char>) -> Seq<Seq<char>> {
    if line.contains('%') {
        seq![trimmed(line)]
    } else {
        Seq::empty()
    }
}

/// The trimmed lines of `s` (separated by `\n`) that hold a `%`, in order.
pub open spec fn candidates(s: Seq<char>) -> Seq<Seq<char>>
    decreases s.len(),
{
    let k = index_of(s, '\n');
    if k < s.len() {
        candidate(s.subrange(0, k as int)) + candidates(s.subrange(k + 1int, s.len() as int))
    } else {
        candidate(s)
    }
}

/// The items joined by a comma and a line break, none after the last.
pub open spec fn joined(items: Seq<Seq<char>>) -> Seq<char>
    decreases items.len(),
{
    if items.len() == 0 {
        Seq::empty()
    } else if items.len() == 1 {
        items[0]
    } else {
        joined(items.drop_last()) + seq![',', '\n'] + items.last()
    }
}

pub open spec fn candidate_summary_of(raw: Seq<char>) -> Seq<char> {
    joined(candidates(raw))
}

/// Summarises the output of a multi-candidate probe: keeps the lines that
/// carry a percentage, trims each, and joins them with `,` and a line break.
pub fn candidate_summary(raw: &str) -> (r: String)
    ensures
        r@ == candidate_summary_of(raw@),
{
    let n = raw.unicode_len();
    let mut r = String::new();
    let mut p: usize = 0;
    let mut count: usize = 0;
    let ghost mut found: Seq<Seq<char>> = Seq::empty();
    let mut done = false;
    assert(raw@.subrange(0, n as int) =~= raw@);
    assert(found + candidates(raw@) =~= candidates(raw@));
    while !done
        invariant
            p <= n == raw@.len(),
            done ==> found == candidates(raw@),
            !done ==> found + candidates(raw@.subrange(p as int, n as int)) == candidates(raw@),
            r@ == joined(found),
            count == found.len(),
            count <= p,
        decreases n - p + (if done { 0int } else { 1int }),
    {
        let ghost rest = raw@.subrange(p as int, n as int);
        let mut e: usize = p;
        let mut has = false;
        while e < n && raw.get_char(e) != '\n'
            invariant
                p <= e <= n == raw@.len(),
                forall|k: int| p <= k < e ==> raw@[k] != '\n',
                has == raw@.subrange(p as int, e as int).contains('%'),
            decreases n - e,
        {
            let c = raw.get_char(e);
            proof {
                let a = raw@.subrange(p as int, e as int);
                let b = raw@.subrange(p as int, e + 1);
                assert(b =~= a.push(c));
                if c == '%' {
                    assert(b[b.len() - 1] == '%');
                }
                if a.contains('%') {
                    let w = choose|w: int| 0 <= w < a.len() && a[w] == '%';
                    assert(b[w] == '%');
                }
            }
            if c == '%' {
                has = true;
            }
            e = e + 1;
        }
        proof {
            lemma_index_of(rest, '\n', e - p);
            assert(rest.subrange(0, (e - p) as int) =~= raw@.subrange(p as int, e as int));
            if e < n {
                assert(rest.subrange(e - p + 1, rest.len() as int) =~= raw@.subrange(
                    e + 1,
                    n as int,
                ));
            } else {
                assert(rest =~= raw@.subrange(p as int, e as int));
            }
        }
        if has {
            let t = trim_text(raw.substring_char(p, e));
            proof {
                assert(found.push(t@).drop_last() =~= found);
            }
            if count > 0 {
                r.append(",\n");
                proof {
                    reveal_strlit(",\n");
                }
            }
            r.append(t.as_str());
            proof {
                found = found.push(t@);
                assert(candidate(raw@.subrange(p as int, e as int)) =~= seq![t@]);
                assert(r@ =~= joined(found));
            }
            count = count + 1;
        } else {
            assert(candidate(raw@.subrange(p as int, e as int)) =~= Seq::<Seq<char>>::empty());
        }
        if e < n {
            p = e + 1;
        } else {
            p = n;
            done = true;
        }
    }
    r
}

} // verus!
