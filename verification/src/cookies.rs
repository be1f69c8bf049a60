//! Cookie-header parsing: the raw header is split on `;`, each segment is
//! trimmed of whitespace and split on its first `=` only (values may hold
//! further `=`), and segments without an `=` are dropped silently. A repeated
//! name keeps its last value, as a map built by insertion would.

use vstd::prelude::*;
use vstd::string::*;

use crate::signer::kv_view;
use crate::strutil::str_eq;

verus! {

/// Whether `c` has the White_Space property, as `char::is_whitespace` sees it.
pub open spec fn is_white(c: char) -> bool {
    let u = c as u32;
    u == 0x20 || u == 0x09 || u == 0x0A || u == 0x0D || u == 0x0B || u == 0x0C || u == 0x85 || u
        == 0xA0 || u == 0x1680 || (0x2000 <= u && u <= 0x200A) || u == 0x2028 || u == 0x2029 || u
        == 0x202F || u == 0x205F || u == 0x3000
}

fn char_is_white(c: char) -> (r: bool)
    ensures
        r == is_white(c),
{
    let u = c as u32;
    u == 0x20 || u == 0x09 || u == 0x0A || u == 0x0D || u == 0x0B || u == 0x0C || u == 0x85 || u
        == 0xA0 || u == 0x1680 || (0x2000 <= u && u <= 0x200A) || u == 0x2028 || u == 0x2029 || u
        == 0x202F || u == 0x205F || u == 0x3000
}

/// The sequence without its leading whitespace.
pub open spec fn trim_start(s: Seq<char>) -> Seq<char>
    decreases s.len(),
{
    if s.len() > 0 && is_white(s[0]) {
        trim_start(s.drop_first())
    } else {
        s
    }
}

/// The sequence without its trailing whitespace.
pub open spec fn trim_end(s: Seq<char>) -> Seq<char>
    decreases s.len(),
{
    if s.len() > 0 && is_white(s.last()) {
        trim_end(s.drop_last())
    } else {
        s
    }
}

/// The sequence without leading or trailing whitespace, as `str::trim`.
pub open spec fn spec_trim(s: Seq<char>) -> Seq<char> {
    trim_end(trim_start(s))
}

/// The index of the first occurrence of `c`, or the length when absent.
pub open spec fn first_ix(s: Seq<char>, c: char) -> nat
    decreases s.len(),
{
    if s.len() == 0 {
        0
    } else if s[0] == c {
        0
    } else {
        1 + first_ix(s.drop_first(), c)
    }
}

/// The segments of `s` between `;` separators, in order; separators are not
/// kept, and empty segments are.
pub open spec fn split_semi(s: Seq<char>) -> Seq<Seq<char>>
    decreases s.len(),
{
    let i = first_ix(s, ';');
    if i < s.len() {
        seq![s.take(i as int)] + split_semi(s.skip(i as int + 1))
    } else {
        seq![s]
    }
}

/// One trimmed segment as a pair: the text before the first `=` and the text
/// after it; a segment without `=` yields nothing.
pub open spec fn parse_segment(seg: Seq<char>) -> Option<(Seq<char>, Seq<char>)> {
    let t = spec_trim(seg);
    let i = first_ix(t, '=');
    if i < t.len() {
        Some((t.take(i as int), t.skip(i as int + 1)))
    } else {
        None
    }
}

/// The pairs of all segments that hold an `=`, in segment order.
pub open spec fn parse_segments(segs: Seq<Seq<char>>) -> Seq<(Seq<char>, Seq<char>)>
    decreases segs.len(),
{
    if segs.len() == 0 {
        Seq::<(Seq<char>, Seq<char>)>::empty()
    } else {
        (match parse_segment(segs[0]) {
            Some(p) => seq![p],
            None => Seq::<(Seq<char>, Seq<char>)>::empty(),
        }) + parse_segments(segs.drop_first())
    }
}

/// What parsing a raw cookie header yields.
pub open spec fn spec_parse_cookies(s: Seq<char>) -> Seq<(Seq<char>, Seq<char>)> {
    parse_segments(split_semi(s))
}

/// The value of the last pair named `k`, the one a map built by insertion
/// would keep.
pub open spec fn spec_lookup_last(s: Seq<(Seq<char>, Seq<char>)>, k: Seq<char>) -> Option<
    Seq<char>,
>
    decreases s.len(),
{
    if s.len() == 0 {
        None
    } else if s.last().0 == k {
        Some(s.last().1)
    } else {
        spec_lookup_last(s.drop_last(), k)
    }
}

proof fn lemma_first_ix_at(s: Seq<char>, c: char, i: int)
    requires
        0 <= i <= s.len(),
        forall|j: int| 0 <= j < i ==> s[j] != c,
        i < s.len() ==> s[i] == c,
    ensures
        first_ix(s, c) == i,
    decreases i,
{
    if i > 0 {
        lemma_first_ix_at(s.drop_first(), c, i - 1);
    }
}

proof fn lemma_trim_start_at(s: Seq<char>, a: int)
    requires
        0 <= a <= s.len(),
        forall|j: int| 0 <= j < a ==> is_white(s[j]),
        a < s.len() ==> !is_white(s[a]),
    ensures
        trim_start(s) == s.skip(a),
    decreases a,
{
    if a == 0 {
        assert(s.skip(0) =~= s);
    } else {
        lemma_trim_start_at(s.drop_first(), a - 1);
        assert(s.drop_first().skip(a - 1) =~= s.skip(a));
    }
}

proof fn lemma_trim_end_at(s: Seq<char>, b: int)
    requires
        0 <= b <= s.len(),
        forall|j: int| b <= j < s.len() ==> is_white(s[j]),
        b > 0 ==> !is_white(s[b - 1]),
    ensures
        trim_end(s) == s.take(b),
    decreases s.len() - b,
{
    if b == s.len() {
        assert(s.take(b) =~= s);
    } else {
        lemma_trim_end_at(s.drop_last(), b);
        assert(s.drop_last().take(b) =~= s.take(b));
    }
}

/// The input without leading or trailing whitespace.
fn trim_str<'a>(s: &'a str) -> (r: &'a str)
    ensures
        r@ == spec_trim(s@),
{
    let n = s.unicode_len();
    let mut a: usize = 0;
    while a < n && char_is_white(s.get_char(a))
        invariant
            a <= n,
            n == s@.len(),
            forall|j: int| 0 <= j < a ==> is_white(s@[j]),
        decreases n - a,
    {
        a = a + 1;
    }
    proof {
        lemma_trim_start_at(s@, a as int);
    }
    if a == n {
        let r = s.substring_char(n, n);
        proof {
            assert(trim_end(s@.skip(n as int)) =~= s@.subrange(n as int, n as int));
        }
        return r;
    }
    let mut b: usize = n;
    while b > a && char_is_white(s.get_char(b - 1))
        invariant
            a <= b <= n,
            n == s@.len(),
            forall|j: int| b <= j < n ==> is_white(s@[j]),
        decreases b,
    {
        b = b - 1;
    }
    proof {
        assert(b > a) by {
            if b == a {
                assert(is_white(s@[a as int]));
            }
        }
        lemma_trim_end_at(s@.skip(a as int), b - a);
        assert(s@.skip(a as int).take(b - a) =~= s@.subrange(a as int, b as int));
    }
    s.substring_char(a, b)
}

/// The first index at or after `from` holding `c`, or the length when none.
fn find_char(s: &str, from: usize, c: char) -> (r: usize)
    requires
        from <= s@.len(),
    ensures
        from <= r <= s@.len(),
        forall|j: int| from <= j < r ==> s@[j] != c,
        r < s@.len() ==> s@[r as int] == c,
{
    let n = s.unicode_len();
    let mut i = from;
    while i < n
        invariant
            from <= i <= n,
            n == s@.len(),
            forall|j: int| from <= j < i ==> s@[j] != c,
        decreases n - i,
    {
        if s.get_char(i) == c {
            return i;
        }
        i = i + 1;
    }
    n
}

/// The trimmed segment split on its first `=`, or nothing when it has none.
fn parse_segment_exec(seg: &str) -> (r: Option<(String, String)>)
    ensures
        match r {
            Some(p) => parse_segment(seg@) == Some((p.0@, p.1@)),
            None => parse_segment(seg@) is None,
        },
{
    let t = trim_str(seg);
    let n = t.unicode_len();
    let i = find_char(t, 0, '=');
    proof {
        lemma_first_ix_at(t@, '=', i as int);
    }
    if i == n {
        None
    } else {
        let k = t.substring_char(0, i);
        let v = t.substring_char(i + 1, n);
        Some((String::from_str(k), String::from_str(v)))
    }
}

/// A parsed cookie header: name/value pairs in segment order; lookups keep
/// the last value of a repeated name.
pub struct CookieJar {
    pub pairs: Vec<(String, String)>,
}

impl View for CookieJar {
    type V = Seq<(Seq<char>, Seq<char>)>;

    open spec fn view(&self) -> Seq<(Seq<char>, Seq<char>)> {
        kv_view(self.pairs@)
    }
}

proof fn lemma_lookup_last_prefix(s: Seq<(Seq<char>, Seq<char>)>, k: Seq<char>, i: int)
    requires
        0 <= i <= s.len(),
        forall|j: int| i <= j < s.len() ==> s[j].0 != k,
    ensures
        spec_lookup_last(s, k) == spec_lookup_last(s.take(i), k),
    decreases s.len() - i,
{
    if i == s.len() {
        assert(s.take(i) =~= s);
    } else {
        lemma_lookup_last_prefix(s.drop_last(), k, i);
        assert(s.drop_last().take(i) =~= s.take(i));
    }
}

impl CookieJar {
    /// How many pairs the jar holds.
    pub fn len(&self) -> (n: usize)
        ensures
            n == self@.len(),
    {
        self.pairs.len()
    }

    /// The value of cookie `name`, if present: the last pair wins.
    pub fn get(&self, name: &str) -> (r: Option<&String>)
        ensures
            match r {
                Some(v) => spec_lookup_last(self@, name@) == Some(v@),
                None => spec_lookup_last(self@, name@) is None,
            },
    {
        let mut i = self.pairs.len();
        while i > 0
            invariant
                i <= self.pairs@.len(),
                forall|j: int| i <= j < self@.len() ==> self@[j].0 != name@,
            decreases i,
        {
            if str_eq(self.pairs[i - 1].0.as_str(), name) {
                proof {
                    lemma_lookup_last_prefix(self@, name@, i as int);
                    assert(self@.take(i as int).last() == self@[i - 1]);
                }
                return Some(&self.pairs[i - 1].1);
            }
            i = i - 1;
        }
        proof {
            lemma_lookup_last_prefix(self@, name@, 0);
            assert(self@.take(0) =~= Seq::<(Seq<char>, Seq<char>)>::empty());
        }
        None
    }
}

/// Parses a raw cookie header into a jar, exactly as `spec_parse_cookies`
/// describes: split on `;`, trim, split each segment on its first `=`, drop
/// segments without one.
pub fn parse_cookies(raw: &str) -> (jar: CookieJar)
    ensures
        jar@ == spec_parse_cookies(raw@),
{
    let n = raw.unicode_len();
    let mut pairs: Vec<(String, String)> = Vec::new();
    let mut pos: usize = 0;
    let mut done = false;
    proof {
        assert(kv_view(pairs@) =~= Seq::<(Seq<char>, Seq<char>)>::empty());
        assert(raw@.skip(0) =~= raw@);
        assert(kv_view(pairs@) + parse_segments(split_semi(raw@)) =~= parse_segments(
            split_semi(raw@),
        ));
    }
    while !done
        invariant
            pos <= n,
            n == raw@.len(),
            !done ==> kv_view(pairs@) + parse_segments(split_semi(raw@.skip(pos as int)))
                == spec_parse_cookies(raw@),
            done ==> kv_view(pairs@) == spec_parse_cookies(raw@),
        decreases n - pos + (if done {
            0int
        } else {
            1int
        }),
    {
        let e = find_char(raw, pos, ';');
        let seg = raw.substring_char(pos, e);
        let ghost rest = raw@.skip(pos as int);
        proof {
            lemma_first_ix_at(rest, ';', e - pos);
            if e < n {
                assert(rest.take(e - pos) =~= seg@);
                assert(rest.skip(e - pos + 1) =~= raw@.skip(e as int + 1));
                assert(split_semi(rest) == seq![seg@] + split_semi(raw@.skip(e as int + 1)));
            } else {
                assert(rest =~= seg@);
                assert(split_semi(rest) == seq![seg@]);
            }
        }
        let item = parse_segment_exec(seg);
        let ghost before = kv_view(pairs@);
        let ghost piece = (match parse_segment(seg@) {
            Some(p) => seq![p],
            None => Seq::<(Seq<char>, Seq<char>)>::empty(),
        });
        match item {
            Some(p) => {
                pairs.push(p);
                proof {
                    assert(kv_view(pairs@) =~= before + piece);
                }
            },
            None => {
                proof {
                    assert(kv_view(pairs@) =~= before + piece);
                }
            },
        }
        proof {
            let segs = split_semi(rest);
            assert(segs[0] == seg@);
            assert(parse_segments(segs) == piece + parse_segments(segs.drop_first()));
            if e < n {
                assert(segs.drop_first() =~= split_semi(raw@.skip(e as int + 1)));
                assert((before + piece) + parse_segments(split_semi(raw@.skip(e as int + 1)))
                    =~= before + (piece + parse_segments(segs.drop_first())));
            } else {
                assert(segs.drop_first() =~= Seq::<Seq<char>>::empty());
                assert(parse_segments(segs.drop_first()) =~= Seq::<(Seq<char>, Seq<char>)>::empty());
                assert(before + piece =~= before + (piece + parse_segments(segs.drop_first())));
            }
        }
        if e == n {
            done = true;
        } else {
            pos = e + 1;
        }
    }
    let jar = CookieJar { pairs };
    jar
}

} // verus!
