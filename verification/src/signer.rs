//! Deterministic request signing: a parameter map is extended with the
//! application key, its entries are sorted by key, rendered as
//! `key=value` pairs joined by `&`, the application secret is appended with
//! no separator, and the MD5 digest of that payload, as lowercase hex,
//! becomes the `sign` entry. Keys holding `=` or `&` are not escaped: the
//! upstream scheme leaves them raw, and compatibility requires the same.

use vstd::multiset::Multiset;
use vstd::pervasive::VecAdditionalExecFns;
use vstd::prelude::*;
use vstd::string::*;

use crate::strutil::{
    lemma_lex_antisym, lemma_lex_refl, lemma_lex_total, lemma_lex_trans, lex_le, str_eq, str_le,
};

verus! {

/// The view of a list of string pairs: each entry as its character sequences.
pub open spec fn kv_view(s: Seq<(String, String)>) -> Seq<(Seq<char>, Seq<char>)> {
    s.map_values(|p: (String, String)| (p.0@, p.1@))
}

/// Map-style insertion into a pair list: the first entry with key `k` is
/// replaced, and a missing key is appended at the end.
pub open spec fn spec_upsert(
    s: Seq<(Seq<char>, Seq<char>)>,
    k: Seq<char>,
    v: Seq<char>,
) -> Seq<(Seq<char>, Seq<char>)>
    decreases s.len(),
{
    if s.len() == 0 {
        seq![(k, v)]
    } else if s[0].0 == k {
        seq![(k, v)] + s.drop_first()
    } else {
        seq![s[0]] + spec_upsert(s.drop_first(), k, v)
    }
}

/// The value stored under the first entry with key `k`, if any.
pub open spec fn spec_lookup(s: Seq<(Seq<char>, Seq<char>)>, k: Seq<char>) -> Option<Seq<char>>
    decreases s.len(),
{
    if s.len() == 0 {
        None
    } else if s[0].0 == k {
        Some(s[0].1)
    } else {
        spec_lookup(s.drop_first(), k)
    }
}

/// Insertion of one pair into a key-sorted pair list, before the first entry
/// whose key is not below the new one.
pub open spec fn spec_insert_sorted(
    s: Seq<(Seq<char>, Seq<char>)>,
    p: (Seq<char>, Seq<char>),
) -> Seq<(Seq<char>, Seq<char>)>
    decreases s.len(),
{
    if s.len() == 0 {
        seq![p]
    } else if lex_le(p.0, s[0].0) {
        seq![p] + s
    } else {
        seq![s[0]] + spec_insert_sorted(s.drop_first(), p)
    }
}

/// The pair list rearranged in ascending key order, by repeated sorted
/// insertion from the left.
pub open spec fn spec_sort_pairs(s: Seq<(Seq<char>, Seq<char>)>) -> Seq<(Seq<char>, Seq<char>)>
    decreases s.len(),
{
    if s.len() == 0 {
        Seq::<(Seq<char>, Seq<char>)>::empty()
    } else {
        spec_insert_sorted(spec_sort_pairs(s.drop_last()), s.last())
    }
}

/// One rendered entry: `key=value`.
pub open spec fn pair_item(p: (Seq<char>, Seq<char>)) -> Seq<char> {
    p.0 + seq!['='] + p.1
}

/// The entries rendered in order and joined by `&`.
pub open spec fn join_amp(s: Seq<(Seq<char>, Seq<char>)>) -> Seq<char>
    decreases s.len(),
{
    if s.len() == 0 {
        Seq::<char>::empty()
    } else if s.len() == 1 {
        pair_item(s[0])
    } else {
        join_amp(s.drop_last()) + seq!['&'] + pair_item(s.last())
    }
}

/// The canonical query string of a parameter map: entries sorted by key,
/// rendered, and joined by `&`.
pub open spec fn canonical_query(pairs: Seq<(Seq<char>, Seq<char>)>) -> Seq<char> {
    join_amp(spec_sort_pairs(pairs))
}

/// What is hashed: the canonical query string with the secret appended raw.
pub open spec fn signing_payload(
    pairs: Seq<(Seq<char>, Seq<char>)>,
    secret: Seq<char>,
) -> Seq<char> {
    canonical_query(pairs) + secret
}

/// The MD5 digest of a string's UTF-8 bytes, rendered as lowercase hex.
pub uninterp spec fn md5_hex_of(s: Seq<char>) -> Seq<char>;

/// Relies on `md5::compute` of the md5 crate, rendered through its
/// `LowerHex` impl: the 128-bit digest of the input's UTF-8 bytes as 32
/// lowercase hex digits, a function of the input characters alone.
#[verifier::external_body]
fn md5_hex(s: &str) -> (r: String)
    ensures
        r@ == md5_hex_of(s@),
        r@.len() == 32,
{
    format!("{:x}", md5::compute(s.as_bytes()))
}

/// The signed form of a parameter map: the map with `appkey` set, plus a
/// `sign` entry holding the digest of the signing payload of exactly those
/// entries. No other field influences the signature.
pub open spec fn spec_signed_params(
    pairs: Seq<(Seq<char>, Seq<char>)>,
    key: Seq<char>,
    secret: Seq<char>,
) -> Seq<(Seq<char>, Seq<char>)> {
    let with_key = spec_upsert(pairs, "appkey"@, key);
    spec_upsert(with_key, "sign"@, md5_hex_of(signing_payload(with_key, secret)))
}

/// A per-request parameter map: an ordered list of key/value pairs with
/// map-style insertion (a repeated key overwrites its first occurrence).
pub struct ParamMap {
    pub pairs: Vec<(String, String)>,
}

impl View for ParamMap {
    type V = Seq<(Seq<char>, Seq<char>)>;

    open spec fn view(&self) -> Seq<(Seq<char>, Seq<char>)> {
        kv_view(self.pairs@)
    }
}

pub proof fn lemma_upsert_found(s: Seq<(Seq<char>, Seq<char>)>, k: Seq<char>, v: Seq<char>, i: int)
    requires
        0 <= i < s.len(),
        forall|j: int| 0 <= j < i ==> s[j].0 != k,
        s[i].0 == k,
    ensures
        spec_upsert(s, k, v) == s.update(i, (k, v)),
    decreases s.len(),
{
    if i == 0 {
        assert(spec_upsert(s, k, v) =~= s.update(0, (k, v)));
    } else {
        lemma_upsert_found(s.drop_first(), k, v, i - 1);
        assert(seq![s[0]] + s.drop_first().update(i - 1, (k, v)) =~= s.update(i, (k, v)));
    }
}

pub proof fn lemma_upsert_missing(s: Seq<(Seq<char>, Seq<char>)>, k: Seq<char>, v: Seq<char>)
    requires
        forall|j: int| 0 <= j < s.len() ==> s[j].0 != k,
    ensures
        spec_upsert(s, k, v) == s.push((k, v)),
    decreases s.len(),
{
    if s.len() == 0 {
        assert(spec_upsert(s, k, v) =~= s.push((k, v)));
    } else {
        lemma_upsert_missing(s.drop_first(), k, v);
        assert(seq![s[0]] + s.drop_first().push((k, v)) =~= s.push((k, v)));
    }
}

impl ParamMap {
    /// An empty parameter map.
    pub fn new() -> (r: Self)
        ensures
            r@ == Seq::<(Seq<char>, Seq<char>)>::empty(),
    {
        let r = ParamMap { pairs: Vec::new() };
        proof {
            assert(r@ =~= Seq::<(Seq<char>, Seq<char>)>::empty());
        }
        r
    }

    /// How many entries the map holds.
    pub fn len(&self) -> (n: usize)
        ensures
            n == self@.len(),
    {
        self.pairs.len()
    }

    /// Map-style insertion: overwrites the first entry with this key, or
    /// appends the pair when the key is new.
    pub fn insert(&mut self, k: String, v: String)
        ensures
            final(self)@ == spec_upsert(old(self)@, k@, v@),
    {
        let n = self.pairs.len();
        let mut i: usize = 0;
        while i < n
            invariant
                i <= n,
                n == self.pairs@.len(),
                *self == *old(self),
                forall|j: int| 0 <= j < i ==> self@[j].0 != k@,
            decreases n - i,
        {
            if str_eq(self.pairs[i].0.as_str(), k.as_str()) {
                proof {
                    lemma_upsert_found(self@, k@, v@, i as int);
                }
                self.pairs.set(i, (k, v));
                proof {
                    assert(self@ =~= old(self)@.update(i as int, (k@, v@)));
                }
                return ;
            }
            i = i + 1;
        }
        proof {
            lemma_upsert_missing(self@, k@, v@);
        }
        self.pairs.push((k, v));
        proof {
            assert(self@ =~= old(self)@.push((k@, v@)));
        }
    }

    /// The value under `k`, if the map holds that key.
    pub fn get(&self, k: &str) -> (r: Option<&String>)
        ensures
            match r {
                Some(v) => spec_lookup(self@, k@) == Some(v@),
                None => spec_lookup(self@, k@) is None,
            },
    {
        let n = self.pairs.len();
        let mut i: usize = 0;
        while i < n
            invariant
                i <= n,
                n == self.pairs@.len(),
                forall|j: int| 0 <= j < i ==> self@[j].0 != k@,
            decreases n - i,
        {
            if str_eq(self.pairs[i].0.as_str(), k) {
                proof {
                    lemma_lookup_found(self@, k@, i as int);
                }
                return Some(&self.pairs[i].1);
            }
            i = i + 1;
        }
        proof {
            lemma_lookup_missing(self@, k@);
        }
        None
    }
}

proof fn lemma_lookup_found(s: Seq<(Seq<char>, Seq<char>)>, k: Seq<char>, i: int)
    requires
        0 <= i < s.len(),
        forall|j: int| 0 <= j < i ==> s[j].0 != k,
        s[i].0 == k,
    ensures
        spec_lookup(s, k) == Some(s[i].1),
    decreases s.len(),
{
    if i > 0 {
        lemma_lookup_found(s.drop_first(), k, i - 1);
    }
}

proof fn lemma_lookup_missing(s: Seq<(Seq<char>, Seq<char>)>, k: Seq<char>)
    requires
        forall|j: int| 0 <= j < s.len() ==> s[j].0 != k,
    ensures
        spec_lookup(s, k) is None,
    decreases s.len(),
{
    if s.len() > 0 {
        lemma_lookup_missing(s.drop_first(), k);
    }
}

proof fn lemma_insert_sorted_at(
    s: Seq<(Seq<char>, Seq<char>)>,
    p: (Seq<char>, Seq<char>),
    i: int,
)
    requires
        0 <= i <= s.len(),
        forall|j: int| 0 <= j < i ==> !lex_le(p.0, s[j].0),
        i < s.len() ==> lex_le(p.0, s[i].0),
    ensures
        spec_insert_sorted(s, p) == s.insert(i, p),
    decreases s.len(),
{
    if s.len() == 0 {
        assert(spec_insert_sorted(s, p) =~= s.insert(0, p));
    } else if i == 0 {
        assert(seq![p] + s =~= s.insert(0, p));
    } else {
        lemma_insert_sorted_at(s.drop_first(), p, i - 1);
        assert(seq![s[0]] + s.drop_first().insert(i - 1, p) =~= s.insert(i, p));
    }
}

/// Inserts one pair into a vector already arranged in ascending key order.
fn insert_pair_sorted(v: &mut Vec<(String, String)>, p: (String, String))
    ensures
        kv_view(final(v)@) == spec_insert_sorted(kv_view(old(v)@), (p.0@, p.1@)),
{
    let n = v.len();
    let mut i: usize = 0;
    while i < n
        invariant
            i <= n,
            n == v@.len(),
            *v == *old(v),
            forall|j: int| 0 <= j < i ==> !lex_le(p.0@, kv_view(v@)[j].0),
        decreases n - i,
    {
        if str_le(p.0.as_str(), v[i].0.as_str()) {
            proof {
                lemma_insert_sorted_at(kv_view(v@), (p.0@, p.1@), i as int);
            }
            v.insert(i, p);
            proof {
                assert(kv_view(v@) =~= kv_view(old(v)@).insert(i as int, (p.0@, p.1@)));
            }
            return ;
        }
        i = i + 1;
    }
    proof {
        lemma_insert_sorted_at(kv_view(v@), (p.0@, p.1@), n as int);
    }
    v.push(p);
    proof {
        assert(kv_view(v@) =~= kv_view(old(v)@).insert(old(v)@.len() as int, (p.0@, p.1@)));
    }
}

/// A copy of the pair vector in ascending key order.
fn sort_pairs(src: &Vec<(String, String)>) -> (r: Vec<(String, String)>)
    ensures
        kv_view(r@) == spec_sort_pairs(kv_view(src@)),
{
    let mut r: Vec<(String, String)> = Vec::new();
    let n = src.len();
    let mut i: usize = 0;
    proof {
        assert(kv_view(r@) =~= spec_sort_pairs(kv_view(src@).take(0)));
    }
    while i < n
        invariant
            i <= n,
            n == src@.len(),
            kv_view(r@) == spec_sort_pairs(kv_view(src@).take(i as int)),
        decreases n - i,
    {
        let p = (src[i].0.clone(), src[i].1.clone());
        insert_pair_sorted(&mut r, p);
        proof {
            assert(kv_view(src@).take(i + 1).drop_last() =~= kv_view(src@).take(i as int));
            assert(kv_view(src@).take(i + 1).last() == (src@[i as int].0@, src@[i as int].1@));
        }
        i = i + 1;
    }
    proof {
        assert(kv_view(src@).take(n as int) =~= kv_view(src@));
    }
    r
}

/// Renders the entries, in their current order, as `key=value` joined by `&`.
fn build_query(sorted: &Vec<(String, String)>) -> (r: String)
    ensures
        r@ == join_amp(kv_view(sorted@)),
{
    let mut s = String::new();
    let n = sorted.len();
    let mut i: usize = 0;
    proof {
        assert(s@ =~= join_amp(kv_view(sorted@).take(0)));
    }
    while i < n
        invariant
            i <= n,
            n == sorted@.len(),
            s@ == join_amp(kv_view(sorted@).take(i as int)),
        decreases n - i,
    {
        if i > 0 {
            s.append("&");
        }
        s.append(sorted[i].0.as_str());
        s.append("=");
        s.append(sorted[i].1.as_str());
        proof {
            reveal_strlit("&");
            reveal_strlit("=");
            let t = kv_view(sorted@).take(i + 1);
            assert(t.drop_last() =~= kv_view(sorted@).take(i as int));
            assert(t.last() == (sorted@[i as int].0@, sorted@[i as int].1@));
            if i == 0 {
                assert(s@ =~= pair_item(t.last()));
            } else {
                assert(s@ =~= join_amp(t.drop_last()) + seq!['&'] + pair_item(t.last()));
            }
        }
        i = i + 1;
    }
    proof {
        assert(kv_view(sorted@).take(n as int) =~= kv_view(sorted@));
    }
    s
}

/// Signs a parameter map: sets `appkey`, then adds a `sign` entry holding
/// the lowercase-hex MD5 digest of the canonical query string with the
/// secret appended. An empty map still signs: the result then holds only
/// `appkey` and `sign`.
pub fn sign_params(params: ParamMap, app_key: &str, app_secret: &str) -> (r: ParamMap)
    ensures
        r@ == spec_signed_params(params@, app_key@, app_secret@),
{
    let mut p = params;
    p.insert(String::from_str("appkey"), String::from_str(app_key));
    let sorted = sort_pairs(&p.pairs);
    let mut payload = build_query(&sorted);
    payload.append(app_secret);
    let sig = md5_hex(payload.as_str());
    p.insert(String::from_str("sign"), sig);
    p
}

/// Ascending key order, adjacent pair by adjacent pair.
pub open spec fn keys_sorted(s: Seq<(Seq<char>, Seq<char>)>) -> bool {
    forall|i: int| 0 <= i && i + 1 < s.len() ==> lex_le(#[trigger] s[i].0, s[i + 1].0)
}

proof fn lemma_insert_sorted_keeps_sorted(s: Seq<(Seq<char>, Seq<char>)>, p: (Seq<char>, Seq<char>))
    requires
        keys_sorted(s),
    ensures
        keys_sorted(spec_insert_sorted(s, p)),
    decreases s.len(),
{
    if s.len() == 0 {
    } else if lex_le(p.0, s[0].0) {
        let r = seq![p] + s;
        assert forall|i: int| 0 <= i && i + 1 < r.len() implies lex_le(
            #[trigger] r[i].0,
            r[i + 1].0,
        ) by {
            if i == 0 {
                assert(r[0] == p);
                assert(r[1] == s[0]);
            } else {
                assert(r[i] == s[i - 1]);
                assert(r[i + 1] == s[i]);
                assert(lex_le(s[i - 1].0, s[i].0));
            }
        }
    } else {
        lemma_lex_total(p.0, s[0].0);
        assert forall|i: int| 0 <= i && i + 1 < s.drop_first().len() implies lex_le(
            #[trigger] s.drop_first()[i].0,
            s.drop_first()[i + 1].0,
        ) by {
            assert(s.drop_first()[i] == s[i + 1]);
            assert(s.drop_first()[i + 1] == s[i + 2]);
            assert(lex_le(s[i + 1].0, s[i + 2].0));
        }
        lemma_insert_sorted_keeps_sorted(s.drop_first(), p);
        let t = spec_insert_sorted(s.drop_first(), p);
        let r = seq![s[0]] + t;
        if s.len() == 1 {
            assert(t == seq![p]);
        } else if lex_le(p.0, s.drop_first()[0].0) {
            assert(t == seq![p] + s.drop_first());
        } else {
            assert(t == seq![s.drop_first()[0]] + spec_insert_sorted(
                s.drop_first().drop_first(),
                p,
            ));
            assert(t[0] == s[1]);
        }
        assert(lex_le(s[0].0, t[0].0));
        assert forall|i: int| 0 <= i && i + 1 < r.len() implies lex_le(
            #[trigger] r[i].0,
            r[i + 1].0,
        ) by {
            if i == 0 {
                assert(r[0] == s[0]);
                assert(r[1] == t[0]);
            } else {
                assert(r[i] == t[i - 1]);
                assert(r[i + 1] == t[i]);
                assert(lex_le(t[i - 1].0, t[i].0));
            }
        }
    }
}

/// Law (canonical order): the order the signing payload renders its entries
/// in really is ascending by key — in `spec_sort_pairs` every key is at or
/// below its successor in the code-point (byte) order.
pub proof fn lemma_sort_pairs_sorted(s: Seq<(Seq<char>, Seq<char>)>)
    ensures
        keys_sorted(spec_sort_pairs(s)),
    decreases s.len(),
{
    if s.len() > 0 {
        lemma_sort_pairs_sorted(s.drop_last());
        lemma_insert_sorted_keeps_sorted(spec_sort_pairs(s.drop_last()), s.last());
    }
}

proof fn lemma_insert_sorted_multiset(
    s: Seq<(Seq<char>, Seq<char>)>,
    p: (Seq<char>, Seq<char>),
)
    ensures
        spec_insert_sorted(s, p).to_multiset() =~= s.to_multiset().insert(p),
    decreases s.len(),
{
    broadcast use vstd::seq_lib::group_to_multiset_ensures;

    if s.len() == 0 {
        assert(seq![p] =~= Seq::<(Seq<char>, Seq<char>)>::empty().push(p));
        assert(s.to_multiset().len() == 0);
        assert(s.to_multiset() =~= Multiset::<(Seq<char>, Seq<char>)>::empty());
    } else if lex_le(p.0, s[0].0) {
        vstd::seq_lib::lemma_multiset_commutative(seq![p], s);
        assert(seq![p] =~= Seq::<(Seq<char>, Seq<char>)>::empty().push(p));
        assert(seq![p].to_multiset() =~= Multiset::<(Seq<char>, Seq<char>)>::empty().insert(p));
    } else {
        lemma_insert_sorted_multiset(s.drop_first(), p);
        let t = spec_insert_sorted(s.drop_first(), p);
        vstd::seq_lib::lemma_multiset_commutative(seq![s[0]], t);
        assert(seq![s[0]] =~= Seq::<(Seq<char>, Seq<char>)>::empty().push(s[0]));
        assert(seq![s[0]].to_multiset() =~= Multiset::<(Seq<char>, Seq<char>)>::empty().insert(
            s[0],
        ));
        assert(s.remove(0) =~= s.drop_first());
        assert(s.remove(0).to_multiset() =~= s.to_multiset().remove(s[0]));
        assert(s.contains(s[0]));
        assert(s.to_multiset().count(s[0]) > 0);
        assert(spec_insert_sorted(s, p).to_multiset() =~= s.to_multiset().insert(p));
    }
}

proof fn lemma_sorted_pairwise(s: Seq<(Seq<char>, Seq<char>)>, i: int, j: int)
    requires
        keys_sorted(s),
        0 <= i <= j < s.len(),
    ensures
        lex_le(s[i].0, s[j].0),
    decreases j - i,
{
    if i == j {
        lemma_lex_refl(s[i].0);
    } else {
        lemma_sorted_pairwise(s, i, j - 1);
        lemma_lex_trans(s[i].0, s[j - 1].0, s[j].0);
    }
}

/// Law (canonical order, continued): the order is global, not only between
/// neighbours — in the sorted entry list every key is at or below every
/// later key.
pub proof fn lemma_sort_pairs_sorted_global(s: Seq<(Seq<char>, Seq<char>)>)
    ensures
        forall|i: int, j: int|
            0 <= i <= j < spec_sort_pairs(s).len() ==> lex_le(
                #[trigger] spec_sort_pairs(s)[i].0,
                #[trigger] spec_sort_pairs(s)[j].0,
            ),
{
    lemma_sort_pairs_sorted(s);
    assert forall|i: int, j: int| 0 <= i <= j < spec_sort_pairs(s).len() implies lex_le(
        #[trigger] spec_sort_pairs(s)[i].0,
        #[trigger] spec_sort_pairs(s)[j].0,
    ) by {
        lemma_sorted_pairwise(spec_sort_pairs(s), i, j);
    }
}

/// Law (canonical order, continued): sorting only rearranges — the sorted
/// entry list holds exactly the entries of the parameter map, with their
/// multiplicities.
pub proof fn lemma_sort_pairs_permutes(s: Seq<(Seq<char>, Seq<char>)>)
    ensures
        spec_sort_pairs(s).to_multiset() =~= s.to_multiset(),
    decreases s.len(),
{
    broadcast use vstd::seq_lib::group_to_multiset_ensures;

    if s.len() > 0 {
        lemma_sort_pairs_permutes(s.drop_last());
        lemma_insert_sorted_multiset(spec_sort_pairs(s.drop_last()), s.last());
        assert(s =~= s.drop_last().push(s.last()));
        assert(s.drop_last().push(s.last()).to_multiset() =~= s.drop_last().to_multiset().insert(
            s.last(),
        ));
    }
}

/// No two entries share a key.
pub open spec fn keys_distinct(s: Seq<(Seq<char>, Seq<char>)>) -> bool {
    forall|i: int, j: int|
        0 <= i < j < s.len() ==> (#[trigger] s[i].0) != (#[trigger] s[j].0)
}

/// No entry carries the key `k`.
pub open spec fn key_absent(s: Seq<(Seq<char>, Seq<char>)>, k: Seq<char>) -> bool {
    forall|i: int| 0 <= i < s.len() ==> (#[trigger] s[i].0) != k
}

proof fn lemma_insert_sorted_key_absent(
    s: Seq<(Seq<char>, Seq<char>)>,
    p: (Seq<char>, Seq<char>),
    k: Seq<char>,
)
    requires
        key_absent(s, k),
        p.0 != k,
    ensures
        key_absent(spec_insert_sorted(s, p), k),
    decreases s.len(),
{
    if s.len() == 0 {
    } else if lex_le(p.0, s[0].0) {
        let r = seq![p] + s;
        assert forall|i: int| 0 <= i < r.len() implies (#[trigger] r[i].0) != k by {
            if i > 0 {
                assert(r[i] == s[i - 1]);
            }
        }
    } else {
        lemma_insert_sorted_key_absent(s.drop_first(), p, k);
        let t = spec_insert_sorted(s.drop_first(), p);
        let r = seq![s[0]] + t;
        assert forall|i: int| 0 <= i < r.len() implies (#[trigger] r[i].0) != k by {
            if i > 0 {
                assert(r[i] == t[i - 1]);
            }
        }
    }
}

proof fn lemma_insert_sorted_distinct(s: Seq<(Seq<char>, Seq<char>)>, p: (Seq<char>, Seq<char>))
    requires
        keys_distinct(s),
        key_absent(s, p.0),
    ensures
        keys_distinct(spec_insert_sorted(s, p)),
    decreases s.len(),
{
    if s.len() == 0 {
    } else if lex_le(p.0, s[0].0) {
        let r = seq![p] + s;
        assert forall|i: int, j: int|
            0 <= i < j < r.len() implies (#[trigger] r[i].0) != (#[trigger] r[j].0) by {
            assert(r[j] == s[j - 1]);
            if i == 0 {
                assert(s[j - 1].0 != p.0);
            } else {
                assert(r[i] == s[i - 1]);
            }
        }
    } else {
        assert forall|i: int|
            0 <= i < s.drop_first().len() implies (#[trigger] s.drop_first()[i].0) != p.0 by {
            assert(s.drop_first()[i] == s[i + 1]);
        }
        lemma_insert_sorted_distinct(s.drop_first(), p);
        lemma_insert_sorted_key_absent(s.drop_first(), p, s[0].0);
        let t = spec_insert_sorted(s.drop_first(), p);
        let r = seq![s[0]] + t;
        assert forall|i: int, j: int|
            0 <= i < j < r.len() implies (#[trigger] r[i].0) != (#[trigger] r[j].0) by {
            assert(r[j] == t[j - 1]);
            if i > 0 {
                assert(r[i] == t[i - 1]);
            }
        }
    }
}

proof fn lemma_sort_pairs_key_absent(s: Seq<(Seq<char>, Seq<char>)>, k: Seq<char>)
    requires
        key_absent(s, k),
    ensures
        key_absent(spec_sort_pairs(s), k),
    decreases s.len(),
{
    if s.len() > 0 {
        assert forall|i: int|
            0 <= i < s.drop_last().len() implies (#[trigger] s.drop_last()[i].0) != k by {
            assert(s.drop_last()[i] == s[i]);
        }
        lemma_sort_pairs_key_absent(s.drop_last(), k);
        lemma_insert_sorted_key_absent(spec_sort_pairs(s.drop_last()), s.last(), k);
    }
}

/// Law (canonical order, continued): sorting a map with pairwise-distinct
/// keys yields pairwise-distinct keys again.
pub proof fn lemma_sort_pairs_distinct(s: Seq<(Seq<char>, Seq<char>)>)
    requires
        keys_distinct(s),
    ensures
        keys_distinct(spec_sort_pairs(s)),
    decreases s.len(),
{
    if s.len() > 0 {
        assert forall|i: int, j: int|
            0 <= i < j < s.drop_last().len() implies (#[trigger] s.drop_last()[i].0) != (
        #[trigger] s.drop_last()[j].0) by {
            assert(s.drop_last()[i] == s[i]);
            assert(s.drop_last()[j] == s[j]);
        }
        lemma_sort_pairs_distinct(s.drop_last());
        assert forall|i: int|
            0 <= i < s.drop_last().len() implies (#[trigger] s.drop_last()[i].0) != s.last().0 by {
            assert(s.drop_last()[i] == s[i]);
        }
        lemma_sort_pairs_key_absent(s.drop_last(), s.last().0);
        lemma_insert_sorted_distinct(spec_sort_pairs(s.drop_last()), s.last());
    }
}

#[verifier::rlimit(100)]
proof fn lemma_sorted_distinct_unique(x: Seq<(Seq<char>, Seq<char>)>, y: Seq<(Seq<char>, Seq<char>)>)
    requires
        forall|i: int, j: int|
            0 <= i <= j < x.len() ==> lex_le(#[trigger] x[i].0, #[trigger] x[j].0),
        forall|i: int, j: int|
            0 <= i <= j < y.len() ==> lex_le(#[trigger] y[i].0, #[trigger] y[j].0),
        keys_distinct(x),
        keys_distinct(y),
        x.to_multiset() == y.to_multiset(),
    ensures
        x =~= y,
    decreases x.len(),
{
    broadcast use vstd::seq_lib::group_to_multiset_ensures;

    assert(x.to_multiset().len() == x.len());
    assert(y.to_multiset().len() == y.len());
    if x.len() == 0 {
        assert(x =~= y);
    } else {
        assert(x.contains(x[0]));
        assert(x.to_multiset().count(x[0]) > 0);
        assert(y.to_multiset().count(x[0]) > 0);
        assert(y.contains(x[0]));
        let iy = choose|i: int| 0 <= i < y.len() && y[i] == x[0];
        assert(y.contains(y[0]));
        assert(y.to_multiset().count(y[0]) > 0);
        assert(x.to_multiset().count(y[0]) > 0);
        assert(x.contains(y[0]));
        let jx = choose|j: int| 0 <= j < x.len() && x[j] == y[0];
        assert(lex_le(y[0].0, y[iy].0));
        assert(lex_le(x[0].0, x[jx].0));
        lemma_lex_antisym(x[0].0, y[0].0);
        if iy != 0 {
            assert(y[0].0 != y[iy].0);
            assert(false);
        }
        assert(y[0] == x[0]);
        let xt = x.drop_first();
        let yt = y.drop_first();
        assert(x.remove(0) =~= xt);
        assert(x.remove(0).to_multiset() =~= x.to_multiset().remove(x[0]));
        assert(y.remove(0) =~= yt);
        assert(y.remove(0).to_multiset() =~= y.to_multiset().remove(y[0]));
        assert(xt.to_multiset() =~= yt.to_multiset());
        assert forall|i: int, j: int|
            0 <= i <= j < xt.len() implies lex_le(#[trigger] xt[i].0, #[trigger] xt[j].0) by {
            assert(xt[i] == x[i + 1]);
            assert(xt[j] == x[j + 1]);
        }
        assert forall|i: int, j: int|
            0 <= i <= j < yt.len() implies lex_le(#[trigger] yt[i].0, #[trigger] yt[j].0) by {
            assert(yt[i] == y[i + 1]);
            assert(yt[j] == y[j + 1]);
        }
        assert forall|i: int, j: int|
            0 <= i < j < xt.len() implies (#[trigger] xt[i].0) != (#[trigger] xt[j].0) by {
            assert(xt[i] == x[i + 1]);
            assert(xt[j] == x[j + 1]);
        }
        assert forall|i: int, j: int|
            0 <= i < j < yt.len() implies (#[trigger] yt[i].0) != (#[trigger] yt[j].0) by {
            assert(yt[i] == y[i + 1]);
            assert(yt[j] == y[j + 1]);
        }
        lemma_sorted_distinct_unique(xt, yt);
        assert forall|i: int| 0 <= i < x.len() implies x[i] == y[i] by {
            if i > 0 {
                assert(x[i] == xt[i - 1]);
                assert(y[i] == yt[i - 1]);
                assert(xt[i - 1] == yt[i - 1]);
            }
        }
        assert(x =~= y);
    }
}

/// Law (order independence): the canonical query — and with it the
/// signature — depends only on which entries the parameter map holds, not
/// on the order they were assembled in. Two maps holding the same entries,
/// each with no repeated key, sort to the same list and hash the same
/// payload, as they must: the original map carries no order of its own.
pub proof fn lemma_canonical_query_order_independent(
    a: Seq<(Seq<char>, Seq<char>)>,
    b: Seq<(Seq<char>, Seq<char>)>,
)
    requires
        a.to_multiset() == b.to_multiset(),
        keys_distinct(a),
        keys_distinct(b),
    ensures
        spec_sort_pairs(a) == spec_sort_pairs(b),
        canonical_query(a) == canonical_query(b),
{
    lemma_sort_pairs_permutes(a);
    lemma_sort_pairs_permutes(b);
    lemma_sort_pairs_sorted_global(a);
    lemma_sort_pairs_sorted_global(b);
    lemma_sort_pairs_distinct(a);
    lemma_sort_pairs_distinct(b);
    assert(spec_sort_pairs(a).to_multiset() == spec_sort_pairs(b).to_multiset());
    lemma_sorted_distinct_unique(spec_sort_pairs(a), spec_sort_pairs(b));
}

proof fn lemma_lookup_upsert(s: Seq<(Seq<char>, Seq<char>)>, k: Seq<char>, v: Seq<char>)
    ensures
        spec_lookup(spec_upsert(s, k, v), k) == Some(v),
    decreases s.len(),
{
    if s.len() > 0 && s[0].0 != k {
        lemma_lookup_upsert(s.drop_first(), k, v);
        let r = seq![s[0]] + spec_upsert(s.drop_first(), k, v);
        assert(r.drop_first() =~= spec_upsert(s.drop_first(), k, v));
    }
}

/// Law (order independence, applied to the signature): signing two
/// parameter maps that hold the same entries — in any orders, with no
/// repeated key and no `appkey` entry of their own — produces the same
/// `sign` value.
pub proof fn lemma_sign_value_order_independent(
    a: Seq<(Seq<char>, Seq<char>)>,
    b: Seq<(Seq<char>, Seq<char>)>,
    key: Seq<char>,
    secret: Seq<char>,
)
    requires
        a.to_multiset() == b.to_multiset(),
        keys_distinct(a),
        keys_distinct(b),
        key_absent(a, "appkey"@),
        key_absent(b, "appkey"@),
    ensures
        spec_lookup(spec_signed_params(a, key, secret), "sign"@) == spec_lookup(
            spec_signed_params(b, key, secret),
            "sign"@,
        ),
{
    broadcast use vstd::seq_lib::group_to_multiset_ensures;

    let wa = spec_upsert(a, "appkey"@, key);
    let wb = spec_upsert(b, "appkey"@, key);
    lemma_upsert_missing(a, "appkey"@, key);
    lemma_upsert_missing(b, "appkey"@, key);
    assert(wa.to_multiset() =~= a.to_multiset().insert(("appkey"@, key)));
    assert(wb.to_multiset() =~= b.to_multiset().insert(("appkey"@, key)));
    assert forall|i: int, j: int|
        0 <= i < j < wa.len() implies (#[trigger] wa[i].0) != (#[trigger] wa[j].0) by {
        if j + 1 == wa.len() {
            assert(wa[i] == a[i]);
            assert(wa[j] == ("appkey"@, key));
        } else {
            assert(wa[i] == a[i]);
            assert(wa[j] == a[j]);
        }
    }
    assert forall|i: int, j: int|
        0 <= i < j < wb.len() implies (#[trigger] wb[i].0) != (#[trigger] wb[j].0) by {
        if j + 1 == wb.len() {
            assert(wb[i] == b[i]);
            assert(wb[j] == ("appkey"@, key));
        } else {
            assert(wb[i] == b[i]);
            assert(wb[j] == b[j]);
        }
    }
    lemma_canonical_query_order_independent(wa, wb);
    lemma_lookup_upsert(wa, "sign"@, md5_hex_of(signing_payload(wa, secret)));
    lemma_lookup_upsert(wb, "sign"@, md5_hex_of(signing_payload(wb, secret)));
}

/// Law: signing is deterministic. Two equal parameter maps, signed with the
/// same credentials, yield equal signed maps.
pub proof fn lemma_sign_deterministic(
    a: Seq<(Seq<char>, Seq<char>)>,
    b: Seq<(Seq<char>, Seq<char>)>,
    key: Seq<char>,
    secret: Seq<char>,
)
    requires
        a == b,
    ensures
        spec_signed_params(a, key, secret) == spec_signed_params(b, key, secret),
{
}

} // verus!
