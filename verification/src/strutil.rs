//! Character-level string utilities: decimal rendering of integers,
//! string equality, and byte-order (code-point) lexicographic comparison.

use vstd::prelude::*;
use vstd::string::*;

verus! {

/// The decimal digit character for `d` (0 through 9).
pub open spec fn digit_char(d: int) -> char
    recommends
        0 <= d < 10,
{
    if d == 0 {
        '0'
    } else if d == 1 {
        '1'
    } else if d == 2 {
        '2'
    } else if d == 3 {
        '3'
    } else if d == 4 {
        '4'
    } else if d == 5 {
        '5'
    } else if d == 6 {
        '6'
    } else if d == 7 {
        '7'
    } else if d == 8 {
        '8'
    } else {
        '9'
    }
}

/// The usual decimal rendering of `n`: no leading zeroes except for `n == 0`.
pub open spec fn dec_rep(n: nat) -> Seq<char>
    decreases n,
{
    if n < 10 {
        seq![digit_char(n as int)]
    } else {
        dec_rep(n / 10).push(digit_char((n % 10) as int))
    }
}

/// The decimal rendering of a signed value: a leading `-` when negative.
pub open spec fn int_dec_rep(v: int) -> Seq<char> {
    if v < 0 {
        seq!['-'] + dec_rep((-v) as nat)
    } else {
        dec_rep(v as nat)
    }
}

fn digit_str(d: u8) -> (r: &'static str)
    requires
        d < 10,
    ensures
        r@ =~= seq![digit_char(d as int)],
{
    if d == 0 {
        proof {
            reveal_strlit("0");
        }
        "0"
    } else if d == 1 {
        proof {
            reveal_strlit("1");
        }
        "1"
    } else if d == 2 {
        proof {
            reveal_strlit("2");
        }
        "2"
    } else if d == 3 {
        proof {
            reveal_strlit("3");
        }
        "3"
    } else if d == 4 {
        proof {
            reveal_strlit("4");
        }
        "4"
    } else if d == 5 {
        proof {
            reveal_strlit("5");
        }
        "5"
    } else if d == 6 {
        proof {
            reveal_strlit("6");
        }
        "6"
    } else if d == 7 {
        proof {
            reveal_strlit("7");
        }
        "7"
    } else if d == 8 {
        proof {
            reveal_strlit("8");
        }
        "8"
    } else {
        proof {
            reveal_strlit("9");
        }
        "9"
    }
}

/// Renders `n` in decimal, exactly as `u64::to_string` does.
pub fn u64_to_string(n: u64) -> (r: String)
    ensures
        r@ == dec_rep(n as nat),
    decreases n,
{
    if n < 10 {
        let mut s = String::new();
        s.append(digit_str(n as u8));
        proof {
            assert(s@ =~= dec_rep(n as nat));
        }
        s
    } else {
        let mut s = u64_to_string(n / 10);
        s.append(digit_str((n % 10) as u8));
        proof {
            assert(s@ =~= dec_rep(n as nat));
        }
        s
    }
}

/// Renders `n` in decimal, exactly as `u32::to_string` does.
pub fn u32_to_string(n: u32) -> (r: String)
    ensures
        r@ == dec_rep(n as nat),
{
    u64_to_string(n as u64)
}

/// Renders `n` in decimal with a sign, exactly as `i64::to_string` does.
pub fn i64_to_string(n: i64) -> (r: String)
    ensures
        r@ == int_dec_rep(n as int),
{
    if n >= 0 {
        u64_to_string(n as u64)
    } else {
        let m: u64 = ((-(n + 1)) as u64) + 1;
        let mut s = String::new();
        s.append("-");
        let digits = u64_to_string(m);
        s.append(digits.as_str());
        proof {
            reveal_strlit("-");
            assert(m as nat == (-(n as int)) as nat);
            assert(s@ =~= int_dec_rep(n as int));
        }
        s
    }
}

/// True exactly when the two strings have the same characters.
pub fn str_eq(a: &str, b: &str) -> (r: bool)
    ensures
        r == (a@ == b@),
{
    let alen = a.unicode_len();
    let blen = b.unicode_len();
    if alen != blen {
        return false;
    }
    let mut i: usize = 0;
    while i < alen
        invariant
            i <= alen,
            alen == a@.len(),
            alen == b@.len(),
            forall|j: int| 0 <= j < i ==> a@[j] == b@[j],
        decreases alen - i,
    {
        if a.get_char(i) != b.get_char(i) {
            return false;
        }
        i = i + 1;
    }
    proof {
        assert(a@ =~= b@);
    }
    true
}

/// Lexicographic "less than or equal" on character sequences by code point.
/// On UTF-8 text this coincides with the byte-wise order that `str`'s `Ord`
/// uses, since UTF-8 preserves code-point order.
pub open spec fn lex_le(a: Seq<char>, b: Seq<char>) -> bool {
    ||| (exists|i: int|
        0 <= i < a.len() && i < b.len() && (forall|j: int| 0 <= j < i ==> a[j] == b[j]) && (a[i]
            as u32) < (b[i] as u32))
    ||| (a.len() <= b.len() && (forall|j: int| 0 <= j < a.len() ==> a[j] == b[j]))
}

/// Decides `lex_le` on two strings.
pub fn str_le(a: &str, b: &str) -> (r: bool)
    ensures
        r == lex_le(a@, b@),
{
    let alen = a.unicode_len();
    let blen = b.unicode_len();
    let min: usize = if alen < blen {
        alen
    } else {
        blen
    };
    let mut i: usize = 0;
    while i < min
        invariant
            i <= min,
            alen == a@.len(),
            blen == b@.len(),
            min == if alen < blen {
                alen
            } else {
                blen
            },
            forall|j: int| 0 <= j < i ==> a@[j] == b@[j],
        decreases min - i,
    {
        let ca = a.get_char(i) as u32;
        let cb = b.get_char(i) as u32;
        if ca < cb {
            proof {
                assert(0 <= i < a@.len() && i < b@.len() && (forall|j: int|
                    0 <= j < i ==> a@[j] == b@[j]) && (a@[i as int] as u32) < (b@[i as int] as u32));
            }
            return true;
        }
        if ca > cb {
            proof {
                lemma_lex_gt(a@, b@, i as int);
            }
            return false;
        }
        i = i + 1;
    }
    if alen <= blen {
        true
    } else {
        proof {
            lemma_lex_long(a@, b@, min as int);
        }
        false
    }
}

proof fn lemma_lex_gt(a: Seq<char>, b: Seq<char>, i: int)
    requires
        0 <= i < a.len(),
        i < b.len(),
        forall|j: int| 0 <= j < i ==> a[j] == b[j],
        (a[i] as u32) > (b[i] as u32),
    ensures
        !lex_le(a, b),
{
    assert forall|k: int|
        0 <= k < a.len() && k < b.len() && (forall|j: int| 0 <= j < k ==> a[j] == b[j]) implies !((
    a[k] as u32) < (b[k] as u32)) by {
        if k < i {
        } else if k == i {
        } else {
            assert(a[i] == b[i]);
        }
    }
    if a.len() <= b.len() && (forall|j: int| 0 <= j < a.len() ==> a[j] == b[j]) {
        assert(a[i] == b[i]);
    }
}

proof fn lemma_lex_long(a: Seq<char>, b: Seq<char>, m: int)
    requires
        b.len() < a.len(),
        m == b.len(),
        forall|j: int| 0 <= j < m ==> a[j] == b[j],
    ensures
        !lex_le(a, b),
{
    assert forall|k: int|
        0 <= k < a.len() && k < b.len() && (forall|j: int| 0 <= j < k ==> a[j] == b[j]) implies !((
    a[k] as u32) < (b[k] as u32)) by {
        assert(a[k] == b[k]);
    }
}

#[verifier::rlimit(100)]
proof fn lex_total_from(a: Seq<char>, b: Seq<char>, k: int)
    requires
        0 <= k <= a.len(),
        k <= b.len(),
        forall|j: int| 0 <= j < k ==> a[j] == b[j],
    ensures
        lex_le(a, b) || lex_le(b, a),
    decreases a.len() - k,
{
    if k == a.len() {
        assert(a.len() <= b.len() && (forall|j: int| 0 <= j < a.len() ==> a[j] == b[j]));
        assert(lex_le(a, b));
    } else if k == b.len() {
        assert(b.len() <= a.len() && (forall|j: int| 0 <= j < b.len() ==> b[j] == a[j]));
        assert(lex_le(b, a));
    } else if (a[k] as u32) < (b[k] as u32) {
        assert(0 <= k < a.len() && k < b.len() && (forall|j: int| 0 <= j < k ==> a[j] == b[j]) && (
        a[k] as u32) < (b[k] as u32));
        assert(lex_le(a, b));
    } else if (a[k] as u32) > (b[k] as u32) {
        assert(0 <= k < b.len() && k < a.len() && (forall|j: int| 0 <= j < k ==> b[j] == a[j]) && (
        b[k] as u32) < (a[k] as u32));
        assert(lex_le(b, a));
    } else {
        vstd::utf8::char_u32_cast(a[k], a[k] as u32);
        vstd::utf8::char_u32_cast(b[k], b[k] as u32);
        assert(a[k] == b[k]);
        lex_total_from(a, b, k + 1);
    }
}

/// The lexicographic order is total: of any two strings, one is less than
/// or equal to the other.
pub proof fn lemma_lex_total(a: Seq<char>, b: Seq<char>)
    ensures
        lex_le(a, b) || lex_le(b, a),
{
    lex_total_from(a, b, 0);
}

/// The lexicographic order is reflexive.
pub proof fn lemma_lex_refl(a: Seq<char>)
    ensures
        lex_le(a, a),
{
    assert(a.len() <= a.len() && (forall|j: int| 0 <= j < a.len() ==> a[j] == a[j]));
}

#[verifier::rlimit(100)]
proof fn lex_antisym_from(a: Seq<char>, b: Seq<char>, k: int)
    requires
        0 <= k <= a.len(),
        k <= b.len(),
        forall|j: int| 0 <= j < k ==> a[j] == b[j],
        lex_le(a, b),
        lex_le(b, a),
    ensures
        a =~= b,
    decreases a.len() - k,
{
    if k == a.len() {
        if exists|i: int|
            0 <= i < b.len() && i < a.len() && (forall|j: int| 0 <= j < i ==> b[j] == a[j]) && (
            b[i] as u32) < (a[i] as u32) {
            let i = choose|i: int|
                0 <= i < b.len() && i < a.len() && (forall|j: int| 0 <= j < i ==> b[j] == a[j])
                    && (b[i] as u32) < (a[i] as u32);
            assert(a[i] == b[i]);
            assert(false);
        }
        assert(b.len() <= a.len());
        assert(a =~= b);
    } else if k == b.len() {
        if exists|i: int|
            0 <= i < a.len() && i < b.len() && (forall|j: int| 0 <= j < i ==> a[j] == b[j]) && (
            a[i] as u32) < (b[i] as u32) {
            let i = choose|i: int|
                0 <= i < a.len() && i < b.len() && (forall|j: int| 0 <= j < i ==> a[j] == b[j])
                    && (a[i] as u32) < (b[i] as u32);
            assert(a[i] == b[i]);
            assert(false);
        }
        assert(a.len() <= b.len());
        assert(a =~= b);
    } else if (a[k] as u32) < (b[k] as u32) {
        lemma_lex_gt(b, a, k);
        assert(false);
    } else if (a[k] as u32) > (b[k] as u32) {
        lemma_lex_gt(a, b, k);
        assert(false);
    } else {
        vstd::utf8::char_u32_cast(a[k], a[k] as u32);
        vstd::utf8::char_u32_cast(b[k], b[k] as u32);
        assert(a[k] == b[k]);
        lex_antisym_from(a, b, k + 1);
    }
}

/// The lexicographic order is antisymmetric: two strings each at or below
/// the other are the same string.
pub proof fn lemma_lex_antisym(a: Seq<char>, b: Seq<char>)
    requires
        lex_le(a, b),
        lex_le(b, a),
    ensures
        a == b,
{
    lex_antisym_from(a, b, 0);
}

/// The lexicographic order is transitive.
#[verifier::rlimit(100)]
pub proof fn lemma_lex_trans(a: Seq<char>, b: Seq<char>, c: Seq<char>)
    requires
        lex_le(a, b),
        lex_le(b, c),
    ensures
        lex_le(a, c),
{
    if exists|i: int|
        0 <= i < a.len() && i < b.len() && (forall|j: int| 0 <= j < i ==> a[j] == b[j]) && (a[i]
            as u32) < (b[i] as u32) {
        let i = choose|i: int|
            0 <= i < a.len() && i < b.len() && (forall|j: int| 0 <= j < i ==> a[j] == b[j]) && (
            a[i] as u32) < (b[i] as u32);
        if exists|k: int|
            0 <= k < b.len() && k < c.len() && (forall|j: int| 0 <= j < k ==> b[j] == c[j]) && (
            b[k] as u32) < (c[k] as u32) {
            let k = choose|k: int|
                0 <= k < b.len() && k < c.len() && (forall|j: int| 0 <= j < k ==> b[j] == c[j])
                    && (b[k] as u32) < (c[k] as u32);
            if i < k {
                assert(0 <= i < a.len() && i < c.len() && (forall|j: int|
                    0 <= j < i ==> a[j] == c[j]) && (a[i] as u32) < (c[i] as u32));
            } else if k < i {
                assert(0 <= k < a.len() && k < c.len() && (forall|j: int|
                    0 <= j < k ==> a[j] == c[j]) && (a[k] as u32) < (c[k] as u32));
            } else {
                assert(0 <= i < a.len() && i < c.len() && (forall|j: int|
                    0 <= j < i ==> a[j] == c[j]) && (a[i] as u32) < (c[i] as u32));
            }
        } else {
            assert(b.len() <= c.len() && (forall|j: int| 0 <= j < b.len() ==> b[j] == c[j]));
            assert(0 <= i < a.len() && i < c.len() && (forall|j: int| 0 <= j < i ==> a[j] == c[j])
                && (a[i] as u32) < (c[i] as u32));
        }
    } else {
        assert(a.len() <= b.len() && (forall|j: int| 0 <= j < a.len() ==> a[j] == b[j]));
        if exists|k: int|
            0 <= k < b.len() && k < c.len() && (forall|j: int| 0 <= j < k ==> b[j] == c[j]) && (
            b[k] as u32) < (c[k] as u32) {
            let k = choose|k: int|
                0 <= k < b.len() && k < c.len() && (forall|j: int| 0 <= j < k ==> b[j] == c[j])
                    && (b[k] as u32) < (c[k] as u32);
            if k < a.len() {
                assert(0 <= k < a.len() && k < c.len() && (forall|j: int|
                    0 <= j < k ==> a[j] == c[j]) && (a[k] as u32) < (c[k] as u32));
            } else {
                assert(a.len() <= c.len() && (forall|j: int| 0 <= j < a.len() ==> a[j] == c[j]));
            }
        } else {
            assert(b.len() <= c.len() && (forall|j: int| 0 <= j < b.len() ==> b[j] == c[j]));
            assert(a.len() <= c.len() && (forall|j: int| 0 <= j < a.len() ==> a[j] == c[j]));
        }
    }
}

} // verus!
