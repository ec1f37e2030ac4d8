//! Small verified routines on text: lexicographic order and decimal numbers.

use vstd::prelude::*;
use vstd::string::StrSliceExecFns;

verus! {

/// The characters of each text.
pub open spec fn texts(v: Seq<String>) -> Seq<Seq<char>> {
    v.map_values(|s: String| s@)
}

/// Lexicographic order on texts by code point: `a` comes strictly before `b`.
pub open spec fn text_lt(a: Seq<char>, b: Seq<char>) -> bool {
    exists|k: int|
        0 <= k <= a.len() && k < b.len() && #[trigger] a.take(k) == b.take(k) && (k == a.len() || (
        a[k] as u32) < (b[k] as u32))
}

/// No text comes before itself.
pub proof fn lemma_text_lt_irreflexive(a: Seq<char>)
    ensures
        !text_lt(a, a),
{
}

/// The lexicographic order is transitive.
pub proof fn lemma_text_lt_transitive(a: Seq<char>, b: Seq<char>, c: Seq<char>)
    requires
        text_lt(a, b),
        text_lt(b, c),
    ensures
        text_lt(a, c),
{
    let k1 = choose|k: int|
        0 <= k <= a.len() && k < b.len() && #[trigger] a.take(k) == b.take(k) && (k == a.len() || (
        a[k] as u32) < (b[k] as u32));
    let k2 = choose|k: int|
        0 <= k <= b.len() && k < c.len() && #[trigger] b.take(k) == c.take(k) && (k == b.len() || (
        b[k] as u32) < (c[k] as u32));
    let k = if k1 <= k2 { k1 } else { k2 };
    assert forall|i: int| 0 <= i < k1 implies a[i] == b[i] by {
        assert(a.take(k1)[i] == b.take(k1)[i]);
    }
    assert forall|i: int| 0 <= i < k2 implies b[i] == c[i] by {
        assert(b.take(k2)[i] == c.take(k2)[i]);
    }
    assert(a.take(k) =~= c.take(k));
}

/// How two values stand to each other in an order.
#[derive(Clone, Copy, Debug, PartialEq, Eq, Structural)]
pub enum Rank {
    Before,
    Same,
    After,
}

/// Where `a` stands to `b` in the lexicographic order.
pub open spec fn text_rank(a: Seq<char>, b: Seq<char>) -> Rank {
    if a == b {
        Rank::Same
    } else if text_lt(a, b) {
        Rank::Before
    } else {
        Rank::After
    }
}

/// Compares two texts lexicographically by code point.
pub fn rank_text(a: &str, b: &str) -> (r: Rank)
    ensures
        r == text_rank(a@, b@),
        r == Rank::Before ==> text_lt(a@, b@),
        r == Rank::After ==> text_lt(b@, a@),
{
    let r = first_difference(a, b);
    proof {
        lemma_text_lt_irreflexive(a@);
        if text_lt(a@, b@) && text_lt(b@, a@) {
            lemma_text_lt_transitive(a@, b@, a@);
        }
    }
    r
}

fn first_difference(a: &str, b: &str) -> (r: Rank)
    ensures
        r == Rank::Before ==> text_lt(a@, b@),
        r == Rank::Same ==> a@ == b@,
        r == Rank::After ==> text_lt(b@, a@),
{
    let la: usize = a.unicode_len();
    let lb: usize = b.unicode_len();
    let mut k: usize = 0;
    while k < la && k < lb
        invariant
            la == a@.len(),
            lb == b@.len(),
            k <= la,
            k <= lb,
            a@.take(k as int) == b@.take(k as int),
        decreases la - k,
    {
        let ca: char = a.get_char(k);
        let cb: char = b.get_char(k);
        if (ca as u32) < (cb as u32) {
            return Rank::Before;
        }
        if (cb as u32) < (ca as u32) {
            return Rank::After;
        }
        assert(ca == cb);
        assert(a@.take(k + 1) =~= a@.take(k as int).push(ca));
        assert(b@.take(k + 1) =~= b@.take(k as int).push(cb));
        k = k + 1;
    }
    if k < lb {
        Rank::Before
    } else if k < la {
        Rank::After
    } else {
        assert(a@.take(k as int) =~= a@);
        assert(b@.take(k as int) =~= b@);
        Rank::Same
    }
}

/// The texts are equal.
pub fn same_text(a: &str, b: &str) -> (r: bool)
    ensures
        r == (a@ == b@),
{
    let la: usize = a.unicode_len();
    let lb: usize = b.unicode_len();
    if la != lb {
        return false;
    }
    let mut k: usize = 0;
    while k < la
        invariant
            la == a@.len(),
            lb == b@.len(),
            la == lb,
            k <= la,
            a@.take(k as int) == b@.take(k as int),
        decreases la - k,
    {
        let ca: char = a.get_char(k);
        let cb: char = b.get_char(k);
        if ca != cb {
            return false;
        }
        assert(a@.take(k + 1) =~= a@.take(k as int).push(ca));
        assert(b@.take(k + 1) =~= b@.take(k as int).push(cb));
        k = k + 1;
    }
    assert(a@.take(k as int) =~= a@);
    assert(b@.take(k as int) =~= b@);
    true
}

/// Every character is an ASCII digit, and there is at least one.
pub open spec fn is_digits(s: Seq<char>) -> bool {
    s.len() > 0 && forall|i: int| 0 <= i < s.len() ==> '0' <= #[trigger] s[i] <= '9'
}

/// The number that a text of ASCII digits writes in base ten.
pub open spec fn digits_value(s: Seq<char>) -> nat
    decreases s.len(),
{
    if s.len() == 0 {
        0
    } else {
        digits_value(s.drop_last()) * 10 + (s.last() as u32 - '0' as u32) as nat
    }
}

/// The `u32` that `s` writes in base ten, if it writes one.
pub open spec fn decimal_u32(s: Seq<char>) -> Option<u32> {
    if is_digits(s) && digits_value(s) <= u32::MAX {
        Some(digits_value(s) as u32)
    } else {
        None
    }
}

/// Reads a `u32` written in ASCII digits; refuses anything else, and any value
/// that does not fit.
pub fn parse_u32(s: &str) -> (r: Option<u32>)
    ensures
        r == decimal_u32(s@),
{
    let n: usize = s.unicode_len();
    if n == 0 {
        return None;
    }
    let mut acc: u64 = 0;
    let mut overflow: bool = false;
    let mut i: usize = 0;
    while i < n
        invariant
            n == s@.len(),
            i <= n,
            forall|j: int| 0 <= j < i ==> '0' <= #[trigger] s@[j] <= '9',
            !overflow ==> acc == digits_value(s@.take(i as int)) && acc <= u32::MAX,
            overflow ==> digits_value(s@.take(i as int)) > u32::MAX,
        decreases n - i,
    {
        let c: char = s.get_char(i);
        if (c as u32) < ('0' as u32) || (c as u32) > ('9' as u32) {
            return None;
        }
        let d: u64 = ((c as u32) - ('0' as u32)) as u64;
        proof {
            assert(s@.take(i + 1).drop_last() =~= s@.take(i as int));
            assert(s@.take(i + 1).last() == c);
        }
        if !overflow {
            acc = acc * 10 + d;
            if acc > 0xffff_ffffu64 {
                overflow = true;
            }
        }
        i = i + 1;
    }
    assert(s@.take(i as int) =~= s@);
    if overflow {
        None
    } else {
        Some(acc as u32)
    }
}

} // verus!
