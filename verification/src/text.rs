//! Character-sequence utilities for interface-name matching.
//!
//! Interface names are normalized (non-alphanumeric characters removed,
//! the rest lower-cased) before they are compared. The two Unicode
//! classifications come from the standard library through trusted
//! wrappers; everything built on top of them — filtering, substring
//! and affix tests, lexicographic ordering — is verified.

use vstd::prelude::*;
use vstd::string::*;

verus! {

/// Whether Unicode classes the character as alphanumeric; the result
/// depends on the character alone.
pub uninterp spec fn is_unicode_alnum(c: char) -> bool;

/// The Unicode lowercase mapping of a character sequence; the result
/// depends on the characters alone.
pub uninterp spec fn lower_of(s: Seq<char>) -> Seq<char>;

/// Relies on `char::is_alphanumeric`: one Unicode classification,
/// determined by the character alone.
#[verifier::external_body]
pub(crate) fn char_is_alphanumeric(c: char) -> (r: bool)
    ensures
        r == is_unicode_alnum(c),
{
    c.is_alphanumeric()
}

/// Relies on `str::to_lowercase`: the result depends on the characters
/// alone, and an empty string stays empty.
#[verifier::external_body]
pub(crate) fn str_to_lowercase(s: &str) -> (r: String)
    ensures
        r@ == lower_of(s@),
        s@.len() == 0 ==> r@.len() == 0,
{
    s.to_lowercase()
}

/// The Unicode-whitespace trim of a character sequence; the result
/// depends on the characters alone.
pub uninterp spec fn trim_of(s: Seq<char>) -> Seq<char>;

/// Relies on `str::trim`: removes leading and trailing whitespace,
/// so the result is never longer than the input.
#[verifier::external_body]
pub(crate) fn str_trim(s: &str) -> (r: String)
    ensures
        r@ == trim_of(s@),
        r@.len() <= s@.len(),
{
    s.trim().to_string()
}

/// Relies on `String`'s `FromIterator` (through `collect`): collecting
/// characters yields the string of exactly those characters in order.
#[verifier::external_body]
pub(crate) fn chars_to_string(v: &Vec<char>) -> (r: String)
    ensures
        r@ == v@,
{
    v.iter().copied().collect()
}

/// The characters of `s`, as a vector.
pub fn str_chars(s: &str) -> (v: Vec<char>)
    ensures
        v@ == s@,
{
    let n = s.unicode_len();
    let mut v: Vec<char> = Vec::new();
    let mut i: usize = 0;
    while i < n
        invariant
            n == s@.len(),
            i <= n,
            v@.len() == i,
            forall|j: int| 0 <= j < i ==> v@[j] == s@[j],
        decreases n - i,
    {
        v.push(s.get_char(i));
        i = i + 1;
    }
    proof {
        assert(v@ =~= s@);
    }
    v
}

/// The alphanumeric characters of `s`, in order.
pub open spec fn alnum_only(s: Seq<char>) -> Seq<char> {
    s.filter(|c: char| is_unicode_alnum(c))
}

/// A name in canonical form: non-alphanumeric characters removed,
/// the rest lower-cased.
pub open spec fn norm_of(s: Seq<char>) -> Seq<char> {
    lower_of(alnum_only(s))
}

/// Canonicalizes one interface name for fuzzy matching.
pub fn normalize_name(s: &str) -> (v: Vec<char>)
    ensures
        v@ == norm_of(s@),
{
    let n = s.unicode_len();
    let mut kept: Vec<char> = Vec::new();
    let mut i: usize = 0;
    while i < n
        invariant
            n == s@.len(),
            i <= n,
            kept@ == alnum_only(s@.subrange(0, i as int)),
        decreases n - i,
    {
        let c = s.get_char(i);
        let ghost pred = |ch: char| is_unicode_alnum(ch);
        let ghost sub = s@.subrange(0, i as int);
        let ghost sub2 = s@.subrange(0, i + 1);
        if char_is_alphanumeric(c) {
            kept.push(c);
        }
        proof {
            reveal(Seq::filter);
            assert(sub2.drop_last() =~= sub);
            assert(sub2.last() == s@[i as int]);
            assert(sub2.filter(pred) == if pred(s@[i as int]) {
                sub.filter(pred).push(s@[i as int])
            } else {
                sub.filter(pred)
            });
        }
        i = i + 1;
    }
    proof {
        assert(s@.subrange(0, n as int) =~= s@);
    }
    let flat = chars_to_string(&kept);
    let lowered = str_to_lowercase(flat.as_str());
    str_chars(lowered.as_str())
}

/// `p` stands at the front of `s`.
pub open spec fn seq_starts_with(s: Seq<char>, p: Seq<char>) -> bool {
    p.len() <= s.len() && s.subrange(0, p.len() as int) == p
}

/// `p` stands at the back of `s`.
pub open spec fn seq_ends_with(s: Seq<char>, p: Seq<char>) -> bool {
    p.len() <= s.len() && s.subrange(s.len() - p.len(), s.len() as int) == p
}

/// `p` stands somewhere inside `s`.
pub open spec fn seq_contains(s: Seq<char>, p: Seq<char>) -> bool {
    exists|k: int| 0 <= k <= s.len() - p.len() && #[trigger] s.subrange(k, k + p.len()) == p
}

/// Whether `needle` matches `hay` exactly at offset `off`.
fn match_at(hay: &Vec<char>, off: usize, needle: &Vec<char>) -> (r: bool)
    requires
        off + needle@.len() <= hay@.len(),
    ensures
        r == (hay@.subrange(off as int, off as int + needle@.len() as int) == needle@),
{
    let m = needle.len();
    let hl = hay.len();
    let ghost window = hay@.subrange(off as int, off as int + needle@.len() as int);
    let mut j: usize = 0;
    while j < m
        invariant
            m == needle@.len(),
            hl == hay@.len(),
            off + m <= hl,
            window == hay@.subrange(off as int, off as int + m as int),
            j <= m,
            forall|k: int| 0 <= k < j ==> hay@[off + k] == needle@[k],
        decreases m - j,
    {
        if hay[off + j] != needle[j] {
            proof {
                assert(window[j as int] == hay@[off + j]);
            }
            return false;
        }
        j = j + 1;
    }
    proof {
        assert(window =~= needle@);
    }
    true
}

pub fn starts_with_chars(s: &Vec<char>, p: &Vec<char>) -> (r: bool)
    ensures
        r == seq_starts_with(s@, p@),
{
    if p.len() > s.len() {
        false
    } else {
        match_at(s, 0, p)
    }
}

pub fn ends_with_chars(s: &Vec<char>, p: &Vec<char>) -> (r: bool)
    ensures
        r == seq_ends_with(s@, p@),
{
    if p.len() > s.len() {
        false
    } else {
        match_at(s, s.len() - p.len(), p)
    }
}

pub fn contains_chars(hay: &Vec<char>, needle: &Vec<char>) -> (r: bool)
    ensures
        r == seq_contains(hay@, needle@),
{
    let hl = hay.len();
    let nl = needle.len();
    if nl > hl {
        return false;
    }
    if nl == 0 {
        proof {
            assert(hay@.subrange(0, 0 + needle@.len() as int) =~= needle@);
        }
        return true;
    }
    let mut k: usize = 0;
    while k <= hl - nl
        invariant
            hl == hay@.len(),
            nl == needle@.len(),
            1 <= nl <= hl,
            k <= hl - nl + 1,
            forall|j: int|
                0 <= j < k ==> #[trigger] hay@.subrange(j, j + nl as int) != needle@,
        decreases hl - nl + 1 - k,
    {
        if match_at(hay, k, needle) {
            return true;
        }
        k = k + 1;
    }
    false
}

pub fn eq_chars(a: &Vec<char>, b: &Vec<char>) -> (r: bool)
    ensures
        r == (a@ == b@),
{
    if a.len() != b.len() {
        return false;
    }
    let r = match_at(a, 0, b);
    proof {
        assert(a@.subrange(0, b@.len() as int) =~= a@);
    }
    r
}

/// Strict lexicographic order on character sequences, by Unicode scalar
/// value — the order `str`'s own comparison gives.
pub open spec fn lex_lt(a: Seq<char>, b: Seq<char>) -> bool
    decreases a.len(),
{
    if b.len() == 0 {
        false
    } else if a.len() == 0 {
        true
    } else if a[0] == b[0] {
        lex_lt(a.drop_first(), b.drop_first())
    } else {
        (a[0] as int) < (b[0] as int)
    }
}

/// Sharing a prefix of equal characters does not change how two
/// sequences compare.
proof fn lemma_lex_lt_skip(a: Seq<char>, b: Seq<char>, i: int)
    requires
        0 <= i <= a.len(),
        i <= b.len(),
        forall|k: int| 0 <= k < i ==> a[k] == b[k],
    ensures
        lex_lt(a, b) == lex_lt(a.skip(i), b.skip(i)),
    decreases i,
{
    if i == 0 {
        assert(a.skip(0) =~= a);
        assert(b.skip(0) =~= b);
    } else {
        let a1 = a.drop_first();
        let b1 = b.drop_first();
        assert(a[0] == b[0]);
        assert(forall|k: int| 0 <= k < i - 1 ==> a1[k] == b1[k]);
        lemma_lex_lt_skip(a1, b1, i - 1);
        assert(a1.skip(i - 1) =~= a.skip(i));
        assert(b1.skip(i - 1) =~= b.skip(i));
    }
}

/// The order is total: two sequences compare one way, the other, or
/// are equal.
pub proof fn lemma_lex_lt_total(a: Seq<char>, b: Seq<char>)
    ensures
        lex_lt(a, b) || lex_lt(b, a) || a == b,
    decreases a.len(),
{
    if a.len() == 0 {
        if b.len() == 0 {
            assert(a =~= b);
        }
    } else if b.len() == 0 {
    } else if a[0] == b[0] {
        lemma_lex_lt_total(a.drop_first(), b.drop_first());
        if a.drop_first() == b.drop_first() {
            assert(a.drop_first().len() == b.drop_first().len());
            assert(a.len() == b.len());
            assert forall|k: int| 0 <= k < a.len() implies a[k] == b[k] by {
                if k > 0 {
                    assert(a[k] == a.drop_first()[k - 1]);
                    assert(b[k] == b.drop_first()[k - 1]);
                }
            }
            assert(a =~= b);
        }
    }
}

/// The order is transitive.
pub proof fn lemma_lex_lt_trans(a: Seq<char>, b: Seq<char>, c: Seq<char>)
    requires
        lex_lt(a, b),
        lex_lt(b, c),
    ensures
        lex_lt(a, c),
    decreases a.len(),
{
    if a.len() == 0 {
    } else {
        // b and c are nonempty: a strict lower bound exists below each.
        if a[0] == b[0] && b[0] == c[0] {
            lemma_lex_lt_trans(a.drop_first(), b.drop_first(), c.drop_first());
        } else if a[0] == c[0] {
            // Then exactly one of the head pairs differs; either way the
            // numeric comparisons contradict each other.
            assert(false);
        }
    }
}

/// Compares two characters by Unicode scalar value.
fn char_lt(x: char, y: char) -> (r: bool)
    ensures
        r == ((x as int) < (y as int)),
{
    (x as u32) < (y as u32)
}

/// Compares two character vectors in lexicographic order.
pub fn chars_lt(a: &Vec<char>, b: &Vec<char>) -> (r: bool)
    ensures
        r == lex_lt(a@, b@),
{
    let alen = a.len();
    let blen = b.len();
    let mut i: usize = 0;
    loop
        invariant
            alen == a@.len(),
            blen == b@.len(),
            i <= alen,
            i <= blen,
            forall|k: int| 0 <= k < i ==> a@[k] == b@[k],
        decreases alen - i,
    {
        if i == blen {
            proof {
                lemma_lex_lt_skip(a@, b@, i as int);
            }
            return false;
        }
        if i == alen {
            proof {
                lemma_lex_lt_skip(a@, b@, i as int);
            }
            return true;
        }
        let ca = a[i];
        let cb = b[i];
        if ca != cb {
            proof {
                lemma_lex_lt_skip(a@, b@, i as int);
                assert(a@.skip(i as int)[0] == a@[i as int]);
                assert(b@.skip(i as int)[0] == b@[i as int]);
            }
            return char_lt(ca, cb);
        }
        i = i + 1;
    }
}

} // verus!
