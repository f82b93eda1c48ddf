//! The interface reconciler.
//!
//! Two independently enumerated interface lists disagree on naming:
//! list A carries traffic counters and is the source of truth for
//! identity, list B carries addresses. For one A-name the reconciler
//! gathers the B-addresses that plausibly belong to it, in three
//! stages, stopping at the first stage with a result:
//!
//! 1. exact match on normalized names, or either-contains-the-other;
//! 2. prefix/suffix match in either direction;
//! 3. fallback: every B-address that is not loopback.
//!
//! The output is deduplicated and sorted for determinism. The fallback
//! trades precision for availability: an interface is never shown with
//! an empty address set while any non-loopback address exists.

use vstd::prelude::*;
use crate::text::{
    norm_of, normalize_name, seq_contains, seq_starts_with, seq_ends_with, lex_lt,
    lemma_lex_lt_total, lemma_lex_lt_trans, chars_lt, eq_chars, contains_chars,
    starts_with_chars, ends_with_chars, str_chars,
};

verus! {

/// One entry of the address-bearing enumeration: an interface name
/// and one address resolved on it.
pub struct AddrEntry {
    pub name: String,
    pub ip: String,
}

/// Stage 1: the normalized names are equal, or either contains the
/// other.
pub open spec fn name_close_match(a_norm: Seq<char>, b_norm: Seq<char>) -> bool {
    b_norm == a_norm || seq_contains(b_norm, a_norm) || seq_contains(a_norm, b_norm)
}

/// Stage 2: one normalized name is a prefix or suffix of the other.
pub open spec fn name_affix_match(a_norm: Seq<char>, b_norm: Seq<char>) -> bool {
    ||| seq_starts_with(b_norm, a_norm)
    ||| seq_ends_with(b_norm, a_norm)
    ||| seq_starts_with(a_norm, b_norm)
    ||| seq_ends_with(a_norm, b_norm)
}

/// A loopback address: anything in `127.0.0.0/8`, or `::1`.
pub open spec fn is_loopback_ip(ip: Seq<char>) -> bool {
    seq_starts_with(ip, "127."@) || ip == "::1"@
}

/// The addresses of the entries whose normalized name closely matches
/// `a_norm`, in enumeration order.
pub open spec fn close_ips(a_norm: Seq<char>, entries: Seq<AddrEntry>) -> Seq<Seq<char>>
    decreases entries.len(),
{
    if entries.len() == 0 {
        Seq::empty()
    } else {
        let rest = close_ips(a_norm, entries.drop_last());
        if name_close_match(a_norm, norm_of(entries.last().name@)) {
            rest.push(entries.last().ip@)
        } else {
            rest
        }
    }
}

/// The addresses of the entries whose normalized name matches `a_norm`
/// as a prefix or suffix, in enumeration order.
pub open spec fn affix_ips(a_norm: Seq<char>, entries: Seq<AddrEntry>) -> Seq<Seq<char>>
    decreases entries.len(),
{
    if entries.len() == 0 {
        Seq::empty()
    } else {
        let rest = affix_ips(a_norm, entries.drop_last());
        if name_affix_match(a_norm, norm_of(entries.last().name@)) {
            rest.push(entries.last().ip@)
        } else {
            rest
        }
    }
}

/// Every non-loopback address, in enumeration order.
pub open spec fn fallback_ips(entries: Seq<AddrEntry>) -> Seq<Seq<char>>
    decreases entries.len(),
{
    if entries.len() == 0 {
        Seq::empty()
    } else {
        let rest = fallback_ips(entries.drop_last());
        if !is_loopback_ip(entries.last().ip@) {
            rest.push(entries.last().ip@)
        } else {
            rest
        }
    }
}

/// The candidate addresses for one A-name: the first non-empty stage.
pub open spec fn candidate_ips(a_name: Seq<char>, entries: Seq<AddrEntry>) -> Seq<Seq<char>> {
    let a_norm = norm_of(a_name);
    if close_ips(a_norm, entries).len() > 0 {
        close_ips(a_norm, entries)
    } else if affix_ips(a_norm, entries).len() > 0 {
        affix_ips(a_norm, entries)
    } else {
        fallback_ips(entries)
    }
}

/// Law: the fallback is a last resort. A close match keeps its stage's
/// result; the affix stage applies only when the close stage is empty;
/// the fallback applies only when both matching stages are empty.
pub proof fn lemma_fallback_last_resort(a_name: Seq<char>, entries: Seq<AddrEntry>)
    ensures
        close_ips(norm_of(a_name), entries).len() > 0 ==> candidate_ips(a_name, entries)
            == close_ips(norm_of(a_name), entries),
        close_ips(norm_of(a_name), entries).len() == 0 && affix_ips(norm_of(a_name), entries).len()
            > 0 ==> candidate_ips(a_name, entries) == affix_ips(norm_of(a_name), entries),
        close_ips(norm_of(a_name), entries).len() == 0 && affix_ips(norm_of(a_name), entries).len()
            == 0 ==> candidate_ips(a_name, entries) == fallback_ips(entries),
{
}

/// Law: no loopback address survives the fallback stage.
pub proof fn lemma_fallback_excludes_loopback(entries: Seq<AddrEntry>, i: int)
    requires
        0 <= i < fallback_ips(entries).len(),
    ensures
        !is_loopback_ip(fallback_ips(entries)[i]),
    decreases entries.len(),
{
    if entries.len() > 0 {
        let rest = fallback_ips(entries.drop_last());
        if i < rest.len() {
            lemma_fallback_excludes_loopback(entries.drop_last(), i);
        }
    }
}

/// The address sequence a string vector stands for.
pub open spec fn views_of(v: Seq<String>) -> Seq<Seq<char>> {
    v.map_values(|s: String| s@)
}

/// Whether some string in `v` reads `x`.
pub open spec fn has_ip(v: Seq<String>, x: Seq<char>) -> bool {
    exists|i: int| #![trigger v[i]] 0 <= i < v.len() && v[i]@ == x
}

/// The strings are in strictly increasing lexicographic order — so
/// sorted, with no duplicates.
pub open spec fn strictly_sorted(v: Seq<String>) -> bool {
    forall|i: int, j: int| #![trigger v[i], v[j]] 0 <= i < j < v.len() ==> lex_lt(v[i]@, v[j]@)
}

proof fn lemma_has_ip_views(v: Seq<String>, x: Seq<char>)
    ensures
        has_ip(v, x) == views_of(v).contains(x),
{
    if has_ip(v, x) {
        let i = choose|i: int| 0 <= i < v.len() && v[i]@ == x;
        assert(views_of(v)[i] == x);
    }
    if views_of(v).contains(x) {
        let i = choose|i: int| 0 <= i < views_of(v).len() && views_of(v)[i] == x;
        assert(v[i]@ == x);
    }
}

proof fn lemma_has_ip_extend(v: Seq<String>, i: int, x: Seq<char>)
    requires
        0 <= i < v.len(),
    ensures
        has_ip(v.subrange(0, i + 1), x) == (has_ip(v.subrange(0, i), x) || v[i]@ == x),
{
    let sub = v.subrange(0, i);
    let sub2 = v.subrange(0, i + 1);
    if has_ip(sub2, x) {
        let k = choose|k: int| 0 <= k < sub2.len() && sub2[k]@ == x;
        if k < i {
            assert(sub[k]@ == x);
        } else {
            assert(v[i]@ == x);
        }
    }
    if has_ip(sub, x) {
        let k = choose|k: int| 0 <= k < sub.len() && sub[k]@ == x;
        assert(sub2[k]@ == x);
    }
    if v[i]@ == x {
        assert(sub2[i]@ == x);
    }
}

/// Collects the stage-1 addresses for an already-normalized A-name.
fn collect_close(a_norm: &Vec<char>, entries: &Vec<AddrEntry>) -> (r: Vec<String>)
    ensures
        views_of(r@) == close_ips(a_norm@, entries@),
{
    let mut out: Vec<String> = Vec::new();
    let mut i: usize = 0;
    let n = entries.len();
    while i < n
        invariant
            n == entries@.len(),
            i <= n,
            views_of(out@) == close_ips(a_norm@, entries@.subrange(0, i as int)),
        decreases n - i,
    {
        let ghost sub = entries@.subrange(0, i as int);
        let ghost sub2 = entries@.subrange(0, i + 1);
        let nb = normalize_name(entries[i].name.as_str());
        let matched = eq_chars(&nb, a_norm) || contains_chars(&nb, a_norm)
            || contains_chars(a_norm, &nb);
        if matched {
            out.push(entries[i].ip.clone());
        }
        proof {
            assert(sub2.drop_last() =~= sub);
            assert(sub2.last() == entries@[i as int]);
            if matched {
                assert(views_of(out@) =~= close_ips(a_norm@, sub).push(entries@[i as int].ip@));
            }
        }
        i = i + 1;
    }
    proof {
        assert(entries@.subrange(0, n as int) =~= entries@);
    }
    out
}

/// Collects the stage-2 addresses for an already-normalized A-name.
fn collect_affix(a_norm: &Vec<char>, entries: &Vec<AddrEntry>) -> (r: Vec<String>)
    ensures
        views_of(r@) == affix_ips(a_norm@, entries@),
{
    let mut out: Vec<String> = Vec::new();
    let mut i: usize = 0;
    let n = entries.len();
    while i < n
        invariant
            n == entries@.len(),
            i <= n,
            views_of(out@) == affix_ips(a_norm@, entries@.subrange(0, i as int)),
        decreases n - i,
    {
        let ghost sub = entries@.subrange(0, i as int);
        let ghost sub2 = entries@.subrange(0, i + 1);
        let nb = normalize_name(entries[i].name.as_str());
        let matched = starts_with_chars(&nb, a_norm) || ends_with_chars(&nb, a_norm)
            || starts_with_chars(a_norm, &nb) || ends_with_chars(a_norm, &nb);
        if matched {
            out.push(entries[i].ip.clone());
        }
        proof {
            assert(sub2.drop_last() =~= sub);
            assert(sub2.last() == entries@[i as int]);
            if matched {
                assert(views_of(out@) =~= affix_ips(a_norm@, sub).push(entries@[i as int].ip@));
            }
        }
        i = i + 1;
    }
    proof {
        assert(entries@.subrange(0, n as int) =~= entries@);
    }
    out
}

/// Whether one address is loopback.
pub fn ip_is_loopback(ip: &String) -> (r: bool)
    ensures
        r == is_loopback_ip(ip@),
{
    let ip_chars = str_chars(ip.as_str());
    let v4_prefix = str_chars("127.");
    let v6_loop = str_chars("::1");
    starts_with_chars(&ip_chars, &v4_prefix) || eq_chars(&ip_chars, &v6_loop)
}

/// Collects the fallback addresses: everything not loopback.
fn collect_fallback(entries: &Vec<AddrEntry>) -> (r: Vec<String>)
    ensures
        views_of(r@) == fallback_ips(entries@),
{
    let mut out: Vec<String> = Vec::new();
    let mut i: usize = 0;
    let n = entries.len();
    while i < n
        invariant
            n == entries@.len(),
            i <= n,
            views_of(out@) == fallback_ips(entries@.subrange(0, i as int)),
        decreases n - i,
    {
        let ghost sub = entries@.subrange(0, i as int);
        let ghost sub2 = entries@.subrange(0, i + 1);
        let keep = !ip_is_loopback(&entries[i].ip);
        if keep {
            out.push(entries[i].ip.clone());
        }
        proof {
            assert(sub2.drop_last() =~= sub);
            assert(sub2.last() == entries@[i as int]);
            if keep {
                assert(views_of(out@) =~= fallback_ips(sub).push(entries@[i as int].ip@));
            }
        }
        i = i + 1;
    }
    proof {
        assert(entries@.subrange(0, n as int) =~= entries@);
    }
    out
}

/// Inserts one address into a strictly sorted vector, keeping it
/// strictly sorted; an address already present is not duplicated.
fn insert_sorted_unique(out: &mut Vec<String>, ip: String)
    requires
        strictly_sorted(old(out)@),
    ensures
        strictly_sorted(final(out)@),
        forall|x: Seq<char>|
            #[trigger] has_ip(final(out)@, x) == (has_ip(old(out)@, x) || x == ip@),
{
    let ghost oldv = old(out)@;
    let ip_chars = str_chars(ip.as_str());
    let n = out.len();
    let mut i: usize = 0;
    let mut put = true;
    while i < n
        invariant_except_break
            n == out@.len(),
            out@ == oldv,
            i <= n,
            put,
            forall|k: int| #![trigger out@[k]] 0 <= k < i ==> lex_lt(out@[k]@, ip@),
            strictly_sorted(out@),
            ip_chars@ == ip@,
        ensures
            n == out@.len(),
            out@ == oldv,
            i <= n,
            strictly_sorted(out@),
            ip_chars@ == ip@,
            forall|k: int| #![trigger out@[k]] 0 <= k < i ==> lex_lt(out@[k]@, ip@),
            put ==> (i == n || lex_lt(ip@, out@[i as int]@)),
            !put ==> (i < n && out@[i as int]@ == ip@),
        decreases n - i,
    {
        let oc = str_chars(out[i].as_str());
        if chars_lt(&oc, &ip_chars) {
            i = i + 1;
        } else if eq_chars(&oc, &ip_chars) {
            put = false;
            break;
        } else {
            proof {
                lemma_lex_lt_total(ip@, out@[i as int]@);
            }
            break;
        }
    }
    if !put {
        proof {
            assert forall|x: Seq<char>|
                #[trigger] has_ip(out@, x) == (has_ip(oldv, x) || x == ip@) by {
                if x == ip@ {
                    assert(out@[i as int]@ == x);
                }
            }
        }
        return;
    }
    out.insert(i, ip);
    proof {
        oldv.insert_ensures(i as int, ip);
        let newv = out@;
        assert(newv == oldv.insert(i as int, ip));
        assert forall|p: int, q: int| 0 <= p < q < newv.len() implies lex_lt(
            (#[trigger] newv[p])@,
            (#[trigger] newv[q])@,
        ) by {
            if q < i {
                assert(newv[p] == oldv[p] && newv[q] == oldv[q]);
            } else if q == i {
                assert(newv[p] == oldv[p]);
                assert(lex_lt(oldv[p]@, ip@));
            } else {
                assert(newv[q] == oldv[q - 1]);
                if p < i {
                    assert(newv[p] == oldv[p]);
                    if p == q - 1 {
                        assert(false);
                    } else {
                        assert(lex_lt(oldv[p]@, oldv[q - 1]@));
                    }
                } else if p == i {
                    assert(newv[p]@ == ip@);
                    if q - 1 == i {
                        assert(lex_lt(ip@, oldv[i as int]@));
                    } else {
                        assert(lex_lt(ip@, oldv[i as int]@));
                        assert(lex_lt(oldv[i as int]@, oldv[q - 1]@));
                        lemma_lex_lt_trans(ip@, oldv[i as int]@, oldv[q - 1]@);
                    }
                } else {
                    assert(newv[p] == oldv[p - 1]);
                    assert(lex_lt(oldv[p - 1]@, oldv[q - 1]@));
                }
            }
        }
        assert forall|x: Seq<char>|
            #[trigger] has_ip(newv, x) == (has_ip(oldv, x) || x == ip@) by {
            if has_ip(newv, x) {
                let k = choose|k: int| 0 <= k < newv.len() && newv[k]@ == x;
                if k < i {
                    assert(oldv[k]@ == x);
                } else if k == i {
                    assert(x == ip@);
                } else {
                    assert(oldv[k - 1]@ == x);
                }
            }
            if has_ip(oldv, x) {
                let k = choose|k: int| 0 <= k < oldv.len() && oldv[k]@ == x;
                if k < i {
                    assert(newv[k]@ == x);
                } else {
                    assert(newv[k + 1]@ == x);
                }
            }
            if x == ip@ {
                assert(newv[i as int]@ == x);
            }
        }
    }
}

/// Sorts a list of addresses and removes duplicates: the result is
/// strictly sorted and holds an address exactly when the input did.
fn dedup_sort(items: &Vec<String>) -> (r: Vec<String>)
    ensures
        strictly_sorted(r@),
        forall|x: Seq<char>| #[trigger] has_ip(r@, x) == has_ip(items@, x),
{
    let mut out: Vec<String> = Vec::new();
    let mut i: usize = 0;
    let n = items.len();
    while i < n
        invariant
            n == items@.len(),
            i <= n,
            strictly_sorted(out@),
            forall|x: Seq<char>|
                #[trigger] has_ip(out@, x) == has_ip(items@.subrange(0, i as int), x),
        decreases n - i,
    {
        insert_sorted_unique(&mut out, items[i].clone());
        proof {
            assert forall|x: Seq<char>|
                #[trigger] has_ip(out@, x) == has_ip(items@.subrange(0, i + 1), x) by {
                lemma_has_ip_extend(items@, i as int, x);
            }
        }
        i = i + 1;
    }
    proof {
        assert(items@.subrange(0, n as int) =~= items@);
    }
    out
}

/// Resolves the address set of one A-name against the B-entries: the
/// first non-empty matching stage, deduplicated and sorted.
pub fn resolve_addresses(a_name: &str, entries: &Vec<AddrEntry>) -> (r: Vec<String>)
    ensures
        strictly_sorted(r@),
        forall|x: Seq<char>|
            #[trigger] has_ip(r@, x) == candidate_ips(a_name@, entries@).contains(x),
{
    let a_norm = normalize_name(a_name);
    let mut cands = collect_close(&a_norm, entries);
    if cands.len() == 0 {
        cands = collect_affix(&a_norm, entries);
    }
    if cands.len() == 0 {
        cands = collect_fallback(entries);
    }
    proof {
        assert(views_of(cands@).len() == cands@.len());
        assert(views_of(cands@) == candidate_ips(a_name@, entries@));
    }
    let r = dedup_sort(&cands);
    proof {
        assert forall|x: Seq<char>|
            #[trigger] has_ip(r@, x) == candidate_ips(a_name@, entries@).contains(x) by {
            lemma_has_ip_views(cands@, x);
        }
    }
    r
}

} // verus!
