//! Exact-literal template substitution.
//!
//! Placeholder substitution in the default-settings document is plain
//! leftmost, non-overlapping replacement of every occurrence of a literal
//! token: no templating language, no escaping. A token that happens to appear
//! in the template for unrelated reasons is replaced all the same; that sharp
//! edge is part of the stated behaviour, not an accident of it.

use vstd::prelude::*;

verus! {

/// The pattern `pat` occurs in `s` starting at position `k`.
pub open spec fn matches_at(s: Seq<char>, pat: Seq<char>, k: int) -> bool {
    0 <= k && k + pat.len() <= s.len() && s.subrange(k, k + pat.len() as int) == pat
}

/// The pattern `pat` occurs somewhere in `s`.
pub open spec fn contains_pat(s: Seq<char>, pat: Seq<char>) -> bool {
    exists|k: int| matches_at(s, pat, k)
}

/// Leftmost, non-overlapping replacement of every occurrence of `pat` in `s`
/// by `rep`. An empty pattern matches nothing and leaves `s` unchanged.
pub open spec fn replace_all_spec(s: Seq<char>, pat: Seq<char>, rep: Seq<char>) -> Seq<char>
    decreases s.len(),
{
    if pat.len() == 0 || s.len() < pat.len() {
        s
    } else if s.subrange(0, pat.len() as int) == pat {
        rep + replace_all_spec(s.skip(pat.len() as int), pat, rep)
    } else {
        seq![s[0]] + replace_all_spec(s.skip(1), pat, rep)
    }
}

/// How often `c` occurs in `s` at or after position `i`.
pub open spec fn count_char_from(s: Seq<char>, c: char, i: int) -> nat
    decreases s.len() - i,
{
    if i < 0 || i >= s.len() {
        0
    } else if s[i] == c {
        1 + count_char_from(s, c, i + 1)
    } else {
        count_char_from(s, c, i + 1)
    }
}

/// How often `c` occurs in `s`.
pub open spec fn count_char(s: Seq<char>, c: char) -> nat {
    count_char_from(s, c, 0)
}

/// A character that never occurs in `s` from position `i` on has count zero
/// there, and the other way round.
pub proof fn lemma_count_from_zero(s: Seq<char>, c: char, i: int)
    requires
        0 <= i,
    ensures
        count_char_from(s, c, i) == 0 <==> (forall|j: int| i <= j < s.len() ==> s[j] != c),
    decreases s.len() - i,
{
    if 0 <= i < s.len() {
        lemma_count_from_zero(s, c, i + 1);
    }
}

/// A character that never occurs in `s` has count zero, and the other way
/// round.
pub proof fn lemma_count_zero(s: Seq<char>, c: char)
    ensures
        count_char(s, c) == 0 <==> (forall|j: int| 0 <= j < s.len() ==> s[j] != c),
{
    lemma_count_from_zero(s, c, 0);
}

/// A pattern that matches nowhere in `s` is replaced nowhere: the replacement
/// leaves `s` unchanged.
pub proof fn lemma_replace_all_unmatched(s: Seq<char>, pat: Seq<char>, rep: Seq<char>)
    requires
        forall|k: int| !#[trigger] matches_at(s, pat, k),
    ensures
        replace_all_spec(s, pat, rep) == s,
    decreases s.len(),
{
    if pat.len() == 0 || s.len() < pat.len() {
    } else if s.subrange(0, pat.len() as int) == pat {
        assert(matches_at(s, pat, 0));
    } else {
        assert forall|k: int| !#[trigger] matches_at(s.skip(1), pat, k) by {
            if matches_at(s.skip(1), pat, k) {
                assert(s.skip(1).subrange(k, k + pat.len() as int) =~= s.subrange(
                    k + 1,
                    k + 1 + pat.len() as int,
                ));
                assert(matches_at(s, pat, k + 1));
            }
        }
        lemma_replace_all_unmatched(s.skip(1), pat, rep);
        assert(seq![s[0]] + s.skip(1) =~= s);
    }
}

/// A pattern that matches nowhere before position `c` leaves the first `c`
/// characters of `s` untouched: replacement splits at `c`.
pub proof fn lemma_replace_all_split(s: Seq<char>, pat: Seq<char>, rep: Seq<char>, c: int)
    requires
        0 < pat.len(),
        0 <= c <= s.len(),
        forall|k: int| 0 <= k < c ==> !#[trigger] matches_at(s, pat, k),
    ensures
        replace_all_spec(s, pat, rep) == s.take(c) + replace_all_spec(s.skip(c), pat, rep),
    decreases c,
{
    if c == 0 {
        assert(s.skip(0) =~= s);
        assert(s.take(0) + replace_all_spec(s, pat, rep) =~= replace_all_spec(s, pat, rep));
    } else if s.len() < pat.len() {
        assert(s.skip(c).len() < pat.len());
        assert(s.take(c) + s.skip(c) =~= s);
    } else {
        assert(!matches_at(s, pat, 0));
        assert(s.subrange(0, pat.len() as int) != pat);
        assert forall|k: int| 0 <= k < c - 1 implies !#[trigger] matches_at(s.skip(1), pat, k) by {
            if matches_at(s.skip(1), pat, k) {
                assert(s.skip(1).subrange(k, k + pat.len() as int) =~= s.subrange(
                    k + 1,
                    k + 1 + pat.len() as int,
                ));
                assert(matches_at(s, pat, k + 1));
            }
        }
        lemma_replace_all_split(s.skip(1), pat, rep, c - 1);
        assert(s.skip(1).skip(c - 1) =~= s.skip(c));
        assert(seq![s[0]] + (s.skip(1).take(c - 1) + replace_all_spec(s.skip(c), pat, rep))
            =~= (seq![s[0]] + s.skip(1).take(c - 1)) + replace_all_spec(s.skip(c), pat, rep));
        assert(seq![s[0]] + s.skip(1).take(c - 1) =~= s.take(c));
    }
}

/// Tests whether `pat` occurs in `s` at position `k`.
pub fn matches_at_exec(s: &str, pat: &str, k: usize) -> (r: bool)
    ensures
        r == matches_at(s@, pat@, k as int),
{
    let n = s.unicode_len();
    let m = pat.unicode_len();
    if k > n || m > n - k {
        return false;
    }
    let mut j: usize = 0;
    while j < m
        invariant
            n == s@.len(),
            m == pat@.len(),
            k + m <= n,
            0 <= j <= m,
            forall|t: int| 0 <= t < j ==> s@[k + t] == pat@[t],
        decreases m - j,
    {
        if s.get_char(k + j) != pat.get_char(j) {
            proof {
                assert(s@.subrange(k as int, k + m as int)[j as int] == s@[k + j]);
            }
            return false;
        }
        j += 1;
    }
    proof {
        assert(s@.subrange(k as int, k + m as int) =~= pat@);
    }
    true
}

/// Replaces every occurrence of `pat` in `s` by `rep`, scanning left to right
/// and never rescanning replaced text, exactly as [`replace_all_spec`] says.
pub fn replace_all(s: &str, pat: &str, rep: &str) -> (r: String)
    ensures
        r@ == replace_all_spec(s@, pat@, rep@),
{
    let n = s.unicode_len();
    let m = pat.unicode_len();
    if m == 0 || n < m {
        return s.to_owned();
    }
    let mut out = String::new();
    let mut i: usize = 0;
    proof {
        assert(s@.skip(0) =~= s@);
        assert(out@ + replace_all_spec(s@, pat@, rep@) =~= replace_all_spec(s@, pat@, rep@));
    }
    while i <= n - m
        invariant
            n == s@.len(),
            m == pat@.len(),
            0 < m <= n,
            0 <= i <= n,
            replace_all_spec(s@, pat@, rep@) == out@ + replace_all_spec(
                s@.skip(i as int),
                pat@,
                rep@,
            ),
        decreases n - i,
    {
        let ghost tail = s@.skip(i as int);
        let ghost done = out@;
        if matches_at_exec(s, pat, i) {
            proof {
                assert(tail.subrange(0, m as int) =~= s@.subrange(i as int, i + m as int));
                assert(tail.skip(m as int) =~= s@.skip(i + m as int));
                let after = replace_all_spec(s@.skip(i + m as int), pat@, rep@);
                assert(replace_all_spec(tail, pat@, rep@) == rep@ + after);
                assert(done + (rep@ + after) =~= (done + rep@) + after);
            }
            out.append(rep);
            i = i + m;
        } else {
            let piece = s.substring_char(i, i + 1);
            proof {
                assert(tail.subrange(0, m as int) =~= s@.subrange(i as int, i + m as int));
                assert(tail.skip(1) =~= s@.skip(i + 1));
                assert(piece@ =~= seq![tail[0]]);
                let after = replace_all_spec(s@.skip(i + 1), pat@, rep@);
                assert(replace_all_spec(tail, pat@, rep@) == seq![tail[0]] + after);
                assert(done + (piece@ + after) =~= (done + piece@) + after);
            }
            out.append(piece);
            i = i + 1;
        }
    }
    let tail = s.substring_char(i, n);
    out.append(tail);
    proof {
        assert(s@.skip(i as int).len() < m);
        assert(replace_all_spec(s@.skip(i as int), pat@, rep@) == s@.skip(i as int));
        assert(tail@ =~= s@.skip(i as int));
    }
    out
}

} // verus!
