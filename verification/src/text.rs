//! Verified text scanning: substring search, character counting, ASCII
//! whitespace trimming, and unsigned decimal parsing. The energy reader uses
//! these to pick socket accounting nodes out of a directory listing and to
//! parse counter file contents.

use vstd::prelude::*;
use vstd::string::StrSliceExecFns;

verus! {

/// `pat` occurs in `s` starting at position `i`.
pub open spec fn matches_at(s: Seq<char>, pat: Seq<char>, i: int) -> bool {
    0 <= i && i + pat.len() <= s.len() && s.subrange(i, i + pat.len() as int) == pat
}

/// `pat` occurs somewhere in `s`.
pub open spec fn contains_seq(s: Seq<char>, pat: Seq<char>) -> bool {
    exists|i: int| matches_at(s, pat, i)
}

/// How many positions of `s` hold `c`.
pub open spec fn count_char(s: Seq<char>, c: char) -> nat
    decreases s.len(),
{
    if s.len() == 0 {
        0
    } else {
        count_char(s.drop_last(), c) + (if s.last() == c {
            1nat
        } else {
            0nat
        })
    }
}

/// The position of the first `c` in `s`, or `s.len()` if there is none.
pub open spec fn first_index(s: Seq<char>, c: char) -> int
    decreases s.len(),
{
    if s.len() == 0 {
        0
    } else {
        let fi = first_index(s.drop_last(), c);
        if fi < s.len() - 1 {
            fi
        } else if s.last() == c {
            s.len() - 1
        } else {
            s.len() as int
        }
    }
}

/// Where `c` occurs at all, `first_index` points at its first occurrence.
pub proof fn lemma_first_index(s: Seq<char>, c: char)
    ensures
        count_char(s, c) == 0 ==> first_index(s, c) == s.len() && forall|j: int|
            0 <= j < s.len() ==> s[j] != c,
        count_char(s, c) > 0 ==> 0 <= first_index(s, c) < s.len() && s[first_index(s, c)] == c
            && forall|j: int| 0 <= j < first_index(s, c) ==> s[j] != c,
    decreases s.len(),
{
    if s.len() > 0 {
        lemma_first_index(s.drop_last(), c);
        assert(forall|j: int| 0 <= j < s.len() - 1 ==> s[j] == s.drop_last()[j]);
    }
}

/// ASCII whitespace, the forms that surround a counter value in practice.
pub open spec fn is_space(c: char) -> bool {
    c == ' ' || c == '\t' || c == '\n' || c == '\r'
}

/// `s` without its leading whitespace.
pub open spec fn trim_front(s: Seq<char>) -> Seq<char>
    decreases s.len(),
{
    if s.len() == 0 {
        s
    } else if is_space(s[0]) {
        trim_front(s.drop_first())
    } else {
        s
    }
}

/// `s` without its trailing whitespace.
pub open spec fn trim_back(s: Seq<char>) -> Seq<char>
    decreases s.len(),
{
    if s.len() == 0 {
        s
    } else if is_space(s.last()) {
        trim_back(s.drop_last())
    } else {
        s
    }
}

/// `s` without leading and trailing whitespace.
pub open spec fn trimmed(s: Seq<char>) -> Seq<char> {
    trim_back(trim_front(s))
}

/// Trimming the front keeps exactly the tail that starts at the first
/// non-whitespace position.
proof fn lemma_trim_front_subrange(s: Seq<char>, lo: int)
    requires
        0 <= lo <= s.len(),
        forall|i: int| 0 <= i < lo ==> is_space(s[i]),
        lo < s.len() ==> !is_space(s[lo]),
    ensures
        trim_front(s) == s.subrange(lo, s.len() as int),
    decreases lo,
{
    if lo == 0 {
        assert(s.subrange(0, s.len() as int) =~= s);
    } else {
        let d = s.drop_first();
        assert(forall|i: int| 0 <= i < lo - 1 ==> is_space(d[i]));
        lemma_trim_front_subrange(d, lo - 1);
        assert(d.subrange(lo - 1, d.len() as int) =~= s.subrange(lo, s.len() as int));
    }
}

/// Trimming the back keeps exactly the head that ends after the last
/// non-whitespace position.
proof fn lemma_trim_back_subrange(s: Seq<char>, hi: int)
    requires
        0 <= hi <= s.len(),
        forall|i: int| hi <= i < s.len() ==> is_space(s[i]),
        hi > 0 ==> !is_space(s[hi - 1]),
    ensures
        trim_back(s) == s.subrange(0, hi),
    decreases s.len() - hi,
{
    if hi == s.len() {
        assert(s.subrange(0, s.len() as int) =~= s);
    } else {
        let d = s.drop_last();
        assert(forall|i: int| hi <= i < d.len() ==> is_space(d[i]));
        lemma_trim_back_subrange(d, hi);
        assert(d.subrange(0, hi) =~= s.subrange(0, hi));
    }
}

/// `trimmed(s)` is the subrange between the first non-whitespace position
/// and one past the last, provided those bounds really delimit the
/// whitespace margins.
pub proof fn lemma_trimmed_subrange(s: Seq<char>, lo: int, hi: int)
    requires
        0 <= lo <= hi <= s.len(),
        forall|i: int| 0 <= i < lo ==> is_space(s[i]),
        forall|i: int| hi <= i < s.len() ==> is_space(s[i]),
        lo < s.len() ==> !is_space(s[lo]),
        hi > lo ==> !is_space(s[hi - 1]),
    ensures
        trimmed(s) == s.subrange(lo, hi),
{
    if lo == hi {
        if lo < s.len() {
            assert(is_space(s[lo]) && !is_space(s[lo]));
        }
        lemma_trim_front_subrange(s, s.len() as int);
        let t = s.subrange(s.len() as int, s.len() as int);
        lemma_trim_back_subrange(t, 0);
        assert(t.subrange(0, 0) =~= s.subrange(lo, hi));
    } else {
        lemma_trim_front_subrange(s, lo);
        let t = s.subrange(lo, s.len() as int);
        assert(forall|i: int| hi - lo <= i < t.len() ==> is_space(t[i]));
        lemma_trim_back_subrange(t, hi - lo);
        assert(t.subrange(0, hi - lo) =~= s.subrange(lo, hi));
    }
}

/// An ASCII decimal digit.
pub open spec fn is_ascii_digit(c: char) -> bool {
    0x30 <= c as u32 <= 0x39
}

/// The numeric value of a digit; zero for anything else.
pub open spec fn digit_val(c: char) -> nat {
    if is_ascii_digit(c) {
        (c as u32 - 0x30) as nat
    } else {
        0
    }
}

/// Every character of `s` is a decimal digit.
pub open spec fn all_digits(s: Seq<char>) -> bool {
    forall|i: int| 0 <= i < s.len() ==> is_ascii_digit(#[trigger] s[i])
}

/// The value of `s` read as a decimal numeral.
pub open spec fn dec_val(s: Seq<char>) -> nat
    decreases s.len(),
{
    if s.len() == 0 {
        0
    } else {
        dec_val(s.drop_last()) * 10 + digit_val(s.last())
    }
}

/// A numeral is worth at least any of its prefixes.
pub proof fn lemma_dec_val_prefix(s: Seq<char>, k: int)
    requires
        0 <= k <= s.len(),
    ensures
        dec_val(s) >= dec_val(s.subrange(0, k)),
    decreases s.len() - k,
{
    if k == s.len() {
        assert(s.subrange(0, k) =~= s);
    } else {
        let d = s.drop_last();
        lemma_dec_val_prefix(d, k);
        assert(d.subrange(0, k) =~= s.subrange(0, k));
        assert(dec_val(d) * 10 >= dec_val(d));
    }
}

/// Whether `pat` occurs anywhere in `s`.
pub fn contains_str(s: &str, pat: &str) -> (r: bool)
    ensures
        r == contains_seq(s@, pat@),
{
    let n: usize = s.unicode_len();
    let m: usize = pat.unicode_len();
    if m > n {
        assert(forall|i: int| !matches_at(s@, pat@, i));
        return false;
    }
    let mut i: usize = 0;
    while i <= n - m
        invariant
            m <= n,
            n == s@.len(),
            m == pat@.len(),
            i <= n - m + 1,
            forall|k: int| 0 <= k < i ==> !matches_at(s@, pat@, k),
        decreases n - m + 1 - i,
    {
        let mut j: usize = 0;
        while j < m && s.get_char(i + j) == pat.get_char(j)
            invariant
                m <= n,
                n == s@.len(),
                m == pat@.len(),
                i + m <= n,
                j <= m,
                forall|l: int| 0 <= l < j ==> s@[i + l] == pat@[l],
            decreases m - j,
        {
            j = j + 1;
        }
        if j == m {
            assert(s@.subrange(i as int, i + m as int) =~= pat@);
            assert(matches_at(s@, pat@, i as int));
            return true;
        }
        assert(s@[i + j] != pat@[j as int]);
        assert(!matches_at(s@, pat@, i as int)) by {
            if s@.subrange(i as int, i + m as int) == pat@ {
                assert(s@.subrange(i as int, i + m as int)[j as int] == s@[i + j]);
            }
        }
        i = i + 1;
    }
    assert(forall|k: int| matches_at(s@, pat@, k) ==> 0 <= k <= n - m);
    return false;
}

/// Counts the occurrences of `c` in `s` and finds the first one, if any:
/// returns the count and the index of the first occurrence (`s`'s length
/// when there is none).
pub fn count_and_find(s: &str, c: char) -> (r: (usize, usize))
    ensures
        r.0 == count_char(s@, c),
        r.1 == first_index(s@, c),
{
    let n: usize = s.unicode_len();
    let mut cnt: usize = 0;
    let mut first: usize = 0;
    let mut i: usize = 0;
    assert(s@.subrange(0, 0) =~= Seq::<char>::empty());
    while i < n
        invariant
            n == s@.len(),
            i <= n,
            cnt <= i,
            first <= i,
            cnt == count_char(s@.subrange(0, i as int), c),
            first == first_index(s@.subrange(0, i as int), c),
        decreases n - i,
    {
        let ch = s.get_char(i);
        proof {
            let pre = s@.subrange(0, i as int);
            let post = s@.subrange(0, i + 1 as int);
            assert(post.drop_last() =~= pre);
            assert(post.last() == s@[i as int]);
        }
        if first == i {
            if ch != c {
                first = i + 1;
            }
        }
        if ch == c {
            cnt = cnt + 1;
        }
        i = i + 1;
    }
    assert(s@.subrange(0, n as int) =~= s@);
    (cnt, first)
}

/// Parses `s[lo..hi]` as an unsigned decimal numeral. Fails on an empty
/// range, on any non-digit, and on a value past `u64::MAX`.
pub fn parse_u64_in(s: &str, lo: usize, hi: usize) -> (r: Option<u64>)
    requires
        lo <= hi <= s@.len(),
    ensures
        ({
            let t = s@.subrange(lo as int, hi as int);
            match r {
                Some(v) => t.len() > 0 && all_digits(t) && v == dec_val(t),
                None => t.len() == 0 || !all_digits(t) || dec_val(t) > u64::MAX,
            }
        }),
{
    let ghost t = s@.subrange(lo as int, hi as int);
    if lo == hi {
        return None;
    }
    let mut acc: u64 = 0;
    let mut i: usize = lo;
    assert(t.subrange(0, 0) =~= Seq::<char>::empty());
    while i < hi
        invariant
            lo <= i <= hi <= s@.len(),
            t == s@.subrange(lo as int, hi as int),
            all_digits(t.subrange(0, i - lo)),
            acc == dec_val(t.subrange(0, i - lo)),
        decreases hi - i,
    {
        let c = s.get_char(i);
        let code: u32 = c as u32;
        proof {
            let pre = t.subrange(0, i - lo);
            let post = t.subrange(0, i + 1 - lo);
            assert(post.drop_last() =~= pre);
            assert(post.last() == t[i - lo] == s@[i as int]);
        }
        if code < 0x30 || code > 0x39 {
            assert(!is_ascii_digit(t[i - lo]));
            return None;
        }
        let d: u64 = (code - 0x30) as u64;
        let shifted: u64 = match acc.checked_mul(10) {
            Some(x) => x,
            None => {
                proof {
                    assert(dec_val(t.subrange(0, i + 1 - lo)) > u64::MAX);
                    lemma_dec_val_prefix(t, i + 1 - lo);
                }
                return None;
            },
        };
        let next: u64 = match shifted.checked_add(d) {
            Some(y) => y,
            None => {
                proof {
                    assert(dec_val(t.subrange(0, i + 1 - lo)) > u64::MAX);
                    lemma_dec_val_prefix(t, i + 1 - lo);
                }
                return None;
            },
        };
        acc = next;
        i = i + 1;
    }
    assert(t.subrange(0, hi - lo) =~= t);
    Some(acc)
}

} // verus!
