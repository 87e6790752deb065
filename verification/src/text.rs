//! Text building blocks: decimal rendering, searching and comparing
//! character sequences.

use vstd::prelude::*;
use vstd::string::*;

verus! {

/// The character of a decimal digit.
pub open spec fn digit_char(d: int) -> char {
    (d + 48) as char
}

/// Decimal rendering of a natural number, without leading zeros.
pub open spec fn nat_text(n: nat) -> Seq<char>
    decreases n,
{
    if n < 10 {
        seq![digit_char(n as int)]
    } else {
        nat_text(n / 10) + seq![digit_char((n % 10) as int)]
    }
}

/// Decimal rendering of an integer, with a leading `-` when negative.
pub open spec fn int_text(i: int) -> Seq<char> {
    if i < 0 {
        seq!['-'] + nat_text((-i) as nat)
    } else {
        nat_text(i as nat)
    }
}

/// A single decimal digit as a one-character string.
pub fn digit_str(d: u64) -> (r: &'static str)
    requires
        d < 10,
    ensures
        r@ == seq![digit_char(d as int)],
{
    match d {
        0 => { proof { reveal_strlit("0"); } "0" },
        1 => { proof { reveal_strlit("1"); } "1" },
        2 => { proof { reveal_strlit("2"); } "2" },
        3 => { proof { reveal_strlit("3"); } "3" },
        4 => { proof { reveal_strlit("4"); } "4" },
        5 => { proof { reveal_strlit("5"); } "5" },
        6 => { proof { reveal_strlit("6"); } "6" },
        7 => { proof { reveal_strlit("7"); } "7" },
        8 => { proof { reveal_strlit("8"); } "8" },
        _ => { proof { reveal_strlit("9"); } "9" },
    }
}

/// Decimal rendering of an unsigned number.
pub fn u64_text(n: u64) -> (s: String)
    ensures
        s@ == nat_text(n as nat),
    decreases n,
{
    if n < 10 {
        String::from_str(digit_str(n))
    } else {
        let mut s = u64_text(n / 10);
        s.append(digit_str(n % 10));
        s
    }
}


/// Decimal rendering of a signed number.
pub fn i64_text(i: i64) -> (s: String)
    ensures
        s@ == int_text(i as int),
{
    if i < 0 {
        let magnitude: u64 = if i == i64::MIN {
            9223372036854775808u64
        } else {
            (-i) as u64
        };
        let mut s = String::from_str("-");
        proof {
            reveal_strlit("-");
        }
        let digits = u64_text(magnitude);
        s.append(digits.as_str());
        s
    } else {
        u64_text(i as u64)
    }
}

/// Two texts one after the other.
pub fn concat_str(a: &str, b: &str) -> (r: String)
    ensures
        r@ == a@ + b@,
{
    let mut r = String::from_str(a);
    r.append(b);
    r
}

/// Two-digit rendering, zero-padded below ten (as `{:02}` does).
pub open spec fn two_digit_text(n: nat) -> Seq<char> {
    if n < 10 {
        seq!['0'] + nat_text(n)
    } else {
        nat_text(n)
    }
}

/// Two-digit rendering of a number below one hundred.
pub fn two_digit_str(n: u64) -> (s: String)
    requires
        n < 100,
    ensures
        s@ == two_digit_text(n as nat),
{
    if n < 10 {
        let mut s = String::from_str("0");
        proof {
            reveal_strlit("0");
        }
        s.append(digit_str(n));
        s
    } else {
        u64_text(n)
    }
}

/// `pat` occurs in `s` starting at position `i`.
pub open spec fn occurs_at(s: Seq<char>, pat: Seq<char>, i: int) -> bool {
    &&& 0 <= i
    &&& i + pat.len() <= s.len()
    &&& s.subrange(i, i + pat.len()) == pat
}

/// `pat` occurs somewhere in `s`.
pub open spec fn contains_text(s: Seq<char>, pat: Seq<char>) -> bool {
    exists|i: int| occurs_at(s, pat, i)
}

/// `i` is the position of the leftmost occurrence of `pat` in `s`.
pub open spec fn is_first_occurrence(s: Seq<char>, pat: Seq<char>, i: int) -> bool {
    &&& occurs_at(s, pat, i)
    &&& forall|j: int| 0 <= j < i ==> !occurs_at(s, pat, j)
}

/// The position of the leftmost occurrence of `pat` in `s` (meaningful
/// where `pat` occurs).
pub open spec fn first_index(s: Seq<char>, pat: Seq<char>) -> int {
    choose|i: int| is_first_occurrence(s, pat, i)
}

/// There is at most one leftmost occurrence.
pub proof fn lemma_first_occurrence_unique(s: Seq<char>, pat: Seq<char>, i: int, j: int)
    requires
        is_first_occurrence(s, pat, i),
        is_first_occurrence(s, pat, j),
    ensures
        i == j,
{
    if i < j {
        assert(!occurs_at(s, pat, i));
    } else if j < i {
        assert(!occurs_at(s, pat, j));
    }
}

/// The leftmost occurrence is what `first_index` names.
pub proof fn lemma_first_index(s: Seq<char>, pat: Seq<char>, i: int)
    requires
        is_first_occurrence(s, pat, i),
    ensures
        first_index(s, pat) == i,
{
    let k = first_index(s, pat);
    assert(is_first_occurrence(s, pat, k));
    lemma_first_occurrence_unique(s, pat, i, k);
}

/// Where `pat` occurs, it has a leftmost occurrence.
pub proof fn lemma_first_occurrence_exists(s: Seq<char>, pat: Seq<char>, i: int)
    requires
        occurs_at(s, pat, i),
    ensures
        is_first_occurrence(s, pat, first_index(s, pat)),
        first_index(s, pat) <= i,
    decreases i,
{
    if exists|j: int| 0 <= j < i && occurs_at(s, pat, j) {
        let j = choose|j: int| 0 <= j < i && occurs_at(s, pat, j);
        lemma_first_occurrence_exists(s, pat, j);
    } else {
        lemma_first_index(s, pat, i);
    }
}

/// `s` begins with `pat`.
pub open spec fn starts_with_text(s: Seq<char>, pat: Seq<char>) -> bool {
    occurs_at(s, pat, 0)
}

/// Whether `pat` occurs in `s` at position `i`.
fn occurs_at_exec(s: &str, pat: &str, slen: usize, plen: usize, i: usize) -> (r: bool)
    requires
        slen == s@.len(),
        plen == pat@.len(),
        i <= slen,
    ensures
        r == occurs_at(s@, pat@, i as int),
{
    if plen > slen - i {
        return false;
    }
    let mut k: usize = 0;
    while k < plen
        invariant
            slen == s@.len(),
            plen == pat@.len(),
            i + plen <= slen,
            k <= plen,
            forall|m: int| 0 <= m < k ==> s@[i + m] == pat@[m],
        decreases plen - k,
    {
        if s.get_char(i + k) != pat.get_char(k) {
            assert(s@.subrange(i as int, i + plen)[k as int] != pat@[k as int]);
            return false;
        }
        k = k + 1;
    }
    assert(s@.subrange(i as int, i + plen) =~= pat@);
    true
}

/// Position of the leftmost occurrence of `pat` in `s`, counted in characters.
pub fn find_text(s: &str, pat: &str) -> (r: Option<usize>)
    ensures
        match r {
            Some(i) => is_first_occurrence(s@, pat@, i as int) && i == first_index(s@, pat@),
            None => !contains_text(s@, pat@),
        },
{
    let slen = s.unicode_len();
    let plen = pat.unicode_len();
    let mut i: usize = 0;
    loop
        invariant
            slen == s@.len(),
            plen == pat@.len(),
            i <= slen,
            forall|j: int| 0 <= j < i ==> !occurs_at(s@, pat@, j),
        decreases slen - i,
    {
        if occurs_at_exec(s, pat, slen, plen, i) {
            proof {
                lemma_first_index(s@, pat@, i as int);
            }
            return Some(i);
        }
        if i == slen {
            assert forall|j: int| !occurs_at(s@, pat@, j) by {
                if 0 <= j && j + plen <= slen {
                    assert(j < i || j == i);
                }
            }
            return None;
        }
        i = i + 1;
    }
}

/// Whether `pat` occurs in `s`.
pub fn contains_str(s: &str, pat: &str) -> (r: bool)
    ensures
        r == contains_text(s@, pat@),
{
    match find_text(s, pat) {
        Some(_) => true,
        None => false,
    }
}

/// Whether `s` begins with `pat`.
pub fn starts_with_str(s: &str, pat: &str) -> (r: bool)
    ensures
        r == starts_with_text(s@, pat@),
{
    let slen = s.unicode_len();
    let plen = pat.unicode_len();
    occurs_at_exec(s, pat, slen, plen, 0)
}

/// Whether two strings hold the same characters.
pub fn same_text(a: &str, b: &str) -> (r: bool)
    ensures
        r == (a@ == b@),
{
    let alen = a.unicode_len();
    let blen = b.unicode_len();
    if alen != blen {
        return false;
    }
    let r = occurs_at_exec(a, b, alen, blen, 0);
    assert(a@.subrange(0, blen as int) =~= a@);
    r
}


/// ASCII upper-case letters mapped to lower case; every other character kept.
pub open spec fn ascii_lower(c: char) -> char {
    if 65 <= (c as u32) <= 90 {
        ((c as u32) + 32) as char
    } else {
        c
    }
}

/// A text with its ASCII letters folded to lower case.
///
/// Unicode lower-casing (`to_lowercase`) maps no character other than the
/// ASCII letters to an ASCII letter, except `İ` (to `i` and a combining dot)
/// and the Kelvin sign (to `k`). So `s.to_lowercase() == t` agrees with
/// `lower_text(s) == t` for every ASCII target `t` without `k`, and
/// `s.to_lowercase().contains(t)` agrees with `contains_text(lower_text(s), t)`
/// for every ASCII target without `i` or `k`.
pub open spec fn lower_text(s: Seq<char>) -> Seq<char> {
    Seq::new(s.len(), |i: int| ascii_lower(s[i]))
}

/// Folds one ASCII letter to lower case.
pub fn ascii_lower_char(c: char) -> (r: char)
    ensures
        r == ascii_lower(c),
{
    let v = c as u32;
    if 65 <= v && v <= 90 {
        let b = (v + 32) as u8;
        b as char
    } else {
        c
    }
}

/// Whether `pat` occurs at position `i` of `s` once the letters of `s` are folded.
fn occurs_folded_at(s: &str, pat: &str, slen: usize, plen: usize, i: usize) -> (r: bool)
    requires
        slen == s@.len(),
        plen == pat@.len(),
        i <= slen,
    ensures
        r == occurs_at(lower_text(s@), pat@, i as int),
{
    let ghost low = lower_text(s@);
    if plen > slen - i {
        return false;
    }
    let mut k: usize = 0;
    while k < plen
        invariant
            slen == s@.len(),
            plen == pat@.len(),
            low == lower_text(s@),
            i + plen <= slen,
            k <= plen,
            forall|m: int| 0 <= m < k ==> low[i + m] == pat@[m],
        decreases plen - k,
    {
        if ascii_lower_char(s.get_char(i + k)) != pat.get_char(k) {
            assert(low.subrange(i as int, i + plen)[k as int] != pat@[k as int]);
            return false;
        }
        k = k + 1;
    }
    assert(low.subrange(i as int, i + plen) =~= pat@);
    true
}

/// Whether `pat` occurs in `s` once the ASCII letters of `s` are folded to lower case.
pub fn contains_folded(s: &str, pat: &str) -> (r: bool)
    ensures
        r == contains_text(lower_text(s@), pat@),
{
    let slen = s.unicode_len();
    let plen = pat.unicode_len();
    let ghost low = lower_text(s@);
    let mut i: usize = 0;
    loop
        invariant
            slen == s@.len(),
            plen == pat@.len(),
            low == lower_text(s@),
            low.len() == slen,
            i <= slen,
            forall|j: int| 0 <= j < i ==> !occurs_at(low, pat@, j),
        decreases slen - i,
    {
        if occurs_folded_at(s, pat, slen, plen, i) {
            return true;
        }
        if i == slen {
            assert forall|j: int| !occurs_at(low, pat@, j) by {
                if 0 <= j && j + plen <= slen {
                    assert(j < i || j == i);
                }
            }
            return false;
        }
        i = i + 1;
    }
}

/// Whether `s`, with its ASCII letters folded to lower case, equals `pat`.
pub fn equals_folded(s: &str, pat: &str) -> (r: bool)
    ensures
        r == (lower_text(s@) == pat@),
{
    let slen = s.unicode_len();
    let plen = pat.unicode_len();
    if slen != plen {
        return false;
    }
    let r = occurs_folded_at(s, pat, slen, plen, 0);
    assert(lower_text(s@).subrange(0, plen as int) =~= lower_text(s@));
    r
}

/// `rep` before, between and after the characters of `s`: what replacing
/// the empty pattern gives.
pub open spec fn interleave_text(s: Seq<char>, rep: Seq<char>) -> Seq<char>
    decreases s.len(),
{
    if s.len() == 0 {
        rep
    } else {
        rep + seq![s[0]] + interleave_text(s.skip(1), rep)
    }
}

/// Every occurrence of `pat` replaced by `rep`, scanning from the left
/// without overlaps (as `str::replace` does); an empty `pat` occurs before,
/// between and after every character.
pub open spec fn replace_text(s: Seq<char>, pat: Seq<char>, rep: Seq<char>) -> Seq<char>
    decreases s.len(),
{
    if pat.len() == 0 {
        interleave_text(s, rep)
    } else if s.len() == 0 {
        s
    } else if starts_with_text(s, pat) {
        rep + replace_text(s.skip(pat.len() as int), pat, rep)
    } else {
        seq![s[0]] + replace_text(s.skip(1), pat, rep)
    }
}

/// Replacing a text that does not occur changes nothing.
pub proof fn lemma_replace_absent(s: Seq<char>, pat: Seq<char>, rep: Seq<char>)
    requires
        !contains_text(s, pat),
    ensures
        replace_text(s, pat, rep) == s,
    decreases s.len(),
{
    if s.len() > 0 && pat.len() > 0 {
        assert(!starts_with_text(s, pat));
        assert forall|j: int| !occurs_at(s.skip(1), pat, j) by {
            if occurs_at(s.skip(1), pat, j) {
                assert(s.skip(1).subrange(j, j + pat.len()) =~= s.subrange(j + 1, j + 1 + pat.len()));
                assert(occurs_at(s, pat, j + 1));
            }
        }
        lemma_replace_absent(s.skip(1), pat, rep);
        assert(seq![s[0]] + s.skip(1) =~= s);
    } else if pat.len() == 0 {
        assert(s.subrange(0, 0) =~= pat);
        assert(occurs_at(s, pat, 0));
    }
}

/// `rep` before, between and after the characters of `s`.
fn interleave_str(s: &str, rep: &str) -> (r: String)
    ensures
        r@ == interleave_text(s@, rep@),
{
    let slen = s.unicode_len();
    let mut res = String::new();
    let mut i: usize = 0;
    assert(s@.skip(0) =~= s@);
    while i < slen
        invariant
            slen == s@.len(),
            i <= slen,
            res@ + interleave_text(s@.skip(i as int), rep@) == interleave_text(s@, rep@),
        decreases slen - i,
    {
        let ghost rest = s@.skip(i as int);
        assert(rest.skip(1) =~= s@.skip(i + 1));
        let one = s.substring_char(i, i + 1);
        assert(one@ =~= seq![rest[0]]);
        assert(res@ + rep@ + one@ + interleave_text(s@.skip(i + 1), rep@) =~= res@ + interleave_text(rest, rep@));
        res.append(rep);
        res.append(one);
        i = i + 1;
    }
    assert(s@.skip(i as int).len() == 0);
    res.append(rep);
    res
}

/// Replaces every occurrence of `pat` in `s` by `rep`; an empty `pat`
/// puts `rep` before, between and after the characters.
pub fn replace_str(s: &str, pat: &str, rep: &str) -> (r: String)
    ensures
        r@ == replace_text(s@, pat@, rep@),
{
    let slen = s.unicode_len();
    let plen = pat.unicode_len();
    if plen == 0 {
        return interleave_str(s, rep);
    }
    let mut res = String::new();
    let mut i: usize = 0;
    assert(s@.skip(0) =~= s@);
    while i < slen
        invariant
            slen == s@.len(),
            plen == pat@.len(),
            plen > 0,
            i <= slen,
            res@ + replace_text(s@.skip(i as int), pat@, rep@) == replace_text(s@, pat@, rep@),
        decreases slen - i,
    {
        let ghost rest = s@.skip(i as int);
        if occurs_at_exec(s, pat, slen, plen, i) {
            assert(rest.subrange(0, plen as int) =~= s@.subrange(i as int, i + plen));
            assert(rest.skip(plen as int) =~= s@.skip(i + plen));
            assert(res@ + rep@ + replace_text(s@.skip(i + plen), pat@, rep@) == res@
                + replace_text(rest, pat@, rep@));
            res.append(rep);
            i = i + plen;
        } else {
            assert(!starts_with_text(rest, pat@)) by {
                if starts_with_text(rest, pat@) {
                    assert(rest.subrange(0, plen as int) =~= s@.subrange(i as int, i + plen));
                }
            }
            assert(rest.skip(1) =~= s@.skip(i + 1));
            let one = s.substring_char(i, i + 1);
            assert(one@ =~= seq![rest[0]]);
            assert(res@ + one@ + replace_text(s@.skip(i + 1), pat@, rep@) == res@
                + replace_text(rest, pat@, rep@));
            res.append(one);
            i = i + 1;
        }
    }
    assert(s@.skip(i as int).len() == 0);
    assert(res@ + replace_text(s@.skip(i as int), pat@, rep@) =~= res@);
    res
}

/// The views of a sequence of strings.
pub open spec fn texts(v: Seq<String>) -> Seq<Seq<char>> {
    v.map_values(|p: String| p@)
}

/// The parts joined with `sep` between consecutive parts.
pub open spec fn join_text(parts: Seq<Seq<char>>, sep: Seq<char>) -> Seq<char>
    decreases parts.len(),
{
    if parts.len() == 0 {
        Seq::empty()
    } else if parts.len() == 1 {
        parts[0]
    } else {
        join_text(parts.drop_last(), sep) + sep + parts.last()
    }
}

/// Joins `parts` with `sep` between consecutive parts.
pub fn join_strings(parts: &Vec<String>, sep: &str) -> (r: String)
    ensures
        r@ == join_text(texts(parts@), sep@),
{
    let ghost all = texts(parts@);
    let mut res = String::new();
    let n = parts.len();
    let mut i: usize = 0;
    while i < n
        invariant
            n == parts@.len(),
            all == texts(parts@),
            all.len() == n,
            i <= n,
            res@ == join_text(all.take(i as int), sep@),
        decreases n - i,
    {
        assert(all.take(i + 1).drop_last() =~= all.take(i as int));
        assert(all.take(i + 1).last() == parts@[i as int]@);
        if i > 0 {
            res.append(sep);
        }
        res.append(parts[i].as_str());
        i = i + 1;
    }
    assert(all.take(n as int) =~= all);
    res
}

} // verus!
