//! URLs: the monitor origin of a base URL, and percent-encoding of query
//! values through `urlencoding`.

use crate::text::{
    contains_text, find_text, first_index, is_first_occurrence, lemma_first_index,
    lemma_first_occurrence_exists, occurs_at,
};
use vstd::prelude::*;
use vstd::string::*;

verus! {

/// An unreserved byte: ASCII letters, digits, `-`, `.`, `_` and `~`.
pub open spec fn is_unreserved(b: u8) -> bool {
    ||| 48 <= b <= 57
    ||| 65 <= b <= 90
    ||| 97 <= b <= 122
    ||| b == 45
    ||| b == 46
    ||| b == 95
    ||| b == 126
}

/// An upper-case hexadecimal digit.
pub open spec fn hex_upper(d: int) -> char {
    if d < 10 {
        (48 + d) as char
    } else {
        (55 + d) as char
    }
}

/// Bytes percent-encoded: each unreserved byte stands for itself, every
/// other byte becomes `%` and two upper-case hexadecimal digits.
pub open spec fn percent_encoded(bytes: Seq<u8>) -> Seq<char>
    decreases bytes.len(),
{
    if bytes.len() == 0 {
        Seq::empty()
    } else {
        let b = bytes[0];
        let head = if is_unreserved(b) {
            seq![b as char]
        } else {
            seq!['%', hex_upper((b / 16) as int), hex_upper((b % 16) as int)]
        };
        head + percent_encoded(bytes.skip(1))
    }
}

/// Calls `urlencoding::encode`, whose documentation and source percent-encode
/// every byte of the UTF-8 text except ASCII alphanumerics and `-`, `_`,
/// `.`, `~`, with upper-case hexadecimal digits.
#[verifier::external_body]
pub(crate) fn url_encode(s: &str) -> (r: String)
    ensures
        r@ == percent_encoded(s.spec_bytes()),
{
    urlencoding::encode(s).into_owned()
}

/// The part of a URL after its scheme separator `://`; without one, all of
/// it.
pub open spec fn after_scheme(url: Seq<char>) -> Seq<char> {
    if contains_text(url, "://"@) {
        url.skip(first_index(url, "://"@) + 3)
    } else {
        url
    }
}

/// The scheme with its `://`, where one occurs after the first character.
pub open spec fn scheme_part(url: Seq<char>) -> Seq<char> {
    if contains_text(url, "://"@) && first_index(url, "://"@) > 0 {
        url.take(first_index(url, "://"@) + 3)
    } else {
        Seq::empty()
    }
}

/// The text up to its first `/`, or all of it.
pub open spec fn up_to_slash(s: Seq<char>) -> Seq<char> {
    if contains_text(s, "/"@) {
        s.take(first_index(s, "/"@))
    } else {
        s
    }
}

/// Scheme and host of a URL: `https://api.kimi.com/coding/` gives
/// `https://api.kimi.com`.
pub open spec fn domain_of(url: Seq<char>) -> Seq<char> {
    scheme_part(url) + up_to_slash(after_scheme(url))
}

/// Scheme and host of a URL, as in `https://api.kimi.com/coding/` giving
/// `https://api.kimi.com`. Without `://` there is no scheme, and the domain
/// is the text up to the first `/`.
pub fn extract_domain(url: &str) -> (r: String)
    ensures
        r@ == domain_of(url@),
{
    let n = url.unicode_len();
    let (scheme_len, rest_start): (usize, usize) = match find_text(url, "://") {
        Some(p) => {
            proof {
                reveal_strlit("://");
            }
            if p > 0 {
                (p + 3, p + 3)
            } else {
                (0, 3)
            }
        },
        None => (0, 0),
    };
    let scheme = url.substring_char(0, scheme_len);
    let rest = url.substring_char(rest_start, n);
    assert(rest@ =~= after_scheme(url@));
    assert(scheme@ =~= scheme_part(url@));
    let rest_len = rest.unicode_len();
    let end = match find_text(rest, "/") {
        Some(d) => d,
        None => rest_len,
    };
    let host = rest.substring_char(0, end);
    assert(host@ =~= up_to_slash(rest@));
    let mut r = String::from_str(scheme);
    r.append(host);
    r
}


/// Taking the domain of the domain changes nothing.
pub proof fn lemma_domain_idempotent(url: Seq<char>)
    ensures
        domain_of(domain_of(url)) == domain_of(url),
{
    if contains_text(url, "://"@) && first_index(url, "://"@) > 0 {
        lemma_scheme_domain_idempotent(url);
    } else {
        let sep = "://"@;
        let slash = "/"@;
        reveal_strlit("://");
        reveal_strlit("/");
        let rest = after_scheme(url);
        let host = up_to_slash(rest);
        assert(scheme_part(url) =~= Seq::<char>::empty());
        assert(domain_of(url) =~= host);
        lemma_up_to_slash_has_no_slash(rest);
        // Without a slash there is no separator either.
        assert forall|j: int| !occurs_at(host, sep, j) by {
            if occurs_at(host, sep, j) {
                assert(host.subrange(j, j + 3)[1] == '/');
                assert(host.subrange(j + 1, j + 2) =~= seq![host.subrange(j, j + 3)[1]]);
                assert(host.subrange(j + 1, j + 2) =~= slash);
                assert(occurs_at(host, slash, j + 1));
            }
        }
        assert(!contains_text(host, sep));
        assert(scheme_part(host) =~= Seq::<char>::empty());
        assert(after_scheme(host) == host);
        assert(!contains_text(host, slash));
        assert(up_to_slash(host) == host);
    }
}

/// The text up to the first slash holds no slash.
proof fn lemma_up_to_slash_has_no_slash(rest: Seq<char>)
    ensures
        !contains_text(up_to_slash(rest), "/"@),
{
    let slash = "/"@;
    reveal_strlit("/");
    let host = up_to_slash(rest);
    assert forall|j: int| !occurs_at(host, slash, j) by {
        if occurs_at(host, slash, j) {
            assert(host.subrange(j, j + 1)[0] == '/');
            if contains_text(rest, slash) {
                let k = choose|k: int| occurs_at(rest, slash, k);
                lemma_first_occurrence_exists(rest, slash, k);
                let f = first_index(rest, slash);
                assert(rest.subrange(j, j + 1) =~= host.subrange(j, j + 1));
                assert(occurs_at(rest, slash, j));
                assert(j < f);
            } else {
                assert(occurs_at(rest, slash, j));
            }
        }
    }
}

/// Where the scheme separator `://` comes after the first character, taking
/// the domain of the domain changes nothing.
proof fn lemma_scheme_domain_idempotent(url: Seq<char>)
    requires
        contains_text(url, "://"@),
        first_index(url, "://"@) > 0,
    ensures
        domain_of(domain_of(url)) == domain_of(url),
{
    let sep = "://"@;
    let slash = "/"@;
    reveal_strlit("://");
    reveal_strlit("/");
    let i = choose|i: int| occurs_at(url, sep, i);
    lemma_first_occurrence_exists(url, sep, i);
    let p = first_index(url, sep);
    let rest = url.skip(p + 3);
    let host = up_to_slash(rest);
    let d = domain_of(url);
    assert(scheme_part(url) == url.take(p + 3));
    assert(after_scheme(url) == rest);
    assert(d == url.take(p + 3) + host);
    // The separator is found at the same place in the domain.
    assert(d.subrange(p, p + 3) =~= url.subrange(p, p + 3));
    assert(occurs_at(d, sep, p));
    assert forall|j: int| 0 <= j < p implies !occurs_at(d, sep, j) by {
        assert(d.subrange(j, j + 3) =~= url.subrange(j, j + 3));
        assert(!occurs_at(url, sep, j));
    }
    assert(is_first_occurrence(d, sep, p));
    lemma_first_index(d, sep, p);
    assert(scheme_part(d) =~= url.take(p + 3));
    assert(after_scheme(d) =~= host);
    // The host holds no slash.
    assert forall|j: int| !occurs_at(host, slash, j) by {
        if occurs_at(host, slash, j) {
            assert(host.subrange(j, j + 1)[0] == '/');
            if contains_text(rest, slash) {
                let k = choose|k: int| occurs_at(rest, slash, k);
                lemma_first_occurrence_exists(rest, slash, k);
                let f = first_index(rest, slash);
                assert(rest.subrange(j, j + 1) =~= host.subrange(j, j + 1));
                assert(occurs_at(rest, slash, j));
                assert(j < f);
            } else {
                assert(occurs_at(rest, slash, j));
            }
        }
    }
    assert(up_to_slash(host) == host);
}

} // verus!
