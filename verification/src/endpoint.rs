//! The relay endpoint as configured, and the URL the client connects to.
use vstd::prelude::*;
use vstd::string::StrSliceExecFns;
use vstd::string::StringExecFns;

verus! {

/// `s` with every leading repetition of the non-empty pattern `p` removed
/// (`str::trim_start_matches` with a string pattern).
pub open spec fn trim_start_matches(s: Seq<char>, p: Seq<char>) -> Seq<char>
    decreases s.len(),
{
    if p.len() > 0 && p.len() <= s.len() && s.subrange(0, p.len() as int) == p {
        trim_start_matches(s.subrange(p.len() as int, s.len() as int), p)
    } else {
        s
    }
}

/// `s` with every trailing `c` removed (`str::trim_end_matches` with a char pattern).
pub open spec fn trim_end_matches(s: Seq<char>, c: char) -> Seq<char>
    decreases s.len(),
{
    if s.len() > 0 && s.last() == c {
        trim_end_matches(s.drop_last(), c)
    } else {
        s
    }
}

/// The text `https://`.
pub open spec fn https_scheme() -> Seq<char> {
    seq!['h', 't', 't', 'p', 's', ':', '/', '/']
}

/// The text `http://`.
pub open spec fn http_scheme() -> Seq<char> {
    seq!['h', 't', 't', 'p', ':', '/', '/']
}

/// The endpoint without its leading `https://` and `http://` schemes and trailing slashes.
pub open spec fn spec_normalize_endpoint(endpoint: Seq<char>) -> Seq<char> {
    trim_end_matches(trim_start_matches(trim_start_matches(endpoint, https_scheme()), http_scheme()), '/')
}

/// Whether `s` holds `p` at position `i`.
fn matches_at(s: &str, n: usize, i: usize, p: &[char]) -> (b: bool)
    requires
        n == s@.len(),
        i <= n,
    ensures
        b == (p@.len() <= n - i && s@.subrange(i as int, i + p@.len()) == p@),
{
    if p.len() > n - i {
        return false;
    }
    let mut k: usize = 0;
    while k < p.len()
        invariant
            n == s@.len(),
            i + p@.len() <= n,
            k <= p@.len(),
            forall|j: int| 0 <= j < k ==> s@[i + j] == p@[j],
        decreases p@.len() - k,
    {
        if s.get_char(i + k) != p[k] {
            assert(s@.subrange(i as int, i + p@.len())[k as int] != p@[k as int]);
            return false;
        }
        k = k + 1;
    }
    assert(s@.subrange(i as int, i + p@.len()) =~= p@);
    true
}

/// The first position from `start` at which no further copy of `p` begins, when copies of
/// `p` are skipped one after another.
fn skip_repeats(s: &str, n: usize, start: usize, p: &[char]) -> (i: usize)
    requires
        n == s@.len(),
        start <= n,
        p@.len() > 0,
    ensures
        start <= i <= n,
        s@.subrange(i as int, n as int) == trim_start_matches(s@.subrange(start as int, n as int), p@),
{
    let mut i = start;
    while matches_at(s, n, i, p)
        invariant
            n == s@.len(),
            start <= i <= n,
            p@.len() > 0,
            trim_start_matches(s@.subrange(start as int, n as int), p@) == trim_start_matches(
                s@.subrange(i as int, n as int),
                p@,
            ),
        decreases n - i,
    {
        let ghost rest = s@.subrange(i as int, n as int);
        assert(rest.subrange(0, p@.len() as int) =~= s@.subrange(i as int, i + p@.len()));
        assert(rest.subrange(p@.len() as int, rest.len() as int) =~= s@.subrange(
            i + p@.len(),
            n as int,
        ));
        i = i + p.len();
    }
    let ghost rest = s@.subrange(i as int, n as int);
    assert(p@.len() <= rest.len() ==> rest.subrange(0, p@.len() as int) =~= s@.subrange(
        i as int,
        i + p@.len(),
    ));
    i
}

/// Strip leading `https://` and `http://` (each repeated) and trailing `/` from an endpoint.
pub fn normalize_endpoint(endpoint: &str) -> (r: String)
    ensures
        r@ == spec_normalize_endpoint(endpoint@),
{
    let n = endpoint.unicode_len();
    let https: [char; 8] = ['h', 't', 't', 'p', 's', ':', '/', '/'];
    let http: [char; 7] = ['h', 't', 't', 'p', ':', '/', '/'];
    assert(https@ =~= https_scheme());
    assert(http@ =~= http_scheme());
    assert(endpoint@.subrange(0, n as int) =~= endpoint@);
    let i = skip_repeats(endpoint, n, 0, &https);
    let j = skip_repeats(endpoint, n, i, &http);
    let mut end = n;
    while end > j && endpoint.get_char(end - 1) == '/'
        invariant
            n == endpoint@.len(),
            j <= end <= n,
            trim_end_matches(endpoint@.subrange(j as int, n as int), '/') == trim_end_matches(
                endpoint@.subrange(j as int, end as int),
                '/',
            ),
        decreases end - j,
    {
        assert(endpoint@.subrange(j as int, end as int).drop_last() =~= endpoint@.subrange(
            j as int,
            end - 1,
        ));
        end = end - 1;
    }
    let sub = endpoint.substring_char(j, end);
    sub.to_owned()
}

/// The URL the client connects to: `https://` and the normalized endpoint.
pub fn endpoint_url(endpoint: &str) -> (url: String)
    ensures
        url@ == https_scheme() + spec_normalize_endpoint(endpoint@),
{
    let host = normalize_endpoint(endpoint);
    let url = "https://".to_string();
    proof {
        reveal_strlit("https://");
    }
    assert("https://"@ =~= https_scheme());
    url.concat(host.as_str())
}

} // verus!
