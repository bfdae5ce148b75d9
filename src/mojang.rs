use crate::outcome::UpstreamOutcome;
use vstd::prelude::*;

verus! {

/// Whether `pat` occurs in `s` as a contiguous run of characters.
pub open spec fn has_substring(s: Seq<char>, pat: Seq<char>) -> bool {
    exists|i: int| 0 <= i && i + pat.len() <= s.len() && #[trigger] s.subrange(i, i + pat.len()) == pat
}

/// Whether `pat` occurs in `s` starting at character `i`.
fn matches_at(s: &str, pat: &str, i: usize, n: usize, m: usize) -> (r: bool)
    requires
        n == s@.len(),
        m == pat@.len(),
        i + m <= n,
    ensures
        r == (s@.subrange(i as int, i + m) == pat@),
{
    let mut j: usize = 0;
    while j < m
        invariant
            n == s@.len(),
            m == pat@.len(),
            i + m <= n,
            j <= m,
            forall|k: int| 0 <= k < j ==> s@[i + k] == pat@[k],
        decreases m - j,
    {
        if s.get_char(i + j) != pat.get_char(j) {
            assert(s@.subrange(i as int, i + m)[j as int] != pat@[j as int]);
            return false;
        }
        j = j + 1;
    }
    assert(s@.subrange(i as int, i + m) =~= pat@);
    true
}

/// Whether `pat` occurs anywhere in `s`.
pub fn contains_text(s: &str, pat: &str) -> (r: bool)
    ensures
        r == has_substring(s@, pat@),
{
    let n = s.unicode_len();
    let m = pat.unicode_len();
    if m > n {
        return false;
    }
    let mut i: usize = 0;
    loop
        invariant
            n == s@.len(),
            m == pat@.len(),
            m <= n,
            i <= n - m,
            forall|k: int| 0 <= k < i ==> #[trigger] s@.subrange(k, k + m) != pat@,
        decreases n - m - i,
    {
        if matches_at(s, pat, i, n, m) {
            assert(s@.subrange(i as int, i + pat@.len()) == pat@);
            return true;
        }
        if i == n - m {
            assert forall|k: int| 0 <= k && k + pat@.len() <= s@.len() implies #[trigger] s@.subrange(
                k,
                k + pat@.len(),
            ) != pat@ by {
                assert(k <= i);
            }
            return false;
        }
        i = i + 1;
    }
}

/// The JSON array that asks the profile lookup for one player name: `["<name>"]`.
pub open spec fn name_request(nickname: Seq<char>) -> Seq<char> {
    seq!['[', '"'] + nickname + seq!['"', ']']
}

/// Frames the body of a profile lookup for `nickname`.
pub fn name_request_body(nickname: &str) -> (r: String)
    ensures
        r@ == name_request(nickname@),
{
    let mut body = "[\"".to_owned();
    body.append(nickname);
    body.append("\"]");
    proof {
        reveal_strlit("[\"");
        reveal_strlit("\"]");
    }
    body
}

/// The marker whose presence anywhere in a lookup response means the upstream refused it.
pub open spec fn error_marker() -> Seq<char> {
    seq!['e', 'r', 'r', 'o', 'r']
}

/// How a profile lookup response is classified. `ids` holds the identifiers of the
/// parsed result list, or is `None` when the body did not parse as one.
pub open spec fn name_outcome(body: Seq<char>, ids: Option<Seq<String>>) -> UpstreamOutcome<String> {
    if has_substring(body, error_marker()) {
        UpstreamOutcome::RateLimited
    } else {
        match ids {
            None => UpstreamOutcome::ServerError,
            Some(v) => if v.len() == 0 {
                UpstreamOutcome::NotFound
            } else {
                UpstreamOutcome::Success(v[0])
            },
        }
    }
}

pub open spec fn list_view(ids: Option<Vec<String>>) -> Option<Seq<String>> {
    match ids {
        Some(v) => Some(v@),
        None => None,
    }
}

/// Classifies a profile lookup response: a body that mentions an error means back off; an
/// empty list means the name is unknown; otherwise the first identifier is the answer.
pub fn classify_name_response(body: &str, ids: Option<Vec<String>>) -> (r: UpstreamOutcome<String>)
    ensures
        r == name_outcome(body@, list_view(ids)),
{
    proof {
        reveal_strlit("error");
    }
    let marker: &str = "error";
    assert(marker@ == error_marker());
    if contains_text(body, marker) {
        return UpstreamOutcome::RateLimited;
    }
    match ids {
        None => UpstreamOutcome::ServerError,
        Some(v) => {
            if v.len() == 0 {
                UpstreamOutcome::NotFound
            } else {
                UpstreamOutcome::Success(v[0].clone())
            }
        },
    }
}

} // verus!
