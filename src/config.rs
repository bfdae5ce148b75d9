use crate::key_rotation::KeyRotation;
use vstd::prelude::*;

verus! {

/// The character that separates API keys in the configuration.
pub const KEY_SEPARATOR: char = ',';

/// The pieces of `s` between occurrences of `sep`, in order; `s` with no separator is one
/// piece, and an empty `s` is one empty piece.
pub open spec fn split_on(s: Seq<char>, sep: char) -> Seq<Seq<char>>
    decreases s.len(),
{
    if s.len() == 0 {
        seq![Seq::<char>::empty()]
    } else {
        let rest = split_on(s.drop_last(), sep);
        if s.last() == sep {
            rest.push(Seq::<char>::empty())
        } else {
            rest.update(rest.len() - 1, rest.last().push(s.last()))
        }
    }
}

proof fn lemma_split_nonempty(s: Seq<char>, sep: char)
    ensures
        split_on(s, sep).len() >= 1,
    decreases s.len(),
{
    if s.len() > 0 {
        lemma_split_nonempty(s.drop_last(), sep);
    }
}

pub open spec fn views(v: Seq<String>) -> Seq<Seq<char>> {
    v.map_values(|s: String| s@)
}

/// Splits `s` at every `sep`.
pub fn split_at_separator(s: &str, sep: char) -> (r: Vec<String>)
    ensures
        views(r@) == split_on(s@, sep),
{
    let n = s.unicode_len();
    let mut pieces: Vec<String> = Vec::new();
    let mut start: usize = 0;
    let mut i: usize = 0;
    assert(s@.subrange(0, 0) =~= Seq::<char>::empty());
    assert(s@.subrange(0, 0).len() == 0);
    while i < n
        invariant
            n == s@.len(),
            start <= i <= n,
            views(pieces@).push(s@.subrange(start as int, i as int)) == split_on(
                s@.subrange(0, i as int),
                sep,
            ),
        decreases n - i,
    {
        let ghost prefix = s@.subrange(0, i as int);
        let ghost next = s@.subrange(0, i + 1);
        assert(next.drop_last() =~= prefix);
        assert(next.last() == s@[i as int]);
        proof {
            lemma_split_nonempty(prefix, sep);
        }
        let c = s.get_char(i);
        if c == sep {
            let piece = s.substring_char(start, i).to_owned();
            let ghost before = pieces@;
            pieces.push(piece);
            start = i + 1;
            assert(views(pieces@) =~= views(before).push(piece@));
            assert(s@.subrange(start as int, i + 1) =~= Seq::<char>::empty());
        } else {
            assert(s@.subrange(start as int, i + 1) =~= s@.subrange(start as int, i as int).push(c));
        }
        i = i + 1;
    }
    let last = s.substring_char(start, n).to_owned();
    pieces.push(last);
    assert(s@.subrange(0, n as int) =~= s@);
    assert(views(pieces@) =~= views(pieces@.drop_last()).push(last@));
    pieces
}

/// The process configuration: the API keys, comma-separated, and the store's connection
/// parameters.
#[derive(Debug, Clone)]
pub struct Env {
    pub api_key: String,
    pub db_host: String,
    pub db_name: String,
    pub db_username: String,
    pub db_password: String,
}

impl Env {
    /// The configured API keys, in order.
    pub fn api_keys(&self) -> (r: Vec<String>)
        ensures
            views(r@) == split_on(self.api_key@, KEY_SEPARATOR),
    {
        split_at_separator(self.api_key.as_str(), KEY_SEPARATOR)
    }

    /// A rotation over the configured API keys.
    pub fn key_rotation(&self) -> (r: Option<KeyRotation>)
        ensures
            r matches Some(k) && k.wf() && k.cursor() == 0 && views(k.keys()) == split_on(
                self.api_key@,
                KEY_SEPARATOR,
            ),
    {
        proof {
            lemma_split_nonempty(self.api_key@, KEY_SEPARATOR);
        }
        KeyRotation::new(self.api_keys())
    }
}

} // verus!
