//! Bang-parameter URLs: `https://site/page!x=0&!y=0&!id=123`.
//!
//! A request URL carries its options after the first `!`: `&`-separated
//! `key=value` pairs (a key may itself start with `!`, which is stripped;
//! a pair without `=` is a flag with an empty value). Later occurrences of
//! a key override earlier ones.

use vstd::prelude::*;

use crate::text::find_char;

verus! {

/// Splits `s` at the first occurrence of `sep`: the part before it, and —
/// when `sep` occurs at all — the part after it.
pub open spec fn spec_split_first(s: Seq<char>, sep: char) -> (Seq<char>, Option<Seq<char>>)
    decreases s.len(),
{
    if s.len() == 0 {
        (Seq::<char>::empty(), None)
    } else if s[0] == sep {
        (Seq::<char>::empty(), Some(s.skip(1)))
    } else {
        let r = spec_split_first(s.skip(1), sep);
        (seq![s[0]] + r.0, r.1)
    }
}

proof fn lemma_split_first_at(s: Seq<char>, sep: char, i: int)
    requires
        0 <= i < s.len(),
        s[i] == sep,
        forall|j: int| 0 <= j < i ==> s[j] != sep,
    ensures
        spec_split_first(s, sep).0 == s.take(i),
        spec_split_first(s, sep).1 == Some(s.skip(i + 1)),
    decreases i,
{
    if i == 0 {
        assert(s.take(0) =~= Seq::<char>::empty());
    } else {
        let t = s.skip(1);
        assert(t[i - 1] == sep);
        assert(forall|j: int| 0 <= j < i - 1 ==> t[j] != sep);
        lemma_split_first_at(t, sep, i - 1);
        assert(seq![s[0]] + t.take(i - 1) =~= s.take(i));
        assert(t.skip(i) =~= s.skip(i + 1));
    }
}

proof fn lemma_split_first_none(s: Seq<char>, sep: char)
    requires
        forall|j: int| 0 <= j < s.len() ==> s[j] != sep,
    ensures
        spec_split_first(s, sep).0 == s,
        spec_split_first(s, sep).1 is None,
    decreases s.len(),
{
    if s.len() == 0 {
        assert(s =~= Seq::<char>::empty());
    } else {
        lemma_split_first_none(s.skip(1), sep);
        assert(seq![s[0]] + s.skip(1) =~= s);
    }
}

/// The `sep`-separated tokens of `s`, empty tokens included: splitting an
/// empty string gives one empty token.
pub open spec fn spec_tokens(s: Seq<char>, sep: char) -> Seq<Seq<char>>
    decreases s.len(),
{
    if s.len() == 0 {
        seq![Seq::<char>::empty()]
    } else if s[0] == sep {
        seq![Seq::<char>::empty()] + spec_tokens(s.skip(1), sep)
    } else {
        let r = spec_tokens(s.skip(1), sep);
        r.update(0, seq![s[0]] + r[0])
    }
}

proof fn lemma_split_none_whole(s: Seq<char>, sep: char)
    requires
        spec_split_first(s, sep).1 is None,
    ensures
        spec_split_first(s, sep).0 == s,
    decreases s.len(),
{
    if s.len() == 0 {
        assert(s =~= Seq::<char>::empty());
    } else {
        lemma_split_none_whole(s.skip(1), sep);
        assert(seq![s[0]] + s.skip(1) =~= s);
    }
}

proof fn lemma_split_some_shorter(s: Seq<char>, sep: char)
    requires
        spec_split_first(s, sep).1 is Some,
    ensures
        spec_split_first(s, sep).1->0.len() < s.len(),
    decreases s.len(),
{
    if s.len() > 0 && s[0] != sep {
        lemma_split_some_shorter(s.skip(1), sep);
    }
}

proof fn lemma_tokens_nonempty(s: Seq<char>, sep: char)
    ensures
        spec_tokens(s, sep).len() >= 1,
    decreases s.len(),
{
    if s.len() > 0 {
        lemma_tokens_nonempty(s.skip(1), sep);
    }
}

proof fn lemma_tokens_step(s: Seq<char>, sep: char)
    ensures
        spec_tokens(s, sep) == (match spec_split_first(s, sep).1 {
            None => seq![s],
            Some(rest) => seq![spec_split_first(s, sep).0] + spec_tokens(rest, sep),
        }),
    decreases s.len(),
{
    if s.len() == 0 {
        assert(s =~= Seq::<char>::empty());
    } else if s[0] == sep {
        assert(seq![Seq::<char>::empty()] + spec_tokens(s.skip(1), sep) =~= seq![spec_split_first(
            s,
            sep,
        ).0] + spec_tokens(s.skip(1), sep));
    } else {
        let t = s.skip(1);
        lemma_tokens_step(t, sep);
        lemma_tokens_nonempty(t, sep);
        match spec_split_first(t, sep).1 {
            None => {
                assert(spec_tokens(t, sep) == seq![t]);
                assert(spec_tokens(s, sep) == spec_tokens(t, sep).update(0, seq![s[0]] + t));
                assert(seq![s[0]] + t =~= s);
                assert(spec_tokens(t, sep).update(0, s) =~= seq![s]);
            },
            Some(rest) => {
                let head = spec_split_first(t, sep).0;
                assert(spec_tokens(t, sep) == seq![head] + spec_tokens(rest, sep));
                assert((seq![head] + spec_tokens(rest, sep))[0] == head);
                assert(spec_tokens(s, sep) == (seq![head] + spec_tokens(rest, sep)).update(
                    0,
                    seq![s[0]] + head,
                ));
                assert((seq![head] + spec_tokens(rest, sep)).update(0, seq![s[0]] + head)
                    =~= seq![seq![s[0]] + head] + spec_tokens(rest, sep));
            },
        }
    }
}

/// `s` without its leading `!` characters.
pub open spec fn spec_trim_bangs(s: Seq<char>) -> Seq<char>
    decreases s.len(),
{
    if s.len() > 0 && s[0] == '!' {
        spec_trim_bangs(s.skip(1))
    } else {
        s
    }
}

proof fn lemma_trim_bangs_skip(s: Seq<char>, k: int)
    requires
        0 <= k <= s.len(),
        forall|j: int| 0 <= j < k ==> s[j] == '!',
        k == s.len() || s[k as int] != '!',
    ensures
        spec_trim_bangs(s) == s.skip(k),
    decreases k,
{
    if k == 0 {
        assert(s.skip(0) =~= s);
    } else {
        let t = s.skip(1);
        assert(forall|j: int| 0 <= j < k - 1 ==> t[j] == '!');
        assert(k - 1 == t.len() || t[k - 1] != '!');
        lemma_trim_bangs_skip(t, k - 1);
        assert(t.skip(k - 1) =~= s.skip(k));
    }
}

/// The key/value pair a token denotes: split at the first `=` (no `=`
/// makes a flag with an empty value), with the key's leading `!` stripped.
pub open spec fn spec_pair_of_token(t: Seq<char>) -> (Seq<char>, Seq<char>) {
    match spec_split_first(t, '=').1 {
        None => (spec_trim_bangs(t), Seq::<char>::empty()),
        Some(v) => (spec_trim_bangs(spec_split_first(t, '=').0), v),
    }
}

/// The pairs of a whole bang part, in writing order.
pub open spec fn spec_bang_pairs(s: Seq<char>) -> Seq<(Seq<char>, Seq<char>)> {
    spec_tokens(s, '&').map_values(|t: Seq<char>| spec_pair_of_token(t))
}

/// The value of `key`: the last pair wins, as repeated insertion into a
/// map would have it.
pub open spec fn spec_get_last(pairs: Seq<(Seq<char>, Seq<char>)>, key: Seq<char>) -> Option<
    Seq<char>,
>
    decreases pairs.len(),
{
    if pairs.len() == 0 {
        None
    } else if pairs.last().0 == key {
        Some(pairs.last().1)
    } else {
        spec_get_last(pairs.drop_last(), key)
    }
}

/// The views of a pair list.
pub open spec fn pair_views(s: Seq<(String, String)>) -> Seq<(Seq<char>, Seq<char>)> {
    s.map_values(|p: (String, String)| (p.0@, p.1@))
}

pub(crate) fn split_first_str(s: &str, sep: char) -> (r: (String, Option<String>))
    ensures
        r.0@ == spec_split_first(s@, sep).0,
        match r.1 {
            Some(v) => spec_split_first(s@, sep).1 == Some(v@),
            None => spec_split_first(s@, sep).1 is None,
        },
{
    let len = s.unicode_len();
    match find_char(s, sep) {
        Some(i) => {
            proof {
                lemma_split_first_at(s@, sep, i as int);
                assert(s@.subrange(0, i as int) =~= s@.take(i as int));
                assert(s@.subrange(i + 1, s@.len() as int) =~= s@.skip(i + 1));
            }
            let head = String::from_str(s.substring_char(0, i));
            let tail = String::from_str(s.substring_char(i + 1, len));
            (head, Some(tail))
        },
        None => {
            proof {
                lemma_split_first_none(s@, sep);
            }
            (String::from_str(s), None)
        },
    }
}

/// The views of a token list.
pub open spec fn string_views(s: Seq<String>) -> Seq<Seq<char>> {
    s.map_values(|x: String| x@)
}

fn tokens_of(s: &str, sep: char) -> (v: Vec<String>)
    ensures
        string_views(v@) == spec_tokens(s@, sep),
    decreases s@.len(),
{
    let (head, rest) = split_first_str(s, sep);
    proof {
        lemma_tokens_step(s@, sep);
    }
    match rest {
        None => {
            proof {
                lemma_split_none_whole(s@, sep);
            }
            let mut v: Vec<String> = Vec::new();
            v.push(head);
            proof {
                assert(string_views(v@) =~= seq![s@]);
            }
            v
        },
        Some(r) => {
            proof {
                lemma_split_some_shorter(s@, sep);
            }
            let mut rest_tokens = tokens_of(r.as_str(), sep);
            let ghost rest_views = string_views(rest_tokens@);
            let mut v: Vec<String> = Vec::new();
            v.push(head);
            let ghost head_view = head@;
            v.append(&mut rest_tokens);
            proof {
                assert(string_views(v@) =~= seq![head_view] + rest_views);
            }
            v
        },
    }
}

fn trim_bangs(s: &str) -> (r: String)
    ensures
        r@ == spec_trim_bangs(s@),
{
    let len = s.unicode_len();
    let mut k: usize = 0;
    while k < len && s.get_char(k) == '!'
        invariant
            k <= len,
            len == s@.len(),
            forall|j: int| 0 <= j < k ==> s@[j] == '!',
        decreases len - k,
    {
        k += 1;
    }
    proof {
        lemma_trim_bangs_skip(s@, k as int);
        assert(s@.subrange(k as int, s@.len() as int) =~= s@.skip(k as int));
    }
    String::from_str(s.substring_char(k, len))
}

fn pair_of_token(t: &str) -> (r: (String, String))
    ensures
        r.0@ == spec_pair_of_token(t@).0,
        r.1@ == spec_pair_of_token(t@).1,
{
    let (head, rest) = split_first_str(t, '=');
    match rest {
        None => (trim_bangs(t), String::new()),
        Some(v) => (trim_bangs(head.as_str()), v),
    }
}

/// The parsed bang parameters of one request URL.
pub struct BangParams {
    pairs: Vec<(String, String)>,
}

impl View for BangParams {
    type V = Seq<(Seq<char>, Seq<char>)>;

    closed spec fn view(&self) -> Seq<(Seq<char>, Seq<char>)> {
        pair_views(self.pairs@)
    }
}

impl BangParams {
    /// No parameters at all.
    pub fn none() -> (r: BangParams)
        ensures
            r@ == Seq::<(Seq<char>, Seq<char>)>::empty(),
    {
        let r = BangParams { pairs: Vec::new() };
        proof {
            assert(r@ =~= Seq::<(Seq<char>, Seq<char>)>::empty());
        }
        r
    }

    /// How many pairs were written.
    pub fn len(&self) -> (r: usize)
        ensures
            r == self@.len(),
    {
        self.pairs.len()
    }

    /// The value of `key`, the last written one when repeated.
    pub fn get(&self, key: &str) -> (r: Option<&String>)
        ensures
            match r {
                Some(v) => spec_get_last(self@, key@) == Some(v@),
                None => spec_get_last(self@, key@) is None,
            },
    {
        let n = self.pairs.len();
        proof {
            assert(self@.take(n as int) =~= self@);
        }
        let mut i: usize = n;
        while i > 0
            invariant
                i <= n,
                n == self@.len(),
                n == self.pairs@.len(),
                spec_get_last(self@, key@) == spec_get_last(self@.take(i as int), key@),
            decreases i,
        {
            i -= 1;
            proof {
                assert(self@.take(i + 1).drop_last() =~= self@.take(i as int));
                assert(self@.take(i + 1).last() == self@[i as int]);
            }
            if crate::text::str_eq(self.pairs[i].0.as_str(), key) {
                return Some(&self.pairs[i].1);
            }
        }
        proof {
            assert(self@.take(0) =~= Seq::<(Seq<char>, Seq<char>)>::empty());
        }
        None
    }

    /// Whether `key` was written at all.
    pub fn contains_key(&self, key: &str) -> (r: bool)
        ensures
            r == (spec_get_last(self@, key@) is Some),
    {
        match self.get(key) {
            Some(_) => true,
            None => false,
        }
    }
}

/// Splits a request URL into the navigation URL proper (everything before
/// the first `!`) and its bang parameters (everything after it).
pub fn split_and_process_url(raw_url: &str) -> (r: (String, BangParams))
    ensures
        r.0@ == spec_split_first(raw_url@, '!').0,
        match spec_split_first(raw_url@, '!').1 {
            None => r.1@ == Seq::<(Seq<char>, Seq<char>)>::empty(),
            Some(rest) => r.1@ == spec_bang_pairs(rest),
        },
{
    let (base, rest) = split_first_str(raw_url, '!');
    match rest {
        None => (base, BangParams::none()),
        Some(bang_part) => {
            let toks = tokens_of(bang_part.as_str(), '&');
            let ghost tok_views = string_views(toks@);
            let mut pairs: Vec<(String, String)> = Vec::new();
            proof {
                assert(pair_views(pairs@) =~= tok_views.take(0).map_values(
                    |t: Seq<char>| spec_pair_of_token(t),
                ));
            }
            let mut i: usize = 0;
            while i < toks.len()
                invariant
                    i <= toks@.len(),
                    tok_views == string_views(toks@),
                    pair_views(pairs@) == tok_views.take(i as int).map_values(
                        |t: Seq<char>| spec_pair_of_token(t),
                    ),
                decreases toks@.len() - i,
            {
                let p = pair_of_token(toks[i].as_str());
                let ghost pairs_before = pairs@;
                let ghost p_view = (p.0@, p.1@);
                pairs.push(p);
                proof {
                    assert(tok_views[i as int] == toks@[i as int]@);
                    assert(p_view == spec_pair_of_token(tok_views[i as int]));
                    assert(pair_views(pairs@) =~= pair_views(pairs_before).push(p_view));
                    assert(pair_views(pairs@) =~= tok_views.take(i + 1).map_values(
                        |t: Seq<char>| spec_pair_of_token(t),
                    ));
                }
                i += 1;
            }
            proof {
                assert(tok_views.take(toks@.len() as int) =~= tok_views);
            }
            let params = BangParams { pairs };
            proof {
                assert(params@ =~= spec_bang_pairs(bang_part@));
            }
            (base, params)
        },
    }
}

} // verus!
