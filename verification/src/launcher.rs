//! Parsing of a configured exec string into a launchable command: the
//! first whitespace-separated token is the program, the rest are its
//! arguments. An exec string without tokens yields an empty program name
//! and no arguments.

use vstd::prelude::*;
use vstd::string::StrSliceExecFns;

verus! {

/// The whitespace that separates tokens of an exec string.
pub open spec fn is_space(c: char) -> bool {
    c == ' ' || c == '\t' || c == '\n' || c == '\r'
}

/// The index of the first separator at or after `i`, or the length if the
/// rest of the string is one token.
pub open spec fn token_end(s: Seq<char>, i: int) -> int
    recommends
        0 <= i <= s.len(),
    decreases s.len() - i when 0 <= i <= s.len()
{
    if i >= s.len() {
        s.len() as int
    } else if is_space(s[i]) {
        i
    } else {
        token_end(s, i + 1)
    }
}

pub proof fn lemma_token_end_bounds(s: Seq<char>, i: int)
    requires
        0 <= i <= s.len(),
    ensures
        i <= token_end(s, i) <= s.len(),
    decreases s.len() - i,
{
    if i < s.len() && !is_space(s[i]) {
        lemma_token_end_bounds(s, i + 1);
    }
}

/// The whitespace-separated tokens of `s` from position `i` on, in order.
pub open spec fn spec_tokens_from(s: Seq<char>, i: int) -> Seq<Seq<char>>
    recommends
        0 <= i <= s.len(),
    decreases s.len() - i when 0 <= i <= s.len() via spec_tokens_from_decreases
{
    if i >= s.len() {
        Seq::empty()
    } else if is_space(s[i]) {
        spec_tokens_from(s, i + 1)
    } else {
        seq![s.subrange(i, token_end(s, i))] + spec_tokens_from(s, token_end(s, i))
    }
}

#[via_fn]
proof fn spec_tokens_from_decreases(s: Seq<char>, i: int) {
    if 0 <= i < s.len() && !is_space(s[i]) {
        lemma_token_end_bounds(s, i + 1);
    }
}

/// The tokens of the whole string.
pub open spec fn spec_tokens(s: Seq<char>) -> Seq<Seq<char>> {
    spec_tokens_from(s, 0)
}

/// A span of non-separators ending at a separator or the end of the
/// string is exactly one token.
proof fn lemma_token_end_eq(s: Seq<char>, i: int, e: int)
    requires
        0 <= i <= e <= s.len(),
        forall|k: int| i <= k < e ==> !is_space(s[k]),
        e == s.len() || is_space(s[e]),
    ensures
        token_end(s, i) == e,
    decreases e - i,
{
    if i < e {
        lemma_token_end_eq(s, i + 1, e);
    }
}

/// Whether `c` is a token separator, following `is_space` exactly.
fn is_space_char(c: char) -> (r: bool)
    ensures
        r == is_space(c),
{
    c == ' ' || c == '\t' || c == '\n' || c == '\r'
}

/// Splits a string into its whitespace-separated tokens, following
/// `spec_tokens` exactly.
pub fn split_tokens(s: &str) -> (r: Vec<String>)
    ensures
        r@.len() == spec_tokens(s@).len(),
        forall|j: int| 0 <= j < r@.len() ==> r@[j]@ == spec_tokens(s@)[j],
{
    let n = s.unicode_len();
    let mut out: Vec<String> = Vec::new();
    let mut i: usize = 0;
    while i < n
        invariant
            n == s@.len(),
            0 <= i <= n,
            spec_tokens(s@) == out@.map_values(|t: String| t@) + spec_tokens_from(s@, i as int),
        decreases n - i,
    {
        if is_space_char(s.get_char(i)) {
            i = i + 1;
        } else {
            let mut e: usize = i + 1;
            while e < n && !is_space_char(s.get_char(e))
                invariant
                    n == s@.len(),
                    i < e <= n,
                    forall|k: int| i <= k < e ==> !is_space(s@[k]),
                decreases n - e,
            {
                e = e + 1;
            }
            proof {
                lemma_token_end_eq(s@, i as int, e as int);
            }
            let ghost prev = out@.map_values(|t: String| t@);
            let tok = s.substring_char(i, e).to_owned();
            out.push(tok);
            proof {
                assert(out@.map_values(|t: String| t@) =~= prev + seq![
                    s@.subrange(i as int, e as int),
                ]);
                assert(prev + (seq![s@.subrange(i as int, e as int)] + spec_tokens_from(
                    s@,
                    e as int,
                )) =~= (prev + seq![s@.subrange(i as int, e as int)]) + spec_tokens_from(
                    s@,
                    e as int,
                ));
            }
            i = e;
        }
    }
    proof {
        assert(spec_tokens_from(s@, n as int) =~= Seq::<Seq<char>>::empty());
        assert(spec_tokens(s@) =~= out@.map_values(|t: String| t@));
    }
    out
}

/// A launchable command: the program and its arguments, parsed from one
/// configured exec string.
#[derive(Debug)]
pub struct Executable {
    pub program: String,
    pub args: Vec<String>,
}

impl Executable {
    /// Parses an exec string: the first whitespace-separated token names
    /// the program and the remaining tokens are its arguments, in order.
    /// A string without tokens yields an empty program name and no
    /// arguments.
    pub fn new(path: &String) -> (r: Executable)
        ensures
            ({
                let toks = spec_tokens(path@);
                if toks.len() == 0 {
                    r.program@ == Seq::<char>::empty() && r.args@.len() == 0
                } else {
                    r.program@ == toks[0] && r.args@.len() == toks.len() - 1 && forall|j: int|
                        0 <= j < r.args@.len() ==> r.args@[j]@ == toks[j + 1]
                }
            }),
    {
        let mut tokens = split_tokens(path.as_str());
        if tokens.len() == 0 {
            Executable { program: String::new(), args: tokens }
        } else {
            let program = tokens.remove(0);
            Executable { program, args: tokens }
        }
    }
}

} // verus!
