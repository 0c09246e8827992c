//! Character-level text helpers: string comparison and whitespace
//! tokenization of shell input lines.

use vstd::prelude::*;

verus! {

/// Whether a character has the Unicode `White_Space` property; the result
/// of `char::is_whitespace`. Input lines are split into tokens on these
/// characters.
pub uninterp spec fn is_space(c: char) -> bool;

/// Relies on `char::is_whitespace`: whether a character is Unicode
/// whitespace depends on the character alone.
#[verifier::external_body]
pub fn char_is_space(c: char) -> (r: bool)
    ensures
        r == is_space(c),
{
    c.is_whitespace()
}

/// Splitting `s` into whitespace-separated tokens, with `cur` the token
/// accumulated so far.
pub open spec fn split_rec(s: Seq<char>, cur: Seq<char>) -> Seq<Seq<char>>
    decreases s.len(),
{
    if s.len() == 0 {
        if cur.len() == 0 {
            seq![]
        } else {
            seq![cur]
        }
    } else if is_space(s[0]) {
        if cur.len() == 0 {
            split_rec(s.drop_first(), seq![])
        } else {
            seq![cur] + split_rec(s.drop_first(), seq![])
        }
    } else {
        split_rec(s.drop_first(), cur.push(s[0]))
    }
}

/// The whitespace-separated tokens of `s`, in order, each non-empty.
pub open spec fn tokens_of(s: Seq<char>) -> Seq<Seq<char>> {
    split_rec(s, seq![])
}

/// Character-by-character string equality, proved against the views.
pub fn str_eq(a: &str, b: &str) -> (r: bool)
    ensures
        r == (a@ == b@),
{
    let alen = a.unicode_len();
    let blen = b.unicode_len();
    if alen != blen {
        assert(a@ != b@) by {
            assert(a@.len() != b@.len());
        }
        return false;
    }
    let mut i: usize = 0;
    while i < alen
        invariant
            alen == a@.len(),
            alen == b@.len(),
            0 <= i <= alen,
            forall|k: int| 0 <= k < i ==> a@[k] == b@[k],
        decreases alen - i,
    {
        if a.get_char(i) != b.get_char(i) {
            return false;
        }
        i = i + 1;
    }
    proof {
        assert(a@ =~= b@);
    }
    true
}

/// Splits a line into its whitespace-separated tokens.
pub fn tokenize(line: &str) -> (tokens: Vec<String>)
    ensures
        tokens.deep_view() == tokens_of(line@),
{
    let n = line.unicode_len();
    let mut tokens: Vec<String> = Vec::new();
    // start of the token currently being read, if one is open
    let mut start: Option<usize> = None;
    let mut i: usize = 0;
    proof {
        assert(line@.subrange(0, n as int) =~= line@);
        assert(tokens.deep_view() =~= Seq::<Seq<char>>::empty());
        assert(Seq::<Seq<char>>::empty() + split_rec(line@, seq![]) =~= split_rec(line@, seq![]));
    }
    while i < n
        invariant
            n == line@.len(),
            0 <= i <= n,
            match start {
                None => tokens_of(line@) == tokens.deep_view() + split_rec(
                    line@.subrange(i as int, n as int),
                    seq![],
                ),
                Some(j) => 0 <= j < i && tokens_of(line@) == tokens.deep_view() + split_rec(
                    line@.subrange(i as int, n as int),
                    line@.subrange(j as int, i as int),
                ),
            },
        decreases n - i,
    {
        let c = line.get_char(i);
        proof {
            assert(line@.subrange(i as int, n as int).drop_first() =~= line@.subrange(
                i + 1,
                n as int,
            ));
        }
        if char_is_space(c) {
            match start {
                None => {},
                Some(j) => {
                    let tok = line.substring_char(j, i);
                    tokens.push(tok.to_owned());
                    start = None;
                },
            }
        } else {
            match start {
                None => {
                    start = Some(i);
                    proof {
                        assert(line@.subrange(i as int, i + 1) =~= seq![line@[i as int]]);
                    }
                },
                Some(j) => {
                    proof {
                        assert(line@.subrange(j as int, i + 1) =~= line@.subrange(
                            j as int,
                            i as int,
                        ).push(line@[i as int]));
                    }
                },
            }
        }
        i = i + 1;
    }
    match start {
        None => {},
        Some(j) => {
            let tok = line.substring_char(j, n);
            tokens.push(tok.to_owned());
        },
    }
    tokens
}

} // verus!
