//! Splitting an input line into whitespace-separated tokens.

use vstd::prelude::*;

verus! {

/// A whitespace character: the Unicode `White_Space` set, the same set that
/// the standard library splits on when splitting a string by whitespace.
pub open spec fn is_space(c: char) -> bool {
    ||| c == '\u{0009}'
    ||| c == '\u{000A}'
    ||| c == '\u{000B}'
    ||| c == '\u{000C}'
    ||| c == '\u{000D}'
    ||| c == '\u{0020}'
    ||| c == '\u{0085}'
    ||| c == '\u{00A0}'
    ||| c == '\u{1680}'
    ||| c == '\u{2000}'
    ||| c == '\u{2001}'
    ||| c == '\u{2002}'
    ||| c == '\u{2003}'
    ||| c == '\u{2004}'
    ||| c == '\u{2005}'
    ||| c == '\u{2006}'
    ||| c == '\u{2007}'
    ||| c == '\u{2008}'
    ||| c == '\u{2009}'
    ||| c == '\u{200A}'
    ||| c == '\u{2028}'
    ||| c == '\u{2029}'
    ||| c == '\u{202F}'
    ||| c == '\u{205F}'
    ||| c == '\u{3000}'
}

/// Executable test for `is_space`.
pub fn is_space_char(c: char) -> (r: bool)
    ensures
        r == is_space(c),
{
    c == '\u{0009}' || c == '\u{000A}' || c == '\u{000B}' || c == '\u{000C}' || c == '\u{000D}'
        || c == '\u{0020}' || c == '\u{0085}' || c == '\u{00A0}' || c == '\u{1680}'
        || c == '\u{2000}' || c == '\u{2001}' || c == '\u{2002}' || c == '\u{2003}'
        || c == '\u{2004}' || c == '\u{2005}' || c == '\u{2006}' || c == '\u{2007}'
        || c == '\u{2008}' || c == '\u{2009}' || c == '\u{200A}' || c == '\u{2028}'
        || c == '\u{2029}' || c == '\u{202F}' || c == '\u{205F}' || c == '\u{3000}'
}

/// Length of the leading run of non-whitespace characters.
pub open spec fn token_len(s: Seq<char>) -> nat
    decreases s.len(),
{
    if s.len() == 0 || is_space(s[0]) {
        0
    } else {
        1 + token_len(s.drop_first())
    }
}

proof fn lemma_token_len_le(s: Seq<char>)
    ensures
        token_len(s) <= s.len(),
    decreases s.len(),
{
    if s.len() != 0 && !is_space(s[0]) {
        lemma_token_len_le(s.drop_first());
    }
}

/// The tokens of `s`: the maximal runs of non-whitespace characters, in order.
pub open spec fn split_ws(s: Seq<char>) -> Seq<Seq<char>>
    decreases s.len(),
    via split_ws_decreases
{
    if s.len() == 0 {
        Seq::empty()
    } else if is_space(s[0]) {
        split_ws(s.drop_first())
    } else {
        seq![s.take(token_len(s) as int)] + split_ws(s.skip(token_len(s) as int))
    }
}

#[via_fn]
proof fn split_ws_decreases(s: Seq<char>) {
    if s.len() != 0 && !is_space(s[0]) {
        lemma_token_len_le(s);
    }
}

/// The views of a sequence of owned tokens.
pub open spec fn views_of(tokens: Seq<String>) -> Seq<Seq<char>> {
    tokens.map_values(|t: String| t@)
}

/// If the characters at positions `0 .. k` of `s` are not whitespace and `s`
/// either ends at `k` or has a whitespace character there, the leading token
/// has length exactly `k`.
proof fn lemma_token_len_run(s: Seq<char>, k: int)
    requires
        0 <= k <= s.len(),
        forall|m: int| 0 <= m < k ==> !is_space(s[m]),
        k == s.len() || is_space(s[k]),
    ensures
        token_len(s) == k,
    decreases k,
{
    if k != 0 {
        assert(forall|m: int| 0 <= m < k - 1 ==> !is_space(s.drop_first()[m]));
        lemma_token_len_run(s.drop_first(), k - 1);
    }
}

/// Split a line into its whitespace-separated tokens.
pub fn tokenize(input: &str) -> (tokens: Vec<String>)
    ensures
        views_of(tokens@) == split_ws(input@),
{
    let n = input.unicode_len();
    let mut tokens: Vec<String> = Vec::new();
    let mut i: usize = 0;
    proof {
        assert(input@.skip(0) =~= input@);
        assert(views_of(tokens@) + split_ws(input@) =~= split_ws(input@));
    }
    while i < n
        invariant
            n == input@.len(),
            i <= n,
            split_ws(input@) == views_of(tokens@) + split_ws(input@.skip(i as int)),
        decreases n - i,
    {
        let ghost s = input@;
        if is_space_char(input.get_char(i)) {
            proof {
                assert(s.skip(i as int).drop_first() =~= s.skip(i + 1));
            }
            i = i + 1;
        } else {
            let start = i;
            let mut j = i + 1;
            while j < n
                invariant
                    n == s.len(),
                    s == input@,
                    start < j <= n,
                    forall|m: int| start <= m < j ==> !is_space(s[m]),
                ensures
                    start < j <= n,
                    forall|m: int| start <= m < j ==> !is_space(s[m]),
                    j == n || is_space(s[j as int]),
                decreases n - j,
            {
                if is_space_char(input.get_char(j)) {
                    break;
                }
                j = j + 1;
            }
            let token = input.substring_char(start, j).to_owned();
            proof {
                let rest = s.skip(start as int);
                lemma_token_len_run(rest, j - start);
                assert(rest.take(j - start) =~= s.subrange(start as int, j as int));
                assert(rest.skip(j - start) =~= s.skip(j as int));
                assert(views_of(tokens@.push(token)) =~= views_of(tokens@) + seq![token@]);
                assert(views_of(tokens@) + seq![token@] + split_ws(s.skip(j as int))
                    =~= views_of(tokens@) + (seq![token@] + split_ws(s.skip(j as int))));
            }
            tokens.push(token);
            i = j;
        }
    }
    proof {
        assert(input@.skip(n as int) =~= Seq::<char>::empty());
        assert(views_of(tokens@) + split_ws(input@.skip(n as int)) =~= views_of(tokens@));
    }
    tokens
}

} // verus!
