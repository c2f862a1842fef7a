//! Splitting an HTTP request line into whitespace-delimited tokens.
//!
//! A browser's redirect request starts with a line such as
//! `GET /callback?code=... HTTP/1.1`; the second token is the requested
//! path, which carries the authorization code as query parameters.

use vstd::prelude::*;

verus! {

/// The Unicode `White_Space` code points: the separators on which a request
/// is split into tokens (the set `char::is_whitespace` recognizes).
pub open spec fn spec_is_whitespace(c: char) -> bool {
    ||| c == '\u{9}'
    ||| c == '\u{a}'
    ||| c == '\u{b}'
    ||| c == '\u{c}'
    ||| c == '\u{d}'
    ||| c == ' '
    ||| c == '\u{85}'
    ||| c == '\u{a0}'
    ||| c == '\u{1680}'
    ||| c == '\u{2000}'
    ||| c == '\u{2001}'
    ||| c == '\u{2002}'
    ||| c == '\u{2003}'
    ||| c == '\u{2004}'
    ||| c == '\u{2005}'
    ||| c == '\u{2006}'
    ||| c == '\u{2007}'
    ||| c == '\u{2008}'
    ||| c == '\u{2009}'
    ||| c == '\u{200a}'
    ||| c == '\u{2028}'
    ||| c == '\u{2029}'
    ||| c == '\u{202f}'
    ||| c == '\u{205f}'
    ||| c == '\u{3000}'
}

/// Decides whether `c` is one of the Unicode `White_Space` code points.
fn is_whitespace_char(c: char) -> (r: bool)
    ensures
        r == spec_is_whitespace(c),
{
    c == '\u{9}' || c == '\u{a}' || c == '\u{b}' || c == '\u{c}' || c == '\u{d}' || c == ' '
        || c == '\u{85}' || c == '\u{a0}' || c == '\u{1680}' || c == '\u{2000}' || c == '\u{2001}'
        || c == '\u{2002}' || c == '\u{2003}' || c == '\u{2004}' || c == '\u{2005}'
        || c == '\u{2006}' || c == '\u{2007}' || c == '\u{2008}' || c == '\u{2009}'
        || c == '\u{200a}' || c == '\u{2028}' || c == '\u{2029}' || c == '\u{202f}'
        || c == '\u{205f}' || c == '\u{3000}'
}

/// The first index at or after `i` that does not hold whitespace, or the
/// end of `cs`.
pub open spec fn skip_whitespace(cs: Seq<char>, i: int) -> int
    decreases cs.len() - i,
    when 0 <= i <= cs.len()
{
    if i >= cs.len() {
        i
    } else if spec_is_whitespace(cs[i]) {
        skip_whitespace(cs, i + 1)
    } else {
        i
    }
}

/// The first index at or after `i` that holds whitespace, or the end of
/// `cs`: the end of the token starting at `i`.
pub open spec fn skip_token(cs: Seq<char>, i: int) -> int
    decreases cs.len() - i,
    when 0 <= i <= cs.len()
{
    if i >= cs.len() {
        i
    } else if !spec_is_whitespace(cs[i]) {
        skip_token(cs, i + 1)
    } else {
        i
    }
}

/// The second whitespace-delimited token of `cs`, if `cs` has one.
pub open spec fn second_token(cs: Seq<char>) -> Option<Seq<char>> {
    let first_start = skip_whitespace(cs, 0);
    let first_end = skip_token(cs, first_start);
    let second_start = skip_whitespace(cs, first_end);
    let second_end = skip_token(cs, second_start);
    if second_start < cs.len() {
        Some(cs.subrange(second_start, second_end))
    } else {
        None
    }
}

/// Scans forward from `from` over whitespace, returning `skip_whitespace`'s
/// value executably.
fn scan_whitespace(cs: &Vec<char>, from: usize) -> (r: usize)
    requires
        from <= cs@.len(),
    ensures
        r == skip_whitespace(cs@, from as int),
        from <= r <= cs@.len(),
{
    let n = cs.len();
    let mut i = from;
    while i < n && is_whitespace_char(cs[i])
        invariant
            from <= i <= n,
            n == cs@.len(),
            skip_whitespace(cs@, from as int) == skip_whitespace(cs@, i as int),
        decreases n - i,
    {
        i = i + 1;
    }
    i
}

/// Scans forward from `from` over non-whitespace, returning `skip_token`'s
/// value executably.
fn scan_token(cs: &Vec<char>, from: usize) -> (r: usize)
    requires
        from <= cs@.len(),
    ensures
        r == skip_token(cs@, from as int),
        from <= r <= cs@.len(),
{
    let n = cs.len();
    let mut i = from;
    while i < n && !is_whitespace_char(cs[i])
        invariant
            from <= i <= n,
            n == cs@.len(),
            skip_token(cs@, from as int) == skip_token(cs@, i as int),
        decreases n - i,
    {
        i = i + 1;
    }
    i
}

/// Extracts the second whitespace-delimited token of `cs`, if any.
pub(crate) fn find_second_token(cs: &Vec<char>) -> (r: Option<Vec<char>>)
    ensures
        r is Some <==> second_token(cs@) is Some,
        r matches Some(t) ==> second_token(cs@) == Some(t@),
{
    let first_start = scan_whitespace(cs, 0);
    let first_end = scan_token(cs, first_start);
    let second_start = scan_whitespace(cs, first_end);
    let second_end = scan_token(cs, second_start);
    if second_start < cs.len() {
        let mut token: Vec<char> = Vec::new();
        let mut k = second_start;
        while k < second_end
            invariant
                second_start <= k <= second_end <= cs@.len(),
                token@ == cs@.subrange(second_start as int, k as int),
            decreases second_end - k,
        {
            token.push(cs[k]);
            proof {
                assert(token@ =~= cs@.subrange(second_start as int, k + 1));
            }
            k = k + 1;
        }
        proof {
            assert(token@ =~= cs@.subrange(second_start as int, second_end as int));
        }
        Some(token)
    } else {
        None
    }
}

} // verus!
