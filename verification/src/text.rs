//! Verified character-level helpers: substring search, whitespace
//! tokenisation, and splitting a qualified artifact name on `:`.

use vstd::prelude::*;

verus! {

/// The whitespace characters that separate tokens on a source line.
pub open spec fn is_space_char(c: char) -> bool {
    c == ' ' || c == '\t' || c == '\r' || c == '\n' || c == '\u{000B}' || c == '\u{000C}'
}

/// Executable mirror of [`is_space_char`].
pub fn is_space(c: char) -> (r: bool)
    ensures
        r == is_space_char(c),
{
    c == ' ' || c == '\t' || c == '\r' || c == '\n' || c == '\u{000B}' || c == '\u{000C}'
}

/// The first position at or after `i` whose character is a space
/// (when `space` is true) or a non-space (when `space` is false) —
/// `s.len()` when no such position exists.
pub open spec fn spec_skip_while(s: Seq<char>, i: int, space: bool) -> int
    decreases s.len() - i,
{
    if i < 0 || i >= s.len() {
        s.len() as int
    } else if is_space_char(s[i]) == space {
        spec_skip_while(s, i + 1, space)
    } else {
        i
    }
}

proof fn lemma_skip_while_bounds(s: Seq<char>, i: int, space: bool)
    requires
        0 <= i <= s.len(),
    ensures
        i <= spec_skip_while(s, i, space) <= s.len(),
    decreases s.len() - i,
{
    if i < s.len() && is_space_char(s[i]) == space {
        lemma_skip_while_bounds(s, i + 1, space);
    }
}

/// Scans past the characters whose space-ness equals `space`.
fn skip_while(s: &str, from: usize, space: bool) -> (r: usize)
    requires
        from <= s@.len(),
    ensures
        r == spec_skip_while(s@, from as int, space),
        from <= r <= s@.len(),
{
    let len = s.unicode_len();
    let mut i = from;
    while i < len && is_space(s.get_char(i)) == space
        invariant
            from <= i <= len,
            len == s@.len(),
            spec_skip_while(s@, from as int, space) == spec_skip_while(s@, i as int, space),
        decreases len - i,
    {
        i = i + 1;
    }
    proof {
        lemma_skip_while_bounds(s@, i as int, space);
    }
    i
}

/// Where the token with index `n` starts, counting whitespace-separated
/// tokens from zero; `s.len()` when fewer than `n + 1` tokens exist.
pub open spec fn spec_token_start(s: Seq<char>, n: nat) -> int
    decreases n,
{
    if n == 0 {
        spec_skip_while(s, 0, true)
    } else {
        spec_skip_while(s, spec_skip_while(s, spec_token_start(s, (n - 1) as nat), false), true)
    }
}

/// The whitespace-separated token with index `n` of `s`, when it exists.
pub open spec fn spec_nth_token(s: Seq<char>, n: nat) -> Option<Seq<char>> {
    let a = spec_token_start(s, n);
    if a >= s.len() {
        None
    } else {
        Some(s.subrange(a, spec_skip_while(s, a, false)))
    }
}

proof fn lemma_token_start_bounds(s: Seq<char>, n: nat)
    ensures
        0 <= spec_token_start(s, n) <= s.len(),
    decreases n,
{
    if n == 0 {
        lemma_skip_while_bounds(s, 0, true);
    } else {
        lemma_token_start_bounds(s, (n - 1) as nat);
        lemma_skip_while_bounds(s, spec_token_start(s, (n - 1) as nat), false);
        lemma_skip_while_bounds(
            s,
            spec_skip_while(s, spec_token_start(s, (n - 1) as nat), false),
            true,
        );
    }
}

/// Extracts the whitespace-separated token with index `n`, counting from
/// zero.
pub fn nth_token(s: &str, n: usize) -> (r: Option<String>)
    ensures
        match spec_nth_token(s@, n as nat) {
            Some(t) => r matches Some(v) && v@ == t,
            None => r is None,
        },
{
    proof {
        lemma_token_start_bounds(s@, n as nat);
    }
    let len = s.unicode_len();
    let mut start = skip_while(s, 0, true);
    let mut k: usize = 0;
    while k < n
        invariant
            k <= n,
            start == spec_token_start(s@, k as nat),
            0 <= start <= s@.len(),
        decreases n - k,
    {
        proof {
            lemma_skip_while_bounds(s@, start as int, false);
        }
        let e = skip_while(s, start, false);
        start = skip_while(s, e, true);
        k = k + 1;
        proof {
            lemma_token_start_bounds(s@, k as nat);
        }
    }
    if start >= len {
        None
    } else {
        let e = skip_while(s, start, false);
        Some(s.substring_char(start, e).to_owned())
    }
}

/// `pat` occurs in `s` starting at position `i`.
pub open spec fn contains_at(s: Seq<char>, pat: Seq<char>, i: int) -> bool {
    0 <= i && i + pat.len() <= s.len() && s.subrange(i, i + pat.len()) == pat
}

/// `pat` occurs somewhere in `s`.
pub open spec fn has_substring(s: Seq<char>, pat: Seq<char>) -> bool {
    exists|i: int| contains_at(s, pat, i)
}

/// Compares `pat` against `s` at position `i`.
fn match_at(s: &str, pat: &str, i: usize) -> (r: bool)
    requires
        i + pat@.len() <= s@.len(),
    ensures
        r == contains_at(s@, pat@, i as int),
{
    let slen = s.unicode_len();
    let plen = pat.unicode_len();
    let mut j: usize = 0;
    while j < plen
        invariant
            0 <= j <= plen,
            plen == pat@.len(),
            slen == s@.len(),
            i + plen <= slen,
            forall|k: int| 0 <= k < j ==> s@[i + k] == pat@[k],
        decreases plen - j,
    {
        if s.get_char(i + j) != pat.get_char(j) {
            proof {
                assert(s@.subrange(i as int, i + plen)[j as int] == s@[i + j]);
            }
            return false;
        }
        j = j + 1;
    }
    proof {
        assert(s@.subrange(i as int, i + plen) =~= pat@);
    }
    true
}

/// Decides whether `pat` occurs anywhere in `s`.
pub fn contains_substring(s: &str, pat: &str) -> (r: bool)
    ensures
        r == has_substring(s@, pat@),
{
    let len = s.unicode_len();
    let plen = pat.unicode_len();
    if plen > len {
        return false;
    }
    if plen == 0 {
        proof {
            assert(s@.subrange(0, 0) =~= pat@);
            assert(contains_at(s@, pat@, 0));
        }
        return true;
    }
    let last = len - plen;
    let mut i: usize = 0;
    while i <= last
        invariant
            0 <= i <= last + 1,
            last == s@.len() - pat@.len(),
            len == s@.len(),
            plen == pat@.len(),
            1 <= plen,
            forall|k: int| 0 <= k < i ==> !contains_at(s@, pat@, k),
        decreases last + 1 - i,
    {
        if match_at(s, pat, i) {
            return true;
        }
        i = i + 1;
    }
    false
}

/// The first occurrence of `c` in `s` at or after position `i`.
pub open spec fn spec_find(s: Seq<char>, c: char, i: int) -> Option<int>
    decreases s.len() - i,
{
    if i < 0 || i >= s.len() {
        None
    } else if s[i] == c {
        Some(i)
    } else {
        spec_find(s, c, i + 1)
    }
}

proof fn lemma_find_bounds(s: Seq<char>, c: char, i: int)
    requires
        0 <= i <= s.len(),
    ensures
        spec_find(s, c, i) matches Some(j) ==> i <= j < s.len() && s[j] == c,
    decreases s.len() - i,
{
    if i < s.len() && s[i] != c {
        lemma_find_bounds(s, c, i + 1);
    }
}

/// Finds the first occurrence of `c` in `s` at or after `from`.
fn find_char(s: &str, c: char, from: usize) -> (r: Option<usize>)
    requires
        from <= s@.len(),
    ensures
        match spec_find(s@, c, from as int) {
            Some(i) => r matches Some(v) && v == i && from <= i < s@.len(),
            None => r is None,
        },
{
    proof {
        lemma_find_bounds(s@, c, from as int);
    }
    let len = s.unicode_len();
    let mut i = from;
    while i < len && s.get_char(i) != c
        invariant
            from <= i <= len,
            len == s@.len(),
            spec_find(s@, c, from as int) == spec_find(s@, c, i as int),
        decreases len - i,
    {
        i = i + 1;
    }
    if i < len {
        Some(i)
    } else {
        None
    }
}

/// The `(file, contract)` components of a qualified artifact name: the text
/// before the first `:` and the text between the first `:` and the next `:`
/// or the end. A name without a `:` has no components.
pub open spec fn qualified_parts(q: Seq<char>) -> Option<(Seq<char>, Seq<char>)> {
    match spec_find(q, ':', 0) {
        None => None,
        Some(i) => {
            let end = match spec_find(q, ':', i + 1) {
                None => q.len() as int,
                Some(j) => j,
            };
            Some((q.subrange(0, i), q.subrange(i + 1, end)))
        },
    }
}

/// Splits a qualified artifact name into its file and contract components.
pub fn split_qualified(q: &str) -> (r: Option<(String, String)>)
    ensures
        match qualified_parts(q@) {
            Some(p) => r matches Some(v) && v.0@ == p.0 && v.1@ == p.1,
            None => r is None,
        },
{
    proof {
        lemma_find_bounds(q@, ':', 0);
    }
    let len = q.unicode_len();
    match find_char(q, ':', 0) {
        None => None,
        Some(i) => {
            proof {
                lemma_find_bounds(q@, ':', i + 1);
            }
            let end = match find_char(q, ':', i + 1) {
                None => len,
                Some(j) => j,
            };
            let file = q.substring_char(0, i).to_owned();
            let name = q.substring_char(i + 1, end).to_owned();
            Some((file, name))
        },
    }
}

/// How often `c` occurs in `s`.
pub open spec fn count_char(s: Seq<char>, c: char) -> int
    decreases s.len(),
{
    if s.len() == 0 {
        0
    } else {
        count_char(s.drop_last(), c) + if s.last() == c {
            1int
        } else {
            0int
        }
    }
}

/// Counting one position further takes in exactly the character there.
pub proof fn lemma_count_char_step(s: Seq<char>, c: char, i: int)
    requires
        0 <= i < s.len(),
    ensures
        count_char(s.take(i + 1), c) == count_char(s.take(i), c) + if s[i] == c {
            1int
        } else {
            0int
        },
{
    assert(s.take(i + 1).drop_last() =~= s.take(i));
    assert(s.take(i + 1).last() == s[i]);
}

/// The character of one decimal digit.
pub open spec fn digit_char(d: nat) -> char {
    if d == 0 {
        '0'
    } else if d == 1 {
        '1'
    } else if d == 2 {
        '2'
    } else if d == 3 {
        '3'
    } else if d == 4 {
        '4'
    } else if d == 5 {
        '5'
    } else if d == 6 {
        '6'
    } else if d == 7 {
        '7'
    } else if d == 8 {
        '8'
    } else {
        '9'
    }
}

/// The decimal rendering of a number, most significant digit first and
/// without leading zeroes.
pub open spec fn spec_decimal(n: nat) -> Seq<char>
    decreases n,
{
    if n < 10 {
        seq![digit_char(n)]
    } else {
        spec_decimal(n / 10).push(digit_char(n % 10))
    }
}

/// One decimal digit as text.
fn digit_str(d: u64) -> (r: &'static str)
    requires
        d < 10,
    ensures
        r@ == seq![digit_char(d as nat)],
{
    match d {
        0 => {
            proof {
                reveal_strlit("0");
                assert("0"@ =~= seq![digit_char(0)]);
            }
            "0"
        },
        1 => {
            proof {
                reveal_strlit("1");
                assert("1"@ =~= seq![digit_char(1)]);
            }
            "1"
        },
        2 => {
            proof {
                reveal_strlit("2");
                assert("2"@ =~= seq![digit_char(2)]);
            }
            "2"
        },
        3 => {
            proof {
                reveal_strlit("3");
                assert("3"@ =~= seq![digit_char(3)]);
            }
            "3"
        },
        4 => {
            proof {
                reveal_strlit("4");
                assert("4"@ =~= seq![digit_char(4)]);
            }
            "4"
        },
        5 => {
            proof {
                reveal_strlit("5");
                assert("5"@ =~= seq![digit_char(5)]);
            }
            "5"
        },
        6 => {
            proof {
                reveal_strlit("6");
                assert("6"@ =~= seq![digit_char(6)]);
            }
            "6"
        },
        7 => {
            proof {
                reveal_strlit("7");
                assert("7"@ =~= seq![digit_char(7)]);
            }
            "7"
        },
        8 => {
            proof {
                reveal_strlit("8");
                assert("8"@ =~= seq![digit_char(8)]);
            }
            "8"
        },
        _ => {
            proof {
                reveal_strlit("9");
                assert("9"@ =~= seq![digit_char(9)]);
            }
            "9"
        },
    }
}

/// Renders a number in decimal.
pub fn u64_decimal(n: u64) -> (r: String)
    ensures
        r@ == spec_decimal(n as nat),
    decreases n,
{
    if n < 10 {
        digit_str(n).to_owned()
    } else {
        let mut s = u64_decimal(n / 10);
        s.append(digit_str(n % 10));
        proof {
            assert(spec_decimal((n as nat) / 10).push(digit_char((n as nat) % 10)) =~= spec_decimal(
                (n as nat) / 10,
            ) + seq![digit_char((n as nat) % 10)]);
        }
        s
    }
}

/// Compares two string slices for character-for-character equality.
pub fn str_eq(a: &str, b: &str) -> (r: bool)
    ensures
        r == (a@ == b@),
{
    let x: String = a.to_owned();
    let y: String = b.to_owned();
    x == y
}

} // verus!
