//! Verified text primitives: substring containment and decimal formatting.
//!
//! Service status queries are classified by searching well-known tokens in
//! raw command output, and ports and timestamps are printed in decimal when
//! URLs and log lines are built. Both primitives are proved against direct
//! mathematical statements over character sequences.

use vstd::prelude::*;

verus! {

/// Whether `needle` occurs in `haystack` starting at position `i`.
pub open spec fn matches_at(haystack: Seq<char>, needle: Seq<char>, i: int) -> bool {
    &&& 0 <= i
    &&& i + needle.len() <= haystack.len()
    &&& haystack.subrange(i, i + needle.len() as int) == needle
}

/// Whether `needle` occurs anywhere in `haystack`.
pub open spec fn contains_seq(haystack: Seq<char>, needle: Seq<char>) -> bool {
    exists|i: int| matches_at(haystack, needle, i)
}

/// Whether `needle` occurs in `haystack` starting at `i`, by comparing the
/// characters one by one.
fn prefix_matches(haystack: &str, needle: &str, i: usize) -> (r: bool)
    requires
        i + needle@.len() <= haystack@.len(),
    ensures
        r == matches_at(haystack@, needle@, i as int),
{
    let haystack_len = haystack.unicode_len();
    let needle_len = needle.unicode_len();
    let mut j: usize = 0;
    while j < needle_len
        invariant
            j <= needle_len,
            haystack_len == haystack@.len(),
            needle_len == needle@.len(),
            i + needle_len <= haystack_len,
            forall|k: int| 0 <= k < j ==> haystack@[i + k] == needle@[k],
        decreases needle_len - j,
    {
        if haystack.get_char(i + j) != needle.get_char(j) {
            proof {
                assert(haystack@.subrange(i as int, i + needle@.len() as int)[j as int]
                    == haystack@[i + j]);
            }
            return false;
        }
        j = j + 1;
    }
    proof {
        assert(haystack@.subrange(i as int, i + needle@.len() as int) =~= needle@);
    }
    true
}

/// Whether the token occurs anywhere in the text. This is the primitive the
/// status classification rests on.
pub fn contains_token(text: &str, token: &str) -> (r: bool)
    ensures
        r == contains_seq(text@, token@),
{
    let text_len = text.unicode_len();
    let token_len = token.unicode_len();
    if token_len > text_len {
        return false;
    }
    if token_len == 0 {
        proof {
            assert(text@.subrange(0, 0) =~= token@);
            assert(matches_at(text@, token@, 0));
        }
        return true;
    }
    let mut i: usize = 0;
    while i <= text_len - token_len
        invariant
            text_len == text@.len(),
            token_len == token@.len(),
            0 < token_len <= text_len,
            i <= text_len - token_len + 1,
            forall|k: int| 0 <= k < i ==> !matches_at(text@, token@, k),
        decreases text_len - i,
    {
        if prefix_matches(text, token, i) {
            return true;
        }
        i = i + 1;
    }
    false
}

/// The character of one decimal digit.
pub open spec fn decimal_digit(d: int) -> char {
    if d == 0 {
        '0'
    } else if d == 1 {
        '1'
    } else if d == 2 {
        '2'
    } else if d == 3 {
        '3'
    } else if d == 4 {
        '4'
    } else if d == 5 {
        '5'
    } else if d == 6 {
        '6'
    } else if d == 7 {
        '7'
    } else if d == 8 {
        '8'
    } else {
        '9'
    }
}

/// The usual decimal notation of a non-negative integer: no sign, no
/// leading zero except for zero itself.
pub open spec fn decimal_seq(n: int) -> Seq<char>
    decreases n,
{
    if n < 10 {
        seq![decimal_digit(n)]
    } else {
        decimal_seq(n / 10).push(decimal_digit(n % 10))
    }
}

/// The one-character string of one decimal digit.
fn decimal_digit_str(d: u64) -> (s: &'static str)
    requires
        d < 10,
    ensures
        s@ == seq![decimal_digit(d as int)],
{
    proof {
        reveal_strlit("0");
        reveal_strlit("1");
        reveal_strlit("2");
        reveal_strlit("3");
        reveal_strlit("4");
        reveal_strlit("5");
        reveal_strlit("6");
        reveal_strlit("7");
        reveal_strlit("8");
        reveal_strlit("9");
    }
    let s: &'static str = if d == 0 {
        "0"
    } else if d == 1 {
        "1"
    } else if d == 2 {
        "2"
    } else if d == 3 {
        "3"
    } else if d == 4 {
        "4"
    } else if d == 5 {
        "5"
    } else if d == 6 {
        "6"
    } else if d == 7 {
        "7"
    } else if d == 8 {
        "8"
    } else {
        "9"
    };
    proof {
        assert(s@ =~= seq![decimal_digit(d as int)]);
    }
    s
}

/// Prints an integer in decimal.
pub fn format_u64(n: u64) -> (s: String)
    ensures
        s@ == decimal_seq(n as int),
    decreases n,
{
    if n < 10 {
        String::from_str(decimal_digit_str(n))
    } else {
        let mut s = format_u64(n / 10);
        s.append(decimal_digit_str(n % 10));
        proof {
            assert(s@ =~= decimal_seq((n / 10) as int).push(decimal_digit((n % 10) as int)));
        }
        s
    }
}

} // verus!
