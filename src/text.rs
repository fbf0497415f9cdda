//! Character classes and small string builders shared by the other modules.

use vstd::prelude::*;
use vstd::std_specs::iter::IteratorSpec;
use vstd::string::{StrSliceExecFns, StringExecFns};

verus! {

/// The characters that `char::is_whitespace` accepts: Unicode `White_Space`.
pub open spec fn is_space(c: char) -> bool {
    let u = c as u32;
    (0x9 <= u && u <= 0xd) || u == 0x20 || u == 0x85 || u == 0xa0 || u == 0x1680 || (0x2000 <= u
        && u <= 0x200a) || u == 0x2028 || u == 0x2029 || u == 0x202f || u == 0x205f || u == 0x3000
}

/// Whether position `i` of `s` begins a maximal run of non-space characters.
pub open spec fn starts_token(s: Seq<char>, i: int) -> bool {
    !is_space(s[i]) && (i == 0 || is_space(s[i - 1]))
}

/// Number of whitespace-separated tokens in `s`.
pub open spec fn token_count(s: Seq<char>) -> nat
    decreases s.len(),
{
    if s.len() == 0 {
        0
    } else {
        token_count(s.drop_last()) + if starts_token(s, s.len() - 1) {
            1nat
        } else {
            0nat
        }
    }
}

/// Executable form of [`is_space`].
pub fn char_is_space(c: char) -> (r: bool)
    ensures
        r == is_space(c),
{
    let u = c as u32;
    (0x9 <= u && u <= 0xd) || u == 0x20 || u == 0x85 || u == 0xa0 || u == 0x1680 || (0x2000 <= u
        && u <= 0x200a) || u == 0x2028 || u == 0x2029 || u == 0x202f || u == 0x205f || u == 0x3000
}

/// Counts the whitespace-separated tokens of `s`.
pub fn count_tokens(s: &str) -> (n: usize)
    ensures
        n as nat == token_count(s@),
{
    let len = s.unicode_len();
    let mut it = s.chars();
    let ghost all = s@;
    let mut k: usize = 0;
    let mut n: usize = 0;
    let mut prev_space = true;
    loop
        invariant
            all == s@,
            len == all.len(),
            k <= all.len(),
            it.remaining() == all.subrange(k as int, all.len() as int),
            n as nat == token_count(all.subrange(0, k as int)),
            n <= k,
            prev_space == (k == 0 || is_space(all[k - 1])),
        decreases all.len() - k,
    {
        let ghost before = it;
        let next = it.next();
        proof {
            broadcast use vstd::string::next_postcondition;
        }
        match next {
            None => {
                assert(all.subrange(0, k as int) =~= all);
                return n;
            },
            Some(c) => {
                let ghost pre = all.subrange(0, k as int);
                let ghost post = all.subrange(0, k + 1);
                assert(post.drop_last() =~= pre);
                assert(c == all[k as int]);
                let sp = char_is_space(c);
                if !sp && prev_space {
                    n = n + 1;
                }
                prev_space = sp;
                k = k + 1;
                assert(it.remaining() =~= all.subrange(k as int, all.len() as int));
            },
        }
    }
}

/// Relies on `String::push`: appends one character.
#[verifier::external_body]
pub(crate) fn push_char(s: &mut String, c: char)
    ensures
        final(s)@ == old(s)@.push(c),
{
    s.push(c)
}

} // verus!

verus! {

/// The decimal digit `d`.
pub open spec fn digit_char(d: nat) -> char {
    if d == 0 {
        '0'
    } else if d == 1 {
        '1'
    } else if d == 2 {
        '2'
    } else if d == 3 {
        '3'
    } else if d == 4 {
        '4'
    } else if d == 5 {
        '5'
    } else if d == 6 {
        '6'
    } else if d == 7 {
        '7'
    } else if d == 8 {
        '8'
    } else {
        '9'
    }
}

/// The decimal form of `n`, without leading zeros.
pub open spec fn decimal(n: nat) -> Seq<char>
    decreases n,
{
    if n < 10 {
        seq![digit_char(n)]
    } else {
        decimal(n / 10).push(digit_char(n % 10))
    }
}

fn digit(d: u64) -> (c: char)
    requires
        d < 10,
    ensures
        c == digit_char(d as nat),
{
    if d == 0 {
        '0'
    } else if d == 1 {
        '1'
    } else if d == 2 {
        '2'
    } else if d == 3 {
        '3'
    } else if d == 4 {
        '4'
    } else if d == 5 {
        '5'
    } else if d == 6 {
        '6'
    } else if d == 7 {
        '7'
    } else if d == 8 {
        '8'
    } else {
        '9'
    }
}

/// Appends the decimal form of `n` to `s`.
pub fn push_decimal(s: &mut String, n: u64)
    ensures
        final(s)@ == old(s)@ + decimal(n as nat),
    decreases n,
{
    if n >= 10 {
        push_decimal(s, n / 10);
    }
    push_char(s, digit(n % 10));
    assert(final(s)@ =~= old(s)@ + decimal(n as nat));
}

/// `parts` joined with one space between neighbours.
pub open spec fn joined(parts: Seq<Seq<char>>) -> Seq<char>
    decreases parts.len(),
{
    if parts.len() == 0 {
        Seq::empty()
    } else if parts.len() == 1 {
        parts[0]
    } else {
        joined(parts.drop_last()) + " "@ + parts.last()
    }
}

/// Joins `parts` with single spaces.
pub fn join_with_spaces(parts: &Vec<String>) -> (r: String)
    ensures
        r@ == joined(parts@.map_values(|p: String| p@)),
{
    let ghost views = parts@.map_values(|p: String| p@);
    let mut r = String::new();
    let mut i: usize = 0;
    while i < parts.len()
        invariant
            i <= parts@.len(),
            views == parts@.map_values(|p: String| p@),
            r@ == joined(views.subrange(0, i as int)),
        decreases parts@.len() - i,
    {
        let ghost pre = views.subrange(0, i as int);
        if i > 0 {
            r.append(" ");
        }
        r.append(parts[i].as_str());
        i = i + 1;
        proof {
            let cur = views.subrange(0, i as int);
            assert(cur.drop_last() =~= pre);
            if i == 1 {
                assert(joined(cur) == cur[0]);
                assert(r@ =~= cur[0]);
            }
        }
    }
    assert(views.subrange(0, i as int) =~= views);
    r
}

} // verus!
