//! Character-level helpers for the string-typed parts of the model:
//! equality, lexicographic order (used for the save-time ordering of todos),
//! and decimal digits (used for progress values and counts).

use vstd::prelude::*;

verus! {

/// Is `c` a decimal digit?
pub open spec fn spec_is_digit(c: char) -> bool {
    48 <= c as int && c as int <= 57
}

/// The numeric value of a digit character.
pub open spec fn spec_digit_val(c: char) -> int {
    c as int - 48
}

/// The number denoted by a non-empty, all-digit sequence, read left to
/// right; `None` if the sequence is empty or holds a non-digit.
pub open spec fn spec_parse_digits(s: Seq<char>) -> Option<int>
    decreases s.len(),
{
    if s.len() == 0 {
        None
    } else if s.len() == 1 {
        if spec_is_digit(s[0]) {
            Some(spec_digit_val(s[0]))
        } else {
            None
        }
    } else {
        match spec_parse_digits(s.drop_last()) {
            Some(v) => if spec_is_digit(s.last()) {
                Some(v * 10 + spec_digit_val(s.last()))
            } else {
                None
            },
            None => None,
        }
    }
}

/// The character of one digit value.
pub open spec fn spec_digit_char(d: int) -> char {
    (48 + d) as char
}

/// The canonical decimal writing of a number: no sign, no leading zero.
pub open spec fn spec_dec(n: nat) -> Seq<char>
    decreases n,
{
    if n < 10 {
        seq![spec_digit_char(n as int)]
    } else {
        spec_dec(n / 10) + seq![spec_digit_char((n % 10) as int)]
    }
}

/// The digit sequence read as a `u8`, or `None` when it is no number or
/// does not fit.
pub open spec fn spec_u8_of_digits(s: Seq<char>) -> Option<u8> {
    match spec_parse_digits(s) {
        Some(v) => if 0 <= v && v <= 255 {
            Some(v as u8)
        } else {
            None
        },
        None => None,
    }
}

/// Character equality of two string slices.
pub fn str_eq(a: &str, b: &str) -> (r: bool)
    ensures
        r == (a@ == b@),
{
    let alen = a.unicode_len();
    let blen = b.unicode_len();
    if alen != blen {
        return false;
    }
    let mut i: usize = 0;
    while i < alen
        invariant
            0 <= i <= alen,
            alen == a@.len(),
            alen == b@.len(),
            forall|j: int| 0 <= j < i ==> a@[j] == b@[j],
        decreases alen - i,
    {
        if a.get_char(i) != b.get_char(i) {
            return false;
        }
        i += 1;
    }
    proof {
        assert(a@ =~= b@);
    }
    true
}

/// Lexicographic order on character sequences, by code point, with a
/// prefix before every extension of it.
pub open spec fn spec_lex_le(a: Seq<char>, b: Seq<char>) -> bool
    decreases a.len(),
{
    if a.len() == 0 {
        true
    } else if b.len() == 0 {
        false
    } else if a[0] == b[0] {
        spec_lex_le(a.skip(1), b.skip(1))
    } else {
        (a[0] as int) < (b[0] as int)
    }
}

/// The order is total.
pub proof fn lemma_lex_le_total(a: Seq<char>, b: Seq<char>)
    ensures
        spec_lex_le(a, b) || spec_lex_le(b, a),
    decreases a.len(),
{
    if a.len() != 0 && b.len() != 0 && a[0] == b[0] {
        lemma_lex_le_total(a.skip(1), b.skip(1));
    }
}

/// The order is transitive.
pub proof fn lemma_lex_le_trans(a: Seq<char>, b: Seq<char>, c: Seq<char>)
    requires
        spec_lex_le(a, b),
        spec_lex_le(b, c),
    ensures
        spec_lex_le(a, c),
    decreases a.len(),
{
    if a.len() != 0 && b.len() != 0 && c.len() != 0 && a[0] == b[0] && b[0] == c[0] {
        lemma_lex_le_trans(a.skip(1), b.skip(1), c.skip(1));
    }
}

/// Decides `spec_lex_le` on string slices.
pub fn lex_le(a: &str, b: &str) -> (r: bool)
    ensures
        r == spec_lex_le(a@, b@),
{
    let alen = a.unicode_len();
    let blen = b.unicode_len();
    proof {
        assert(a@.skip(0) =~= a@);
        assert(b@.skip(0) =~= b@);
    }
    let mut i: usize = 0;
    while i < alen && i < blen
        invariant
            0 <= i <= alen,
            0 <= i <= blen,
            alen == a@.len(),
            blen == b@.len(),
            spec_lex_le(a@, b@) == spec_lex_le(a@.skip(i as int), b@.skip(i as int)),
        decreases alen - i,
    {
        let ca = a.get_char(i);
        let cb = b.get_char(i);
        if ca != cb {
            return (ca as u32) < (cb as u32);
        }
        proof {
            assert(a@.skip(i as int).skip(1) =~= a@.skip(i + 1));
            assert(b@.skip(i as int).skip(1) =~= b@.skip(i + 1));
        }
        i += 1;
    }
    proof {
        if i >= alen {
            assert(a@.skip(i as int).len() == 0);
        } else {
            assert(b@.skip(i as int).len() == 0);
            assert(a@.skip(i as int).len() > 0);
        }
    }
    alen <= blen
}

/// Reads a decimal `u8` out of a string of digits, as
/// `spec_u8_of_digits` says.
pub fn parse_u8_digits(s: &str) -> (r: Option<u8>)
    ensures
        r == spec_u8_of_digits(s@),
{
    let len = s.unicode_len();
    if len == 0 {
        return None;
    }
    let mut i: usize = 0;
    let mut acc: u32 = 0;
    while i < len
        invariant
            0 <= i <= len,
            len == s@.len(),
            i > 0 ==> match spec_parse_digits(s@.subrange(0, i as int)) {
                Some(v) => 0 <= v && (if v <= 255 {
                    acc == v
                } else {
                    acc == 256
                }),
                None => false,
            },
            i == 0 ==> acc == 0,
            acc <= 256,
        decreases len - i,
    {
        let c = s.get_char(i);
        let cv = c as u32;
        if !(48 <= cv && cv <= 57) {
            proof {
                lemma_parse_digits_non_digit(s@, i as int);
            }
            return None;
        }
        let d: u32 = cv - 48;
        proof {
            assert(s@.subrange(0, i + 1).drop_last() =~= s@.subrange(0, i as int));
            assert(s@.subrange(0, i + 1).last() == s@[i as int]);
        }
        if i == 0 {
            acc = d;
        } else {
            let na = acc * 10 + d;
            if na > 255 {
                acc = 256;
            } else {
                acc = na;
            }
        }
        i += 1;
    }
    proof {
        assert(s@.subrange(0, len as int) =~= s@);
    }
    if acc > 255 {
        None
    } else {
        Some(acc as u8)
    }
}

/// If position `i` of `s` holds a non-digit, no digit sequence is read
/// out of `s`.
proof fn lemma_parse_digits_non_digit(s: Seq<char>, i: int)
    requires
        0 <= i < s.len(),
        !spec_is_digit(s[i]),
    ensures
        spec_parse_digits(s) is None,
    decreases s.len(),
{
    if s.len() > 1 && i < s.len() - 1 {
        lemma_parse_digits_non_digit(s.drop_last(), i);
    }
}

/// One digit as a string literal.
fn digit_str(d: u8) -> (r: &'static str)
    requires
        d < 10,
    ensures
        r@.len() == 1,
        spec_is_digit(r@[0]),
        spec_digit_val(r@[0]) == d as int,
        r@[0] == spec_digit_char(d as int),
{
    proof {
        reveal_strlit("0");
        reveal_strlit("1");
        reveal_strlit("2");
        reveal_strlit("3");
        reveal_strlit("4");
        reveal_strlit("5");
        reveal_strlit("6");
        reveal_strlit("7");
        reveal_strlit("8");
        reveal_strlit("9");
    }
    match d {
        0 => "0",
        1 => "1",
        2 => "2",
        3 => "3",
        4 => "4",
        5 => "5",
        6 => "6",
        7 => "7",
        8 => "8",
        _ => "9",
    }
}

/// Writes `n` in decimal. The contract is read-back: the digits parse to
/// `n` again.
pub fn usize_to_dec(n: usize) -> (r: String)
    ensures
        r@.len() >= 1,
        r@ == spec_dec(n as nat),
        spec_parse_digits(r@) == Some(n as int),
    decreases n,
{
    if n < 10 {
        let r = String::from_str(digit_str(n as u8));
        proof {
            assert(r@ =~= spec_dec(n as nat));
        }
        r
    } else {
        let q = n / 10;
        let d = (n % 10) as u8;
        let s = usize_to_dec(q);
        let ds = digit_str(d);
        let r = s.concat(ds);
        proof {
            assert((s@ + ds@).drop_last() =~= s@);
            assert((s@ + ds@).last() == ds@[0]);
            vstd::arithmetic::div_mod::lemma_fundamental_div_mod(n as int, 10);
            assert(ds@ =~= seq![spec_digit_char((n % 10) as int)]);
        }
        r
    }
}

/// Writes a progress value in decimal; the digits read back as the same
/// `u8`.
pub fn u8_to_dec(n: u8) -> (r: String)
    ensures
        r@.len() >= 1,
        r@ == spec_dec(n as nat),
        spec_u8_of_digits(r@) == Some(n),
{
    usize_to_dec(n as usize)
}

} // verus!
