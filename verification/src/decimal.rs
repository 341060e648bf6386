//! Unsigned decimal numerals: what a text denotes, how to read one and how to
//! write one.

use vstd::prelude::*;
use vstd::std_specs::iter::IteratorSpec;

verus! {

broadcast use vstd::string::group_string_axioms;

/// Whether `c` is one of the ten ASCII digits.
pub open spec fn is_digit(c: char) -> bool {
    '0' <= c && c <= '9'
}

/// The number that the ASCII digit `c` stands for.
pub open spec fn digit_value(c: char) -> nat {
    (c as u32 - '0' as u32) as nat
}

/// The ASCII digit that stands for `d`, a number below ten.
pub open spec fn digit_char(d: nat) -> char {
    ('0' as u32 + d) as char
}

/// Whether every character of `s` is an ASCII digit.
pub open spec fn all_digits(s: Seq<char>) -> bool {
    forall|i: int| 0 <= i < s.len() ==> is_digit(#[trigger] s[i])
}

/// The number that a run of digits denotes in base ten; the empty run denotes zero.
pub open spec fn decimal_value(s: Seq<char>) -> nat
    decreases s.len(),
{
    if s.len() == 0 {
        0
    } else {
        10 * decimal_value(s.drop_last()) + digit_value(s.last())
    }
}

/// The digits of a numeral: the text without one leading plus sign, if it has one.
pub open spec fn numeral_digits(s: Seq<char>) -> Seq<char> {
    if s.len() > 0 && s[0] == '+' {
        s.drop_first()
    } else {
        s
    }
}

/// The number that `s` denotes as an unsigned numeral no greater than `max`:
/// an optional plus sign, then one or more ASCII digits and nothing else.
pub open spec fn parse_unsigned_spec(s: Seq<char>, max: nat) -> Option<nat> {
    let d = numeral_digits(s);
    if d.len() > 0 && all_digits(d) && decimal_value(d) <= max {
        Some(decimal_value(d))
    } else {
        None
    }
}

/// The shortest run of digits that denotes `n`: no sign, and no leading zero
/// but for zero itself.
pub open spec fn decimal_digits(n: nat) -> Seq<char>
    decreases n,
{
    if n < 10 {
        seq![digit_char(n)]
    } else {
        decimal_digits(n / 10).push(digit_char(n % 10))
    }
}

/// A run of digits without its leading zeros, the last digit always kept.
pub open spec fn strip_leading_zeros(s: Seq<char>) -> Seq<char>
    decreases s.len(),
{
    if s.len() > 1 && s[0] == '0' {
        strip_leading_zeros(s.drop_first())
    } else {
        s
    }
}

/// A run of digits denotes at least what any of its prefixes denotes.
pub proof fn lemma_decimal_value_prefix(s: Seq<char>, k: int)
    requires
        0 <= k <= s.len(),
    ensures
        decimal_value(s.subrange(0, k)) <= decimal_value(s),
    decreases s.len(),
{
    if k == s.len() {
        assert(s.subrange(0, k) =~= s);
    } else {
        lemma_decimal_value_prefix(s.drop_last(), k);
        assert(s.drop_last().subrange(0, k) =~= s.subrange(0, k));
    }
}

/// The shortest numeral of `n` is a run of digits, not empty, that denotes
/// `n` and starts with a zero only where `n` is zero.
pub proof fn lemma_decimal_digits_value(n: nat)
    ensures
        decimal_digits(n).len() > 0,
        all_digits(decimal_digits(n)),
        decimal_value(decimal_digits(n)) == n,
        decimal_digits(n)[0] == '0' <==> n == 0,
        n == 0 ==> decimal_digits(n) == seq!['0'],
    decreases n,
{
    let text = decimal_digits(n);
    if n < 10 {
        assert(decimal_value(text) == 10 * decimal_value(text.drop_last()) + digit_value(
            text.last(),
        ));
    } else {
        let lead = decimal_digits(n / 10);
        lemma_decimal_digits_value(n / 10);
        assert(text.drop_last() =~= lead);
        assert(decimal_value(text) == 10 * decimal_value(text.drop_last()) + digit_value(
            text.last(),
        ));
        assert forall|i: int| 0 <= i < text.len() implies is_digit(#[trigger] text[i]) by {
            if i < lead.len() {
                assert(text[i] == lead[i]);
            }
        }
    }
}

/// Stripping leading zeros looks only at the front: a digit added at the end
/// stays, and replaces a lone zero.
proof fn lemma_strip_push(s: Seq<char>, c: char)
    requires
        s.len() > 0,
    ensures
        strip_leading_zeros(s.push(c)) == if strip_leading_zeros(s) == seq!['0'] {
            seq![c]
        } else {
            strip_leading_zeros(s).push(c)
        },
    decreases s.len(),
{
    let t = s.push(c);
    if s[0] == '0' {
        assert(t.drop_first() =~= s.drop_first().push(c));
        if s.len() > 1 {
            lemma_strip_push(s.drop_first(), c);
        } else {
            assert(s =~= seq!['0']);
            assert(t.drop_first() =~= seq![c]);
            assert(strip_leading_zeros(seq![c]) == seq![c]);
        }
    } else {
        assert(s != seq!['0']);
    }
}

/// Reading a run of digits and writing the number back gives the run without
/// its leading zeros.
pub proof fn lemma_decimal_digits_canonical(s: Seq<char>)
    requires
        s.len() > 0,
        all_digits(s),
    ensures
        decimal_digits(decimal_value(s)) == strip_leading_zeros(s),
    decreases s.len(),
{
    let lead = s.drop_last();
    let c = s.last();
    assert(s =~= lead.push(c));
    if lead.len() == 0 {
        assert(decimal_value(lead) == 0);
    } else {
        assert forall|i: int| 0 <= i < lead.len() implies is_digit(#[trigger] lead[i]) by {
            assert(lead[i] == s[i]);
        }
        lemma_decimal_digits_canonical(lead);
        lemma_strip_push(lead, c);
        let v = decimal_value(lead);
        lemma_decimal_digits_value(v);
        if v != 0 {
            assert(strip_leading_zeros(lead) != seq!['0']);
        }
    }
}

/// The shortest numeral of a number within range reads back as that number.
pub proof fn lemma_parse_decimal_digits(n: nat, max: nat)
    requires
        n <= max,
    ensures
        parse_unsigned_spec(decimal_digits(n), max) == Some(n),
{
    lemma_decimal_digits_value(n);
}

/// Reads `s` as an unsigned numeral no greater than `max`.
pub fn parse_unsigned(s: &str, max: u32) -> (r: Option<u32>)
    ensures
        match r {
            Some(n) => parse_unsigned_spec(s@, max as nat) == Some(n as nat),
            None => parse_unsigned_spec(s@, max as nat) is None,
        },
{
    let ghost digits = numeral_digits(s@);
    let mut rest = s.chars();
    let mut next = rest.next();
    let signed = match next {
        Some(c) => c == '+',
        None => false,
    };
    if signed {
        next = rest.next();
    }
    if next.is_none() {
        return None;
    }
    let mut acc: u32 = 0;
    let ghost mut seen: int = 0;
    loop
        invariant
            digits == numeral_digits(s@),
            digits.len() > 0,
            0 <= seen <= digits.len(),
            next is None ==> seen == digits.len(),
            next matches Some(c) ==> seen < digits.len() && c == digits[seen] && rest.remaining()
                == digits.subrange(seen + 1, digits.len() as int),
            all_digits(digits.subrange(0, seen)),
            acc == decimal_value(digits.subrange(0, seen)),
            acc <= max,
        ensures
            seen == digits.len(),
            all_digits(digits.subrange(0, seen)),
            acc == decimal_value(digits.subrange(0, seen)),
            acc <= max,
        decreases digits.len() - seen,
    {
        let c = match next {
            Some(c) => c,
            None => {
                break;
            },
        };
        if !('0' <= c && c <= '9') {
            return None;
        }
        let wide: u64 = acc as u64 * 10 + (c as u32 - '0' as u32) as u64;
        proof {
            let read = digits.subrange(0, seen + 1);
            assert(read.drop_last() =~= digits.subrange(0, seen));
            assert(decimal_value(read) == 10 * decimal_value(read.drop_last()) + digit_value(
                read.last(),
            ));
            assert forall|i: int| 0 <= i < read.len() implies is_digit(#[trigger] read[i]) by {
                if i < seen {
                    assert(read[i] == digits.subrange(0, seen)[i]);
                }
            }
            lemma_decimal_value_prefix(digits, seen + 1);
        }
        if wide > max as u64 {
            return None;
        }
        acc = wide as u32;
        next = rest.next();
        proof {
            seen = seen + 1;
        }
    }
    proof {
        assert(digits.subrange(0, seen) =~= digits);
    }
    Some(acc)
}

fn digit_text(d: u32) -> (r: &'static str)
    requires
        d < 10,
    ensures
        r@ == seq![digit_char(d as nat)],
{
    proof {
        reveal_strlit("0");
        reveal_strlit("1");
        reveal_strlit("2");
        reveal_strlit("3");
        reveal_strlit("4");
        reveal_strlit("5");
        reveal_strlit("6");
        reveal_strlit("7");
        reveal_strlit("8");
        reveal_strlit("9");
    }
    match d {
        0 => "0",
        1 => "1",
        2 => "2",
        3 => "3",
        4 => "4",
        5 => "5",
        6 => "6",
        7 => "7",
        8 => "8",
        _ => "9",
    }
}

/// Appends the shortest decimal numeral of `n` to `out`.
pub fn push_decimal(out: &mut String, n: u32)
    ensures
        final(out)@ == old(out)@ + decimal_digits(n as nat),
    decreases n,
{
    if n >= 10 {
        push_decimal(out, n / 10);
    }
    out.append(digit_text(n % 10));
}

} // verus!
