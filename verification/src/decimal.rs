//! Decimal numerals: reading an unsigned 16-bit number from the bytes of a
//! header value, and writing one out as digits.

use vstd::prelude::*;
use vstd::string::*;

verus! {

/// The byte is one of the ASCII digits `0` to `9`.
pub open spec fn is_digit(b: u8) -> bool {
    0x30 <= b && b <= 0x39
}

/// Every byte of the sequence is an ASCII digit.
pub open spec fn all_digits(s: Seq<u8>) -> bool {
    forall|i: int| 0 <= i < s.len() ==> is_digit(#[trigger] s[i])
}

/// The number that a sequence of ASCII digits denotes, most significant digit
/// first. The empty sequence denotes zero.
pub open spec fn digits_value(s: Seq<u8>) -> nat
    decreases s.len(),
{
    if s.len() == 0 {
        0
    } else {
        digits_value(s.drop_last()) * 10 + (s.last() - 0x30) as nat
    }
}

/// The bytes without one leading `+`, if there is one.
pub open spec fn without_plus(s: Seq<u8>) -> Seq<u8> {
    if s.len() > 0 && s[0] == 0x2b {
        s.subrange(1, s.len() as int)
    } else {
        s
    }
}

/// What a header value denotes as an unsigned 16-bit number: an optional `+`,
/// then one or more ASCII digits (leading zeros allowed) whose value is at most
/// 65535. Anything else (an empty value, a lone sign, a `-`, white space, a
/// value that is too large) denotes nothing.
pub open spec fn parsed_u16(s: Seq<u8>) -> Option<u16> {
    let d = without_plus(s);
    if d.len() > 0 && all_digits(d) && digits_value(d) <= u16::MAX {
        Some(digits_value(d) as u16)
    } else {
        None
    }
}

/// A sequence of digits denotes at least as much as any of its prefixes.
proof fn lemma_prefix_value_le(s: Seq<u8>, k: int)
    requires
        0 <= k <= s.len(),
        all_digits(s),
    ensures
        digits_value(s.subrange(0, k)) <= digits_value(s),
    decreases s.len() - k,
{
    if k == s.len() {
        assert(s.subrange(0, k) =~= s);
    } else {
        lemma_prefix_value_le(s, k + 1);
        let longer = s.subrange(0, k + 1);
        assert(longer.drop_last() =~= s.subrange(0, k));
        assert(is_digit(s[k]));
        assert(longer.last() == s[k]);
    }
}

/// Reads an unsigned 16-bit number from a header value.
pub fn parse_u16(text: &str) -> (r: Option<u16>)
    ensures
        r == parsed_u16(text.spec_bytes()),
{
    let bytes = text.as_bytes();
    let n: usize = bytes.len();
    let start: usize = if n > 0 && bytes[0] == 0x2b {
        1
    } else {
        0
    };
    if start == n {
        return None;
    }
    let ghost d = without_plus(bytes@);
    assert(d =~= bytes@.subrange(start as int, n as int));
    let mut acc: u32 = 0;
    let mut i: usize = start;
    assert(d.subrange(0, 0) =~= Seq::<u8>::empty());
    while i < n
        invariant
            start <= i <= n,
            n == bytes@.len(),
            bytes@ == text.spec_bytes(),
            d == without_plus(bytes@),
            d == bytes@.subrange(start as int, n as int),
            all_digits(d.subrange(0, i - start)),
            acc == digits_value(d.subrange(0, i - start)),
            acc <= u16::MAX,
        decreases n - i,
    {
        let b: u8 = bytes[i];
        assert(d[i - start] == b);
        if b < 0x30 || b > 0x39 {
            assert(!is_digit(d[i - start]));
            return None;
        }
        let next: u32 = acc * 10 + (b - 0x30) as u32;
        let ghost longer = d.subrange(0, i + 1 - start);
        proof {
            assert(longer.drop_last() =~= d.subrange(0, i - start));
            assert(longer.last() == b);
            assert forall|j: int| 0 <= j < longer.len() implies is_digit(#[trigger] longer[j]) by {
                if j < i - start {
                    assert(d.subrange(0, i - start)[j] == longer[j]);
                }
            }
        }
        if next > 0xffff {
            proof {
                if all_digits(d) {
                    lemma_prefix_value_le(d, i + 1 - start);
                }
            }
            return None;
        }
        acc = next;
        i += 1;
    }
    assert(d.subrange(0, n - start) =~= d);
    Some(acc as u16)
}

/// The character of a digit below ten.
pub open spec fn digit_char(d: nat) -> char {
    seq!['0', '1', '2', '3', '4', '5', '6', '7', '8', '9'][d as int]
}

/// The decimal numeral of a number, without sign or leading zeros.
pub open spec fn decimal_digits(n: nat) -> Seq<char>
    decreases n,
{
    if n < 10 {
        seq![digit_char(n)]
    } else {
        decimal_digits(n / 10).push(digit_char(n % 10))
    }
}

/// The one-character text of a digit.
fn digit_text(d: u16) -> (t: &'static str)
    requires
        d < 10,
    ensures
        t@ == seq![digit_char(d as nat)],
{
    proof {
        reveal_strlit("0");
        reveal_strlit("1");
        reveal_strlit("2");
        reveal_strlit("3");
        reveal_strlit("4");
        reveal_strlit("5");
        reveal_strlit("6");
        reveal_strlit("7");
        reveal_strlit("8");
        reveal_strlit("9");
    }
    let t: &'static str = match d {
        0 => "0",
        1 => "1",
        2 => "2",
        3 => "3",
        4 => "4",
        5 => "5",
        6 => "6",
        7 => "7",
        8 => "8",
        _ => "9",
    };
    assert(t@ =~= seq![digit_char(d as nat)]);
    t
}

/// Writes a number as its decimal numeral.
pub fn decimal_text(n: u16) -> (s: String)
    ensures
        s@ == decimal_digits(n as nat),
    decreases n,
{
    if n < 10 {
        String::from_str(digit_text(n))
    } else {
        let mut s = decimal_text(n / 10);
        s.append(digit_text(n % 10));
        assert(s@ =~= decimal_digits(n as nat));
        s
    }
}

} // verus!
