//! Numbers written in decimal digits.

use vstd::prelude::*;

verus! {

/// Whether a character is a decimal digit.
pub open spec fn is_digit(c: char) -> bool {
    '0' <= c <= '9'
}

/// Whether a text is made of decimal digits, at least one.
pub open spec fn all_digits(s: Seq<char>) -> bool {
    s.len() > 0 && forall|i: int| 0 <= i < s.len() ==> is_digit(#[trigger] s[i])
}

/// The number that a text of decimal digits writes.
pub open spec fn decimal_value(s: Seq<char>) -> int
    decreases s.len(),
{
    if s.len() == 0 {
        0
    } else {
        decimal_value(s.drop_last()) * 10 + (s.last() as int - '0' as int)
    }
}

/// A text without the plus sign at its front, if it has one.
pub open spec fn without_plus(s: Seq<char>) -> Seq<char> {
    if s.len() > 0 && s[0] == '+' {
        s.skip(1)
    } else {
        s
    }
}

/// The number that a text writes: decimal digits, with or without a plus sign in front, and not
/// more than 64 bits hold.
pub open spec fn written_u64(s: Seq<char>) -> Option<u64> {
    if all_digits(without_plus(s)) && decimal_value(without_plus(s)) <= u64::MAX {
        Some(decimal_value(without_plus(s)) as u64)
    } else {
        None
    }
}

/// The first digits of a number write no larger number.
proof fn lemma_front_is_smaller(s: Seq<char>, n: int)
    requires
        forall|i: int| 0 <= i < s.len() ==> is_digit(#[trigger] s[i]),
        0 <= n <= s.len(),
    ensures
        0 <= decimal_value(s.take(n)) <= decimal_value(s),
    decreases s.len(),
{
    if n == s.len() {
        assert(s.take(n) =~= s);
        if n > 0 {
            lemma_front_is_smaller(s.drop_last(), n - 1);
            assert(s.drop_last().take(n - 1) =~= s.drop_last());
            assert(is_digit(s[s.len() - 1]));
        }
    } else {
        lemma_front_is_smaller(s.drop_last(), n);
        assert(s.drop_last().take(n) =~= s.take(n));
        assert(is_digit(s[s.len() - 1]));
    }
}

/// Reads a number.
pub fn parse_u64(s: &str) -> (r: Option<u64>)
    ensures
        r == written_u64(s@),
{
    broadcast use vstd::string::is_ascii_spec_bytes;

    if !s.is_ascii() {
        assert(written_u64(s@) is None) by {
            let d = without_plus(s@);
            if all_digits(d) {
                assert forall|i: int| 0 <= i < s@.len() implies '\0' <= #[trigger] s@[i]
                    <= '\u{7f}' by {
                    if s@[0] == '+' && i > 0 {
                        assert(is_digit(d[i - 1]));
                    } else if s@[0] != '+' {
                        assert(is_digit(d[i]));
                    }
                }
                assert(vstd::utf8::is_ascii_chars(s@));
            }
        }
        return None;
    }
    let bytes = s.as_bytes();
    assert(bytes@ =~= Seq::new(s@.len(), |i: int| s@[i] as u8));
    let start: usize = if bytes.len() > 0 && bytes[0] == 43 {
        1
    } else {
        0
    };
    let ghost d = without_plus(s@);
    assert(s@.len() > 0 ==> bytes@[0] == s@[0] as u8);
    assert(d == s@.skip(start as int));
    if start == bytes.len() {
        return None;
    }
    let mut value: u64 = 0;
    let mut i: usize = start;
    while i < bytes.len()
        invariant
            bytes@.len() == s@.len(),
            vstd::utf8::is_ascii_chars(s@),
            forall|j: int| 0 <= j < s@.len() ==> bytes@[j] == (#[trigger] s@[j]) as u8,
            start <= i <= s@.len(),
            start < s@.len(),
            d == without_plus(s@),
            d == s@.skip(start as int),
            forall|j: int| 0 <= j < i - start ==> is_digit(#[trigger] d[j]),
            value == decimal_value(d.take(i - start)),
        decreases s@.len() - i,
    {
        let b = bytes[i];
        let ghost k = i - start;
        assert(d[k] == s@[i as int]);
        if b < 48 || b > 57 {
            assert(!is_digit(d[k]));
            return None;
        }
        assert(is_digit(d[k]));
        assert(d.take(k + 1).drop_last() =~= d.take(k));
        let digit: u64 = (b - 48) as u64;
        assert(decimal_value(d.take(k + 1)) == value * 10 + digit);
        if value > u64::MAX / 10 || value * 10 > u64::MAX - digit {
            proof {
                if all_digits(d) {
                    lemma_front_is_smaller(d, k + 1);
                }
            }
            return None;
        }
        value = value * 10 + digit;
        i = i + 1;
    }
    assert(d.take(i - start) =~= d);
    Some(value)
}

/// The decimal digit of a number below ten.
pub open spec fn digit(n: nat) -> char {
    (48 + n) as char
}

/// A number in decimal digits, without leading zeros.
pub open spec fn digits_of(n: nat) -> Seq<char>
    decreases n,
{
    if n < 10 {
        seq![digit(n)]
    } else {
        digits_of(n / 10).push(digit(n % 10))
    }
}

/// The digits of a number are digits, and write that number.
proof fn lemma_digits(n: nat)
    ensures
        digits_of(n).len() > 0,
        all_digits(digits_of(n)),
        decimal_value(digits_of(n)) == n,
    decreases n,
{
    reveal_with_fuel(decimal_value, 2);
    if n < 10 {
        assert(digits_of(n).drop_last() =~= Seq::empty());
        assert(is_digit(digit(n)));
    } else {
        lemma_digits(n / 10);
        let front = digits_of(n / 10);
        assert(digits_of(n).drop_last() =~= front);
        assert(is_digit(digit(n % 10)));
        assert forall|i: int| 0 <= i < digits_of(n).len() implies is_digit(
            #[trigger] digits_of(n)[i],
        ) by {
            if i < front.len() {
                assert(digits_of(n)[i] == front[i]);
            }
        }
    }
}

/// Reading undoes writing: the digits of a number are read as that number if 64 bits hold it,
/// and as none if they do not.
pub proof fn law_written_numbers_are_read_back(n: nat)
    ensures
        n <= u64::MAX ==> written_u64(digits_of(n)) == Some(n as u64),
        n > u64::MAX ==> written_u64(digits_of(n)) is None,
{
    lemma_digits(n);
    assert(is_digit(digits_of(n)[0]));
}

/// A zero in front of digits changes nothing.
pub proof fn law_leading_zeros_do_not_count(s: Seq<char>)
    requires
        s.len() > 0,
        forall|i: int| 0 <= i < s.len() ==> '0' <= #[trigger] s[i] <= '9',
    ensures
        written_u64(seq!['0'] + s) == written_u64(s),
{
    let longer = seq!['0'] + s;
    assert forall|i: int| 0 <= i < s.len() implies is_digit(#[trigger] s[i]) by {}
    assert forall|i: int| 0 <= i < longer.len() implies is_digit(#[trigger] longer[i]) by {
        if i > 0 {
            assert(longer[i] == s[i - 1]);
        }
    }
    assert(without_plus(s) == s) by {
        assert(is_digit(s[0]));
    }
    assert(without_plus(longer) == longer);
    lemma_leading_zero(s);
}

/// A zero in front of digits does not change the number that they write.
proof fn lemma_leading_zero(s: Seq<char>)
    ensures
        decimal_value(seq!['0'] + s) == decimal_value(s),
    decreases s.len(),
{
    reveal_with_fuel(decimal_value, 2);
    let longer = seq!['0'] + s;
    if s.len() == 0 {
        assert(longer =~= seq!['0']);
        assert(longer.drop_last() =~= Seq::empty());
    } else {
        assert(longer.drop_last() =~= seq!['0'] + s.drop_last());
        lemma_leading_zero(s.drop_last());
    }
}

/// One plus sign in front changes nothing.
pub proof fn law_plus_sign_does_not_count(s: Seq<char>)
    requires
        s.len() > 0,
        s[0] != '+',
    ensures
        written_u64(seq!['+'] + s) == written_u64(s),
{
    assert((seq!['+'] + s).skip(1) =~= s);
}

/// What is not made of digits is no number: an empty text, a plus sign alone, and a text that
/// holds anything but digits, a plus sign in front apart.
pub proof fn law_other_texts_are_no_numbers(s: Seq<char>, i: int)
    ensures
        written_u64(Seq::empty()) is None,
        written_u64(seq!['+']) is None,
        0 <= i < s.len() && !('0' <= s[i] <= '9') && !(i == 0 && s[i] == '+') ==> written_u64(
            s,
        ) is None,
{
    assert(seq!['+'].skip(1) =~= Seq::empty());
    if 0 <= i < s.len() && !('0' <= s[i] <= '9') && !(i == 0 && s[i] == '+') {
        let d = without_plus(s);
        if s[0] == '+' {
            assert(d[i - 1] == s[i]);
        } else {
            assert(d[i] == s[i]);
        }
    }
}

} // verus!
