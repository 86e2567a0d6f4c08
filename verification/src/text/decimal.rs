//! Decimal notation of integers: how a number is written, and what a text of digits stands for.

use vstd::prelude::*;

use crate::text::chars::chars_of;

verus! {

/// The digit character for a value below ten.
pub open spec fn digit(d: int) -> char {
    ('0' as u32 + d) as char
}

/// Whether a character is one of the ten decimal digits.
pub open spec fn is_digit(c: char) -> bool {
    '0' <= c && c <= '9'
}

/// What a digit stands for.
pub open spec fn digit_value(c: char) -> int {
    c as u32 - '0' as u32
}

/// The decimal notation of a natural number, without leading zeros.
pub open spec fn decimal(n: nat) -> Seq<char>
    decreases n,
{
    if n < 10 {
        seq![digit(n as int)]
    } else {
        decimal(n / 10).push(digit((n % 10) as int))
    }
}

/// The decimal notation of an integer, with a minus sign in front of a negative one.
pub open spec fn signed_decimal(i: int) -> Seq<char> {
    if i < 0 {
        seq!['-'] + decimal((-i) as nat)
    } else {
        decimal(i as nat)
    }
}

/// Whether a text consists of digits alone.
pub open spec fn all_digits(s: Seq<char>) -> bool {
    forall|k: int| 0 <= k < s.len() ==> is_digit(#[trigger] s[k])
}

/// The number that a row of digits stands for.
pub open spec fn digits_value(s: Seq<char>) -> nat
    decreases s.len(),
{
    if s.len() == 0 {
        0
    } else {
        (digits_value(s.drop_last()) * 10 + digit_value(s.last())) as nat
    }
}

/// Reads an unsigned number: an optional plus sign, then at least one digit and
/// nothing else, with a value of at most `max`.
pub open spec fn unsigned_from(s: Seq<char>, max: nat) -> Option<nat> {
    let body = if s.len() > 0 && s[0] == '+' {
        s.skip(1)
    } else {
        s
    };
    if body.len() > 0 && all_digits(body) && digits_value(body) <= max {
        Some(digits_value(body))
    } else {
        None
    }
}

/// What `parse_u64` makes of a text.
pub open spec fn u64_from(s: Seq<char>) -> Option<u64> {
    match unsigned_from(s, u64::MAX as nat) {
        Some(n) => Some(n as u64),
        None => None,
    }
}

/// What `parse_i64` makes of a text: like an unsigned number, but a minus sign may stand in
/// place of the plus sign.
pub open spec fn i64_from(s: Seq<char>) -> Option<i64> {
    if s.len() > 0 && s[0] == '-' {
        let body = s.skip(1);
        if body.len() > 0 && all_digits(body) && digits_value(body) <= i64::MAX + 1 {
            Some((-(digits_value(body) as int)) as i64)
        } else {
            None
        }
    } else {
        match unsigned_from(s, i64::MAX as nat) {
            Some(n) => Some(n as i64),
            None => None,
        }
    }
}

fn digit_char(d: u64) -> (r: char)
    requires
        d < 10,
    ensures
        r == digit(d as int),
{
    (48u8 + d as u8) as char
}

/// Writes a number behind a text, in decimal notation.
pub fn push_u64(out: &mut String, n: u64)
    ensures
        final(out)@ == old(out)@ + decimal(n as nat),
    decreases n,
{
    if n >= 10 {
        push_u64(out, n / 10);
    }
    out.push(digit_char(n % 10));
    assert(out@ =~= old(out)@ + decimal(n as nat));
}

/// Writes a signed number behind a text, in decimal notation.
pub fn push_i64(out: &mut String, n: i64)
    ensures
        final(out)@ == old(out)@ + signed_decimal(n as int),
{
    if n < 0 {
        out.push('-');
        let magnitude: u64 = if n == i64::MIN {
            9223372036854775808u64
        } else {
            (-n) as u64
        };
        push_u64(out, magnitude);
        assert(out@ =~= old(out)@ + signed_decimal(n as int));
    } else {
        push_u64(out, n as u64);
    }
}

/// A longer row of digits stands for no smaller a number.
proof fn lemma_prefix_value(s: Seq<char>, i: int)
    requires
        0 <= i <= s.len(),
        all_digits(s),
    ensures
        digits_value(s.take(i)) <= digits_value(s),
    decreases s.len() - i,
{
    if i < s.len() {
        assert(s.take(i + 1).drop_last() =~= s.take(i));
        assert(is_digit(s[i]));
        assert(s.take(i + 1).last() == s[i]);
        lemma_prefix_value(s, i + 1);
    } else {
        assert(s.take(i) =~= s);
    }
}

/// Reads the digits of `chars` from `start` on, up to the value `max`.
fn read_digits(chars: &Vec<char>, start: usize, max: u64) -> (r: Option<u64>)
    requires
        start <= chars.len(),
        max >= 9,
    ensures
        r == ({
            let body = chars@.skip(start as int);
            if body.len() > 0 && all_digits(body) && digits_value(body) <= max {
                Some(digits_value(body) as u64)
            } else {
                None
            }
        }),
{
    let ghost body = chars@.skip(start as int);
    if start == chars.len() {
        return None;
    }
    let mut value: u64 = 0;
    let mut too_large: bool = false;
    let mut i: usize = start;
    assert(body.take(0) =~= Seq::<char>::empty());
    while i < chars.len()
        invariant
            start <= i <= chars.len(),
            body == chars@.skip(start as int),
            body.len() == chars@.len() - start,
            all_digits(body.take(i - start)),
            max >= 9,
            !too_large ==> value == digits_value(body.take(i - start)) && value <= max,
            too_large ==> digits_value(body.take(i - start)) > max,
        decreases chars.len() - i,
    {
        let c = chars[i];
        let ghost k = i - start;
        assert(body[k] == c);
        if !(c >= '0' && c <= '9') {
            assert(!is_digit(body[k]));
            return None;
        }
        let d: u64 = (c as u8 - 48u8) as u64;
        assert(body.take(k + 1).drop_last() =~= body.take(k));
        assert(body.take(k + 1).last() == c);
        assert forall|j: int| 0 <= j < k + 1 implies is_digit(#[trigger] body.take(k + 1)[j]) by {
            if j < k {
                assert(body.take(k)[j] == body.take(k + 1)[j]);
            }
        }
        if !too_large {
            if value > (max - d) / 10 {
                too_large = true;
            } else {
                value = value * 10 + d;
            }
        }
        i = i + 1;
    }
    assert(body.take(body.len() as int) =~= body);
    if too_large {
        None
    } else {
        Some(value)
    }
}

/// Reads an unsigned number.
pub fn parse_u64(s: &str) -> (r: Option<u64>)
    ensures
        r == u64_from(s@),
{
    let chars = chars_of(s);
    if chars.len() > 0 && chars[0] == '+' {
        read_digits(&chars, 1, u64::MAX)
    } else {
        assert(chars@.skip(0) =~= chars@);
        read_digits(&chars, 0, u64::MAX)
    }
}

/// Reads a signed number.
pub fn parse_i64(s: &str) -> (r: Option<i64>)
    ensures
        r == i64_from(s@),
{
    let chars = chars_of(s);
    if chars.len() > 0 && chars[0] == '-' {
        match read_digits(&chars, 1, 9223372036854775808u64) {
            Some(n) => if n == 9223372036854775808u64 {
                Some(i64::MIN)
            } else {
                Some(-(n as i64))
            },
            None => None,
        }
    } else {
        let start: usize = if chars.len() > 0 && chars[0] == '+' {
            1
        } else {
            0
        };
        assert(chars@.skip(0) =~= chars@);
        match read_digits(&chars, start, i64::MAX as u64) {
            Some(n) => Some(n as i64),
            None => None,
        }
    }
}

/// The decimal notation of a number consists of digits and stands for that number.
pub proof fn law_decimal_reads_back(n: nat)
    ensures
        decimal(n).len() > 0,
        all_digits(decimal(n)),
        digits_value(decimal(n)) == n,
    decreases n,
{
    if n < 10 {
        assert(decimal(n).drop_last() =~= Seq::<char>::empty());
        assert(digits_value(Seq::<char>::empty()) == 0);
        assert(decimal(n).last() == digit(n as int));
        assert(digits_value(decimal(n)) == n);
    } else {
        law_decimal_reads_back(n / 10);
        assert(decimal(n).drop_last() =~= decimal(n / 10));
        assert(decimal(n).last() == digit((n % 10) as int));
        assert forall|k: int| 0 <= k < decimal(n).len() implies is_digit(
            #[trigger] decimal(n)[k],
        ) by {
            if k < decimal(n / 10).len() {
                assert(decimal(n)[k] == decimal(n / 10)[k]);
            }
        }
    }
}

/// Reading back a written number gives that number.
pub proof fn law_u64_round_trip(n: u64)
    ensures
        u64_from(decimal(n as nat)) == Some(n),
{
    law_decimal_reads_back(n as nat);
    assert(is_digit(decimal(n as nat)[0]));
}

/// Reading back a written signed number gives that number.
pub proof fn law_i64_round_trip(n: i64)
    ensures
        i64_from(signed_decimal(n as int)) == Some(n),
{
    if n < 0 {
        let m = (-(n as int)) as nat;
        law_decimal_reads_back(m);
        assert((seq!['-'] + decimal(m)).skip(1) =~= decimal(m));
    } else {
        law_decimal_reads_back(n as nat);
        assert(is_digit(decimal(n as nat)[0]));
    }
}

/// What is not a number is not read as one: a text with anything but digits behind an optional sign,
/// or with no digit at all.
pub proof fn law_junk_is_no_number(s: Seq<char>, i: int)
    requires
        0 <= i < s.len(),
        !('0' <= s[i] <= '9'),
        !(i == 0 && s.len() > 1 && (s[0] == '+' || s[0] == '-')),
    ensures
        u64_from(s) is None,
        i64_from(s) is None,
        u64_from(Seq::empty()) is None,
        i64_from(Seq::empty()) is None,
{
    if s[0] == '+' || s[0] == '-' {
        if i > 0 {
            assert(s.skip(1)[i - 1] == s[i]);
        } else {
            assert(s.skip(1).len() == 0);
        }
    }
    assert(!is_digit(s[i]));
}

/// A row of digits is read as the number it stands for: each digit counts ten times as much as the
/// one behind it. What is too large is not read.
pub proof fn law_digits_are_read_by_place(s: Seq<char>, c: char)
    requires
        s.len() > 0,
        all_digits(s),
        '0' <= c <= '9',
    ensures
        digits_value(s.push(c)) == digits_value(s) * 10 + (c as int - '0' as int),
        u64_from(s) == if digits_value(s) <= u64::MAX {
            Some(digits_value(s) as u64)
        } else {
            None
        },
{
    assert(s.push(c).drop_last() =~= s);
    assert(is_digit(s[0]));
}

} // verus!
