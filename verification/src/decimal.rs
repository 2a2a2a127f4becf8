use vstd::prelude::*;

verus! {

/// Why a field is not an unsigned decimal number.
#[derive(Debug, Clone, Copy, PartialEq, Eq, Structural)]
pub enum DecimalError {
    /// The field has no characters.
    Empty,
    /// A character is not a digit, or a sign stands alone.
    InvalidDigit,
    /// The number is greater than the type holds.
    Overflow,
}

pub open spec fn is_digit(b: u8) -> bool {
    48 <= b <= 57
}

/// The number that a string of digits stands for.
pub open spec fn decimal_value(digits: Seq<u8>) -> nat
    decreases digits.len(),
{
    if digits.len() == 0 {
        0
    } else {
        decimal_value(digits.drop_last()) * 10 + (digits.last() - 48) as nat
    }
}

/// Reads the digits from place `from` on, from left to right, starting
/// from the number `acc` that the digits before them gave. The first
/// character that is no digit, or that takes the number over `max`,
/// decides the error.
pub open spec fn scan_digits(s: Seq<u8>, from: int, acc: nat, max: nat) -> Result<
    nat,
    DecimalError,
>
    decreases s.len() - from,
{
    if from >= s.len() {
        Ok(acc)
    } else if !is_digit(s[from]) {
        Err(DecimalError::InvalidDigit)
    } else if acc * 10 + (s[from] - 48) > max {
        Err(DecimalError::Overflow)
    } else {
        scan_digits(s, from + 1, (acc * 10 + (s[from] - 48)) as nat, max)
    }
}

/// What a field reads as, as a number from 0 to `max`: digits, with one
/// `+` allowed before them. Leading zeros are accepted.
pub open spec fn parse_unsigned(s: Seq<u8>, max: nat) -> Result<nat, DecimalError> {
    if s.len() == 0 {
        Err(DecimalError::Empty)
    } else if s.len() == 1 && (s[0] == 43 || s[0] == 45) {
        Err(DecimalError::InvalidDigit)
    } else if s[0] == 43 {
        scan_digits(s, 1, 0, max)
    } else {
        scan_digits(s, 0, 0, max)
    }
}

/// Whether every character is a digit.
pub open spec fn all_digits(s: Seq<u8>) -> bool {
    forall|i: int| 0 <= i < s.len() ==> is_digit(#[trigger] s[i])
}

/// The digits of a field: the field without the `+` that may lead it.
pub open spec fn digits_of(s: Seq<u8>) -> Seq<u8> {
    if s.len() > 0 && s[0] == 43 {
        s.drop_first()
    } else {
        s
    }
}

/// More digits never make a number smaller.
proof fn lemma_value_grows(head: Seq<u8>, tail: Seq<u8>)
    requires
        all_digits(tail),
    ensures
        decimal_value(head) <= decimal_value(head + tail),
    decreases tail.len(),
{
    if tail.len() == 0 {
        assert(head + tail == head);
    } else {
        lemma_value_grows(head, tail.drop_last());
        assert((head + tail).drop_last() == head + tail.drop_last());
        assert(is_digit(tail[tail.len() - 1]));
    }
}

/// Reading on from the number of the digits read so far gives the number
/// of all digits, if they are digits and the number is within the limit.
proof fn lemma_scan_digits(s: Seq<u8>, start: int, from: int, max: nat)
    requires
        0 <= start <= from <= s.len(),
        all_digits(s.subrange(start, from)),
        decimal_value(s.subrange(start, from)) <= max,
    ensures
        match scan_digits(s, from, decimal_value(s.subrange(start, from)), max) {
            Ok(v) => all_digits(s.skip(start)) && v == decimal_value(s.skip(start)) && v <= max,
            Err(_) => !all_digits(s.skip(start)) || decimal_value(s.skip(start)) > max,
        },
    decreases s.len() - from,
{
    let digits = s.skip(start);
    if from >= s.len() {
        assert(s.subrange(start, from) == digits);
    } else if !is_digit(s[from]) {
        assert(digits[from - start] == s[from]);
    } else {
        let read = s.subrange(start, from + 1);
        assert(read.drop_last() == s.subrange(start, from));
        assert forall|i: int| 0 <= i < read.len() implies is_digit(#[trigger] read[i]) by {
            if i < from - start {
                assert(is_digit(s.subrange(start, from)[i]));
            }
        }
        if decimal_value(read) > max {
            if all_digits(digits) {
                let rest = s.skip(from + 1);
                assert forall|i: int| 0 <= i < rest.len() implies is_digit(#[trigger] rest[i]) by {
                    assert(is_digit(digits[from + 1 - start + i]));
                }
                assert(read + rest == digits);
                lemma_value_grows(read, rest);
            }
        } else {
            lemma_scan_digits(s, start, from + 1, max);
        }
    }
}

/// A field is read as a number exactly when it is one or more digits, with
/// or without a `+` before them, whose number is within the limit; and it
/// is read as that number.
pub proof fn lemma_parse_unsigned(s: Seq<u8>, max: nat)
    ensures
        match parse_unsigned(s, max) {
            Ok(v) => v == decimal_value(digits_of(s)) && v <= max,
            Err(_) => true,
        },
        parse_unsigned(s, max) is Ok <==> digits_of(s).len() > 0 && all_digits(digits_of(s))
            && decimal_value(digits_of(s)) <= max,
{
    let digits = digits_of(s);
    if s.len() > 0 {
        let start: int = if s[0] == 43 {
            1
        } else {
            0
        };
        assert(s.subrange(start, start) == Seq::<u8>::empty());
        assert(s.skip(start) == digits);
        assert(s.skip(0) == s);
        lemma_scan_digits(s, start, start, max);
        if s.len() == 1 && s[0] == 45 {
            assert(!is_digit(digits[0]));
        }
    }
}

/// Reads a field as a number from 0 to `max`: see [`parse_unsigned`].
pub fn parse_bounded(s: &[u8], max: u64) -> (r: Result<u64, DecimalError>)
    ensures
        match r {
            Ok(v) => v <= max && parse_unsigned(s@, max as nat) == Ok::<nat, DecimalError>(
                v as nat,
            ),
            Err(e) => parse_unsigned(s@, max as nat) == Err::<nat, DecimalError>(e),
        },
{
    let n = s.len();
    if n == 0 {
        return Err(DecimalError::Empty);
    }
    if n == 1 && (s[0] == 43 || s[0] == 45) {
        return Err(DecimalError::InvalidDigit);
    }
    let start: usize = if s[0] == 43 {
        1
    } else {
        0
    };
    let mut i: usize = start;
    let mut acc: u64 = 0;
    while i < n
        invariant
            start <= i <= n,
            n == s@.len(),
            acc <= max,
            parse_unsigned(s@, max as nat) == scan_digits(s@, i as int, acc as nat, max as nat),
        decreases n - i,
    {
        let b: u8 = s[i];
        if b < 48 || b > 57 {
            return Err(DecimalError::InvalidDigit);
        }
        let d: u64 = (b - 48) as u64;
        let next: u64 = match acc.checked_mul(10) {
            None => {
                return Err(DecimalError::Overflow);
            },
            Some(m) => match m.checked_add(d) {
                None => {
                    return Err(DecimalError::Overflow);
                },
                Some(v) => v,
            },
        };
        if next > max {
            return Err(DecimalError::Overflow);
        }
        acc = next;
        i += 1;
    }
    Ok(acc)
}

/// The character of a digit.
pub open spec fn digit_char(d: u8) -> char {
    match d {
        0 => '0',
        1 => '1',
        2 => '2',
        3 => '3',
        4 => '4',
        5 => '5',
        6 => '6',
        7 => '7',
        8 => '8',
        _ => '9',
    }
}

/// A number in decimal, without leading zeros.
pub open spec fn decimal_text(n: nat) -> Seq<char>
    decreases n,
{
    if n < 10 {
        seq![digit_char(n as u8)]
    } else {
        decimal_text(n / 10) + seq![digit_char((n % 10) as u8)]
    }
}

fn digit_str(d: u8) -> (s: &'static str)
    requires
        d < 10,
    ensures
        s@ == seq![digit_char(d)],
{
    proof {
        reveal_strlit("0");
        reveal_strlit("1");
        reveal_strlit("2");
        reveal_strlit("3");
        reveal_strlit("4");
        reveal_strlit("5");
        reveal_strlit("6");
        reveal_strlit("7");
        reveal_strlit("8");
        reveal_strlit("9");
    }
    match d {
        0 => "0",
        1 => "1",
        2 => "2",
        3 => "3",
        4 => "4",
        5 => "5",
        6 => "6",
        7 => "7",
        8 => "8",
        _ => "9",
    }
}

/// A byte in decimal: see [`decimal_text`].
pub fn u8_to_decimal(value: u8) -> (s: String)
    ensures
        s@ == decimal_text(value as nat),
{
    let mut text = String::new();
    proof {
        reveal_with_fuel(decimal_text, 3);
    }
    if value >= 100 {
        text.append(digit_str(value / 100));
    }
    if value >= 10 {
        text.append(digit_str((value / 10) % 10));
    }
    text.append(digit_str(value % 10));
    text
}

} // verus!
