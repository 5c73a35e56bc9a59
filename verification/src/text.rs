//! Small verified helpers on text: comparison, splitting at a separator,
//! lines, and decimal numbers.

use crate::options::error::NumberError;
use vstd::prelude::*;
use vstd::string::*;

verus! {

/// Whether two pieces of text hold the same characters.
pub fn same_text(a: &str, b: &str) -> (r: bool)
    ensures
        r == (a@ == b@),
{
    let n: usize = a.unicode_len();
    if b.unicode_len() != n {
        return false;
    }
    let mut i: usize = 0;
    while i < n
        invariant
            n == a@.len(),
            n == b@.len(),
            i <= n,
            forall|j: int| 0 <= j < i ==> a@[j] == b@[j],
        decreases n - i,
    {
        if a.get_char(i) != b.get_char(i) {
            return false;
        }
        i += 1;
    }
    assert(a@ =~= b@);
    true
}

/// The code of a character, with the ASCII capitals mapped to their small
/// letters.
pub open spec fn lowered(c: char) -> u32 {
    if 65 <= c as u32 <= 90 {
        (c as u32 + 32) as u32
    } else {
        c as u32
    }
}

/// Whether two pieces of text are the same once ASCII capitals count as
/// small letters.
pub open spec fn same_ignoring_ascii_case(a: Seq<char>, b: Seq<char>) -> bool {
    &&& a.len() == b.len()
    &&& forall|i: int| 0 <= i < a.len() ==> lowered(a[i]) == lowered(b[i])
}

fn lower_code(c: char) -> (code: u32)
    ensures
        code == lowered(c),
{
    let code: u32 = c as u32;
    if 65 <= code && code <= 90 {
        code + 32
    } else {
        code
    }
}

/// Compares two pieces of text, taking ASCII capitals for small letters.
pub fn same_text_ignoring_ascii_case(a: &str, b: &str) -> (r: bool)
    ensures
        r == same_ignoring_ascii_case(a@, b@),
{
    let n: usize = a.unicode_len();
    if b.unicode_len() != n {
        return false;
    }
    let mut i: usize = 0;
    while i < n
        invariant
            n == a@.len(),
            n == b@.len(),
            i <= n,
            forall|j: int| 0 <= j < i ==> lowered(a@[j]) == lowered(b@[j]),
        decreases n - i,
    {
        if lower_code(a.get_char(i)) != lower_code(b.get_char(i)) {
            return false;
        }
        i += 1;
    }
    true
}

/// The number of characters of `s` that stand before its first `sep`: the
/// length of `s` where it holds none.
pub open spec fn until(s: Seq<char>, sep: char) -> nat
    decreases s.len(),
{
    if s.len() == 0 || s[0] == sep {
        0
    } else {
        1 + until(s.drop_first(), sep)
    }
}

/// The part of `s` before its first `sep`.
pub open spec fn head(s: Seq<char>, sep: char) -> Seq<char> {
    s.take(until(s, sep) as int)
}

/// The part of `s` after its first `sep`, where it holds one.
pub open spec fn tail(s: Seq<char>, sep: char) -> Option<Seq<char>> {
    if until(s, sep) < s.len() {
        Some(s.skip(until(s, sep) as int + 1))
    } else {
        None
    }
}

/// `until` finds the first `sep`: it never counts past the end of `s`, no
/// `sep` stands before the place that it gives, and one stands at that
/// place unless it is the end.
pub proof fn lemma_until_is_first(s: Seq<char>, sep: char)
    ensures
        until(s, sep) <= s.len(),
        until(s, sep) < s.len() ==> s[until(s, sep) as int] == sep,
        forall|i: int| 0 <= i < until(s, sep) ==> s[i] != sep,
    decreases s.len(),
{
    if s.len() == 0 || s[0] == sep {
    } else {
        let rest = s.drop_first();
        lemma_until_is_first(rest, sep);
        assert forall|i: int| 0 <= i < until(s, sep) implies s[i] != sep by {
            if i > 0 {
                assert(s[i] == rest[i - 1]);
            }
        }
        if until(s, sep) < s.len() {
            assert(s[until(s, sep) as int] == rest[until(rest, sep) as int]);
        }
    }
}

/// The view of an optional piece of text.
pub open spec fn slice_text(value: Option<&str>) -> Option<Seq<char>> {
    match value {
        Some(s) => Some(s@),
        None => None,
    }
}

/// Splits `s` at its first `sep`: what stands before it, and what stands
/// after it if there is one.
pub fn split_first<'a>(s: &'a str, sep: char) -> (parts: (&'a str, Option<&'a str>))
    ensures
        parts.0@ == head(s@, sep),
        slice_text(parts.1) == tail(s@, sep),
        parts.1 matches Some(rest) ==> rest@.len() < s@.len(),
{
    let n: usize = s.unicode_len();
    let mut i: usize = 0;
    assert(s@.skip(0) =~= s@);
    while i < n && s.get_char(i) != sep
        invariant
            n == s@.len(),
            i <= n,
            until(s@, sep) == i + until(s@.skip(i as int), sep),
        decreases n - i,
    {
        proof {
            assert(s@.skip(i as int)[0] == s@[i as int]);
            assert(s@.skip(i as int).drop_first() =~= s@.skip(i as int + 1));
        }
        i += 1;
    }
    proof {
        if i < n {
            assert(s@.skip(i as int)[0] == s@[i as int]);
        }
    }
    assert(until(s@, sep) == i);
    let first: &str = s.substring_char(0, i);
    assert(first@ =~= head(s@, sep));
    if i < n {
        let rest: &str = s.substring_char(i + 1, n);
        assert(rest@ =~= s@.skip(i as int + 1));
        (first, Some(rest))
    } else {
        (first, None)
    }
}

/// The first line of `s`: what stands before the first line feed, without
/// the carriage return that may stand directly before that line feed.
pub open spec fn first_line(s: Seq<char>) -> Seq<char> {
    let line = head(s, '\n');
    if tail(s, '\n') is Some && line.len() > 0 && line.last() == '\r' {
        line.drop_last()
    } else {
        line
    }
}

/// Splits `s` into its first line and what follows the line feed that ends
/// it, if there is one.
pub fn split_line<'a>(s: &'a str) -> (parts: (&'a str, Option<&'a str>))
    ensures
        parts.0@ == first_line(s@),
        slice_text(parts.1) == tail(s@, '\n'),
        parts.1 matches Some(rest) ==> rest@.len() < s@.len(),
{
    let (line, rest) = split_first(s, '\n');
    let n: usize = line.unicode_len();
    if rest.is_some() && n > 0 && line.get_char(n - 1) == '\r' {
        let stripped: &str = line.substring_char(0, n - 1);
        assert(stripped@ =~= line@.drop_last());
        (stripped, rest)
    } else {
        (line, rest)
    }
}

/// Whether a character is a decimal digit.
pub open spec fn is_digit(c: char) -> bool {
    48 <= c as u32 <= 57
}

/// The value of a decimal digit.
pub open spec fn digit_value(c: char) -> nat {
    (c as u32 - 48) as nat
}

/// Reads the digits of `s` from the left, starting from the value `acc`:
/// the number they write, or the first thing that goes wrong, a character
/// that is no digit or a value above `max`.
pub open spec fn read_digits(s: Seq<char>, acc: nat, max: nat) -> Result<nat, NumberError>
    decreases s.len(),
{
    if s.len() == 0 {
        Ok(acc)
    } else if !is_digit(s[0]) {
        Err(NumberError::InvalidDigit)
    } else if acc * 10 + digit_value(s[0]) > max {
        Err(NumberError::PosOverflow)
    } else {
        read_digits(s.drop_first(), acc * 10 + digit_value(s[0]), max)
    }
}

/// The unsigned number that `s` writes in decimal, with an optional `+` in
/// front, or why it writes none.
pub open spec fn unsigned_number(s: Seq<char>) -> Result<usize, NumberError> {
    if s.len() == 0 {
        Err(NumberError::Empty)
    } else {
        let digits = if s[0] == '+' {
            s.drop_first()
        } else {
            s
        };
        if digits.len() == 0 {
            Err(NumberError::InvalidDigit)
        } else {
            match read_digits(digits, 0, usize::MAX as nat) {
                Ok(n) => Ok(n as usize),
                Err(e) => Err(e),
            }
        }
    }
}

/// Parses a decimal unsigned number.
pub fn parse_unsigned(s: &str) -> (r: Result<usize, NumberError>)
    ensures
        r == unsigned_number(s@),
{
    let n: usize = s.unicode_len();
    if n == 0 {
        return Err(NumberError::Empty);
    }
    let start: usize = if s.get_char(0) == '+' {
        1
    } else {
        0
    };
    if start == n {
        assert(s@.drop_first().len() == 0);
        return Err(NumberError::InvalidDigit);
    }
    let ghost digits = s@.skip(start as int);
    assert(digits =~= if s@[0] == '+' {
        s@.drop_first()
    } else {
        s@
    });
    let mut acc: usize = 0;
    let mut i: usize = start;
    while i < n
        invariant
            n == s@.len(),
            start <= i <= n,
            digits.len() > 0,
            digits == if s@[0] == '+' {
                s@.drop_first()
            } else {
                s@
            },
            read_digits(digits, 0, usize::MAX as nat) == read_digits(
                s@.skip(i as int),
                acc as nat,
                usize::MAX as nat,
            ),
        decreases n - i,
    {
        let c: char = s.get_char(i);
        let code: u32 = c as u32;
        assert(s@.skip(i as int)[0] == c);
        assert(s@.skip(i as int).drop_first() =~= s@.skip(i as int + 1));
        if code < 48 || code > 57 {
            return Err(NumberError::InvalidDigit);
        }
        let d: usize = (code - 48) as usize;
        if acc > (usize::MAX - d) / 10 {
            return Err(NumberError::PosOverflow);
        }
        acc = acc * 10 + d;
        i += 1;
    }
    Ok(acc)
}

/// The number that a sequence of digits writes in decimal.
pub open spec fn decimal_value(s: Seq<char>) -> nat
    decreases s.len(),
{
    if s.len() == 0 {
        0
    } else {
        decimal_value(s.drop_last()) * 10 + digit_value(s.last())
    }
}

/// Whether `s` holds digits only.
pub open spec fn all_digits(s: Seq<char>) -> bool {
    forall|i: int| 0 <= i < s.len() ==> is_digit(#[trigger] s[i])
}

/// Reading the digits of `front + back` from zero comes to reading those
/// of `back` from the value of `front`, where `front` holds digits only
/// and its value is at most `max`.
pub proof fn lemma_read_digits_front(front: Seq<char>, back: Seq<char>, max: nat)
    requires
        all_digits(front),
        decimal_value(front) <= max,
    ensures
        read_digits(front + back, 0, max) == read_digits(back, decimal_value(front), max),
    decreases front.len(),
{
    if front.len() == 0 {
        assert(front + back =~= back);
    } else {
        let shorter = front.drop_last();
        let longer = seq![front.last()] + back;
        assert(front + back =~= shorter + longer);
        assert(all_digits(shorter)) by {
            assert forall|i: int| 0 <= i < shorter.len() implies is_digit(#[trigger] shorter[i]) by {
                assert(shorter[i] == front[i]);
            }
        }
        assert(is_digit(front[front.len() - 1]));
        lemma_read_digits_front(shorter, longer, max);
        assert(longer[0] == front.last());
        assert(longer.drop_first() =~= back);
    }
}

/// A text of digits writes the number that is its decimal value, where
/// that fits.
pub proof fn lemma_unsigned_number_of_digits(s: Seq<char>)
    requires
        s.len() > 0,
        all_digits(s),
        decimal_value(s) <= usize::MAX,
    ensures
        unsigned_number(s) == Ok::<usize, NumberError>(decimal_value(s) as usize),
{
    lemma_read_digits_front(s, Seq::empty(), usize::MAX as nat);
    assert(s + Seq::<char>::empty() =~= s);
    assert(is_digit(s[0]));
}

/// The number that `s` writes in decimal, with an optional sign in front,
/// where it writes one whose absolute value is at most `bound`.
pub open spec fn signed_number_within(s: Seq<char>, bound: nat) -> Option<int> {
    if s.len() == 0 {
        None
    } else {
        let digits = if s[0] == '+' || s[0] == '-' {
            s.drop_first()
        } else {
            s
        };
        if digits.len() == 0 || !all_digits(digits) || decimal_value(digits) > bound {
            None
        } else if s[0] == '-' {
            Some(-(decimal_value(digits) as int))
        } else {
            Some(decimal_value(digits) as int)
        }
    }
}

/// Parses a decimal number with an optional sign whose absolute value is
/// at most `bound`.
pub fn parse_signed_within(s: &str, bound: u16) -> (r: Option<i32>)
    ensures
        match r {
            Some(v) => signed_number_within(s@, bound as nat) == Some(v as int),
            None => signed_number_within(s@, bound as nat) is None,
        },
{
    let n: usize = s.unicode_len();
    if n == 0 {
        return None;
    }
    let sign: char = s.get_char(0);
    let start: usize = if sign == '+' || sign == '-' {
        1
    } else {
        0
    };
    if start == n {
        assert(s@.drop_first().len() == 0);
        return None;
    }
    let ghost digits = s@.skip(start as int);
    assert(digits =~= if s@[0] == '+' || s@[0] == '-' {
        s@.drop_first()
    } else {
        s@
    });
    let mut acc: u32 = 0;
    let mut over: bool = false;
    let mut i: usize = start;
    assert(digits.take(0) =~= Seq::<char>::empty());
    while i < n
        invariant
            n == s@.len(),
            start <= i <= n,
            digits == s@.skip(start as int),
            digits == if s@[0] == '+' || s@[0] == '-' {
                s@.drop_first()
            } else {
                s@
            },
            all_digits(digits.take(i - start)),
            acc <= bound,
            over ==> decimal_value(digits.take(i - start)) > bound,
            !over ==> decimal_value(digits.take(i - start)) == acc,
        decreases n - i,
    {
        let code: u32 = s.get_char(i) as u32;
        let ghost prefix = digits.take(i - start + 1);
        assert(prefix.drop_last() =~= digits.take(i - start));
        assert(prefix.last() == s@[i as int]);
        if code < 48 || code > 57 {
            assert(!is_digit(digits[i - start]));
            return None;
        }
        assert(all_digits(prefix)) by {
            assert forall|j: int| 0 <= j < prefix.len() implies is_digit(#[trigger] prefix[j]) by {
                if j < i - start {
                    assert(prefix[j] == digits.take(i - start)[j]);
                }
            }
        }
        if !over {
            let next: u32 = acc * 10 + (code - 48);
            if next > bound as u32 {
                over = true;
            } else {
                acc = next;
            }
        }
        i += 1;
    }
    assert(digits.take(n - start) =~= digits);
    if over {
        None
    } else if sign == '-' {
        Some(-(acc as i32))
    } else {
        Some(acc as i32)
    }
}

} // verus!
