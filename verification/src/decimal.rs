//! Whole numbers in decimal notation.

use crate::text::chars_of;
use vstd::prelude::*;

verus! {

/// The character of a digit.
pub open spec fn digit(d: nat) -> char {
    (48 + d) as char
}

/// `n` in decimal notation, without leading zeros.
pub open spec fn numeral(n: nat) -> Seq<char>
    decreases n,
{
    if n < 10 {
        seq![digit(n)]
    } else {
        numeral(n / 10).push(digit(n % 10))
    }
}

/// The text of a digit.
fn digit_text(d: u64) -> (r: &'static str)
    requires
        d < 10,
    ensures
        r@ == seq![digit(d as nat)],
{
    proof {
        reveal_strlit("0");
        reveal_strlit("1");
        reveal_strlit("2");
        reveal_strlit("3");
        reveal_strlit("4");
        reveal_strlit("5");
        reveal_strlit("6");
        reveal_strlit("7");
        reveal_strlit("8");
        reveal_strlit("9");
    }
    if d == 0 {
        "0"
    } else if d == 1 {
        "1"
    } else if d == 2 {
        "2"
    } else if d == 3 {
        "3"
    } else if d == 4 {
        "4"
    } else if d == 5 {
        "5"
    } else if d == 6 {
        "6"
    } else if d == 7 {
        "7"
    } else if d == 8 {
        "8"
    } else {
        "9"
    }
}

/// Writes `n` in decimal notation.
pub fn write_number(n: u64) -> (r: String)
    ensures
        r@ == numeral(n as nat),
    decreases n,
{
    if n < 10 {
        digit_text(n).to_string()
    } else {
        let last = digit_text(n % 10);
        write_number(n / 10).concat(last)
    }
}

/// Tells whether `c` is an ASCII digit.
pub open spec fn is_digit(c: char) -> bool {
    '0' <= c <= '9'
}

/// Tells whether `text` holds ASCII digits alone, and at least one.
pub open spec fn is_numeral(text: Seq<char>) -> bool {
    text.len() > 0 && forall|i: int| 0 <= i < text.len() ==> is_digit(#[trigger] text[i])
}

/// Tells whether `text` holds ASCII digits alone, and at least one.
pub fn all_digits(text: &str) -> (r: bool)
    ensures
        r == is_numeral(text@),
{
    let chars = chars_of(text);
    let mut i: usize = 0;
    while i < chars.len()
        invariant
            chars@ == text@,
            i <= chars@.len(),
            forall|j: int| 0 <= j < i ==> is_digit(#[trigger] chars@[j]),
        decreases chars.len() - i,
    {
        if !('0' <= chars[i] && chars[i] <= '9') {
            return false;
        }
        i = i + 1;
    }
    chars.len() > 0
}

/// The number that a sequence of digits stands for.
pub open spec fn number(digits: Seq<char>) -> nat
    decreases digits.len(),
{
    if digits.len() == 0 {
        0
    } else {
        number(digits.drop_last()) * 10 + (digits.last() as int - 48) as nat
    }
}

/// The integer that `text` stands for: digits, which a sign may precede.
pub open spec fn signed_number(text: Seq<char>) -> Option<int> {
    if is_numeral(text) {
        Some(number(text) as int)
    } else if text.len() > 0 && text[0] == '+' && is_numeral(text.skip(1)) {
        Some(number(text.skip(1)) as int)
    } else if text.len() > 0 && text[0] == '-' && is_numeral(text.skip(1)) {
        Some(-(number(text.skip(1)) as int))
    } else {
        None
    }
}

/// The integer that `text` stands for, where it lies between 0 and `max`.
pub open spec fn number_up_to(text: Seq<char>, max: u32) -> Option<u32> {
    match signed_number(text) {
        Some(n) => if 0 <= n <= max {
            Some(n as u32)
        } else {
            None
        },
        None => None,
    }
}

proof fn lemma_number_grows(digits: Seq<char>, more: Seq<char>)
    requires
        forall|i: int| 0 <= i < more.len() ==> is_digit(#[trigger] more[i]),
    ensures
        number(digits + more) >= number(digits),
    decreases more.len(),
{
    if more.len() > 0 {
        assert((digits + more).drop_last() =~= digits + more.drop_last());
        lemma_number_grows(digits, more.drop_last());
    }
}

/// Reads the digits of `chars` from `from` on: the number they stand for, where it is at most
/// `max`.
fn read_digits(chars: &Vec<char>, from: usize, max: u32) -> (r: Option<u32>)
    requires
        from <= chars@.len(),
    ensures
        ({
            let digits = chars@.skip(from as int);
            match r {
                Some(n) => is_numeral(digits) && number(digits) == n && n <= max,
                None => !is_numeral(digits) || number(digits) > max,
            }
        }),
{
    let ghost digits = chars@.skip(from as int);
    if from >= chars.len() {
        return None;
    }
    let mut value: u64 = 0;
    let mut i: usize = from;
    while i < chars.len()
        invariant
            digits == chars@.skip(from as int),
            from <= i <= chars@.len(),
            forall|j: int| 0 <= j < i - from ==> is_digit(#[trigger] digits[j]),
            value == number(digits.take(i - from)),
            value <= max,
        decreases chars.len() - i,
    {
        let c = chars[i];
        assert(digits[i - from] == c);
        if !('0' <= c && c <= '9') {
            return None;
        }
        let step: u64 = (c as u32 - 48) as u64;
        assert(digits.take(i - from + 1).drop_last() =~= digits.take(i - from));
        value = value * 10 + step;
        if value > max as u64 {
            proof {
                if is_numeral(digits) {
                    let read = digits.take(i - from + 1);
                    let more = digits.skip(i - from + 1);
                    assert(digits =~= read + more);
                    lemma_number_grows(read, more);
                }
            }
            return None;
        }
        i = i + 1;
    }
    assert(digits.take(i - from) =~= digits);
    Some(value as u32)
}

/// Reads a number between 0 and `max` in decimal notation; a sign may precede it.
pub fn read_number(text: &str, max: u32) -> (r: Option<u32>)
    ensures
        r == number_up_to(text@, max),
{
    let chars = chars_of(text);
    assert(text@.skip(0) =~= text@);
    if chars.len() > 0 && chars[0] == '+' {
        read_digits(&chars, 1, max)
    } else if chars.len() > 0 && chars[0] == '-' {
        read_digits(&chars, 1, 0)
    } else {
        read_digits(&chars, 0, max)
    }
}

proof fn lemma_numeral(n: nat)
    ensures
        is_numeral(numeral(n)),
        number(numeral(n)) == n,
    decreases n,
{
    if n < 10 {
        let s = numeral(n);
        assert(number(s.drop_last()) == 0);
    } else {
        lemma_numeral(n / 10);
        let s = numeral(n / 10);
        assert(s.push(digit(n % 10)).drop_last() =~= s);
    }
}

/// Reading what was written gives the number back, wherever it is within bounds.
pub proof fn number_survives_writing(n: u32, max: u32)
    ensures
        number_up_to(numeral(n as nat), max) == (if n <= max {
            Some(n)
        } else {
            None
        }),
{
    lemma_numeral(n as nat);
}

/// A number is written digit by digit, the last one last, and without a zero before the first.
pub proof fn digits_are_written_in_turn(n: nat, d: nat)
    requires
        d < 10,
    ensures
        numeral(d) == seq![('0' as int + d) as char],
        n > 0 ==> numeral(10 * n + d) == numeral(n).push(('0' as int + d) as char),
        numeral(n).len() > 0,
        n > 0 ==> numeral(n)[0] != '0',
    decreases n,
{
    assert('0' as int == 48);
    if n > 0 {
        assert((10 * n + d) / 10 == n);
        assert((10 * n + d) % 10 == d);
    }
    if n >= 10 {
        digits_are_written_in_turn(n / 10, d);
        assert(numeral(n)[0] == numeral(n / 10)[0]);
    }
}

/// The digits of a number are read one after the other, as far as the bound allows; nothing but
/// digits and one sign is read.
pub proof fn digits_are_read_in_turn(text: Seq<char>, c: char, max: u32)
    ensures
        number_up_to(seq![c], max) == (if '0' <= c <= '9' && c as int - '0' as int <= max {
            Some((c as int - '0' as int) as u32)
        } else {
            None
        }),
        is_numeral(text) ==> number_up_to(text.push(c), max) == (match number_up_to(text, max) {
            Some(n) => if '0' <= c <= '9' && 10 * n + (c as int - '0' as int) <= max {
                Some((10 * n + (c as int - '0' as int)) as u32)
            } else {
                None
            },
            None => None,
        }),
        is_numeral(text) ==> number_up_to(seq!['+'] + text, max) == number_up_to(text, max),
        is_numeral(text) ==> number_up_to(seq!['-'] + text, max) == number_up_to(text, 0),
        number_up_to(text, max) is Some ==> is_numeral(text) || (text[0] == '+' || text[0] == '-')
            && is_numeral(text.skip(1)),
{
    assert('0' as int == 48);
    let one = seq![c];
    assert(one.drop_last() =~= Seq::<char>::empty());
    assert(number(one.drop_last()) == 0);
    assert(one.skip(1) =~= Seq::<char>::empty());
    assert(one[0] == c);
    if is_numeral(text) {
        let more = text.push(c);
        assert(more.drop_last() =~= text);
        assert(more[0] == text[0]);
        assert(is_digit(text[0]));
        if is_digit(c) {
            assert forall|i: int| 0 <= i < more.len() implies is_digit(#[trigger] more[i]) by {
                if i < text.len() {
                    assert(more[i] == text[i]);
                }
            }
        } else {
            assert(!is_digit(more[text.len() as int]));
        }
        let plus = seq!['+'] + text;
        let minus = seq!['-'] + text;
        assert(!is_digit(plus[0]));
        assert(!is_digit(minus[0]));
        assert(plus.skip(1) =~= text);
        assert(minus.skip(1) =~= text);
    }
}

/// A text of digits is one that holds nothing else, and at least one.
pub proof fn numerals_hold_digits_alone(text: Seq<char>, c: char)
    ensures
        !is_numeral(Seq::<char>::empty()),
        is_numeral(seq![c]) <==> '0' <= c <= '9',
        text.len() > 0 ==> (is_numeral(text.push(c)) <==> is_numeral(text) && '0' <= c <= '9'),
{
    assert(seq![c][0] == c);
    if text.len() > 0 {
        let more = text.push(c);
        assert(more[text.len() as int] == c);
        assert forall|i: int| 0 <= i < text.len() implies #[trigger] more[i] == text[i] by {}
        if is_numeral(more) {
            assert forall|i: int| 0 <= i < text.len() implies is_digit(#[trigger] text[i]) by {
                assert(is_digit(more[i]));
            }
        }
    }
}

} // verus!
