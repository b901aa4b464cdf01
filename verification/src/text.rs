//! Text helpers: decimal rendering of integers and comparison with literals.

use vstd::prelude::*;

verus! {

/// The character that writes the digit `d`, for `d` from 0 to 9.
pub open spec fn digit_char(d: int) -> char {
    if d == 0 {
        '0'
    } else if d == 1 {
        '1'
    } else if d == 2 {
        '2'
    } else if d == 3 {
        '3'
    } else if d == 4 {
        '4'
    } else if d == 5 {
        '5'
    } else if d == 6 {
        '6'
    } else if d == 7 {
        '7'
    } else if d == 8 {
        '8'
    } else {
        '9'
    }
}

/// The decimal digits of `n`, most significant first, without leading zeros.
pub open spec fn decimal(n: nat) -> Seq<char>
    decreases n,
{
    if n < 10 {
        seq![digit_char(n as int)]
    } else {
        decimal(n / 10).push(digit_char((n % 10) as int))
    }
}

/// The decimal form of a signed integer: a minus sign before negative values.
pub open spec fn signed_decimal(n: int) -> Seq<char> {
    if n < 0 {
        seq!['-'] + decimal((-n) as nat)
    } else {
        decimal(n as nat)
    }
}

/// A decimal number never renders as the empty string.
pub proof fn lemma_decimal_nonempty(n: nat)
    ensures
        decimal(n).len() >= 1,
    decreases n,
{
    if n >= 10 {
        lemma_decimal_nonempty(n / 10);
    }
}

fn digit_str(d: u64) -> (s: &'static str)
    requires
        d < 10,
    ensures
        s@ == seq![digit_char(d as int)],
{
    proof {
        reveal_strlit("0");
        reveal_strlit("1");
        reveal_strlit("2");
        reveal_strlit("3");
        reveal_strlit("4");
        reveal_strlit("5");
        reveal_strlit("6");
        reveal_strlit("7");
        reveal_strlit("8");
        reveal_strlit("9");
    }
    let s = if d == 0 {
        "0"
    } else if d == 1 {
        "1"
    } else if d == 2 {
        "2"
    } else if d == 3 {
        "3"
    } else if d == 4 {
        "4"
    } else if d == 5 {
        "5"
    } else if d == 6 {
        "6"
    } else if d == 7 {
        "7"
    } else if d == 8 {
        "8"
    } else {
        "9"
    };
    assert(s@ =~= seq![digit_char(d as int)]);
    s
}

/// Appends the decimal form of `n` to `out`.
pub fn push_decimal(out: &mut String, n: u64)
    ensures
        final(out)@ == old(out)@ + decimal(n as nat),
    decreases n,
{
    if n >= 10 {
        push_decimal(out, n / 10);
    }
    let ghost before = out@;
    out.append(digit_str(n % 10));
    proof {
        if n >= 10 {
            assert(out@ =~= old(out)@ + decimal(n as nat));
        } else {
            assert(out@ =~= old(out)@ + decimal(n as nat));
        }
    }
}

/// Appends the decimal form of a signed integer to `out`.
pub fn push_signed_decimal(out: &mut String, n: i64)
    ensures
        final(out)@ == old(out)@ + signed_decimal(n as int),
{
    if n < 0 {
        proof {
            reveal_strlit("-");
        }
        out.append("-");
        let magnitude: u64 = if n == i64::MIN {
            9_223_372_036_854_775_808u64
        } else {
            (-n) as u64
        };
        push_decimal(out, magnitude);
        assert(out@ =~= old(out)@ + signed_decimal(n as int));
    } else {
        push_decimal(out, n as u64);
    }
}

/// Appends `piece` to `out`.
pub fn push_text(out: &mut String, piece: &String)
    ensures
        final(out)@ == old(out)@ + piece@,
{
    out.append(piece.as_str());
}

/// The decimal form of `n` as a fresh string.
pub fn decimal_string(n: u64) -> (s: String)
    ensures
        s@ == decimal(n as nat),
{
    let mut s = String::new();
    push_decimal(&mut s, n);
    assert(s@ =~= decimal(n as nat));
    s
}

/// Whether `s` reads exactly as the literal `lit`.
pub fn is_text(s: &String, lit: &str) -> (b: bool)
    ensures
        b == (s@ == lit@),
{
    let other = lit.to_owned();
    *s == other
}

/// A quantity in thousandths written with one decimal place, rounded to the
/// nearest tenth, halves away from zero: 120_450 reads "120.5".
pub open spec fn one_decimal(thousandths: int) -> Seq<char> {
    let magnitude = if thousandths < 0 {
        -thousandths
    } else {
        thousandths
    };
    let tenths = (magnitude + 50) / 100;
    let digits = decimal((tenths / 10) as nat) + seq!['.'] + seq![digit_char(tenths % 10)];
    if thousandths < 0 && tenths > 0 {
        seq!['-'] + digits
    } else {
        digits
    }
}

/// Appends `thousandths` with one decimal place to `out`.
pub fn push_one_decimal(out: &mut String, thousandths: i64)
    ensures
        final(out)@ == old(out)@ + one_decimal(thousandths as int),
{
    let magnitude: u64 = if thousandths == i64::MIN {
        9_223_372_036_854_775_808u64
    } else if thousandths < 0 {
        (-thousandths) as u64
    } else {
        thousandths as u64
    };
    let tenths: u64 = (magnitude + 50) / 100;
    proof {
        reveal_strlit("-");
        reveal_strlit(".");
    }
    if thousandths < 0 && tenths > 0 {
        out.append("-");
    }
    let ghost start = out@;
    push_decimal(out, tenths / 10);
    out.append(".");
    out.append(digit_str(tenths % 10));
    proof {
        let digits = decimal((tenths / 10) as nat) + seq!['.'] + seq![
            digit_char((tenths % 10) as int),
        ];
        assert(out@ =~= start + digits);
        assert(out@ =~= old(out)@ + one_decimal(thousandths as int));
    }
}

/// The digit that a character writes, if it writes one.
pub open spec fn digit_value(c: char) -> Option<nat> {
    if c == '0' {
        Some(0nat)
    } else if c == '1' {
        Some(1nat)
    } else if c == '2' {
        Some(2nat)
    } else if c == '3' {
        Some(3nat)
    } else if c == '4' {
        Some(4nat)
    } else if c == '5' {
        Some(5nat)
    } else if c == '6' {
        Some(6nat)
    } else if c == '7' {
        Some(7nat)
    } else if c == '8' {
        Some(8nat)
    } else if c == '9' {
        Some(9nat)
    } else {
        None
    }
}

/// The number that a run of digits writes; none if any character is no
/// digit. The empty run writes zero.
pub open spec fn digits_value(digits: Seq<char>) -> Option<nat>
    decreases digits.len(),
{
    if digits.len() == 0 {
        Some(0nat)
    } else {
        match (digits_value(digits.drop_last()), digit_value(digits.last())) {
            (Some(high), Some(low)) => Some(high * 10 + low),
            _ => None,
        }
    }
}

/// The number that a text writes in decimal, as the standard library reads
/// unsigned numbers: one or more digits, optionally after a plus sign, and
/// no larger than `max`.
pub open spec fn parsed_unsigned(text: Seq<char>, max: nat) -> Option<nat> {
    let digits = if text.len() > 0 && text[0] == '+' {
        text.subrange(1, text.len() as int)
    } else {
        text
    };
    if digits.len() == 0 {
        None
    } else {
        match digits_value(digits) {
            Some(n) => if n <= max {
                Some(n)
            } else {
                None
            },
            None => None,
        }
    }
}

/// The number written does not shrink when digits are added.
pub proof fn lemma_digits_value_grows(digits: Seq<char>, k: int)
    requires
        0 <= k <= digits.len(),
        digits_value(digits) is Some,
    ensures
        digits_value(digits.take(k)) is Some,
        digits_value(digits.take(k)).unwrap() <= digits_value(digits).unwrap(),
    decreases digits.len() - k,
{
    if k == digits.len() {
        assert(digits.take(k) =~= digits);
    } else {
        lemma_digits_value_grows(digits, k + 1);
        assert(digits.take(k + 1).drop_last() =~= digits.take(k));
    }
}

fn digit_of(c: char) -> (d: Option<u64>)
    ensures
        match d {
            Some(v) => digit_value(c) == Some(v as nat) && v < 10,
            None => digit_value(c) is None,
        },
{
    if c == '0' {
        Some(0)
    } else if c == '1' {
        Some(1)
    } else if c == '2' {
        Some(2)
    } else if c == '3' {
        Some(3)
    } else if c == '4' {
        Some(4)
    } else if c == '5' {
        Some(5)
    } else if c == '6' {
        Some(6)
    } else if c == '7' {
        Some(7)
    } else if c == '8' {
        Some(8)
    } else if c == '9' {
        Some(9)
    } else {
        None
    }
}

/// Reads an unsigned decimal number no larger than `max`.
pub fn parse_unsigned(text: &str, max: u64) -> (number: Option<u64>)
    ensures
        match number {
            Some(n) => parsed_unsigned(text@, max as nat) == Some(n as nat),
            None => parsed_unsigned(text@, max as nat) is None,
        },
{
    let length = text.unicode_len();
    let start: usize = if length > 0 && text.get_char(0) == '+' {
        1
    } else {
        0
    };
    let ghost digits = if start == 1 {
        text@.subrange(1, text@.len() as int)
    } else {
        text@
    };
    if start == length {
        return None;
    }
    let mut value: u64 = 0;
    let mut i: usize = start;
    assert(digits.take(0) =~= Seq::<char>::empty());
    while i < length
        invariant
            start <= i <= length,
            length == text@.len(),
            start <= 1,
            start < length,
            start == 1 <==> text@.len() > 0 && text@[0] == '+',
            digits == if start == 1 {
                text@.subrange(1, text@.len() as int)
            } else {
                text@
            },
            digits_value(digits.take(i - start)) == Some(value as nat),
            value <= max,
        decreases length - i,
    {
        let c = text.get_char(i);
        let ghost upto = digits.take(i - start + 1);
        proof {
            assert(upto.drop_last() =~= digits.take(i - start));
            assert(upto.last() == c);
        }
        match digit_of(c) {
            Some(d) => {
                if d > max || value > (max - d) / 10 {
                    proof {
                        assert(digits_value(upto) == Some((value * 10 + d) as nat));
                        assert(value * 10 + d > max) by (nonlinear_arith)
                            requires
                                d > max || (d <= max && value > (max - d) / 10),
                                value >= 0,
                                d < 10,
                        ;
                        if digits_value(digits) is Some {
                            lemma_digits_value_grows(digits, i - start + 1);
                        }
                    }
                    return None;
                }
                assert(value * 10 + d <= max) by (nonlinear_arith)
                    requires
                        value <= (max - d) / 10,
                        d <= max,
                ;
                value = value * 10 + d;
            },
            None => {
                proof {
                    assert(digits_value(upto) is None);
                    if digits_value(digits) is Some {
                        lemma_digits_value_grows(digits, i - start + 1);
                    }
                }
                return None;
            },
        }
        i += 1;
    }
    assert(digits.take(length - start) =~= digits);
    Some(value)
}


/// A run of `count` zeros.
pub open spec fn zeros(count: nat) -> Seq<char> {
    Seq::new(count, |i: int| '0')
}

/// `n` in decimal with zeros in front up to `width` digits.
pub open spec fn padded(n: nat, width: nat) -> Seq<char> {
    if decimal(n).len() < width {
        zeros((width - decimal(n).len()) as nat) + decimal(n)
    } else {
        decimal(n)
    }
}

/// Whether `pattern` occurs in `text` at the place `at`.
pub open spec fn occurs_at(text: Seq<char>, pattern: Seq<char>, at: int) -> bool {
    0 <= at && at + pattern.len() <= text.len() && text.subrange(at, at + pattern.len())
        == pattern
}

/// Whether `pattern` occurs somewhere in `text`.
pub open spec fn has_substring(text: Seq<char>, pattern: Seq<char>) -> bool {
    exists|at: int| occurs_at(text, pattern, at)
}

fn matches_at(text: &str, pattern: &str, at: usize, text_len: usize, pattern_len: usize) -> (found:
    bool)
    requires
        text_len == text@.len(),
        pattern_len == pattern@.len(),
        at + pattern_len <= text_len,
    ensures
        found == occurs_at(text@, pattern@, at as int),
{
    let mut k: usize = 0;
    while k < pattern_len
        invariant
            0 <= k <= pattern_len,
            text_len == text@.len(),
            pattern_len == pattern@.len(),
            at + pattern_len <= text_len,
            forall|m: int| 0 <= m < k ==> text@[at + m] == pattern@[m],
        decreases pattern_len - k,
    {
        if text.get_char(at + k) != pattern.get_char(k) {
            assert(text@.subrange(at as int, at + pattern_len)[k as int] != pattern@[k as int]);
            return false;
        }
        k += 1;
    }
    assert(text@.subrange(at as int, at + pattern_len) =~= pattern@);
    true
}

/// Whether `pattern` occurs somewhere in `text`.
pub fn contains(text: &str, pattern: &str) -> (found: bool)
    ensures
        found == has_substring(text@, pattern@),
{
    let text_len = text.unicode_len();
    let pattern_len = pattern.unicode_len();
    if pattern_len > text_len {
        assert forall|at: int| !occurs_at(text@, pattern@, at) by {}
        return false;
    }
    let last = text_len - pattern_len;
    let mut at: usize = 0;
    while at < last
        invariant
            0 <= at <= last,
            last == text_len - pattern_len,
            text_len == text@.len(),
            pattern_len == pattern@.len(),
            forall|m: int| 0 <= m < at ==> !occurs_at(text@, pattern@, m),
        decreases last - at,
    {
        if matches_at(text, pattern, at, text_len, pattern_len) {
            return true;
        }
        at += 1;
    }
    if matches_at(text, pattern, last, text_len, pattern_len) {
        return true;
    }
    assert forall|m: int| !occurs_at(text@, pattern@, m) by {}
    false
}

/// Appends `n` in decimal to `out`, with zeros in front up to `width`
/// digits.
pub fn push_padded(out: &mut String, n: u64, width: usize)
    ensures
        final(out)@ == old(out)@ + padded(n as nat, width as nat),
{
    let digits = decimal_string(n);
    let length = digits.as_str().unicode_len();
    let ghost start = out@;
    let mut k: usize = length;
    proof {
        reveal_strlit("0");
        assert(zeros(0) =~= Seq::<char>::empty());
        assert(out@ =~= start + zeros(0));
    }
    while k < width
        invariant
            length <= k,
            k <= width || width < length,
            width <= length ==> k == length,
            out@ == start + zeros((k - length) as nat),
        decreases width - k,
    {
        proof {
            reveal_strlit("0");
        }
        out.append("0");
        assert("0"@ =~= seq!['0']);
        assert(zeros((k + 1 - length) as nat) =~= zeros((k - length) as nat).push('0'));
        assert(out@ =~= start + zeros((k + 1 - length) as nat));
        k += 1;
    }
    let ghost filled = out@;
    out.append(digits.as_str());
    proof {
        assert(length == decimal(n as nat).len());
        if length < width {
            assert(k == width);
        } else {
            assert(k == length);
            assert(zeros(0) =~= Seq::<char>::empty());
        }
        assert(out@ =~= filled + decimal(n as nat));
        assert(out@ =~= start + padded(n as nat, width as nat));
    }
}

} // verus!
