//! Reading and writing numbers as text.
//!
//! The cells of a table are text. This module says, as functions on
//! sequences of characters, which texts are integers and which are decimal
//! floating-point numbers, and holds the executable readers proved against
//! those statements.

use vstd::prelude::*;
use vstd::string::*;

verus! {

// ---------------------------------------------------------------------------
// Text as bytes
// ---------------------------------------------------------------------------

/// `bytes` holds the characters of `s`, one byte each.
pub open spec fn spells(bytes: Seq<u8>, s: Seq<char>) -> bool {
    &&& bytes.len() == s.len()
    &&& forall|i: int| 0 <= i < s.len() ==> s[i] == (#[trigger] bytes[i]) as char
}

/// The bytes of an ASCII text, which spell it.
fn ascii_bytes(text: &str) -> (bytes: &[u8])
    requires
        is_ascii(text),
    ensures
        spells(bytes@, text@),
{
    let bytes = text.as_bytes();
    proof {
        is_ascii_spec_bytes(text);
        assert forall|i: int| 0 <= i < text@.len() implies text@[i] == (
        #[trigger] bytes@[i]) as char by {
            assert('\0' <= text@[i] <= '\u{7f}');
        }
    }
    bytes
}

// ---------------------------------------------------------------------------
// Integers
// ---------------------------------------------------------------------------

/// The value of `c` as a digit in `radix`, for radix 10 or 16.
pub open spec fn digit_of(c: char, radix: int) -> Option<int> {
    if '0' <= c && c <= '9' {
        Some(c as int - '0' as int)
    } else if radix == 16 && 'a' <= c && c <= 'f' {
        Some(c as int - 'a' as int + 10)
    } else if radix == 16 && 'A' <= c && c <= 'F' {
        Some(c as int - 'A' as int + 10)
    } else {
        None
    }
}

/// Every character of `s` is a digit in `radix`.
pub open spec fn all_digits(s: Seq<char>, radix: int) -> bool {
    forall|i: int| 0 <= i < s.len() ==> (#[trigger] digit_of(s[i], radix)) is Some
}

/// The number that the digits of `s` spell in `radix`, most significant first.
pub open spec fn digits_value(s: Seq<char>, radix: int) -> int
    decreases s.len(),
{
    if s.len() == 0 {
        0
    } else {
        digits_value(s.drop_last(), radix) * radix + digit_of(s.last(), radix).unwrap()
    }
}

/// An optional `+` or `-`, then one digit or more: the number spelled, of any size.
pub open spec fn signed_value(s: Seq<char>, radix: int) -> Option<int> {
    let signed = s.len() > 0 && (s[0] == '-' || s[0] == '+');
    let digits = if signed {
        s.skip(1)
    } else {
        s
    };
    if digits.len() == 0 || !all_digits(digits, radix) {
        None
    } else if s[0] == '-' {
        Some(-digits_value(digits, radix))
    } else {
        Some(digits_value(digits, radix))
    }
}

/// The number as a 64-bit integer, where there is one and it fits.
pub open spec fn fitting(value: Option<int>) -> Option<i64> {
    if value is Some && i64::MIN <= value.unwrap() <= i64::MAX {
        Some(value.unwrap() as i64)
    } else {
        None
    }
}

/// `s` starts with the two characters `0x`.
pub open spec fn has_hex_prefix(s: Seq<char>) -> bool {
    s.len() >= 2 && s[0] == '0' && s[1] == 'x'
}

/// The integer that a cell holds: decimal, or hexadecimal behind a `0x`
/// prefix; in both forms with an optional sign before the digits. `None`
/// where the text is not of that shape or the number does not fit in 64 bits.
pub open spec fn parsed_i64(s: Seq<char>) -> Option<i64> {
    if has_hex_prefix(s) {
        fitting(signed_value(s.skip(2), 16))
    } else {
        fitting(signed_value(s, 10))
    }
}

proof fn lemma_digits_nonnegative(s: Seq<char>, radix: int)
    requires
        radix == 10 || radix == 16,
        all_digits(s, radix),
    ensures
        digits_value(s, radix) >= 0,
    decreases s.len(),
{
    if s.len() > 0 {
        lemma_digits_nonnegative(s.drop_last(), radix);
        assert(digit_of(s[s.len() - 1], radix) is Some);
        assert(digits_value(s.drop_last(), radix) * radix >= 0) by (nonlinear_arith)
            requires
                digits_value(s.drop_last(), radix) >= 0,
                radix > 0,
        ;
    }
}

/// A number only grows as digits are added behind it.
proof fn lemma_digits_grow(s: Seq<char>, k: int, radix: int)
    requires
        radix == 10 || radix == 16,
        all_digits(s, radix),
        0 <= k <= s.len(),
    ensures
        digits_value(s.take(k), radix) <= digits_value(s, radix),
    decreases s.len() - k,
{
    if k == s.len() {
        assert(s.take(k) =~= s);
    } else {
        lemma_digits_grow(s, k + 1, radix);
        lemma_digits_step(s, k, radix);
        assert(all_digits(s.take(k), radix));
        lemma_digits_nonnegative(s.take(k), radix);
        let v = digits_value(s.take(k), radix);
        assert(v * radix >= v) by (nonlinear_arith)
            requires
                v >= 0,
                radix >= 1,
        ;
    }
}

/// Reading one more digit multiplies by the radix and adds the digit.
proof fn lemma_digits_step(s: Seq<char>, k: int, radix: int)
    requires
        0 <= k < s.len(),
    ensures
        digits_value(s.take(k + 1), radix) == digits_value(s.take(k), radix) * radix + digit_of(
            s[k],
            radix,
        ).unwrap(),
{
    assert(s.take(k + 1).drop_last() =~= s.take(k));
    assert(s.take(k + 1).last() == s[k]);
}

/// The digit that the byte `b` stands for in `radix`, if any.
fn digit_of_byte(b: u8, radix: u8) -> (d: Option<u8>)
    requires
        radix == 10 || radix == 16,
    ensures
        d matches Some(v) ==> digit_of(b as char, radix as int) == Some(v as int) && v < radix,
        d is None ==> digit_of(b as char, radix as int) is None,
{
    if 48 <= b && b <= 57 {
        Some(b - 48)
    } else if radix == 16 && 97 <= b && b <= 102 {
        Some(b - 97 + 10)
    } else if radix == 16 && 65 <= b && b <= 70 {
        Some(b - 65 + 10)
    } else {
        None
    }
}

/// Reads `bytes[start..]` as sign and digits.
#[verifier::loop_isolation(false)]
fn read_signed(bytes: &[u8], start: usize, radix: u8, Ghost(s): Ghost<Seq<char>>) -> (r: Option<
    i64,
>)
    requires
        radix == 10 || radix == 16,
        start <= bytes@.len(),
        spells(bytes@, s),
    ensures
        r == fitting(signed_value(s.skip(start as int), radix as int)),
{
    let n = bytes.len();
    let ghost t = s.skip(start as int);
    let signed = start < n && (bytes[start] == 45 || bytes[start] == 43);
    let negative = start < n && bytes[start] == 45;
    let first: usize = if signed {
        start + 1
    } else {
        start
    };
    let ghost digits = if signed {
        t.skip(1)
    } else {
        t
    };
    proof {
        assert(t.len() == n - start);
        if start < n {
            assert(t[0] == s[start as int]);
        }
        assert(digits =~= s.skip(first as int));
    }
    if first == n {
        return None;
    }
    let limit: i128 = 0x8000_0000_0000_0000;
    let mut acc: i128 = 0;
    let mut i: usize = first;
    while i < n
        invariant
            radix == 10 || radix == 16,
            first <= i <= n,
            n == bytes@.len(),
            spells(bytes@, s),
            digits == s.skip(first as int),
            all_digits(digits.take(i - first), radix as int),
            acc == digits_value(digits.take(i - first), radix as int),
            0 <= acc <= limit,
            limit == 0x8000_0000_0000_0000,
        decreases n - i,
    {
        let b = bytes[i];
        proof {
            assert(digits[i - first] == s[i as int]);
            assert(s[i as int] == bytes@[i as int] as char);
        }
        match digit_of_byte(b, radix) {
            None => {
                proof {
                    assert(digit_of(digits[i - first], radix as int) is None);
                    assert(!all_digits(digits, radix as int));
                }
                return None;
            },
            Some(d) => {
                proof {
                    lemma_digits_step(digits, i - first, radix as int);
                    assert forall|j: int| 0 <= j < i - first + 1 implies (#[trigger] digit_of(
                        digits.take(i - first + 1)[j],
                        radix as int,
                    )) is Some by {
                        if j < i - first {
                            assert(digits.take(i - first)[j] == digits.take(i - first + 1)[j]);
                        }
                    }
                    assert(acc * radix <= limit * 16) by (nonlinear_arith)
                        requires
                            0 <= acc <= limit,
                            0 < radix <= 16,
                    ;
                }
                acc = acc * (radix as i128) + (d as i128);
                if acc > limit {
                    proof {
                        if all_digits(digits, radix as int) {
                            lemma_digits_grow(digits, i - first + 1, radix as int);
                        }
                    }
                    return None;
                }
                i = i + 1;
            },
        }
    }
    proof {
        assert(digits.take(n - first) =~= digits);
    }
    if negative {
        Some((-acc) as i64)
    } else if acc == limit {
        None
    } else {
        Some(acc as i64)
    }
}

/// A text with a character outside ASCII is no integer.
proof fn lemma_integer_is_ascii(s: Seq<char>)
    requires
        !vstd::utf8::is_ascii_chars(s),
    ensures
        parsed_i64(s) is None,
{
    let i = choose|i: int| 0 <= i < s.len() && !('\0' <= #[trigger] s[i] <= '\u{7f}');
    assert(digit_of(s[i], 10) is None);
    assert(digit_of(s[i], 16) is None);
    let (t, radix, off) = if has_hex_prefix(s) {
        (s.skip(2), 16int, 2int)
    } else {
        (s, 10int, 0int)
    };
    assert(i >= off);
    let signed = t.len() > 0 && (t[0] == '-' || t[0] == '+');
    let digits = if signed {
        t.skip(1)
    } else {
        t
    };
    let off2 = if signed {
        off + 1
    } else {
        off
    };
    if signed {
        assert(t[0] == s[off]);
    }
    assert(i >= off2);
    assert(digits[i - off2] == s[i]);
    assert(!all_digits(digits, radix));
}

/// Reads an integer cell.
pub fn parse_i64(text: &str) -> (r: Option<i64>)
    ensures
        r == parsed_i64(text@),
{
    if !text.is_ascii() {
        proof {
            lemma_integer_is_ascii(text@);
        }
        return None;
    }
    let bytes = ascii_bytes(text);
    let n = bytes.len();
    proof {
        assert(text@.skip(0) =~= text@);
        if n >= 2 {
            assert(text@[0] == bytes@[0] as char);
            assert(text@[1] == bytes@[1] as char);
        }
    }
    if n >= 2 && bytes[0] == 48 && bytes[1] == 120 {
        read_signed(bytes, 2, 16, Ghost(text@))
    } else {
        read_signed(bytes, 0, 10, Ghost(text@))
    }
}

// ---------------------------------------------------------------------------
// Decimal floating-point numbers
// ---------------------------------------------------------------------------

/// One of the ten digits.
pub open spec fn is_decimal_digit(c: char) -> bool {
    '0' <= c && c <= '9'
}

/// A plus or a minus.
pub open spec fn is_sign(c: char) -> bool {
    c == '+' || c == '-'
}

/// How many decimal digits stand at the front of `s`.
pub open spec fn leading_digits(s: Seq<char>) -> nat
    decreases s.len(),
{
    if s.len() > 0 && is_decimal_digit(s[0]) {
        1 + leading_digits(s.skip(1))
    } else {
        0
    }
}

/// `e` or `E`, an optional sign, then digits to the end, at least one.
pub open spec fn is_exponent(s: Seq<char>) -> bool {
    let rest = s.skip(1);
    let digits = if rest.len() > 0 && is_sign(rest[0]) {
        rest.skip(1)
    } else {
        rest
    };
    &&& s.len() > 0
    &&& (s[0] == 'e' || s[0] == 'E')
    &&& digits.len() > 0
    &&& leading_digits(digits) == digits.len()
}

/// Digits with at most one point among them and at least one digit in all,
/// then an optional exponent.
pub open spec fn is_number(s: Seq<char>) -> bool {
    let whole = leading_digits(s);
    let behind = s.skip(whole as int);
    let pointed = behind.len() > 0 && behind[0] == '.';
    let fraction = if pointed {
        leading_digits(behind.skip(1))
    } else {
        0
    };
    let tail = if pointed {
        behind.skip(1 + fraction as int)
    } else {
        behind
    };
    &&& whole + fraction >= 1
    &&& (tail.len() == 0 || is_exponent(tail))
}

/// The lower-case form of an ASCII letter; any other character itself.
pub open spec fn lowered(c: char) -> char {
    if 'A' <= c && c <= 'Z' {
        ((c as u8) + 32) as char
    } else {
        c
    }
}

/// `s` is `word` but for the case of its letters; `word` is in lower case.
pub open spec fn spells_word(s: Seq<char>, word: Seq<char>) -> bool {
    &&& s.len() == word.len()
    &&& forall|i: int| 0 <= i < s.len() ==> lowered(#[trigger] s[i]) == word[i]
}

/// One of the words for a value that is no number: `inf`, `infinity`, `nan`.
pub open spec fn is_float_word(s: Seq<char>) -> bool {
    ||| spells_word(s, seq!['i', 'n', 'f'])
    ||| spells_word(s, seq!['n', 'a', 'n'])
    ||| spells_word(s, seq!['i', 'n', 'f', 'i', 'n', 'i', 't', 'y'])
}

/// The texts that stand for a 64-bit floating-point number: an ASCII text made
/// of an optional sign and then a number or one of the three words.
pub open spec fn is_float(s: Seq<char>) -> bool {
    let body = if s.len() > 0 && is_sign(s[0]) {
        s.skip(1)
    } else {
        s
    };
    &&& vstd::utf8::is_ascii_chars(s)
    &&& (is_number(body) || is_float_word(body))
}

/// Counts the digits at `bytes[from..]`.
fn digits_run(bytes: &[u8], from: usize, Ghost(s): Ghost<Seq<char>>) -> (k: usize)
    requires
        spells(bytes@, s),
        from <= bytes@.len(),
    ensures
        k == leading_digits(s.skip(from as int)),
        from + k <= bytes@.len(),
{
    let n = bytes.len();
    let mut i: usize = from;
    while i < n && 48 <= bytes[i] && bytes[i] <= 57
        invariant
            spells(bytes@, s),
            n == bytes@.len(),
            from <= i <= n,
            leading_digits(s.skip(from as int)) == (i - from) + leading_digits(s.skip(i as int)),
        decreases n - i,
    {
        proof {
            assert(s.skip(i as int)[0] == bytes@[i as int] as char);
            assert(s.skip(i as int).skip(1) =~= s.skip(i + 1));
        }
        i = i + 1;
    }
    proof {
        if i < n {
            assert(s.skip(i as int)[0] == bytes@[i as int] as char);
        }
    }
    i - from
}

/// The lower-case form of the byte `b`.
fn lowered_byte(b: u8) -> (l: u8)
    ensures
        b < 128 ==> l as char == lowered(b as char),
{
    if 65 <= b && b <= 90 {
        b + 32
    } else {
        b
    }
}

/// Whether `bytes[from..]` is one of the three words.
fn word_at(bytes: &[u8], from: usize, Ghost(s): Ghost<Seq<char>>) -> (b: bool)
    requires
        spells(bytes@, s),
        vstd::utf8::is_ascii_chars(s),
        from <= bytes@.len(),
    ensures
        b == is_float_word(s.skip(from as int)),
{
    let n = bytes.len();
    let ghost t = s.skip(from as int);
    proof {
        assert forall|i: int| 0 <= i < t.len() implies t[i] == (#[trigger] bytes@[from + i]) as char
            && bytes@[from + i] < 128 by {
            assert(t[i] == s[from + i]);
            assert('\0' <= s[from + i] <= '\u{7f}');
        }
    }
    if n - from == 3 {
        let a = lowered_byte(bytes[from]);
        let b = lowered_byte(bytes[from + 1]);
        let c = lowered_byte(bytes[from + 2]);
        proof {
            assert(t[0] == bytes@[from + 0] as char);
            assert(t[1] == bytes@[from + 1] as char);
            assert(t[2] == bytes@[from + 2] as char);
        }
        (a == 105 && b == 110 && c == 102) || (a == 110 && b == 97 && c == 110)
    } else if n - from == 8 {
        let w0 = lowered_byte(bytes[from]);
        let w1 = lowered_byte(bytes[from + 1]);
        let w2 = lowered_byte(bytes[from + 2]);
        let w3 = lowered_byte(bytes[from + 3]);
        let w4 = lowered_byte(bytes[from + 4]);
        let w5 = lowered_byte(bytes[from + 5]);
        let w6 = lowered_byte(bytes[from + 6]);
        let w7 = lowered_byte(bytes[from + 7]);
        proof {
            assert(t[0] == bytes@[from + 0] as char);
            assert(t[1] == bytes@[from + 1] as char);
            assert(t[2] == bytes@[from + 2] as char);
            assert(t[3] == bytes@[from + 3] as char);
            assert(t[4] == bytes@[from + 4] as char);
            assert(t[5] == bytes@[from + 5] as char);
            assert(t[6] == bytes@[from + 6] as char);
            assert(t[7] == bytes@[from + 7] as char);
        }
        w0 == 105 && w1 == 110 && w2 == 102 && w3 == 105 && w4 == 110 && w5 == 105 && w6 == 116
            && w7 == 121
    } else {
        false
    }
}

/// Whether `bytes[from..]` is an exponent.
fn exponent_at(bytes: &[u8], from: usize, Ghost(s): Ghost<Seq<char>>) -> (b: bool)
    requires
        spells(bytes@, s),
        from < bytes@.len(),
    ensures
        b == is_exponent(s.skip(from as int)),
{
    let n = bytes.len();
    let ghost tail = s.skip(from as int);
    proof {
        assert(tail[0] == bytes@[from as int] as char);
        assert(tail.skip(1) =~= s.skip(from + 1));
    }
    if bytes[from] != 101 && bytes[from] != 69 {
        return false;
    }
    let mut digits_at: usize = from + 1;
    if digits_at < n {
        proof {
            assert(tail.skip(1)[0] == bytes@[digits_at as int] as char);
        }
        if bytes[digits_at] == 43 || bytes[digits_at] == 45 {
            proof {
                assert(tail.skip(1).skip(1) =~= s.skip(digits_at + 1));
            }
            digits_at = digits_at + 1;
        }
    }
    let run = digits_run(bytes, digits_at, Ghost(s));
    digits_at < n && run == n - digits_at
}

/// Whether `bytes[from..]` is a number.
fn number_at(bytes: &[u8], from: usize, Ghost(s): Ghost<Seq<char>>) -> (b: bool)
    requires
        spells(bytes@, s),
        from <= bytes@.len(),
    ensures
        b == is_number(s.skip(from as int)),
{
    let n = bytes.len();
    let ghost t = s.skip(from as int);
    let whole = digits_run(bytes, from, Ghost(s));
    let mut at: usize = from + whole;
    let ghost behind = t.skip(whole as int);
    proof {
        assert(behind =~= s.skip(at as int));
        if at < n {
            assert(behind[0] == bytes@[at as int] as char);
        }
    }
    let pointed = at < n && bytes[at] == 46;
    let mut fraction: usize = 0;
    if pointed {
        fraction = digits_run(bytes, at + 1, Ghost(s));
        proof {
            assert(behind.skip(1) =~= s.skip(at + 1));
            assert(behind.skip(1 + fraction) =~= s.skip(at + 1 + fraction));
        }
        at = at + 1 + fraction;
    }
    if whole + fraction == 0 {
        false
    } else if at == n {
        true
    } else {
        exponent_at(bytes, at, Ghost(s))
    }
}

/// Whether `text` stands for a floating-point number.
pub fn is_float_text(text: &str) -> (b: bool)
    ensures
        b == is_float(text@),
{
    if !text.is_ascii() {
        return false;
    }
    let bytes = ascii_bytes(text);
    proof {
        assert(text@.skip(0) =~= text@);
        if bytes@.len() > 0 {
            assert(text@[0] == bytes@[0] as char);
        }
    }
    let n = bytes.len();
    let from: usize = if n > 0 && (bytes[0] == 43 || bytes[0] == 45) {
        1
    } else {
        0
    };
    number_at(bytes, from, Ghost(text@)) || word_at(bytes, from, Ghost(text@))
}

// ---------------------------------------------------------------------------
// Writing integers
// ---------------------------------------------------------------------------

/// The character for the digit `d`, for `d` from 0 to 9.
pub open spec fn digit_char(d: int) -> char {
    ('0' as int + d) as char
}

/// The decimal digits of `n`, most significant first, without leading zeros.
pub open spec fn decimal_digits(n: nat) -> Seq<char>
    decreases n,
{
    if n < 10 {
        seq![digit_char(n as int)]
    } else {
        decimal_digits(n / 10).push(digit_char((n % 10) as int))
    }
}

/// The decimal form of `n`: a `-` before the digits of a negative number.
pub open spec fn decimal(n: int) -> Seq<char> {
    if n < 0 {
        seq!['-'] + decimal_digits((-n) as nat)
    } else {
        decimal_digits(n as nat)
    }
}

/// The one-character text of the digit `d`.
fn digit_str(d: u8) -> (s: &'static str)
    requires
        d < 10,
    ensures
        s@ == seq![digit_char(d as int)],
{
    proof {
        reveal_strlit("0");
        reveal_strlit("1");
        reveal_strlit("2");
        reveal_strlit("3");
        reveal_strlit("4");
        reveal_strlit("5");
        reveal_strlit("6");
        reveal_strlit("7");
        reveal_strlit("8");
        reveal_strlit("9");
    }
    let s = match d {
        0 => "0",
        1 => "1",
        2 => "2",
        3 => "3",
        4 => "4",
        5 => "5",
        6 => "6",
        7 => "7",
        8 => "8",
        _ => "9",
    };
    assert(s@ =~= seq![digit_char(d as int)]);
    s
}

/// Appends the decimal digits of `n` to `out`.
fn push_digits(out: &mut String, n: u64)
    ensures
        final(out)@ == old(out)@ + decimal_digits(n as nat),
    decreases n,
{
    if n >= 10 {
        push_digits(out, n / 10);
    }
    let d = (n % 10) as u8;
    out.append(digit_str(d));
    assert(out@ =~= old(out)@ + decimal_digits(n as nat));
}

/// Writes `n` in decimal.
pub fn decimal_string(n: i64) -> (s: String)
    ensures
        s@ == decimal(n as int),
{
    let mut out = String::new();
    if n < 0 {
        proof {
            reveal_strlit("-");
        }
        out.append("-");
        assert(out@ =~= seq!['-']);
        let magnitude: u64 = if n == i64::MIN {
            0x8000_0000_0000_0000
        } else {
            (-n) as u64
        };
        push_digits(&mut out, magnitude);
    } else {
        push_digits(&mut out, n as u64);
        assert(out@ =~= decimal_digits(n as nat));
    }
    out
}

/// The digits of a number are digits, and they spell the number.
proof fn lemma_decimal_digits_spell(n: nat)
    ensures
        decimal_digits(n).len() >= 1,
        all_digits(decimal_digits(n), 10),
        digits_value(decimal_digits(n), 10) == n,
    decreases n,
{
    let digits = decimal_digits(n);
    if n < 10 {
        assert(digits =~= seq![digit_char(n as int)]);
        assert(digits.drop_last() =~= Seq::<char>::empty());
        assert(digits_value(digits.drop_last(), 10) == 0);
        assert(digit_of(digits[0], 10) == Some(n as int));
    } else {
        let front = decimal_digits(n / 10);
        let last = digit_char((n % 10) as int);
        lemma_decimal_digits_spell(n / 10);
        assert(digits == front.push(last));
        assert(digits.drop_last() =~= front);
        assert(digits.last() == last);
        assert(digit_of(last, 10) == Some((n % 10) as int));
        assert forall|i: int| 0 <= i < digits.len() implies (#[trigger] digit_of(
            digits[i],
            10,
        )) is Some by {
            if i < front.len() {
                assert(digits[i] == front[i]);
            }
        }
    }
}

/// What is written is read back: the decimal form of an integer is the text
/// of that integer.
pub proof fn law_decimal_is_read_back(n: i64)
    ensures
        parsed_i64(decimal(n as int)) == Some(n),
{
    let text = decimal(n as int);
    if n < 0 {
        let digits = decimal_digits((-n) as nat);
        lemma_decimal_digits_spell((-n) as nat);
        assert(text[0] == '-');
        assert(text.skip(1) =~= digits);
        assert(!has_hex_prefix(text));
    } else {
        let digits = decimal_digits(n as nat);
        lemma_decimal_digits_spell(n as nat);
        assert(text == digits);
        assert(!has_hex_prefix(text)) by {
            if text.len() >= 2 {
                assert(digit_of(text[1], 10) is Some);
            }
        }
    }
}

/// Different integers are written differently.
pub proof fn law_decimal_tells_apart(a: i64, b: i64)
    requires
        decimal(a as int) == decimal(b as int),
    ensures
        a == b,
{
    law_decimal_is_read_back(a);
    law_decimal_is_read_back(b);
}

// ---------------------------------------------------------------------------
// Letter case
// ---------------------------------------------------------------------------

/// The upper-case form of a text, as the standard library's Unicode tables
/// give it.
pub uninterp spec fn uppercase(text: Seq<char>) -> Seq<char>;

/// `str::to_uppercase` returns the upper-case equivalent of the text as a
/// new `String`. The mapping is Unicode's and is not restated: the result
/// depends on the text alone and has the name [`uppercase`].
pub assume_specification[ str::to_uppercase ](text: &str) -> (upper: String)
    ensures
        upper@ == uppercase(text@),
;

} // verus!
