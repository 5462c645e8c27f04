//! Small pieces of text: digits, decimal and hexadecimal numbers, comparison without
//! regard to letter case.
use vstd::prelude::*;
use vstd::string::*;

verus! {

/// The character of a digit below sixteen, letters in lower case.
pub open spec fn digit_char(d: int) -> char {
    if d < 10 { (('0' as u32) + d) as char } else { (('a' as u32) + d - 10) as char }
}

/// The text of one digit below sixteen.
pub fn digit_text(d: u8) -> (r: &'static str)
    requires
        d < 16,
    ensures
        r@ == seq![digit_char(d as int)],
{
    proof {
        reveal_strlit("0");
        reveal_strlit("1");
        reveal_strlit("2");
        reveal_strlit("3");
        reveal_strlit("4");
        reveal_strlit("5");
        reveal_strlit("6");
        reveal_strlit("7");
        reveal_strlit("8");
        reveal_strlit("9");
        reveal_strlit("a");
        reveal_strlit("b");
        reveal_strlit("c");
        reveal_strlit("d");
        reveal_strlit("e");
        reveal_strlit("f");
    }
    let r = match d {
        0 => "0",
        1 => "1",
        2 => "2",
        3 => "3",
        4 => "4",
        5 => "5",
        6 => "6",
        7 => "7",
        8 => "8",
        9 => "9",
        10 => "a",
        11 => "b",
        12 => "c",
        13 => "d",
        14 => "e",
        _ => "f",
    };
    assert(r@ =~= seq![digit_char(d as int)]);
    r
}

/// The digits of a number in a base up to sixteen, without leading zeros.
pub open spec fn digits(n: nat, base: nat) -> Seq<char>
    decreases n,
{
    if base < 2 {
        seq![]
    } else if n < base {
        seq![digit_char(n as int)]
    } else {
        proof {
            assert(n / base < n) by (nonlinear_arith)
                requires
                    n >= base,
                    base >= 2,
            ;
        }
        digits(n / base, base).push(digit_char((n % base) as int))
    }
}

fn number_text(n: u64, base: u64) -> (r: String)
    requires
        2 <= base <= 16,
    ensures
        r@ == digits(n as nat, base as nat),
    decreases n,
{
    if n < base {
        digit_text(n as u8).to_owned()
    } else {
        proof {
            assert(n / base < n) by (nonlinear_arith)
                requires
                    n >= base,
                    base >= 2,
            ;
            assert(0 <= n % base < base) by (nonlinear_arith)
                requires
                    base >= 2,
            ;
        }
        let mut text = number_text(n / base, base);
        text.append(digit_text((n % base) as u8));
        assert(text@ =~= digits((n / base) as nat, base as nat).push(
            digit_char((n % base) as int),
        ));
        text
    }
}

/// A number in decimal notation.
pub open spec fn decimal(n: nat) -> Seq<char> {
    digits(n, 10)
}

/// A number in lower-case hexadecimal notation.
pub open spec fn hexadecimal(n: nat) -> Seq<char> {
    digits(n, 16)
}

pub fn decimal_text(n: u64) -> (r: String)
    ensures
        r@ == decimal(n as nat),
{
    number_text(n, 10)
}

pub fn hexadecimal_text(n: u64) -> (r: String)
    ensures
        r@ == hexadecimal(n as nat),
{
    number_text(n, 16)
}

/// A number in decimal notation, with a sign where it is below zero.
pub open spec fn signed(n: int) -> Seq<char> {
    if n < 0 { seq!['-'] + decimal((-n) as nat) } else { decimal(n as nat) }
}

pub fn signed_text(n: i64) -> (r: String)
    ensures
        r@ == signed(n as int),
{
    if n >= 0 {
        return decimal_text(n as u64);
    }
    proof {
        reveal_strlit("-");
        assert("-"@ =~= seq!['-']);
    }
    let mut text = "-".to_owned();
    let size: u64 = if n == i64::MIN { 0x8000_0000_0000_0000 } else { (-n) as u64 };
    let digits = decimal_text(size);
    text.append(digits.as_str());
    text
}

/// A number below a hundred with two decimal digits.
pub open spec fn two_digits(n: int) -> Seq<char> {
    seq![digit_char(n / 10), digit_char(n % 10)]
}

pub fn push_two_digits(text: &mut String, n: u32)
    requires
        n < 100,
    ensures
        final(text)@ == old(text)@ + two_digits(n as int),
{
    text.append(digit_text((n / 10) as u8));
    text.append(digit_text((n % 10) as u8));
    assert(text@ =~= old(text)@ + two_digits(n as int));
}

/// A byte as two hexadecimal digits.
pub open spec fn hex_byte(b: u8) -> Seq<char> {
    seq![digit_char(b as int / 16), digit_char(b as int % 16)]
}

pub fn push_hex_byte(text: &mut String, b: u8)
    ensures
        final(text)@ == old(text)@ + hex_byte(b),
{
    text.append(digit_text(b / 16));
    text.append(digit_text(b % 16));
    assert(text@ =~= old(text)@ + hex_byte(b));
}

pub open spec fn is_digit(c: char) -> bool {
    '0' <= c && c <= '9'
}

pub open spec fn all_digits(s: Seq<char>) -> bool {
    forall|i: int| 0 <= i < s.len() ==> is_digit(#[trigger] s[i])
}

/// The number that a sequence of decimal digits stands for.
pub open spec fn digits_value(s: Seq<char>) -> nat
    decreases s.len(),
{
    if s.len() == 0 {
        0
    } else {
        (10 * digits_value(s.drop_last()) + (s.last() as int - '0' as int)) as nat
    }
}

/// The number a text stands for: an optional plus sign and decimal digits only, of
/// a value that fits 32 bits.
pub open spec fn parsed_u32(s: Seq<char>) -> Option<u32> {
    let body = if s.len() > 0 && s[0] == '+' { s.skip(1) } else { s };
    if body.len() > 0 && all_digits(body) && digits_value(body) <= u32::MAX {
        Some(digits_value(body) as u32)
    } else {
        None
    }
}

proof fn digits_value_grows(s: Seq<char>, k: int)
    requires
        0 <= k <= s.len(),
        all_digits(s),
    ensures
        digits_value(s.take(k)) <= digits_value(s),
    decreases s.len() - k,
{
    if k < s.len() {
        assert(s.take(k + 1).drop_last() =~= s.take(k));
        digits_value_grows(s, k + 1);
    } else {
        assert(s.take(k) =~= s);
    }
}

/// Reads a number from a text.
pub fn parse_u32(s: &str) -> (r: Option<u32>)
    ensures
        r == parsed_u32(s@),
{
    let len = s.unicode_len();
    let start: usize = if len > 0 && s.get_char(0) == '+' { 1 } else { 0 };
    let ghost body = if s@.len() > 0 && s@[0] == '+' { s@.skip(1) } else { s@ };
    assert(body =~= s@.skip(start as int));
    if start == len {
        return None;
    }
    let mut value: u32 = 0;
    let mut i: usize = start;
    while i < len
        invariant
            start <= i <= len,
            len == s@.len(),
            body == (if s@.len() > 0 && s@[0] == '+' { s@.skip(1) } else { s@ }),
            body == s@.skip(start as int),
            all_digits(body.take(i - start)),
            value == digits_value(body.take(i - start)),
        decreases len - i,
    {
        let c = s.get_char(i);
        let ghost k = i - start;
        assert(body[k] == c);
        assert(body.take(k + 1).drop_last() =~= body.take(k));
        if c < '0' || c > '9' {
            assert(!is_digit(body[k]));
            return None;
        }
        let d = c as u32 - '0' as u32;
        assert(digits_value(body.take(k + 1)) == 10 * digits_value(body.take(k)) + d);
        if value > (u32::MAX - d) / 10 {
            proof {
                if all_digits(body) {
                    digits_value_grows(body, k + 1);
                }
            }
            return None;
        }
        value = value * 10 + d;
        assert(all_digits(body.take(k + 1))) by {
            assert forall|j: int| 0 <= j < k + 1 implies is_digit(#[trigger] body.take(k + 1)[j]) by {
                if j < k {
                    assert(body.take(k)[j] == body[j]);
                }
            }
        }
        i += 1;
    }
    assert(body.take(len - start) =~= body);
    Some(value)
}

proof fn decimal_reads_back(n: nat)
    ensures
        decimal(n).len() > 0,
        all_digits(decimal(n)),
        digits_value(decimal(n)) == n,
    decreases n,
{
    let s = decimal(n);
    if n < 10 {
        assert(s.drop_last() =~= seq![]);
        assert(digits_value(s.drop_last()) == 0);
    } else {
        decimal_reads_back(n / 10);
        assert(s.drop_last() =~= decimal(n / 10));
    }
}

/// A button number written in decimal notation reads back as the same number.
pub proof fn decimal_round_trip(n: u32)
    ensures
        parsed_u32(decimal(n as nat)) == Some(n),
{
    decimal_reads_back(n as nat);
    let s = decimal(n as nat);
    assert(is_digit(s[0]));
}

/// Different numbers have different decimal notations.
pub proof fn decimal_is_injective(a: u32, b: u32)
    requires
        decimal(a as nat) == decimal(b as nat),
    ensures
        a == b,
{
    decimal_round_trip(a);
    decimal_round_trip(b);
}

/// The decimal notation of a number has that number as its value.
pub proof fn decimal_has_its_value(n: u32)
    ensures
        digits_value(decimal(n as nat)) == n,
{
    decimal_reads_back(n as nat);
}

/// A letter of the Latin alphabet in lower case, any other character as it is.
pub open spec fn lower(c: char) -> char {
    if 'A' <= c && c <= 'Z' { ((c as u32) + 32) as char } else { c }
}

/// Whether two texts are the same but for the case of Latin letters.
pub open spec fn same_but_case(a: Seq<char>, b: Seq<char>) -> bool {
    a.len() == b.len() && forall|i: int| 0 <= i < a.len() ==> lower(#[trigger] a[i]) == lower(b[i])
}

fn lower_char(c: char) -> (r: u32)
    ensures
        r == lower(c) as u32,
{
    let n = c as u32;
    if 'A' <= c && c <= 'Z' {
        n + 32
    } else {
        n
    }
}

pub fn eq_ignore_ascii_case(a: &str, b: &str) -> (r: bool)
    ensures
        r == same_but_case(a@, b@),
{
    let len = a.unicode_len();
    if len != b.unicode_len() {
        return false;
    }
    let mut i: usize = 0;
    while i < len
        invariant
            i <= len,
            len == a@.len(),
            len == b@.len(),
            forall|k: int| 0 <= k < i ==> lower(#[trigger] a@[k]) == lower(b@[k]),
        decreases len - i,
    {
        if lower_char(a.get_char(i)) != lower_char(b.get_char(i)) {
            return false;
        }
        i += 1;
    }
    true
}

/// Whether two texts are equal.
pub fn same_text(a: &str, b: &str) -> (r: bool)
    ensures
        r == (a@ == b@),
{
    let len = a.unicode_len();
    if len != b.unicode_len() {
        return false;
    }
    let mut i: usize = 0;
    while i < len
        invariant
            i <= len,
            len == a@.len(),
            len == b@.len(),
            forall|k: int| 0 <= k < i ==> a@[k] == b@[k],
        decreases len - i,
    {
        if a.get_char(i) != b.get_char(i) {
            return false;
        }
        i += 1;
    }
    assert(a@ =~= b@);
    true
}

/// Digits are the ten figures and the first six letters, in their order.
pub proof fn digits_are_figures_and_letters(d: int)
    requires
        0 <= d < 16,
    ensures
        digit_char(0) == '0' && digit_char(9) == '9' && digit_char(10) == 'a' && digit_char(15)
            == 'f',
        d < 10 ==> digit_char(d) as int - '0' as int == d,
        d >= 10 ==> digit_char(d) as int - 'a' as int == d - 10,
        is_digit(digit_char(d)) <==> d < 10,
{
}

/// The last digit of a number is its remainder, and the digits before it are those of the
/// quotient; a number below the base has one digit.
pub proof fn numbers_end_with_their_remainder(n: nat, base: nat)
    requires
        2 <= base <= 16,
    ensures
        digits(n, base).len() >= 1,
        digits(n, base).last() == digit_char((n % base) as int),
        n < base ==> digits(n, base).len() == 1,
        n >= base ==> digits(n, base).drop_last() == digits(n / base, base),
        decimal(n) == digits(n, 10),
        hexadecimal(n) == digits(n, 16),
{
    if n < base {
        assert(n % base == n) by (nonlinear_arith)
            requires
                n < base,
        ;
    } else {
        assert(digits(n, base).drop_last() =~= digits(n / base, base));
    }
}

/// Two hexadecimal notations are equal only for equal numbers.
pub proof fn hexadecimal_is_injective(a: nat, b: nat)
    requires
        hexadecimal(a) == hexadecimal(b),
    ensures
        a == b,
    decreases a + b,
{
    numbers_end_with_their_remainder(a, 16);
    numbers_end_with_their_remainder(b, 16);
    assert(digit_char((a % 16) as int) == digit_char((b % 16) as int));
    assert(a % 16 == b % 16);
    if a < 16 || b < 16 {
        numbers_above_have_more_digits(a);
        numbers_above_have_more_digits(b);
    } else {
        assert(hexadecimal(a / 16) == hexadecimal(b / 16));
        hexadecimal_is_injective(a / 16, b / 16);
    }
}

proof fn numbers_above_have_more_digits(n: nat)
    ensures
        n >= 16 ==> hexadecimal(n).len() >= 2,
        n < 16 ==> hexadecimal(n).len() == 1,
{
    numbers_end_with_their_remainder(n, 16);
    if n >= 16 {
        numbers_end_with_their_remainder(n / 16, 16);
        assert(hexadecimal(n).len() == hexadecimal(n).drop_last().len() + 1);
    }
}

/// A negative number is its opposite with a sign before it.
pub proof fn negative_numbers_have_a_sign(n: nat)
    ensures
        signed(n as int) == decimal(n),
        n > 0 ==> signed(-n) == seq!['-'] + decimal(n),
{
}

/// Two digits tell tens and ones, and two hexadecimal digits the byte that they are written
/// for.
pub proof fn two_digits_tell_the_number(n: int, a: u8, b: u8)
    requires
        0 <= n < 100,
    ensures
        two_digits(n).len() == 2,
        all_digits(two_digits(n)),
        digits_value(two_digits(n)) == n,
        hex_byte(a).len() == 2,
        hex_byte(a)[0] == digit_char(a as int / 16),
        hex_byte(a)[1] == digit_char(a as int % 16),
        a >= 16 ==> hex_byte(a) == hexadecimal(a as nat),
        a < 16 ==> hex_byte(a) == seq!['0'] + hexadecimal(a as nat),
        hex_byte(a) == hex_byte(b) ==> a == b,
{
    let s = two_digits(n);
    assert(s.drop_last().drop_last() =~= seq![]);
    assert(s.drop_last().last() == digit_char(n / 10));
    reveal_with_fuel(digits_value, 3);
    reveal_with_fuel(digits, 2);
    if a >= 16 {
        assert(hex_byte(a) =~= hexadecimal(a as nat));
    } else {
        assert(hex_byte(a) =~= seq!['0'] + hexadecimal(a as nat));
    }
    if hex_byte(a) == hex_byte(b) {
        assert(hex_byte(a)[0] == hex_byte(b)[0]);
        assert(hex_byte(a)[1] == hex_byte(b)[1]);
    }
}

/// A text is read as a number if it is made of digits, with a plus sign before them or none,
/// and the number fits; nothing else is.
pub proof fn only_digits_are_read(s: Seq<char>, i: int)
    ensures
        s.len() == 0 ==> parsed_u32(s) is None,
        0 < i < s.len() && !is_digit(s[i]) ==> parsed_u32(s) is None,
        s.len() > 0 && s[0] != '+' && !is_digit(s[0]) ==> parsed_u32(s) is None,
        s.len() > 0 && all_digits(s) && digits_value(s) <= u32::MAX ==> parsed_u32(s) == Some(
            digits_value(s) as u32,
        ),
        s.len() > 0 && all_digits(s) && digits_value(s) > u32::MAX ==> parsed_u32(s) is None,
        s.len() > 0 && all_digits(s) ==> parsed_u32(seq!['+'] + s) == parsed_u32(s),
        s == seq!['+'] ==> parsed_u32(s) is None,
        is_digit('0') && is_digit('9') && !is_digit('+') && !is_digit('-'),
{
    let body = if s.len() > 0 && s[0] == '+' { s.skip(1) } else { s };
    if 0 < i < s.len() && !is_digit(s[i]) {
        if s[0] == '+' {
            assert(body[i - 1] == s[i]);
        } else {
            assert(body[i] == s[i]);
        }
    }
    if s.len() > 0 && all_digits(s) {
        assert(is_digit(s[0]));
        assert((seq!['+'] + s).skip(1) =~= s);
    }
    if s.len() > 0 && s[0] != '+' && !is_digit(s[0]) {
        assert(!is_digit(body[0]));
    }
}

/// Each further digit counts the ones before it ten times.
pub proof fn digits_count_by_ten(s: Seq<char>, c: char)
    requires
        is_digit(c),
    ensures
        digits_value(s.push(c)) == 10 * digits_value(s) + (c as int - '0' as int),
        digits_value(seq![]) == 0,
{
    assert(s.push(c).drop_last() =~= s);
}

/// Capital letters count as small ones, and nothing else changes.
pub proof fn only_capitals_are_lowered(c: char)
    ensures
        'A' <= c <= 'Z' ==> lower(c) as int - 'a' as int == c as int - 'A' as int,
        !('A' <= c <= 'Z') ==> lower(c) == c,
        lower(lower(c)) == lower(c),
{
}

/// Being the same but for case does not depend on the order, holds between a text and itself,
/// and goes from one text over another to a third.
pub proof fn sameness_is_an_equivalence(a: Seq<char>, b: Seq<char>, c: Seq<char>)
    ensures
        same_but_case(a, a),
        same_but_case(a, b) ==> same_but_case(b, a),
        same_but_case(a, b) && same_but_case(b, c) ==> same_but_case(a, c),
        same_but_case(a, b) ==> a.len() == b.len(),
{
    if same_but_case(a, b) {
        assert forall|i: int| 0 <= i < b.len() implies lower(#[trigger] b[i]) == lower(a[i]) by {
            assert(lower(a[i]) == lower(b[i]));
        }
        if same_but_case(b, c) {
            assert forall|i: int| 0 <= i < a.len() implies lower(#[trigger] a[i]) == lower(c[i]) by {
                assert(lower(b[i]) == lower(c[i]));
            }
        }
    }
}

} // verus!
