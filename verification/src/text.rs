//! Small operations on text that the rest of the library is built from.

use vstd::prelude::*;
use vstd::string::*;

verus! {

/// `name` is one of `list`.
pub open spec fn lists(list: Seq<String>, name: Seq<char>) -> bool {
    exists|i: int| 0 <= i < list.len() && #[trigger] list[i]@ == name
}

/// Whether two texts are the same, character for character.
pub fn same_text(a: &str, b: &str) -> (same: bool)
    ensures
        same == (a@ == b@),
{
    let left: String = a.to_owned();
    let right: String = b.to_owned();
    left == right
}

/// Whether `wanted` is one of `list`.
pub fn lists_text(list: &Vec<String>, wanted: &str) -> (found: bool)
    ensures
        found == lists(list@, wanted@),
{
    let mut i: usize = 0;
    while i < list.len()
        invariant
            i <= list.len(),
            forall|j: int| 0 <= j < i ==> #[trigger] list@[j]@ != wanted@,
        decreases list.len() - i,
    {
        if same_text(list[i].as_str(), wanted) {
            return true;
        }
        i = i + 1;
    }
    false
}

/// Whether `text` begins with `prefix`.
pub fn begins_with(text: &str, prefix: &str) -> (begins: bool)
    ensures
        begins == prefix@.is_prefix_of(text@),
{
    let n: usize = prefix.unicode_len();
    if text.unicode_len() < n {
        return false;
    }
    let head: &str = text.substring_char(0, n);
    let same: bool = same_text(head, prefix);
    proof {
        if same {
            assert(text@.subrange(0, n as int) =~= prefix@);
        } else if prefix@.is_prefix_of(text@) {
            assert(text@.subrange(0, n as int) =~= prefix@);
        }
    }
    same
}

/// The character that stands for the digit `d`.
pub open spec fn digit_char(d: int) -> char {
    if d == 0 {
        '0'
    } else if d == 1 {
        '1'
    } else if d == 2 {
        '2'
    } else if d == 3 {
        '3'
    } else if d == 4 {
        '4'
    } else if d == 5 {
        '5'
    } else if d == 6 {
        '6'
    } else if d == 7 {
        '7'
    } else if d == 8 {
        '8'
    } else {
        '9'
    }
}

/// The decimal numeral of `n`, without leading zeros.
pub open spec fn decimal_text(n: nat) -> Seq<char>
    decreases n,
{
    if n < 10 {
        seq![digit_char(n as int)]
    } else {
        decimal_text(n / 10).push(digit_char((n % 10) as int))
    }
}

/// The decimal numeral of `n`, with a minus sign where it is negative.
pub open spec fn signed_decimal_text(n: int) -> Seq<char> {
    if n < 0 {
        seq!['-'] + decimal_text((-n) as nat)
    } else {
        decimal_text(n as nat)
    }
}

/// The one-character text of the digit `d`.
fn digit_text(d: u64) -> (text: &'static str)
    requires
        d < 10,
    ensures
        text@ == seq![digit_char(d as int)],
{
    proof {
        reveal_strlit("0");
        reveal_strlit("1");
        reveal_strlit("2");
        reveal_strlit("3");
        reveal_strlit("4");
        reveal_strlit("5");
        reveal_strlit("6");
        reveal_strlit("7");
        reveal_strlit("8");
        reveal_strlit("9");
    }
    let text: &'static str = if d == 0 {
        "0"
    } else if d == 1 {
        "1"
    } else if d == 2 {
        "2"
    } else if d == 3 {
        "3"
    } else if d == 4 {
        "4"
    } else if d == 5 {
        "5"
    } else if d == 6 {
        "6"
    } else if d == 7 {
        "7"
    } else if d == 8 {
        "8"
    } else {
        "9"
    };
    assert(text@ =~= seq![digit_char(d as int)]);
    text
}

/// Writes `n` as a decimal numeral.
pub fn decimal(n: u64) -> (text: String)
    ensures
        text@ == decimal_text(n as nat),
    decreases n,
{
    if n < 10 {
        digit_text(n).to_owned()
    } else {
        let mut text: String = decimal(n / 10);
        text.append(digit_text(n % 10));
        assert(text@ =~= decimal_text((n / 10) as nat).push(digit_char((n % 10) as int)));
        text
    }
}

/// Writes `n` as a decimal numeral, with a minus sign where it is negative.
pub fn signed_decimal(n: i64) -> (text: String)
    ensures
        text@ == signed_decimal_text(n as int),
{
    if n < 0 {
        let magnitude: u64 = if n == i64::MIN {
            9_223_372_036_854_775_808u64
        } else {
            (-n) as u64
        };
        proof {
            reveal_strlit("-");
        }
        let mut text: String = "-".to_owned();
        let digits: String = decimal(magnitude);
        text.append(digits.as_str());
        assert(text@ =~= seq!['-'] + decimal_text((-n) as nat));
        text
    } else {
        decimal(n as u64)
    }
}

/// Joins two texts.
pub fn joined(first: &str, second: &str) -> (text: String)
    ensures
        text@ == first@ + second@,
{
    let mut text: String = first.to_owned();
    text.append(second);
    text
}

/// `c` is one of the ten digits.
pub open spec fn is_digit(c: char) -> bool {
    '0' <= c && c <= '9'
}

/// The number that the digit `c` stands for.
pub open spec fn digit_value(c: char) -> int {
    c as int - 48
}

/// Every character of `text` is a digit.
pub open spec fn all_digits(text: Seq<char>) -> bool {
    forall|i: int| 0 <= i < text.len() ==> is_digit(#[trigger] text[i])
}

/// The number that a run of digits stands for.
pub open spec fn digits_value(digits: Seq<char>) -> int
    decreases digits.len(),
{
    if digits.len() == 0 {
        0
    } else {
        10 * digits_value(digits.drop_last()) + digit_value(digits.last())
    }
}

/// `text` begins with a plus or a minus sign.
pub open spec fn has_sign(text: Seq<char>) -> bool {
    text.len() > 0 && (text[0] == '+' || text[0] == '-')
}

/// The digits of a numeral: all of it but its sign.
pub open spec fn digits_of(text: Seq<char>) -> Seq<char> {
    if has_sign(text) {
        text.skip(1)
    } else {
        text
    }
}

/// `text` is a numeral: an optional sign, then at least one digit, and
/// nothing else.
pub open spec fn is_numeral(text: Seq<char>) -> bool {
    digits_of(text).len() > 0 && all_digits(digits_of(text))
}

/// The integer that `text` names, if it is a numeral.
pub open spec fn integer_named(text: Seq<char>) -> Option<int> {
    if !is_numeral(text) {
        None
    } else if text[0] == '-' {
        Some(-digits_value(digits_of(text)))
    } else {
        Some(digits_value(digits_of(text)))
    }
}

/// The `i32` that `text` names: the integer it names, if that fits.
pub open spec fn i32_named(text: Seq<char>) -> Option<i32> {
    match integer_named(text) {
        Some(v) => if i32::MIN <= v <= i32::MAX {
            Some(v as i32)
        } else {
            None
        },
        None => None,
    }
}

/// The `u16` that `text` names: the integer it names, if that fits and
/// `text` has no minus sign.
pub open spec fn u16_named(text: Seq<char>) -> Option<u16> {
    match integer_named(text) {
        Some(v) => if text[0] != '-' && v <= u16::MAX {
            Some(v as u16)
        } else {
            None
        },
        None => None,
    }
}

/// The smaller of two numbers.
pub open spec fn at_most(a: int, b: int) -> int {
    if a <= b {
        a
    } else {
        b
    }
}

/// A text with a character beyond ASCII in it is no numeral.
proof fn lemma_numerals_are_ascii(text: Seq<char>)
    requires
        is_numeral(text),
    ensures
        vstd::utf8::is_ascii_chars(text),
{
    let digits = digits_of(text);
    assert forall|i: int| 0 <= i < text.len() implies '\0' <= #[trigger] text[i] <= '\u{7f}' by {
        if has_sign(text) {
            if i > 0 {
                assert(is_digit(digits[i - 1]));
            }
        } else {
            assert(is_digit(digits[i]));
        }
    }
}

/// A run of digits stands for a number that is not negative, and a longer
/// run stands for at least ten times as much.
proof fn lemma_digits_value_grows(digits: Seq<char>)
    requires
        all_digits(digits),
    ensures
        0 <= digits_value(digits),
        digits.len() > 0 ==> digits_value(digits) == 10 * digits_value(digits.drop_last())
            + digit_value(digits.last()),
        digits.len() > 0 ==> 0 <= digit_value(digits.last()) <= 9,
    decreases digits.len(),
{
    if digits.len() > 0 {
        assert(is_digit(digits[digits.len() - 1]));
        assert(all_digits(digits.drop_last())) by {
            assert forall|i: int| 0 <= i < digits.drop_last().len() implies is_digit(
                #[trigger] digits.drop_last()[i],
            ) by {
                assert(is_digit(digits[i]));
            }
        }
        lemma_digits_value_grows(digits.drop_last());
    }
}

/// Reads a numeral: whether it has a minus sign, and the number that its
/// digits stand for, or `cap` where that number is larger.
fn read_numeral(text: &str, cap: i64) -> (read: Option<(bool, i64)>)
    requires
        0 <= cap <= 0xffff_ffff_ffff,
    ensures
        read is Some <==> is_numeral(text@),
        read matches Some((negative, magnitude)) ==> negative == (text@[0] == '-') && magnitude
            == at_most(digits_value(digits_of(text@)), cap as int) && 0 <= magnitude <= cap,
{
    if !text.is_ascii() {
        proof {
            if is_numeral(text@) {
                lemma_numerals_are_ascii(text@);
            }
        }
        return None;
    }
    let n: usize = text.unicode_len();
    if n == 0 {
        return None;
    }
    let first: u8 = text.get_ascii(0);
    let negative: bool = first == 45;
    let start: usize = if first == 45 || first == 43 {
        1
    } else {
        0
    };
    assert(has_sign(text@) == (start == 1));
    assert(digits_of(text@) =~= text@.subrange(start as int, n as int));
    if start == n {
        return None;
    }
    let mut magnitude: i64 = 0;
    let mut i: usize = start;
    assert(text@.subrange(start as int, start as int) =~= Seq::<char>::empty());
    while i < n
        invariant
            start <= i <= n,
            n == text@.len(),
            text.is_ascii(),
            0 <= cap <= 0xffff_ffff_ffff,
            negative == (text@[0] == '-'),
            digits_of(text@) == text@.subrange(start as int, n as int),
            all_digits(text@.subrange(start as int, i as int)),
            0 <= magnitude <= cap,
            magnitude == at_most(digits_value(text@.subrange(start as int, i as int)), cap as int),
        decreases n - i,
    {
        let b: u8 = text.get_ascii(i);
        let ghost before = text@.subrange(start as int, i as int);
        let ghost after = text@.subrange(start as int, i + 1);
        proof {
            assert(after.drop_last() =~= before);
            assert(after.last() == text@[i as int]);
            lemma_digits_value_grows(before);
        }
        if b < 48 || b > 57 {
            proof {
                let rest = text@.subrange(start as int, n as int);
                assert(rest[i - start] == text@[i as int]);
                assert(!is_digit(rest[i - start]));
            }
            return None;
        }
        proof {
            assert(is_digit(text@[i as int]));
            assert(all_digits(after)) by {
                assert forall|j: int| 0 <= j < after.len() implies is_digit(#[trigger] after[j]) by {
                    if j < before.len() {
                        assert(is_digit(before[j]));
                    }
                }
            }
            lemma_digits_value_grows(after);
        }
        let digit: i64 = (b - 48) as i64;
        let next: i64 = magnitude * 10 + digit;
        magnitude = if next > cap {
            cap
        } else {
            next
        };
        i = i + 1;
    }
    Some((negative, magnitude))
}

/// Reads `text` as an `i32`: an optional sign and digits, nothing else.
pub fn parse_i32(text: &str) -> (number: Option<i32>)
    ensures
        number == i32_named(text@),
{
    match read_numeral(text, 2_147_483_649) {
        Some((negative, magnitude)) => {
            let value: i64 = if negative {
                -magnitude
            } else {
                magnitude
            };
            if value < -2_147_483_648 || value > 2_147_483_647 {
                None
            } else {
                Some(value as i32)
            }
        },
        None => None,
    }
}

/// Reads `text` as a `u16`: an optional plus sign and digits, nothing else.
pub fn parse_u16(text: &str) -> (number: Option<u16>)
    ensures
        number == u16_named(text@),
{
    match read_numeral(text, 65_536) {
        Some((negative, magnitude)) => {
            if negative || magnitude > 65_535 {
                None
            } else {
                Some(magnitude as u16)
            }
        },
        None => None,
    }
}

/// The digit that is written for a number below ten stands for that number.
pub proof fn lemma_digit_reads_back(d: int)
    requires
        0 <= d <= 9,
    ensures
        is_digit(digit_char(d)),
        digit_value(digit_char(d)) == d,
{
}

/// A numeral that was written for a number is made of digits only, and
/// they stand for that number.
pub proof fn lemma_decimal_reads_back(n: nat)
    ensures
        decimal_text(n).len() > 0,
        all_digits(decimal_text(n)),
        digits_value(decimal_text(n)) == n,
    decreases n,
{
    let text = decimal_text(n);
    if n < 10 {
        lemma_digit_reads_back(n as int);
        assert(text.drop_last() =~= Seq::<char>::empty());
        assert(text.last() == digit_char(n as int));
        assert(digits_value(Seq::<char>::empty()) == 0);
        assert(digits_value(text) == 10 * digits_value(text.drop_last()) + digit_value(
            text.last(),
        ));
    } else {
        lemma_decimal_reads_back(n / 10);
        lemma_digit_reads_back((n % 10) as int);
        assert(text.drop_last() =~= decimal_text(n / 10));
        assert(text.last() == digit_char((n % 10) as int));
        assert(digits_value(text) == 10 * digits_value(text.drop_last()) + digit_value(
            text.last(),
        ));
        assert forall|i: int| 0 <= i < text.len() implies is_digit(#[trigger] text[i]) by {
            if i < text.len() - 1 {
                assert(text[i] == decimal_text(n / 10)[i]);
            }
        }
    }
}

/// What is written for an integer is read back as that integer.
pub proof fn lemma_written_integer_reads_back(n: int)
    ensures
        integer_named(signed_decimal_text(n)) == Some(n),
{
    let text = signed_decimal_text(n);
    if n < 0 {
        let digits = decimal_text((-n) as nat);
        lemma_decimal_reads_back((-n) as nat);
        assert(text[0] == '-');
        assert(digits_of(text) =~= digits);
    } else {
        lemma_decimal_reads_back(n as nat);
        assert(is_digit(text[0]));
    }
}

/// An id that was written into a text is read back from it unchanged.
pub proof fn lemma_written_id_reads_back(id: i32)
    ensures
        i32_named(signed_decimal_text(id as int)) == Some(id),
{
    lemma_written_integer_reads_back(id as int);
}

} // verus!
