//! Small verified pieces of text building.

use vstd::prelude::*;
use vstd::string::*;

verus! {

/// The character of a decimal digit.
pub open spec fn digit_char(digit: nat) -> char {
    if digit == 0 {
        '0'
    } else if digit == 1 {
        '1'
    } else if digit == 2 {
        '2'
    } else if digit == 3 {
        '3'
    } else if digit == 4 {
        '4'
    } else if digit == 5 {
        '5'
    } else if digit == 6 {
        '6'
    } else if digit == 7 {
        '7'
    } else if digit == 8 {
        '8'
    } else {
        '9'
    }
}

/// The decimal digits of a natural number.
pub open spec fn decimal(n: nat) -> Seq<char>
    decreases n,
{
    if n < 10 {
        seq![digit_char(n)]
    } else {
        decimal(n / 10).push(digit_char(n % 10))
    }
}

/// The decimal notation of an integer, with a minus sign where it is negative.
pub open spec fn signed_decimal(n: int) -> Seq<char> {
    if n < 0 {
        "-"@ + decimal((-n) as nat)
    } else {
        decimal(n as nat)
    }
}

fn digit_text(digit: u64) -> (r: &'static str)
    requires
        digit < 10,
    ensures
        r@ == seq![digit_char(digit as nat)],
{
    proof {
        reveal_strlit("0");
        reveal_strlit("1");
        reveal_strlit("2");
        reveal_strlit("3");
        reveal_strlit("4");
        reveal_strlit("5");
        reveal_strlit("6");
        reveal_strlit("7");
        reveal_strlit("8");
        reveal_strlit("9");
    }
    match digit {
        0 => "0",
        1 => "1",
        2 => "2",
        3 => "3",
        4 => "4",
        5 => "5",
        6 => "6",
        7 => "7",
        8 => "8",
        _ => "9",
    }
}

pub fn u64_to_text(n: u64) -> (r: String)
    ensures
        r@ == decimal(n as nat),
    decreases n,
{
    if n < 10 {
        String::from_str(digit_text(n))
    } else {
        let mut text = u64_to_text(n / 10);
        text.append(digit_text(n % 10));
        text
    }
}

pub fn u32_to_text(n: u32) -> (r: String)
    ensures
        r@ == decimal(n as nat),
{
    u64_to_text(n as u64)
}

pub fn i32_to_text(n: i32) -> (r: String)
    ensures
        r@ == signed_decimal(n as int),
{
    if n < 0 {
        let magnitude: u64 = (-(n as i64)) as u64;
        concat("-", u64_to_text(magnitude).as_str())
    } else {
        u64_to_text(n as u64)
    }
}

pub fn i64_to_text(n: i64) -> (r: String)
    ensures
        r@ == signed_decimal(n as int),
{
    if n < 0 {
        let magnitude: u64 = (-(n + 1)) as u64 + 1;
        concat("-", u64_to_text(magnitude).as_str())
    } else {
        u64_to_text(n as u64)
    }
}

pub fn concat(a: &str, b: &str) -> (r: String)
    ensures
        r@ == a@ + b@,
{
    let mut text = String::from_str(a);
    text.append(b);
    text
}

pub fn concat3(a: &str, b: &str, c: &str) -> (r: String)
    ensures
        r@ == a@ + b@ + c@,
{
    let mut text = concat(a, b);
    text.append(c);
    text
}

pub fn concat4(a: &str, b: &str, c: &str, d: &str) -> (r: String)
    ensures
        r@ == a@ + b@ + c@ + d@,
{
    let mut text = concat3(a, b, c);
    text.append(d);
    text
}

/// Whether two pieces of text are the same.
pub fn same_text(a: &str, b: &str) -> (r: bool)
    ensures
        r == (a@ == b@),
{
    String::from_str(a) == String::from_str(b)
}

/// Whether a character is white space: it has the property White_Space of Unicode.
pub open spec fn is_white(c: char) -> bool {
    let code = c as u32;
    ||| 9 <= code <= 13
    ||| code == 32
    ||| code == 0x85
    ||| code == 0xa0
    ||| code == 0x1680
    ||| 0x2000 <= code <= 0x200a
    ||| code == 0x2028
    ||| code == 0x2029
    ||| code == 0x202f
    ||| code == 0x205f
    ||| code == 0x3000
}

fn is_white_space(c: char) -> (r: bool)
    ensures
        r == is_white(c),
{
    let code: u32 = c as u32;
    (9 <= code && code <= 13) || code == 32 || code == 0x85 || code == 0xa0 || code == 0x1680 || (
    0x2000 <= code && code <= 0x200a) || code == 0x2028 || code == 0x2029 || code == 0x202f || code
        == 0x205f || code == 0x3000
}

/// Whether `to` is where a text ends once the white space behind it is dropped.
pub open spec fn is_trimmed_end(text: Seq<char>, to: int) -> bool {
    &&& 0 <= to <= text.len()
    &&& forall|i: int| to <= i < text.len() ==> is_white(#[trigger] text[i])
    &&& to > 0 ==> !is_white(text[to - 1])
}

/// Whether `from` is where a text starts once the white space before it is dropped.
pub open spec fn is_trimmed_start(text: Seq<char>, from: int) -> bool {
    &&& 0 <= from <= text.len()
    &&& forall|i: int| 0 <= i < from ==> is_white(#[trigger] text[i])
    &&& from < text.len() ==> !is_white(text[from])
}

/// A text without the white space at both of its ends.
pub open spec fn trimmed(text: Seq<char>) -> Seq<char> {
    let end = choose|to: int| is_trimmed_end(text, to);
    let kept = text.take(end);
    kept.skip(choose|from: int| is_trimmed_start(kept, from))
}

proof fn lemma_trimmed(text: Seq<char>, from: int, to: int)
    requires
        is_trimmed_end(text, to),
        is_trimmed_start(text.take(to), from),
    ensures
        trimmed(text) == text.subrange(from, to),
{
    let end = choose|end: int| is_trimmed_end(text, end);
    assert(is_trimmed_end(text, end));
    assert(end == to) by {
        if end < to {
            assert(is_white(text[to - 1]));
        }
        if to < end {
            assert(is_white(text[end - 1]));
        }
    }
    let kept = text.take(to);
    let start = choose|start: int| is_trimmed_start(kept, start);
    assert(is_trimmed_start(kept, start));
    assert(start == from) by {
        if start < from {
            assert(is_white(kept[start]));
        }
        if from < start {
            assert(is_white(kept[from]));
        }
    }
    assert(kept.skip(from) =~= text.subrange(from, to));
}

/// A copy of a text without the white space at both of its ends.
pub fn trim(text: &str) -> (r: String)
    ensures
        r@ == trimmed(text@),
{
    let len: usize = text.unicode_len();
    let mut to: usize = len;
    while to > 0 && is_white_space(text.get_char(to - 1))
        invariant
            to <= len,
            len == text@.len(),
            forall|i: int| to <= i < len ==> is_white(#[trigger] text@[i]),
        decreases to,
    {
        to = to - 1;
    }
    let mut from: usize = 0;
    while from < to && is_white_space(text.get_char(from))
        invariant
            from <= to <= len,
            len == text@.len(),
            forall|i: int| 0 <= i < from ==> is_white(#[trigger] text@[i]),
        decreases to - from,
    {
        from = from + 1;
    }
    proof {
        assert(is_trimmed_end(text@, to as int));
        assert(is_trimmed_start(text@.take(to as int), from as int));
        lemma_trimmed(text@, from as int, to as int);
    }
    String::from_str(text.substring_char(from, to))
}

/// What follows a prefix in a text that starts with it.
pub open spec fn after_prefix(text: Seq<char>, prefix: Seq<char>) -> Option<Seq<char>> {
    if prefix.is_prefix_of(text) {
        Some(text.skip(prefix.len() as int))
    } else {
        None
    }
}

/// What follows a prefix, where the text starts with it.
pub fn strip_prefix(text: &str, prefix: &str) -> (r: Option<String>)
    ensures
        crate::collections::opt_view(r) == after_prefix(text@, prefix@),
{
    let len: usize = text.unicode_len();
    let prefix_len: usize = prefix.unicode_len();
    if prefix_len > len {
        return None;
    }
    assert(text@.subrange(0, prefix_len as int) == prefix@ ==> prefix@.is_prefix_of(text@));
    if same_text(text.substring_char(0, prefix_len), prefix) {
        assert(text@.subrange(prefix_len as int, len as int) =~= text@.skip(prefix_len as int));
        Some(String::from_str(text.substring_char(prefix_len, len)))
    } else {
        assert(prefix@.is_prefix_of(text@) ==> text@.subrange(0, prefix_len as int) =~= prefix@);
        None
    }
}

/// The upper case of an ASCII letter; any other character stays.
pub open spec fn upper_char(c: char) -> char {
    if 'a' <= c <= 'z' {
        ((c as u32 - 32) as u32) as char
    } else {
        c
    }
}

/// A text with its ASCII letters in upper case.
pub open spec fn upper_text(text: Seq<char>) -> Seq<char> {
    Seq::new(text.len(), |i: int| upper_char(text[i]))
}

/// The upper-case letter at a place of the alphabet.
fn upper_letter(place: usize) -> (r: &'static str)
    requires
        place < 26,
    ensures
        r@ == seq![((65 + place) as u32) as char],
{
    proof {
        reveal_strlit("ABCDEFGHIJKLMNOPQRSTUVWXYZ");
    }
    let letter: &'static str = "ABCDEFGHIJKLMNOPQRSTUVWXYZ".substring_char(place, place + 1);
    assert(letter@ =~= seq![((65 + place) as u32) as char]);
    letter
}

/// A text with its ASCII letters in upper case.
pub(crate) fn to_upper(text: &str) -> (r: String)
    ensures
        r@ == upper_text(text@),
{
    let len: usize = text.unicode_len();
    let mut upper = String::new();
    let mut i: usize = 0;
    while i < len
        invariant
            i <= len,
            len == text@.len(),
            upper@ == upper_text(text@.take(i as int)),
        decreases len - i,
    {
        let c: char = text.get_char(i);
        if 'a' <= c && c <= 'z' {
            upper.append(upper_letter((c as u32 - 97) as usize));
        } else {
            upper.append(text.substring_char(i, i + 1));
        }
        i = i + 1;
        assert(upper@ =~= upper_text(text@.take(i as int)));
    }
    assert(text@.take(i as int) =~= text@);
    upper
}

/// The value of a decimal digit.
pub open spec fn digit_value(c: char) -> Option<nat> {
    if '0' <= c <= '9' {
        Some((c as u32 - 48) as nat)
    } else {
        None
    }
}

/// The natural number that decimal digits stand for; none where something else is among them.
pub open spec fn digits_value(text: Seq<char>) -> Option<nat>
    decreases text.len(),
{
    if text.len() == 0 {
        Some(0)
    } else {
        match (digits_value(text.drop_last()), digit_value(text.last())) {
            (Some(front), Some(digit)) => Some(front * 10 + digit),
            _ => None,
        }
    }
}

/// The natural number that a text stands for: one or more decimal digits, with or without a plus
/// sign before them.
pub open spec fn number_value(text: Seq<char>) -> Option<nat> {
    let digits = if text.len() > 0 && text[0] == '+' {
        text.skip(1)
    } else {
        text
    };
    if digits.len() == 0 {
        None
    } else {
        digits_value(digits)
    }
}

/// A number that no digit can bring back into range.
proof fn lemma_digits_grow(text: Seq<char>, upto: int)
    requires
        0 <= upto <= text.len(),
    ensures
        digits_value(text.take(upto)) is None ==> digits_value(text) is None,
        digits_value(text.take(upto)) matches Some(front) ==> (digits_value(text) matches Some(all)
            ==> all >= front),
    decreases text.len() - upto,
{
    if upto < text.len() {
        assert(text.take(upto + 1).drop_last() =~= text.take(upto));
        lemma_digits_grow(text, upto + 1);
    } else {
        assert(text.take(upto) =~= text);
    }
}

/// Reads a natural number that is not larger than `limit`.
pub fn parse_number(text: &str, limit: u64) -> (r: Option<u64>)
    ensures
        r == match number_value(text@) {
            Some(value) => if value <= limit {
                Some(value as u64)
            } else {
                None
            },
            None => None,
        },
{
    let len: usize = text.unicode_len();
    if len == 0 {
        return None;
    }
    let start: usize = if text.get_char(0) == '+' {
        1
    } else {
        0
    };
    let ghost digits = text@.skip(start as int);
    assert(start == 0 ==> digits =~= text@);
    if start == len {
        return None;
    }
    let mut value: u64 = 0;
    let mut i: usize = start;
    assert(digits.take(0) =~= Seq::<char>::empty());
    while i < len
        invariant
            start <= i <= len,
            len == text@.len(),
            digits == text@.skip(start as int),
            number_value(text@) == digits_value(digits),
            digits_value(digits.take(i - start)) == Some(value as nat),
        decreases len - i,
    {
        let c: char = text.get_char(i);
        assert(digits.take(i - start + 1).drop_last() =~= digits.take(i - start));
        assert(digits.take(i - start + 1).last() == c);
        proof {
            lemma_digits_grow(digits, i - start + 1);
        }
        if !('0' <= c && c <= '9') {
            return None;
        }
        let digit: u64 = (c as u32 - 48) as u64;
        if value > (u64::MAX - digit) / 10 {
            return None;
        }
        value = value * 10 + digit;
        i = i + 1;
    }
    assert(digits.take(i - start) =~= digits);
    if value <= limit {
        Some(value)
    } else {
        None
    }
}

/// The words of a text that are complete, and the one that is still open at its end.
pub open spec fn words_read(text: Seq<char>) -> (Seq<Seq<char>>, Seq<char>)
    decreases text.len(),
{
    if text.len() == 0 {
        (Seq::empty(), Seq::empty())
    } else {
        let (done, open) = words_read(text.drop_last());
        if !is_white(text.last()) {
            (done, open.push(text.last()))
        } else if open.len() > 0 {
            (done.push(open), Seq::empty())
        } else {
            (done, open)
        }
    }
}

/// The words of a text: its pieces between white space.
pub open spec fn words_of(text: Seq<char>) -> Seq<Seq<char>> {
    let (done, open) = words_read(text);
    if open.len() > 0 {
        done.push(open)
    } else {
        done
    }
}

/// The words of a text.
pub fn split_words(text: &str) -> (r: Vec<String>)
    ensures
        crate::collections::views(r@) == words_of(text@),
{
    broadcast use {
        crate::collections::lemma_views_empty,
        crate::collections::lemma_views_push,
    };

    let len: usize = text.unicode_len();
    let mut words: Vec<String> = Vec::new();
    let mut start: usize = 0;
    let mut i: usize = 0;
    assert(text@.take(0) =~= Seq::<char>::empty());
    assert(text@.subrange(0, 0) =~= Seq::<char>::empty());
    while i < len
        invariant
            start <= i <= len,
            len == text@.len(),
            words_read(text@.take(i as int)) == (
                crate::collections::views(words@),
                text@.subrange(start as int, i as int),
            ),
        decreases len - i,
    {
        broadcast use {
            crate::collections::lemma_views_empty,
            crate::collections::lemma_views_push,
        };

        assert(text@.take(i + 1).drop_last() =~= text@.take(i as int));
        assert(text@.take(i + 1).last() == text@[i as int]);
        if is_white_space(text.get_char(i)) {
            if start < i {
                words.push(String::from_str(text.substring_char(start, i)));
            }
            start = i + 1;
            assert(text@.subrange(start as int, i + 1) =~= Seq::<char>::empty());
        } else {
            assert(text@.subrange(start as int, i + 1) =~= text@.subrange(
                start as int,
                i as int,
            ).push(text@[i as int]));
        }
        i = i + 1;
    }
    assert(text@.take(len as int) =~= text@);
    if start < len {
        words.push(String::from_str(text.substring_char(start, len)));
    }
    words
}

/// What follows the last place at which a text holds two characters in a row.
pub open spec fn after_last_pair(text: Seq<char>, first: char, second: char, upto: int) -> Option<Seq<char>>
    decreases upto,
{
    if upto < 2 {
        None
    } else if text[upto - 2] == first && text[upto - 1] == second {
        Some(text.skip(upto))
    } else {
        after_last_pair(text, first, second, upto - 1)
    }
}

/// What follows the last place at which a text holds two characters in a row.
pub fn split_after_last_pair(text: &str, first: char, second: char) -> (r: Option<String>)
    ensures
        crate::collections::opt_view(r) == after_last_pair(
            text@,
            first,
            second,
            text@.len() as int,
        ),
{
    let len: usize = text.unicode_len();
    let mut upto: usize = len;
    while upto >= 2
        invariant
            upto <= len,
            len == text@.len(),
            after_last_pair(text@, first, second, len as int) == after_last_pair(
                text@,
                first,
                second,
                upto as int,
            ),
        decreases upto,
    {
        if text.get_char(upto - 2) == first && text.get_char(upto - 1) == second {
            assert(text@.subrange(upto as int, len as int) =~= text@.skip(upto as int));
            return Some(String::from_str(text.substring_char(upto, len)));
        }
        upto = upto - 1;
    }
    None
}

/// The integer that a text stands for: one or more decimal digits, with or without a sign before
/// them.
pub open spec fn integer_value(text: Seq<char>) -> Option<int> {
    if text.len() > 0 && text[0] == '-' {
        let digits = text.skip(1);
        if digits.len() == 0 {
            None
        } else {
            match digits_value(digits) {
                Some(value) => Some(-value),
                None => None,
            }
        }
    } else {
        match number_value(text) {
            Some(value) => Some(value as int),
            None => None,
        }
    }
}

/// Reads an integer.
pub fn parse_integer(text: &str) -> (r: Option<i64>)
    ensures
        r == match integer_value(text@) {
            Some(value) => if i64::MIN <= value <= i64::MAX {
                Some(value as i64)
            } else {
                None
            },
            None => None,
        },
{
    let len: usize = text.unicode_len();
    if len > 0 && text.get_char(0) == '-' {
        let digits = text.substring_char(1, len);
        assert(digits@ =~= text@.skip(1));
        if len > 1 && digits.get_char(0) == '+' {
            proof {
                lemma_digits_grow(digits@, 1);
                assert(digits@.take(1).last() == '+');
                assert(digits_value(digits@.take(1)) is None);
            }
            return None;
        }
        match parse_number(digits, 0x8000_0000_0000_0000) {
            None => None,
            Some(value) => if value == 0x8000_0000_0000_0000 {
                Some(i64::MIN)
            } else {
                Some(-(value as i64))
            },
        }
    } else {
        match parse_number(text, i64::MAX as u64) {
            None => None,
            Some(value) => Some(value as i64),
        }
    }
}

/// A text in upper case has no lower-case ASCII letter; each such letter has become the one at the
/// same place of the upper-case alphabet, and nothing else has changed.
pub proof fn law_upper_case(text: Seq<char>, i: int)
    requires
        0 <= i < text.len(),
    ensures
        upper_text(text).len() == text.len(),
        !('a' <= upper_text(text)[i] <= 'z'),
        'a' <= text[i] <= 'z' ==> 'A' <= upper_text(text)[i] <= 'Z' && upper_text(text)[i] as u32
            - 'A' as u32 == text[i] as u32 - 'a' as u32,
        !('a' <= text[i] <= 'z') ==> upper_text(text)[i] == text[i],
{
}

proof fn lemma_has_trimmed_end(text: Seq<char>) -> (to: int)
    ensures
        is_trimmed_end(text, to),
    decreases text.len(),
{
    if text.len() == 0 || !is_white(text.last()) {
        text.len() as int
    } else {
        let to = lemma_has_trimmed_end(text.drop_last());
        assert forall|i: int| to <= i < text.len() implies is_white(#[trigger] text[i]) by {
            if i < text.len() - 1 {
                assert(is_white(text.drop_last()[i]));
            }
        }
        to
    }
}

proof fn lemma_has_trimmed_start(text: Seq<char>) -> (from: int)
    ensures
        is_trimmed_start(text, from),
    decreases text.len(),
{
    if text.len() == 0 || !is_white(text[0]) {
        0
    } else {
        let rest = text.drop_first();
        let from = lemma_has_trimmed_start(rest) + 1;
        assert forall|i: int| 0 <= i < from implies is_white(#[trigger] text[i]) by {
            if i > 0 {
                assert(is_white(rest[i - 1]));
            }
        }
        from
    }
}

/// Whether a text is a part of another, and all that is left out of it is white space.
pub open spec fn is_inside(inner: Seq<char>, text: Seq<char>, from: int) -> bool {
    &&& 0 <= from && from + inner.len() <= text.len()
    &&& inner == text.subrange(from, from + inner.len())
    &&& forall|i: int|
        (0 <= i < from || from + inner.len() <= i < text.len()) ==> is_white(#[trigger] text[i])
}

/// Trimming a text takes away white space at its ends, all of it, and nothing else.
pub proof fn law_trimming_takes_white_space(text: Seq<char>)
    ensures
        exists|from: int| is_inside(trimmed(text), text, from),
        trimmed(text).len() > 0 ==> !is_white(trimmed(text)[0]) && !is_white(trimmed(text).last()),
{
    let to = lemma_has_trimmed_end(text);
    let kept = text.take(to);
    let from = lemma_has_trimmed_start(kept);
    lemma_trimmed(text, from, to);
    let inner = trimmed(text);
    assert(inner == text.subrange(from, to));
    assert forall|i: int| (0 <= i < from || from + inner.len() <= i < text.len()) implies is_white(
        #[trigger] text[i],
    ) by {
        if i < from {
            assert(is_white(kept[i]));
        }
    }
    assert(is_inside(inner, text, from));
    if inner.len() > 0 {
        assert(inner[0] == kept[from]);
        assert(inner.last() == text[to - 1]);
    }
}

proof fn lemma_digit_is_read_back(digit: nat)
    requires
        digit < 10,
    ensures
        digit_value(digit_char(digit)) == Some(digit),
{
}

proof fn lemma_decimal_is_digits(n: nat)
    ensures
        decimal(n).len() > 0,
        digit_value(decimal(n)[0]) is Some,
        digits_value(decimal(n)) == Some(n),
    decreases n,
{
    lemma_digit_is_read_back(n % 10);
    if n < 10 {
        lemma_digit_is_read_back(n);
        assert(decimal(n).drop_last() =~= Seq::<char>::empty());
        assert(digits_value(Seq::<char>::empty()) == Some(0nat));
    } else {
        lemma_decimal_is_digits(n / 10);
        assert(decimal(n).drop_last() =~= decimal(n / 10));
        assert(decimal(n)[0] == decimal(n / 10)[0]);
    }
}

/// A number that was written out is read back as it was, a negative one as well.
pub proof fn law_numbers_are_read_back(n: nat, signed: int)
    ensures
        number_value(decimal(n)) == Some(n),
        integer_value(signed_decimal(signed)) == Some(signed),
{
    lemma_decimal_is_digits(n);
    if signed < 0 {
        let digits = decimal((-signed) as nat);
        lemma_decimal_is_digits((-signed) as nat);
        reveal_strlit("-");
        assert(("-"@ + digits).skip(1) =~= digits);
    } else {
        lemma_decimal_is_digits(signed as nat);
    }
}

/// Two numbers that are written alike are the same.
pub proof fn law_numbers_are_told_apart(a: nat, b: nat)
    ensures
        decimal(a) == decimal(b) <==> a == b,
{
    lemma_decimal_is_digits(a);
    lemma_decimal_is_digits(b);
}

/// No word of a text is empty or holds white space.
pub proof fn law_words_hold_no_white_space(text: Seq<char>, i: int, j: int)
    requires
        0 <= i < words_of(text).len(),
    ensures
        words_of(text)[i].len() > 0,
        0 <= j < words_of(text)[i].len() ==> !is_white(words_of(text)[i][j]),
{
    lemma_words(text);
    assert(is_word(words_of(text)[i]));
}

/// Whether a text is a word: not empty, and without white space.
pub open spec fn is_word(text: Seq<char>) -> bool {
    text.len() > 0 && forall|j: int| 0 <= j < text.len() ==> !is_white(#[trigger] text[j])
}

proof fn lemma_words(text: Seq<char>)
    ensures
        forall|i: int| 0 <= i < words_read(text).0.len() ==> is_word(#[trigger] words_read(text).0[i]),
        words_read(text).1.len() > 0 ==> is_word(words_read(text).1),
    decreases text.len(),
{
    if text.len() > 0 {
        lemma_words(text.drop_last());
    }
}

/// The words of a text, put together, are the text without its white space.
pub proof fn law_words_keep_every_letter(text: Seq<char>)
    ensures
        all_letters(words_of(text)) == without_white(text),
{
    lemma_letters(text);
}

/// The letters of some words.
pub open spec fn all_letters(words: Seq<Seq<char>>) -> Seq<char>
    decreases words.len(),
{
    if words.len() == 0 {
        Seq::empty()
    } else {
        all_letters(words.drop_last()) + words.last()
    }
}

/// A text without its white space.
pub open spec fn without_white(text: Seq<char>) -> Seq<char> {
    text.filter(|c: char| !is_white(c))
}

proof fn lemma_letters(text: Seq<char>)
    ensures
        all_letters(words_read(text).0) + words_read(text).1 == without_white(text),
        all_letters(words_of(text)) == without_white(text),
    decreases text.len(),
{
    reveal(Seq::filter);
    let (done, open) = words_read(text);
    if text.len() > 0 {
        let (before, opened) = words_read(text.drop_last());
        lemma_letters(text.drop_last());
        if is_white(text.last()) && opened.len() > 0 {
            assert(done.drop_last() =~= before);
            assert(all_letters(done) =~= all_letters(before) + opened);
        }
    }
    assert(all_letters(done) + open =~= without_white(text));
    if open.len() > 0 {
        assert(words_of(text).drop_last() =~= done);
    } else {
        assert(all_letters(done) + open =~= all_letters(done));
    }
}

} // verus!
