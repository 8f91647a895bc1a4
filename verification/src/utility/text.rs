//! Text helpers shared by the other modules: comparing texts, reading a
//! text character by character, and decimal numbers as text.

use vstd::prelude::*;
use vstd::std_specs::iter::IteratorSpec;

verus! {

/// Tells whether two texts hold the same characters.
pub fn same_text(left: &str, right: &str) -> (same: bool)
    ensures
        same == (left@ == right@),
{
    let mut rest_left = left.chars();
    let mut rest_right = right.chars();
    let ghost mut seen: int = 0;
    loop
        invariant
            0 <= seen,
            left@ == left@.take(seen) + rest_left.remaining(),
            right@ == right@.take(seen) + rest_right.remaining(),
            left@.take(seen) == right@.take(seen),
            seen + rest_left.remaining().len() == left@.len(),
            seen + rest_right.remaining().len() == right@.len(),
            rest_left.decrease() is Some,
        decreases rest_left.decrease()->0,
    {
        let ghost before_left = rest_left.remaining();
        let ghost before_right = rest_right.remaining();
        let next_left = rest_left.next();
        let next_right = rest_right.next();
        match (next_left, next_right) {
            (None, None) => {
                return true;
            },
            (Some(a), Some(b)) => {
                if a != b {
                    assert(left@[seen] == a);
                    assert(right@[seen] == b);
                    return false;
                }
                proof {
                    assert(left@.take(seen + 1) == left@.take(seen).push(a));
                    assert(right@.take(seen + 1) == right@.take(seen).push(b));
                    assert(before_left == seq![a] + rest_left.remaining());
                    assert(before_right == seq![b] + rest_right.remaining());
                    seen = seen + 1;
                }
            },
            _ => {
                assert(left@.len() != right@.len());
                return false;
            },
        }
    }
}

/// The characters of a text, in order.
pub fn characters(text: &str) -> (list: Vec<char>)
    ensures
        list@ == text@,
{
    let mut list: Vec<char> = Vec::new();
    for c in it: text.chars()
        invariant
            it.seq() == text@,
            list@ == it.seq().take(it.index()),
    {
        list.push(c);
    }
    list
}

/// The form in which a text is written for debugging: between double
/// quotes, with the characters that cannot stand there as they are written
/// as escapes.
pub uninterp spec fn debug_form(text: Seq<char>) -> Seq<char>;

/// Writes a text in its form for debugging.
///
/// Trusted: this is the `Debug` formatting of `str`, whose output depends
/// on the characters of the text alone.
#[verifier::external_body]
pub(crate) fn debug_string(text: &str) -> (quoted: String)
    ensures
        quoted@ == debug_form(text@),
{
    format!("{:?}", text)
}

/// The character that stands for the digit `value`, for `0 <= value <= 9`.
pub open spec fn digit(value: int) -> char {
    seq!['0', '1', '2', '3', '4', '5', '6', '7', '8', '9'][value]
}

/// The decimal notation of a number, without sign and without leading
/// zeros.
pub open spec fn decimal(value: nat) -> Seq<char>
    decreases value,
{
    if value < 10 {
        seq![digit(value as int)]
    } else {
        decimal(value / 10).push(digit((value % 10) as int))
    }
}

/// The decimal notation of an integer: a minus sign before a negative
/// number, no sign otherwise.
pub open spec fn signed_decimal(value: int) -> Seq<char> {
    if value < 0 {
        seq!['-'] + decimal((-value) as nat)
    } else {
        decimal(value as nat)
    }
}

/// The text of one digit.
fn digit_text(value: u64) -> (text: &'static str)
    requires
        value < 10,
    ensures
        text@ == seq![digit(value as int)],
{
    proof {
        reveal_strlit("0");
        reveal_strlit("1");
        reveal_strlit("2");
        reveal_strlit("3");
        reveal_strlit("4");
        reveal_strlit("5");
        reveal_strlit("6");
        reveal_strlit("7");
        reveal_strlit("8");
        reveal_strlit("9");
    }
    let text = if value == 0 {
        "0"
    } else if value == 1 {
        "1"
    } else if value == 2 {
        "2"
    } else if value == 3 {
        "3"
    } else if value == 4 {
        "4"
    } else if value == 5 {
        "5"
    } else if value == 6 {
        "6"
    } else if value == 7 {
        "7"
    } else if value == 8 {
        "8"
    } else {
        "9"
    };
    assert(text@ =~= seq![digit(value as int)]);
    text
}

/// Appends the decimal notation of `value` to `text`.
pub fn push_wide_decimal(text: &mut String, value: u128)
    ensures
        final(text)@ == old(text)@ + decimal(value as nat),
    decreases value,
{
    if value >= 10 {
        push_wide_decimal(text, value / 10);
    }
    text.append(digit_text((value % 10) as u64));
    assert(final(text)@ =~= old(text)@ + decimal(value as nat));
}

/// Appends the decimal notation of `value` to `text`.
pub fn push_decimal(text: &mut String, value: u64)
    ensures
        final(text)@ == old(text)@ + decimal(value as nat),
{
    push_wide_decimal(text, value as u128);
}

/// Appends the decimal notation of the integer `value` to `text`.
pub fn push_signed_decimal(text: &mut String, value: i64)
    ensures
        final(text)@ == old(text)@ + signed_decimal(value as int),
{
    if value < 0 {
        proof {
            reveal_strlit("-");
        }
        text.append("-");
        let magnitude: u64 = if value == i64::MIN {
            9_223_372_036_854_775_808u64
        } else {
            (-value) as u64
        };
        push_decimal(text, magnitude);
        assert(final(text)@ =~= old(text)@ + signed_decimal(value as int));
    } else {
        push_decimal(text, value as u64);
    }
}

/// The decimal notation of `value` as a text of its own.
pub fn decimal_string(value: u64) -> (text: String)
    ensures
        text@ == decimal(value as nat),
{
    let mut text = String::new();
    push_decimal(&mut text, value);
    assert(text@ =~= decimal(value as nat));
    text
}

/// Whether `c` is one of the digits `0` to `9`.
pub open spec fn is_digit(c: char) -> bool {
    '0' <= c && c <= '9'
}

/// Whether a text is made of digits alone, and of one at least.
pub open spec fn is_number(digits: Seq<char>) -> bool {
    digits.len() > 0 && forall|i: int| 0 <= i < digits.len() ==> is_digit(#[trigger] digits[i])
}

/// The number that a text of digits denotes in decimal notation.
pub open spec fn number(digits: Seq<char>) -> nat
    decreases digits.len(),
{
    if digits.len() == 0 {
        0
    } else {
        (number(digits.drop_last()) * 10 + (digits.last() as int - '0' as int)) as nat
    }
}

/// What a text means as an unsigned 64-bit number: an optional plus sign,
/// then digits alone, which denote a number that fits. Every other text
/// means nothing.
pub open spec fn unsigned(text: Seq<char>) -> Option<u64> {
    let digits = if text.len() > 0 && text[0] == '+' {
        text.drop_first()
    } else {
        text
    };
    if is_number(digits) && number(digits) <= u64::MAX {
        Some(number(digits) as u64)
    } else {
        None
    }
}

/// What a text means as a signed 32-bit number: an optional plus or minus
/// sign, then digits alone, which denote a number that fits with that sign.
/// Every other text means nothing.
pub open spec fn signed(text: Seq<char>) -> Option<i32> {
    if text.len() > 0 && text[0] == '-' {
        if is_number(text.drop_first()) && number(text.drop_first()) <= 0x8000_0000 {
            Some((-(number(text.drop_first()) as int)) as i32)
        } else {
            None
        }
    } else {
        let digits = if text.len() > 0 && text[0] == '+' {
            text.drop_first()
        } else {
            text
        };
        if is_number(digits) && number(digits) <= i32::MAX {
            Some(number(digits) as i32)
        } else {
            None
        }
    }
}

/// The decimal notation of a number is made of digits alone, and denotes
/// the number.
pub proof fn lemma_decimal_denotes(value: nat)
    ensures
        is_number(decimal(value)),
        number(decimal(value)) == value,
    decreases value,
{
    let last = digit((value % 10) as int);
    assert(is_digit(last) && last as int - '0' as int == value % 10);
    if value >= 10 {
        lemma_decimal_denotes(value / 10);
        let front = decimal(value / 10);
        assert(decimal(value).drop_last() =~= front);
        assert forall|i: int| 0 <= i < decimal(value).len() implies is_digit(
            #[trigger] decimal(value)[i],
        ) by {
            if i < front.len() {
                assert(decimal(value)[i] == front[i]);
            }
        }
    } else {
        assert(decimal(value).drop_last() =~= Seq::<char>::empty());
        assert(number(decimal(value).drop_last()) == 0);
    }
}

/// A number that is written in decimal notation is read back as itself.
pub proof fn lemma_written_number_is_read_back(value: u64)
    ensures
        unsigned(decimal(value as nat)) == Some(value),
{
    lemma_decimal_denotes(value as nat);
    assert(is_digit(decimal(value as nat)[0]));
}

/// An integer that is written in decimal notation is read back as itself.
pub proof fn lemma_written_integer_is_read_back(value: i32)
    ensures
        signed(signed_decimal(value as int)) == Some(value),
{
    if value < 0 {
        let digits = decimal((-value) as nat);
        lemma_decimal_denotes((-value) as nat);
        assert(signed_decimal(value as int).drop_first() =~= digits);
        assert(signed_decimal(value as int)[0] == '-');
    } else {
        lemma_decimal_denotes(value as nat);
        assert(is_digit(decimal(value as nat)[0]));
    }
}

/// A number only grows as digits are added at its end.
proof fn lemma_number_grows(digits: Seq<char>, length: int)
    requires
        0 <= length <= digits.len(),
        forall|i: int| 0 <= i < digits.len() ==> is_digit(#[trigger] digits[i]),
    ensures
        number(digits.take(length)) <= number(digits),
    decreases digits.len() - length,
{
    if length < digits.len() {
        let shorter = digits.drop_last();
        assert(digits.take(digits.len() as int) =~= digits);
        if length < shorter.len() {
            lemma_number_grows(shorter, length);
            assert(shorter.take(length) =~= digits.take(length));
        } else {
            assert(shorter =~= digits.take(length));
        }
        assert(is_digit(digits[digits.len() - 1]));
    } else {
        assert(digits.take(length) =~= digits);
    }
}

/// Reads the digits of `text` from position `start` on as a number.
fn parse_digits(text: &Vec<char>, start: usize) -> (value: Option<u64>)
    requires
        start <= text.len(),
    ensures
        value == (if is_number(text@.skip(start as int)) && number(text@.skip(start as int))
            <= u64::MAX {
            Some(number(text@.skip(start as int)) as u64)
        } else {
            None::<u64>
        }),
{
    let ghost digits = text@.skip(start as int);
    if start == text.len() {
        return None;
    }
    let mut value: u64 = 0;
    let mut position: usize = start;
    while position < text.len()
        invariant
            start <= position <= text.len(),
            digits == text@.skip(start as int),
            forall|i: int| 0 <= i < position - start ==> is_digit(#[trigger] digits[i]),
            value == number(digits.take(position - start)),
        decreases text.len() - position,
    {
        let c = text[position];
        assert(c == digits[position - start]);
        if c < '0' || c > '9' {
            return None;
        }
        let d: u64 = (c as u64) - ('0' as u64);
        proof {
            let longer = digits.take(position - start + 1);
            assert(longer.drop_last() =~= digits.take(position - start));
            assert(longer.last() == c);
            assert(number(longer) == value * 10 + d);
        }
        let scaled = value.checked_mul(10);
        let next = match scaled {
            Some(s) => s.checked_add(d),
            None => None,
        };
        match next {
            Some(n) => {
                value = n;
            },
            None => {
                proof {
                    let longer = digits.take(position - start + 1);
                    if is_number(digits) {
                        lemma_number_grows(digits, position - start + 1);
                    }
                }
                return None;
            },
        }
        position = position + 1;
    }
    assert(digits.take(position - start) =~= digits);
    Some(value)
}

/// Reads a text as an unsigned 64-bit number in decimal notation.
pub fn parse_unsigned(text: &str) -> (value: Option<u64>)
    ensures
        value == unsigned(text@),
{
    let list = characters(text);
    let start: usize = if list.len() > 0 && list[0] == '+' {
        1
    } else {
        0
    };
    assert(list@.skip(0) =~= list@);
    assert(list@.skip(1) =~= list@.drop_first()) by {
        if list@.len() > 0 {
        }
    }
    parse_digits(&list, start)
}

/// Reads a text as a signed 32-bit number in decimal notation.
pub fn parse_signed(text: &str) -> (value: Option<i32>)
    ensures
        value == signed(text@),
{
    let list = characters(text);
    assert(list@.skip(0) =~= list@);
    if list.len() > 0 && list[0] == '-' {
        assert(list@.skip(1) =~= list@.drop_first());
        match parse_digits(&list, 1) {
            Some(magnitude) => if magnitude <= 0x8000_0000 {
                Some((0i64 - (magnitude as i64)) as i32)
            } else {
                None
            },
            None => None,
        }
    } else {
        let start: usize = if list.len() > 0 && list[0] == '+' {
            1
        } else {
            0
        };
        if list.len() > 0 {
            assert(list@.skip(1) =~= list@.drop_first());
        }
        match parse_digits(&list, start) {
            Some(magnitude) => if magnitude <= 0x7fff_ffff {
                Some(magnitude as i32)
            } else {
                None
            },
            None => None,
        }
    }
}

/// Whether a text begins with the text `prefix`.
pub open spec fn starts_with(text: Seq<char>, prefix: Seq<char>) -> bool {
    prefix.len() <= text.len() && text.take(prefix.len() as int) == prefix
}

/// Whether a text ends with the text `suffix`.
pub open spec fn ends_with(text: Seq<char>, suffix: Seq<char>) -> bool {
    suffix.len() <= text.len() && text.skip(text.len() - suffix.len()) == suffix
}

/// The place of the first `target` in a text, and the length of the text if
/// there is none.
pub open spec fn position(text: Seq<char>, target: char) -> int
    decreases text.len(),
{
    if text.len() == 0 {
        0
    } else if text[0] == target {
        0
    } else {
        1 + position(text.drop_first(), target)
    }
}

/// The place of the first `target` lies in the text or at its end; there
/// the text holds `target`, and before it the text holds none.
pub proof fn lemma_position(text: Seq<char>, target: char)
    ensures
        0 <= position(text, target) <= text.len(),
        position(text, target) < text.len() ==> text[position(text, target)] == target,
        forall|i: int| 0 <= i < position(text, target) ==> text[i] != target,
    decreases text.len(),
{
    if text.len() > 0 && text[0] != target {
        let rest = text.drop_first();
        lemma_position(rest, target);
        assert forall|i: int| 0 <= i < position(text, target) implies text[i] != target by {
            if i > 0 {
                assert(rest[i - 1] == text[i]);
            }
        }
    }
}

/// Whether the characters of `part` stand in `text` from the place `start`
/// on.
fn matches_at(text: &Vec<char>, start: usize, part: &Vec<char>) -> (matches: bool)
    requires
        start + part.len() <= text.len(),
    ensures
        matches == (text@.subrange(start as int, start + part.len()) == part@),
{
    let mut i: usize = 0;
    while i < part.len()
        invariant
            i <= part.len(),
            start + part.len() <= text.len(),
            forall|j: int| 0 <= j < i ==> text@[start + j] == part@[j],
        decreases part.len() - i,
    {
        if text[start + i] != part[i] {
            assert(text@.subrange(start as int, start + part.len())[i as int] != part@[i as int]);
            return false;
        }
        i = i + 1;
    }
    assert(text@.subrange(start as int, start + part.len()) =~= part@);
    true
}

/// Takes the text `prefix` from the beginning of a text, if it stands
/// there.
pub fn strip_prefix<'a>(text: &'a str, prefix: &str) -> (rest: Option<&'a str>)
    ensures
        match rest {
            Some(rest) => starts_with(text@, prefix@) && rest@ == text@.skip(prefix@.len() as int),
            None => !starts_with(text@, prefix@),
        },
{
    let whole = characters(text);
    let part = characters(prefix);
    if part.len() <= whole.len() && matches_at(&whole, 0, &part) {
        assert(text@.take(prefix@.len() as int) =~= text@.subrange(0, 0 + part.len()));
        let rest = text.substring_char(part.len(), whole.len());
        assert(rest@ =~= text@.skip(prefix@.len() as int));
        Some(rest)
    } else {
        if part.len() <= whole.len() {
            assert(text@.take(prefix@.len() as int) =~= text@.subrange(0, 0 + part.len()));
        }
        None
    }
}

/// Takes the text `suffix` from the end of a text, if it stands there.
pub fn strip_suffix<'a>(text: &'a str, suffix: &str) -> (rest: Option<&'a str>)
    ensures
        match rest {
            Some(rest) => ends_with(text@, suffix@) && rest@ == text@.take(
                text@.len() - suffix@.len(),
            ),
            None => !ends_with(text@, suffix@),
        },
{
    let whole = characters(text);
    let part = characters(suffix);
    if part.len() <= whole.len() {
        let start: usize = whole.len() - part.len();
        assert(text@.skip(text@.len() - suffix@.len()) =~= text@.subrange(
            start as int,
            start + part.len(),
        ));
        if matches_at(&whole, start, &part) {
            let rest = text.substring_char(0, start);
            assert(rest@ =~= text@.take(text@.len() - suffix@.len()));
            Some(rest)
        } else {
            None
        }
    } else {
        None
    }
}

/// The place of the first `target` in `text` from the place `start` on,
/// and the length of the text if there is none.
pub fn find_from(text: &Vec<char>, start: usize, target: char) -> (place: usize)
    requires
        start <= text.len(),
    ensures
        start <= place <= text.len(),
        place - start == position(text@.skip(start as int), target),
{
    let mut place: usize = start;
    while place < text.len()
        invariant
            start <= place <= text.len(),
            position(text@.skip(start as int), target) == place - start + position(
                text@.skip(place as int),
                target,
            ),
        decreases text.len() - place,
    {
        let ghost rest = text@.skip(place as int);
        assert(rest[0] == text@[place as int]);
        if text[place] == target {
            return place;
        }
        assert(rest.drop_first() =~= text@.skip(place + 1));
        place = place + 1;
    }
    assert(text@.skip(place as int).len() == 0);
    place
}

/// Cuts a text in two at the first `separator`, which goes to neither part.
/// There are no two parts where there is no separator.
pub fn split_once<'a>(text: &'a str, separator: char) -> (parts: Option<(&'a str, &'a str)>)
    ensures
        match parts {
            Some((before, after)) => position(text@, separator) < text@.len() && before@
                == text@.take(position(text@, separator)) && after@ == text@.skip(
                position(text@, separator) + 1,
            ),
            None => position(text@, separator) == text@.len(),
        },
{
    let whole = characters(text);
    assert(whole@.skip(0) =~= whole@);
    let place = find_from(&whole, 0, separator);
    if place < whole.len() {
        let before = text.substring_char(0, place);
        let after = text.substring_char(place + 1, whole.len());
        assert(before@ =~= text@.take(position(text@, separator)));
        assert(after@ =~= text@.skip(position(text@, separator) + 1));
        Some((before, after))
    } else {
        None
    }
}

/// Whether two texts are the same up to the place `place`, where `left`
/// has ended and `right` has not, or where `left` has the smaller
/// character.
pub open spec fn parts_at(left: Seq<char>, right: Seq<char>, place: int) -> bool {
    &&& 0 <= place <= left.len()
    &&& place <= right.len()
    &&& left.take(place) == right.take(place)
    &&& if place == left.len() {
        place < right.len()
    } else {
        place < right.len() && left[place] < right[place]
    }
}

/// Whether `left` comes before `right` in the order of texts, which goes by
/// the characters from the first on.
pub open spec fn text_before(left: Seq<char>, right: Seq<char>) -> bool {
    exists|place: int| parts_at(left, right, place)
}

/// Of two texts at most one comes before the other, and none comes before
/// itself.
pub proof fn lemma_text_order_is_strict(left: Seq<char>, right: Seq<char>)
    ensures
        !(text_before(left, right) && text_before(right, left)),
        text_before(left, right) ==> left != right,
{
    if text_before(left, right) {
        let first = choose|place: int| parts_at(left, right, place);
        if text_before(right, left) {
            let second = choose|place: int| parts_at(right, left, place);
            if first < second {
                assert(right.take(second)[first] == left.take(second)[first]);
            } else if second < first {
                assert(left.take(first)[second] == right.take(first)[second]);
            }
        }
        if left == right {
        }
    }
}

/// Tells whether `left` comes before `right` in the order of texts.
pub fn comes_before(left: &str, right: &str) -> (before: bool)
    ensures
        before == text_before(left@, right@),
{
    let mut rest_left = left.chars();
    let mut rest_right = right.chars();
    let ghost mut seen: int = 0;
    loop
        invariant
            0 <= seen,
            left@ == left@.take(seen) + rest_left.remaining(),
            right@ == right@.take(seen) + rest_right.remaining(),
            left@.take(seen) == right@.take(seen),
            seen + rest_left.remaining().len() == left@.len(),
            seen + rest_right.remaining().len() == right@.len(),
            rest_left.decrease() is Some,
        decreases rest_left.decrease()->0,
    {
        let ghost before_left = rest_left.remaining();
        let ghost before_right = rest_right.remaining();
        let next_left = rest_left.next();
        let next_right = rest_right.next();
        proof {
            lemma_text_order_is_strict(left@, right@);
        }
        match (next_left, next_right) {
            (None, None) => {
                assert(left@.take(seen) =~= left@);
                assert(right@.take(seen) =~= right@);
                return false;
            },
            (None, Some(_)) => {
                assert(parts_at(left@, right@, seen));
                return true;
            },
            (Some(_), None) => {
                assert(parts_at(right@, left@, seen));
                return false;
            },
            (Some(a), Some(b)) => {
                assert(left@[seen] == a);
                assert(right@[seen] == b);
                if a < b {
                    assert(parts_at(left@, right@, seen));
                    return true;
                }
                if b < a {
                    assert(parts_at(right@, left@, seen));
                    return false;
                }
                proof {
                    assert(left@.take(seen + 1) == left@.take(seen).push(a));
                    assert(right@.take(seen + 1) == right@.take(seen).push(b));
                    assert(before_left == seq![a] + rest_left.remaining());
                    assert(before_right == seq![b] + rest_right.remaining());
                    seen = seen + 1;
                }
            },
        }
    }
}

} // verus!
