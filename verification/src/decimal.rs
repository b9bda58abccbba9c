//! Decimal numbers as text.
use vstd::prelude::*;
use vstd::string::*;

verus! {

/// The character of a single digit.
pub open spec fn digit_char(digit: int) -> char {
    (48 + digit) as char
}

/// The shortest decimal form of a number.
pub open spec fn decimal(value: nat) -> Seq<char>
    decreases value,
{
    if value < 10 {
        seq![digit_char(value as int)]
    } else {
        decimal(value / 10).push(digit_char((value % 10) as int))
    }
}

pub open spec fn is_digit(c: char) -> bool {
    48 <= c as int <= 57
}

pub open spec fn all_digits(text: Seq<char>) -> bool {
    forall|i: int| 0 <= i < text.len() ==> is_digit(#[trigger] text[i])
}

/// The number that a run of digits denotes.
pub open spec fn digits_value(text: Seq<char>) -> int
    decreases text.len(),
{
    if text.len() == 0 {
        0
    } else {
        digits_value(text.drop_last()) * 10 + (text.last() as int - 48)
    }
}

/// `text` without one leading plus sign.
pub open spec fn without_plus(text: Seq<char>) -> Seq<char> {
    if text.len() > 0 && text[0] == '+' { text.drop_first() } else { text }
}

/// The unsigned number that `text` denotes, where it denotes one of at most
/// `limit`: digits only, at least one, and at most one leading plus sign.
pub open spec fn parsed(text: Seq<char>, limit: int) -> Option<int> {
    let digits = without_plus(text);
    if digits.len() > 0 && all_digits(digits) && digits_value(digits) <= limit {
        Some(digits_value(digits))
    } else {
        None
    }
}

fn digit_text(digit: u8) -> (r: &'static str)
    requires
        digit < 10,
    ensures
        r@ == seq![digit_char(digit as int)],
{
    proof {
        reveal_strlit("0");
        reveal_strlit("1");
        reveal_strlit("2");
        reveal_strlit("3");
        reveal_strlit("4");
        reveal_strlit("5");
        reveal_strlit("6");
        reveal_strlit("7");
        reveal_strlit("8");
        reveal_strlit("9");
    }
    let text = match digit {
        0 => "0",
        1 => "1",
        2 => "2",
        3 => "3",
        4 => "4",
        5 => "5",
        6 => "6",
        7 => "7",
        8 => "8",
        _ => "9",
    };
    assert(text@ =~= seq![digit_char(digit as int)]);
    text
}

/// Writes a number in decimal.
pub fn to_decimal(value: u128) -> (r: String)
    ensures
        r@ == decimal(value as nat),
    decreases value,
{
    if value < 10 {
        digit_text(value as u8).to_owned()
    } else {
        let mut text = to_decimal(value / 10);
        let ghost head = text@;
        text.append(digit_text((value % 10) as u8));
        assert(text@ =~= head.push(digit_char((value % 10) as int)));
        text
    }
}

/// A longer run of digits denotes no smaller number.
proof fn lemma_value_grows(text: Seq<char>, count: int)
    requires
        all_digits(text),
        0 <= count <= text.len(),
    ensures
        0 <= digits_value(text.take(count)) <= digits_value(text),
    decreases text.len() - count,
{
    lemma_value_nonnegative(text.take(count));
    if count < text.len() {
        lemma_value_grows(text, count + 1);
        assert(text.take(count + 1).drop_last() =~= text.take(count));
        assert(text.take(count + 1).last() == text[count]);
    } else {
        assert(text.take(count) =~= text);
    }
}

proof fn lemma_value_nonnegative(text: Seq<char>)
    requires
        all_digits(text),
    ensures
        0 <= digits_value(text),
    decreases text.len(),
{
    if text.len() > 0 {
        lemma_value_nonnegative(text.drop_last());
        assert(is_digit(text[text.len() - 1]));
    }
}

/// Reads an unsigned decimal number of at most `limit`.
pub fn parse_decimal(text: &str, limit: u128) -> (r: Option<u128>)
    ensures
        match r {
            Some(value) => parsed(text@, limit as int) == Some(value as int),
            None => parsed(text@, limit as int) is None,
        },
{
    let length: usize = text.unicode_len();
    let start: usize = if length > 0 && text.get_char(0) == '+' {
        1
    } else {
        0
    };
    let ghost digits = without_plus(text@);
    if start == length {
        return None;
    }
    let mut index: usize = start;
    let mut value: u128 = 0;
    assert(digits.take(0) =~= Seq::empty());
    while index < length
        invariant
            start <= index <= length,
            start <= 1,
            length == text@.len(),
            digits == without_plus(text@),
            digits.len() == length - start,
            forall|i: int| 0 <= i < digits.len() ==> digits[i] == text@[i + start],
            all_digits(digits.take(index - start)),
            value == digits_value(digits.take(index - start)),
            value <= limit,
        decreases length - index,
    {
        let c = text.get_char(index);
        let ghost position = index - start;
        assert(c == digits[position]);
        if !(c >= '0' && c <= '9') {
            assert(!is_digit(digits[position]));
            return None;
        }
        let digit: u128 = (c as u32 - 48) as u128;
        assert(digits.take(position + 1).drop_last() =~= digits.take(position));
        assert(digits.take(position + 1).last() == c);
        assert(digits_value(digits.take(position + 1)) == value * 10 + digit);
        let grown: Option<u128> = match value.checked_mul(10) {
            Some(tens) => tens.checked_add(digit),
            None => None,
        };
        let next: u128 = match grown {
            Some(next) if next <= limit => next,
            _ => {
                proof {
                    if all_digits(digits) {
                        lemma_value_grows(digits, position + 1);
                    }
                }
                return None;
            },
        };
        proof {
            assert forall|i: int| 0 <= i < position + 1 implies is_digit(
                #[trigger] digits.take(position + 1)[i],
            ) by {
                if i < position {
                    assert(is_digit(digits.take(position)[i]));
                }
            }
        }
        value = next;
        index = index + 1;
    }
    assert(digits.take(digits.len() as int) =~= digits);
    Some(value)
}

/// The decimal form of a number is digits only and denotes that number.
pub proof fn decimal_round_trip(value: nat)
    ensures
        all_digits(decimal(value)),
        decimal(value).len() > 0,
        digits_value(decimal(value)) == value,
        forall|limit: int| value <= limit ==> #[trigger] parsed(decimal(value), limit) == Some(
            value as int,
        ),
    decreases value,
{
    if value >= 10 {
        decimal_round_trip(value / 10);
        let head = decimal(value / 10);
        let whole = head.push(digit_char((value % 10) as int));
        assert(whole.drop_last() =~= head);
        assert forall|i: int| 0 <= i < whole.len() implies is_digit(#[trigger] whole[i]) by {
            if i < head.len() {
                assert(is_digit(head[i]));
            }
        }
        assert(whole.last() as int - 48 == value % 10);
        assert(digits_value(whole) == digits_value(head) * 10 + value % 10);
    } else {
        let whole = decimal(value);
        assert(whole.drop_last() =~= Seq::empty());
        assert(digits_value(whole.drop_last()) == 0);
        assert(whole.last() as int - 48 == value);
    }
    assert(is_digit(decimal(value)[0]));
}

} // verus!
