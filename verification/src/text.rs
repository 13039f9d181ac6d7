//! Texts as sequences of characters.

use vstd::prelude::*;

verus! {

/// The characters of a text, one by one.
pub fn chars_of(text: &str) -> (r: Vec<char>)
    ensures
        r@ == text@,
{
    broadcast use vstd::string::group_string_axioms;

    let mut out: Vec<char> = Vec::new();
    for c in it: text.chars()
        invariant
            it.seq() == text@,
            out@ == it.seq().subrange(0, it.index() as int),
    {
        out.push(c);
    }
    assert(out@ == text@);
    out
}

/// How many line feeds a text holds.
pub open spec fn count_newlines(text: Seq<char>) -> nat
    decreases text.len(),
{
    if text.len() == 0 {
        0
    } else {
        count_newlines(text.drop_last()) + if text.last() == '\n' {
            1nat
        } else {
            0nat
        }
    }
}

/// How many rows a text takes: one more than it has line feeds.
pub open spec fn rows_of(text: Seq<char>) -> nat {
    count_newlines(text) + 1
}

/// Counts the rows of a text by noting where each row begins.
pub fn count_rows(text: &str) -> (r: usize)
    ensures
        r == rows_of(text@),
{
    let chars = chars_of(text);
    let mut starts: Vec<usize> = Vec::new();
    starts.push(0);
    let mut i: usize = 0;
    while i < chars.len()
        invariant
            i <= chars.len(),
            starts@.len() == count_newlines(chars@.subrange(0, i as int)) + 1,
        decreases chars.len() - i,
    {
        proof {
            let next = chars@.subrange(0, i + 1);
            assert(next.drop_last() == chars@.subrange(0, i as int));
            assert(next.last() == chars@[i as int]);
        }
        if chars[i] == '\n' {
            starts.push(i + 1);
        }
        i += 1;
    }
    proof {
        assert(chars@.subrange(0, i as int) == chars@);
    }
    starts.len()
}

/// The position of the first `c` in `text` between `from` and `end`, or
/// `end` where there is none.
pub open spec fn first_index_in(text: Seq<char>, c: char, from: int, end: int) -> int
    decreases end - from,
{
    if from >= end {
        end
    } else if text[from] == c {
        from
    } else {
        first_index_in(text, c, from + 1, end)
    }
}

/// Finds the first `c` in `text` between `from` and `end`; gives `end`
/// where there is none.
pub fn find_char(text: &Vec<char>, c: char, from: usize, end: usize) -> (r: usize)
    requires
        from <= end <= text.len(),
    ensures
        r == first_index_in(text@, c, from as int, end as int),
        from <= r <= end,
{
    let mut i: usize = from;
    while i < end
        invariant
            from <= i <= end <= text.len(),
            first_index_in(text@, c, from as int, end as int) == first_index_in(
                text@,
                c,
                i as int,
                end as int,
            ),
        decreases end - i,
    {
        if text[i] == c {
            return i;
        }
        i += 1;
    }
    i
}

/// The text in small letters, as `str::to_lowercase` gives it.
pub uninterp spec fn lowercase(text: Seq<char>) -> Seq<char>;

/// Calls `str::to_lowercase` of the standard library. Not proved: the
/// result is `lowercase` of the text.
#[verifier::external_body]
pub(crate) fn to_lowercase(text: &str) -> (r: String)
    ensures
        r@ == lowercase(text@),
{
    text.to_lowercase()
}

/// True where `needle` stands in `text` at position `at`.
pub open spec fn occurs_at(text: Seq<char>, needle: Seq<char>, at: int) -> bool {
    0 <= at && at + needle.len() <= text.len() && text.subrange(at, at + needle.len()) == needle
}

/// True where `needle` stands somewhere in `text`. The empty text stands
/// in every text.
pub open spec fn has_substring(text: Seq<char>, needle: Seq<char>) -> bool {
    exists|at: int| occurs_at(text, needle, at)
}

/// True where `text` begins with `prefix`.
pub open spec fn has_prefix(text: Seq<char>, prefix: Seq<char>) -> bool {
    occurs_at(text, prefix, 0)
}

/// Tells whether `needle` stands in `text` at position `at`.
pub fn matches_at(text: &Vec<char>, needle: &Vec<char>, at: usize) -> (r: bool)
    ensures
        r == occurs_at(text@, needle@, at as int),
{
    if at > text.len() || needle.len() > text.len() - at {
        return false;
    }
    let mut i: usize = 0;
    while i < needle.len()
        invariant
            at + needle.len() <= text.len(),
            i <= needle.len(),
            text@.subrange(at as int, at + i) == needle@.subrange(0, i as int),
        decreases needle.len() - i,
    {
        if text[at + i] != needle[i] {
            proof {
                let window = text@.subrange(at as int, at + needle.len());
                if window == needle@ {
                    assert(window[i as int] == needle@[i as int]);
                }
            }
            return false;
        }
        proof {
            let grown = text@.subrange(at as int, at + i + 1);
            assert(grown =~= text@.subrange(at as int, at + i).push(text@[at + i]));
            assert(needle@.subrange(0, i + 1) =~= needle@.subrange(0, i as int).push(
                needle@[i as int],
            ));
        }
        i += 1;
    }
    proof {
        assert(needle@.subrange(0, i as int) == needle@);
    }
    true
}

/// Tells whether `needle` stands somewhere in `text`.
pub fn contains(text: &Vec<char>, needle: &Vec<char>) -> (r: bool)
    ensures
        r == has_substring(text@, needle@),
{
    if needle.len() > text.len() {
        return false;
    }
    let last = text.len() - needle.len();
    let mut at: usize = 0;
    loop
        invariant
            last == text.len() - needle.len(),
            at <= last,
            forall|k: int| 0 <= k < at ==> !occurs_at(text@, needle@, k),
        decreases last - at,
    {
        if matches_at(text, needle, at) {
            return true;
        }
        if at == last {
            return false;
        }
        at += 1;
    }
}

/// True where `filter`, in small letters, stands in `text`, in small
/// letters.
pub open spec fn passes_filter(text: Seq<char>, filter: Seq<char>) -> bool {
    has_substring(lowercase(text), lowercase(filter))
}

/// Tells whether a text passes a filter that is already in small letters.
pub fn contains_lowercase(text: &str, filter: &Vec<char>) -> (r: bool)
    ensures
        r == has_substring(lowercase(text@), filter@),
{
    let lowered = to_lowercase(text);
    let chars = chars_of(lowered.as_str());
    contains(&chars, filter)
}

/// The character of a decimal digit.
pub open spec fn digit_char(digit: nat) -> char
    recommends
        digit < 10,
{
    if digit == 0 {
        '0'
    } else if digit == 1 {
        '1'
    } else if digit == 2 {
        '2'
    } else if digit == 3 {
        '3'
    } else if digit == 4 {
        '4'
    } else if digit == 5 {
        '5'
    } else if digit == 6 {
        '6'
    } else if digit == 7 {
        '7'
    } else if digit == 8 {
        '8'
    } else {
        '9'
    }
}

/// A number written in decimal digits, without leading zeros.
pub open spec fn decimal_text(n: nat) -> Seq<char>
    decreases n,
{
    if n < 10 {
        seq![digit_char(n)]
    } else {
        decimal_text(n / 10).push(digit_char(n % 10))
    }
}

/// One decimal digit as a text.
fn digit_text(digit: usize) -> (r: &'static str)
    requires
        digit < 10,
    ensures
        r@ == seq![digit_char(digit as nat)],
{
    proof {
        reveal_strlit("0");
        reveal_strlit("1");
        reveal_strlit("2");
        reveal_strlit("3");
        reveal_strlit("4");
        reveal_strlit("5");
        reveal_strlit("6");
        reveal_strlit("7");
        reveal_strlit("8");
        reveal_strlit("9");
    }
    let r = if digit == 0 {
        "0"
    } else if digit == 1 {
        "1"
    } else if digit == 2 {
        "2"
    } else if digit == 3 {
        "3"
    } else if digit == 4 {
        "4"
    } else if digit == 5 {
        "5"
    } else if digit == 6 {
        "6"
    } else if digit == 7 {
        "7"
    } else if digit == 8 {
        "8"
    } else {
        "9"
    };
    assert(r@ =~= seq![digit_char(digit as nat)]);
    r
}

/// Writes a number in decimal digits.
pub fn usize_to_string(n: usize) -> (r: String)
    ensures
        r@ == decimal_text(n as nat),
    decreases n,
{
    if n < 10 {
        digit_text(n).to_string()
    } else {
        let mut text = usize_to_string(n / 10);
        text.append(digit_text(n % 10));
        assert(text@ =~= decimal_text(n as nat / 10).push(digit_char(n as nat % 10)));
        text
    }
}

/// The value of a decimal digit, or `None` for any other character.
pub open spec fn digit_value(c: char) -> Option<nat> {
    if c == '0' {
        Some(0)
    } else if c == '1' {
        Some(1)
    } else if c == '2' {
        Some(2)
    } else if c == '3' {
        Some(3)
    } else if c == '4' {
        Some(4)
    } else if c == '5' {
        Some(5)
    } else if c == '6' {
        Some(6)
    } else if c == '7' {
        Some(7)
    } else if c == '8' {
        Some(8)
    } else if c == '9' {
        Some(9)
    } else {
        None
    }
}

/// The number that a run of decimal digits stands for; `None` where a
/// character is no digit. The empty run stands for 0.
pub open spec fn digits_value(digits: Seq<char>) -> Option<nat>
    decreases digits.len(),
{
    if digits.len() == 0 {
        Some(0)
    } else {
        match (digits_value(digits.drop_last()), digit_value(digits.last())) {
            (Some(high), Some(low)) => Some(high * 10 + low),
            _ => None,
        }
    }
}

/// The number a text stands for, read as `usize::from_str` reads it: an
/// optional plus sign, then at least one decimal digit, and a value that
/// fits the machine word. `None` for every other text.
pub open spec fn parsed_usize(text: Seq<char>) -> Option<usize> {
    let digits = if text.len() > 0 && text[0] == '+' {
        text.drop_first()
    } else {
        text
    };
    if digits.len() == 0 {
        None
    } else {
        match digits_value(digits) {
            Some(value) => if value <= usize::MAX {
                Some(value as usize)
            } else {
                None
            },
            None => None,
        }
    }
}

/// The value of a decimal digit.
fn digit_of(c: char) -> (r: Option<usize>)
    ensures
        r is Some == digit_value(c) is Some,
        r matches Some(d) ==> digit_value(c) == Some(d as nat) && d < 10,
{
    if c == '0' {
        Some(0)
    } else if c == '1' {
        Some(1)
    } else if c == '2' {
        Some(2)
    } else if c == '3' {
        Some(3)
    } else if c == '4' {
        Some(4)
    } else if c == '5' {
        Some(5)
    } else if c == '6' {
        Some(6)
    } else if c == '7' {
        Some(7)
    } else if c == '8' {
        Some(8)
    } else if c == '9' {
        Some(9)
    } else {
        None
    }
}

/// A longer run of digits stands for no smaller number.
proof fn lemma_digits_value_grows(digits: Seq<char>, upto: int)
    requires
        0 <= upto <= digits.len(),
        digits_value(digits) is Some,
    ensures
        digits_value(digits.subrange(0, upto)) is Some,
        digits_value(digits.subrange(0, upto))->0 <= digits_value(digits)->0,
    decreases digits.len() - upto,
{
    if upto == digits.len() {
        assert(digits.subrange(0, upto) == digits);
    } else {
        let longer = digits.subrange(0, upto + 1);
        lemma_digits_value_grows(digits, upto + 1);
        assert(longer.drop_last() == digits.subrange(0, upto));
    }
}

/// Where a prefix of a run of digits is no number, the run is none.
proof fn lemma_digits_value_fails(digits: Seq<char>, upto: int)
    requires
        0 <= upto <= digits.len(),
        digits_value(digits.subrange(0, upto)) is None,
    ensures
        digits_value(digits) is None,
    decreases digits.len() - upto,
{
    if upto == digits.len() {
        assert(digits.subrange(0, upto) == digits);
    } else {
        let longer = digits.subrange(0, upto + 1);
        assert(longer.drop_last() == digits.subrange(0, upto));
        lemma_digits_value_fails(digits, upto + 1);
    }
}

/// Reads a number as `usize::from_str` reads it.
pub fn parse_usize(text: &str) -> (r: Option<usize>)
    ensures
        r == parsed_usize(text@),
{
    let chars = chars_of(text);
    let start: usize = if chars.len() > 0 && chars[0] == '+' {
        1
    } else {
        0
    };
    if chars.len() == start {
        return None;
    }
    let ghost digits = chars@.subrange(start as int, chars@.len() as int);
    proof {
        if start == 1 {
            assert(digits == chars@.drop_first());
        } else {
            assert(digits == chars@);
        }
    }
    let ghost wanted = parsed_usize(text@);
    assert(wanted == match digits_value(digits) {
        Some(value) => if value <= usize::MAX {
            Some(value as usize)
        } else {
            None
        },
        None => None,
    });
    let mut value: usize = 0;
    let mut i: usize = start;
    while i < chars.len()
        invariant
            start <= i <= chars.len(),
            digits == chars@.subrange(start as int, chars@.len() as int),
            digits_value(digits.subrange(0, i - start)) == Some(value as nat),
            wanted == parsed_usize(text@),
            wanted == match digits_value(digits) {
                Some(value) => if value <= usize::MAX {
                    Some(value as usize)
                } else {
                    None
                },
                None => None,
            },
        decreases chars.len() - i,
    {
        let ghost longer = digits.subrange(0, i - start + 1);
        proof {
            assert(longer.drop_last() == digits.subrange(0, i - start));
            assert(longer.last() == chars@[i as int]);
        }
        let digit = match digit_of(chars[i]) {
            Some(digit) => digit,
            None => {
                proof {
                    assert(digits_value(longer) is None);
                    lemma_digits_value_fails(digits, i - start + 1);
                }
                return None;
            },
        };
        assert(digits_value(longer) == Some((value * 10 + digit) as nat));
        if value > (usize::MAX - digit) / 10 {
            proof {
                assert(value * 10 + digit > usize::MAX) by (nonlinear_arith)
                    requires
                        value > (usize::MAX - digit) / 10,
                        digit <= usize::MAX,
                ;
                if digits_value(digits) is Some {
                    lemma_digits_value_grows(digits, i - start + 1);
                }
            }
            return None;
        }
        assert(value * 10 + digit <= usize::MAX) by (nonlinear_arith)
            requires
                value <= (usize::MAX - digit) / 10,
                digit <= usize::MAX,
        ;
        value = value * 10 + digit;
        i += 1;
    }
    proof {
        assert(digits.subrange(0, i - start) == digits);
    }
    Some(value)
}

} // verus!
