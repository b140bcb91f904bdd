//! Reading an operator's answer to a list of candidates.
//!
//! A line is accepted when, with surrounding whitespace removed, it is empty
//! or a decimal number with an optional leading `+`. The empty line stands for
//! the first candidate, `0` declines all of them, and a number from 1 to the
//! number of candidates picks one. Everything else asks again.

use vstd::prelude::*;
use vstd::std_specs::iter::IteratorSpec;

verus! {

/// What an operator's line selects among `count` candidates.
#[derive(Clone, Copy, Debug, PartialEq, Eq, Structural)]
pub enum Selection {
    /// The candidate at this zero-based position.
    Pick(usize),
    /// None of the candidates.
    Decline,
    /// Nothing: the line is not a valid answer and the question is put again.
    Retry,
}

/// Characters with the Unicode property `White_Space`.
pub open spec fn is_space(c: char) -> bool {
    let code = c as u32;
    ||| 0x09 <= code <= 0x0D
    ||| code == 0x20
    ||| code == 0x85
    ||| code == 0xA0
    ||| code == 0x1680
    ||| 0x2000 <= code <= 0x200A
    ||| code == 0x2028
    ||| code == 0x2029
    ||| code == 0x202F
    ||| code == 0x205F
    ||| code == 0x3000
}

/// The decimal digits `0` to `9`.
pub open spec fn is_digit(c: char) -> bool {
    0x30 <= c as u32 <= 0x39
}

/// The number a decimal digit stands for.
pub open spec fn digit_value(c: char) -> nat {
    (c as u32 - 0x30) as nat
}

/// The text without its leading whitespace.
pub open spec fn trim_start(text: Seq<char>) -> Seq<char>
    decreases text.len(),
{
    if text.len() > 0 && is_space(text[0]) {
        trim_start(text.drop_first())
    } else {
        text
    }
}

/// The text without its trailing whitespace.
pub open spec fn trim_end(text: Seq<char>) -> Seq<char>
    decreases text.len(),
{
    if text.len() > 0 && is_space(text.last()) {
        trim_end(text.drop_last())
    } else {
        text
    }
}

/// The text without leading and trailing whitespace.
pub open spec fn trimmed(text: Seq<char>) -> Seq<char> {
    trim_end(trim_start(text))
}

/// Whether every character of the text is a decimal digit.
pub open spec fn all_digits(text: Seq<char>) -> bool {
    forall|i: int| 0 <= i < text.len() ==> is_digit(#[trigger] text[i])
}

/// The number that a sequence of decimal digits denotes.
pub open spec fn decimal_value(digits: Seq<char>) -> nat
    decreases digits.len(),
{
    if digits.len() == 0 {
        0
    } else {
        decimal_value(digits.drop_last()) * 10 + digit_value(digits.last())
    }
}

/// The digits of a number: the text itself, or what follows a leading `+`.
pub open spec fn unsigned_part(text: Seq<char>) -> Seq<char> {
    if text.len() > 0 && text[0] == '+' {
        text.drop_first()
    } else {
        text
    }
}

/// The number that a trimmed text denotes, if it is one.
pub open spec fn parsed_number(text: Seq<char>) -> Option<nat> {
    let digits = unsigned_part(text);
    if digits.len() > 0 && all_digits(digits) {
        Some(decimal_value(digits))
    } else {
        None
    }
}

/// What a number selects among `count` candidates.
pub open spec fn choice(number: nat, count: nat) -> Selection {
    if number == 0 {
        Selection::Decline
    } else if number <= count {
        Selection::Pick((number - 1) as usize)
    } else {
        Selection::Retry
    }
}

/// What a line of operator input selects among `count` candidates.
pub open spec fn selection_of(line: Seq<char>, count: nat) -> Selection {
    let text = trimmed(line);
    if text.len() == 0 {
        choice(1, count)
    } else {
        match parsed_number(text) {
            Some(number) => choice(number, count),
            None => Selection::Retry,
        }
    }
}

/// Tells whitespace from other characters.
pub fn char_is_space(c: char) -> (space: bool)
    ensures
        space == is_space(c),
{
    let code: u32 = c as u32;
    (0x09 <= code && code <= 0x0D) || code == 0x20 || code == 0x85 || code == 0xA0
        || code == 0x1680 || (0x2000 <= code && code <= 0x200A) || code == 0x2028
        || code == 0x2029 || code == 0x202F || code == 0x205F || code == 0x3000
}

/// Collects the characters of a line.
fn chars_of(line: &str) -> (chars: Vec<char>)
    ensures
        chars@ == line@,
{
    broadcast use vstd::string::group_string_axioms;

    let mut chars: Vec<char> = Vec::new();
    let mut rest = line.chars();
    loop
        invariant
            rest.remaining().len() + chars@.len() == line@.len(),
            chars@ + rest.remaining() == line@,
        ensures
            chars@ == line@,
        decreases line@.len() - chars@.len(),
    {
        match rest.next() {
            Some(c) => {
                chars.push(c);
            },
            None => {
                break;
            },
        }
    }
    chars
}

/// Leading whitespace ends at the first character that is none.
proof fn lemma_trim_start_skips(text: Seq<char>, start: int)
    requires
        0 <= start <= text.len(),
        forall|i: int| 0 <= i < start ==> is_space(#[trigger] text[i]),
        start == text.len() || !is_space(text[start]),
    ensures
        trim_start(text) == text.skip(start),
    decreases start,
{
    if start == 0 {
        assert(text.skip(0) =~= text);
    } else {
        assert(is_space(text[0]));
        let rest = text.drop_first();
        assert forall|i: int| 0 <= i < start - 1 implies is_space(#[trigger] rest[i]) by {
            assert(rest[i] == text[i + 1]);
        }
        lemma_trim_start_skips(rest, start - 1);
        assert(rest.skip(start - 1) =~= text.skip(start));
    }
}

/// Trailing whitespace begins after the last character that is none.
proof fn lemma_trim_end_takes(text: Seq<char>, end: int)
    requires
        0 <= end <= text.len(),
        forall|i: int| end <= i < text.len() ==> is_space(#[trigger] text[i]),
        end == 0 || !is_space(text[end - 1]),
    ensures
        trim_end(text) == text.take(end),
    decreases text.len() - end,
{
    if end == text.len() {
        assert(text.take(end) =~= text);
    } else {
        assert(is_space(text[text.len() - 1]));
        let rest = text.drop_last();
        lemma_trim_end_takes(rest, end);
        assert(rest.take(end) =~= text.take(end));
    }
}

/// A number is at least the number that its first digits denote.
proof fn lemma_decimal_value_grows(digits: Seq<char>, k: int)
    requires
        0 <= k <= digits.len(),
    ensures
        decimal_value(digits.take(k)) <= decimal_value(digits),
    decreases digits.len() - k,
{
    if k == digits.len() {
        assert(digits.take(k) =~= digits);
    } else {
        let front = digits.drop_last();
        lemma_decimal_value_grows(front, k);
        assert(front.take(k) =~= digits.take(k));
    }
}

/// The empty line stands for the first candidate.
pub proof fn lemma_empty_line_picks_first(count: nat)
    requires
        1 <= count <= usize::MAX,
    ensures
        selection_of(Seq::empty(), count) == Selection::Pick(0),
{
    let line = Seq::<char>::empty();
    assert(trim_start(line) == line);
    assert(trim_end(line) == line);
}

/// A line of whitespace alone is read as the empty line.
pub proof fn lemma_blank_line_is_empty(line: Seq<char>)
    requires
        forall|i: int| 0 <= i < line.len() ==> is_space(#[trigger] line[i]),
    ensures
        trimmed(line).len() == 0,
{
    lemma_trim_start_skips(line, line.len() as int);
    assert(line.skip(line.len() as int) =~= Seq::<char>::empty());
    assert(trim_end(Seq::<char>::empty()) == Seq::<char>::empty());
}

/// The line `0` declines every candidate.
pub proof fn lemma_zero_declines(count: nat)
    ensures
        selection_of(seq!['0'], count) == Selection::Decline,
{
    let line = seq!['0'];
    assert(!is_space(line[0]));
    assert(trim_start(line) == line);
    assert(trim_end(line) == line);
    assert(unsigned_part(line) == line);
    assert(line.drop_last() =~= Seq::<char>::empty());
    assert(decimal_value(line.drop_last()) == 0);
    assert(decimal_value(line) == 0);
}

/// A line picks a candidate only by its number, counted from 1, and never
/// one beyond the last.
pub proof fn lemma_pick_is_in_range(line: Seq<char>, count: nat)
    requires
        count <= usize::MAX,
    ensures
        selection_of(line, count) matches Selection::Pick(index) ==> index < count && (trimmed(
            line,
        ).len() == 0 && index == 0 || parsed_number(trimmed(line)) == Some((index + 1) as nat)),
{
}

/// A number beyond the last candidate, and a line that is no number, are no
/// answer.
pub proof fn lemma_out_of_range_asks_again(line: Seq<char>, count: nat)
    requires
        trimmed(line).len() > 0,
        parsed_number(trimmed(line)) matches Some(number) ==> number > count,
    ensures
        selection_of(line, count) == Selection::Retry,
{
}

/// Removes leading and trailing whitespace.
fn trim(chars: &Vec<char>) -> (text: Vec<char>)
    ensures
        text@ == trimmed(chars@),
{
    let n: usize = chars.len();
    let mut start: usize = 0;
    while start < n && char_is_space(chars[start])
        invariant
            n == chars@.len(),
            start <= n,
            forall|i: int| 0 <= i < start ==> is_space(#[trigger] chars@[i]),
        decreases n - start,
    {
        start = start + 1;
    }
    let mut end: usize = n;
    while end > start && char_is_space(chars[end - 1])
        invariant
            n == chars@.len(),
            start <= end <= n,
            forall|i: int| end <= i < n ==> is_space(#[trigger] chars@[i]),
        decreases end,
    {
        end = end - 1;
    }
    let mut text: Vec<char> = Vec::new();
    let mut i: usize = start;
    while i < end
        invariant
            start <= i <= end <= chars@.len(),
            text@ == chars@.subrange(start as int, i as int),
        decreases end - i,
    {
        text.push(chars[i]);
        i = i + 1;
    }
    proof {
        let tail = chars@.skip(start as int);
        lemma_trim_start_skips(chars@, start as int);
        assert forall|i: int| end - start <= i < tail.len() implies is_space(#[trigger] tail[i]) by {
            assert(tail[i] == chars@[i + start]);
        }
        lemma_trim_end_takes(tail, end - start);
        assert(tail.take(end - start) =~= chars@.subrange(start as int, end as int));
    }
    text
}

/// Reads a trimmed answer: a number with an optional leading `+`, or nothing.
fn select_trimmed(text: &Vec<char>, count: usize) -> (selection: Selection)
    ensures
        selection == (if text@.len() == 0 {
            choice(1, count as nat)
        } else {
            match parsed_number(text@) {
                Some(number) => choice(number, count as nat),
                None => Selection::Retry,
            }
        }),
{
    let n: usize = text.len();
    if n == 0 {
        return if count >= 1 { Selection::Pick(0) } else { Selection::Retry };
    }
    let first: usize = if text[0] == '+' { 1 } else { 0 };
    let ghost digits = unsigned_part(text@);
    assert(digits =~= text@.skip(first as int));
    if first == n {
        return Selection::Retry;
    }
    let mut value: usize = 0;
    let mut i: usize = first;
    while i < n
        invariant
            n == text@.len(),
            first <= i <= n,
            digits == text@.skip(first as int),
            digits == unsigned_part(text@),
            forall|j: int| 0 <= j < i - first ==> is_digit(#[trigger] digits[j]),
            value == decimal_value(digits.take(i - first)),
            value <= count,
        decreases n - i,
    {
        let code: u32 = text[i] as u32;
        if code < 0x30 || code > 0x39 {
            assert(!is_digit(digits[i - first]));
            return Selection::Retry;
        }
        let digit: usize = (code - 0x30) as usize;
        proof {
            let longer = digits.take(i - first + 1);
            assert(longer.drop_last() =~= digits.take(i - first));
            assert(longer.last() == text@[i as int]);
            assert(decimal_value(longer) == value * 10 + digit);
            lemma_decimal_value_grows(digits, i - first + 1);
        }
        if digit > count || value > (count - digit) / 10 {
            return Selection::Retry;
        }
        value = value * 10 + digit;
        i = i + 1;
    }
    assert(digits.take(n - first) =~= digits);
    if value == 0 {
        Selection::Decline
    } else {
        Selection::Pick(value - 1)
    }
}

/// Reads one line of operator input as a selection among `count` candidates.
///
/// Surrounding whitespace is ignored. The empty line selects the first
/// candidate, `0` declines, a number from 1 to `count` picks the candidate at
/// that place, and any other line is no answer.
pub fn parse_selection(line: &str, count: usize) -> (selection: Selection)
    ensures
        selection == selection_of(line@, count as nat),
{
    let chars = chars_of(line);
    let text = trim(&chars);
    select_trimmed(&text, count)
}

} // verus!
