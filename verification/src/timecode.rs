//! Elapsed-time codes of transcript records.
//!
//! A code is text of the shape `H:MM:SS`, `MM:SS` or plain seconds. It is read
//! leniently: a field that is no integer counts as zero, and a code of any
//! other shape is worth zero seconds, so that a damaged code never stops a
//! replay.

use vstd::prelude::*;

verus! {

/// The separator between the fields of a time code.
pub open spec fn is_separator(c: char) -> bool {
    c == ':'
}

/// Whether `c` is one of the ten ASCII digits.
pub open spec fn is_digit(c: char) -> bool {
    '0' <= c && c <= '9'
}

/// The number that the digit `c` stands for.
pub open spec fn digit_value(c: char) -> int {
    c as int - '0' as int
}

/// Whether every character of `s` is an ASCII digit.
pub open spec fn all_digits(s: Seq<char>) -> bool {
    forall|i: int| 0 <= i < s.len() ==> is_digit(#[trigger] s[i])
}

/// The number written by the digits `s` in base ten; the empty text is zero.
pub open spec fn decimal_value(s: Seq<char>) -> int
    decreases s.len(),
{
    if s.len() == 0 {
        0
    } else {
        decimal_value(s.drop_last()) * 10 + digit_value(s.last())
    }
}

/// Whether `s` starts with a sign.
pub open spec fn has_sign(s: Seq<char>) -> bool {
    s.len() > 0 && (s[0] == '-' || s[0] == '+')
}

/// The digits of a field: what follows the optional sign.
pub open spec fn field_digits(s: Seq<char>) -> Seq<char> {
    if has_sign(s) {
        s.skip(1)
    } else {
        s
    }
}

/// The integer that the field `s` writes, if it writes one: an optional `+`
/// or `-`, then at least one digit and nothing else, for a value that a
/// 32-bit signed integer holds.
pub open spec fn parse_field(s: Seq<char>) -> Option<int> {
    let digits = field_digits(s);
    let magnitude = decimal_value(digits);
    let value = if s.len() > 0 && s[0] == '-' {
        -magnitude
    } else {
        magnitude
    };
    if digits.len() > 0 && all_digits(digits) && i32::MIN <= value <= i32::MAX {
        Some(value)
    } else {
        None
    }
}

/// What a field counts for: its integer, or zero where it writes none.
pub open spec fn field_value(s: Seq<char>) -> int {
    match parse_field(s) {
        Some(v) => v,
        None => 0,
    }
}

/// The fields of `s`: the runs of characters between its separators. There
/// is always one field more than there are separators, so the empty text has
/// one empty field.
pub open spec fn split_fields(s: Seq<char>) -> Seq<Seq<char>>
    decreases s.len(),
{
    if s.len() == 0 {
        seq![Seq::<char>::empty()]
    } else {
        let before = split_fields(s.drop_last());
        if is_separator(s.last()) {
            before.push(Seq::<char>::empty())
        } else {
            before.drop_last().push(before.last().push(s.last()))
        }
    }
}

/// The fields of a code put together again, with a separator between each
/// two.
pub open spec fn join_fields(fields: Seq<Seq<char>>) -> Seq<char>
    decreases fields.len(),
{
    if fields.len() == 0 {
        Seq::<char>::empty()
    } else if fields.len() == 1 {
        fields[0]
    } else {
        join_fields(fields.drop_last()) + seq![':'] + fields.last()
    }
}

/// The second offset that the time code `s` stands for: hours, minutes and
/// seconds for three fields, minutes and seconds for two, seconds for one,
/// and zero for any other shape.
pub open spec fn timecode_seconds(s: Seq<char>) -> int {
    let fields = split_fields(s);
    if fields.len() == 3 {
        field_value(fields[0]) * 3600 + field_value(fields[1]) * 60 + field_value(fields[2])
    } else if fields.len() == 2 {
        field_value(fields[0]) * 60 + field_value(fields[1])
    } else if fields.len() == 1 {
        field_value(fields[0])
    } else {
        0
    }
}

/// The least and the greatest offset that any time code can stand for.
pub open spec fn offset_in_range(seconds: int) -> bool {
    i32::MIN * 3661 <= seconds <= i32::MAX * 3661
}

/// Every split has at least one field.
pub proof fn lemma_split_nonempty(s: Seq<char>)
    ensures
        split_fields(s).len() >= 1,
    decreases s.len(),
{
    if s.len() > 0 {
        lemma_split_nonempty(s.drop_last());
    }
}

/// Splitting loses nothing and invents nothing: no field holds a separator,
/// and the fields joined by separators are the text that was split.
pub proof fn lemma_split_join(s: Seq<char>)
    ensures
        join_fields(split_fields(s)) == s,
        forall|k: int, i: int|
            0 <= k < split_fields(s).len() && 0 <= i < split_fields(s)[k].len()
                ==> !is_separator(#[trigger] split_fields(s)[k][i]),
    decreases s.len(),
{
    let fields = split_fields(s);
    if s.len() == 0 {
        assert(join_fields(fields) == s);
    } else {
        let shorter = s.drop_last();
        let before = split_fields(shorter);
        lemma_split_join(shorter);
        lemma_split_nonempty(shorter);
        if is_separator(s.last()) {
            assert(fields.drop_last() == before);
            assert(join_fields(fields) == join_fields(before) + seq![':'] + fields.last());
            assert(shorter + seq![':'] + Seq::<char>::empty() == s);
        } else {
            let grown = before.last().push(s.last());
            assert(fields.last() == grown);
            assert(fields.drop_last() == before.drop_last());
            if before.len() == 1 {
                assert(join_fields(before) == before[0]);
                assert(join_fields(fields) == grown);
                assert(shorter.push(s.last()) == s);
            } else {
                assert(join_fields(before) == join_fields(before.drop_last()) + seq![':']
                    + before.last());
                assert(join_fields(fields) == join_fields(before.drop_last()) + seq![':'] + grown);
                assert((join_fields(before.drop_last()) + seq![':'] + before.last()).push(
                    s.last(),
                ) == join_fields(before.drop_last()) + seq![':'] + grown);
                assert(shorter.push(s.last()) == s);
            }
        }
        assert forall|k: int, i: int|
            0 <= k < fields.len() && 0 <= i < fields[k].len() implies !is_separator(
            #[trigger] fields[k][i],
        ) by {
            if k < fields.len() - 1 {
                assert(fields[k] == before[k]);
            } else if !is_separator(s.last()) {
                if i < before.last().len() {
                    assert(fields[k][i] == before.last()[i]);
                }
            }
        }
    }
}

/// The digits of a number never write less than a leading part of them does.
proof fn lemma_decimal_prefix(s: Seq<char>, n: int)
    requires
        all_digits(s),
        0 <= n <= s.len(),
    ensures
        0 <= decimal_value(s.take(n)) <= decimal_value(s),
    decreases s.len() - n,
{
    lemma_decimal_nonnegative(s.take(n));
    if n < s.len() {
        lemma_decimal_prefix(s, n + 1);
        let longer = s.take(n + 1);
        assert(longer.drop_last() == s.take(n));
        assert(is_digit(s[n]));
        assert(longer.last() == s[n]);
    } else {
        assert(s.take(n) == s);
    }
}

/// Digits write a number that is not negative.
proof fn lemma_decimal_nonnegative(s: Seq<char>)
    requires
        all_digits(s),
    ensures
        0 <= decimal_value(s),
    decreases s.len(),
{
    if s.len() > 0 {
        lemma_decimal_nonnegative(s.drop_last());
        assert(is_digit(s.last()));
    }
}

/// Every time code stands for an offset between the two bounds of
/// `offset_in_range`.
pub proof fn lemma_timecode_in_range(s: Seq<char>)
    ensures
        offset_in_range(timecode_seconds(s)),
{
    let fields = split_fields(s);
    if fields.len() == 3 {
        let (h, m, sec) = (field_value(fields[0]), field_value(fields[1]), field_value(fields[2]));
        assert(i32::MIN <= h <= i32::MAX && i32::MIN <= m <= i32::MAX && i32::MIN <= sec
            <= i32::MAX);
    } else if fields.len() == 2 {
        let (m, sec) = (field_value(fields[0]), field_value(fields[1]));
        assert(i32::MIN <= m <= i32::MAX && i32::MIN <= sec <= i32::MAX);
    } else if fields.len() == 1 {
        let sec = field_value(fields[0]);
        assert(i32::MIN <= sec <= i32::MAX);
    }
}

/// The characters of `text`, in order.
pub fn chars_of(text: &str) -> (chars: Vec<char>)
    ensures
        chars@ == text@,
{
    let mut chars: Vec<char> = Vec::new();
    for c in it: text.chars()
        invariant
            it.seq() == text@,
            chars@ == text@.take(it.index() as int),
    {
        chars.push(c);
        assert(text@.take(it.index() + 1) == text@.take(it.index() as int).push(
            text@[it.index() as int],
        ));
    }
    assert(text@.take(text@.len() as int) == text@);
    chars
}

/// Where the fields of `chars` begin and end: for each field, in order, the
/// index of its first character and the index after its last.
pub fn field_bounds(chars: &Vec<char>) -> (bounds: Vec<(usize, usize)>)
    ensures
        bounds@.len() == split_fields(chars@).len(),
        forall|k: int|
            0 <= k < bounds@.len() ==> {
                &&& (#[trigger] bounds@[k]).0 <= bounds@[k].1 <= chars@.len()
                &&& chars@.subrange(bounds@[k].0 as int, bounds@[k].1 as int) == split_fields(
                    chars@,
                )[k]
            },
{
    let n: usize = chars.len();
    let mut bounds: Vec<(usize, usize)> = Vec::new();
    let mut start: usize = 0;
    let mut i: usize = 0;
    assert(chars@.take(0) == Seq::<char>::empty());
    assert(chars@.subrange(0, 0) == Seq::<char>::empty());
    while i < n
        invariant
            n == chars@.len(),
            start <= i <= n,
            split_fields(chars@.take(i as int)).len() == bounds@.len() + 1,
            split_fields(chars@.take(i as int)).last() == chars@.subrange(start as int, i as int),
            forall|k: int|
                0 <= k < bounds@.len() ==> {
                    &&& (#[trigger] bounds@[k]).0 <= bounds@[k].1 <= n
                    &&& chars@.subrange(bounds@[k].0 as int, bounds@[k].1 as int) == split_fields(
                        chars@.take(i as int),
                    )[k]
                },
        decreases n - i,
    {
        let ghost seen = chars@.take(i as int);
        let ghost grown = chars@.take(i + 1);
        let ghost before = split_fields(seen);
        assert(grown.drop_last() == seen);
        assert(grown.last() == chars@[i as int]);
        if chars[i] == ':' {
            bounds.push((start, i));
            start = i + 1;
            assert(split_fields(grown) == before.push(Seq::<char>::empty()));
            assert(chars@.subrange(start as int, i + 1) == Seq::<char>::empty());
        } else {
            assert(split_fields(grown) == before.drop_last().push(
                before.last().push(chars@[i as int]),
            ));
            assert(chars@.subrange(start as int, i as int).push(chars@[i as int])
                == chars@.subrange(start as int, i + 1));
        }
        i = i + 1;
    }
    assert(chars@.take(n as int) == chars@);
    bounds.push((start, n));
    bounds
}

/// Reads the field that `chars` holds from `start` up to `end` as an
/// integer.
pub fn parse_field_at(chars: &Vec<char>, start: usize, end: usize) -> (value: Option<i32>)
    requires
        start <= end <= chars@.len(),
    ensures
        match value {
            Some(v) => parse_field(chars@.subrange(start as int, end as int)) == Some(v as int),
            None => parse_field(chars@.subrange(start as int, end as int)) is None,
        },
{
    let ghost field = chars@.subrange(start as int, end as int);
    let mut negative: bool = false;
    let mut first: usize = start;
    if start < end {
        assert(field[0] == chars@[start as int]);
        if chars[start] == '-' {
            negative = true;
            first = start + 1;
        } else if chars[start] == '+' {
            first = start + 1;
        }
    }
    let ghost digits = field_digits(field);
    assert(digits == chars@.subrange(first as int, end as int));
    if first == end {
        return None;
    }
    let mut magnitude: i64 = 0;
    let mut i: usize = first;
    assert(digits.take(0) == Seq::<char>::empty());
    while i < end
        invariant
            start <= first <= i <= end <= chars@.len(),
            digits == chars@.subrange(first as int, end as int),
            digits == field_digits(chars@.subrange(start as int, end as int)),
            digits.len() > 0,
            all_digits(digits.take(i - first)),
            magnitude == decimal_value(digits.take(i - first)),
            0 <= magnitude <= 2147483648,
        decreases end - i,
    {
        let c: char = chars[i];
        let ghost seen = digits.take(i - first);
        let ghost grown = digits.take(i - first + 1);
        assert(digits[i - first] == c);
        assert(grown.drop_last() == seen);
        assert(grown.last() == c);
        if !(c >= '0' && c <= '9') {
            assert(!all_digits(digits));
            return None;
        }
        let d: i64 = (c as u32 - '0' as u32) as i64;
        magnitude = magnitude * 10 + d;
        assert(all_digits(grown)) by {
            assert forall|j: int| 0 <= j < grown.len() implies is_digit(#[trigger] grown[j]) by {
                if j < seen.len() {
                    assert(grown[j] == seen[j]);
                }
            }
        }
        if magnitude > 2147483648 {
            proof {
                if all_digits(digits) {
                    lemma_decimal_prefix(digits, i - first + 1);
                }
            }
            return None;
        }
        i = i + 1;
    }
    assert(digits.take(end - first) == digits);
    if negative {
        Some((-magnitude) as i32)
    } else if magnitude <= 2147483647 {
        Some(magnitude as i32)
    } else {
        None
    }
}

/// What the field from `start` up to `end` counts for: its integer, or zero.
fn field_value_at(chars: &Vec<char>, start: usize, end: usize) -> (value: i64)
    requires
        start <= end <= chars@.len(),
    ensures
        value == field_value(chars@.subrange(start as int, end as int)),
{
    match parse_field_at(chars, start, end) {
        Some(v) => v as i64,
        None => 0,
    }
}

/// The second offset that the time code `time_str` stands for.
///
/// Three fields are hours, minutes and seconds; two are minutes and seconds;
/// one is seconds. A field that is no integer counts as zero, and a code
/// with more than three fields is worth zero.
pub fn parse_time_to_time(time_str: &str) -> (seconds: i64)
    ensures
        seconds == timecode_seconds(time_str@),
        offset_in_range(seconds as int),
{
    let chars = chars_of(time_str);
    let bounds = field_bounds(&chars);
    proof {
        lemma_timecode_in_range(time_str@);
    }
    if bounds.len() == 3 {
        let hours = field_value_at(&chars, bounds[0].0, bounds[0].1);
        let minutes = field_value_at(&chars, bounds[1].0, bounds[1].1);
        let secs = field_value_at(&chars, bounds[2].0, bounds[2].1);
        hours * 3600 + minutes * 60 + secs
    } else if bounds.len() == 2 {
        let minutes = field_value_at(&chars, bounds[0].0, bounds[0].1);
        let secs = field_value_at(&chars, bounds[1].0, bounds[1].1);
        minutes * 60 + secs
    } else if bounds.len() == 1 {
        field_value_at(&chars, bounds[0].0, bounds[0].1)
    } else {
        0
    }
}

/// The second offset that the time code `time_str` stands for; another name
/// for `parse_time_to_time`.
pub fn parse_time_to_seconds(time_str: &str) -> (seconds: i64)
    ensures
        seconds == timecode_seconds(time_str@),
        offset_in_range(seconds as int),
{
    parse_time_to_time(time_str)
}

} // verus!
