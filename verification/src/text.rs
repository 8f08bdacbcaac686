//! Small functions on text: the segments of a dotted path, the quotes around a
//! literal, decimal digits, and runs of one character.
use vstd::prelude::*;
use vstd::string::*;

verus! {

/// Scanning forward from `from`: the index of the first `.` at or after it, or
/// the length of `path` where there is none.
pub open spec fn first_dot_from(path: Seq<char>, from: int) -> int
    decreases path.len() - from,
{
    if from < 0 || from >= path.len() {
        path.len() as int
    } else if path[from] == '.' {
        from
    } else {
        first_dot_from(path, from + 1)
    }
}

/// Scanning backward from `before`: the index just after the last `.` that
/// stands before it, or 0 where there is none.
pub open spec fn segment_start_before(path: Seq<char>, before: int) -> int
    decreases before,
{
    if before <= 0 || before > path.len() {
        0
    } else if path[before - 1] == '.' {
        before
    } else {
        segment_start_before(path, before - 1)
    }
}

/// The first segment of a dotted path: the text before its first `.`, or the
/// whole path where it has none.
pub open spec fn first_segment(path: Seq<char>) -> Seq<char> {
    path.take(first_dot_from(path, 0))
}

/// The last segment of a dotted path: the text after its last `.`, or the
/// whole path where it has none.
pub open spec fn last_segment(path: Seq<char>) -> Seq<char> {
    path.skip(segment_start_before(path, path.len() as int))
}

/// Whether `text` holds no `.`.
pub open spec fn dot_free(text: Seq<char>) -> bool {
    forall|i: int| 0 <= i < text.len() ==> text[i] != '.'
}

/// `first_dot_from` stays within the path and stops on a `.` or at the end,
/// with no `.` between `from` and where it stops.
pub proof fn lemma_first_dot_from(path: Seq<char>, from: int)
    requires
        0 <= from <= path.len(),
    ensures
        from <= first_dot_from(path, from) <= path.len(),
        first_dot_from(path, from) < path.len() ==> path[first_dot_from(path, from)] == '.',
        forall|i: int| from <= i < first_dot_from(path, from) ==> path[i] != '.',
    decreases path.len() - from,
{
    if from < path.len() && path[from] != '.' {
        lemma_first_dot_from(path, from + 1);
    }
}

/// `segment_start_before` stays within the path and stops just after a `.` or
/// at the start, with no `.` between where it stops and `before`.
pub proof fn lemma_segment_start_before(path: Seq<char>, before: int)
    requires
        0 <= before <= path.len(),
    ensures
        0 <= segment_start_before(path, before) <= before,
        segment_start_before(path, before) > 0 ==> path[segment_start_before(path, before) - 1]
            == '.',
        forall|i: int| segment_start_before(path, before) <= i < before ==> path[i] != '.',
    decreases before,
{
    if before > 0 && path[before - 1] != '.' {
        lemma_segment_start_before(path, before - 1);
    }
}

/// The first segment is the longest prefix of the path without a `.`.
pub proof fn lemma_first_segment_is_dot_free_prefix(path: Seq<char>)
    ensures
        first_segment(path).is_prefix_of(path),
        dot_free(first_segment(path)),
        first_segment(path).len() == path.len() || path[first_segment(path).len() as int] == '.',
{
    lemma_first_dot_from(path, 0);
}

/// The last segment is the longest suffix of the path without a `.`.
pub proof fn lemma_last_segment_is_dot_free_suffix(path: Seq<char>)
    ensures
        last_segment(path).is_suffix_of(path),
        dot_free(last_segment(path)),
        last_segment(path).len() == path.len() || path[path.len() - last_segment(path).len() - 1]
            == '.',
{
    lemma_segment_start_before(path, path.len() as int);
    let start = segment_start_before(path, path.len() as int);
    assert(last_segment(path) =~= path.subrange(start, path.len() as int));
    assert(path.skip(path.len() - last_segment(path).len()) =~= last_segment(path));
}

/// A path that starts with a segment and a `.` has that segment as its first:
/// in `a.b.c.D` the first segment is `a`.
pub proof fn lemma_first_segment_of_joined(head: Seq<char>, rest: Seq<char>)
    requires
        dot_free(head),
    ensures
        first_segment(head + seq!['.'] + rest) == head,
        first_segment(head) == head,
{
    let path = head + seq!['.'] + rest;
    lemma_first_dot_from(path, 0);
    let stop = first_dot_from(path, 0);
    assert(path[head.len() as int] == '.');
    if stop < head.len() {
        assert(path[stop] == head[stop]);
    }
    assert(stop == head.len());
    assert(path.take(stop) =~= head);
    lemma_first_dot_from(head, 0);
    assert(head.take(first_dot_from(head, 0)) =~= head);
}

/// A path that ends with a `.` and a segment has that segment as its last: in
/// `a.b.c.D` the last segment is `D`.
pub proof fn lemma_last_segment_of_joined(rest: Seq<char>, tail: Seq<char>)
    requires
        dot_free(tail),
    ensures
        last_segment(rest + seq!['.'] + tail) == tail,
        last_segment(tail) == tail,
{
    let path = rest + seq!['.'] + tail;
    lemma_segment_start_before(path, path.len() as int);
    let start = segment_start_before(path, path.len() as int);
    assert(path[rest.len() as int] == '.');
    if start > rest.len() + 1 {
        assert(path[start - 1] == tail[start - 1 - rest.len() - 1]);
    }
    assert(start == rest.len() + 1);
    assert(path.skip(start) =~= tail);
    lemma_segment_start_before(tail, tail.len() as int);
    assert(tail.skip(segment_start_before(tail, tail.len() as int)) =~= tail);
}

/// The first segment of `path`, as a string of its own.
pub fn first_segment_of(path: &str) -> (segment: String)
    ensures
        segment@ == first_segment(path@),
{
    let length = path.unicode_len();
    let mut stop: usize = 0;
    while stop < length && path.get_char(stop) != '.'
        invariant
            stop <= length,
            length == path@.len(),
            first_dot_from(path@, 0) == first_dot_from(path@, stop as int),
        decreases length - stop,
    {
        stop += 1;
    }
    path.substring_char(0, stop).to_owned()
}

/// The last segment of `path`, as a string of its own.
pub fn last_segment_of(path: &str) -> (segment: String)
    ensures
        segment@ == last_segment(path@),
{
    let length = path.unicode_len();
    let mut start: usize = length;
    while start > 0 && path.get_char(start - 1) != '.'
        invariant
            start <= length,
            length == path@.len(),
            segment_start_before(path@, length as int) == segment_start_before(
                path@,
                start as int,
            ),
        decreases start,
    {
        start -= 1;
    }
    path.substring_char(start, length).to_owned()
}

/// `text` without the pair of double quotes around it. Text that does not both
/// start and end with a double quote, or is a lone quote, is left as it is.
pub open spec fn strip_quotes(text: Seq<char>) -> Seq<char> {
    if text.len() >= 2 && text[0] == '"' && text[text.len() - 1] == '"' {
        text.subrange(1, text.len() - 1)
    } else {
        text
    }
}

/// Strips one pair of surrounding double quotes, where there is one.
pub fn without_quotes(text: &str) -> (stripped: String)
    ensures
        stripped@ == strip_quotes(text@),
{
    let length = text.unicode_len();
    if length >= 2 && text.get_char(0) == '"' && text.get_char(length - 1) == '"' {
        text.substring_char(1, length - 1).to_owned()
    } else {
        text.to_owned()
    }
}

/// The character of one decimal digit.
pub open spec fn digit_char(digit: nat) -> char {
    if digit == 0 {
        '0'
    } else if digit == 1 {
        '1'
    } else if digit == 2 {
        '2'
    } else if digit == 3 {
        '3'
    } else if digit == 4 {
        '4'
    } else if digit == 5 {
        '5'
    } else if digit == 6 {
        '6'
    } else if digit == 7 {
        '7'
    } else if digit == 8 {
        '8'
    } else {
        '9'
    }
}

/// A number in decimal digits, most significant first, without leading zeros.
pub open spec fn decimal(number: nat) -> Seq<char>
    decreases number,
{
    if number < 10 {
        seq![digit_char(number)]
    } else {
        decimal(number / 10).push(digit_char(number % 10))
    }
}

/// One decimal digit as text.
fn digit_text(digit: usize) -> (text: &'static str)
    requires
        digit < 10,
    ensures
        text@ == seq![digit_char(digit as nat)],
{
    proof {
        reveal_strlit("0");
        reveal_strlit("1");
        reveal_strlit("2");
        reveal_strlit("3");
        reveal_strlit("4");
        reveal_strlit("5");
        reveal_strlit("6");
        reveal_strlit("7");
        reveal_strlit("8");
        reveal_strlit("9");
    }
    let text = if digit == 0 {
        "0"
    } else if digit == 1 {
        "1"
    } else if digit == 2 {
        "2"
    } else if digit == 3 {
        "3"
    } else if digit == 4 {
        "4"
    } else if digit == 5 {
        "5"
    } else if digit == 6 {
        "6"
    } else if digit == 7 {
        "7"
    } else if digit == 8 {
        "8"
    } else {
        "9"
    };
    assert(text@ =~= seq![digit_char(digit as nat)]);
    text
}

/// `number` written in decimal.
pub fn decimal_text(number: usize) -> (text: String)
    ensures
        text@ == decimal(number as nat),
    decreases number,
{
    if number < 10 {
        digit_text(number).to_owned()
    } else {
        let mut text = decimal_text(number / 10);
        text.append(digit_text(number % 10));
        text
    }
}

/// `count` copies of `unit`, one after the other.
pub open spec fn repeated(unit: Seq<char>, count: nat) -> Seq<char>
    decreases count,
{
    if count == 0 {
        Seq::empty()
    } else {
        repeated(unit, (count - 1) as nat) + unit
    }
}

/// Appends `count` copies of `unit` to `target`.
pub fn append_repeated(target: &mut String, unit: &str, count: usize)
    ensures
        final(target)@ == old(target)@ + repeated(unit@, count as nat),
{
    let mut done: usize = 0;
    while done < count
        invariant
            done <= count,
            target@ == old(target)@ + repeated(unit@, done as nat),
        decreases count - done,
    {
        target.append(unit);
        done += 1;
        assert(target@ =~= old(target)@ + repeated(unit@, done as nat));
    }
}

/// Two runs of one unit, one after the other, are one run of both counts.
pub proof fn lemma_repeated_add(unit: Seq<char>, first: nat, second: nat)
    ensures
        repeated(unit, first) + repeated(unit, second) == repeated(unit, first + second),
    decreases second,
{
    if second == 0 {
        assert(repeated(unit, first) + repeated(unit, 0) =~= repeated(unit, first));
    } else {
        lemma_repeated_add(unit, first, (second - 1) as nat);
        assert(repeated(unit, first) + (repeated(unit, (second - 1) as nat) + unit) =~= (repeated(
            unit,
            first,
        ) + repeated(unit, (second - 1) as nat)) + unit);
    }
}

/// A run of one character repeated is as long as the count, and holds that
/// character throughout.
pub proof fn lemma_repeated_char(unit: char, count: nat)
    ensures
        repeated(seq![unit], count).len() == count,
        forall|i: int| 0 <= i < count ==> repeated(seq![unit], count)[i] == unit,
    decreases count,
{
    if count > 0 {
        lemma_repeated_char(unit, (count - 1) as nat);
    }
}

} // verus!
