//! The text in which the fields of an event are written: strings in double
//! quotes with backslash escapes, integers in decimal.

use vstd::prelude::*;

verus! {

/// The lower-case hexadecimal digit of a number below sixteen.
pub open spec fn hex_digit(n: int) -> char {
    if n < 10 {
        (n + 48) as u8 as char
    } else {
        (n + 87) as u8 as char
    }
}

/// The text that stands for one character inside double quotes.
///
/// The quote and the backslash are escaped with a backslash; backspace, form
/// feed, line feed, carriage return and tab have their short escapes; any
/// other character below U+0020 is written as `\u00` and two hexadecimal
/// digits; every other character stands for itself.
pub open spec fn escaped_char(c: char) -> Seq<char> {
    if c == '"' {
        seq!['\\', '"']
    } else if c == '\\' {
        seq!['\\', '\\']
    } else if c == '\u{8}' {
        seq!['\\', 'b']
    } else if c == '\u{c}' {
        seq!['\\', 'f']
    } else if c == '\n' {
        seq!['\\', 'n']
    } else if c == '\r' {
        seq!['\\', 'r']
    } else if c == '\t' {
        seq!['\\', 't']
    } else if (c as u32) < 32 {
        seq![
            '\\',
            'u',
            '0',
            '0',
            hex_digit((c as u32) as int / 16),
            hex_digit((c as u32) as int % 16),
        ]
    } else {
        seq![c]
    }
}

/// The text that stands for a string inside double quotes.
pub open spec fn escaped(s: Seq<char>) -> Seq<char>
    decreases s.len(),
{
    if s.len() == 0 {
        Seq::empty()
    } else {
        escaped_char(s[0]) + escaped(s.drop_first())
    }
}

/// A string in double quotes.
pub open spec fn quoted(s: Seq<char>) -> Seq<char> {
    seq!['"'] + escaped(s) + seq!['"']
}

/// The escapes of two strings written one after the other.
pub proof fn escaped_add(first: Seq<char>, second: Seq<char>)
    ensures
        escaped(first + second) == escaped(first) + escaped(second),
    decreases first.len(),
{
    if first.len() == 0 {
        assert(first + second == second);
    } else {
        escaped_add(first.drop_first(), second);
        assert((first + second).drop_first() == first.drop_first() + second);
        assert((first + second)[0] == first[0]);
    }
}

fn hex_char(n: u8) -> (c: char)
    requires
        n < 16,
    ensures
        c == hex_digit(n as int),
{
    if n < 10 {
        (n + 48) as char
    } else {
        (n + 87) as char
    }
}

/// Appends the escape of one character.
fn write_escaped_char(out: &mut String, c: char)
    ensures
        final(out)@ == old(out)@ + escaped_char(c),
{
    if c == '"' {
        out.push('\\');
        out.push('"');
    } else if c == '\\' {
        out.push('\\');
        out.push('\\');
    } else if c == '\u{8}' {
        out.push('\\');
        out.push('b');
    } else if c == '\u{c}' {
        out.push('\\');
        out.push('f');
    } else if c == '\n' {
        out.push('\\');
        out.push('n');
    } else if c == '\r' {
        out.push('\\');
        out.push('r');
    } else if c == '\t' {
        out.push('\\');
        out.push('t');
    } else if (c as u32) < 32 {
        let code = c as u32 as u8;
        out.push('\\');
        out.push('u');
        out.push('0');
        out.push('0');
        out.push(hex_char(code / 16));
        out.push(hex_char(code % 16));
    } else {
        out.push(c);
    }
}

/// Appends a string in double quotes.
pub fn write_quoted(out: &mut String, s: &str)
    ensures
        final(out)@ == old(out)@ + quoted(s@),
{
    out.push('"');
    for c in it: s.chars()
        invariant
            it.seq() == s@,
            out@ == old(out)@ + seq!['"'] + escaped(s@.take(it.index() as int)),
    {
        proof {
            let done = s@.take(it.index() as int);
            escaped_add(done, seq![c]);
            assert(s@.take(it.index() + 1) == done + seq![c]);
            assert(seq![c].drop_first() == Seq::<char>::empty());
            assert(escaped(seq![c]) == escaped_char(c) + escaped(Seq::<char>::empty()));
        }
        write_escaped_char(out, c);
    }
    assert(s@.take(s@.len() as int) == s@);
    out.push('"');
}

/// The decimal digit of a number below ten.
pub open spec fn digit_char(n: int) -> char {
    (n + 48) as u8 as char
}

/// The decimal digits of a natural number, without leading zeros.
pub open spec fn digits(n: nat) -> Seq<char>
    decreases n,
{
    if n < 10 {
        seq![digit_char(n as int)]
    } else {
        digits(n / 10).push(digit_char((n % 10) as int))
    }
}

/// An integer in decimal, with a minus sign in front of a negative one.
pub open spec fn int_text(n: int) -> Seq<char> {
    if n < 0 {
        seq!['-'] + digits((-n) as nat)
    } else {
        digits(n as nat)
    }
}

/// Appends an integer in decimal.
pub fn write_int(out: &mut String, n: i64)
    ensures
        final(out)@ == old(out)@ + int_text(n as int),
{
    let magnitude: u64 = if n < 0 {
        out.push('-');
        if n == i64::MIN {
            9223372036854775808u64
        } else {
            (-n) as u64
        }
    } else {
        n as u64
    };
    let ghost start = out@;
    let mut low_first: Vec<char> = Vec::new();
    let mut rest: u64 = magnitude;
    while rest >= 10
        invariant
            digits(magnitude as nat) == digits(rest as nat) + Seq::new(
                low_first@.len(),
                |k: int| low_first@[low_first@.len() - 1 - k],
            ),
        decreases rest,
    {
        let ghost earlier = low_first@;
        low_first.push(((rest % 10) as u8 + 48) as char);
        assert(Seq::new(low_first@.len(), |k: int| low_first@[low_first@.len() - 1 - k]) == seq![
            digit_char((rest % 10) as int),
        ] + Seq::new(earlier.len(), |k: int| earlier[earlier.len() - 1 - k]));
        rest = rest / 10;
    }
    out.push((rest as u8 + 48) as char);
    let mut k: usize = low_first.len();
    while k > 0
        invariant
            k <= low_first.len(),
            out@ == start + seq![digit_char(rest as int)] + Seq::new(
                (low_first@.len() - k) as nat,
                |j: int| low_first@[low_first@.len() - 1 - j],
            ),
        decreases k,
    {
        k = k - 1;
        out.push(low_first[k]);
    }
    assert(out@ == start + digits(magnitude as nat));
}

/// Where `literal` ends, if it stands in `text` at `pos`.
pub open spec fn literal_at(text: Seq<char>, pos: int, literal: Seq<char>) -> Option<int> {
    if 0 <= pos && pos + literal.len() <= text.len() && text.subrange(
        pos,
        pos + literal.len(),
    ) == literal {
        Some(pos + literal.len())
    } else {
        None
    }
}

/// The number that a lower-case hexadecimal digit stands for.
pub open spec fn hex_value(c: char) -> Option<int> {
    let code = c as u32;
    if 48 <= code <= 57 {
        Some(code - 48)
    } else if 97 <= code <= 102 {
        Some(code - 87)
    } else {
        None
    }
}

/// The character that is written in `text` at `pos`, and where its text
/// ends: a character that stands for itself, or one of the escapes of
/// [`escaped_char`].
pub open spec fn char_at(text: Seq<char>, pos: int) -> Option<(char, int)> {
    if !(0 <= pos < text.len()) {
        None
    } else if text[pos] != '\\' {
        Some((text[pos], pos + 1))
    } else if pos + 1 >= text.len() {
        None
    } else if text[pos + 1] == '"' {
        Some(('"', pos + 2))
    } else if text[pos + 1] == '\\' {
        Some(('\\', pos + 2))
    } else if text[pos + 1] == 'b' {
        Some(('\u{8}', pos + 2))
    } else if text[pos + 1] == 'f' {
        Some(('\u{c}', pos + 2))
    } else if text[pos + 1] == 'n' {
        Some(('\n', pos + 2))
    } else if text[pos + 1] == 'r' {
        Some(('\r', pos + 2))
    } else if text[pos + 1] == 't' {
        Some(('\t', pos + 2))
    } else if text[pos + 1] == 'u' && pos + 6 <= text.len() && text[pos + 2] == '0' && text[pos
        + 3] == '0' && hex_value(text[pos + 4]) is Some && hex_value(text[pos + 5]) is Some {
        Some(
            (
                (hex_value(text[pos + 4])->0 * 16 + hex_value(text[pos + 5])->0) as u8 as char,
                pos + 6,
            ),
        )
    } else {
        None
    }
}

/// The string whose escaped text starts in `text` at `pos` and runs up to a
/// double quote, and the position after that quote.
pub open spec fn string_body_at(text: Seq<char>, pos: int) -> Option<(Seq<char>, int)>
    decreases text.len() - pos,
{
    if !(0 <= pos < text.len()) {
        None
    } else if text[pos] == '"' {
        Some((Seq::empty(), pos + 1))
    } else {
        match char_at(text, pos) {
            None => None,
            Some((c, next)) => match string_body_at(text, next) {
                None => None,
                Some((tail, end)) => Some((seq![c] + tail, end)),
            },
        }
    }
}

/// The string that is written in double quotes in `text` at `pos`, and
/// where its text ends.
pub open spec fn quoted_at(text: Seq<char>, pos: int) -> Option<(Seq<char>, int)> {
    if 0 <= pos < text.len() && text[pos] == '"' {
        string_body_at(text, pos + 1)
    } else {
        None
    }
}

/// The escape of a character is read back as that character.
pub proof fn escaped_char_is_read(text: Seq<char>, pos: int, c: char)
    requires
        0 <= pos,
        pos + escaped_char(c).len() <= text.len(),
        text.subrange(pos, pos + escaped_char(c).len()) == escaped_char(c),
    ensures
        char_at(text, pos) == Some((c, pos + escaped_char(c).len())),
        text[pos] != '"',
{
    let e = escaped_char(c);
    assert forall|k: int| 0 <= k < e.len() implies text[pos + k] == e[k] by {
        assert(text.subrange(pos, pos + e.len())[k] == text[pos + k]);
    }
    assert(text[pos] == e[0]);
    if e.len() >= 2 {
        assert(text[pos + 1] == e[1]);
    }
    if e.len() == 6 {
        assert(text[pos + 2] == e[2]);
        assert(text[pos + 3] == e[3]);
        assert(text[pos + 4] == e[4]);
        assert(text[pos + 5] == e[5]);
        let code = (c as u32) as int;
        assert(hex_value(hex_digit(code / 16)) == Some(code / 16));
        assert(hex_value(hex_digit(code % 16)) == Some(code % 16));
        assert(((code / 16) * 16 + code % 16) as u8 as char == c);
    }
}

/// The escaped text of a string, followed by a double quote, is read back
/// as that string.
pub proof fn string_body_is_read(text: Seq<char>, pos: int, s: Seq<char>)
    requires
        0 <= pos,
        pos + escaped(s).len() < text.len(),
        text.subrange(pos, pos + escaped(s).len()) == escaped(s),
        text[pos + escaped(s).len()] == '"',
    ensures
        string_body_at(text, pos) == Some((s, pos + escaped(s).len() + 1)),
    decreases s.len(),
{
    if s.len() > 0 {
        let head = escaped_char(s[0]);
        let rest = escaped(s.drop_first());
        assert(text.subrange(pos, pos + head.len()) == head) by {
            assert(text.subrange(pos, pos + escaped(s).len()).subrange(0, head.len() as int)
                == text.subrange(pos, pos + head.len()));
            assert((head + rest).subrange(0, head.len() as int) == head);
        }
        escaped_char_is_read(text, pos, s[0]);
        assert(text.subrange(pos + head.len(), pos + head.len() + rest.len()) == rest) by {
            assert(text.subrange(pos, pos + escaped(s).len()).subrange(
                head.len() as int,
                (head.len() + rest.len()) as int,
            ) == text.subrange(pos + head.len(), pos + head.len() + rest.len()));
            assert((head + rest).subrange(head.len() as int, (head.len() + rest.len()) as int)
                == rest);
        }
        string_body_is_read(text, pos + head.len(), s.drop_first());
        assert(seq![s[0]] + s.drop_first() == s);
    }
}

/// A string in double quotes is read back as that string.
pub proof fn quoted_is_read(text: Seq<char>, pos: int, s: Seq<char>)
    requires
        0 <= pos,
        pos + quoted(s).len() <= text.len(),
        text.subrange(pos, pos + quoted(s).len()) == quoted(s),
    ensures
        quoted_at(text, pos) == Some((s, pos + quoted(s).len())),
{
    let q = quoted(s);
    let e = escaped(s);
    let n = e.len() as int;
    assert(q.len() == n + 2);
    assert(text[pos] == '"') by {
        assert(text.subrange(pos, pos + q.len())[0] == text[pos]);
        assert(q[0] == '"');
    }
    assert(text[pos + 1 + n] == '"') by {
        assert(text.subrange(pos, pos + q.len())[1 + n] == text[pos + 1 + n]);
        assert(q[1 + n] == '"');
    }
    assert(text.subrange(pos + 1, pos + 1 + n) == e) by {
        assert(text.subrange(pos, pos + q.len()).subrange(1, 1 + n) == text.subrange(
            pos + 1,
            pos + 1 + n,
        ));
        assert(q.subrange(1, 1 + n) == e);
    }
    string_body_is_read(text, pos + 1, s);
}

/// Whether a character is a decimal digit.
pub open spec fn is_digit(c: char) -> bool {
    48 <= c as u32 <= 57
}

/// Where the run of decimal digits that starts in `text` at `pos` ends.
pub open spec fn digits_end(text: Seq<char>, pos: int) -> int
    decreases text.len() - pos,
{
    if 0 <= pos < text.len() && is_digit(text[pos]) {
        digits_end(text, pos + 1)
    } else {
        pos
    }
}

/// The number that a run of decimal digits stands for.
pub open spec fn digits_value(run: Seq<char>) -> nat
    decreases run.len(),
{
    if run.len() == 0 {
        0
    } else {
        (digits_value(run.drop_last()) * 10 + (run.last() as u32 - 48)) as nat
    }
}

/// The integer that is written in decimal in `text` at `pos`, and where its
/// text ends: an optional minus sign and a run of at least one digit whose
/// value fits the sequence type.
pub open spec fn int_at(text: Seq<char>, pos: int) -> Option<(i64, int)> {
    let negative = 0 <= pos < text.len() && text[pos] == '-';
    let start = if negative {
        pos + 1
    } else {
        pos
    };
    let end = digits_end(text, start);
    let magnitude = digits_value(text.subrange(start, end));
    let value = if negative {
        -magnitude
    } else {
        magnitude as int
    };
    if pos < 0 || end == start || value < i64::MIN || value > i64::MAX {
        None
    } else {
        Some((value as i64, end))
    }
}

/// A run of digits ends at or after its start, within the text.
pub proof fn digits_end_bounds(text: Seq<char>, pos: int)
    requires
        0 <= pos <= text.len(),
    ensures
        pos <= digits_end(text, pos) <= text.len(),
        forall|k: int| pos <= k < digits_end(text, pos) ==> is_digit(#[trigger] text[k]),
        digits_end(text, pos) < text.len() ==> !is_digit(text[digits_end(text, pos)]),
    decreases text.len() - pos,
{
    if pos < text.len() && is_digit(text[pos]) {
        digits_end_bounds(text, pos + 1);
    }
}

/// A stretch of digits that is followed by no digit is a whole run.
pub proof fn digits_end_of_run(text: Seq<char>, start: int, end: int)
    requires
        0 <= start <= end <= text.len(),
        forall|k: int| start <= k < end ==> is_digit(#[trigger] text[k]),
        end == text.len() || !is_digit(text[end]),
    ensures
        digits_end(text, start) == end,
    decreases end - start,
{
    if start < end {
        digits_end_of_run(text, start + 1, end);
    }
}

/// A run of digits stands for at least as much as any of its prefixes.
pub proof fn digits_value_grows(run: Seq<char>, k: int)
    requires
        0 <= k <= run.len(),
        forall|j: int| 0 <= j < run.len() ==> is_digit(#[trigger] run[j]),
    ensures
        digits_value(run.take(k)) <= digits_value(run),
    decreases run.len(),
{
    if k < run.len() {
        digits_value_grows(run.drop_last(), k);
        assert(run.drop_last().take(k) == run.take(k));
    } else {
        assert(run.take(k) == run);
    }
}

/// The digits of a number are digits, and they stand for that number.
pub proof fn digits_are_read(n: nat)
    ensures
        digits(n).len() >= 1,
        forall|k: int| 0 <= k < digits(n).len() ==> is_digit(#[trigger] digits(n)[k]),
        digits_value(digits(n)) == n,
    decreases n,
{
    if n < 10 {
        assert(digits(n).drop_last() == Seq::<char>::empty());
        assert(digits_value(digits(n).drop_last()) == 0);
    } else {
        digits_are_read(n / 10);
        assert(digits(n).drop_last() == digits(n / 10));
    }
}

/// An integer in decimal that is followed by no digit is read back as that
/// integer.
pub proof fn int_is_read(text: Seq<char>, pos: int, n: i64)
    requires
        0 <= pos,
        pos + int_text(n as int).len() <= text.len(),
        text.subrange(pos, pos + int_text(n as int).len()) == int_text(n as int),
        pos + int_text(n as int).len() == text.len() || !is_digit(
            text[pos + int_text(n as int).len()],
        ),
    ensures
        int_at(text, pos) == Some((n, pos + int_text(n as int).len())),
{
    let t = int_text(n as int);
    let magnitude: nat = if n < 0 {
        (-n) as nat
    } else {
        n as nat
    };
    let run = digits(magnitude);
    digits_are_read(magnitude);
    assert forall|k: int| 0 <= k < t.len() implies text[pos + k] == t[k] by {
        assert(text.subrange(pos, pos + t.len())[k] == text[pos + k]);
    }
    let start = if n < 0 {
        pos + 1
    } else {
        pos
    };
    let end = pos + t.len();
    assert(text[pos] == t[0]);
    if n >= 0 {
        assert(is_digit(run[0]));
        assert(text[pos] != '-');
    }
    assert forall|k: int| start <= k < end implies is_digit(#[trigger] text[k]) by {
        assert(text[k] == t[k - pos]);
        assert(t[k - pos] == run[k - start]);
    }
    digits_end_of_run(text, start, end);
    assert(text.subrange(start, end) =~= run) by {
        assert(end - start == run.len());
        assert forall|k: int| 0 <= k < run.len() implies text.subrange(start, end)[k]
            == run[k] by {
            assert(text[start + k] == t[start + k - pos]);
        }
    }
}

/// The characters of a string, in order.
pub fn chars_of(s: &str) -> (chars: Vec<char>)
    ensures
        chars@ == s@,
{
    let mut chars: Vec<char> = Vec::new();
    for c in it: s.chars()
        invariant
            it.seq() == s@,
            chars@ == s@.take(it.index() as int),
    {
        chars.push(c);
    }
    assert(s@.take(s@.len() as int) == s@);
    chars
}

/// Steps over `literal` if it stands in `text` at `pos`.
pub fn read_literal(text: &Vec<char>, pos: usize, literal: &str) -> (next: Option<usize>)
    ensures
        match next {
            Some(end) => literal_at(text@, pos as int, literal@) == Some(end as int),
            None => literal_at(text@, pos as int, literal@) is None,
        },
{
    if pos > text.len() {
        return None;
    }
    let mut cur: usize = pos;
    for c in it: literal.chars()
        invariant
            it.seq() == literal@,
            pos <= cur <= text.len(),
            cur == pos + it.index(),
            text@.subrange(pos as int, cur as int) == literal@.take(it.index() as int),
    {
        if cur >= text.len() {
            return None;
        }
        if text[cur] != c {
            proof {
                if pos + literal@.len() <= text.len() {
                    assert(text@.subrange(pos as int, pos + literal@.len())[cur - pos]
                        == text@[cur as int]);
                }
            }
            return None;
        }
        assert(text@.subrange(pos as int, cur + 1) == text@.subrange(
            pos as int,
            cur as int,
        ).push(c));
        assert(literal@.take(it.index() + 1) == literal@.take(it.index() as int).push(c));
        cur = cur + 1;
    }
    assert(literal@.take(literal@.len() as int) == literal@);
    Some(cur)
}

fn hex_of(c: char) -> (value: Option<u8>)
    ensures
        match value {
            Some(v) => hex_value(c) == Some(v as int),
            None => hex_value(c) is None,
        },
{
    let code = c as u32;
    if 48 <= code && code <= 57 {
        Some((code - 48) as u8)
    } else if 97 <= code && code <= 102 {
        Some((code - 87) as u8)
    } else {
        None
    }
}

/// Reads the character that is written in `text` at `pos`.
fn read_char(text: &Vec<char>, pos: usize) -> (read: Option<(char, usize)>)
    ensures
        match read {
            Some((c, next)) => char_at(text@, pos as int) == Some((c, next as int)) && pos < next
                <= text.len(),
            None => char_at(text@, pos as int) is None,
        },
{
    if pos >= text.len() {
        return None;
    }
    if text[pos] != '\\' {
        return Some((text[pos], pos + 1));
    }
    if text.len() - pos < 2 {
        return None;
    }
    let mark = text[pos + 1];
    if mark == '"' {
        Some(('"', pos + 2))
    } else if mark == '\\' {
        Some(('\\', pos + 2))
    } else if mark == 'b' {
        Some(('\u{8}', pos + 2))
    } else if mark == 'f' {
        Some(('\u{c}', pos + 2))
    } else if mark == 'n' {
        Some(('\n', pos + 2))
    } else if mark == 'r' {
        Some(('\r', pos + 2))
    } else if mark == 't' {
        Some(('\t', pos + 2))
    } else if mark == 'u' && text.len() - pos >= 6 && text[pos + 2] == '0' && text[pos + 3]
        == '0' {
        match (hex_of(text[pos + 4]), hex_of(text[pos + 5])) {
            (Some(high), Some(low)) => Some(((high * 16 + low) as char, pos + 6)),
            _ => None,
        }
    } else {
        None
    }
}

/// Reads the string that is written in double quotes in `text` at `pos`.
pub fn read_quoted(text: &Vec<char>, pos: usize) -> (read: Option<(String, usize)>)
    ensures
        match read {
            Some((s, next)) => quoted_at(text@, pos as int) == Some((s@, next as int)) && next
                <= text.len(),
            None => quoted_at(text@, pos as int) is None,
        },
{
    if pos >= text.len() || text[pos] != '"' {
        return None;
    }
    let mut out = String::new();
    let mut cur: usize = pos + 1;
    loop
        invariant
            pos < cur <= text.len(),
            quoted_at(text@, pos as int) == match string_body_at(text@, cur as int) {
                None => None,
                Some((tail, end)) => Some((out@ + tail, end)),
            },
        decreases text.len() - cur,
    {
        if cur >= text.len() {
            return None;
        }
        if text[cur] == '"' {
            assert(out@ + Seq::<char>::empty() == out@);
            return Some((out, cur + 1));
        }
        match read_char(text, cur) {
            None => {
                return None;
            },
            Some((c, next)) => {
                proof {
                    let ghost before = out@;
                    match string_body_at(text@, next as int) {
                        None => {},
                        Some((tail, end)) => {
                            assert(before + (seq![c] + tail) == before.push(c) + tail);
                        },
                    }
                }
                out.push(c);
                cur = next;
            },
        }
    }
}

/// Reads the integer that is written in decimal in `text` at `pos`.
pub fn read_int(text: &Vec<char>, pos: usize) -> (read: Option<(i64, usize)>)
    ensures
        match read {
            Some((n, next)) => int_at(text@, pos as int) == Some((n, next as int)) && next
                <= text.len(),
            None => int_at(text@, pos as int) is None,
        },
{
    if pos > text.len() {
        assert(digits_end(text@, pos as int) == pos);
        return None;
    }
    let negative = pos < text.len() && text[pos] == '-';
    let start: usize = if negative {
        pos + 1
    } else {
        pos
    };
    let mut cur: usize = start;
    let mut magnitude: u64 = 0;
    proof {
        digits_end_bounds(text@, start as int);
        assert(text@.subrange(start as int, start as int) == Seq::<char>::empty());
    }
    while cur < text.len() && 48 <= text[cur] as u32 && text[cur] as u32 <= 57
        invariant
            pos <= text.len(),
            negative == (pos < text.len() && text@[pos as int] == '-'),
            start == if negative {
                pos + 1
            } else {
                pos as int
            },
            start <= cur <= text.len(),
            digits_end(text@, start as int) == digits_end(text@, cur as int),
            forall|k: int| start <= k < cur ==> is_digit(#[trigger] text@[k]),
            magnitude == digits_value(text@.subrange(start as int, cur as int)),
            magnitude <= 9223372036854775808,
        decreases text.len() - cur,
    {
        let digit = (text[cur] as u32 - 48) as u64;
        let ghost longer = text@.subrange(start as int, cur + 1);
        assert(longer.drop_last() == text@.subrange(start as int, cur as int));
        if magnitude > 922337203685477580 || magnitude * 10 + digit > 9223372036854775808 {
            proof {
                let end = digits_end(text@, start as int);
                digits_end_bounds(text@, cur + 1);
                digits_end_bounds(text@, start as int);
                let run = text@.subrange(start as int, end);
                assert forall|j: int| 0 <= j < run.len() implies is_digit(#[trigger] run[j]) by {
                    assert(run[j] == text@[start + j]);
                }
                digits_value_grows(run, cur + 1 - start);
                assert(run.take(cur + 1 - start) == longer);
                assert(digits_value(longer) == magnitude * 10 + digit);
            }
            return None;
        }
        magnitude = magnitude * 10 + digit;
        cur = cur + 1;
    }
    if cur == start {
        return None;
    }
    if negative {
        if magnitude == 9223372036854775808 {
            Some((i64::MIN, cur))
        } else {
            Some((-(magnitude as i64), cur))
        }
    } else if magnitude > 9223372036854775807 {
        None
    } else {
        Some((magnitude as i64, cur))
    }
}

/// What stands in a text from a position on starts with a piece: the piece
/// stands at that position, and the rest follows it.
pub proof fn piece_is_there(text: Seq<char>, pos: int, piece: Seq<char>, rest: Seq<char>)
    requires
        0 <= pos <= text.len(),
        text.skip(pos) == piece + rest,
    ensures
        pos + piece.len() <= text.len(),
        text.subrange(pos, pos + piece.len()) == piece,
        text.skip(pos + piece.len()) == rest,
        rest.len() > 0 ==> text[pos + piece.len()] == rest[0],
        rest.len() == 0 ==> pos + piece.len() == text.len(),
{
    let tail = text.skip(pos);
    assert(tail.len() == piece.len() + rest.len());
    assert(text.subrange(pos, pos + piece.len()) =~= tail.subrange(0, piece.len() as int));
    assert(tail.subrange(0, piece.len() as int) =~= piece);
    assert(text.skip(pos + piece.len()) =~= tail.skip(piece.len() as int));
    assert(tail.skip(piece.len() as int) =~= rest);
    if rest.len() > 0 {
        assert(text[pos + piece.len()] == tail[piece.len() as int]);
    }
}

/// A literal that stands in a text at a position is stepped over.
pub proof fn literal_is_read(text: Seq<char>, pos: int, literal: Seq<char>, rest: Seq<char>)
    requires
        0 <= pos <= text.len(),
        text.skip(pos) == literal + rest,
    ensures
        literal_at(text, pos, literal) == Some(pos + literal.len()),
        pos + literal.len() <= text.len(),
        text.skip(pos + literal.len()) == rest,
        rest.len() == 0 ==> pos + literal.len() == text.len(),
{
    piece_is_there(text, pos, literal, rest);
}

/// A quoted string that stands in a text at a position is read back.
pub proof fn quoted_piece_is_read(text: Seq<char>, pos: int, s: Seq<char>, rest: Seq<char>)
    requires
        0 <= pos <= text.len(),
        text.skip(pos) == quoted(s) + rest,
    ensures
        quoted_at(text, pos) == Some((s, pos + quoted(s).len())),
        pos + quoted(s).len() <= text.len(),
        text.skip(pos + quoted(s).len()) == rest,
{
    piece_is_there(text, pos, quoted(s), rest);
    quoted_is_read(text, pos, s);
}

/// An integer that stands in a text at a position, with no digit behind it,
/// is read back.
pub proof fn int_piece_is_read(text: Seq<char>, pos: int, n: i64, rest: Seq<char>)
    requires
        0 <= pos <= text.len(),
        text.skip(pos) == int_text(n as int) + rest,
        rest.len() == 0 || !is_digit(rest[0]),
    ensures
        int_at(text, pos) == Some((n, pos + int_text(n as int).len())),
        pos + int_text(n as int).len() <= text.len(),
        text.skip(pos + int_text(n as int).len()) == rest,
{
    piece_is_there(text, pos, int_text(n as int), rest);
    int_is_read(text, pos, n);
}

/// Three pieces written one after the other, grouped from the right.
pub proof fn three_pieces(a: Seq<char>, b: Seq<char>, c: Seq<char>)
    ensures
        a + b + c == a + (b + c),
{
    assert(a + b + c =~= a + (b + c));
}

/// Five pieces written one after the other, grouped from the right.
pub proof fn five_pieces(a: Seq<char>, b: Seq<char>, c: Seq<char>, d: Seq<char>, e: Seq<char>)
    ensures
        a + b + c + d + e == a + (b + (c + (d + e))),
{
    three_pieces(a + b + c, d, e);
    three_pieces(a + b, c, d + e);
    three_pieces(a, b, c + (d + e));
}

/// Seven pieces written one after the other, grouped from the right.
pub proof fn seven_pieces(
    a: Seq<char>,
    b: Seq<char>,
    c: Seq<char>,
    d: Seq<char>,
    e: Seq<char>,
    f: Seq<char>,
    g: Seq<char>,
)
    ensures
        a + b + c + d + e + f + g == a + (b + (c + (d + (e + (f + g))))),
{
    three_pieces(a + b + c + d + e, f, g);
    three_pieces(a + b + c + d, e, f + g);
    five_pieces(a, b, c, d, e + (f + g));
}

/// A text that starts with one literal does not start with another that
/// differs from it at some place.
pub proof fn other_literal_is_not_read(
    text: Seq<char>,
    literal: Seq<char>,
    rest: Seq<char>,
    other: Seq<char>,
    k: int,
)
    requires
        text == literal + rest,
        0 <= k < literal.len(),
        k < other.len(),
        literal[k] != other[k],
    ensures
        literal_at(text, 0, other) is None,
{
    if other.len() <= text.len() {
        assert(text.subrange(0, other.len() as int)[k] == text[k]);
    }
}

} // verus!
