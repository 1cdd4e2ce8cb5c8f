//! The report of a failed compilation: the compiler's message, followed by
//! the source with numbered lines.

use vstd::prelude::*;
use crate::text::{chars_of, string_of};

verus! {

/// Whether `c` is white space: a character with the Unicode property
/// `White_Space`.
pub open spec fn is_white_space(c: char) -> bool {
    let n = c as u32;
    (0x09 <= n <= 0x0d) || n == 0x20 || n == 0x85 || n == 0xa0 || n == 0x1680 || (0x2000 <= n
        <= 0x200a) || n == 0x2028 || n == 0x2029 || n == 0x202f || n == 0x205f || n == 0x3000
}

/// Tells whether `c` is white space.
pub fn white_space(c: char) -> (r: bool)
    ensures
        r == is_white_space(c),
{
    let n: u32 = c as u32;
    (0x09 <= n && n <= 0x0d) || n == 0x20 || n == 0x85 || n == 0xa0 || n == 0x1680 || (0x2000 <= n
        && n <= 0x200a) || n == 0x2028 || n == 0x2029 || n == 0x202f || n == 0x205f || n == 0x3000
}

/// The length of `text` without its trailing white space.
pub open spec fn trimmed_len(text: Seq<char>) -> nat
    decreases text.len(),
{
    if text.len() == 0 {
        0
    } else if is_white_space(text.last()) {
        trimmed_len(text.drop_last())
    } else {
        text.len()
    }
}

/// `text` without its trailing white space.
pub open spec fn trim_end_spec(text: Seq<char>) -> Seq<char> {
    text.take(trimmed_len(text) as int)
}

/// If everything from `k` on is white space and the character before `k`
/// is not, the trimmed length is `k`.
pub proof fn lemma_trimmed_len_is(text: Seq<char>, k: int)
    requires
        0 <= k <= text.len(),
        k > 0 ==> !is_white_space(text[k - 1]),
        forall|i: int| k <= i < text.len() ==> is_white_space(#[trigger] text[i]),
    ensures
        trimmed_len(text) == k,
    decreases text.len(),
{
    if text.len() > 0 && k < text.len() {
        lemma_trimmed_len_is(text.drop_last(), k);
    }
}

/// Removes the trailing white space of `text`.
pub fn trim_end(text: &mut Vec<char>)
    ensures
        final(text)@ == trim_end_spec(old(text)@),
{
    let mut k: usize = text.len();
    while k > 0 && white_space(text[k - 1])
        invariant
            k <= text.len(),
            text@ == old(text)@,
            forall|i: int| k <= i < text.len() ==> is_white_space(#[trigger] text@[i]),
        decreases k,
    {
        k = k - 1;
    }
    proof {
        lemma_trimmed_len_is(text@, k as int);
    }
    text.truncate(k);
    assert(text@ =~= trim_end_spec(old(text)@));
}

/// The place of the first line feed of `text` at or after `from`, or the
/// length of `text` if there is none.
pub open spec fn line_end(text: Seq<char>, from: int) -> int
    decreases text.len() - from,
{
    if from < 0 || from >= text.len() {
        text.len() as int
    } else if text[from] == '\n' {
        from
    } else {
        line_end(text, from + 1)
    }
}

/// `line` without a carriage return at its end.
pub open spec fn strip_cr(line: Seq<char>) -> Seq<char> {
    if line.len() > 0 && line.last() == '\r' {
        line.drop_last()
    } else {
        line
    }
}

/// The lines of `text` from position `start` on.
///
/// A line ends at a line feed, or at a carriage return directly followed
/// by a line feed; neither belongs to the line. The last line needs no line
/// ending, and a carriage return at its end belongs to it.
pub open spec fn lines_from(text: Seq<char>, start: int) -> Seq<Seq<char>>
    decreases text.len() - start,
    via lines_from_decreases
{
    if start < 0 || start >= text.len() {
        Seq::empty()
    } else {
        let end = line_end(text, start);
        if end < text.len() {
            seq![strip_cr(text.subrange(start, end))] + lines_from(text, end + 1)
        } else {
            seq![text.subrange(start, end)]
        }
    }
}

#[via_fn]
proof fn lines_from_decreases(text: Seq<char>, start: int) {
    if 0 <= start < text.len() {
        lemma_line_end(text, start);
    }
}

/// The lines of `text`.
pub open spec fn lines_spec(text: Seq<char>) -> Seq<Seq<char>> {
    lines_from(text, 0)
}

/// The end of a line lies at or after its start, at a line feed or at the
/// end of the text, with no line feed before it.
pub proof fn lemma_line_end(text: Seq<char>, from: int)
    requires
        0 <= from <= text.len(),
    ensures
        from <= line_end(text, from) <= text.len(),
        line_end(text, from) < text.len() ==> text[line_end(text, from)] == '\n',
        forall|i: int| from <= i < line_end(text, from) ==> #[trigger] text[i] != '\n',
    decreases text.len() - from,
{
    if from < text.len() && text[from] != '\n' {
        lemma_line_end(text, from + 1);
    }
}

/// If there is no line feed from `from` up to `end`, and `end` is a line
/// feed or the end of the text, the line that starts at `from` ends at
/// `end`.
pub proof fn lemma_line_end_is(text: Seq<char>, from: int, end: int)
    requires
        0 <= from <= end <= text.len(),
        forall|i: int| from <= i < end ==> #[trigger] text[i] != '\n',
        end < text.len() ==> text[end] == '\n',
    ensures
        line_end(text, from) == end,
    decreases end - from,
{
    if from < end {
        lemma_line_end_is(text, from + 1, end);
    }
}

/// The values of a list of lines.
pub open spec fn lines_view(lines: Seq<Vec<char>>) -> Seq<Seq<char>> {
    Seq::new(lines.len(), |i: int| lines[i]@)
}

/// Copies the characters of `text` from `from` up to `to`.
pub(crate) fn copy_range(text: &Vec<char>, from: usize, to: usize) -> (part: Vec<char>)
    requires
        from <= to <= text.len(),
    ensures
        part@ == text@.subrange(from as int, to as int),
{
    let mut part: Vec<char> = Vec::new();
    let mut i: usize = from;
    while i < to
        invariant
            from <= i <= to <= text.len(),
            part@ == text@.subrange(from as int, i as int),
        decreases to - i,
    {
        part.push(text[i]);
        assert(part@ =~= text@.subrange(from as int, i + 1));
        i = i + 1;
    }
    part
}

/// Splits `text` into its lines.
pub fn split_lines(text: &Vec<char>) -> (lines: Vec<Vec<char>>)
    ensures
        lines_view(lines@) == lines_spec(text@),
{
    let mut lines: Vec<Vec<char>> = Vec::new();
    let n = text.len();
    let mut start: usize = 0;
    assert(lines_view(lines@) =~= Seq::empty());
    while start < n
        invariant
            n == text.len(),
            start <= n,
            lines_spec(text@) == lines_view(lines@) + lines_from(text@, start as int),
        decreases n - start,
    {
        let ghost before = lines_view(lines@);
        let mut end: usize = start;
        while end < n && text[end] != '\n'
            invariant
                n == text.len(),
                start <= end <= n,
                forall|i: int| start <= i < end ==> #[trigger] text@[i] != '\n',
            decreases n - end,
        {
            end = end + 1;
        }
        proof {
            lemma_line_end_is(text@, start as int, end as int);
        }
        if end < n {
            let stop = if end > start && text[end - 1] == '\r' {
                end - 1
            } else {
                end
            };
            let line = copy_range(text, start, stop);
            assert(line@ =~= strip_cr(text@.subrange(start as int, end as int)));
            lines.push(line);
            assert(lines_view(lines@) =~= before.push(line@));
            assert(before.push(line@) + lines_from(text@, end + 1) =~= before + (seq![line@]
                + lines_from(text@, end + 1)));
            start = end + 1;
        } else {
            let line = copy_range(text, start, end);
            lines.push(line);
            assert(lines_view(lines@) =~= before.push(line@));
            assert(before.push(line@) =~= before + seq![line@]);
            assert(lines_from(text@, n as int) =~= Seq::empty());
            start = n;
        }
    }
    assert(lines_from(text@, start as int) =~= Seq::empty());
    lines
}

/// The decimal digit for `d`.
pub open spec fn digit_spec(d: nat) -> char {
    if d == 0 {
        '0'
    } else if d == 1 {
        '1'
    } else if d == 2 {
        '2'
    } else if d == 3 {
        '3'
    } else if d == 4 {
        '4'
    } else if d == 5 {
        '5'
    } else if d == 6 {
        '6'
    } else if d == 7 {
        '7'
    } else if d == 8 {
        '8'
    } else {
        '9'
    }
}

/// The decimal numeral of `n`, without leading zeros.
pub open spec fn decimal_spec(n: nat) -> Seq<char>
    decreases n,
{
    if n < 10 {
        seq![digit_spec(n)]
    } else {
        decimal_spec(n / 10).push(digit_spec(n % 10))
    }
}

/// Returns the decimal digit for `d`.
fn digit(d: usize) -> (c: char)
    requires
        d < 10,
    ensures
        c == digit_spec(d as nat),
{
    if d == 0 {
        '0'
    } else if d == 1 {
        '1'
    } else if d == 2 {
        '2'
    } else if d == 3 {
        '3'
    } else if d == 4 {
        '4'
    } else if d == 5 {
        '5'
    } else if d == 6 {
        '6'
    } else if d == 7 {
        '7'
    } else if d == 8 {
        '8'
    } else {
        '9'
    }
}

/// Returns the decimal numeral of `n`.
pub fn decimal(n: usize) -> (text: Vec<char>)
    ensures
        text@ == decimal_spec(n as nat),
    decreases n,
{
    if n < 10 {
        let mut text: Vec<char> = Vec::new();
        text.push(digit(n));
        assert(text@ =~= seq![digit_spec(n as nat)]);
        text
    } else {
        let mut text = decimal(n / 10);
        text.push(digit(n % 10));
        text
    }
}

/// `width - len` spaces, or none if `len` reaches `width`.
pub open spec fn padding(len: nat, width: nat) -> Seq<char> {
    if len < width {
        Seq::new((width - len) as nat, |i: int| ' ')
    } else {
        Seq::empty()
    }
}

/// One line of a numbered listing: the line's number, set to the right in
/// a column four wide, then a colon, a space, the line and a line feed.
pub open spec fn numbered_line(number: nat, line: Seq<char>) -> Seq<char> {
    padding(decimal_spec(number).len(), 4) + decimal_spec(number) + seq![':', ' '] + line
        + seq!['\n']
}

/// The numbered listing of `lines`, the first of which has the number
/// `first`.
pub open spec fn numbered_from(lines: Seq<Seq<char>>, first: nat) -> Seq<char>
    decreases lines.len(),
{
    if lines.len() == 0 {
        Seq::empty()
    } else {
        numbered_line(first, lines[0]) + numbered_from(lines.drop_first(), first + 1)
    }
}

/// The listing of `source` with its lines numbered from one, without white
/// space at its end.
pub open spec fn listing_spec(source: Seq<char>) -> Seq<char> {
    trim_end_spec(numbered_from(lines_spec(source), 1))
}

/// A listing grows by one line at its end.
pub proof fn lemma_numbered_push(lines: Seq<Seq<char>>, first: nat, line: Seq<char>)
    ensures
        numbered_from(lines.push(line), first) == numbered_from(lines, first) + numbered_line(
            first + lines.len(),
            line,
        ),
    decreases lines.len(),
{
    if lines.len() == 0 {
        let rest = lines.push(line).drop_first();
        assert(rest =~= Seq::empty());
        assert(numbered_from(rest, first + 1) =~= Seq::empty());
        assert(lines.push(line)[0] == line);
        assert(numbered_from(lines, first) =~= Seq::empty());
        assert(numbered_from(lines.push(line), first) =~= numbered_line(first, line)
            + numbered_from(rest, first + 1));
    } else {
        assert(lines.push(line).drop_first() =~= lines.drop_first().push(line));
        lemma_numbered_push(lines.drop_first(), first + 1, line);
        assert(numbered_from(lines.push(line), first) =~= numbered_from(lines, first)
            + numbered_line(first + lines.len(), line));
    }
}

/// Appends the characters of `part` to `text`.
pub fn push_all(text: &mut Vec<char>, part: &Vec<char>)
    ensures
        final(text)@ == old(text)@ + part@,
{
    let mut i: usize = 0;
    while i < part.len()
        invariant
            i <= part.len(),
            text@ == old(text)@ + part@.take(i as int),
        decreases part.len() - i,
    {
        text.push(part[i]);
        assert(text@ =~= old(text)@ + part@.take(i + 1));
        i = i + 1;
    }
    assert(part@.take(part.len() as int) =~= part@);
}

/// Appends one line of a numbered listing to `text`.
pub fn push_numbered_line(text: &mut Vec<char>, number: usize, line: &Vec<char>)
    ensures
        final(text)@ == old(text)@ + numbered_line(number as nat, line@),
{
    let digits = decimal(number);
    let mut k: usize = digits.len();
    while k < 4
        invariant
            digits.len() <= k,
            k <= 4 || k == digits.len(),
            text@ == old(text)@ + Seq::new((k - digits.len()) as nat, |i: int| ' '),
        decreases 4 - k,
    {
        text.push(' ');
        assert(text@ =~= old(text)@ + Seq::new((k + 1 - digits.len()) as nat, |i: int| ' '));
        k = k + 1;
    }
    assert(text@ =~= old(text)@ + padding(digits@.len(), 4));
    push_all(text, &digits);
    text.push(':');
    text.push(' ');
    push_all(text, line);
    text.push('\n');
    assert(text@ =~= old(text)@ + numbered_line(number as nat, line@));
}

/// Returns the listing of `source` with its lines numbered from one,
/// without white space at its end.
pub fn listing(source: &Vec<char>) -> (text: Vec<char>)
    ensures
        text@ == listing_spec(source@),
{
    let lines = split_lines(source);
    let mut text: Vec<char> = Vec::new();
    let mut i: usize = 0;
    assert(lines_view(lines@).take(0) =~= Seq::empty());
    while i < lines.len()
        invariant
            i <= lines.len(),
            text@ == numbered_from(lines_view(lines@).take(i as int), 1),
        decreases lines.len() - i,
    {
        proof {
            let done = lines_view(lines@).take(i as int);
            lemma_numbered_push(done, 1, lines@[i as int]@);
            assert(lines_view(lines@).take(i + 1) =~= done.push(lines@[i as int]@));
        }
        push_numbered_line(&mut text, i + 1, &lines[i]);
        i = i + 1;
    }
    assert(lines_view(lines@).take(lines.len() as int) =~= lines_view(lines@));
    trim_end(&mut text);
    text
}

/// The report of a failed compilation of `source` with the compiler's
/// message `message`.
pub open spec fn report_spec(message: Seq<char>, source: Seq<char>) -> Seq<char> {
    "Error:\n"@ + message + "\nSource:\n"@ + listing_spec(source)
}

/// Returns the report of a failed compilation.
pub fn report(message: &str, source: &str) -> (text: String)
    ensures
        text@ == report_spec(message@, source@),
{
    let mut out = chars_of("Error:\n");
    push_all(&mut out, &chars_of(message));
    push_all(&mut out, &chars_of("\nSource:\n"));
    push_all(&mut out, &listing(&chars_of(source)));
    string_of(&out)
}

} // verus!
