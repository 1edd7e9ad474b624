//! Lines of text, and the first word of a line.
use vstd::prelude::*;

verus! {

/// Whether a character is white space: whether it has the Unicode property
/// `White_Space`, which is the property of these code points, and what
/// `char::is_whitespace` tells.
pub open spec fn is_whitespace(c: char) -> bool {
    let n = c as u32;
    ||| 0x09 <= n <= 0x0d
    ||| n == 0x20
    ||| n == 0x85
    ||| n == 0xa0
    ||| n == 0x1680
    ||| 0x2000 <= n <= 0x200a
    ||| n == 0x2028
    ||| n == 0x2029
    ||| n == 0x202f
    ||| n == 0x205f
    ||| n == 0x3000
}

/// Tells whether a character is white space.
fn char_is_whitespace(c: char) -> (b: bool)
    ensures
        b == is_whitespace(c),
{
    let n = c as u32;
    (0x09 <= n && n <= 0x0d) || n == 0x20 || n == 0x85 || n == 0xa0 || n == 0x1680 || (0x2000 <= n
        && n <= 0x200a) || n == 0x2028 || n == 0x2029 || n == 0x202f || n == 0x205f || n
        == 0x3000
}

/// Where the line that begins at index `from` ends: the index of the first
/// line break at or after `from`, and the length of the text where none
/// follows.
pub open spec fn line_end(text: Seq<char>, from: int) -> int
    decreases text.len() - from,
{
    if from >= text.len() {
        text.len() as int
    } else if text[from] == '\n' {
        from
    } else {
        line_end(text, from + 1)
    }
}

/// The index at which line `n` begins, lines being what line breaks
/// separate: line 0 begins the text, and each further line begins after the
/// line break that ends the one before. `None` where the text has no such
/// line.
pub open spec fn line_start(text: Seq<char>, n: nat) -> Option<int>
    decreases n,
{
    if n == 0 {
        Some(0)
    } else {
        match line_start(text, (n - 1) as nat) {
            Some(s) => if line_end(text, s) < text.len() {
                Some(line_end(text, s) + 1)
            } else {
                None
            },
            None => None,
        }
    }
}

/// The characters of line `n`, without its line break.
pub open spec fn line_of(text: Seq<char>, n: nat) -> Option<Seq<char>> {
    match line_start(text, n) {
        Some(s) => Some(text.subrange(s, line_end(text, s))),
        None => None,
    }
}

/// The index of the first character of `line`, from index `from` on, that
/// is not white space.
pub open spec fn first_word_from(line: Seq<char>, from: int) -> Option<int>
    decreases line.len() - from,
{
    if from >= line.len() {
        None
    } else if !is_whitespace(line[from]) {
        Some(from)
    } else {
        first_word_from(line, from + 1)
    }
}

/// The offset of the first word of line `n` of `text`: of its first
/// character that is not white space. `None` where the line is all white
/// space, and where the text has no such line.
pub open spec fn first_word_of_line(text: Seq<char>, n: nat) -> Option<int> {
    match line_of(text, n) {
        Some(line) => first_word_from(line, 0),
        None => None,
    }
}

/// A line ends at the first line break after its start.
pub proof fn lemma_line_end(text: Seq<char>, from: int, end: int)
    requires
        0 <= from <= end <= text.len(),
        forall|j: int| from <= j < end ==> text[j] != '\n',
        end < text.len() ==> text[end] == '\n',
    ensures
        line_end(text, from) == end,
    decreases end - from,
{
    if from < end {
        lemma_line_end(text, from + 1, end);
    }
}

/// A line does not end before the first line break after its start.
pub proof fn lemma_line_end_after(text: Seq<char>, from: int, upto: int)
    requires
        0 <= from <= upto <= text.len(),
        forall|j: int| from <= j < upto ==> text[j] != '\n',
    ensures
        upto <= line_end(text, from) <= text.len(),
    decreases text.len() - from,
{
    if from < text.len() && text[from] != '\n' {
        if from < upto {
            lemma_line_end_after(text, from + 1, upto);
        } else {
            lemma_line_end_after(text, from + 1, from + 1);
        }
    }
}

/// Where a line is missing, all later lines are missing too.
pub proof fn lemma_no_later_line(text: Seq<char>, k: nat, n: nat)
    requires
        k <= n,
        line_start(text, k).is_none(),
    ensures
        line_start(text, n).is_none(),
    decreases n - k,
{
    if k < n {
        lemma_no_later_line(text, k, (n - 1) as nat);
    }
}

/// The first word is where white space ends: what comes before index `k`
/// is white space, and the character at `k` is not.
pub proof fn lemma_first_word_found(line: Seq<char>, from: int, k: int)
    requires
        0 <= from <= k < line.len(),
        forall|j: int| from <= j < k ==> is_whitespace(line[j]),
        !is_whitespace(line[k]),
    ensures
        first_word_from(line, from) == Some(k),
    decreases k - from,
{
    if from < k {
        lemma_first_word_found(line, from + 1, k);
    }
}

/// A line of nothing but white space has no first word.
pub proof fn lemma_blank_line_has_no_word(line: Seq<char>, from: int)
    requires
        0 <= from,
        forall|j: int| from <= j < line.len() ==> is_whitespace(line[j]),
    ensures
        first_word_from(line, from).is_none(),
    decreases line.len() - from,
{
    if from < line.len() {
        lemma_blank_line_has_no_word(line, from + 1);
    }
}

/// Whether line `n` of `text` is blank: made of white space only, or empty.
pub open spec fn is_blank_line(text: Seq<char>, n: nat) -> bool {
    match line_of(text, n) {
        Some(line) => forall|j: int| 0 <= j < line.len() ==> is_whitespace(#[trigger] line[j]),
        None => false,
    }
}

/// A blank line has no first word, and neither has a line that the text
/// does not have.
pub proof fn lemma_no_word_on_blank_line(text: Seq<char>, n: nat)
    requires
        is_blank_line(text, n) || line_of(text, n).is_none(),
    ensures
        first_word_of_line(text, n).is_none(),
{
    if line_of(text, n).is_some() {
        lemma_blank_line_has_no_word(line_of(text, n).unwrap(), 0);
    }
}

/// The offset of the first word of line `line` of `text`.
pub fn first_word_offset(text: &str, line: usize) -> (offset: Option<usize>)
    ensures
        match offset {
            Some(k) => first_word_of_line(text@, line as nat) == Some(k as int),
            None => first_word_of_line(text@, line as nat).is_none(),
        },
{
    // The length of the text bounds the columns counted below.
    let length = text.unicode_len();
    let mut current: usize = 0;
    let mut column: usize = 0;
    let ghost mut start: int = 0;
    for c in it: text.chars()
        invariant
            it.seq() == text@,
            text@.len() == length,
            current <= line,
            current < line ==> column == 0,
            0 <= start <= it.index(),
            line_start(text@, current as nat) == Some(start),
            forall|j: int| start <= j < it.index() ==> text@[j] != '\n',
            current == line ==> column == it.index() - start,
            current == line ==> forall|j: int| start <= j < it.index() ==> is_whitespace(text@[j]),
    {
        let ghost i = it.index() as int;
        if c == '\n' {
            proof {
                lemma_line_end(text@, start, i);
            }
            if current == line {
                proof {
                    lemma_blank_line_has_no_word(text@.subrange(start, i), 0);
                }
                return None;
            }
            current = current + 1;
            proof {
                start = i + 1;
            }
        } else if current == line {
            if !char_is_whitespace(c) {
                proof {
                    lemma_line_end_after(text@, start, i + 1);
                    lemma_first_word_found(
                        text@.subrange(start, line_end(text@, start)),
                        0,
                        i - start,
                    );
                }
                return Some(column);
            }
            column = column + 1;
        }
    }
    proof {
        let n = text@.len() as int;
        lemma_line_end(text@, start, n);
        if current == line {
            lemma_blank_line_has_no_word(text@.subrange(start, n), 0);
        } else {
            assert(line_start(text@, (current + 1) as nat).is_none());
            lemma_no_later_line(text@, (current + 1) as nat, line as nat);
        }
    }
    None
}

} // verus!
