//! Token-aware cursor motions, as functions from a token sequence and a
//! cursor position to a new position.
use vstd::prelude::*;
use crate::position::{Point, Position};
use crate::token::{Token, TokenView, joined, views};

verus! {

/// The number of line breaks in `s`.
pub open spec fn line_breaks(s: Seq<char>) -> nat
    decreases s.len(),
{
    if s.len() == 0 {
        0
    } else {
        line_breaks(s.drop_last()) + if s.last() == '\n' { 1nat } else { 0nat }
    }
}

/// The number of characters of `s` after its last line break; all of them
/// where it has none.
pub open spec fn tail_length(s: Seq<char>) -> nat
    decreases s.len(),
{
    if s.len() == 0 || s.last() == '\n' {
        0
    } else {
        tail_length(s.drop_last()) + 1
    }
}

/// The point reached from `p` by walking over `lexeme`: without a line
/// break the offset grows by the lexeme's length; with line breaks the line
/// grows by their number and the offset becomes the length of the lexeme's
/// last line.
pub open spec fn advance(p: Point, lexeme: Seq<char>) -> Point {
    if line_breaks(lexeme) == 0 {
        Point { line: p.line, offset: p.offset + lexeme.len() }
    } else {
        Point { line: p.line + line_breaks(lexeme), offset: tail_length(lexeme) }
    }
}

/// Where token `i` starts: the point reached from the origin by walking
/// over the tokens before it. For `i == tokens.len()` it is where the text
/// ends.
pub open spec fn start_of(tokens: Seq<TokenView>, i: int) -> Point
    decreases i,
{
    if i <= 0 {
        Point::origin()
    } else {
        advance(start_of(tokens, i - 1), tokens[i - 1].lexeme)
    }
}

/// Where token `i` ends, which is where the next token starts.
pub open spec fn end_of(tokens: Seq<TokenView>, i: int) -> Point {
    start_of(tokens, i + 1)
}

/// The token at which the scan for the previous token stops, looking from
/// token `from` on: the first one that ends at or after the cursor, and the
/// last token where none does.
pub open spec fn stop_index(tokens: Seq<TokenView>, cursor: Point, from: int) -> int
    decreases tokens.len() - from,
{
    if from + 1 >= tokens.len() || cursor.le(end_of(tokens, from)) {
        from
    } else {
        stop_index(tokens, cursor, from + 1)
    }
}

/// The last token at or before index `i` that is not whitespace; -1 where
/// there is none.
pub open spec fn last_word_upto(tokens: Seq<TokenView>, i: int) -> int
    decreases i + 1,
{
    if i < 0 {
        -1
    } else if !tokens[i].whitespace {
        i
    } else {
        last_word_upto(tokens, i - 1)
    }
}

/// Where the motion to the start of the previous token lands. Without
/// tokens the cursor stays. Otherwise it is the start of the last token
/// that is not whitespace among those up to the one where the scan stops,
/// and the origin where all of them are whitespace.
pub open spec fn previous_target(tokens: Seq<TokenView>, cursor: Point) -> Point {
    if tokens.len() == 0 {
        cursor
    } else {
        start_of(tokens, last_word_upto(tokens, stop_index(tokens, cursor, 0)))
    }
}

/// The first token at or after index `from` that is not whitespace and
/// starts strictly after the cursor; `tokens.len()` where there is none.
pub open spec fn next_word_from(tokens: Seq<TokenView>, cursor: Point, from: int) -> int
    decreases tokens.len() - from,
{
    if from >= tokens.len() {
        tokens.len() as int
    } else if cursor.lt(start_of(tokens, from)) && !tokens[from].whitespace {
        from
    } else {
        next_word_from(tokens, cursor, from + 1)
    }
}

/// Where the motion to the start of the next token lands: the start of the
/// first token that is not whitespace and starts strictly after the cursor.
/// `None` where no token qualifies, and the cursor then stays.
pub open spec fn next_target(tokens: Seq<TokenView>, cursor: Point) -> Option<Point> {
    let i = next_word_from(tokens, cursor, 0);
    if i < tokens.len() {
        Some(start_of(tokens, i))
    } else {
        None
    }
}

/// Steps one character further in a prefix of `s`.
proof fn lemma_prefix_step(s: Seq<char>, i: int)
    requires
        0 <= i < s.len(),
    ensures
        line_breaks(s.take(i + 1)) == line_breaks(s.take(i)) + if s[i] == '\n' { 1nat } else { 0nat },
        tail_length(s.take(i + 1)) == if s[i] == '\n' { 0nat } else { tail_length(s.take(i)) + 1 },
{
    assert(s.take(i + 1).drop_last() =~= s.take(i));
}

/// A lexeme has no more line breaks than characters, and its last line is
/// no longer than the lexeme: it is the whole lexeme where there is no line
/// break.
pub proof fn lemma_counts_bounded(s: Seq<char>)
    ensures
        line_breaks(s) <= s.len(),
        tail_length(s) <= s.len(),
        line_breaks(s) == 0 ==> tail_length(s) == s.len(),
    decreases s.len(),
{
    if s.len() > 0 {
        lemma_counts_bounded(s.drop_last());
    }
}

/// Walks from `p` over one lexeme.
pub fn advance_over(p: Position, lexeme: &str) -> (q: Position)
    requires
        p.line + lexeme@.len() <= usize::MAX,
        p.offset + lexeme@.len() <= usize::MAX,
    ensures
        q@ == advance(p@, lexeme@),
{
    let mut breaks: usize = 0;
    let mut count: usize = 0;
    for c in it: lexeme.chars()
        invariant
            it.seq() == lexeme@,
            breaks == line_breaks(lexeme@.take(it.index() as int)),
            count == tail_length(lexeme@.take(it.index() as int)),
            lexeme@.len() <= usize::MAX,
    {
        proof {
            lemma_prefix_step(lexeme@, it.index() as int);
            lemma_counts_bounded(lexeme@.take(it.index() as int));
        }
        if c == '\n' {
            breaks = breaks + 1;
            count = 0;
        } else {
            count = count + 1;
        }
    }
    proof {
        assert(lexeme@.take(lexeme@.len() as int) =~= lexeme@);
        lemma_counts_bounded(lexeme@);
    }
    if breaks == 0 {
        Position { line: p.line, offset: p.offset + count }
    } else {
        Position { line: p.line + breaks, offset: count }
    }
}

/// The text before token `i` is a part of the whole text, and token `i`
/// follows it.
pub proof fn lemma_joined_prefix(tokens: Seq<TokenView>, i: int)
    requires
        0 <= i <= tokens.len(),
    ensures
        joined(tokens.take(i)).len() <= joined(tokens).len(),
        i < tokens.len() ==> joined(tokens.take(i + 1)) == joined(tokens.take(i))
            + tokens[i].lexeme,
    decreases tokens.len() - i,
{
    if i < tokens.len() {
        assert(tokens.take(i + 1).drop_last() =~= tokens.take(i));
        lemma_joined_prefix(tokens, i + 1);
    } else {
        assert(tokens.take(i) =~= tokens);
    }
}

/// Neither coordinate of a token's start exceeds the number of characters
/// before the token.
pub proof fn lemma_start_bounded(tokens: Seq<TokenView>, i: int)
    requires
        0 <= i <= tokens.len(),
    ensures
        start_of(tokens, i).line <= joined(tokens.take(i)).len(),
        start_of(tokens, i).offset <= joined(tokens.take(i)).len(),
    decreases i,
{
    if i > 0 {
        lemma_start_bounded(tokens, i - 1);
        lemma_joined_prefix(tokens, i - 1);
        lemma_counts_bounded(tokens[i - 1].lexeme);
    }
}

/// Walking over a lexeme never leads backwards, and leads forwards where
/// the lexeme is not empty.
pub proof fn lemma_advance_forwards(p: Point, lexeme: Seq<char>)
    ensures
        p.le(advance(p, lexeme)),
        lexeme.len() > 0 ==> p.lt(advance(p, lexeme)),
{
    lemma_counts_bounded(lexeme);
}

/// Tokens start in the order in which they stand.
pub proof fn lemma_starts_ordered(tokens: Seq<TokenView>, i: int, j: int)
    requires
        0 <= i <= j <= tokens.len(),
    ensures
        start_of(tokens, i).le(start_of(tokens, j)),
    decreases j - i,
{
    if i < j {
        lemma_starts_ordered(tokens, i, j - 1);
        lemma_advance_forwards(start_of(tokens, j - 1), tokens[j - 1].lexeme);
    }
}

/// The scan for the previous token stops at token `k` where every token
/// from `from` up to `k` ends before the cursor and token `k` is the last
/// one or ends at or after the cursor.
pub proof fn lemma_stop_index(tokens: Seq<TokenView>, cursor: Point, from: int, k: int)
    requires
        0 <= from <= k < tokens.len(),
        forall|i: int| from <= i < k ==> (#[trigger] end_of(tokens, i)).lt(cursor),
        k + 1 == tokens.len() || cursor.le(end_of(tokens, k)),
    ensures
        stop_index(tokens, cursor, from) == k,
    decreases k - from,
{
    if from < k {
        assert(end_of(tokens, from).lt(cursor));
        lemma_stop_index(tokens, cursor, from + 1, k);
    }
}

/// The motion to the next token finds nothing where every token from
/// `from` on is whitespace or starts at or before the cursor.
pub proof fn lemma_no_next_word(tokens: Seq<TokenView>, cursor: Point, from: int)
    requires
        0 <= from,
        forall|m: int|
            from <= m < tokens.len() ==> (#[trigger] tokens[m]).whitespace || !cursor.lt(
                start_of(tokens, m),
            ),
    ensures
        next_word_from(tokens, cursor, from) == tokens.len(),
    decreases tokens.len() - from,
{
    if from < tokens.len() {
        lemma_no_next_word(tokens, cursor, from + 1);
    }
}

/// Where the cursor stands after the motion to the next token: at its
/// target, and where it stood if there is none.
pub open spec fn after_next(tokens: Seq<TokenView>, cursor: Point) -> Point {
    match next_target(tokens, cursor) {
        Some(p) => p,
        None => cursor,
    }
}

/// From a cursor inside a token that is not whitespace, or at its end, the
/// motion to the previous token lands on the start of that token.
pub proof fn lemma_previous_inside_word(tokens: Seq<TokenView>, cursor: Point, k: int)
    requires
        0 <= k < tokens.len(),
        !tokens[k].whitespace,
        start_of(tokens, k).lt(cursor),
        cursor.le(end_of(tokens, k)),
    ensures
        previous_target(tokens, cursor) == start_of(tokens, k),
{
    assert forall|i: int| 0 <= i < k implies (#[trigger] end_of(tokens, i)).lt(cursor) by {
        lemma_starts_ordered(tokens, i + 1, k);
    }
    lemma_stop_index(tokens, cursor, 0, k);
}

/// From a cursor strictly inside a token that is not whitespace, the motion
/// to the previous token followed by the motion to the next token leaves
/// the cursor at the start of that same token, provided that only
/// whitespace follows the token: the second motion then crosses no
/// boundary.
pub proof fn lemma_previous_then_next(tokens: Seq<TokenView>, cursor: Point, k: int)
    requires
        0 <= k < tokens.len(),
        !tokens[k].whitespace,
        start_of(tokens, k).lt(cursor),
        cursor.lt(end_of(tokens, k)),
        forall|m: int| k < m < tokens.len() ==> (#[trigger] tokens[m]).whitespace,
    ensures
        after_next(tokens, previous_target(tokens, cursor)) == start_of(tokens, k),
{
    lemma_previous_inside_word(tokens, cursor, k);
    let landed = start_of(tokens, k);
    assert forall|m: int| 0 <= m < tokens.len() implies (#[trigger] tokens[m]).whitespace
        || !landed.lt(start_of(tokens, m)) by {
        if m <= k {
            lemma_starts_ordered(tokens, m, k);
        }
    }
    lemma_no_next_word(tokens, landed, 0);
}

/// Where no lexeme is empty, tokens start strictly in the order in which
/// they stand.
pub proof fn lemma_starts_strictly_ordered(tokens: Seq<TokenView>, i: int, j: int)
    requires
        0 <= i < j <= tokens.len(),
        forall|t: int| 0 <= t < tokens.len() ==> (#[trigger] tokens[t]).lexeme.len() > 0,
    ensures
        start_of(tokens, i).lt(start_of(tokens, j)),
    decreases j - i,
{
    lemma_advance_forwards(start_of(tokens, j - 1), tokens[j - 1].lexeme);
    if i < j - 1 {
        lemma_starts_strictly_ordered(tokens, i, j - 1);
    }
}

/// What the search for the next token finds, looking from token `from` on:
/// a token that is not whitespace and starts after the cursor, before which
/// no such token stands.
pub proof fn lemma_next_word(tokens: Seq<TokenView>, cursor: Point, from: int)
    requires
        0 <= from <= tokens.len(),
    ensures
        from <= next_word_from(tokens, cursor, from) <= tokens.len(),
        next_word_from(tokens, cursor, from) < tokens.len() ==> {
            &&& cursor.lt(start_of(tokens, next_word_from(tokens, cursor, from)))
            &&& !tokens[next_word_from(tokens, cursor, from)].whitespace
        },
        forall|i: int|
            from <= i < next_word_from(tokens, cursor, from) ==> (#[trigger] tokens[i]).whitespace
                || !cursor.lt(start_of(tokens, i)),
    decreases tokens.len() - from,
{
    if from < tokens.len() && !(cursor.lt(start_of(tokens, from)) && !tokens[from].whitespace) {
        lemma_next_word(tokens, cursor, from + 1);
    }
}

/// The last token that is not whitespace, among those up to index `i`, is
/// token `k` where only whitespace stands between the two.
pub proof fn lemma_last_word(tokens: Seq<TokenView>, i: int, k: int)
    requires
        0 <= k <= i < tokens.len(),
        !tokens[k].whitespace,
        forall|j: int| k < j <= i ==> (#[trigger] tokens[j]).whitespace,
    ensures
        last_word_upto(tokens, i) == k,
    decreases i - k,
{
    if k < i {
        lemma_last_word(tokens, i - 1, k);
    }
}

/// From a cursor inside a token that is not whitespace, the motion to the
/// next token followed by the motion to the previous token brings the
/// cursor to the start of the token in which it began, where no lexeme is
/// empty and the first motion finds a token.
pub proof fn lemma_next_then_previous(tokens: Seq<TokenView>, cursor: Point, k: int)
    requires
        0 <= k < tokens.len(),
        !tokens[k].whitespace,
        start_of(tokens, k).le(cursor),
        cursor.lt(end_of(tokens, k)),
        forall|t: int| 0 <= t < tokens.len() ==> (#[trigger] tokens[t]).lexeme.len() > 0,
        next_target(tokens, cursor).is_some(),
    ensures
        previous_target(tokens, next_target(tokens, cursor).unwrap()) == start_of(tokens, k),
{
    let m = next_word_from(tokens, cursor, 0);
    lemma_next_word(tokens, cursor, 0);
    if m <= k {
        lemma_starts_ordered(tokens, m, k);
    }
    let landed = start_of(tokens, m);
    assert forall|i: int| 0 <= i < m - 1 implies (#[trigger] end_of(tokens, i)).lt(landed) by {
        lemma_starts_strictly_ordered(tokens, i + 1, m);
    }
    lemma_stop_index(tokens, landed, 0, m - 1);
    assert forall|j: int| k < j <= m - 1 implies (#[trigger] tokens[j]).whitespace by {
        lemma_starts_ordered(tokens, k + 1, j);
    }
    lemma_last_word(tokens, m - 1, k);
}

/// The scan for the previous token stops at a token.
pub proof fn lemma_stop_index_in_range(tokens: Seq<TokenView>, cursor: Point, from: int)
    requires
        0 <= from < tokens.len(),
    ensures
        from <= stop_index(tokens, cursor, from) < tokens.len(),
    decreases tokens.len() - from,
{
    if !(from + 1 >= tokens.len() || cursor.le(end_of(tokens, from))) {
        lemma_stop_index_in_range(tokens, cursor, from + 1);
    }
}

/// The last token that is not whitespace, among those up to index `i`, is
/// one of them and is not whitespace, or there is none.
pub proof fn lemma_last_word_upto(tokens: Seq<TokenView>, i: int)
    requires
        -1 <= i < tokens.len(),
    ensures
        -1 <= last_word_upto(tokens, i) <= i,
        last_word_upto(tokens, i) >= 0 ==> !tokens[last_word_upto(tokens, i)].whitespace,
    decreases i + 1,
{
    if i >= 0 && tokens[i].whitespace {
        lemma_last_word_upto(tokens, i - 1);
    }
}

/// The motion to the previous token never lands inside a token: with tokens
/// its target is the origin or the start of a token that is not
/// whitespace, and without tokens the cursor stays.
pub proof fn lemma_previous_lands_on_a_start(tokens: Seq<TokenView>, cursor: Point)
    ensures
        tokens.len() == 0 ==> previous_target(tokens, cursor) == cursor,
        tokens.len() > 0 ==> previous_target(tokens, cursor) == Point::origin() || exists|i: int|
            0 <= i < tokens.len() && !(#[trigger] tokens[i]).whitespace && start_of(tokens, i)
                == previous_target(tokens, cursor),
{
    if tokens.len() > 0 {
        let stop = stop_index(tokens, cursor, 0);
        lemma_stop_index_in_range(tokens, cursor, 0);
        lemma_last_word_upto(tokens, stop);
        let word = last_word_upto(tokens, stop);
        if word >= 0 {
            assert(!tokens[word].whitespace && start_of(tokens, word) == previous_target(
                tokens,
                cursor,
            ));
        }
    }
}

/// The motion to the next token never lands inside a token: its target, if
/// it has one, is the start of a token that is not whitespace, and lies
/// after the cursor.
pub proof fn lemma_next_lands_on_a_start(tokens: Seq<TokenView>, cursor: Point)
    ensures
        next_target(tokens, cursor).is_some() ==> cursor.lt(next_target(tokens, cursor).unwrap())
            && exists|i: int|
            0 <= i < tokens.len() && !(#[trigger] tokens[i]).whitespace && start_of(tokens, i)
                == next_target(tokens, cursor).unwrap(),
{
    lemma_next_word(tokens, cursor, 0);
    let word = next_word_from(tokens, cursor, 0);
    if word < tokens.len() {
        assert(!tokens[word].whitespace && start_of(tokens, word) == next_target(
            tokens,
            cursor,
        ).unwrap());
    }
}

/// At the origin the motion to the previous token stays at the origin,
/// whatever the tokens: once the cursor has arrived there, further motions
/// backwards leave it there.
pub proof fn lemma_previous_at_origin(tokens: Seq<TokenView>)
    ensures
        previous_target(tokens, Point::origin()) == Point::origin(),
{
    if tokens.len() > 0 {
        lemma_stop_index(tokens, Point::origin(), 0, 0);
        assert(last_word_upto(tokens, -1) == -1);
    }
}

/// The start of the previous token: where the cursor goes on the motion
/// backwards, which skips whitespace.
pub fn start_of_previous_token(tokens: &Vec<Token>, cursor: Position) -> (target: Position)
    requires
        joined(views(tokens@)).len() <= usize::MAX,
    ensures
        target@ == previous_target(views(tokens@), cursor@),
{
    let n = tokens.len();
    if n == 0 {
        return cursor;
    }
    let ghost ts = views(tokens@);
    let mut here = Position::new();
    let mut closest = Position::new();
    let mut i: usize = 0;
    loop
        invariant
            ts == views(tokens@),
            n == tokens.len(),
            joined(ts).len() <= usize::MAX,
            i < n,
            here@ == start_of(ts, i as int),
            closest@ == start_of(ts, last_word_upto(ts, i - 1)),
            stop_index(ts, cursor@, 0) == stop_index(ts, cursor@, i as int),
        decreases n - i,
    {
        let token = &tokens[i];
        if !token.is_whitespace() {
            closest = here;
        }
        proof {
            lemma_start_bounded(ts, i as int);
            lemma_joined_prefix(ts, i as int);
            lemma_joined_prefix(ts, i + 1);
        }
        here = advance_over(here, token.lexeme.as_str());
        if i + 1 >= n || here >= cursor {
            return closest;
        }
        i = i + 1;
    }
}

/// The start of the next token: where the cursor goes on the motion
/// forwards, which skips whitespace. `None` where no token follows, and the
/// cursor then stays where it is.
pub fn start_of_next_token(tokens: &Vec<Token>, cursor: Position) -> (target: Option<Position>)
    requires
        joined(views(tokens@)).len() <= usize::MAX,
    ensures
        match target {
            Some(p) => next_target(views(tokens@), cursor@) == Some(p@),
            None => next_target(views(tokens@), cursor@).is_none(),
        },
{
    let n = tokens.len();
    let ghost ts = views(tokens@);
    let mut here = Position::new();
    let mut i: usize = 0;
    while i < n
        invariant
            ts == views(tokens@),
            n == tokens.len(),
            joined(ts).len() <= usize::MAX,
            i <= n,
            here@ == start_of(ts, i as int),
            next_word_from(ts, cursor@, 0) == next_word_from(ts, cursor@, i as int),
        decreases n - i,
    {
        let token = &tokens[i];
        if here > cursor && !token.is_whitespace() {
            return Some(here);
        }
        proof {
            lemma_start_bounded(ts, i as int);
            lemma_joined_prefix(ts, i as int);
            lemma_joined_prefix(ts, i + 1);
        }
        here = advance_over(here, token.lexeme.as_str());
        i = i + 1;
    }
    None
}

} // verus!
