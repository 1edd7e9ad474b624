//! The tokenizer: luthor's default lexer, which cuts text into runs of
//! blank space and runs of everything else.
use vstd::prelude::*;
use crate::navigation::{
    end_of, lemma_next_then_previous, next_target, previous_target, start_of,
};
use crate::position::Point;
use crate::token::{Category, Token, TokenView, joined, views};

verus! {

/// Whether the lexer takes a character for blank space: a space or a line
/// break.
pub open spec fn is_blank(c: char) -> bool {
    c == ' ' || c == '\n'
}

/// The tokens of a text that has one more character at its end: the
/// character joins the last token where both are blank or both are not, and
/// begins a token of its own where they differ or no token is there.
pub open spec fn with_char(tokens: Seq<TokenView>, c: char) -> Seq<TokenView> {
    if tokens.len() > 0 && tokens.last().whitespace == is_blank(c) {
        tokens.drop_last().push(
            TokenView { lexeme: tokens.last().lexeme.push(c), whitespace: is_blank(c) },
        )
    } else {
        tokens.push(TokenView { lexeme: seq![c], whitespace: is_blank(c) })
    }
}

/// The tokens that `luthor::lexers::default::lex` cuts a text into, in
/// order: the runs of spaces and line breaks, each as long as it can be,
/// as whitespace, and the runs of everything else between them.
pub open spec fn lexed(text: Seq<char>) -> Seq<TokenView>
    decreases text.len(),
{
    if text.len() == 0 {
        Seq::empty()
    } else {
        with_char(lexed(text.drop_last()), text.last())
    }
}

/// The tokens of a text, joined, give the text back, and none of them is
/// empty.
pub proof fn lemma_lexed(text: Seq<char>)
    ensures
        joined(lexed(text)) == text,
        forall|i: int| 0 <= i < lexed(text).len() ==> (#[trigger] lexed(text)[i]).lexeme.len() > 0,
    decreases text.len(),
{
    if text.len() > 0 {
        let before = lexed(text.drop_last());
        let c = text.last();
        let after = lexed(text);
        lemma_lexed(text.drop_last());
        if before.len() > 0 && before.last().whitespace == is_blank(c) {
            assert(after.drop_last() =~= before.drop_last());
            assert(joined(before) == joined(before.drop_last()) + before.last().lexeme);
            assert(joined(after) =~= (joined(before.drop_last()) + before.last().lexeme).push(c));
        } else {
            assert(after.drop_last() =~= before);
            assert(joined(after) =~= joined(before).push(c));
        }
        assert(text =~= text.drop_last().push(c));
    }
}

/// In the tokens of any text, from a cursor inside a token that is not
/// whitespace, the motion to the next token followed by the motion to the
/// previous token brings the cursor to the start of the token in which it
/// began, where the first motion finds a token.
pub proof fn lemma_next_then_previous_in_text(text: Seq<char>, cursor: Point, k: int)
    requires
        0 <= k < lexed(text).len(),
        !lexed(text)[k].whitespace,
        start_of(lexed(text), k).le(cursor),
        cursor.lt(end_of(lexed(text), k)),
        next_target(lexed(text), cursor).is_some(),
    ensures
        previous_target(lexed(text), next_target(lexed(text), cursor).unwrap()) == start_of(
            lexed(text),
            k,
        ),
{
    lemma_lexed(text);
    lemma_next_then_previous(lexed(text), cursor, k);
}

/// Calls `luthor::lexers::default::lex` and hands its tokens on, each with
/// its lexeme and with its category narrowed to whitespace or not.
///
/// Believed of the lexer: its tokens are those of `lexed`. It passes over
/// the text character by character, closes a token of text where a space
/// or a line break begins, and a token of whitespace where one ends.
#[verifier::external_body]
pub(crate) fn lex(text: &str) -> (tokens: Vec<Token>)
    ensures
        views(tokens@) == lexed(text@),
{
    let mut tokens = Vec::new();
    for token in luthor::lexers::default::lex(text) {
        let category = match token.category {
            luthor::token::Category::Whitespace => Category::Whitespace,
            _ => Category::Other,
        };
        tokens.push(Token { lexeme: token.lexeme, category });
    }
    tokens
}

} // verus!
