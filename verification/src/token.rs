//! Tokens: the pieces that a tokenizer cuts text into.
use vstd::prelude::*;

verus! {

/// The lexical kind of a token. The motions need to tell blank space from
/// everything else, and nothing more.
#[derive(Clone, Copy, Debug, PartialEq, Eq, Structural)]
pub enum Category {
    Whitespace,
    Other,
}

/// A token: a piece of the text, as written, and its kind.
#[derive(Clone, Debug)]
pub struct Token {
    pub lexeme: String,
    pub category: Category,
}

/// What a token stands for in contracts: its characters, and whether it is
/// blank space.
pub struct TokenView {
    pub lexeme: Seq<char>,
    pub whitespace: bool,
}

impl View for Token {
    type V = TokenView;

    open spec fn view(&self) -> TokenView {
        TokenView { lexeme: self.lexeme@, whitespace: self.category == Category::Whitespace }
    }
}

impl Token {
    /// Whether the token is blank space.
    pub fn is_whitespace(&self) -> (b: bool)
        ensures
            b == self@.whitespace,
    {
        match self.category {
            Category::Whitespace => true,
            Category::Other => false,
        }
    }
}

/// The views of a sequence of tokens, one for one.
pub open spec fn views(tokens: Seq<Token>) -> Seq<TokenView> {
    Seq::new(tokens.len(), |i: int| tokens[i]@)
}

/// The text that a sequence of tokens was cut from: their lexemes, joined.
pub open spec fn joined(tokens: Seq<TokenView>) -> Seq<char>
    decreases tokens.len(),
{
    if tokens.len() == 0 {
        Seq::empty()
    } else {
        joined(tokens.drop_last()) + tokens.last().lexeme
    }
}

} // verus!
