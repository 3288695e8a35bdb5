//! Tokens, lexical errors, and their mathematical models.

use vstd::prelude::*;

verus! {

/// One lexical unit of the language.
#[derive(Debug, PartialEq)]
pub enum Token {
    // Keywords
    Begin,
    End,
    IfPositive,
    IfZero,
    IfNegative,
    Else,
    Loop,
    Break,
    Print,
    Read,
    // Literals
    Number(i32),
    // Operators
    Add,
    Subtract,
    Multiply,
    Divide,
    Modulo,
    Assign,
    // Separators
    LeftParenthesis,
    RightParenthesis,
    // Names
    Identifier(String),
}

/// The model of a [`Token`]: the same variants, with an identifier's name as
/// a sequence of characters.
pub ghost enum TokenView {
    Begin,
    End,
    IfPositive,
    IfZero,
    IfNegative,
    Else,
    Loop,
    Break,
    Print,
    Read,
    Number(i32),
    Add,
    Subtract,
    Multiply,
    Divide,
    Modulo,
    Assign,
    LeftParenthesis,
    RightParenthesis,
    Identifier(Seq<char>),
}

impl View for Token {
    type V = TokenView;

    open spec fn view(&self) -> TokenView {
        match self {
            Token::Begin => TokenView::Begin,
            Token::End => TokenView::End,
            Token::IfPositive => TokenView::IfPositive,
            Token::IfZero => TokenView::IfZero,
            Token::IfNegative => TokenView::IfNegative,
            Token::Else => TokenView::Else,
            Token::Loop => TokenView::Loop,
            Token::Break => TokenView::Break,
            Token::Print => TokenView::Print,
            Token::Read => TokenView::Read,
            Token::Number(n) => TokenView::Number(*n),
            Token::Add => TokenView::Add,
            Token::Subtract => TokenView::Subtract,
            Token::Multiply => TokenView::Multiply,
            Token::Divide => TokenView::Divide,
            Token::Modulo => TokenView::Modulo,
            Token::Assign => TokenView::Assign,
            Token::LeftParenthesis => TokenView::LeftParenthesis,
            Token::RightParenthesis => TokenView::RightParenthesis,
            Token::Identifier(name) => TokenView::Identifier(name@),
        }
    }
}

impl TokenView {
    /// True for the keywords that open a block.
    pub open spec fn opens_block(self) -> bool {
        self is Begin || self is IfPositive || self is IfZero || self is IfNegative
            || self is Loop
    }
}

/// Why tokenizing stopped before the end of the input.
#[derive(Debug, PartialEq)]
pub enum LexError {
    /// A byte that starts no token.
    InvalidCharacter(char),
    /// A run of digits whose value does not fit in 32 signed bits.
    InvalidNumber(String),
    /// A `{` with no `}` after it.
    UnclosedComment,
}

/// The model of a [`LexError`].
pub ghost enum LexErrorView {
    InvalidCharacter(char),
    InvalidNumber(Seq<char>),
    UnclosedComment,
}

impl View for LexError {
    type V = LexErrorView;

    open spec fn view(&self) -> LexErrorView {
        match self {
            LexError::InvalidCharacter(c) => LexErrorView::InvalidCharacter(*c),
            LexError::InvalidNumber(text) => LexErrorView::InvalidNumber(text@),
            LexError::UnclosedComment => LexErrorView::UnclosedComment,
        }
    }
}

impl LexErrorView {
    /// The text that describes the error to a person.
    pub open spec fn message(self) -> Seq<char> {
        match self {
            LexErrorView::InvalidCharacter(c) => "Invalid character: "@.push(c),
            LexErrorView::InvalidNumber(text) => "Invalid number: "@ + text,
            LexErrorView::UnclosedComment => "Unclosed comment"@,
        }
    }
}

/// `String::push`: the text with one character added at its end.
#[verifier::external_body]
fn push_char(text: &mut String, c: char)
    ensures
        final(text)@ == old(text)@.push(c),
{
    text.push(c)
}

impl LexError {
    /// The text that describes the error to a person.
    pub fn message(&self) -> (text: String)
        ensures
            text@ == self@.message(),
    {
        match self {
            LexError::InvalidCharacter(c) => {
                let mut text = String::from_str("Invalid character: ");
                push_char(&mut text, *c);
                text
            },
            LexError::InvalidNumber(digits) => String::from_str("Invalid number: ").concat(
                digits.as_str(),
            ),
            LexError::UnclosedComment => String::from_str("Unclosed comment"),
        }
    }
}

} // verus!
