//! Syntax errors and their mathematical model.

use vstd::prelude::*;
use crate::token::{LexError, LexErrorView};

verus! {

/// Why a token stream is not a program.
#[derive(Debug, PartialEq)]
pub enum ParseError {
    /// There is no token at all.
    EmptyProgram,
    /// The first token is not `BEGIN`.
    MissingBegin,
    /// The tokens end where the grammar needs another one.
    UnexpectedEndOfFile,
    /// An identifier starts a statement and no `=` follows it.
    ExpectedAssignAfterIdentifier,
    /// Tokens follow the `END` of the outermost block.
    TrailingInput,
    /// A token stands where a statement must start and starts none.
    UnexpectedToken,
    /// A token stands where an expression must start and starts none.
    ExpectedExpression,
    /// A parenthesized expression is not followed by `)`.
    UnmatchedParenthesis,
    /// `READ` is not followed by an identifier.
    ExpectedIdentifierAfterRead,
    /// Blocks and expressions are nested deeper than the parser's limit.
    NestingTooDeep,
    /// The tokenizer failed on the token that was needed next.
    Lexical(LexError),
}

/// The model of a [`ParseError`].
pub ghost enum ParseErrorView {
    EmptyProgram,
    MissingBegin,
    UnexpectedEndOfFile,
    ExpectedAssignAfterIdentifier,
    TrailingInput,
    UnexpectedToken,
    ExpectedExpression,
    UnmatchedParenthesis,
    ExpectedIdentifierAfterRead,
    NestingTooDeep,
    Lexical(LexErrorView),
}

impl View for ParseError {
    type V = ParseErrorView;

    open spec fn view(&self) -> ParseErrorView {
        match self {
            ParseError::EmptyProgram => ParseErrorView::EmptyProgram,
            ParseError::MissingBegin => ParseErrorView::MissingBegin,
            ParseError::UnexpectedEndOfFile => ParseErrorView::UnexpectedEndOfFile,
            ParseError::ExpectedAssignAfterIdentifier => ParseErrorView::ExpectedAssignAfterIdentifier,
            ParseError::TrailingInput => ParseErrorView::TrailingInput,
            ParseError::UnexpectedToken => ParseErrorView::UnexpectedToken,
            ParseError::ExpectedExpression => ParseErrorView::ExpectedExpression,
            ParseError::UnmatchedParenthesis => ParseErrorView::UnmatchedParenthesis,
            ParseError::ExpectedIdentifierAfterRead => ParseErrorView::ExpectedIdentifierAfterRead,
            ParseError::NestingTooDeep => ParseErrorView::NestingTooDeep,
            ParseError::Lexical(error) => ParseErrorView::Lexical(error@),
        }
    }
}

impl ParseErrorView {
    /// The text that describes the error to a person.
    pub open spec fn message(self) -> Seq<char> {
        match self {
            ParseErrorView::EmptyProgram => "The program is empty."@,
            ParseErrorView::MissingBegin => "The program must start with `BEGIN`."@,
            ParseErrorView::UnexpectedEndOfFile => "Unexpected end of file."@,
            ParseErrorView::ExpectedAssignAfterIdentifier => "Expected `=` after identifier."@,
            ParseErrorView::TrailingInput => "Can't parse instructions after `BEGIN ... END`."@,
            ParseErrorView::UnexpectedToken => "Expected a statement."@,
            ParseErrorView::ExpectedExpression => "Expected an expression."@,
            ParseErrorView::UnmatchedParenthesis => "Expected `)` after expression."@,
            ParseErrorView::ExpectedIdentifierAfterRead => "Expected identifier after `READ`."@,
            ParseErrorView::NestingTooDeep => "The program is nested too deeply."@,
            ParseErrorView::Lexical(error) => error.message(),
        }
    }
}

impl ParseError {
    /// The text that describes the error to a person.
    pub fn message(&self) -> (text: String)
        ensures
            text@ == self@.message(),
    {
        match self {
            ParseError::EmptyProgram => String::from_str("The program is empty."),
            ParseError::MissingBegin => String::from_str("The program must start with `BEGIN`."),
            ParseError::UnexpectedEndOfFile => String::from_str("Unexpected end of file."),
            ParseError::ExpectedAssignAfterIdentifier => String::from_str(
                "Expected `=` after identifier.",
            ),
            ParseError::TrailingInput => String::from_str(
                "Can't parse instructions after `BEGIN ... END`.",
            ),
            ParseError::UnexpectedToken => String::from_str("Expected a statement."),
            ParseError::ExpectedExpression => String::from_str("Expected an expression."),
            ParseError::UnmatchedParenthesis => String::from_str("Expected `)` after expression."),
            ParseError::ExpectedIdentifierAfterRead => String::from_str(
                "Expected identifier after `READ`.",
            ),
            ParseError::NestingTooDeep => String::from_str("The program is nested too deeply."),
            ParseError::Lexical(error) => error.message(),
        }
    }
}

} // verus!
