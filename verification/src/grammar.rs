//! The grammar, as functions from a token stream and a position in it to a
//! tree and the position behind it. A position counts the tokens consumed.
//!
//! The parser reads one token ahead: to consume a token it must already have
//! pulled the one after it, so an error of the tokenizer comes up when the
//! last token before it is consumed.
//!
//! Each function takes the `room` that is left for nesting: a block inside a
//! block, an expression in parentheses and an atom behind `-` each take one
//! level, and with no room left they are refused.

use vstd::prelude::*;
use crate::ast::{Ast, Condition, OperatorToken};
use crate::error::ParseErrorView;
use crate::lexer::TokenStream;
use crate::token::TokenView;

verus! {

/// What consuming the token at `p` fails with, if it fails.
pub open spec fn take(s: TokenStream, p: int) -> Option<ParseErrorView> {
    if p < 0 || p >= s.tokens.len() {
        Some(ParseErrorView::UnexpectedEndOfFile)
    } else if p + 1 == s.tokens.len() && s.error is Some {
        Some(ParseErrorView::Lexical(s.error->0))
    } else {
        None
    }
}

/// The operator that a token is at the tier of `*`, `/` and `%`.
pub open spec fn term_operator(token: TokenView) -> Option<OperatorToken> {
    match token {
        TokenView::Multiply => Some(OperatorToken::Multiply),
        TokenView::Divide => Some(OperatorToken::Divide),
        TokenView::Modulo => Some(OperatorToken::Modulo),
        _ => None,
    }
}

/// The operator that a token is at the tier of `+` and `-`.
pub open spec fn sum_operator(token: TokenView) -> Option<OperatorToken> {
    match token {
        TokenView::Add => Some(OperatorToken::Add),
        TokenView::Subtract => Some(OperatorToken::Subtract),
        _ => None,
    }
}

/// The operator at `p`, if the token there is one of its tier.
pub open spec fn operator_at(s: TokenStream, p: int, sum: bool) -> Option<OperatorToken> {
    if 0 <= p < s.tokens.len() {
        if sum {
            sum_operator(s.tokens[p])
        } else {
            term_operator(s.tokens[p])
        }
    } else {
        None
    }
}

/// The tree of a binary operation.
pub open spec fn binary(left: Ast, operator: OperatorToken, right: Ast) -> Ast {
    Ast::BinaryOperation { left: Box::new(left), operator, right: Box::new(right) }
}

/// An atom: a number, a variable, an expression in parentheses, or `-`
/// before an atom, which stands for zero minus that atom.
pub open spec fn atom(s: TokenStream, p: int, room: nat) -> Result<(Ast, int), ParseErrorView>
    decreases s.tokens.len() - p, 0int,
{
    match take(s, p) {
        Some(error) => Err(error),
        None => match s.tokens[p] {
            TokenView::Number(n) => Ok((Ast::Number(n), p + 1)),
            TokenView::Identifier(name) => Ok((Ast::Variable(name), p + 1)),
            TokenView::Subtract => if room == 0 {
                Err(ParseErrorView::NestingTooDeep)
            } else {
                match atom(s, p + 1, (room - 1) as nat) {
                    Err(error) => Err(error),
                    Ok((operand, q)) => Ok(
                        (binary(Ast::Number(0), OperatorToken::Subtract, operand), q),
                    ),
                }
            },
            TokenView::LeftParenthesis => if room == 0 {
                Err(ParseErrorView::NestingTooDeep)
            } else {
                match expression(s, p + 1, (room - 1) as nat) {
                    Err(error) => Err(error),
                    Ok((inner, q)) => match take(s, q) {
                        Some(error) => Err(error),
                        None => if s.tokens[q] is RightParenthesis {
                            Ok((inner, q + 1))
                        } else {
                            Err(ParseErrorView::UnmatchedParenthesis)
                        },
                    },
                }
            },
            _ => Err(ParseErrorView::ExpectedExpression),
        },
    }
}

/// What follows the first atom of a term: `*`, `/` or `%` and an atom, any
/// number of times, grouped to the left.
pub open spec fn term_tail(s: TokenStream, left: Ast, p: int, room: nat) -> Result<
    (Ast, int),
    ParseErrorView,
>
    decreases s.tokens.len() - p, 0int,
{
    match operator_at(s, p, false) {
        None => Ok((left, p)),
        Some(operator) => match take(s, p) {
            Some(error) => Err(error),
            None => match atom(s, p + 1, room) {
                Err(error) => Err(error),
                Ok((right, q)) => if p < q <= s.tokens.len() {
                    term_tail(s, binary(left, operator, right), q, room)
                } else {
                    Err(ParseErrorView::UnexpectedEndOfFile)
                },
            },
        },
    }
}

/// A term: atoms joined by `*`, `/` and `%`.
pub open spec fn term(s: TokenStream, p: int, room: nat) -> Result<(Ast, int), ParseErrorView>
    decreases s.tokens.len() - p, 1int,
{
    match atom(s, p, room) {
        Err(error) => Err(error),
        Ok((first, q)) => if p < q <= s.tokens.len() {
            term_tail(s, first, q, room)
        } else {
            Err(ParseErrorView::UnexpectedEndOfFile)
        },
    }
}

/// What follows the first term of an expression: `+` or `-` and a term, any
/// number of times, grouped to the left.
pub open spec fn expression_tail(s: TokenStream, left: Ast, p: int, room: nat) -> Result<
    (Ast, int),
    ParseErrorView,
>
    decreases s.tokens.len() - p, 0int,
{
    match operator_at(s, p, true) {
        None => Ok((left, p)),
        Some(operator) => match take(s, p) {
            Some(error) => Err(error),
            None => match term(s, p + 1, room) {
                Err(error) => Err(error),
                Ok((right, q)) => if p < q <= s.tokens.len() {
                    expression_tail(s, binary(left, operator, right), q, room)
                } else {
                    Err(ParseErrorView::UnexpectedEndOfFile)
                },
            },
        },
    }
}

/// An expression: terms joined by `+` and `-`.
pub open spec fn expression(s: TokenStream, p: int, room: nat) -> Result<
    (Ast, int),
    ParseErrorView,
>
    decreases s.tokens.len() - p, 2int,
{
    match term(s, p, room) {
        Err(error) => Err(error),
        Ok((first, q)) => if p < q <= s.tokens.len() {
            expression_tail(s, first, q, room)
        } else {
            Err(ParseErrorView::UnexpectedEndOfFile)
        },
    }
}

/// What one step at statement level finds.
pub ghost enum StepView {
    /// A whole statement.
    Statement(Ast),
    /// The `END` that closes the block.
    End,
    /// The `ELSE` that closes the first branch of a conditional.
    Else,
}

/// The test that a keyword of a conditional stands for.
pub open spec fn condition_of(token: TokenView) -> Option<Condition> {
    match token {
        TokenView::IfPositive => Some(Condition::Positive),
        TokenView::IfZero => Some(Condition::Zero),
        TokenView::IfNegative => Some(Condition::Negative),
        _ => None,
    }
}

/// An assignment to `name` from the token at `p`, behind the name: `=` and
/// an expression.
pub open spec fn assignment(s: TokenStream, name: Seq<char>, p: int, room: nat) -> Result<
    (Ast, int),
    ParseErrorView,
> {
    match take(s, p) {
        Some(error) => Err(error),
        None => if s.tokens[p] is Assign {
            match expression(s, p + 1, room) {
                Err(error) => Err(error),
                Ok((value, q)) => Ok((Ast::Assignment(name, Box::new(value)), q)),
            }
        } else {
            Err(ParseErrorView::ExpectedAssignAfterIdentifier)
        },
    }
}

/// What follows `READ`, from the token at `p`: the name of a variable.
pub open spec fn read(s: TokenStream, p: int) -> Result<(Ast, int), ParseErrorView> {
    match take(s, p) {
        Some(error) => Err(error),
        None => match s.tokens[p] {
            TokenView::Identifier(name) => Ok((Ast::Read(name), p + 1)),
            _ => Err(ParseErrorView::ExpectedIdentifierAfterRead),
        },
    }
}

/// What follows the keyword of a conditional at `p`: the test, the
/// statements up to `ELSE` or `END`, and after `ELSE` those up to `END`.
pub open spec fn conditional_rest(s: TokenStream, p: int, room: nat) -> Result<
    (StepView, int),
    ParseErrorView,
>
    decreases s.tokens.len() - p, 2int,
{
    match expression(s, p + 1, room) {
        Err(error) => Err(error),
        Ok((test, q)) => if p < q <= s.tokens.len() {
            match block(s, q, true, Seq::empty(), room) {
                Err(error) => Err(error),
                Ok((positive, by_else, r)) => if !by_else {
                    Ok((StepView::Statement(conditional(s.tokens[p], test, positive, None)), r))
                } else if p < r <= s.tokens.len() {
                    match block(s, r, false, Seq::empty(), room) {
                        Err(error) => Err(error),
                        Ok((negative, _, end)) => Ok(
                            (
                                StepView::Statement(
                                    conditional(s.tokens[p], test, positive, Some(negative)),
                                ),
                                end,
                            ),
                        ),
                    }
                } else {
                    Err(ParseErrorView::UnexpectedEndOfFile)
                },
            }
        } else {
            Err(ParseErrorView::UnexpectedEndOfFile)
        },
    }
}

/// One step at statement level, from the token at `p`.
pub open spec fn statement(s: TokenStream, p: int, room: nat) -> Result<
    (StepView, int),
    ParseErrorView,
>
    decreases s.tokens.len() - p, 3int,
{
    match take(s, p) {
        Some(error) => Err(error),
        None => match s.tokens[p] {
            TokenView::End => Ok((StepView::End, p + 1)),
            TokenView::Else => Ok((StepView::Else, p + 1)),
            TokenView::Break => Ok((StepView::Statement(Ast::Break), p + 1)),
            TokenView::Identifier(name) => match assignment(s, name, p + 1, room) {
                Err(error) => Err(error),
                Ok((node, q)) => Ok((StepView::Statement(node), q)),
            },
            TokenView::Print => match expression(s, p + 1, room) {
                Err(error) => Err(error),
                Ok((value, q)) => Ok((StepView::Statement(Ast::Print(Box::new(value))), q)),
            },
            TokenView::Read => match read(s, p + 1) {
                Err(error) => Err(error),
                Ok((node, q)) => Ok((StepView::Statement(node), q)),
            },
            TokenView::Loop => if room == 0 {
                Err(ParseErrorView::NestingTooDeep)
            } else {
                match block(s, p + 1, false, Seq::empty(), (room - 1) as nat) {
                    Err(error) => Err(error),
                    Ok((body, _, q)) => Ok((StepView::Statement(Ast::Loop(body)), q)),
                }
            },
            TokenView::IfPositive | TokenView::IfZero | TokenView::IfNegative => if room == 0 {
                Err(ParseErrorView::NestingTooDeep)
            } else {
                conditional_rest(s, p, (room - 1) as nat)
            },
            _ => Err(ParseErrorView::UnexpectedToken),
        },
    }
}

/// The tree of a conditional that `keyword` opens.
pub open spec fn conditional(
    keyword: TokenView,
    test: Ast,
    positive: Seq<Ast>,
    negative: Option<Seq<Ast>>,
) -> Ast {
    Ast::Conditional {
        condition: match condition_of(keyword) {
            Some(condition) => condition,
            None => Condition::Positive,
        },
        test: Box::new(test),
        positive,
        negative,
    }
}

/// The rest of a block from `p`, after the statements `done`: statements up
/// to the `END` that closes the block or, where `allow_else` holds, up to an
/// `ELSE`. The result tells whether it was an `ELSE`.
pub open spec fn block(
    s: TokenStream,
    p: int,
    allow_else: bool,
    done: Seq<Ast>,
    room: nat,
) -> Result<
    (Seq<Ast>, bool, int),
    ParseErrorView,
>
    decreases s.tokens.len() - p, 4int,
{
    match statement(s, p, room) {
        Err(error) => Err(error),
        Ok((step, q)) => match step {
            StepView::End => Ok((done, false, q)),
            StepView::Else => if allow_else {
                Ok((done, true, q))
            } else {
                Err(ParseErrorView::UnexpectedToken)
            },
            StepView::Statement(node) => if p < q <= s.tokens.len() {
                block(s, q, allow_else, done.push(node), room)
            } else {
                Err(ParseErrorView::UnexpectedEndOfFile)
            },
        },
    }
}

/// What building a parser on the stream fails with, if it fails: the stream
/// must start with `BEGIN`, and its second token must have been scanned.
pub open spec fn start(s: TokenStream) -> Option<ParseErrorView> {
    if s.tokens.len() == 0 {
        match s.error {
            Some(error) => Some(ParseErrorView::Lexical(error)),
            None => Some(ParseErrorView::EmptyProgram),
        }
    } else if !(s.tokens[0] is Begin) {
        Some(ParseErrorView::MissingBegin)
    } else {
        match s.error {
            Some(error) => if s.tokens.len() == 1 {
                Some(ParseErrorView::Lexical(error))
            } else {
                None
            },
            None => None,
        }
    }
}

/// The program that a stream which starts with `BEGIN` holds: the statements
/// up to the `END` that closes the outermost block, with nothing after it.
/// Blocks, parentheses and signs may stand inside one another `room` deep.
pub open spec fn program(s: TokenStream, room: nat) -> Result<Ast, ParseErrorView> {
    match block(s, 1, false, Seq::empty(), room) {
        Err(error) => Err(error),
        Ok((body, _, q)) => if q < s.tokens.len() {
            Err(ParseErrorView::TrailingInput)
        } else {
            Ok(Ast::Program(body))
        },
    }
}

/// By how much a token changes the number of open blocks.
pub open spec fn depth_change(token: TokenView) -> int {
    if token.opens_block() {
        1
    } else if token is End {
        -1
    } else {
        0
    }
}

/// The number of blocks that are open after the first `n` tokens.
pub open spec fn depth_at(tokens: Seq<TokenView>, n: int) -> int
    decreases n,
{
    if n <= 0 || n > tokens.len() {
        0
    } else {
        depth_at(tokens, n - 1) + depth_change(tokens[n - 1])
    }
}

/// Blocks are balanced and properly nested: every keyword that opens a block
/// has its own `END`, the outermost block stays open up to the last token,
/// and the last token closes it.
pub open spec fn balanced(tokens: Seq<TokenView>) -> bool {
    &&& tokens.len() >= 2
    &&& depth_at(tokens, tokens.len() as int) == 0
    &&& forall|n: int| 0 < n < tokens.len() ==> depth_at(tokens, n) >= 1
}

} // verus!
