//! Why a stream that the grammar accepts has its blocks balanced and
//! properly nested, proved on the grammar itself.

use vstd::prelude::*;
use crate::ast::Ast;
use crate::grammar::{
    atom, balanced, binary, block, conditional_rest, depth_at, depth_change, expression,
    expression_tail, operator_at, program, statement, take, term, term_tail, StepView,
};
use crate::lexer::TokenStream;
use crate::token::TokenView;

verus! {

/// From `p` to `q` no block that was open at `p` is closed, and at `q` just
/// those blocks are open again.
pub open spec fn level(tokens: Seq<TokenView>, p: int, q: int) -> bool {
    &&& 0 <= p <= q <= tokens.len()
    &&& forall|n: int| p <= n <= q ==> #[trigger] depth_at(tokens, n) >= depth_at(tokens, p)
    &&& depth_at(tokens, q) == depth_at(tokens, p)
}

/// From `p` up to `q` no block that was open at `p` is closed, and the token
/// before `q` closes one of them, or none where it is an `ELSE`.
pub open spec fn closes(tokens: Seq<TokenView>, p: int, q: int, by_else: bool) -> bool {
    &&& 0 <= p < q <= tokens.len()
    &&& forall|n: int| p <= n < q ==> #[trigger] depth_at(tokens, n) >= depth_at(tokens, p)
    &&& depth_at(tokens, q) == depth_at(tokens, p) - if by_else {
        0int
    } else {
        1int
    }
}

/// Each token changes the number of open blocks by what it opens or closes.
proof fn lemma_depth_step(tokens: Seq<TokenView>, p: int)
    requires
        0 <= p < tokens.len(),
    ensures
        depth_at(tokens, p + 1) == depth_at(tokens, p) + depth_change(tokens[p]),
{
}

proof fn lemma_atom_level(s: TokenStream, p: int, room: nat)
    requires
        0 <= p,
    ensures
        atom(s, p, room) matches Ok((tree, q)) ==> p < q && level(s.tokens, p, q),
    decreases s.tokens.len() - p, 0int,
{
    if take(s, p) is None {
        match s.tokens[p] {
            TokenView::Subtract => {
                if room > 0 {
                    lemma_atom_level(s, p + 1, (room - 1) as nat);
                }
            },
            TokenView::LeftParenthesis => {
                if room > 0 {
                    lemma_expression_level(s, p + 1, (room - 1) as nat);
                }
            },
            _ => {},
        }
    }
}

proof fn lemma_term_tail_level(s: TokenStream, left: Ast, p: int, room: nat)
    requires
        0 <= p <= s.tokens.len(),
    ensures
        term_tail(s, left, p, room) matches Ok((tree, q)) ==> level(s.tokens, p, q),
    decreases s.tokens.len() - p, 0int,
{
    match operator_at(s, p, false) {
        Some(operator) => {
            lemma_atom_level(s, p + 1, room);
            match atom(s, p + 1, room) {
                Ok((right, q)) => {
                    if p < q <= s.tokens.len() {
                        lemma_term_tail_level(s, binary(left, operator, right), q, room);
                    }
                },
                Err(_) => {},
            }
        },
        None => {},
    }
}

proof fn lemma_term_level(s: TokenStream, p: int, room: nat)
    requires
        0 <= p,
    ensures
        term(s, p, room) matches Ok((tree, q)) ==> p < q && level(s.tokens, p, q),
    decreases s.tokens.len() - p, 1int,
{
    lemma_atom_level(s, p, room);
    match atom(s, p, room) {
        Ok((first, q)) => {
            if p < q <= s.tokens.len() {
                lemma_term_tail_level(s, first, q, room);
            }
        },
        Err(_) => {},
    }
}

proof fn lemma_expression_tail_level(s: TokenStream, left: Ast, p: int, room: nat)
    requires
        0 <= p <= s.tokens.len(),
    ensures
        expression_tail(s, left, p, room) matches Ok((tree, q)) ==> level(s.tokens, p, q),
    decreases s.tokens.len() - p, 0int,
{
    match operator_at(s, p, true) {
        Some(operator) => {
            lemma_term_level(s, p + 1, room);
            match term(s, p + 1, room) {
                Ok((right, q)) => {
                    if p < q <= s.tokens.len() {
                        lemma_expression_tail_level(s, binary(left, operator, right), q, room);
                    }
                },
                Err(_) => {},
            }
        },
        None => {},
    }
}

proof fn lemma_expression_level(s: TokenStream, p: int, room: nat)
    requires
        0 <= p,
    ensures
        expression(s, p, room) matches Ok((tree, q)) ==> p < q && level(s.tokens, p, q),
    decreases s.tokens.len() - p, 2int,
{
    lemma_term_level(s, p, room);
    match term(s, p, room) {
        Ok((first, q)) => {
            if p < q <= s.tokens.len() {
                lemma_expression_tail_level(s, first, q, room);
            }
        },
        Err(_) => {},
    }
}

proof fn lemma_statement_level(s: TokenStream, p: int, room: nat)
    requires
        0 <= p,
    ensures
        statement(s, p, room) matches Ok((step, q)) ==> match step {
            StepView::End => q == p + 1 && p < s.tokens.len() && s.tokens[p] is End,
            StepView::Else => q == p + 1 && p < s.tokens.len() && s.tokens[p] is Else,
            StepView::Statement(_) => p < q && level(s.tokens, p, q),
        },
    decreases s.tokens.len() - p, 3int,
{
    if take(s, p) is None {
        lemma_depth_step(s.tokens, p);
        if take(s, p + 1) is None {
            lemma_depth_step(s.tokens, p + 1);
        }
        match s.tokens[p] {
            TokenView::Identifier(name) => {
                if take(s, p + 1) is None {
                    lemma_expression_level(s, p + 2, room);
                }
            },
            TokenView::Print => {
                lemma_expression_level(s, p + 1, room);
            },
            TokenView::Loop => {
                if room > 0 {
                    lemma_block_closes(s, p + 1, false, Seq::empty(), (room - 1) as nat);
                }
            },
            TokenView::IfPositive | TokenView::IfZero | TokenView::IfNegative => {
                if room > 0 {
                    lemma_conditional_level(s, p, (room - 1) as nat);
                }
            },
            _ => {},
        }
    }
}

proof fn lemma_conditional_level(s: TokenStream, p: int, room: nat)
    requires
        0 <= p < s.tokens.len(),
        s.tokens[p] is IfPositive || s.tokens[p] is IfZero || s.tokens[p] is IfNegative,
    ensures
        conditional_rest(s, p, room) matches Ok((step, q)) ==> step is Statement && p < q && level(
            s.tokens,
            p,
            q,
        ),
    decreases s.tokens.len() - p, 2int,
{
    lemma_expression_level(s, p + 1, room);
    match expression(s, p + 1, room) {
        Ok((test, q)) => {
            if p < q <= s.tokens.len() {
                lemma_block_closes(s, q, true, Seq::empty(), room);
                match block(s, q, true, Seq::empty(), room) {
                    Ok((positive, by_else, r)) => {
                        if by_else && p < r <= s.tokens.len() {
                            lemma_block_closes(s, r, false, Seq::empty(), room);
                        }
                    },
                    Err(_) => {},
                }
            }
        },
        Err(_) => {},
    }
}

proof fn lemma_block_closes(s: TokenStream, p: int, allow_else: bool, done: Seq<Ast>, room: nat)
    requires
        0 <= p,
    ensures
        block(s, p, allow_else, done, room) matches Ok((body, by_else, q)) ==> closes(
            s.tokens,
            p,
            q,
            by_else,
        ) && (by_else ==> allow_else),
    decreases s.tokens.len() - p, 4int,
{
    lemma_statement_level(s, p, room);
    match statement(s, p, room) {
        Ok((step, q)) => {
            match step {
                StepView::Statement(node) => {
                    if p < q <= s.tokens.len() {
                        lemma_block_closes(s, q, allow_else, done.push(node), room);
                    }
                },
                _ => {},
            }
        },
        Err(_) => {},
    }
}

/// A stream that starts with `BEGIN` and holds a program has its blocks
/// balanced and properly nested: every keyword that opens a block has its
/// own `END`, and the `END` of the outermost block is the last token. A
/// stream whose blocks are not balanced holds no program.
pub proof fn lemma_program_is_balanced(s: TokenStream, room: nat)
    requires
        s.tokens.len() >= 1,
        s.tokens[0] is Begin,
    ensures
        program(s, room) is Ok ==> balanced(s.tokens),
        !balanced(s.tokens) ==> program(s, room) is Err,
{
    lemma_block_closes(s, 1, false, Seq::empty(), room);
    reveal_with_fuel(depth_at, 2);
}

} // verus!
