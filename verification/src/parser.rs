//! The recursive-descent parser. It pulls tokens from its source as it
//! needs them, holds the current token and the one after it, and counts the
//! open blocks.

use vstd::prelude::*;
use crate::ast::{nodes_view, ASTNode, Ast, Condition, OperatorToken};
use crate::balance::lemma_program_is_balanced;
use crate::error::{ParseError, ParseErrorView};
use crate::grammar::{
    assignment, atom, balanced, block, condition_of, conditional_rest, depth_at, depth_change,
    expression, expression_tail, operator_at, program, read, start, statement, take, term,
    term_tail, StepView,
};
use crate::lexer::{tokens_view, Lexer, TokenStream};
use crate::token::{LexError, Token, TokenView};

verus! {

/// How deep blocks, parentheses and signs may stand inside one another in a
/// parser that `new` builds.
pub const DEFAULT_NESTING_LIMIT: usize = 256;

/// Where a parser pulls its tokens from.
enum TokenSource {
    /// A tokenizer, which scans the next token when asked.
    Text(Lexer),
    /// Tokens made by hand, the first one last, so that it can be popped.
    List(Vec<Token>),
}

impl TokenSource {
    /// The source is valid.
    closed spec fn wf(&self) -> bool {
        match self {
            TokenSource::Text(lexer) => lexer.wf(),
            TokenSource::List(_) => true,
        }
    }

    /// The tokens that are still to come.
    closed spec fn remaining(&self) -> TokenStream {
        match self {
            TokenSource::Text(lexer) => lexer.remaining(),
            TokenSource::List(tokens) => TokenStream {
                tokens: Seq::new(tokens.len() as nat, |i: int| tokens[tokens.len() - 1 - i]@),
                error: None,
            },
        }
    }

    /// The tokens that are still to come are no more than a machine can count.
    proof fn lemma_remaining_len(&self)
        requires
            self.wf(),
        ensures
            self.remaining().tokens.len() <= usize::MAX,
    {
        match self {
            TokenSource::Text(lexer) => {
                lexer.lemma_remaining_len();
            },
            TokenSource::List(_) => {},
        }
    }

    /// Hands out the next token. `None` marks the end of the tokens.
    fn next(&mut self) -> (item: Option<Result<Token, LexError>>)
        requires
            old(self).wf(),
        ensures
            final(self).wf(),
            match item {
                None => old(self).remaining() == (TokenStream { tokens: Seq::empty(), error: None }),
                Some(Ok(found)) => old(self).remaining().tokens == seq![found@]
                    + final(self).remaining().tokens
                    && old(self).remaining().error == final(self).remaining().error,
                Some(Err(found)) => old(self).remaining() == (TokenStream {
                    tokens: Seq::empty(),
                    error: Some(found@),
                }),
            },
    {
        match self {
            TokenSource::Text(lexer) => lexer.next(),
            TokenSource::List(tokens) => {
                let ghost before = *old(self);
                match tokens.pop() {
                    None => {
                        assert(before.remaining().tokens =~= Seq::empty());
                        None
                    },
                    Some(token) => {
                        assert(before.remaining().tokens =~= seq![token@] + TokenSource::List(
                            *tokens,
                        ).remaining().tokens);
                        Some(Ok(token))
                    },
                }
            },
        }
    }
}

/// Parses tokens into a syntax tree.
pub struct Parser {
    /// Where the tokens come from.
    source: TokenSource,
    /// The current token: the last one consumed.
    current_token: Token,
    /// The next token, if there is one.
    next_token: Option<Token>,
    /// The number of blocks that are open.
    block_depth: usize,
    /// How deep blocks, parentheses and signs may stand inside one another.
    nesting_limit: usize,
    /// The whole token stream the parser was built on.
    stream: Ghost<TokenStream>,
    /// The number of tokens consumed.
    consumed: Ghost<int>,
}

/// What one step at statement level finds.
enum Step {
    Statement(ASTNode),
    End,
    Else,
}

impl View for Step {
    type V = StepView;

    closed spec fn view(&self) -> StepView {
        match self {
            Step::Statement(node) => StepView::Statement(node@),
            Step::End => StepView::End,
            Step::Else => StepView::Else,
        }
    }
}

/// The models of a list of nodes with one more node are the models of the
/// list with the model of the node.
proof fn lemma_nodes_view_push(nodes: Seq<ASTNode>, node: ASTNode)
    ensures
        nodes_view(nodes.push(node)) == nodes_view(nodes).push(node@),
{
    assert(nodes_view(nodes.push(node)) =~= nodes_view(nodes).push(node@));
}

impl Parser {
    /// The token stream that the parser was built on.
    pub closed spec fn tokens(&self) -> TokenStream {
        self.stream@
    }

    /// The number of tokens consumed.
    pub closed spec fn cursor(&self) -> int {
        self.consumed@
    }

    /// The number of blocks that are open.
    pub closed spec fn depth(&self) -> int {
        self.block_depth as int
    }

    /// How deep blocks, parentheses and signs may stand inside one another.
    pub closed spec fn limit(&self) -> nat {
        self.nesting_limit as nat
    }

    /// The current token.
    pub closed spec fn current(&self) -> TokenView {
        self.current_token@
    }

    /// The parser agrees with its stream: the current token is the last one
    /// consumed, the next token is the one after it, the source holds the
    /// rest, and the counter is the number of open blocks.
    pub closed spec fn wf(&self) -> bool {
        let s = self.stream@;
        let p = self.consumed@;
        &&& 1 <= p <= s.tokens.len() <= usize::MAX
        &&& s.tokens[0] is Begin
        &&& self.current_token@ == s.tokens[p - 1]
        &&& self.block_depth == depth_at(s.tokens, p)
        &&& self.block_depth <= p
        &&& self.source.wf()
        &&& match self.next_token {
            Some(token) => p < s.tokens.len() && token@ == s.tokens[p]
                && self.source.remaining().tokens == s.tokens.skip(p + 1)
                && self.source.remaining().error == s.error,
            None => p == s.tokens.len() && s.error is None,
        }
    }

    /// The parser is as `new` built it: only the opening `BEGIN` is consumed.
    pub open spec fn ready(&self) -> bool {
        self.wf() && self.cursor() == 1
    }

    /// What a function that parses a tree leaves behind, given what the
    /// grammar says of the stream from the cursor.
    spec fn node_outcome(
        before: Parser,
        after: Parser,
        result: Result<ASTNode, ParseError>,
        expected: Result<(Ast, int), ParseErrorView>,
    ) -> bool {
        &&& after.tokens() == before.tokens()
        &&& after.limit() == before.limit()
        &&& match expected {
            Ok((tree, end)) => result matches Ok(node) && node@ == tree && after.wf()
                && after.cursor() == end && end > before.cursor() && after.depth()
                == before.depth(),
            Err(error) => result matches Err(found) && found@ == error,
        }
    }

    /// Creates a parser from a tokenizer, with the default limit on nesting:
    /// pulls the first token, which must be `BEGIN`, and the second, to look
    /// ahead.
    pub fn new(lexer: Lexer) -> (result: Result<Parser, ParseError>)
        requires
            lexer.wf(),
        ensures
            match start(lexer.remaining()) {
                Some(error) => result matches Err(found) && found@ == error,
                None => result matches Ok(parser) && parser.ready() && parser.tokens()
                    == lexer.remaining() && parser.limit() == DEFAULT_NESTING_LIMIT,
            },
    {
        Parser::with_limit(lexer, DEFAULT_NESTING_LIMIT)
    }

    /// Creates a parser from a tokenizer, with a limit on nesting: pulls the
    /// first token, which must be `BEGIN`, and the second, to look ahead.
    pub fn with_limit(lexer: Lexer, limit: usize) -> (result: Result<Parser, ParseError>)
        requires
            lexer.wf(),
        ensures
            match start(lexer.remaining()) {
                Some(error) => result matches Err(found) && found@ == error,
                None => result matches Ok(parser) && parser.ready() && parser.tokens()
                    == lexer.remaining() && parser.limit() == limit,
            },
    {
        Parser::from_source(TokenSource::Text(lexer), limit)
    }

    /// Creates a parser from tokens made by hand, with a limit on nesting.
    /// The stream is these tokens, with no error at its end.
    pub fn from_tokens(tokens: Vec<Token>, limit: usize) -> (result: Result<Parser, ParseError>)
        ensures
            match start(TokenStream { tokens: tokens_view(tokens@), error: None }) {
                Some(error) => result matches Err(found) && found@ == error,
                None => result matches Ok(parser) && parser.ready() && parser.tokens()
                    == (TokenStream { tokens: tokens_view(tokens@), error: None })
                    && parser.limit() == limit,
            },
    {
        let ghost given = tokens@;
        let mut rest = tokens;
        let mut reversed: Vec<Token> = Vec::new();
        while rest.len() > 0
            invariant
                rest.len() + reversed.len() == given.len(),
                forall|i: int| 0 <= i < rest.len() ==> rest[i] == given[i],
                forall|i: int| 0 <= i < reversed.len() ==> reversed[i] == given[given.len() - 1 - i],
            decreases rest.len(),
        {
            match rest.pop() {
                None => {},
                Some(token) => {
                    reversed.push(token);
                },
            }
        }
        let source = TokenSource::List(reversed);
        assert(source.remaining().tokens =~= tokens_view(given));
        Parser::from_source(source, limit)
    }

    /// Creates a parser from a source of tokens.
    fn from_source(source: TokenSource, limit: usize) -> (result: Result<Parser, ParseError>)
        requires
            source.wf(),
        ensures
            match start(source.remaining()) {
                Some(error) => result matches Err(found) && found@ == error,
                None => result matches Ok(parser) && parser.ready() && parser.tokens()
                    == source.remaining() && parser.limit() == limit,
            },
    {
        let ghost whole = source.remaining();
        proof {
            source.lemma_remaining_len();
        }
        let mut source = source;
        let current_token = match source.next() {
            None => {
                return Err(ParseError::EmptyProgram);
            },
            Some(Err(error)) => {
                return Err(ParseError::Lexical(error));
            },
            Some(Ok(token)) => token,
        };
        match current_token {
            Token::Begin => {},
            _ => {
                return Err(ParseError::MissingBegin);
            },
        }
        let ghost rest = source.remaining();
        let next_token = match source.next() {
            None => None,
            Some(Err(error)) => {
                return Err(ParseError::Lexical(error));
            },
            Some(Ok(token)) => Some(token),
        };
        proof {
            assert(whole.tokens[0] == TokenView::Begin);
            assert(whole.tokens.skip(1) =~= rest.tokens);
            if next_token is Some {
                assert(whole.tokens.skip(2) =~= source.remaining().tokens);
                assert(whole.tokens[1] == rest.tokens[0]);
            }
            reveal_with_fuel(depth_at, 2);
        }
        Ok(
            Parser {
                source,
                current_token,
                next_token,
                block_depth: 1,
                nesting_limit: limit,
                stream: Ghost(whole),
                consumed: Ghost(1),
            },
        )
    }

    /// Parses the program and returns its tree, or the first error. A stream
    /// that parses has its blocks balanced and properly nested.
    pub fn parse(&mut self) -> (result: Result<ASTNode, ParseError>)
        requires
            old(self).ready(),
        ensures
            final(self).tokens() == old(self).tokens(),
            final(self).limit() == old(self).limit(),
            match program(old(self).tokens(), old(self).limit()) {
                Ok(tree) => result matches Ok(node) && node@ == tree,
                Err(error) => result matches Err(found) && found@ == error,
            },
            result is Ok ==> balanced(old(self).tokens().tokens),
    {
        proof {
            lemma_program_is_balanced(self.tokens(), self.limit());
        }
        match self.parse_program() {
            Err(error) => Err(error),
            Ok(body) => Ok(ASTNode::Program(body)),
        }
    }

    /// Parses the statements of the outermost block, up to the `END` that
    /// brings the count of open blocks to zero, and checks that nothing follows.
    fn parse_program(&mut self) -> (result: Result<Vec<ASTNode>, ParseError>)
        requires
            old(self).ready(),
        ensures
            final(self).tokens() == old(self).tokens(),
            final(self).limit() == old(self).limit(),
            match program(old(self).tokens(), old(self).limit()) {
                Ok(tree) => result matches Ok(body) && Ast::Program(nodes_view(body@)) == tree,
                Err(error) => result matches Err(found) && found@ == error,
            },
    {
        let ghost s = self.tokens();
        let room = self.nesting_limit;
        let mut body: Vec<ASTNode> = Vec::new();
        proof {
            reveal_with_fuel(depth_at, 2);
            assert(nodes_view(body@) =~= Seq::empty());
        }
        while !self.completed()
            invariant
                self.wf(),
                self.tokens() == s,
                s == old(self).tokens(),
                room == old(self).limit(),
                self.limit() == old(self).limit(),
                self.depth() == 1 || self.depth() == 0,
                self.depth() == 1 ==> block(s, 1, false, Seq::empty(), room as nat) == block(
                    s,
                    self.cursor(),
                    false,
                    nodes_view(body@),
                    room as nat,
                ),
                self.depth() == 0 ==> self.current() is End && self.cursor() >= 2 && block(
                    s,
                    1,
                    false,
                    Seq::empty(),
                    room as nat,
                ) == Ok::<(Seq<Ast>, bool, int), ParseErrorView>(
                    (nodes_view(body@), false, self.cursor()),
                ),
            decreases s.tokens.len() - self.cursor() + self.depth(),
        {
            match self.parse_statement(room) {
                Err(error) => {
                    return Err(error);
                },
                Ok(Step::End) => {},
                Ok(Step::Else) => {
                    return Err(ParseError::UnexpectedToken);
                },
                Ok(Step::Statement(node)) => {
                    proof {
                        lemma_nodes_view_push(body@, node);
                    }
                    body.push(node);
                },
            }
        }
        if self.next_token.is_some() {
            return Err(ParseError::TrailingInput);
        }
        Ok(body)
    }

    /// Parses one statement, or consumes the `END` or `ELSE` that ends the
    /// statements of a block.
    fn parse_statement(&mut self, room: usize) -> (result: Result<Step, ParseError>)
        requires
            old(self).wf(),
            old(self).depth() >= 1,
        ensures
            final(self).tokens() == old(self).tokens(),
            final(self).limit() == old(self).limit(),
            match statement(old(self).tokens(), old(self).cursor(), room as nat) {
                Ok((step, end)) => {
                    &&& result matches Ok(found) && found@ == step
                    &&& final(self).wf()
                    &&& final(self).cursor() == end
                    &&& end > old(self).cursor()
                    &&& step is End ==> final(self).depth() == old(self).depth() - 1
                        && final(self).current() is End
                    &&& !(step is End) ==> final(self).depth() == old(self).depth()
                },
                Err(error) => result matches Err(found) && found@ == error,
            },
        decreases old(self).tokens().tokens.len() - old(self).cursor(), 3int,
    {
        match self.set_next_token() {
            Err(error) => {
                return Err(error);
            },
            Ok(()) => {},
        }
        match &self.current_token {
            Token::End => Ok(Step::End),
            Token::Else => Ok(Step::Else),
            Token::Break => Ok(Step::Statement(ASTNode::Break)),
            Token::Identifier(name) => {
                let name = name.clone();
                match self.parse_assignment(name, room) {
                    Err(error) => Err(error),
                    Ok(node) => Ok(Step::Statement(node)),
                }
            },
            Token::Print => match self.parse_expression(room) {
                Err(error) => Err(error),
                Ok(value) => Ok(Step::Statement(ASTNode::Print(Box::new(value)))),
            },
            Token::Read => match self.parse_read() {
                Err(error) => Err(error),
                Ok(node) => Ok(Step::Statement(node)),
            },
            Token::Loop => if room == 0 {
                Err(ParseError::NestingTooDeep)
            } else {
                match self.parse_block(false, room - 1) {
                    Err(error) => Err(error),
                    Ok((body, _)) => Ok(Step::Statement(ASTNode::Loop(body))),
                }
            },
            Token::IfPositive => if room == 0 {
                Err(ParseError::NestingTooDeep)
            } else {
                self.parse_conditional(Condition::Positive, room - 1)
            },
            Token::IfZero => if room == 0 {
                Err(ParseError::NestingTooDeep)
            } else {
                self.parse_conditional(Condition::Zero, room - 1)
            },
            Token::IfNegative => if room == 0 {
                Err(ParseError::NestingTooDeep)
            } else {
                self.parse_conditional(Condition::Negative, room - 1)
            },
            _ => Err(ParseError::UnexpectedToken),
        }
    }

    /// Parses what follows the keyword of a conditional: the test, the
    /// statements up to `ELSE` or `END`, and after `ELSE` those up to `END`.
    fn parse_conditional(&mut self, condition: Condition, room: usize) -> (result: Result<
        Step,
        ParseError,
    >)
        requires
            old(self).wf(),
            old(self).depth() >= 2,
            old(self).cursor() >= 2,
            condition_of(old(self).current()) == Some(condition),
        ensures
            final(self).tokens() == old(self).tokens(),
            final(self).limit() == old(self).limit(),
            match conditional_rest(old(self).tokens(), old(self).cursor() - 1, room as nat) {
                Ok((step, end)) => {
                    &&& result matches Ok(found) && found@ == step
                    &&& !(step is End)
                    &&& final(self).wf()
                    &&& final(self).cursor() == end
                    &&& end > old(self).cursor()
                    &&& final(self).depth() == old(self).depth() - 1
                },
                Err(error) => result matches Err(found) && found@ == error,
            },
        decreases old(self).tokens().tokens.len() - old(self).cursor(), 5int,
    {
        let test = match self.parse_expression(room) {
            Err(error) => {
                return Err(error);
            },
            Ok(test) => test,
        };
        let (positive, by_else) = match self.parse_block(true, room) {
            Err(error) => {
                return Err(error);
            },
            Ok(found) => found,
        };
        let negative = if by_else {
            match self.parse_block(false, room) {
                Err(error) => {
                    return Err(error);
                },
                Ok((negative, _)) => Some(negative),
            }
        } else {
            None
        };
        Ok(
            Step::Statement(
                ASTNode::Conditional { condition, test: Box::new(test), positive, negative },
            ),
        )
    }

    /// Parses the statements of a block up to the `END` that closes it or,
    /// where `allow_else` holds, up to an `ELSE`. The flag tells whether it
    /// was an `ELSE`.
    fn parse_block(&mut self, allow_else: bool, room: usize) -> (result: Result<
        (Vec<ASTNode>, bool),
        ParseError,
    >)
        requires
            old(self).wf(),
            old(self).depth() >= 2,
        ensures
            final(self).tokens() == old(self).tokens(),
            final(self).limit() == old(self).limit(),
            match block(
                old(self).tokens(),
                old(self).cursor(),
                allow_else,
                Seq::empty(),
                room as nat,
            ) {
                Ok((body, by_else, end)) => {
                    &&& result matches Ok((nodes, found_else)) && nodes_view(nodes@) == body
                        && found_else == by_else
                    &&& by_else ==> allow_else
                    &&& final(self).wf()
                    &&& final(self).cursor() == end
                    &&& end > old(self).cursor()
                    &&& by_else ==> final(self).depth() == old(self).depth()
                    &&& !by_else ==> final(self).depth() == old(self).depth() - 1
                },
                Err(error) => result matches Err(found) && found@ == error,
            },
        decreases old(self).tokens().tokens.len() - old(self).cursor(), 4int,
    {
        let ghost s = self.tokens();
        let ghost from = self.cursor();
        let mut body: Vec<ASTNode> = Vec::new();
        proof {
            assert(nodes_view(body@) =~= Seq::empty());
        }
        loop
            invariant
                self.wf(),
                self.tokens() == s,
                s == old(self).tokens(),
                from == old(self).cursor(),
                self.depth() == old(self).depth(),
                self.depth() >= 2,
                self.cursor() >= from,
                self.limit() == old(self).limit(),
                block(s, from, allow_else, Seq::empty(), room as nat) == block(
                    s,
                    self.cursor(),
                    allow_else,
                    nodes_view(body@),
                    room as nat,
                ),
            decreases s.tokens.len() - self.cursor(),
        {
            match self.parse_statement(room) {
                Err(error) => {
                    return Err(error);
                },
                Ok(Step::End) => {
                    return Ok((body, false));
                },
                Ok(Step::Else) => {
                    if allow_else {
                        return Ok((body, true));
                    } else {
                        return Err(ParseError::UnexpectedToken);
                    }
                },
                Ok(Step::Statement(node)) => {
                    proof {
                        lemma_nodes_view_push(body@, node);
                    }
                    body.push(node);
                },
            }
        }
    }

    /// Parses what follows the name of an assignment: `=` and an expression.
    fn parse_assignment(&mut self, name: String, room: usize) -> (result: Result<
        ASTNode,
        ParseError,
    >)
        requires
            old(self).wf(),
            old(self).depth() >= 1,
        ensures
            Self::node_outcome(
                *old(self),
                *final(self),
                result,
                assignment(old(self).tokens(), name@, old(self).cursor(), room as nat),
            ),
    {
        match self.set_next_token() {
            Err(error) => {
                return Err(error);
            },
            Ok(()) => {},
        }
        match &self.current_token {
            Token::Assign => {},
            _ => {
                return Err(ParseError::ExpectedAssignAfterIdentifier);
            },
        }
        match self.parse_expression(room) {
            Err(error) => Err(error),
            Ok(value) => Ok(ASTNode::Assignment(name, Box::new(value))),
        }
    }

    /// Parses what follows `READ`: the name of a variable.
    fn parse_read(&mut self) -> (result: Result<ASTNode, ParseError>)
        requires
            old(self).wf(),
            old(self).depth() >= 1,
        ensures
            Self::node_outcome(
                *old(self),
                *final(self),
                result,
                read(old(self).tokens(), old(self).cursor()),
            ),
    {
        match self.set_next_token() {
            Err(error) => {
                return Err(error);
            },
            Ok(()) => {},
        }
        match &self.current_token {
            Token::Identifier(name) => Ok(ASTNode::Read(name.clone())),
            _ => Err(ParseError::ExpectedIdentifierAfterRead),
        }
    }

    /// Parses an expression: terms joined by `+` and `-`, grouped to the left.
    fn parse_expression(&mut self, room: usize) -> (result: Result<ASTNode, ParseError>)
        requires
            old(self).wf(),
            old(self).depth() >= 1,
        ensures
            Self::node_outcome(
                *old(self),
                *final(self),
                result,
                expression(old(self).tokens(), old(self).cursor(), room as nat),
            ),
        decreases old(self).tokens().tokens.len() - old(self).cursor(), 2int,
    {
        let ghost s = self.tokens();
        let ghost from = self.cursor();
        let mut left = match self.parse_term(room) {
            Err(error) => {
                return Err(error);
            },
            Ok(node) => node,
        };
        loop
            invariant
                self.wf(),
                self.tokens() == s,
                s == old(self).tokens(),
                from == old(self).cursor(),
                self.depth() == old(self).depth(),
                self.depth() >= 1,
                self.cursor() > from,
                self.limit() == old(self).limit(),
                expression(s, from, room as nat) == expression_tail(
                    s,
                    left@,
                    self.cursor(),
                    room as nat,
                ),
            decreases s.tokens.len() - self.cursor(),
        {
            let operator = match self.peek_operator(true) {
                None => {
                    return Ok(left);
                },
                Some(operator) => operator,
            };
            match self.set_next_token() {
                Err(error) => {
                    return Err(error);
                },
                Ok(()) => {},
            }
            let right = match self.parse_term(room) {
                Err(error) => {
                    return Err(error);
                },
                Ok(node) => node,
            };
            left = ASTNode::BinaryOperation { left: Box::new(left), operator, right: Box::new(right) };
        }
    }

    /// Parses a term: atoms joined by `*`, `/` and `%`, grouped to the left.
    fn parse_term(&mut self, room: usize) -> (result: Result<ASTNode, ParseError>)
        requires
            old(self).wf(),
            old(self).depth() >= 1,
        ensures
            Self::node_outcome(
                *old(self),
                *final(self),
                result,
                term(old(self).tokens(), old(self).cursor(), room as nat),
            ),
        decreases old(self).tokens().tokens.len() - old(self).cursor(), 1int,
    {
        let ghost s = self.tokens();
        let ghost from = self.cursor();
        let mut left = match self.parse_atom(room) {
            Err(error) => {
                return Err(error);
            },
            Ok(node) => node,
        };
        loop
            invariant
                self.wf(),
                self.tokens() == s,
                s == old(self).tokens(),
                from == old(self).cursor(),
                self.depth() == old(self).depth(),
                self.depth() >= 1,
                self.cursor() > from,
                self.limit() == old(self).limit(),
                term(s, from, room as nat) == term_tail(s, left@, self.cursor(), room as nat),
            decreases s.tokens.len() - self.cursor(),
        {
            let operator = match self.peek_operator(false) {
                None => {
                    return Ok(left);
                },
                Some(operator) => operator,
            };
            match self.set_next_token() {
                Err(error) => {
                    return Err(error);
                },
                Ok(()) => {},
            }
            let right = match self.parse_atom(room) {
                Err(error) => {
                    return Err(error);
                },
                Ok(node) => node,
            };
            left = ASTNode::BinaryOperation { left: Box::new(left), operator, right: Box::new(right) };
        }
    }

    /// Parses an atom: a number, a variable, an expression in parentheses,
    /// or `-` before an atom.
    fn parse_atom(&mut self, room: usize) -> (result: Result<ASTNode, ParseError>)
        requires
            old(self).wf(),
            old(self).depth() >= 1,
        ensures
            Self::node_outcome(
                *old(self),
                *final(self),
                result,
                atom(old(self).tokens(), old(self).cursor(), room as nat),
            ),
        decreases old(self).tokens().tokens.len() - old(self).cursor(), 0int,
    {
        match self.set_next_token() {
            Err(error) => {
                return Err(error);
            },
            Ok(()) => {},
        }
        match &self.current_token {
            Token::Number(value) => Ok(ASTNode::Number(*value)),
            Token::Identifier(name) => Ok(ASTNode::Variable(name.clone())),
            Token::Subtract => if room == 0 {
                Err(ParseError::NestingTooDeep)
            } else {
                match self.parse_atom(room - 1) {
                    Err(error) => Err(error),
                    Ok(operand) => {
                        let zero = ASTNode::Number(0);
                        assert(zero@ == Ast::Number(0));
                        Ok(
                            ASTNode::BinaryOperation {
                                left: Box::new(zero),
                                operator: OperatorToken::Subtract,
                                right: Box::new(operand),
                            },
                        )
                    },
                }
            },
            Token::LeftParenthesis => {
                if room == 0 {
                    return Err(ParseError::NestingTooDeep);
                }
                let inner = match self.parse_expression(room - 1) {
                    Err(error) => {
                        return Err(error);
                    },
                    Ok(node) => node,
                };
                match self.set_next_token() {
                    Err(error) => {
                        return Err(error);
                    },
                    Ok(()) => {},
                }
                match &self.current_token {
                    Token::RightParenthesis => Ok(inner),
                    _ => Err(ParseError::UnmatchedParenthesis),
                }
            },
            _ => Err(ParseError::ExpectedExpression),
        }
    }

    /// The operator that the next token is, if it is one of the tier asked
    /// for: `+` and `-` where `sum` holds, else `*`, `/` and `%`.
    fn peek_operator(&self, sum: bool) -> (operator: Option<OperatorToken>)
        requires
            self.wf(),
        ensures
            operator == operator_at(self.tokens(), self.cursor(), sum),
    {
        match &self.next_token {
            Some(Token::Add) => if sum {
                Some(OperatorToken::Add)
            } else {
                None
            },
            Some(Token::Subtract) => if sum {
                Some(OperatorToken::Subtract)
            } else {
                None
            },
            Some(Token::Multiply) => if sum {
                None
            } else {
                Some(OperatorToken::Multiply)
            },
            Some(Token::Divide) => if sum {
                None
            } else {
                Some(OperatorToken::Divide)
            },
            Some(Token::Modulo) => if sum {
                None
            } else {
                Some(OperatorToken::Modulo)
            },
            _ => None,
        }
    }

    /// Makes the next token the current one and pulls a new next token from
    /// the tokenizer. Fails when there is no next token. Counts the block
    /// that the new current token opens or closes.
    fn set_next_token(&mut self) -> (result: Result<(), ParseError>)
        requires
            old(self).wf(),
            old(self).depth() >= 1,
        ensures
            final(self).tokens() == old(self).tokens(),
            final(self).limit() == old(self).limit(),
            match take(old(self).tokens(), old(self).cursor()) {
                Some(error) => result matches Err(found) && found@ == error,
                None => {
                    &&& result is Ok
                    &&& final(self).wf()
                    &&& final(self).cursor() == old(self).cursor() + 1
                    &&& final(self).current() == old(self).tokens().tokens[old(self).cursor()]
                    &&& final(self).depth() == old(self).depth() + depth_change(
                        final(self).current(),
                    )
                },
            },
    {
        let ghost s = self.stream@;
        let ghost p = self.consumed@;
        let mut taken: Option<Token> = None;
        core::mem::swap(&mut self.next_token, &mut taken);
        match taken {
            None => Err(ParseError::UnexpectedEndOfFile),
            Some(token) => {
                self.current_token = token;
                let ghost rest = self.source.remaining();
                match self.source.next() {
                    None => {
                        self.next_token = None;
                        assert(s.tokens.skip(p + 1).len() == 0);
                    },
                    Some(Ok(next)) => {
                        assert(rest.tokens[0] == next@);
                        assert(rest.tokens.len() == s.tokens.skip(p + 1).len());
                        assert(s.tokens.skip(p + 2) =~= self.source.remaining().tokens) by {
                            assert forall|i: int| 0 <= i < s.tokens.len() - (p + 2) implies s.tokens[p
                                + 2 + i] == self.source.remaining().tokens[i] by {
                                assert(rest.tokens[i + 1] == self.source.remaining().tokens[i]);
                            }
                        }
                        self.next_token = Some(next);
                    },
                    Some(Err(error)) => {
                        assert(s.tokens.skip(p + 1).len() == 0);
                        return Err(ParseError::Lexical(error));
                    },
                }
                self.consumed = Ghost(p + 1);
                match &self.current_token {
                    Token::Begin | Token::IfPositive | Token::IfZero | Token::IfNegative | Token::Loop => {
                        self.block_depth += 1;
                    },
                    Token::End => {
                        self.block_depth -= 1;
                    },
                    _ => {},
                }
                Ok(())
            },
        }
    }

    /// Returns true when the outermost block has been closed.
    fn completed(&self) -> (done: bool)
        ensures
            done == (self.current() is End && self.depth() == 0),
    {
        let at_end = match &self.current_token {
            Token::End => true,
            _ => false,
        };
        at_end && self.block_depth == 0
    }
}

} // verus!
