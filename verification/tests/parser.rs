use bitsy::ast::{ASTNode, Condition, OperatorToken};
use bitsy::error::ParseError;
use bitsy::lexer::Lexer;
use bitsy::parser::{Parser, DEFAULT_NESTING_LIMIT};
use bitsy::token::{LexError, Token};

fn parse(input: &str) -> Result<ASTNode, ParseError> {
    match Parser::new(Lexer::new(input.to_string())) {
        Ok(mut parser) => parser.parse(),
        Err(error) => Err(error),
    }
}

fn parse_within(input: &str, limit: usize) -> Result<ASTNode, ParseError> {
    match Parser::with_limit(Lexer::new(input.to_string()), limit) {
        Ok(mut parser) => parser.parse(),
        Err(error) => Err(error),
    }
}

fn number(value: i32) -> Box<ASTNode> {
    Box::new(ASTNode::Number(value))
}

fn variable(name: &str) -> Box<ASTNode> {
    Box::new(ASTNode::Variable(String::from(name)))
}

fn binary(left: Box<ASTNode>, operator: OperatorToken, right: Box<ASTNode>) -> Box<ASTNode> {
    Box::new(ASTNode::BinaryOperation { left, operator, right })
}

fn print_of(input: &str) -> ASTNode {
    match parse(&format!("BEGIN PRINT {} END", input)) {
        Ok(ASTNode::Program(mut body)) => {
            assert_eq!(body.len(), 1);
            match body.remove(0) {
                ASTNode::Print(value) => *value,
                other => panic!("not a print: {:?}", other),
            }
        }
        other => panic!("not a program: {:?}", other),
    }
}

#[test]
fn generates_ast_correctly() {
    assert_eq!(
        parse("
                BEGIN
                    a = 5
                    b = (2 * a) + 5

                    LOOP
                    END

                    LOOP
                    END
                END
            ").unwrap(),
        ASTNode::Program(vec![
            ASTNode::Assignment(String::from("a"), Box::new(ASTNode::Number(5))),
            ASTNode::Assignment(
                String::from("b"),
                Box::new(ASTNode::BinaryOperation {
                    left: Box::new(ASTNode::BinaryOperation {
                        left: Box::new(ASTNode::Number(2)),
                        operator: OperatorToken::Multiply,
                        right: Box::new(ASTNode::Variable(String::from("a"))),
                    }),
                    operator: OperatorToken::Add,
                    right: Box::new(ASTNode::Number(5)),
                }),
            ),
            ASTNode::Loop(vec![]),
            ASTNode::Loop(vec![]),
        ]),
    );
}

#[test]
fn handles_empty_program() {
    assert_eq!(parse("").unwrap_err().message(), "The program is empty.");
}

#[test]
fn handles_missing_begin() {
    assert_eq!(parse("END").unwrap_err().message(), "The program must start with `BEGIN`.");
}

#[test]
fn handles_unexpected_eof() {
    assert_eq!(
        parse("
                BEGIN
                    LOOP
                    END
            ").unwrap_err().message(),
        "Unexpected end of file.",
    );
}

#[test]
fn handles_instructions_after_end() {
    assert_eq!(
        parse("
                BEGIN
                    LOOP
                    END
                END

                BEGIN
                END
            ").unwrap_err().message(),
        "Can't parse instructions after `BEGIN ... END`.",
    );
}

#[test]
fn parses_print_of_a_number() {
    assert_eq!(parse("BEGIN PRINT 1 END"), Ok(ASTNode::Program(vec![ASTNode::Print(number(1))])));
}

#[test]
fn parses_two_assignments() {
    assert_eq!(
        parse("BEGIN a = 5 b = (2 * a) + 5 END"),
        Ok(ASTNode::Program(vec![
            ASTNode::Assignment(String::from("a"), number(5)),
            ASTNode::Assignment(
                String::from("b"),
                binary(
                    binary(number(2), OperatorToken::Multiply, variable("a")),
                    OperatorToken::Add,
                    number(5),
                ),
            ),
        ])),
    );
}

#[test]
fn empty_program_and_missing_begin() {
    assert_eq!(parse(""), Err(ParseError::EmptyProgram));
    assert_eq!(parse("  {only a comment}  "), Err(ParseError::EmptyProgram));
    assert_eq!(parse("END"), Err(ParseError::MissingBegin));
    assert_eq!(parse("PRINT 1 END"), Err(ParseError::MissingBegin));
}

#[test]
fn empty_body_is_a_program() {
    assert_eq!(parse("BEGIN END"), Ok(ASTNode::Program(vec![])));
}

#[test]
fn missing_end_is_an_unexpected_end() {
    assert_eq!(parse("BEGIN"), Err(ParseError::UnexpectedEndOfFile));
    assert_eq!(parse("BEGIN LOOP END"), Err(ParseError::UnexpectedEndOfFile));
    assert_eq!(parse("BEGIN IFP a PRINT 1"), Err(ParseError::UnexpectedEndOfFile));
    assert_eq!(parse("BEGIN IFZ a ELSE"), Err(ParseError::UnexpectedEndOfFile));
    assert_eq!(parse("BEGIN a ="), Err(ParseError::UnexpectedEndOfFile));
    assert_eq!(parse("BEGIN a"), Err(ParseError::UnexpectedEndOfFile));
    assert_eq!(parse("BEGIN PRINT (1"), Err(ParseError::UnexpectedEndOfFile));
    assert_eq!(parse("BEGIN READ"), Err(ParseError::UnexpectedEndOfFile));
}

#[test]
fn nothing_may_follow_the_last_end() {
    assert_eq!(parse("BEGIN END END"), Err(ParseError::TrailingInput));
    assert_eq!(parse("BEGIN END a"), Err(ParseError::TrailingInput));
    assert_eq!(parse("BEGIN LOOP END END BEGIN END"), Err(ParseError::TrailingInput));
}

#[test]
fn unbalanced_blocks_are_rejected() {
    assert!(parse("BEGIN LOOP LOOP END END").is_err());
    assert!(parse("BEGIN IFP 1 END END END").is_err());
    assert!(parse("BEGIN LOOP IFN a ELSE END").is_err());
    assert!(parse("BEGIN LOOP IFN a ELSE END END END").is_ok());
}

#[test]
fn sum_binds_looser_than_product() {
    assert_eq!(
        print_of("a + b * c"),
        *binary(
            variable("a"),
            OperatorToken::Add,
            binary(variable("b"), OperatorToken::Multiply, variable("c")),
        ),
    );
    assert_eq!(
        print_of("a * b + c"),
        *binary(
            binary(variable("a"), OperatorToken::Multiply, variable("b")),
            OperatorToken::Add,
            variable("c"),
        ),
    );
    assert_eq!(
        print_of("2 * a + 5"),
        *binary(binary(number(2), OperatorToken::Multiply, variable("a")), OperatorToken::Add, number(5)),
    );
}

#[test]
fn operators_group_to_the_left() {
    assert_eq!(
        print_of("1 - 2 - 3"),
        *binary(binary(number(1), OperatorToken::Subtract, number(2)), OperatorToken::Subtract, number(3)),
    );
    assert_eq!(
        print_of("8 / 4 % 3 * 2"),
        *binary(
            binary(
                binary(number(8), OperatorToken::Divide, number(4)),
                OperatorToken::Modulo,
                number(3),
            ),
            OperatorToken::Multiply,
            number(2),
        ),
    );
    assert_eq!(
        print_of("1 + 2 * 3 - 4"),
        *binary(
            binary(
                number(1),
                OperatorToken::Add,
                binary(number(2), OperatorToken::Multiply, number(3)),
            ),
            OperatorToken::Subtract,
            number(4),
        ),
    );
}

#[test]
fn parentheses_group() {
    assert_eq!(
        print_of("(a + b) * c"),
        *binary(
            binary(variable("a"), OperatorToken::Add, variable("b")),
            OperatorToken::Multiply,
            variable("c"),
        ),
    );
    assert_eq!(print_of("((7))"), ASTNode::Number(7));
}

#[test]
fn leading_minus_is_zero_minus_the_atom() {
    assert_eq!(print_of("-5"), *binary(number(0), OperatorToken::Subtract, number(5)));
    assert_eq!(
        print_of("-a * 2"),
        *binary(
            binary(number(0), OperatorToken::Subtract, variable("a")),
            OperatorToken::Multiply,
            number(2),
        ),
    );
    assert_eq!(
        print_of("1 - -(2)"),
        *binary(
            number(1),
            OperatorToken::Subtract,
            binary(number(0), OperatorToken::Subtract, number(2)),
        ),
    );
}

#[test]
fn parses_conditionals() {
    assert_eq!(
        parse("BEGIN IFP a PRINT 1 ELSE PRINT 2 BREAK END IFZ b + 1 END IFN c ELSE END END"),
        Ok(ASTNode::Program(vec![
            ASTNode::Conditional {
                condition: Condition::Positive,
                test: variable("a"),
                positive: vec![ASTNode::Print(number(1))],
                negative: Some(vec![ASTNode::Print(number(2)), ASTNode::Break]),
            },
            ASTNode::Conditional {
                condition: Condition::Zero,
                test: binary(variable("b"), OperatorToken::Add, number(1)),
                positive: vec![],
                negative: None,
            },
            ASTNode::Conditional {
                condition: Condition::Negative,
                test: variable("c"),
                positive: vec![],
                negative: Some(vec![]),
            },
        ])),
    );
}

#[test]
fn parses_nested_blocks() {
    assert_eq!(
        parse("BEGIN LOOP READ x IFZ x BREAK END PRINT x LOOP END END END"),
        Ok(ASTNode::Program(vec![ASTNode::Loop(vec![
            ASTNode::Read(String::from("x")),
            ASTNode::Conditional {
                condition: Condition::Zero,
                test: variable("x"),
                positive: vec![ASTNode::Break],
                negative: None,
            },
            ASTNode::Print(variable("x")),
            ASTNode::Loop(vec![]),
        ])])),
    );
}

#[test]
fn break_is_accepted_outside_a_loop() {
    assert_eq!(parse("BEGIN BREAK END"), Ok(ASTNode::Program(vec![ASTNode::Break])));
}

#[test]
fn syntax_errors() {
    assert_eq!(parse("BEGIN a 5 END"), Err(ParseError::ExpectedAssignAfterIdentifier));
    assert_eq!(parse("BEGIN 5 END"), Err(ParseError::UnexpectedToken));
    assert_eq!(parse("BEGIN BEGIN END END"), Err(ParseError::UnexpectedToken));
    assert_eq!(parse("BEGIN ELSE END"), Err(ParseError::UnexpectedToken));
    assert_eq!(parse("BEGIN LOOP ELSE END END"), Err(ParseError::UnexpectedToken));
    assert_eq!(parse("BEGIN IFP a ELSE ELSE END END"), Err(ParseError::UnexpectedToken));
    assert_eq!(parse("BEGIN PRINT END"), Err(ParseError::ExpectedExpression));
    assert_eq!(parse("BEGIN a = 1 + * 2 END"), Err(ParseError::ExpectedExpression));
    assert_eq!(parse("BEGIN PRINT (1 2) END"), Err(ParseError::UnmatchedParenthesis));
    assert_eq!(parse("BEGIN PRINT (1 END"), Err(ParseError::UnmatchedParenthesis));
    assert_eq!(parse("BEGIN READ 5 END"), Err(ParseError::ExpectedIdentifierAfterRead));
    assert_eq!(parse("BEGIN PRINT 1 ) END"), Err(ParseError::UnexpectedToken));
}

#[test]
fn lexical_errors_come_up_when_the_token_is_pulled() {
    assert_eq!(parse("$"), Err(ParseError::Lexical(LexError::InvalidCharacter('$'))));
    assert_eq!(parse("BEGIN $"), Err(ParseError::Lexical(LexError::InvalidCharacter('$'))));
    assert_eq!(parse("END $"), Err(ParseError::MissingBegin));
    assert_eq!(parse("BEGIN {unterminated END"), Err(ParseError::Lexical(LexError::UnclosedComment)));
    assert_eq!(
        parse("BEGIN a = 2147483648 END"),
        Err(ParseError::Lexical(LexError::InvalidNumber(String::from("2147483648")))),
    );
    assert_eq!(parse("BEGIN a = 2147483647 END").is_ok(), true);
    assert_eq!(parse("BEGIN 5 $"), Err(ParseError::Lexical(LexError::InvalidCharacter('$'))));
    assert_eq!(parse("BEGIN 5 5 $"), Err(ParseError::UnexpectedToken));
}

#[test]
fn comments_do_not_change_the_tree() {
    let plain = parse("BEGIN a = 1 + 2 PRINT a END");
    assert!(plain.is_ok());
    assert_eq!(parse("{x}BEGIN a{=}={ 5 }1 +{\n}2 PRINT{{{}a END{}"), plain);
}

#[test]
fn syntax_error_messages() {
    assert_eq!(ParseError::EmptyProgram.message(), "The program is empty.");
    assert_eq!(ParseError::MissingBegin.message(), "The program must start with `BEGIN`.");
    assert_eq!(ParseError::UnexpectedEndOfFile.message(), "Unexpected end of file.");
    assert_eq!(ParseError::ExpectedAssignAfterIdentifier.message(), "Expected `=` after identifier.");
    assert_eq!(ParseError::TrailingInput.message(), "Can't parse instructions after `BEGIN ... END`.");
    assert_eq!(ParseError::UnexpectedToken.message(), "Expected a statement.");
    assert_eq!(ParseError::ExpectedExpression.message(), "Expected an expression.");
    assert_eq!(ParseError::UnmatchedParenthesis.message(), "Expected `)` after expression.");
    assert_eq!(ParseError::ExpectedIdentifierAfterRead.message(), "Expected identifier after `READ`.");
    assert_eq!(ParseError::NestingTooDeep.message(), "The program is nested too deeply.");
    assert_eq!(ParseError::Lexical(LexError::UnclosedComment).message(), "Unclosed comment");
}

#[test]
fn operator_of_a_token() {
    assert_eq!(OperatorToken::from(Token::Add), OperatorToken::Add);
    assert_eq!(OperatorToken::from(Token::Subtract), OperatorToken::Subtract);
    assert_eq!(OperatorToken::from(Token::Multiply), OperatorToken::Multiply);
    assert_eq!(OperatorToken::from(Token::Divide), OperatorToken::Divide);
    assert_eq!(OperatorToken::from(Token::Modulo), OperatorToken::Modulo);
}

#[test]
fn nesting_is_limited() {
    assert_eq!(parse_within("BEGIN PRINT 1 END", 0), Ok(ASTNode::Program(vec![ASTNode::Print(number(1))])));
    assert_eq!(parse_within("BEGIN LOOP END END", 0), Err(ParseError::NestingTooDeep));
    assert_eq!(parse_within("BEGIN IFZ a END END", 0), Err(ParseError::NestingTooDeep));
    assert_eq!(parse_within("BEGIN PRINT (1) END", 0), Err(ParseError::NestingTooDeep));
    assert_eq!(parse_within("BEGIN PRINT -1 END", 0), Err(ParseError::NestingTooDeep));
    assert_eq!(
        parse_within("BEGIN LOOP PRINT 1 END END", 1),
        Ok(ASTNode::Program(vec![ASTNode::Loop(vec![ASTNode::Print(number(1))])])),
    );
    assert_eq!(parse_within("BEGIN LOOP PRINT (1) END END", 1), Err(ParseError::NestingTooDeep));
    assert_eq!(parse_within("BEGIN IFP (1) END END", 1), Err(ParseError::NestingTooDeep));
    assert_eq!(parse_within("BEGIN IFP 1 ELSE LOOP END END END", 1), Err(ParseError::NestingTooDeep));
    assert!(parse_within("BEGIN IFP 1 ELSE LOOP END END END", 2).is_ok());
    assert!(parse_within("BEGIN LOOP END LOOP END PRINT (1) + (2) END", 1).is_ok());
}

#[test]
fn default_limit_on_nesting() {
    let nested = |depth: usize| {
        format!("BEGIN PRINT {}1{} END", "(".repeat(depth), ")".repeat(depth))
    };
    assert_eq!(parse(&nested(DEFAULT_NESTING_LIMIT)), Ok(ASTNode::Program(vec![ASTNode::Print(number(1))])));
    assert_eq!(parse(&nested(DEFAULT_NESTING_LIMIT + 1)), Err(ParseError::NestingTooDeep));
    let loops = |depth: usize| format!("BEGIN {}{} END", "LOOP ".repeat(depth), "END ".repeat(depth));
    assert!(parse(&loops(DEFAULT_NESTING_LIMIT)).is_ok());
    assert_eq!(parse(&loops(DEFAULT_NESTING_LIMIT + 1)), Err(ParseError::NestingTooDeep));
    assert_eq!(parse(&loops(100000)), Err(ParseError::NestingTooDeep));
}

#[test]
fn parses_tokens_made_by_hand() {
    let parse_tokens = |tokens: Vec<Token>| match Parser::from_tokens(tokens, 8) {
        Ok(mut parser) => parser.parse(),
        Err(error) => Err(error),
    };
    assert_eq!(
        parse_tokens(vec![Token::Begin, Token::Print, Token::Number(1), Token::End]),
        Ok(ASTNode::Program(vec![ASTNode::Print(number(1))])),
    );
    assert_eq!(
        parse_tokens(vec![
            Token::Begin,
            Token::Identifier(String::from("a")),
            Token::Assign,
            Token::Number(1),
            Token::Subtract,
            Token::Number(2),
            Token::Multiply,
            Token::Identifier(String::from("b")),
            Token::End,
        ]),
        Ok(ASTNode::Program(vec![ASTNode::Assignment(
            String::from("a"),
            binary(
                number(1),
                OperatorToken::Subtract,
                binary(number(2), OperatorToken::Multiply, variable("b")),
            ),
        )])),
    );
    assert_eq!(parse_tokens(vec![]), Err(ParseError::EmptyProgram));
    assert_eq!(parse_tokens(vec![Token::End]), Err(ParseError::MissingBegin));
    assert_eq!(parse_tokens(vec![Token::Begin]), Err(ParseError::UnexpectedEndOfFile));
    assert_eq!(parse_tokens(vec![Token::Begin, Token::End, Token::End]), Err(ParseError::TrailingInput));
    assert_eq!(
        parse_tokens(vec![Token::Begin, Token::Print, Token::RightParenthesis, Token::End]),
        Err(ParseError::ExpectedExpression),
    );
}
