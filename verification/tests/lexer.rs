use bitsy::lexer::Lexer;
use bitsy::token::{LexError, Token};

fn tokens(input: &str) -> Result<Vec<Token>, LexError> {
    Lexer::new(String::from(input)).tokenize()
}

fn identifier(name: &str) -> Token {
    Token::Identifier(String::from(name))
}

#[test]
fn tokenizes_correctly() {
    let sample_program = String::from("
            {
                This is a sample program. 🤠
            }
            BEGIN
                my_number = -5
                IFP my_number
                    PRINT my_number {Won't happen.}
                ELSE
                    PRINT -999
                END

                IFZ my_number
                    PRINT my_number {Also won't happen.}
                END

                IFN my_number
                    PRINT my_number {This will actually happen.}
                END

                READ cool
                PRINT cool + 1
                PRINT cool - 1
                PRINT cool * 2
                PRINT cool / 2
                PRINT cool % 2
                PRINT (cool + (5 * 2))

                current = 10
                LOOP
                    PRINT current
                    current = current - 1
                    IFZ cool
                        BREAK
                    END
                END
            END
        ");

    let tokens = Lexer::new(sample_program).tokenize().unwrap();
    assert_eq!(tokens, vec![
        Token::Begin,

        Token::Identifier(String::from("my_number")),
        Token::Assign,
        Token::Subtract,
        Token::Number(5),

        Token::IfPositive,
        Token::Identifier(String::from("my_number")),

        Token::Print,
        Token::Identifier(String::from("my_number")),

        Token::Else,

        Token::Print,
        Token::Subtract,
        Token::Number(999),

        Token::End,

        Token::IfZero,
        Token::Identifier(String::from("my_number")),

        Token::Print,
        Token::Identifier(String::from("my_number")),

        Token::End,

        Token::IfNegative,
        Token::Identifier(String::from("my_number")),

        Token::Print,
        Token::Identifier(String::from("my_number")),

        Token::End,

        Token::Read,
        Token::Identifier(String::from("cool")),

        Token::Print,
        Token::Identifier(String::from("cool")),
        Token::Add,
        Token::Number(1),

        Token::Print,
        Token::Identifier(String::from("cool")),
        Token::Subtract,
        Token::Number(1),

        Token::Print,
        Token::Identifier(String::from("cool")),
        Token::Multiply,
        Token::Number(2),

        Token::Print,
        Token::Identifier(String::from("cool")),
        Token::Divide,
        Token::Number(2),

        Token::Print,
        Token::Identifier(String::from("cool")),
        Token::Modulo,
        Token::Number(2),

        Token::Print,
        Token::LeftParenthesis,
        Token::Identifier(String::from("cool")),
        Token::Add,
        Token::LeftParenthesis,
        Token::Number(5),
        Token::Multiply,
        Token::Number(2),
        Token::RightParenthesis,
        Token::RightParenthesis,

        Token::Identifier(String::from("current")),
        Token::Assign,
        Token::Number(10),

        Token::Loop,

        Token::Print,
        Token::Identifier(String::from("current")),

        Token::Identifier(String::from("current")),
        Token::Assign,
        Token::Identifier(String::from("current")),
        Token::Subtract,
        Token::Number(1),

        Token::IfZero,
        Token::Identifier(String::from("cool")),

        Token::Break,

        Token::End,

        Token::End,

        Token::End,
    ]);
}

#[test]
fn allows_single_line_programs() {
    let tokens = Lexer::new(String::from("BEGIN PRINT lol END")).tokenize().unwrap();
    assert_eq!(tokens, vec![
        Token::Begin,
        Token::Print,
        Token::Identifier(String::from("lol")),
        Token::End,
    ]);
}

#[test]
fn handles_empty_input() {
    let tokens = Lexer::new(String::from("")).tokenize().unwrap();
    assert_eq!(tokens, vec![]);
}

#[test]
fn handles_invalid_number() {
    let tokens = Lexer::new(String::from("
            BEGIN
                a = 2147483648
            END
        ")).tokenize();

    assert_eq!(tokens.unwrap_err().message(), "Invalid number: 2147483648");
}

#[test]
fn handles_invalid_character() {
    let tokens = Lexer::new(String::from("
            BEGIN
                $lol = 3
            END
        ")).tokenize();

    assert_eq!(tokens.unwrap_err().message(), "Invalid character: $");
}

#[test]
fn handles_unclosed_comment() {
    let tokens = Lexer::new(String::from("
            BEGIN
                {This is a comment.
            END
        ")).tokenize();

    assert_eq!(tokens.unwrap_err().message(), "Unclosed comment");
}

#[test]
fn largest_number_is_accepted() {
    assert_eq!(tokens("2147483647"), Ok(vec![Token::Number(2147483647)]));
    assert_eq!(tokens("0"), Ok(vec![Token::Number(0)]));
    assert_eq!(tokens("007"), Ok(vec![Token::Number(7)]));
    assert_eq!(tokens("00000000002147483647"), Ok(vec![Token::Number(2147483647)]));
}

#[test]
fn number_past_the_largest_is_rejected() {
    assert_eq!(tokens("2147483648"), Err(LexError::InvalidNumber(String::from("2147483648"))));
    assert_eq!(
        tokens("99999999999999999999999999"),
        Err(LexError::InvalidNumber(String::from("99999999999999999999999999"))),
    );
}

#[test]
fn minus_is_never_part_of_a_number() {
    assert_eq!(tokens("-5"), Ok(vec![Token::Subtract, Token::Number(5)]));
    assert_eq!(
        tokens("a-5"),
        Ok(vec![identifier("a"), Token::Subtract, Token::Number(5)]),
    );
}

#[test]
fn keywords_are_case_sensitive() {
    assert_eq!(
        tokens("BEGIN begin Begin END IFP IFZ IFN ELSE LOOP BREAK PRINT READ"),
        Ok(vec![
            Token::Begin,
            identifier("begin"),
            identifier("Begin"),
            Token::End,
            Token::IfPositive,
            Token::IfZero,
            Token::IfNegative,
            Token::Else,
            Token::Loop,
            Token::Break,
            Token::Print,
            Token::Read,
        ]),
    );
}

#[test]
fn words_may_hold_digits_and_underscores() {
    assert_eq!(
        tokens("_a1 b_2 END3 _"),
        Ok(vec![identifier("_a1"), identifier("b_2"), identifier("END3"), identifier("_")]),
    );
    assert_eq!(tokens("12ab"), Ok(vec![Token::Number(12), identifier("ab")]));
}

#[test]
fn operators_and_parentheses_need_no_spaces() {
    assert_eq!(
        tokens("+-*/%=()"),
        Ok(vec![
            Token::Add,
            Token::Subtract,
            Token::Multiply,
            Token::Divide,
            Token::Modulo,
            Token::Assign,
            Token::LeftParenthesis,
            Token::RightParenthesis,
        ]),
    );
}

#[test]
fn comments_are_transparent() {
    let plain = tokens("BEGIN PRINT 1 END").unwrap();
    assert_eq!(tokens("BEGIN {x} PRINT {y y} 1 END{}").unwrap(), plain);
    assert_eq!(tokens("BEGIN{ { nested { }PRINT 1 END").unwrap(), plain);
    assert_eq!(tokens("BEGIN {\n\t\u{0}\u{7} $ 99999999999 }PRINT 1 END").unwrap(), plain);
    assert_eq!(tokens("{a}{b}BEGIN PRINT 1 END {c}").unwrap(), plain);
}

#[test]
fn comments_do_not_nest() {
    assert_eq!(tokens("{ { } a"), Ok(vec![identifier("a")]));
    assert_eq!(tokens("{ { } }"), Err(LexError::InvalidCharacter('}')));
}

#[test]
fn comments_split_words() {
    assert_eq!(tokens("ab{x}cd"), Ok(vec![identifier("ab"), identifier("cd")]));
}

#[test]
fn unclosed_comment_at_end() {
    assert_eq!(tokens("BEGIN {unterminated END"), Err(LexError::UnclosedComment));
    assert_eq!(tokens("{"), Err(LexError::UnclosedComment));
}

#[test]
fn whitespace_is_four_bytes() {
    assert_eq!(tokens(" \t\r\n a \t\r\n "), Ok(vec![identifier("a")]));
    assert_eq!(tokens("a \u{c} b"), Err(LexError::InvalidCharacter('\u{c}')));
    assert_eq!(tokens("a \u{0} b"), Err(LexError::InvalidCharacter('\u{0}')));
}

#[test]
fn tokenizing_twice_gives_the_same() {
    let source = "BEGIN a = (1 + b) * 3 {note} END";
    assert_eq!(tokens(source), tokens(source));
    let broken = "BEGIN a = 1 ? 2";
    assert_eq!(tokens(broken), tokens(broken));
    assert_eq!(tokens(broken), Err(LexError::InvalidCharacter('?')));
}

#[test]
fn next_hands_out_one_token_at_a_time() {
    let mut lexer = Lexer::new(String::from("a = 1"));
    assert_eq!(lexer.next(), Some(Ok(identifier("a"))));
    assert_eq!(lexer.next(), Some(Ok(Token::Assign)));
    assert_eq!(lexer.next(), Some(Ok(Token::Number(1))));
    assert_eq!(lexer.next(), None);
    assert_eq!(lexer.next(), None);
}

#[test]
fn an_error_is_the_last_item() {
    let mut lexer = Lexer::new(String::from("a $ b"));
    assert_eq!(lexer.next(), Some(Ok(identifier("a"))));
    assert_eq!(lexer.next(), Some(Err(LexError::InvalidCharacter('$'))));
    assert_eq!(lexer.next(), None);

    let mut lexer = Lexer::new(String::from("99999999999 b"));
    assert_eq!(lexer.next(), Some(Err(LexError::InvalidNumber(String::from("99999999999")))));
    assert_eq!(lexer.next(), None);
}

#[test]
fn lexical_error_messages() {
    assert_eq!(LexError::InvalidCharacter('$').message(), "Invalid character: $");
    assert_eq!(LexError::InvalidNumber(String::from("123")).message(), "Invalid number: 123");
    assert_eq!(LexError::UnclosedComment.message(), "Unclosed comment");
}
