//! The tokenizer: a cursor over the bytes of the source text that hands out
//! one token at a time, and the model of the token stream it produces.

use vstd::prelude::*;
use crate::token::{LexError, LexErrorView, Token, TokenView};

verus! {

// The bytes that the tokenizer tells apart, by their ASCII codes.
pub const SPACE: u8 = 32;

pub const TAB: u8 = 9;

pub const NEWLINE: u8 = 10;

pub const CARRIAGE_RETURN: u8 = 13;

pub const CLOSE_BRACE: u8 = 125;

pub const OPEN_BRACE: u8 = 123;

pub const LOWER_A: u8 = 97;

pub const LOWER_Z: u8 = 122;

pub const UPPER_A: u8 = 65;

pub const UPPER_Z: u8 = 90;

pub const UNDERSCORE: u8 = 95;

pub const DIGIT_0: u8 = 48;

pub const DIGIT_9: u8 = 57;

pub const PLUS: u8 = 43;

pub const MINUS: u8 = 45;

pub const STAR: u8 = 42;

pub const SLASH: u8 = 47;

pub const PERCENT: u8 = 37;

pub const EQUALS: u8 = 61;

pub const OPEN_PARENTHESIS: u8 = 40;

pub const CLOSE_PARENTHESIS: u8 = 41;

/// The classes of bytes that the tokenizer reads as a run.
#[derive(Debug, Clone, Copy, PartialEq, Eq, Structural)]
pub enum ByteClass {
    /// Space, tab, newline and carriage return.
    Space,
    /// What a comment may hold after its `{`: any byte but `}`.
    CommentBody,
    /// ASCII letters, digits and the underscore.
    Word,
    /// ASCII digits.
    Digit,
}

impl ByteClass {
    /// True when `byte` belongs to the class.
    pub open spec fn has(self, byte: u8) -> bool {
        match self {
            ByteClass::Space => byte == SPACE || byte == TAB || byte == NEWLINE || byte
                == CARRIAGE_RETURN,
            ByteClass::CommentBody => byte != CLOSE_BRACE,
            ByteClass::Word => (LOWER_A <= byte <= LOWER_Z) || (UPPER_A <= byte <= UPPER_Z)
                || byte == UNDERSCORE || (DIGIT_0 <= byte <= DIGIT_9),
            ByteClass::Digit => DIGIT_0 <= byte <= DIGIT_9,
        }
    }

    /// Tests whether `byte` belongs to the class.
    pub fn contains(self, byte: u8) -> (found: bool)
        ensures
            found == self.has(byte),
    {
        match self {
            ByteClass::Space => byte == SPACE || byte == TAB || byte == NEWLINE || byte
                == CARRIAGE_RETURN,
            ByteClass::CommentBody => byte != CLOSE_BRACE,
            ByteClass::Word => (LOWER_A <= byte && byte <= LOWER_Z) || (UPPER_A <= byte && byte
                <= UPPER_Z) || byte == UNDERSCORE || (DIGIT_0 <= byte && byte <= DIGIT_9),
            ByteClass::Digit => DIGIT_0 <= byte && byte <= DIGIT_9,
        }
    }
}

/// The length of the longest run of bytes of `class` that starts at `pos`.
pub open spec fn run_len(bytes: Seq<u8>, pos: int, class: ByteClass) -> nat
    decreases bytes.len() - pos,
{
    if 0 <= pos < bytes.len() && class.has(bytes[pos]) {
        1 + run_len(bytes, pos + 1, class)
    } else {
        0
    }
}

/// Where the next token starts when scanning from `pos`: after whitespace and
/// whole comments. `None` when a comment is opened and never closed. A
/// comment ends at the first `}` after its `{`, whatever stands between.
pub open spec fn token_start(bytes: Seq<u8>, pos: int) -> Option<int>
    decreases bytes.len() - pos,
{
    let p = pos + run_len(bytes, pos, ByteClass::Space);
    if 0 <= p < bytes.len() && bytes[p] == OPEN_BRACE {
        let q = p + 1 + run_len(bytes, p + 1, ByteClass::CommentBody);
        if q >= bytes.len() {
            None
        } else {
            token_start(bytes, q + 1)
        }
    } else {
        Some(p)
    }
}

/// The characters that a sequence of ASCII bytes spells.
pub open spec fn ascii_text(bytes: Seq<u8>) -> Seq<char> {
    Seq::new(bytes.len(), |i: int| bytes[i] as char)
}

/// The number that a sequence of decimal digits denotes.
pub open spec fn decimal(digits: Seq<u8>) -> nat
    decreases digits.len(),
{
    if digits.len() == 0 {
        0
    } else {
        (decimal(digits.drop_last()) * 10 + (digits.last() - DIGIT_0)) as nat
    }
}

/// The token that a word is: one of the ten keywords, spelled exactly, or an
/// identifier that carries the word.
pub open spec fn word_token(text: Seq<char>) -> TokenView {
    if text == "BEGIN"@ {
        TokenView::Begin
    } else if text == "END"@ {
        TokenView::End
    } else if text == "IFP"@ {
        TokenView::IfPositive
    } else if text == "IFZ"@ {
        TokenView::IfZero
    } else if text == "IFN"@ {
        TokenView::IfNegative
    } else if text == "ELSE"@ {
        TokenView::Else
    } else if text == "LOOP"@ {
        TokenView::Loop
    } else if text == "BREAK"@ {
        TokenView::Break
    } else if text == "PRINT"@ {
        TokenView::Print
    } else if text == "READ"@ {
        TokenView::Read
    } else {
        TokenView::Identifier(text)
    }
}

/// The token that a single byte is, if it is an operator or a parenthesis.
pub open spec fn symbol_token(byte: u8) -> Option<TokenView> {
    if byte == PLUS {
        Some(TokenView::Add)
    } else if byte == MINUS {
        Some(TokenView::Subtract)
    } else if byte == STAR {
        Some(TokenView::Multiply)
    } else if byte == SLASH {
        Some(TokenView::Divide)
    } else if byte == PERCENT {
        Some(TokenView::Modulo)
    } else if byte == EQUALS {
        Some(TokenView::Assign)
    } else if byte == OPEN_PARENTHESIS {
        Some(TokenView::LeftParenthesis)
    } else if byte == CLOSE_PARENTHESIS {
        Some(TokenView::RightParenthesis)
    } else {
        None
    }
}

/// What one step of the tokenizer finds.
pub ghost enum Scan {
    /// Only whitespace and comments are left.
    End,
    /// A token, and the position of the byte after it.
    Token(TokenView, int),
    /// The input is malformed.
    Error(LexErrorView),
}

/// The token that starts at `pos`, where a byte that is neither whitespace
/// nor `{` stands.
pub open spec fn scan_token(bytes: Seq<u8>, pos: int) -> Scan
    recommends
        0 <= pos < bytes.len(),
{
    let byte = bytes[pos];
    if ByteClass::Digit.has(byte) {
        let end = pos + run_len(bytes, pos, ByteClass::Digit);
        let digits = bytes.subrange(pos, end);
        if decimal(digits) <= i32::MAX {
            Scan::Token(TokenView::Number(decimal(digits) as i32), end)
        } else {
            Scan::Error(LexErrorView::InvalidNumber(ascii_text(digits)))
        }
    } else if ByteClass::Word.has(byte) {
        let end = pos + run_len(bytes, pos, ByteClass::Word);
        Scan::Token(word_token(ascii_text(bytes.subrange(pos, end))), end)
    } else {
        match symbol_token(byte) {
            Some(token) => Scan::Token(token, pos + 1),
            None => Scan::Error(LexErrorView::InvalidCharacter(byte as char)),
        }
    }
}

/// What the tokenizer finds when it scans from `pos`.
pub open spec fn scan(bytes: Seq<u8>, pos: int) -> Scan {
    match token_start(bytes, pos) {
        None => Scan::Error(LexErrorView::UnclosedComment),
        Some(start) => if 0 <= start < bytes.len() {
            scan_token(bytes, start)
        } else {
            Scan::End
        },
    }
}

/// A token stream: the tokens in order, and the error that ended it, if one did.
pub ghost struct TokenStream {
    pub tokens: Seq<TokenView>,
    pub error: Option<LexErrorView>,
}

/// The token stream of the input from `pos` on: every token up to the end of
/// the input or up to the first error.
pub open spec fn stream(bytes: Seq<u8>, pos: int) -> TokenStream
    decreases bytes.len() - pos,
{
    match scan(bytes, pos) {
        Scan::End => TokenStream { tokens: Seq::empty(), error: None },
        Scan::Error(error) => TokenStream { tokens: Seq::empty(), error: Some(error) },
        Scan::Token(token, next) => if pos < next <= bytes.len() {
            let rest = stream(bytes, next);
            TokenStream { tokens: seq![token] + rest.tokens, error: rest.error }
        } else {
            TokenStream { tokens: Seq::empty(), error: None }
        },
    }
}

/// The models of a list of tokens, in order.
pub open spec fn tokens_view(tokens: Seq<Token>) -> Seq<TokenView> {
    Seq::new(tokens.len(), |i: int| tokens[i]@)
}

/// A run stays inside the input, holds only bytes of its class, and ends at
/// the end of the input or before a byte that is not of the class.
pub proof fn lemma_run(bytes: Seq<u8>, pos: int, class: ByteClass)
    requires
        0 <= pos <= bytes.len(),
    ensures
        pos + run_len(bytes, pos, class) <= bytes.len(),
        forall|i: int| pos <= i < pos + run_len(bytes, pos, class) ==> class.has(#[trigger] bytes[i]),
        pos + run_len(bytes, pos, class) < bytes.len() ==> !class.has(
            bytes[pos + run_len(bytes, pos, class)],
        ),
    decreases bytes.len() - pos,
{
    if pos < bytes.len() && class.has(bytes[pos]) {
        lemma_run(bytes, pos + 1, class);
    }
}

/// The next token starts inside the input or at its end, on a byte that is
/// neither whitespace nor the start of a comment.
pub proof fn lemma_token_start(bytes: Seq<u8>, pos: int)
    requires
        0 <= pos <= bytes.len(),
    ensures
        match token_start(bytes, pos) {
            Some(start) => pos <= start <= bytes.len() && (start < bytes.len()
                ==> !ByteClass::Space.has(bytes[start]) && bytes[start] != OPEN_BRACE),
            None => true,
        },
    decreases bytes.len() - pos,
{
    lemma_run(bytes, pos, ByteClass::Space);
    let p = pos + run_len(bytes, pos, ByteClass::Space);
    if p < bytes.len() && bytes[p] == OPEN_BRACE {
        lemma_run(bytes, p + 1, ByteClass::CommentBody);
        let q = p + 1 + run_len(bytes, p + 1, ByteClass::CommentBody);
        if q < bytes.len() {
            lemma_token_start(bytes, q + 1);
        }
    }
}

/// Every token takes at least one byte and ends inside the input.
pub proof fn lemma_scan_advances(bytes: Seq<u8>, pos: int)
    requires
        0 <= pos <= bytes.len(),
    ensures
        match scan(bytes, pos) {
            Scan::Token(_, next) => pos < next <= bytes.len(),
            _ => true,
        },
{
    lemma_token_start(bytes, pos);
    match token_start(bytes, pos) {
        Some(start) => {
            if start < bytes.len() {
                lemma_run(bytes, start, ByteClass::Digit);
                lemma_run(bytes, start, ByteClass::Word);
            }
        },
        None => {},
    }
}

/// A token is made of bytes of the input that hold no whitespace and no
/// brace: it starts where `token_start` says, behind whitespace and comments,
/// and ends before the next such byte. An identifier is spelled by exactly
/// those bytes.
pub proof fn lemma_token_holds_no_blank(bytes: Seq<u8>, pos: int)
    requires
        0 <= pos <= bytes.len(),
    ensures
        match scan(bytes, pos) {
            Scan::Token(token, next) => token_start(bytes, pos) matches Some(start) && pos <= start
                < next <= bytes.len() && (forall|i: int|
                start <= i < next ==> !ByteClass::Space.has(#[trigger] bytes[i]) && bytes[i]
                    != OPEN_BRACE && bytes[i] != CLOSE_BRACE) && (token matches TokenView::Identifier(
                text,
            ) ==> text == ascii_text(bytes.subrange(start, next))),
            _ => true,
        },
{
    lemma_token_start(bytes, pos);
    match token_start(bytes, pos) {
        Some(start) => {
            if start < bytes.len() {
                lemma_run(bytes, start, ByteClass::Digit);
                lemma_run(bytes, start, ByteClass::Word);
            }
        },
        None => {},
    }
}

/// A stream holds at most one token for each byte that is left.
pub proof fn lemma_stream_len(bytes: Seq<u8>, pos: int)
    requires
        0 <= pos <= bytes.len(),
    ensures
        stream(bytes, pos).tokens.len() <= bytes.len() - pos,
    decreases bytes.len() - pos,
{
    lemma_scan_advances(bytes, pos);
    match scan(bytes, pos) {
        Scan::Token(_, next) => {
            lemma_stream_len(bytes, next);
        },
        _ => {},
    }
}

/// A comment is transparent: whatever stands between a `{` and the first `}`
/// after it, scanning from the `{` finds what scanning from behind the `}`
/// finds, here and for the rest of the stream.
pub proof fn lemma_comment_is_transparent(bytes: Seq<u8>, open: int, close: int)
    requires
        0 <= open < close < bytes.len(),
        bytes[open] == OPEN_BRACE,
        bytes[close] == CLOSE_BRACE,
        forall|i: int| open < i < close ==> bytes[i] != CLOSE_BRACE,
    ensures
        token_start(bytes, open) == token_start(bytes, close + 1),
        scan(bytes, open) == scan(bytes, close + 1),
        stream(bytes, open) == stream(bytes, close + 1),
{
    lemma_run_to(bytes, open + 1, close, ByteClass::CommentBody);
    lemma_scan_advances(bytes, open);
    lemma_scan_advances(bytes, close + 1);
}

/// A run that is known byte by byte has the length that was counted.
pub proof fn lemma_run_to(bytes: Seq<u8>, pos: int, end: int, class: ByteClass)
    requires
        0 <= pos <= end <= bytes.len(),
        forall|i: int| pos <= i < end ==> class.has(#[trigger] bytes[i]),
        end < bytes.len() ==> !class.has(bytes[end]),
    ensures
        pos + run_len(bytes, pos, class) == end,
    decreases end - pos,
{
    if pos < end {
        lemma_run_to(bytes, pos + 1, end, class);
    }
}

/// Whitespace before a token is transparent: scanning from any byte of a run
/// of whitespace finds what scanning from the run's end finds.
pub proof fn lemma_whitespace_is_transparent(bytes: Seq<u8>, pos: int)
    requires
        0 <= pos < bytes.len(),
        ByteClass::Space.has(bytes[pos]),
    ensures
        token_start(bytes, pos) == token_start(bytes, pos + 1),
        scan(bytes, pos) == scan(bytes, pos + 1),
        stream(bytes, pos) == stream(bytes, pos + 1),
{
    lemma_scan_advances(bytes, pos);
    lemma_scan_advances(bytes, pos + 1);
}

/// Tokenizing is a function of the buffer and the position alone: two
/// tokenizers over equal bytes at the same position yield the same stream.
pub proof fn lemma_tokenizing_is_repeatable(first: Lexer, second: Lexer)
    requires
        first.bytes() == second.bytes(),
        first.position() == second.position(),
    ensures
        first.remaining() == second.remaining(),
{
}

/// `String::from_utf8`, on bytes that are all ASCII: the text has one
/// character for each byte, with the byte's code.
#[verifier::external_body]
fn string_from_ascii(bytes: Vec<u8>) -> (text: String)
    requires
        forall|i: int| 0 <= i < bytes.len() ==> bytes[i] < 128,
    ensures
        text@ == ascii_text(bytes@),
{
    match String::from_utf8(bytes) {
        Ok(text) => text,
        Err(_) => String::new(),
    }
}

/// The tokenizer: the bytes of the source text and a cursor into them.
pub struct Lexer {
    /// The source text as bytes.
    input: Vec<u8>,
    /// The byte under the cursor; 0 once the cursor is past the last byte.
    character: u8,
    /// The cursor.
    current_position: usize,
}

impl Lexer {
    /// The bytes of the source text.
    pub closed spec fn bytes(&self) -> Seq<u8> {
        self.input@
    }

    /// The cursor: how many bytes have been consumed.
    pub closed spec fn position(&self) -> int {
        self.current_position as int
    }

    /// The cursor is inside the input or at its end, and the byte under it is
    /// the one held.
    pub closed spec fn wf(&self) -> bool {
        &&& self.current_position <= self.input.len()
        &&& self.character == if self.current_position < self.input.len() {
            self.input[self.current_position as int]
        } else {
            0u8
        }
    }

    /// The tokens that are still to come.
    pub open spec fn remaining(&self) -> TokenStream {
        stream(self.bytes(), self.position())
    }

    /// The tokens that are still to come are no more than a machine can count.
    pub proof fn lemma_remaining_len(&self)
        requires
            self.wf(),
        ensures
            self.remaining().tokens.len() <= usize::MAX,
    {
        lemma_stream_len(self.bytes(), self.position());
    }

    /// Creates a tokenizer at the start of `input`.
    pub fn new(input: String) -> (lexer: Lexer)
        ensures
            lexer.wf(),
            lexer.bytes() == vstd::utf8::encode_utf8(input@),
            lexer.position() == 0,
    {
        let bytes = input.as_str().as_bytes_vec();
        let character = if bytes.len() > 0 {
            bytes[0]
        } else {
            0
        };
        Lexer { input: bytes, character, current_position: 0 }
    }

    /// True when the cursor is past the last byte.
    fn at_end(&self) -> (end: bool)
        requires
            self.wf(),
        ensures
            end == (self.position() >= self.bytes().len()),
    {
        self.current_position >= self.input.len()
    }

    /// Moves the cursor to the next byte, if there is one.
    fn set_next_character(&mut self)
        requires
            old(self).wf(),
        ensures
            final(self).wf(),
            final(self).bytes() == old(self).bytes(),
            final(self).position() == if old(self).position() < old(self).bytes().len() {
                old(self).position() + 1
            } else {
                old(self).position()
            },
    {
        if self.current_position < self.input.len() {
            self.current_position += 1;
        }
        if self.current_position < self.input.len() {
            self.character = self.input[self.current_position];
        } else {
            self.character = 0;
        }
    }

    /// Moves the cursor past the run of bytes of `class` that starts under it.
    fn skip_run(&mut self, class: ByteClass)
        requires
            old(self).wf(),
        ensures
            final(self).wf(),
            final(self).bytes() == old(self).bytes(),
            final(self).position() == old(self).position() + run_len(
                old(self).bytes(),
                old(self).position(),
                class,
            ),
            final(self).position() <= final(self).bytes().len(),
    {
        while self.current_position < self.input.len() && class.contains(self.character)
            invariant
                self.wf(),
                self.bytes() == old(self).bytes(),
                old(self).position() <= self.position(),
                self.position() + run_len(self.bytes(), self.position(), class)
                    == old(self).position()
                    + run_len(old(self).bytes(), old(self).position(), class),
            decreases self.input.len() - self.current_position,
        {
            self.set_next_character();
        }
    }

    /// Moves the cursor past whitespace and comments, to the start of the next
    /// token. Returns false when a comment is never closed.
    fn skip_blank(&mut self) -> (closed: bool)
        requires
            old(self).wf(),
        ensures
            final(self).wf(),
            final(self).bytes() == old(self).bytes(),
            match token_start(old(self).bytes(), old(self).position()) {
                Some(start) => closed && final(self).position() == start,
                None => !closed,
            },
    {
        loop
            invariant
                self.wf(),
                self.bytes() == old(self).bytes(),
                token_start(self.bytes(), self.position()) == token_start(
                    old(self).bytes(),
                    old(self).position(),
                ),
            decreases self.input.len() - self.current_position,
        {
            self.skip_run(ByteClass::Space);
            if self.at_end() || self.character != OPEN_BRACE {
                return true;
            }
            self.set_next_character();
            self.skip_run(ByteClass::CommentBody);
            if self.at_end() {
                return false;
            }
            self.set_next_character();
        }
    }

    /// The text between two positions of the input, all of it ASCII.
    fn text(&self, from: usize, to: usize) -> (text: String)
        requires
            from <= to <= self.bytes().len(),
            forall|i: int| from <= i < to ==> self.bytes()[i] < 128,
        ensures
            text@ == ascii_text(self.bytes().subrange(from as int, to as int)),
    {
        let mut bytes: Vec<u8> = Vec::new();
        let mut i: usize = from;
        while i < to
            invariant
                from <= i <= to <= self.input.len(),
                bytes@ == self.input@.subrange(from as int, i as int),
            decreases to - i,
        {
            bytes.push(self.input[i]);
            i += 1;
            assert(bytes@ =~= self.input@.subrange(from as int, i as int));
        }
        string_from_ascii(bytes)
    }

    /// The value of the digits between two positions, if it fits in 32 signed bits.
    fn number(&self, from: usize, to: usize) -> (value: Option<i32>)
        requires
            from <= to <= self.bytes().len(),
            forall|i: int| from <= i < to ==> ByteClass::Digit.has(self.bytes()[i]),
        ensures
            match value {
                Some(n) => decimal(self.bytes().subrange(from as int, to as int)) == n,
                None => decimal(self.bytes().subrange(from as int, to as int)) > i32::MAX,
            },
    {
        let mut value: i64 = 0;
        let mut fits = true;
        let mut i: usize = from;
        while i < to
            invariant
                from <= i <= to <= self.input.len(),
                forall|j: int| from <= j < to ==> ByteClass::Digit.has(self.input@[j]),
                fits ==> 0 <= value <= i32::MAX && value == decimal(
                    self.input@.subrange(from as int, i as int),
                ),
                !fits ==> decimal(self.input@.subrange(from as int, i as int)) > i32::MAX,
            decreases to - i,
        {
            assert(self.input@.subrange(from as int, i + 1).drop_last()
                =~= self.input@.subrange(from as int, i as int));
            if fits {
                let digit: i64 = (self.input[i] - DIGIT_0) as i64;
                value = value * 10 + digit;
                if value > 2147483647 {
                    fits = false;
                }
            }
            i += 1;
        }
        if fits {
            Some(value as i32)
        } else {
            None
        }
    }

    /// Scans the next token. `None` marks the end of the input. After an
    /// error nothing more is produced: the cursor stands at the end.
    pub fn next(&mut self) -> (item: Option<Result<Token, LexError>>)
        requires
            old(self).wf(),
        ensures
            final(self).wf(),
            final(self).bytes() == old(self).bytes(),
            match scan(old(self).bytes(), old(self).position()) {
                Scan::End => item is None && final(self).position() == final(self).bytes().len(),
                Scan::Token(token, next) => item matches Some(Ok(found)) && found@ == token
                    && final(self).position() == next,
                Scan::Error(error) => item matches Some(Err(found)) && found@ == error
                    && final(self).position() == final(self).bytes().len(),
            },
            match item {
                None => old(self).remaining() == (TokenStream { tokens: Seq::empty(), error: None }),
                Some(Ok(found)) => old(self).remaining().tokens == seq![found@]
                    + final(self).remaining().tokens
                    && old(self).remaining().error == final(self).remaining().error,
                Some(Err(found)) => old(self).remaining() == (TokenStream {
                    tokens: Seq::empty(),
                    error: Some(found@),
                }),
            },
    {
        proof {
            lemma_scan_advances(self.bytes(), self.position());
        }
        if !self.skip_blank() {
            self.finish();
            return Some(Err(LexError::UnclosedComment));
        }
        if self.at_end() {
            return None;
        }
        let from = self.current_position;
        let first = self.character;
        proof {
            lemma_run(self.bytes(), from as int, ByteClass::Digit);
            lemma_run(self.bytes(), from as int, ByteClass::Word);
        }
        if ByteClass::Digit.contains(first) {
            self.skip_run(ByteClass::Digit);
            match self.number(from, self.current_position) {
                Some(value) => Some(Ok(Token::Number(value))),
                None => {
                    let text = self.text(from, self.current_position);
                    self.finish();
                    Some(Err(LexError::InvalidNumber(text)))
                },
            }
        } else if ByteClass::Word.contains(first) {
            self.skip_run(ByteClass::Word);
            let text = self.text(from, self.current_position);
            Some(Ok(word(text)))
        } else {
            match symbol(first) {
                Some(token) => {
                    self.set_next_character();
                    Some(Ok(token))
                },
                None => {
                    self.finish();
                    Some(Err(LexError::InvalidCharacter(first as char)))
                },
            }
        }
    }

    /// Moves the cursor to the end of the input.
    fn finish(&mut self)
        requires
            old(self).wf(),
        ensures
            final(self).wf(),
            final(self).bytes() == old(self).bytes(),
            final(self).position() == final(self).bytes().len(),
    {
        self.current_position = self.input.len();
        self.character = 0;
    }

    /// Scans all that is left: the tokens in order, or the first error.
    pub fn tokenize(self) -> (result: Result<Vec<Token>, LexError>)
        requires
            self.wf(),
        ensures
            match result {
                Ok(tokens) => self.remaining().error is None && tokens_view(tokens@)
                    == self.remaining().tokens,
                Err(error) => self.remaining().error == Some(error@),
            },
    {
        let ghost whole = self.remaining();
        let mut lexer = self;
        let mut tokens: Vec<Token> = Vec::new();
        loop
            invariant
                lexer.wf(),
                lexer.position() <= lexer.bytes().len(),
                whole == self.remaining(),
                whole.error == lexer.remaining().error,
                whole.tokens == tokens_view(tokens@) + lexer.remaining().tokens,
            decreases lexer.bytes().len() - lexer.position(),
        {
            proof {
                lemma_scan_advances(lexer.bytes(), lexer.position());
            }
            let ghost before = tokens_view(tokens@);
            match lexer.next() {
                None => {
                    assert(whole.tokens =~= tokens_view(tokens@));
                    return Ok(tokens);
                },
                Some(Err(error)) => {
                    return Err(error);
                },
                Some(Ok(token)) => {
                    tokens.push(token);
                    assert(tokens_view(tokens@) =~= before.push(token@));
                    assert(whole.tokens =~= tokens_view(tokens@) + lexer.remaining().tokens);
                },
            }
        }
    }
}

/// The token that a word is.
fn word(text: String) -> (token: Token)
    ensures
        token@ == word_token(text@),
{
    if text == String::from_str("BEGIN") {
        Token::Begin
    } else if text == String::from_str("END") {
        Token::End
    } else if text == String::from_str("IFP") {
        Token::IfPositive
    } else if text == String::from_str("IFZ") {
        Token::IfZero
    } else if text == String::from_str("IFN") {
        Token::IfNegative
    } else if text == String::from_str("ELSE") {
        Token::Else
    } else if text == String::from_str("LOOP") {
        Token::Loop
    } else if text == String::from_str("BREAK") {
        Token::Break
    } else if text == String::from_str("PRINT") {
        Token::Print
    } else if text == String::from_str("READ") {
        Token::Read
    } else {
        Token::Identifier(text)
    }
}

/// The token that a single byte is, if it is an operator or a parenthesis.
fn symbol(byte: u8) -> (token: Option<Token>)
    ensures
        match token {
            Some(found) => symbol_token(byte) == Some(found@),
            None => symbol_token(byte) is None,
        },
{
    if byte == PLUS {
        Some(Token::Add)
    } else if byte == MINUS {
        Some(Token::Subtract)
    } else if byte == STAR {
        Some(Token::Multiply)
    } else if byte == SLASH {
        Some(Token::Divide)
    } else if byte == PERCENT {
        Some(Token::Modulo)
    } else if byte == EQUALS {
        Some(Token::Assign)
    } else if byte == OPEN_PARENTHESIS {
        Some(Token::LeftParenthesis)
    } else if byte == CLOSE_PARENTHESIS {
        Some(Token::RightParenthesis)
    } else {
        None
    }
}

} // verus!
