//! What the token stream depends on: the bytes from the cursor on, and
//! nothing of what a comment holds.

use vstd::prelude::*;
use crate::lexer::{
    lemma_run, lemma_run_to, lemma_scan_advances, lemma_token_start, run_len, scan, scan_token,
    stream, token_start, ByteClass, Scan, CLOSE_BRACE, OPEN_BRACE,
};

verus! {

/// From `from` on, `a` holds the bytes that `b` holds `shift` places further.
pub open spec fn agree_from(a: Seq<u8>, b: Seq<u8>, from: int, shift: int) -> bool {
    &&& 0 <= from <= a.len()
    &&& 0 <= from + shift
    &&& b.len() == a.len() + shift
    &&& forall|i: int| from <= i < a.len() ==> a[i] == b[i + shift]
}

/// The two inputs are equal up to a `{` at `open`, each has its first `}`
/// after it at `close_a` and `close_b`, and they are equal after that `}`:
/// they differ only in what stands between the two braces.
pub open spec fn differ_in_comment(
    a: Seq<u8>,
    b: Seq<u8>,
    open: int,
    close_a: int,
    close_b: int,
) -> bool {
    &&& 0 <= open < close_a < a.len()
    &&& open < close_b < b.len()
    &&& forall|i: int| 0 <= i <= open ==> a[i] == b[i]
    &&& a[open] == OPEN_BRACE
    &&& a[close_a] == CLOSE_BRACE
    &&& b[close_b] == CLOSE_BRACE
    &&& forall|i: int| open < i < close_a ==> a[i] != CLOSE_BRACE
    &&& forall|i: int| open < i < close_b ==> b[i] != CLOSE_BRACE
    &&& agree_from(a, b, close_a + 1, close_b - close_a)
}

/// A scan with the position behind its token moved by `shift`.
pub open spec fn moved(found: Scan, shift: int) -> Scan {
    match found {
        Scan::Token(token, next) => Scan::Token(token, next + shift),
        other => other,
    }
}

proof fn lemma_run_moves(a: Seq<u8>, b: Seq<u8>, from: int, shift: int, i: int, class: ByteClass)
    requires
        agree_from(a, b, from, shift),
        from <= i <= a.len(),
    ensures
        run_len(a, i, class) == run_len(b, i + shift, class),
    decreases a.len() - i,
{
    if i < a.len() && class.has(a[i]) {
        lemma_run_moves(a, b, from, shift, i + 1, class);
    }
}

proof fn lemma_token_start_moves(a: Seq<u8>, b: Seq<u8>, from: int, shift: int, i: int)
    requires
        agree_from(a, b, from, shift),
        from <= i <= a.len(),
    ensures
        token_start(b, i + shift) == match token_start(a, i) {
            Some(start) => Some(start + shift),
            None => None,
        },
    decreases a.len() - i,
{
    lemma_run(a, i, ByteClass::Space);
    lemma_run_moves(a, b, from, shift, i, ByteClass::Space);
    let p = i + run_len(a, i, ByteClass::Space);
    if p < a.len() && a[p] == OPEN_BRACE {
        lemma_run(a, p + 1, ByteClass::CommentBody);
        lemma_run_moves(a, b, from, shift, p + 1, ByteClass::CommentBody);
        let q = p + 1 + run_len(a, p + 1, ByteClass::CommentBody);
        if q < a.len() {
            lemma_token_start_moves(a, b, from, shift, q + 1);
        }
    }
}

proof fn lemma_scan_token_moves(a: Seq<u8>, b: Seq<u8>, from: int, shift: int, p: int)
    requires
        agree_from(a, b, from, shift),
        from <= p < a.len(),
    ensures
        scan_token(b, p + shift) == moved(scan_token(a, p), shift),
{
    lemma_run(a, p, ByteClass::Digit);
    lemma_run_moves(a, b, from, shift, p, ByteClass::Digit);
    lemma_run(a, p, ByteClass::Word);
    lemma_run_moves(a, b, from, shift, p, ByteClass::Word);
    let digits_end = p + run_len(a, p, ByteClass::Digit);
    assert(a.subrange(p, digits_end) =~= b.subrange(p + shift, digits_end + shift));
    let word_end = p + run_len(a, p, ByteClass::Word);
    assert(a.subrange(p, word_end) =~= b.subrange(p + shift, word_end + shift));
}

/// What the tokenizer finds depends only on the bytes from the cursor on:
/// where two inputs hold the same bytes from two positions on, scanning
/// finds the same in both, at positions that differ as the two do.
pub proof fn lemma_scan_moves(a: Seq<u8>, b: Seq<u8>, from: int, shift: int, i: int)
    requires
        agree_from(a, b, from, shift),
        from <= i <= a.len(),
    ensures
        scan(b, i + shift) == moved(scan(a, i), shift),
{
    lemma_token_start_moves(a, b, from, shift, i);
    lemma_token_start(a, i);
    match token_start(a, i) {
        Some(start) => {
            if start < a.len() {
                lemma_scan_token_moves(a, b, from, shift, start);
            }
        },
        None => {},
    }
}

/// The token stream depends only on the bytes from the cursor on.
pub proof fn lemma_stream_moves(a: Seq<u8>, b: Seq<u8>, from: int, shift: int, i: int)
    requires
        agree_from(a, b, from, shift),
        from <= i <= a.len(),
    ensures
        stream(b, i + shift) == stream(a, i),
    decreases a.len() - i,
{
    lemma_scan_moves(a, b, from, shift, i);
    lemma_scan_advances(a, i);
    lemma_scan_advances(b, i + shift);
    match scan(a, i) {
        Scan::Token(_, next) => {
            lemma_stream_moves(a, b, from, shift, next);
        },
        _ => {},
    }
}

proof fn lemma_run_before(
    a: Seq<u8>,
    b: Seq<u8>,
    open: int,
    close_a: int,
    close_b: int,
    i: int,
    class: ByteClass,
)
    requires
        differ_in_comment(a, b, open, close_a, close_b),
        0 <= i <= open,
        class != ByteClass::CommentBody,
    ensures
        run_len(a, i, class) == run_len(b, i, class),
        i + run_len(a, i, class) <= open,
    decreases open - i,
{
    if i < open && class.has(a[i]) {
        lemma_run_before(a, b, open, close_a, close_b, i + 1, class);
    }
}

proof fn lemma_comment_before(a: Seq<u8>, b: Seq<u8>, open: int, close_a: int, close_b: int, q: int)
    requires
        differ_in_comment(a, b, open, close_a, close_b),
        0 <= q <= open + 1,
    ensures
        ({
            let end_a = q + run_len(a, q, ByteClass::CommentBody);
            let end_b = q + run_len(b, q, ByteClass::CommentBody);
            (end_a == end_b && end_a < open) || (end_a == close_a && end_b == close_b)
        }),
    decreases open + 1 - q,
{
    if q == open + 1 {
        lemma_run_to(a, q, close_a, ByteClass::CommentBody);
        lemma_run_to(b, q, close_b, ByteClass::CommentBody);
    } else if a[q] != CLOSE_BRACE {
        lemma_comment_before(a, b, open, close_a, close_b, q + 1);
    }
}

/// Two token starts that are the same place before the comment, or the same
/// place behind it.
spec fn same_place(start_a: int, start_b: int, open: int, close_a: int, close_b: int) -> bool {
    (start_a == start_b && start_a <= open) || (start_a > close_a && start_b == start_a + (close_b
        - close_a))
}

proof fn lemma_token_start_before(
    a: Seq<u8>,
    b: Seq<u8>,
    open: int,
    close_a: int,
    close_b: int,
    i: int,
)
    requires
        differ_in_comment(a, b, open, close_a, close_b),
        0 <= i <= open,
    ensures
        match token_start(a, i) {
            None => token_start(b, i) is None,
            Some(start_a) => token_start(b, i) matches Some(start_b) && start_a != open
                && same_place(start_a, start_b, open, close_a, close_b),
        },
    decreases open - i,
{
    lemma_run_before(a, b, open, close_a, close_b, i, ByteClass::Space);
    let p = i + run_len(a, i, ByteClass::Space);
    if a[p] == OPEN_BRACE {
        lemma_comment_before(a, b, open, close_a, close_b, p + 1);
        let end_a = p + 1 + run_len(a, p + 1, ByteClass::CommentBody);
        let end_b = p + 1 + run_len(b, p + 1, ByteClass::CommentBody);
        if end_a == end_b && end_a < open {
            lemma_token_start_before(a, b, open, close_a, close_b, end_a + 1);
        } else {
            lemma_token_start_moves(a, b, close_a + 1, close_b - close_a, close_a + 1);
            lemma_token_start(a, close_a + 1);
        }
    }
}

proof fn lemma_scan_before(a: Seq<u8>, b: Seq<u8>, open: int, close_a: int, close_b: int, i: int)
    requires
        differ_in_comment(a, b, open, close_a, close_b),
        0 <= i <= open,
    ensures
        match scan(a, i) {
            Scan::End => scan(b, i) is End,
            Scan::Error(error) => scan(b, i) == Scan::Error(error),
            Scan::Token(token, next_a) => scan(b, i) matches Scan::Token(found, next_b) && found
                == token && same_place(next_a, next_b, open, close_a, close_b),
        },
{
    lemma_token_start_before(a, b, open, close_a, close_b, i);
    lemma_token_start(a, i);
    match token_start(a, i) {
        None => {},
        Some(start) => {
            if start < open {
                lemma_run_before(a, b, open, close_a, close_b, start, ByteClass::Digit);
                lemma_run_before(a, b, open, close_a, close_b, start, ByteClass::Word);
                let digits_end = start + run_len(a, start, ByteClass::Digit);
                assert(a.subrange(start, digits_end) =~= b.subrange(start, digits_end));
                let word_end = start + run_len(a, start, ByteClass::Word);
                assert(a.subrange(start, word_end) =~= b.subrange(start, word_end));
            } else if start < a.len() {
                lemma_scan_token_moves(a, b, close_a + 1, close_b - close_a, start);
                lemma_run(a, start, ByteClass::Digit);
                lemma_run(a, start, ByteClass::Word);
            }
        },
    }
}

proof fn lemma_stream_before(a: Seq<u8>, b: Seq<u8>, open: int, close_a: int, close_b: int, i: int)
    requires
        differ_in_comment(a, b, open, close_a, close_b),
        0 <= i <= open,
    ensures
        stream(a, i) == stream(b, i),
    decreases open - i,
{
    lemma_scan_before(a, b, open, close_a, close_b, i);
    lemma_scan_advances(a, i);
    lemma_scan_advances(b, i);
    match scan(a, i) {
        Scan::Token(_, next) => {
            if next <= open {
                lemma_stream_before(a, b, open, close_a, close_b, next);
            } else {
                lemma_stream_moves(a, b, close_a + 1, close_b - close_a, next);
            }
        },
        _ => {},
    }
}

/// What a comment holds never changes the tokens: two inputs that differ
/// only between a `{` and the first `}` after it have the same token stream,
/// tokens and error alike.
pub proof fn lemma_comment_contents_are_ignored(
    a: Seq<u8>,
    b: Seq<u8>,
    open: int,
    close_a: int,
    close_b: int,
)
    requires
        differ_in_comment(a, b, open, close_a, close_b),
    ensures
        stream(a, 0) == stream(b, 0),
{
    lemma_stream_before(a, b, open, close_a, close_b, 0);
}

} // verus!
