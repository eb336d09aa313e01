//! What holds of scanning as a whole: facts about [`scan`] that tie one call
//! of the scanner to the next, each proved from the grammar's definitions.

use vstd::prelude::*;
use crate::chars::blank;
use crate::grammar::{
    char_at, comment_end, lemma_run_end_bounds, run_end, scan, starts_comment, token_at,
    trivia_end, CharClass, Step,
};
use crate::token::{classify, Kind};

verus! {

/// Trivia ends inside the source, no earlier than it begins, at a character
/// that is no blank and begins no comment.
pub proof fn lemma_trivia_end_bounds(src: Seq<char>, start: int)
    requires
        0 <= start <= src.len(),
    ensures
        start <= trivia_end(src, start) <= src.len(),
        !blank(char_at(src, trivia_end(src, start))),
        !starts_comment(src, trivia_end(src, start)),
    decreases src.len() - start,
{
    let stop = run_end(src, start, CharClass::Blank);
    lemma_run_end_bounds(src, start, CharClass::Blank);
    if starts_comment(src, stop) {
        lemma_run_end_bounds(src, stop + 2, CharClass::CommentBody);
        lemma_trivia_end_bounds(src, comment_end(src, stop));
    }
}

/// Where no blank stands and no comment begins, there is no trivia to pass.
pub proof fn lemma_no_trivia(src: Seq<char>, at: int)
    requires
        !blank(char_at(src, at)),
        !starts_comment(src, at),
    ensures
        trivia_end(src, at) == at,
{
}

/// Every step moves forward and stays inside the source; every token but
/// `Eof` consumes at least one character, and `Eof` consumes none behind the
/// trivia.
pub proof fn lemma_scan_advances(src: Seq<char>, pos: int)
    requires
        0 <= pos <= src.len(),
    ensures
        pos <= scan(src, pos).next <= src.len(),
        scan(src, pos).token != Kind::Eof ==> pos < scan(src, pos).next,
        scan(src, pos).token == Kind::Eof ==> scan(src, pos).next == trivia_end(src, pos),
{
    let at = trivia_end(src, pos);
    lemma_trivia_end_bounds(src, pos);
    lemma_run_end_bounds(src, at + 1, CharClass::StringBody);
    lemma_run_end_bounds(src, at, CharClass::Letter);
    lemma_run_end_bounds(src, at, CharClass::Digit);
    lemma_classify_is_never_eof(src.subrange(at, run_end(src, at, CharClass::Letter)));
}

/// The keyword table yields a keyword or an identifier, never `Eof`.
proof fn lemma_classify_is_never_eof(text: Seq<char>)
    ensures
        classify(text) != Kind::Eof,
{
}

/// Once `Eof` has been returned, every further step returns `Eof` again and
/// leaves the cursor where it is.
pub proof fn lemma_eof_is_final(src: Seq<char>, pos: int)
    requires
        0 <= pos <= src.len(),
        scan(src, pos).token == Kind::Eof,
    ensures
        scan(src, scan(src, pos).next) == scan(src, pos),
        scan(src, scan(src, pos).next).next == scan(src, pos).next,
{
    let at = trivia_end(src, pos);
    lemma_scan_advances(src, pos);
    lemma_trivia_end_bounds(src, pos);
    lemma_no_trivia(src, at);
}

/// A source that holds nothing but whitespace from `pos` on, or nothing at
/// all, yields `Eof` at once, with the cursor at its end.
pub proof fn lemma_blank_source_is_eof(src: Seq<char>, pos: int)
    requires
        0 <= pos <= src.len(),
        forall|k: int| pos <= k < src.len() ==> blank(#[trigger] src[k]),
    ensures
        scan(src, pos) == (Step { token: Kind::Eof, next: src.len() as int }),
{
    lemma_blank_run_reaches_end(src, pos);
}

proof fn lemma_blank_run_reaches_end(src: Seq<char>, pos: int)
    requires
        0 <= pos <= src.len(),
        forall|k: int| pos <= k < src.len() ==> blank(#[trigger] src[k]),
    ensures
        run_end(src, pos, CharClass::Blank) == src.len(),
    decreases src.len() - pos,
{
    if pos < src.len() {
        lemma_blank_run_reaches_end(src, pos + 1);
    }
}

/// Whitespace before a token contributes nothing: the step from a blank is
/// the step from the position behind it.
pub proof fn lemma_blank_yields_no_token(src: Seq<char>, pos: int)
    requires
        0 <= pos < src.len(),
        blank(src[pos]),
    ensures
        scan(src, pos) == scan(src, pos + 1),
{
}

/// A line comment contributes nothing: the step from where a comment begins
/// is the step from where it ends.
pub proof fn lemma_comment_yields_no_token(src: Seq<char>, pos: int)
    requires
        0 <= pos <= src.len(),
        starts_comment(src, pos),
    ensures
        pos + 2 <= comment_end(src, pos) <= src.len(),
        scan(src, pos) == scan(src, comment_end(src, pos)),
{
    lemma_run_end_bounds(src, pos + 2, CharClass::CommentBody);
}

/// Trivia is passed in one step: behind it, the token is the one that
/// stands right there.
pub proof fn lemma_scan_behind_trivia(src: Seq<char>, pos: int)
    requires
        0 <= pos <= src.len(),
    ensures
        scan(src, trivia_end(src, pos)) == scan(src, pos),
        scan(src, pos) == token_at(src, trivia_end(src, pos)),
{
    lemma_trivia_end_bounds(src, pos);
    lemma_no_trivia(src, trivia_end(src, pos));
}

/// Each reserved word has its own kind.
pub proof fn lemma_keywords()
    ensures
        classify("fn"@) == Kind::Function,
        classify("let"@) == Kind::Let,
        classify("true"@) == Kind::True,
        classify("false"@) == Kind::False,
        classify("if"@) == Kind::If,
        classify("else"@) == Kind::Else,
        classify("return"@) == Kind::Return,
{
    reveal_strlit("fn");
    reveal_strlit("let");
    reveal_strlit("true");
    reveal_strlit("false");
    reveal_strlit("if");
    reveal_strlit("else");
    reveal_strlit("return");
    assert("fn"@.len() == 2 && "fn"@[0] == 'f');
    assert("if"@.len() == 2 && "if"@[0] == 'i');
    assert("let"@.len() == 3);
    assert("true"@.len() == 4 && "true"@[0] == 't');
    assert("else"@.len() == 4 && "else"@[0] == 'e');
    assert("false"@.len() == 5);
    assert("return"@.len() == 6);
}

/// Text that is none of the reserved words is an identifier, and carries
/// exactly that text; a reserved word is none.
pub proof fn lemma_identifiers(text: Seq<char>)
    ensures
        classify(text) == Kind::Ident(text) <==> {
            &&& text != "fn"@
            &&& text != "let"@
            &&& text != "true"@
            &&& text != "false"@
            &&& text != "if"@
            &&& text != "else"@
            &&& text != "return"@
        },
{
}

} // verus!
