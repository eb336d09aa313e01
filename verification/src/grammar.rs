//! The lexical grammar, as mathematics: character classes, maximal runs,
//! the trivia between tokens, and the token that stands at a position.
//!
//! Everything here is a spec function over a source text `Seq<char>` and a
//! position in it. The scanner's contracts are written in these terms.

use vstd::prelude::*;
use crate::chars::{blank, digit, letter, NUL};
use crate::number::decimal_value;
use crate::token::{classify, Kind};

verus! {

/// The sets of characters that the scanner consumes in runs.
pub enum CharClass {
    /// Whitespace between tokens.
    Blank,
    /// What an identifier or keyword is made of.
    Letter,
    /// What an integer literal is made of.
    Digit,
    /// What a line comment holds: anything but a line feed or `NUL`.
    CommentBody,
    /// What a string literal holds: anything but a double quote or `NUL`.
    StringBody,
}

impl CharClass {
    pub open spec fn contains(self, c: char) -> bool {
        match self {
            CharClass::Blank => blank(c),
            CharClass::Letter => letter(c),
            CharClass::Digit => digit(c),
            CharClass::CommentBody => c != '\n' && c != NUL,
            CharClass::StringBody => c != '"' && c != NUL,
        }
    }
}

/// The character at position `i`, or `NUL` where `i` is outside the source.
pub open spec fn char_at(src: Seq<char>, i: int) -> char {
    if 0 <= i < src.len() {
        src[i]
    } else {
        NUL
    }
}

/// Where the maximal run of characters of `class` that begins at `start`
/// ends: the first position from `start` on that is outside the source or
/// holds a character not in `class`.
pub open spec fn run_end(src: Seq<char>, start: int, class: CharClass) -> int
    decreases src.len() - start,
{
    if 0 <= start < src.len() && class.contains(src[start]) {
        run_end(src, start + 1, class)
    } else {
        start
    }
}

/// Whether a line comment begins at position `i`: a slash followed by a slash.
pub open spec fn starts_comment(src: Seq<char>, i: int) -> bool {
    char_at(src, i) == '/' && char_at(src, i + 1) == '/'
}

/// Where the line comment that begins at `start` ends: behind the next line
/// feed, or where its body stops for want of one.
pub open spec fn comment_end(src: Seq<char>, start: int) -> int {
    let stop = run_end(src, start + 2, CharClass::CommentBody);
    if char_at(src, stop) == '\n' {
        stop + 1
    } else {
        stop
    }
}

/// Where the whitespace and line comments that begin at `start` end: the
/// first position from which neither a blank nor a comment begins.
pub open spec fn trivia_end(src: Seq<char>, start: int) -> int
    decreases src.len() - start,
    via trivia_end_terminates
{
    let stop = run_end(src, start, CharClass::Blank);
    if starts_comment(src, stop) {
        trivia_end(src, comment_end(src, stop))
    } else {
        stop
    }
}

#[via_fn]
proof fn trivia_end_terminates(src: Seq<char>, start: int) {
    let stop = run_end(src, start, CharClass::Blank);
    lemma_run_end_bounds(src, start, CharClass::Blank);
    lemma_run_end_bounds(src, stop + 2, CharClass::CommentBody);
}

/// A run ends no earlier than it begins, inside the source where it begins
/// there, with every character before its end in the class and the one at
/// its end outside it.
pub proof fn lemma_run_end_bounds(src: Seq<char>, start: int, class: CharClass)
    ensures
        start <= run_end(src, start, class),
        0 <= start <= src.len() ==> run_end(src, start, class) <= src.len(),
        forall|k: int| 0 <= start <= k < run_end(src, start, class) ==> class.contains(#[trigger] src[k]),
        !class.contains(char_at(src, run_end(src, start, class))),
    decreases src.len() - start,
{
    if 0 <= start < src.len() && class.contains(src[start]) {
        lemma_run_end_bounds(src, start + 1, class);
    }
}

/// The kind of a punctuation character that is a token by itself whatever
/// follows it.
pub open spec fn punctuation(c: char) -> Option<Kind> {
    if c == ';' {
        Some(Kind::Semicolon)
    } else if c == '(' {
        Some(Kind::Lparen)
    } else if c == ')' {
        Some(Kind::Rparen)
    } else if c == ',' {
        Some(Kind::Comma)
    } else if c == '+' {
        Some(Kind::Plus)
    } else if c == '-' {
        Some(Kind::Minus)
    } else if c == '*' {
        Some(Kind::Asterisk)
    } else if c == '/' {
        Some(Kind::Slash)
    } else if c == '<' {
        Some(Kind::Lt)
    } else if c == '>' {
        Some(Kind::Gt)
    } else if c == '{' {
        Some(Kind::Lbrace)
    } else if c == '}' {
        Some(Kind::Rbrace)
    } else {
        None
    }
}

/// One step of scanning: the token found and the position behind it.
pub struct Step {
    pub token: Kind,
    pub next: int,
}

/// The token that begins exactly at position `at`, where no trivia stands.
pub open spec fn token_at(src: Seq<char>, at: int) -> Step {
    let c = char_at(src, at);
    if c == '=' {
        if char_at(src, at + 1) == '=' {
            Step { token: Kind::Eq, next: at + 2 }
        } else {
            Step { token: Kind::Assign, next: at + 1 }
        }
    } else if c == '!' {
        if char_at(src, at + 1) == '=' {
            Step { token: Kind::NotEq, next: at + 2 }
        } else {
            Step { token: Kind::Bang, next: at + 1 }
        }
    } else if punctuation(c) is Some {
        Step { token: punctuation(c)->0, next: at + 1 }
    } else if c == NUL {
        Step { token: Kind::Eof, next: at }
    } else if c == '"' {
        let close = run_end(src, at + 1, CharClass::StringBody);
        Step {
            token: Kind::String(src.subrange(at + 1, close)),
            next: if char_at(src, close) == '"' {
                close + 1
            } else {
                close
            },
        }
    } else if letter(c) {
        let stop = run_end(src, at, CharClass::Letter);
        Step { token: classify(src.subrange(at, stop)), next: stop }
    } else if digit(c) {
        let stop = run_end(src, at, CharClass::Digit);
        Step { token: Kind::Int(decimal_value(src.subrange(at, stop))), next: stop }
    } else {
        Step { token: Kind::Illegal, next: at + 1 }
    }
}

/// The next token from position `pos` on: the trivia there is passed over,
/// and the token behind it is taken.
pub open spec fn scan(src: Seq<char>, pos: int) -> Step {
    token_at(src, trivia_end(src, pos))
}

/// Whether the next token from `pos` on can be held: an integer literal has
/// to fit in 64 signed bits. Every other token can.
pub open spec fn representable(src: Seq<char>, pos: int) -> bool {
    scan(src, pos).token matches Kind::Int(value) ==> value <= i64::MAX
}

} // verus!
