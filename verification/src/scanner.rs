//! The scanner: a cursor over borrowed source text that hands out one token
//! per call.

use vstd::prelude::*;
use vstd::string::*;
use crate::chars::{digit, is_digit, is_letter, is_whitespace, NUL};
use crate::grammar::{
    char_at, comment_end, lemma_run_end_bounds, representable, run_end, scan, starts_comment,
    trivia_end, CharClass,
};
use crate::number::{decimal_value, parse_decimal};
use crate::token::{lookup_identifier, Token, TokenType};

verus! {

/// A cursor over a piece of source text.
///
/// The text is borrowed, never copied. Positions count characters.
pub struct Lexer<'a> {
    input: &'a str,
    length: usize,
    position: usize,
    read_position: usize,
    ch: char,
}

impl<'a> Lexer<'a> {
    /// The cursor stays inside the text or at its end, the current character
    /// is the one under the cursor, and the next read is one step ahead
    /// unless the text has run out.
    #[verifier::type_invariant]
    spec fn well_formed(&self) -> bool {
        &&& self.length == self.input@.len()
        &&& self.position <= self.length
        &&& self.read_position == if self.position < self.length {
            self.position + 1
        } else {
            self.length as int
        }
        &&& self.ch == char_at(self.input@, self.position as int)
    }

    /// The text being scanned.
    pub closed spec fn source(&self) -> Seq<char> {
        self.input@
    }

    /// The position of the current character: how many characters have been
    /// consumed so far.
    pub closed spec fn cursor(&self) -> int {
        self.position as int
    }

    /// A scanner at the first character of `input`.
    pub fn new(input: &'a str) -> (lexer: Self)
        ensures
            lexer.source() == input@,
            lexer.cursor() == 0,
    {
        let length: usize = input.unicode_len();
        if length == 0 {
            Lexer { input, length, position: 0, read_position: 0, ch: NUL }
        } else {
            Lexer { input, length, position: 0, read_position: 1, ch: input.get_char(0) }
        }
    }

    /// Moves the cursor one character on, unless it is at the end.
    fn read_char(&mut self)
        ensures
            final(self).source() == old(self).source(),
            final(self).cursor() == if old(self).cursor() < old(self).source().len() {
                old(self).cursor() + 1
            } else {
                old(self).cursor()
            },
    {
        proof {
            use_type_invariant(&*self);
        }
        let at: usize = self.read_position;
        if at >= self.length {
            *self = Lexer {
                input: self.input,
                length: self.length,
                position: self.length,
                read_position: self.length,
                ch: NUL,
            };
        } else {
            *self = Lexer {
                input: self.input,
                length: self.length,
                position: at,
                read_position: at + 1,
                ch: self.input.get_char(at),
            };
        }
    }

    /// The character behind the current one, without moving.
    fn peek_char(&self) -> (c: char)
        ensures
            c == char_at(self.source(), self.cursor() + 1),
    {
        proof {
            use_type_invariant(self);
        }
        if self.read_position >= self.length {
            NUL
        } else {
            self.input.get_char(self.read_position)
        }
    }

    /// Passes over the whitespace at the cursor.
    fn skip_whitespace(&mut self)
        ensures
            final(self).source() == old(self).source(),
            final(self).cursor() == run_end(old(self).source(), old(self).cursor(), CharClass::Blank),
    {
        proof {
            use_type_invariant(&*self);
        }
        while is_whitespace(self.ch)
            invariant
                self.source() == old(self).source(),
                self.ch == char_at(self.source(), self.cursor()),
                0 <= self.cursor() <= self.source().len(),
                run_end(self.source(), self.cursor(), CharClass::Blank) == run_end(
                    old(self).source(),
                    old(self).cursor(),
                    CharClass::Blank,
                ),
            decreases self.source().len() - self.cursor(),
        {
            self.read_char();
            proof {
                use_type_invariant(&*self);
            }
        }
    }

    /// Passes over the line comment at the cursor, if one begins there.
    fn skip_comments(&mut self)
        ensures
            final(self).source() == old(self).source(),
            final(self).cursor() == if starts_comment(old(self).source(), old(self).cursor()) {
                comment_end(old(self).source(), old(self).cursor())
            } else {
                old(self).cursor()
            },
    {
        proof {
            use_type_invariant(&*self);
        }
        if self.ch == '/' && self.peek_char() == '/' {
            self.read_char();
            self.read_char();
            proof {
                use_type_invariant(&*self);
            }
            while self.ch != '\n' && self.ch != NUL
                invariant
                    self.source() == old(self).source(),
                    self.ch == char_at(self.source(), self.cursor()),
                    0 <= self.cursor() <= self.source().len(),
                    run_end(self.source(), self.cursor(), CharClass::CommentBody) == run_end(
                        old(self).source(),
                        old(self).cursor() + 2,
                        CharClass::CommentBody,
                    ),
                decreases self.source().len() - self.cursor(),
            {
                self.read_char();
                proof {
                    use_type_invariant(&*self);
                }
            }
            if self.ch == '\n' {
                self.read_char();
            }
        }
    }

    /// Passes over all the whitespace and line comments at the cursor.
    fn skip_trivia(&mut self)
        ensures
            final(self).source() == old(self).source(),
            final(self).cursor() == trivia_end(old(self).source(), old(self).cursor()),
            final(self).cursor() <= final(self).source().len(),
    {
        self.skip_whitespace();
        proof {
            use_type_invariant(&*self);
            lemma_run_end_bounds(self.source(), old(self).cursor(), CharClass::Blank);
        }
        while self.ch == '/' && self.peek_char() == '/'
            invariant
                self.source() == old(self).source(),
                self.ch == char_at(self.source(), self.cursor()),
                0 <= self.cursor() <= self.source().len(),
                run_end(self.source(), self.cursor(), CharClass::Blank) == self.cursor(),
                trivia_end(self.source(), self.cursor()) == trivia_end(
                    old(self).source(),
                    old(self).cursor(),
                ),
            decreases self.source().len() - self.cursor(),
        {
            let ghost before = self.cursor();
            self.skip_comments();
            let ghost behind = self.cursor();
            self.skip_whitespace();
            proof {
                use_type_invariant(&*self);
                lemma_run_end_bounds(self.source(), before + 2, CharClass::CommentBody);
                lemma_run_end_bounds(self.source(), behind, CharClass::Blank);
                lemma_run_end_bounds(self.source(), self.cursor(), CharClass::Blank);
                assert(trivia_end(self.source(), before) == trivia_end(self.source(), behind));
                assert(trivia_end(self.source(), behind) == trivia_end(
                    self.source(),
                    self.cursor(),
                ));
            }
        }
    }

    /// Consumes the run of letters and underscores at the cursor and
    /// returns it.
    fn read_identifier(&mut self) -> (name: String)
        ensures
            final(self).source() == old(self).source(),
            final(self).cursor() == run_end(old(self).source(), old(self).cursor(), CharClass::Letter),
            name@ == old(self).source().subrange(old(self).cursor(), final(self).cursor()),
    {
        proof {
            use_type_invariant(&*self);
        }
        let pos: usize = self.position;
        while is_letter(self.ch)
            invariant
                self.source() == old(self).source(),
                self.ch == char_at(self.source(), self.cursor()),
                pos == old(self).cursor(),
                pos <= self.cursor() <= self.source().len(),
                run_end(self.source(), self.cursor(), CharClass::Letter) == run_end(
                    old(self).source(),
                    old(self).cursor(),
                    CharClass::Letter,
                ),
            decreases self.source().len() - self.cursor(),
        {
            self.read_char();
            proof {
                use_type_invariant(&*self);
            }
        }
        proof {
            use_type_invariant(&*self);
        }
        self.input.substring_char(pos, self.position).to_owned()
    }

    /// Consumes the run of digits at the cursor and returns it.
    fn read_digits(&mut self) -> (text: &'a str)
        ensures
            final(self).source() == old(self).source(),
            final(self).cursor() == run_end(old(self).source(), old(self).cursor(), CharClass::Digit),
            text@ == old(self).source().subrange(old(self).cursor(), final(self).cursor()),
    {
        proof {
            use_type_invariant(&*self);
        }
        let pos: usize = self.position;
        while is_digit(self.ch)
            invariant
                self.source() == old(self).source(),
                self.ch == char_at(self.source(), self.cursor()),
                pos == old(self).cursor(),
                pos <= self.cursor() <= self.source().len(),
                run_end(self.source(), self.cursor(), CharClass::Digit) == run_end(
                    old(self).source(),
                    old(self).cursor(),
                    CharClass::Digit,
                ),
            decreases self.source().len() - self.cursor(),
        {
            self.read_char();
            proof {
                use_type_invariant(&*self);
            }
        }
        proof {
            use_type_invariant(&*self);
        }
        self.input.substring_char(pos, self.position)
    }

    /// Consumes the integer literal at the cursor and returns its value.
    fn read_number(&mut self) -> (value: i64)
        requires
            digit(char_at(old(self).source(), old(self).cursor())),
            decimal_value(
                old(self).source().subrange(
                    old(self).cursor(),
                    run_end(old(self).source(), old(self).cursor(), CharClass::Digit),
                ),
            ) <= i64::MAX,
        ensures
            final(self).source() == old(self).source(),
            final(self).cursor() == run_end(old(self).source(), old(self).cursor(), CharClass::Digit),
            value == decimal_value(
                old(self).source().subrange(old(self).cursor(), final(self).cursor()),
            ),
    {
        proof {
            lemma_run_end_bounds(self.source(), self.cursor(), CharClass::Digit);
        }
        let text: &str = self.read_digits();
        parse_decimal(text).unwrap()
    }

    /// Consumes the string literal whose opening quote is at the cursor and
    /// returns the text between the quotes. Where the closing quote is
    /// missing, the literal ends where the source does.
    fn read_string(&mut self) -> (text: String)
        requires
            char_at(old(self).source(), old(self).cursor()) == '"',
        ensures
            final(self).source() == old(self).source(),
            ({
                let close = run_end(
                    old(self).source(),
                    old(self).cursor() + 1,
                    CharClass::StringBody,
                );
                &&& text@ == old(self).source().subrange(old(self).cursor() + 1, close)
                &&& final(self).cursor() == if char_at(old(self).source(), close) == '"' {
                    close + 1
                } else {
                    close
                }
            }),
    {
        proof {
            use_type_invariant(&*self);
        }
        let pos: usize = self.position + 1;
        self.read_char();
        proof {
            use_type_invariant(&*self);
        }
        while self.ch != '"' && self.ch != NUL
            invariant
                self.source() == old(self).source(),
                self.ch == char_at(self.source(), self.cursor()),
                pos == old(self).cursor() + 1,
                pos <= self.cursor() <= self.source().len(),
                run_end(self.source(), self.cursor(), CharClass::StringBody) == run_end(
                    old(self).source(),
                    old(self).cursor() + 1,
                    CharClass::StringBody,
                ),
            decreases self.source().len() - self.cursor(),
        {
            self.read_char();
            proof {
                use_type_invariant(&*self);
            }
        }
        proof {
            use_type_invariant(&*self);
        }
        let text = self.input.substring_char(pos, self.position).to_owned();
        if self.ch == '"' {
            self.read_char();
        }
        text
    }

    /// Whether the next token can be held: an integer literal has to fit in
    /// 64 signed bits. The scanner itself is left as it is.
    pub fn next_fits(&self) -> (yes: bool)
        ensures
            yes == representable(self.source(), self.cursor()),
    {
        proof {
            use_type_invariant(self);
        }
        let mut probe = Lexer {
            input: self.input,
            length: self.length,
            position: self.position,
            read_position: self.read_position,
            ch: self.ch,
        };
        probe.skip_trivia();
        proof {
            use_type_invariant(&probe);
            lemma_run_end_bounds(probe.source(), probe.cursor(), CharClass::Digit);
        }
        if is_digit(probe.ch) {
            let text: &str = probe.read_digits();
            parse_decimal(text).is_some()
        } else {
            true
        }
    }

    /// Skips whitespace and line comments, then consumes one token and
    /// returns it.
    ///
    /// At the end of the source, and at a `NUL` in it, the token is `Eof` and
    /// the cursor stays where it is.
    pub fn next_token(&mut self) -> (token: Token)
        requires
            representable(old(self).source(), old(self).cursor()),
        ensures
            final(self).source() == old(self).source(),
            token@ == scan(old(self).source(), old(self).cursor()).token,
            final(self).cursor() == scan(old(self).source(), old(self).cursor()).next,
            final(self).cursor() <= final(self).source().len(),
    {
        self.skip_trivia();
        proof {
            use_type_invariant(&*self);
        }
        let kind = match self.ch {
            '=' => {
                if self.peek_char() == '=' {
                    self.read_char();
                    TokenType::Eq
                } else {
                    TokenType::Assign
                }
            },
            ';' => TokenType::Semicolon,
            '(' => TokenType::Lparen,
            ')' => TokenType::Rparen,
            ',' => TokenType::Comma,
            '+' => TokenType::Plus,
            '-' => TokenType::Minus,
            '!' => {
                if self.peek_char() == '=' {
                    self.read_char();
                    TokenType::NotEq
                } else {
                    TokenType::Bang
                }
            },
            '*' => TokenType::Asterisk,
            '/' => TokenType::Slash,
            '<' => TokenType::Lt,
            '>' => TokenType::Gt,
            '{' => TokenType::Lbrace,
            '}' => TokenType::Rbrace,
            '\0' => {
                return Token { kind: TokenType::Eof };
            },
            '"' => {
                let text = self.read_string();
                proof {
                    use_type_invariant(&*self);
                }
                return Token { kind: TokenType::String(text) };
            },
            _ => {
                if is_letter(self.ch) {
                    let identifier = self.read_identifier();
                    proof {
                        use_type_invariant(&*self);
                    }
                    return Token { kind: lookup_identifier(identifier.as_str()) };
                } else if is_digit(self.ch) {
                    let value: i64 = self.read_number();
                    proof {
                        use_type_invariant(&*self);
                    }
                    return Token { kind: TokenType::Int(value) };
                } else {
                    TokenType::Illegal
                }
            },
        };
        self.read_char();
        Token { kind }
    }
}

} // verus!
