//! The closed set of token kinds, their mathematical view, the keyword table
//! and the diagnostic rendering of a token.

use vstd::prelude::*;
use vstd::std_specs::cmp::PartialEqSpecImpl;
use vstd::string::*;
use crate::number::{decimal_string, decimal_text};

verus! {

/// A lexical category, together with the text or number it carries.
#[derive(Debug, Eq)]
pub enum TokenType {
    Illegal,
    Eof,
    Ident { name: String },
    Int(i64),
    String(String),
    Assign,
    Plus,
    Minus,
    Bang,
    Asterisk,
    Slash,
    Lt,
    Gt,
    Eq,
    NotEq,
    Comma,
    Semicolon,
    Lparen,
    Rparen,
    Lbrace,
    Rbrace,
    Function,
    Let,
    True,
    False,
    If,
    Else,
    Return,
}

/// What a [`TokenType`] stands for in contracts: the same variants, with text
/// as a sequence of characters and a number as a mathematical integer.
pub enum Kind {
    Illegal,
    Eof,
    Ident(Seq<char>),
    Int(int),
    String(Seq<char>),
    Assign,
    Plus,
    Minus,
    Bang,
    Asterisk,
    Slash,
    Lt,
    Gt,
    Eq,
    NotEq,
    Comma,
    Semicolon,
    Lparen,
    Rparen,
    Lbrace,
    Rbrace,
    Function,
    Let,
    True,
    False,
    If,
    Else,
    Return,
}

impl View for TokenType {
    type V = Kind;

    open spec fn view(&self) -> Kind {
        match self {
            TokenType::Illegal => Kind::Illegal,
            TokenType::Eof => Kind::Eof,
            TokenType::Ident { name } => Kind::Ident(name@),
            TokenType::Int(value) => Kind::Int(*value as int),
            TokenType::String(text) => Kind::String(text@),
            TokenType::Assign => Kind::Assign,
            TokenType::Plus => Kind::Plus,
            TokenType::Minus => Kind::Minus,
            TokenType::Bang => Kind::Bang,
            TokenType::Asterisk => Kind::Asterisk,
            TokenType::Slash => Kind::Slash,
            TokenType::Lt => Kind::Lt,
            TokenType::Gt => Kind::Gt,
            TokenType::Eq => Kind::Eq,
            TokenType::NotEq => Kind::NotEq,
            TokenType::Comma => Kind::Comma,
            TokenType::Semicolon => Kind::Semicolon,
            TokenType::Lparen => Kind::Lparen,
            TokenType::Rparen => Kind::Rparen,
            TokenType::Lbrace => Kind::Lbrace,
            TokenType::Rbrace => Kind::Rbrace,
            TokenType::Function => Kind::Function,
            TokenType::Let => Kind::Let,
            TokenType::True => Kind::True,
            TokenType::False => Kind::False,
            TokenType::If => Kind::If,
            TokenType::Else => Kind::Else,
            TokenType::Return => Kind::Return,
        }
    }
}

impl PartialEq for TokenType {
    /// Two kinds are equal when they are the same variant and carry the same
    /// text or number.
    fn eq(&self, other: &Self) -> (equal: bool) {
        match (self, other) {
            (TokenType::Illegal, TokenType::Illegal) => true,
            (TokenType::Eof, TokenType::Eof) => true,
            (TokenType::Ident { name: left }, TokenType::Ident { name: right }) => *left == *right,
            (TokenType::Int(left), TokenType::Int(right)) => *left == *right,
            (TokenType::String(left), TokenType::String(right)) => *left == *right,
            (TokenType::Assign, TokenType::Assign) => true,
            (TokenType::Plus, TokenType::Plus) => true,
            (TokenType::Minus, TokenType::Minus) => true,
            (TokenType::Bang, TokenType::Bang) => true,
            (TokenType::Asterisk, TokenType::Asterisk) => true,
            (TokenType::Slash, TokenType::Slash) => true,
            (TokenType::Lt, TokenType::Lt) => true,
            (TokenType::Gt, TokenType::Gt) => true,
            (TokenType::Eq, TokenType::Eq) => true,
            (TokenType::NotEq, TokenType::NotEq) => true,
            (TokenType::Comma, TokenType::Comma) => true,
            (TokenType::Semicolon, TokenType::Semicolon) => true,
            (TokenType::Lparen, TokenType::Lparen) => true,
            (TokenType::Rparen, TokenType::Rparen) => true,
            (TokenType::Lbrace, TokenType::Lbrace) => true,
            (TokenType::Rbrace, TokenType::Rbrace) => true,
            (TokenType::Function, TokenType::Function) => true,
            (TokenType::Let, TokenType::Let) => true,
            (TokenType::True, TokenType::True) => true,
            (TokenType::False, TokenType::False) => true,
            (TokenType::If, TokenType::If) => true,
            (TokenType::Else, TokenType::Else) => true,
            (TokenType::Return, TokenType::Return) => true,
            _ => false,
        }
    }
}

impl PartialEqSpecImpl for TokenType {
    open spec fn obeys_eq_spec() -> bool {
        true
    }

    open spec fn eq_spec(&self, other: &Self) -> bool {
        self@ == other@
    }
}

/// One classified unit of source text.
#[derive(Debug, Eq)]
pub struct Token {
    pub kind: TokenType,
}

impl View for Token {
    type V = Kind;

    open spec fn view(&self) -> Kind {
        self.kind@
    }
}

impl PartialEq for Token {
    /// Two tokens are equal when their kinds are.
    fn eq(&self, other: &Self) -> (equal: bool) {
        self.kind == other.kind
    }
}

impl PartialEqSpecImpl for Token {
    open spec fn obeys_eq_spec() -> bool {
        true
    }

    open spec fn eq_spec(&self, other: &Self) -> bool {
        self@ == other@
    }
}

/// The keyword table: the kind of a reserved word, and `Ident` with the text
/// itself for anything else. The match is exact and case-sensitive.
pub open spec fn classify(text: Seq<char>) -> Kind {
    if text == "fn"@ {
        Kind::Function
    } else if text == "let"@ {
        Kind::Let
    } else if text == "true"@ {
        Kind::True
    } else if text == "false"@ {
        Kind::False
    } else if text == "if"@ {
        Kind::If
    } else if text == "else"@ {
        Kind::Else
    } else if text == "return"@ {
        Kind::Return
    } else {
        Kind::Ident(text)
    }
}

/// Whether two pieces of text hold the same characters.
fn same_text(left: &str, right: &str) -> (same: bool)
    ensures
        same == (left@ == right@),
{
    let n: usize = left.unicode_len();
    if n != right.unicode_len() {
        return false;
    }
    let mut i: usize = 0;
    while i < n
        invariant
            n == left@.len(),
            n == right@.len(),
            i <= n,
            forall|k: int| 0 <= k < i ==> left@[k] == right@[k],
        decreases n - i,
    {
        if left.get_char(i) != right.get_char(i) {
            return false;
        }
        i += 1;
    }
    assert(left@ =~= right@);
    true
}

/// Looks a piece of identifier text up in the keyword table.
pub fn lookup_identifier(ident: &str) -> (kind: TokenType)
    ensures
        kind@ == classify(ident@),
{
    if same_text(ident, "fn") {
        TokenType::Function
    } else if same_text(ident, "let") {
        TokenType::Let
    } else if same_text(ident, "true") {
        TokenType::True
    } else if same_text(ident, "false") {
        TokenType::False
    } else if same_text(ident, "if") {
        TokenType::If
    } else if same_text(ident, "else") {
        TokenType::Else
    } else if same_text(ident, "return") {
        TokenType::Return
    } else {
        TokenType::Ident { name: ident.to_owned() }
    }
}

/// The text that a kind is shown as: the symbol of an operator or delimiter,
/// the spelling of a keyword, the text of an identifier or string, the decimal
/// form of an integer, and a fixed label for the two kinds that have none.
pub open spec fn render(kind: Kind) -> Seq<char> {
    match kind {
        Kind::Illegal => "ILLEGAL"@,
        Kind::Eof => "EOF"@,
        Kind::Ident(name) => name,
        Kind::Int(value) => decimal_text(value),
        Kind::String(text) => text,
        Kind::Assign => "="@,
        Kind::Plus => "+"@,
        Kind::Minus => "-"@,
        Kind::Bang => "!"@,
        Kind::Asterisk => "*"@,
        Kind::Slash => "/"@,
        Kind::Lt => "<"@,
        Kind::Gt => ">"@,
        Kind::Eq => "=="@,
        Kind::NotEq => "!="@,
        Kind::Comma => ","@,
        Kind::Semicolon => ";"@,
        Kind::Lparen => "("@,
        Kind::Rparen => ")"@,
        Kind::Lbrace => "{"@,
        Kind::Rbrace => "}"@,
        Kind::Function => "fn"@,
        Kind::Let => "let"@,
        Kind::True => "true"@,
        Kind::False => "false"@,
        Kind::If => "if"@,
        Kind::Else => "else"@,
        Kind::Return => "return"@,
    }
}

impl TokenType {
    /// The text that this kind is shown as, for diagnostics.
    pub fn to_string(&self) -> (text: String)
        ensures
            text@ == render(self@),
    {
        match self {
            TokenType::Illegal => "ILLEGAL".to_owned(),
            TokenType::Eof => "EOF".to_owned(),
            TokenType::Ident { name } => name.clone(),
            TokenType::Int(value) => decimal_string(*value),
            TokenType::String(text) => text.clone(),
            TokenType::Assign => "=".to_owned(),
            TokenType::Plus => "+".to_owned(),
            TokenType::Minus => "-".to_owned(),
            TokenType::Bang => "!".to_owned(),
            TokenType::Asterisk => "*".to_owned(),
            TokenType::Slash => "/".to_owned(),
            TokenType::Lt => "<".to_owned(),
            TokenType::Gt => ">".to_owned(),
            TokenType::Eq => "==".to_owned(),
            TokenType::NotEq => "!=".to_owned(),
            TokenType::Comma => ",".to_owned(),
            TokenType::Semicolon => ";".to_owned(),
            TokenType::Lparen => "(".to_owned(),
            TokenType::Rparen => ")".to_owned(),
            TokenType::Lbrace => "{".to_owned(),
            TokenType::Rbrace => "}".to_owned(),
            TokenType::Function => "fn".to_owned(),
            TokenType::Let => "let".to_owned(),
            TokenType::True => "true".to_owned(),
            TokenType::False => "false".to_owned(),
            TokenType::If => "if".to_owned(),
            TokenType::Else => "else".to_owned(),
            TokenType::Return => "return".to_owned(),
        }
    }
}

impl Token {
    /// The text that this token is shown as: a fixed label, then its kind.
    pub fn to_string(&self) -> (text: String)
        ensures
            text@ == "kind: "@ + render(self@),
    {
        let kind = self.kind.to_string();
        "kind: ".to_owned().concat(kind.as_str())
    }
}

} // verus!
