use lexer::token::{Token, TokenType};
use lexer::Lexer;

/// Every token of `input` up to and including the first `Eof`.
fn scan_all(input: &str) -> Vec<TokenType> {
    let mut lexer = Lexer::new(input);
    let mut out = Vec::new();
    loop {
        assert!(lexer.next_fits());
        let token = lexer.next_token();
        let done = token.kind == TokenType::Eof;
        out.push(token.kind);
        if done {
            return out;
        }
    }
}

fn ident(name: &str) -> TokenType {
    TokenType::Ident { name: name.to_string() }
}

fn string(text: &str) -> TokenType {
    TokenType::String(text.to_string())
}

#[test]
fn empty_input_is_end_of_input() {
    assert_eq!(scan_all(""), vec![TokenType::Eof]);
}

#[test]
fn whitespace_only_input_is_end_of_input() {
    assert_eq!(scan_all(" "), vec![TokenType::Eof]);
    assert_eq!(scan_all("\t"), vec![TokenType::Eof]);
    assert_eq!(scan_all("\n"), vec![TokenType::Eof]);
    assert_eq!(scan_all("\r"), vec![TokenType::Eof]);
    assert_eq!(scan_all("  \t\r\n \n\n\t  "), vec![TokenType::Eof]);
}

#[test]
fn single_punctuation_characters() {
    let cases = vec![
        ("+", TokenType::Plus),
        ("-", TokenType::Minus),
        ("*", TokenType::Asterisk),
        ("/", TokenType::Slash),
        ("<", TokenType::Lt),
        (">", TokenType::Gt),
        ("(", TokenType::Lparen),
        (")", TokenType::Rparen),
        ("{", TokenType::Lbrace),
        ("}", TokenType::Rbrace),
        (",", TokenType::Comma),
        (";", TokenType::Semicolon),
    ];
    for (input, kind) in cases {
        assert_eq!(scan_all(input), vec![kind, TokenType::Eof], "input {:?}", input);
    }
}

#[test]
fn assign_and_bang_alone() {
    assert_eq!(scan_all("="), vec![TokenType::Assign, TokenType::Eof]);
    assert_eq!(scan_all("!"), vec![TokenType::Bang, TokenType::Eof]);
}

#[test]
fn two_character_operators() {
    assert_eq!(scan_all("=="), vec![TokenType::Eq, TokenType::Eof]);
    assert_eq!(scan_all("!="), vec![TokenType::NotEq, TokenType::Eof]);
}

#[test]
fn operators_are_taken_greedily_from_the_left() {
    assert_eq!(scan_all("==="), vec![TokenType::Eq, TokenType::Assign, TokenType::Eof]);
    assert_eq!(scan_all("!=="), vec![TokenType::NotEq, TokenType::Assign, TokenType::Eof]);
    assert_eq!(scan_all("=!"), vec![TokenType::Assign, TokenType::Bang, TokenType::Eof]);
    assert_eq!(scan_all("= ="), vec![TokenType::Assign, TokenType::Assign, TokenType::Eof]);
    assert_eq!(scan_all("!!="), vec![TokenType::Bang, TokenType::NotEq, TokenType::Eof]);
}

#[test]
fn integer_literal() {
    assert_eq!(scan_all("12345"), vec![TokenType::Int(12345), TokenType::Eof]);
}

#[test]
fn integer_literal_edge_values() {
    assert_eq!(scan_all("0"), vec![TokenType::Int(0), TokenType::Eof]);
    assert_eq!(scan_all("007"), vec![TokenType::Int(7), TokenType::Eof]);
    assert_eq!(
        scan_all("9223372036854775807"),
        vec![TokenType::Int(i64::MAX), TokenType::Eof]
    );
    assert_eq!(
        scan_all("0000000000000000000000009223372036854775807"),
        vec![TokenType::Int(i64::MAX), TokenType::Eof]
    );
}

#[test]
fn minus_is_never_part_of_a_number() {
    assert_eq!(scan_all("-5"), vec![TokenType::Minus, TokenType::Int(5), TokenType::Eof]);
}

#[test]
fn integer_literal_out_of_range_is_reported_before_the_call() {
    let lexer = Lexer::new("9223372036854775808");
    assert!(!lexer.next_fits());
    let lexer = Lexer::new("  // note\n 99999999999999999999;");
    assert!(!lexer.next_fits());
    let lexer = Lexer::new("5 99999999999999999999");
    assert!(lexer.next_fits());
}

#[test]
fn out_of_range_check_looks_only_at_the_next_token() {
    let mut lexer = Lexer::new("let 99999999999999999999");
    assert!(lexer.next_fits());
    assert_eq!(lexer.next_token(), Token { kind: TokenType::Let });
    assert!(!lexer.next_fits());
}

#[test]
fn out_of_range_check_leaves_the_scanner_alone() {
    let mut lexer = Lexer::new("  42 ;");
    assert!(lexer.next_fits());
    assert!(lexer.next_fits());
    assert_eq!(lexer.next_token().kind, TokenType::Int(42));
    assert_eq!(lexer.next_token().kind, TokenType::Semicolon);
}

#[test]
fn string_literal() {
    assert_eq!(scan_all("\"hello world\""), vec![string("hello world"), TokenType::Eof]);
}

#[test]
fn unterminated_string_literal() {
    assert_eq!(scan_all("\"abc"), vec![string("abc"), TokenType::Eof]);
    assert_eq!(scan_all("\""), vec![string(""), TokenType::Eof]);
}

#[test]
fn string_literal_contents_are_taken_as_they_are() {
    assert_eq!(scan_all("\"\""), vec![string(""), TokenType::Eof]);
    assert_eq!(scan_all("\"a // b\" c"), vec![string("a // b"), ident("c"), TokenType::Eof]);
    assert_eq!(scan_all("\"a\\n\""), vec![string("a\\n"), TokenType::Eof]);
    assert_eq!(scan_all("\"two\nlines\""), vec![string("two\nlines"), TokenType::Eof]);
    assert_eq!(scan_all("\"let\""), vec![string("let"), TokenType::Eof]);
    assert_eq!(
        scan_all("\"a\"\"b\""),
        vec![string("a"), string("b"), TokenType::Eof]
    );
}

#[test]
fn string_literal_with_characters_beyond_ascii() {
    assert_eq!(
        scan_all("\"h\u{e9}llo \u{4e16}\u{754c}\" x"),
        vec![string("h\u{e9}llo \u{4e16}\u{754c}"), ident("x"), TokenType::Eof]
    );
}

#[test]
fn comment_contributes_no_token() {
    assert_eq!(
        scan_all("let x = 5; // comment\nlet y = 6;"),
        scan_all("let x = 5; \nlet y = 6;")
    );
    assert_eq!(
        scan_all("let x = 5; // comment\nlet y = 6;"),
        vec![
            TokenType::Let,
            ident("x"),
            TokenType::Assign,
            TokenType::Int(5),
            TokenType::Semicolon,
            TokenType::Let,
            ident("y"),
            TokenType::Assign,
            TokenType::Int(6),
            TokenType::Semicolon,
            TokenType::Eof,
        ]
    );
}

#[test]
fn comment_runs_to_the_end_without_a_newline() {
    assert_eq!(scan_all("// nothing else"), vec![TokenType::Eof]);
    assert_eq!(scan_all("x // trailing"), vec![ident("x"), TokenType::Eof]);
    assert_eq!(scan_all("//"), vec![TokenType::Eof]);
}

#[test]
fn comment_with_empty_body_ends_at_its_newline() {
    assert_eq!(scan_all("//\nlet"), vec![TokenType::Let, TokenType::Eof]);
    assert_eq!(scan_all("//\n"), vec![TokenType::Eof]);
}

#[test]
fn whitespace_and_comments_alternate_within_one_call() {
    assert_eq!(scan_all("// a\n   let"), vec![TokenType::Let, TokenType::Eof]);
    assert_eq!(
        scan_all("  // a\n\t// b\n\n  // c\r\n x"),
        vec![ident("x"), TokenType::Eof]
    );
    assert_eq!(scan_all("// a\n// b\n"), vec![TokenType::Eof]);
    let mut lexer = Lexer::new("1 // a\n   // b\n 2");
    assert_eq!(lexer.next_token().kind, TokenType::Int(1));
    assert_eq!(lexer.next_token().kind, TokenType::Int(2));
    assert_eq!(lexer.next_token().kind, TokenType::Eof);
}

#[test]
fn slash_is_a_comment_only_when_doubled() {
    assert_eq!(scan_all("/"), vec![TokenType::Slash, TokenType::Eof]);
    assert_eq!(
        scan_all("/ /"),
        vec![TokenType::Slash, TokenType::Slash, TokenType::Eof]
    );
    assert_eq!(
        scan_all("6 / 2"),
        vec![TokenType::Int(6), TokenType::Slash, TokenType::Int(2), TokenType::Eof]
    );
    assert_eq!(scan_all("6 /// 2"), vec![TokenType::Int(6), TokenType::Eof]);
    assert_eq!(
        scan_all("a/*b"),
        vec![ident("a"), TokenType::Slash, TokenType::Asterisk, ident("b"), TokenType::Eof]
    );
}

#[test]
fn illegal_character() {
    assert_eq!(scan_all("@"), vec![TokenType::Illegal, TokenType::Eof]);
}

#[test]
fn each_illegal_character_is_one_token() {
    assert_eq!(
        scan_all("@#x"),
        vec![TokenType::Illegal, TokenType::Illegal, ident("x"), TokenType::Eof]
    );
    assert_eq!(scan_all("\u{e9}"), vec![TokenType::Illegal, TokenType::Eof]);
    assert_eq!(
        scan_all("a\u{4e16}b"),
        vec![ident("a"), TokenType::Illegal, ident("b"), TokenType::Eof]
    );
}

#[test]
fn form_feed_and_vertical_tab_are_no_whitespace() {
    assert_eq!(scan_all("\u{c}"), vec![TokenType::Illegal, TokenType::Eof]);
    assert_eq!(scan_all("\u{b}"), vec![TokenType::Illegal, TokenType::Eof]);
    assert_eq!(scan_all("\u{a0}"), vec![TokenType::Illegal, TokenType::Eof]);
}

#[test]
fn let_five_end_to_end() {
    assert_eq!(
        scan_all("let five = 5;"),
        vec![
            TokenType::Let,
            ident("five"),
            TokenType::Assign,
            TokenType::Int(5),
            TokenType::Semicolon,
            TokenType::Eof,
        ]
    );
}

#[test]
fn a_small_program() {
    let input = "let add = fn(x, y) {\n  x + y;\n};\nif (5 < 10) { return true; } else { return false; }\n10 == 10; 10 != 9; !ok";
    assert_eq!(
        scan_all(input),
        vec![
            TokenType::Let,
            ident("add"),
            TokenType::Assign,
            TokenType::Function,
            TokenType::Lparen,
            ident("x"),
            TokenType::Comma,
            ident("y"),
            TokenType::Rparen,
            TokenType::Lbrace,
            ident("x"),
            TokenType::Plus,
            ident("y"),
            TokenType::Semicolon,
            TokenType::Rbrace,
            TokenType::Semicolon,
            TokenType::If,
            TokenType::Lparen,
            TokenType::Int(5),
            TokenType::Lt,
            TokenType::Int(10),
            TokenType::Rparen,
            TokenType::Lbrace,
            TokenType::Return,
            TokenType::True,
            TokenType::Semicolon,
            TokenType::Rbrace,
            TokenType::Else,
            TokenType::Lbrace,
            TokenType::Return,
            TokenType::False,
            TokenType::Semicolon,
            TokenType::Rbrace,
            TokenType::Int(10),
            TokenType::Eq,
            TokenType::Int(10),
            TokenType::Semicolon,
            TokenType::Int(10),
            TokenType::NotEq,
            TokenType::Int(9),
            TokenType::Semicolon,
            TokenType::Bang,
            ident("ok"),
            TokenType::Eof,
        ]
    );
}

#[test]
fn identifiers_hold_letters_and_underscores_only() {
    assert_eq!(scan_all("_a_B_"), vec![ident("_a_B_"), TokenType::Eof]);
    assert_eq!(scan_all("_"), vec![ident("_"), TokenType::Eof]);
    assert_eq!(
        scan_all("x1y"),
        vec![ident("x"), TokenType::Int(1), ident("y"), TokenType::Eof]
    );
    assert_eq!(
        scan_all("12ab"),
        vec![TokenType::Int(12), ident("ab"), TokenType::Eof]
    );
}

#[test]
fn keywords_need_the_whole_word() {
    assert_eq!(scan_all("letter"), vec![ident("letter"), TokenType::Eof]);
    assert_eq!(scan_all("fn_"), vec![ident("fn_"), TokenType::Eof]);
    assert_eq!(scan_all("Let"), vec![ident("Let"), TokenType::Eof]);
    assert_eq!(
        scan_all("if else"),
        vec![TokenType::If, TokenType::Else, TokenType::Eof]
    );
}

#[test]
fn end_of_input_repeats() {
    let mut lexer = Lexer::new("x");
    assert_eq!(lexer.next_token().kind, ident("x"));
    for _ in 0..5 {
        assert!(lexer.next_fits());
        assert_eq!(lexer.next_token(), Token { kind: TokenType::Eof });
    }
    let mut lexer = Lexer::new("");
    for _ in 0..5 {
        assert_eq!(lexer.next_token().kind, TokenType::Eof);
    }
    let mut lexer = Lexer::new("x   \n // done");
    assert_eq!(lexer.next_token().kind, ident("x"));
    for _ in 0..5 {
        assert_eq!(lexer.next_token().kind, TokenType::Eof);
    }
}

#[test]
fn nul_in_the_source_ends_the_input() {
    let mut lexer = Lexer::new("a\0b");
    assert_eq!(lexer.next_token().kind, ident("a"));
    for _ in 0..4 {
        assert_eq!(lexer.next_token().kind, TokenType::Eof);
    }
    assert_eq!(scan_all("\"ab\0cd\""), vec![string("ab"), TokenType::Eof]);
    assert_eq!(scan_all("// c\0\nx"), vec![TokenType::Eof]);
}

#[test]
fn two_scanners_over_one_text_are_independent() {
    let text = String::from("a b");
    let mut first = Lexer::new(&text);
    let mut second = Lexer::new(&text);
    assert_eq!(first.next_token().kind, ident("a"));
    assert_eq!(first.next_token().kind, ident("b"));
    assert_eq!(second.next_token().kind, ident("a"));
}
