//! A lexical scanner for a small C-like scripting language.
//!
//! [`Lexer`] walks a borrowed piece of source text one character at a time
//! and hands out one [`token::Token`] per call. What each call returns is
//! fixed by the spec functions of [`grammar`], and the facts that tie several
//! calls together are proved in [`laws`].

pub mod chars;
pub mod grammar;
pub mod laws;
pub mod number;
pub mod scanner;
pub mod token;

pub use scanner::Lexer;
