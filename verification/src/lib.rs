//! A lexing-and-parsing toolkit for C-family source text.
//!
//! Source text is scanned into a flat sequence of position-tagged units,
//! which a work-stack builder folds into a nested token tree. A cursor
//! framework offers read-only lookahead and an atomic speculative-advance
//! primitive on which grammar rules are built, and an emission framework
//! turns syntax values back into token trees.

pub mod chars;
pub mod error;
pub mod lex;
pub mod parse;
pub mod pos;
pub mod stream;
pub mod to_tokens;
pub mod tokens;

pub use error::Error;
pub use parse::{Parse, ParseBuffer};
pub use pos::Pos;
pub use stream::{Cursor, Literal, TokenCell, TokenStream, TokenTree};
pub use to_tokens::{braced, bracketed, multiple, parenthesized, to_tokens, Delimited, Multiple, ToTokens};
pub use tokens::{Delimeter, Keyword, Punct, PunctMatch, Token};
