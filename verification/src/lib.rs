//! A single-token-lookahead cursor over an abstract token stream.
//!
//! Grammar-specific parsers consume tokens through a uniform protocol —
//! advance, peek, conditionally match, assert-and-consume — without
//! re-implementing lookahead bookkeeping per grammar. The library is generic
//! over two capabilities: [`Token`], a classification tag plus the literal
//! text it came from, and [`Lexer`], a stateful producer of tokens. The
//! cursor, [`ParserState`], owns one lexer and buffers exactly one token of
//! lookahead.

pub mod cursor;
pub mod lexer;
pub mod token;

pub use cursor::ParseError;
pub use cursor::ParserState;
pub use lexer::Lexer;
pub use token::Token;
