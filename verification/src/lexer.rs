use crate::token::Token;
use vstd::pervasive::arbitrary;
use vstd::prelude::*;

verus! {

/// The lexer capability: a stateful producer that, when asked, yields the
/// next token or fails with an error of its own choosing. Calls are strictly
/// sequential and side-effecting; no rewind or random access is assumed.
///
/// `upcoming` is the specification-level model of the producer: the outcome
/// the very next pull will yield, as a function of the lexer's state. The
/// cursor's contracts are stated against it. What a lexer does past end of
/// input is its own business — a common choice is to keep yielding a
/// dedicated end-of-input token — as long as each state determines the next
/// outcome.
pub trait Lexer: Sized {
    /// The token type this lexer produces.
    type Token: Token;

    /// The error a failed pull reports. The failure taxonomy (malformed
    /// input, premature end of stream, encoding errors, ...) belongs to the
    /// concrete lexer, not to the cursor, which propagates it unchanged.
    type Error;

    /// The outcome of the next pull, as specifications see it. The default
    /// says nothing; a verified implementation overrides it so that
    /// `next_token`'s contract carries meaning.
    open spec fn upcoming(&self) -> Result<Self::Token, Self::Error> {
        arbitrary()
    }

    /// Produces the next token, or fails; either way the call consumes
    /// forward progress from whatever source the lexer wraps.
    fn next_token(&mut self) -> (r: Result<Self::Token, Self::Error>)
        ensures
            r == old(self).upcoming(),
    ;
}

} // verus!
