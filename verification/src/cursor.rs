use crate::lexer::Lexer;
use crate::token::Token;
use vstd::prelude::*;
use vstd::string::StringExecFns;

verus! {

/// Error from a mandatory-match operation of the cursor.
#[derive(Debug, PartialEq, Eq)]
pub enum ParseError<E> {
    /// The underlying lexer failed while pulling the next token; its error
    /// is carried unchanged, never interpreted or masked.
    Lexical(E),
    /// The current token's tag was not the one the grammar required; the
    /// message names the expected tag and the actual unexpected lexeme.
    Syntax(String),
}

/// The message `expect` produces when the current token's tag is not the
/// expected one: the expected tag's rendering and the unexpected lexeme.
pub open spec fn got_message(expected: Seq<char>, found: Seq<char>) -> Seq<char> {
    "expected `"@ + expected + "` but got `"@ + found + "`"@
}

/// The message `expect_lexeme` produces when the current token's tag is not
/// the expected one: the same shape as `got_message`, worded with "found"
/// in place of "got".
pub open spec fn found_message(expected: Seq<char>, found: Seq<char>) -> Seq<char> {
    "expected `"@ + expected + "` but found `"@ + found + "`"@
}

/// A parser cursor: exclusive owner of one lexer, holding exactly one
/// buffered token of lookahead, named `current`. Once construction
/// succeeds, `current` always holds a valid token; replacing it always
/// happens by pulling exactly one new token from the owned lexer.
///
/// After any operation returns an error the cursor must be treated as
/// exhausted: no recovery is attempted internally, and a well-behaved
/// caller discards it.
pub struct ParserState<L: Lexer> {
    /// The owned token source. Public so that specifications stay
    /// transparent; pulling from it directly bypasses the lookahead
    /// discipline, so callers leave it to the cursor.
    pub lexer: L,
    /// The single token of unconsumed lookahead.
    pub current: L::Token,
}

impl<L: Lexer> ParserState<L> {
    /// What the next pull from the owned lexer will yield.
    pub open spec fn next_pull(&self) -> Result<L::Token, L::Error> {
        self.lexer.upcoming()
    }

    /// Whether the next pull from the owned lexer yields a token.
    pub open spec fn pull_succeeds(&self) -> bool {
        self.next_pull() is Ok
    }

    /// Whether the current token carries `tag`.
    pub open spec fn tag_matches(&self, tag: <L::Token as Token>::Tag) -> bool {
        self.current.tag_view() == tag
    }

    /// The condition under which `matches(tag)` returns `true`. It also
    /// governs the mandatory-match operations: `expect(tag)` succeeds, and
    /// `expect_lexeme(tag)` succeeds, exactly when it holds.
    pub open spec fn matches_returns_true(&self, tag: <L::Token as Token>::Tag) -> bool {
        self.tag_matches(tag) && self.pull_succeeds()
    }

    /// Creates a cursor by pulling one token from a freshly supplied lexer
    /// to seed `current`. Fails iff that first pull fails; the lexer's
    /// error is propagated verbatim, not wrapped, and no cursor is
    /// observable afterward.
    pub fn new(lexer: L) -> (r: Result<Self, L::Error>)
        ensures
            r is Ok <==> lexer.upcoming() is Ok,
            r is Ok ==> r->Ok_0.current == lexer.upcoming()->Ok_0,
            r is Err ==> r->Err_0 == lexer.upcoming()->Err_0,
    {
        let mut source = lexer;
        match source.next_token() {
            Ok(first) => Ok(ParserState { lexer: source, current: first }),
            Err(e) => Err(e),
        }
    }

    /// Discards `current`, pulls the next token from the owned lexer, and
    /// stores it as the new `current`. Fails iff the pull fails; the
    /// lexer's error is propagated verbatim and `current` keeps the old
    /// token, but the cursor must then be discarded.
    pub fn advance(&mut self) -> (r: Result<(), L::Error>)
        ensures
            r is Ok <==> old(self).pull_succeeds(),
            r is Ok ==> final(self).current == old(self).next_pull()->Ok_0,
            r is Err ==> r->Err_0 == old(self).next_pull()->Err_0
                && final(self).current == old(self).current,
    {
        match self.lexer.next_token() {
            Ok(next) => {
                self.current = next;
                Ok(())
            },
            Err(e) => Err(e),
        }
    }

    /// Saves `current`, performs `advance`, and returns the saved token:
    /// one pull from the lexer, regardless of the token's tag. Used when
    /// the grammar needs the literal text or tag of the token it consumes.
    pub fn advance_keep_current(&mut self) -> (r: Result<L::Token, L::Error>)
        ensures
            r is Ok <==> old(self).pull_succeeds(),
            r is Ok ==> r->Ok_0 == old(self).current
                && final(self).current == old(self).next_pull()->Ok_0,
            r is Err ==> r->Err_0 == old(self).next_pull()->Err_0
                && final(self).current == old(self).current,
    {
        match self.lexer.next_token() {
            Ok(next) => {
                let mut kept = next;
                core::mem::swap(&mut self.current, &mut kept);
                Ok(kept)
            },
            Err(e) => Err(e),
        }
    }

    /// Non-destructive probe with conditional consumption: if `current`'s
    /// tag equals `expected_tag`, advances and returns `true`; otherwise
    /// performs no mutation at all and returns `false`. Fails only when the
    /// tag matched but the replacing pull failed, with the lexer's error
    /// verbatim.
    pub fn matches(&mut self, expected_tag: <L::Token as Token>::Tag) -> (r: Result<
        bool,
        L::Error,
    >)
        ensures
            r == Ok::<bool, L::Error>(true) <==> old(self).matches_returns_true(expected_tag),
            r is Err <==> old(self).tag_matches(expected_tag) && !old(self).pull_succeeds(),
            !old(self).tag_matches(expected_tag) ==> r == Ok::<bool, L::Error>(false)
                && *final(self) == *old(self),
            r == Ok::<bool, L::Error>(true)
                ==> final(self).current == old(self).next_pull()->Ok_0,
            r is Err ==> old(self).tag_matches(expected_tag)
                && r->Err_0 == old(self).next_pull()->Err_0
                && final(self).current == old(self).current,
    {
        let tag = self.current.tag();
        let is_match = <L::Token as Token>::tag_eq(&tag, &expected_tag);
        if is_match {
            match self.advance() {
                Ok(()) => Ok(true),
                Err(e) => Err(e),
            }
        } else {
            Ok(false)
        }
    }

    /// Mandatory consumption: if `current`'s tag equals `expected_tag`,
    /// advances; otherwise mutates nothing and fails with a message naming
    /// the expected tag's rendering and the actual unexpected lexeme.
    /// Succeeds exactly when `matches(expected_tag)` would return `true`.
    pub fn expect(&mut self, expected_tag: <L::Token as Token>::Tag) -> (r: Result<
        (),
        ParseError<L::Error>,
    >)
        ensures
            r is Ok <==> old(self).matches_returns_true(expected_tag),
            r is Ok ==> final(self).current == old(self).next_pull()->Ok_0,
            !old(self).tag_matches(expected_tag) ==> *final(self) == *old(self)
                && (r matches Err(pe) && pe matches ParseError::Syntax(m) && m@ == got_message(
                <L::Token as Token>::tag_text(expected_tag),
                old(self).current.lexeme_view(),
            )),
            old(self).tag_matches(expected_tag) && !old(self).pull_succeeds() ==> r
                == Err::<(), ParseError<L::Error>>(
                ParseError::Lexical(old(self).next_pull()->Err_0),
            ) && final(self).current == old(self).current,
    {
        let tag = self.current.tag();
        if <L::Token as Token>::tag_eq(&tag, &expected_tag) {
            match self.advance() {
                Ok(()) => Ok(()),
                Err(e) => Err(ParseError::Lexical(e)),
            }
        } else {
            let shown = <L::Token as Token>::render_tag(&expected_tag);
            let mut message = "expected `".to_owned();
            message.append(shown.as_str());
            message.append("` but got `");
            message.append(self.current.lexeme());
            message.append("`");
            Err(ParseError::Syntax(message))
        }
    }

    /// Mandatory consumption that captures text: if `current`'s tag equals
    /// `tag`, consumes the token and returns its lexeme as an owned string;
    /// otherwise mutates nothing and fails with the same diagnostic shape
    /// as `expect`. Succeeds exactly when `expect(tag)` would succeed, and
    /// on success returns the lexeme of the token that was current before
    /// the call.
    pub fn expect_lexeme(&mut self, tag: <L::Token as Token>::Tag) -> (r: Result<
        String,
        ParseError<L::Error>,
    >)
        ensures
            r is Ok <==> old(self).matches_returns_true(tag),
            r is Ok ==> r->Ok_0@ == old(self).current.lexeme_view()
                && final(self).current == old(self).next_pull()->Ok_0,
            !old(self).tag_matches(tag) ==> *final(self) == *old(self)
                && (r matches Err(pe) && pe matches ParseError::Syntax(m) && m@ == found_message(
                <L::Token as Token>::tag_text(tag),
                old(self).current.lexeme_view(),
            )),
            old(self).tag_matches(tag) && !old(self).pull_succeeds() ==> r
                == Err::<String, ParseError<L::Error>>(
                ParseError::Lexical(old(self).next_pull()->Err_0),
            ) && final(self).current == old(self).current,
    {
        let current_tag = self.current.tag();
        if <L::Token as Token>::tag_eq(&current_tag, &tag) {
            match self.advance_keep_current() {
                Ok(consumed) => Ok(consumed.lexeme().to_owned()),
                Err(e) => Err(ParseError::Lexical(e)),
            }
        } else {
            let shown = <L::Token as Token>::render_tag(&tag);
            let mut message = "expected `".to_owned();
            message.append(shown.as_str());
            message.append("` but found `");
            message.append(self.current.lexeme());
            message.append("`");
            Err(ParseError::Syntax(message))
        }
    }
}

} // verus!
