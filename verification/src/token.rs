use vstd::pervasive::arbitrary;
use vstd::prelude::*;

verus! {

/// The token capability: a classification tag plus the literal source text
/// the token was derived from. Both are immutable for the lifetime of a
/// token — a token is a snapshot, never mutated after creation.
///
/// A tag must support a deterministic equality test (`tag_eq`) and a stable
/// human-readable rendering (`render_tag`); any enumeration-like value type
/// satisfies this. `tag_view`, `lexeme_view` and `tag_text` are the
/// specification-level readings of the three accessors, and every contract
/// of the cursor is stated over them. Their defaults say nothing; an
/// implementation that is itself verified overrides them so that the
/// accessors' contracts carry meaning, while an unverified one can leave
/// them alone.
pub trait Token: Sized {
    /// The classification of a token (identifier, operator, end of input,
    /// ...), independent of its literal text.
    type Tag;

    /// The tag of this token, as specifications see it.
    open spec fn tag_view(&self) -> Self::Tag {
        arbitrary()
    }

    /// The lexeme of this token, as specifications see it.
    open spec fn lexeme_view(&self) -> Seq<char> {
        arbitrary()
    }

    /// The human-readable rendering of a tag, as specifications see it.
    open spec fn tag_text(tag: Self::Tag) -> Seq<char> {
        arbitrary()
    }

    /// The classification tag of this token.
    fn tag(&self) -> (t: Self::Tag)
        ensures
            t == self.tag_view(),
    ;

    /// The literal source text this token was derived from.
    fn lexeme(&self) -> (s: &str)
        ensures
            s@ == self.lexeme_view(),
    ;

    /// Whether two tags are the same classification.
    fn tag_eq(a: &Self::Tag, b: &Self::Tag) -> (r: bool)
        ensures
            r == (*a == *b),
    ;

    /// Renders a tag for a diagnostic message.
    fn render_tag(tag: &Self::Tag) -> (s: String)
        ensures
            s@ == Self::tag_text(*tag),
    ;
}

} // verus!
