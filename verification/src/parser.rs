//! The source cursor and the parser-combinator engine.
use crate::pattern::Pattern;
use crate::pattern::regex_find;
use vstd::prelude::*;

verus! {

/// The mathematical model of a cursor: the full text and the offset into it,
/// both as unbounded values. Offsets count characters.
#[verifier::ext_equal]
pub struct SourceModel {
    pub text: Seq<char>,
    pub index: int,
}

impl SourceModel {
    /// The offset lies inside the text (one past the end included).
    pub open spec fn wf(self) -> bool {
        0 <= self.index <= self.text.len()
    }

    /// The unconsumed suffix of the text.
    pub open spec fn remaining(self) -> Seq<char> {
        self.text.skip(self.index)
    }

    /// The cursor `n` characters further into the same text.
    pub open spec fn advanced(self, n: nat) -> SourceModel {
        SourceModel { text: self.text, index: self.index + n }
    }
}

/// An immutable view of the full input text plus a current offset.
#[derive(Debug)]
pub struct Source {
    pub string: String,
    pub index: usize,
}

impl View for Source {
    type V = SourceModel;

    open spec fn view(&self) -> SourceModel {
        SourceModel { text: self.string@, index: self.index as int }
    }
}

impl Clone for Source {
    fn clone(&self) -> (r: Self)
        ensures
            r == *self,
    {
        Source { string: self.string.clone(), index: self.index }
    }
}

impl Source {
    /// The offset never runs past the end of the text.
    pub open spec fn wf(self) -> bool {
        self@.wf()
    }

    /// The initial cursor of a parse session: offset zero.
    pub fn new(string: &str) -> (r: Self)
        ensures
            r@ == (SourceModel { text: string@, index: 0 }),
            r.wf(),
    {
        Self::with_index(string, 0)
    }

    /// A cursor at the given character offset into `string`.
    pub fn with_index(string: &str, index: usize) -> (r: Self)
        requires
            index <= string@.len(),
        ensures
            r@ == (SourceModel { text: string@, index: index as int }),
            r.wf(),
    {
        Source { string: String::from_str(string), index }
    }

    /// Attempt an anchored match at the current offset. The pattern is tried
    /// against the suffix of the text that begins at `index`, so a pattern
    /// anchored with `^` binds to the current offset, not to the start of the
    /// whole buffer. On a match the matched text is returned together with a
    /// new cursor advanced past it; on no match the cursor in hand is simply
    /// left as it was.
    pub fn sticky_match(&self, regexp: &Pattern) -> (r: Option<ParseResult<String>>)
        requires
            self.wf(),
        ensures
            r matches Some(pr) ==> regex_find(regexp@, self@.remaining()) == Some(pr.value@)
                && pr.source@ == self@.advanced(pr.value@.len())
                && pr.source.wf(),
            r is None ==> regex_find(regexp@, self@.remaining()) is None,
    {
        // The character length of the whole text bounds the advanced offset,
        // so the addition below cannot overflow.
        let total: usize = self.string.as_str().unicode_len();
        match regexp.find_in(self.string.as_str(), self.index) {
            Some(m) => {
                let n: usize = m.as_str().unicode_len();
                assert(self.index + n <= total);
                let source = Source { string: self.string.clone(), index: self.index + n };
                Some(ParseResult::new(m, source))
            },
            None => None,
        }
    }
}

/// One successful, deterministic parse step: the value produced and the
/// cursor left standing after it.
#[derive(Debug)]
pub struct ParseResult<T> {
    pub value: T,
    pub source: Source,
}

impl<T> ParseResult<T> {
    pub fn new(value: T, source: Source) -> (r: Self)
        ensures
            r == (ParseResult { value, source }),
    {
        Self { value, source }
    }
}

/// A value a combinator can produce. The combinator engine is generic in its
/// value type; a `Pattern` combinator produces the matched text, so a value
/// type says, at the level of its abstract view, which value stands for a
/// matched text, and supplies the two executable operations the engine needs.
pub trait ParseValue: View + Sized {
    /// The abstract value that stands for the matched text `m`.
    spec fn of_match(m: Seq<char>) -> Self::V;

    /// Build the value standing for the matched text `m`.
    fn from_match(m: String) -> (r: Self)
        ensures
            r@ == Self::of_match(m@),
    ;

    /// An exact copy, as a combinator hands out its owned constant.
    fn duplicate(&self) -> (r: Self)
        ensures
            r@ == self@,
    ;
}

impl ParseValue for String {
    /// A matched text stands for itself.
    open spec fn of_match(m: Seq<char>) -> Seq<char> {
        m
    }

    fn from_match(m: String) -> (r: Self) {
        m
    }

    fn duplicate(&self) -> (r: Self) {
        self.clone()
    }
}

/// What one attempt of a combinator comes to, at the level of the model:
/// a value and the advanced cursor, a recoverable non-match, or an
/// unrecoverable abort carrying a diagnostic message. The two failing forms
/// are deliberately distinct: an enclosing choice recovers from `NoMatch` and
/// never from `Aborted`.
pub enum Outcome<V> {
    Matched { value: V, rest: SourceModel },
    NoMatch,
    Aborted { message: Seq<char> },
}

/// One parsing strategy, as a closed set of variants. Composition always
/// wraps existing combinators in a new one; a built combinator is never
/// mutated.
pub enum Parser<T> {
    /// Always succeeds with the owned value and leaves the cursor unchanged.
    Constant { value: T },
    /// Always aborts the whole parse with the owned diagnostic message.
    Error { message: String },
    /// Ordered choice: try `left`, and on its non-match try `right` from the
    /// very same cursor.
    Or { left: Box<Parser<T>>, right: Box<Parser<T>> },
    /// Anchored pattern match at the current offset; the matched text becomes
    /// the produced value.
    Regexp { regex: Pattern },
}

/// The meaning of one attempt: a pure function of the combinator and the
/// cursor model. `parse` is proved to return exactly this.
pub open spec fn spec_parse<T: ParseValue>(p: Parser<T>, src: SourceModel) -> Outcome<T::V>
    decreases p,
{
    match p {
        Parser::Constant { value } => Outcome::Matched { value: value@, rest: src },
        Parser::Error { message } => Outcome::Aborted { message: message@ },
        Parser::Or { left, right } => match spec_parse(*left, src) {
            Outcome::NoMatch => spec_parse(*right, src),
            o => o,
        },
        Parser::Regexp { regex } => match regex_find(regex@, src.remaining()) {
            Some(m) => Outcome::Matched { value: T::of_match(m), rest: src.advanced(m.len()) },
            None => Outcome::NoMatch,
        },
    }
}

impl<T: ParseValue> Parser<T> {
    /// A combinator that always succeeds with `value` and consumes nothing.
    pub fn constant(value: T) -> (r: Self)
        ensures
            r == (Parser::Constant { value }),
            forall|src: SourceModel| #[trigger] spec_parse(r, src) == (Outcome::<T::V>::Matched {
                value: value@,
                rest: src,
            }),
    {
        Parser::Constant { value }
    }

    /// A combinator that always aborts the whole parse with `message`: the
    /// escape hatch for grammar paths that are structurally impossible.
    pub fn error(message: &str) -> (r: Self)
        ensures
            r matches Parser::Error { message: m } && m@ == message@,
            forall|src: SourceModel| #[trigger] spec_parse(r, src) == (Outcome::<T::V>::Aborted {
                message: message@,
            }),
    {
        Parser::Error { message: String::from_str(message) }
    }

    /// Ordered choice of `self` and `right`, left-biased: the built
    /// combinator yields whatever `self` yields, except that on `self`'s
    /// non-match it yields whatever `right` yields from the same cursor.
    pub fn or(self, right: Self) -> (r: Self)
        ensures
            r matches Parser::Or { left: l, right: rr } && *l == self && *rr == right,
            forall|src: SourceModel| #[trigger] spec_parse(r, src) == (match spec_parse(
                self,
                src,
            ) {
                Outcome::NoMatch => spec_parse(right, src),
                o => o,
            }),
    {
        Parser::Or { left: Box::new(self), right: Box::new(right) }
    }

    /// Attempt this combinator from `source`. The result is exactly what
    /// [`spec_parse`] says: a value with the advanced cursor, `Ok(None)` for
    /// a recoverable non-match, or `Err` with the diagnostic message of the
    /// `Error` combinator that aborted the attempt — an abort is never
    /// returned as a mere non-match.
    pub fn parse(&self, source: Source) -> (r: Result<Option<ParseResult<T>>, String>)
        requires
            source.wf(),
        ensures
            match spec_parse(*self, source@) {
                Outcome::Matched { value, rest } => r matches Ok(Some(pr)) && pr.value@ == value
                    && pr.source@ == rest && pr.source.wf(),
                Outcome::NoMatch => r matches Ok(None),
                Outcome::Aborted { message } => r matches Err(e) && e@ == message,
            },
        decreases *self,
    {
        match self {
            Parser::Constant { value } => Ok(Some(ParseResult::new(value.duplicate(), source))),
            Parser::Error { message } => Err(message.clone()),
            Parser::Or { left, right } => match left.parse(source.clone()) {
                Ok(Some(pr)) => Ok(Some(pr)),
                Ok(None) => right.parse(source),
                Err(e) => Err(e),
            },
            Parser::Regexp { regex } => match source.sticky_match(regex) {
                Some(pr) => Ok(Some(ParseResult::new(T::from_match(pr.value), pr.source))),
                None => Ok(None),
            },
        }
    }
}

/// A pattern that matches at the very start of the text: on a fresh cursor
/// (offset zero) a pattern combinator yields the value standing for the
/// matched text and a cursor whose offset is exactly the matched length.
pub proof fn lemma_match_at_start<T: ParseValue>(p: Parser<T>, src: SourceModel)
    ensures
        p matches Parser::Regexp { regex } ==> (src.index == 0 ==> (regex_find(
            regex@,
            src.text,
        ) matches Some(m) ==> spec_parse(p, src) == (Outcome::<T::V>::Matched {
            value: T::of_match(m),
            rest: SourceModel { text: src.text, index: m.len() as int },
        }))),
{
    if src.index == 0 {
        assert(src.remaining() =~= src.text);
    }
}

/// Chained matches compose: advancing the cursor past one match and then
/// past a second is advancing it past their concatenation — the final offset
/// is the starting offset plus the sum of the two matched lengths, and each
/// advance leaves as remaining text exactly the old remaining text with the
/// consumed prefix dropped.
pub proof fn lemma_advance_composes(src: SourceModel, n1: nat, n2: nat)
    requires
        src.wf(),
        src.index + n1 + n2 <= src.text.len(),
    ensures
        src.advanced(n1).advanced(n2) == src.advanced(n1 + n2),
        src.advanced(n1).wf(),
        src.advanced(n1).remaining() == src.remaining().skip(n1 as int),
{
    assert(src.advanced(n1).advanced(n2) =~= src.advanced(n1 + n2));
    assert(src.advanced(n1).remaining() =~= src.remaining().skip(n1 as int));
}

/// Choice left-bias: a choice whose left branch is a constant always yields
/// the left value with the cursor unchanged, whatever its right branch and
/// wherever the cursor stands — the right branch is never consulted.
pub proof fn lemma_choice_left_bias<T: ParseValue>(p: Parser<T>, src: SourceModel)
    ensures
        p matches Parser::Or { left, .. } ==> (*left matches Parser::Constant { value }
            ==> spec_parse(p, src) == (Outcome::<T::V>::Matched { value: value@, rest: src })),
{
    match p {
        Parser::Or { left, .. } => match *left {
            Parser::Constant { value } => {
                assert(spec_parse(*left, src) == (Outcome::<T::V>::Matched {
                    value: value@,
                    rest: src,
                }));
            },
            _ => {},
        },
        _ => {},
    }
}

/// Choice fallback, and no side channel between the branches: when the left
/// branch comes to a non-match, the choice yields exactly what the right
/// branch yields from the very same original cursor — the failed left
/// attempt leaves no trace the right branch could see.
pub proof fn lemma_choice_fallback<T: ParseValue>(p: Parser<T>, src: SourceModel)
    ensures
        p matches Parser::Or { left, right } ==> (spec_parse(*left, src) is NoMatch
            ==> spec_parse(p, src) == spec_parse(*right, src)),
{
}

/// Failure propagation: an abort is never treated as a mere non-match. A
/// choice whose attempted branch aborts — the left one, or the right one
/// after the left's non-match — aborts as a whole with the same message, so
/// an abort unwinds past any depth of nested choices.
pub proof fn lemma_choice_keeps_abort<T: ParseValue>(p: Parser<T>, src: SourceModel)
    ensures
        p matches Parser::Or { left, .. } ==> (spec_parse(*left, src) matches Outcome::Aborted {
            message,
        } ==> spec_parse(p, src) == (Outcome::<T::V>::Aborted { message })),
        p matches Parser::Or { left, right } ==> (spec_parse(*left, src) is NoMatch ==> (
        spec_parse(*right, src) matches Outcome::Aborted { message } ==> spec_parse(p, src)
            == (Outcome::<T::V>::Aborted { message }))),
{
}

impl Parser<String> {
    /// A combinator that matches the anchored pattern at the current offset
    /// and produces the matched text.
    pub fn regexp(regex: Pattern) -> (r: Self)
        ensures
            r matches Parser::Regexp { regex: p } && p@ == regex@,
            forall|src: SourceModel| #[trigger] spec_parse(r, src) == (match regex_find(
                regex@,
                src.remaining(),
            ) {
                Some(m) => Outcome::<Seq<char>>::Matched { value: m, rest: src.advanced(m.len()) },
                None => Outcome::<Seq<char>>::NoMatch,
            }),
    {
        Parser::Regexp { regex }
    }
}


} // verus!
