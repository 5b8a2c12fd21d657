//! The parser: a cursor over the tokens, the list of diagnostics, the
//! typedef names in scope, and the means to try a rule and take it back.
//!
//! The grammar rules themselves are in the submodules. They call each
//! other recursively. A rule either succeeds and returns a tree, or fails
//! and records a diagnostic. Each rule states that it succeeds exactly
//! where the grammar reads a tree ([`crate::grammar`]), and that the
//! tree and the cursor behind it are those that the grammar gives. It
//! states of its tree besides
//!
//! - that it lies over exactly the tokens that the rule has moved the
//!   cursor across, with every location in it that of the token in
//!   question, and in the shape that the grammar asks for (see
//!   [`crate::span`]);
//! - that the typedef names which it uses as types were declared before
//!   (see [`crate::scope`]);
//! - which typedef names the rule has declared (see [`crate::typedefs`]);
//!
//! and of the state that nothing recorded before is lost
//! ([`ParserState::follows`]), which is what lets [`Parser::settle`]
//! take back a failed attempt exactly, and that a rule which succeeds
//! leaves no diagnostics behind but those for enum specifiers that lack
//! a tag ([`adds_missing_tags_only`]).
//!
//! Each rule is proved by a prover of its own, so that what one proof
//! unfolds of the grammar does not weigh on the others.
//!
//! Termination: every rule decreases the pair of the number of tokens
//! that are left and a rank. A rule calls a rule of lower rank, or has
//! moved the cursor before the call.

use crate::ast::{AttributeSpecifierSequence, TranslationUnit};
use crate::grammar::declarations::translation_unit_at;
use crate::token::{At, Token, TokenKind};
use vstd::prelude::*;

pub mod declarations;
pub mod declarators;
pub mod expressions;
pub mod statements;
pub mod types;

verus! {

/// What a rule would have accepted where it failed.
#[derive(Copy, Clone, Debug, PartialEq, Eq)]
pub enum Expected<'a> {
    Token(TokenKind<'a>),
    PrimaryExpression,
    Identifier,
    AssignmentOperator,
    DeclarationSpecifier,
    StorageClassSpecifier,
    TypeSpecifier,
    StructOrUnion,
    TypeSpecifierQualifier,
    TypeofSpecifierArgument,
    TypeQualifier,
    AlignasArgument,
    ParameterDeclarationDeclarator,
    DirectAbstractDeclarator,
    Initializer,
    StringLiteral,
    Statement,
    UnlabeledStatement,
    PrimaryBlock,
    BlockItem,
    SelectionStatement,
    IterationStatement,
    JumpStatement,
    ExternalDeclaration,
}

/// A diagnostic: the token at which a rule failed, and what it expected.
#[derive(Copy, Clone, Debug, PartialEq, Eq)]
pub struct ParseErr<'a> {
    pub at: Token<'a>,
    pub expected: Expected<'a>,
}

/// What a rule returns: a tree, or a failure.
pub type Res<T> = Result<T, ()>;

/// An end marker lies at `from` or after it.
pub open spec fn eof_ahead(tokens: Seq<Token>, from: int) -> bool {
    exists|j: int| from <= j < tokens.len() && (#[trigger] tokens[j]).kind is Eof
}

/// `later` starts with all of `earlier`.
pub open spec fn keeps<T>(earlier: Seq<T>, later: Seq<T>) -> bool {
    &&& earlier.len() <= later.len()
    &&& forall|i: int| 0 <= i < earlier.len() ==> #[trigger] later[i] == earlier[i]
}

/// The diagnostic stands for the missing tag of an enum specifier: an
/// identifier was expected at a token right behind `enum`.
pub open spec fn is_missing_tag(tokens: Seq<Token>, error: ParseErr) -> bool {
    &&& error.expected == Expected::Identifier
    &&& exists|k: int|
        0 < k < tokens.len() && (#[trigger] tokens[k - 1]).kind is Enum && tokens[k] == error.at
}

/// The diagnostics that `later` holds behind those of `earlier` all stand
/// for missing tags of enum specifiers. Such are the diagnostics that a
/// rule leaves behind where it succeeds: an enum specifier without a tag
/// and without enumerators is read, with a diagnostic.
pub open spec fn adds_missing_tags_only(
    tokens: Seq<Token>,
    earlier: Seq<ParseErr>,
    later: Seq<ParseErr>,
) -> bool {
    forall|i: int| earlier.len() <= i < later.len() ==> is_missing_tag(tokens, #[trigger] later[i])
}

/// The state of a parser.
///
/// The typedef scopes are kept as one stack of names: `names` holds the
/// names of all open scopes, those of the innermost scope last, and
/// `marks` holds, for each open scope, the length that `names` had when
/// the scope was opened.
pub struct ParserState<'a> {
    pub tokens: Seq<Token<'a>>,
    pub index: int,
    pub errors: Seq<ParseErr<'a>>,
    pub names: Seq<&'a str>,
    pub marks: Seq<usize>,
}

impl<'a> ParserState<'a> {
    /// The state of a parser in front of the first of `tokens`.
    pub open spec fn initial(tokens: Seq<Token<'a>>) -> Self {
        ParserState {
            tokens,
            index: 0,
            errors: Seq::empty(),
            names: Seq::empty(),
            marks: Seq::empty(),
        }
    }

    /// The cursor is on a token, and has not passed the end marker; the
    /// typedef names can be counted.
    pub open spec fn wf(self) -> bool {
        &&& 0 <= self.index
        &&& eof_ahead(self.tokens, self.index)
        &&& self.names.len() <= usize::MAX
    }

    /// The token under the cursor.
    pub open spec fn current(self) -> Token<'a> {
        self.tokens[self.index]
    }

    /// Whether `name` is a typedef name in one of the open scopes.
    pub open spec fn is_typedef_name(self, name: Seq<char>) -> bool {
        exists|i: int| 0 <= i < self.names.len() && (#[trigger] self.names[i])@ == name
    }

    /// What every rule keeps to, whether it succeeds or fails: it reads
    /// the same tokens, the cursor does not move back, and nothing that
    /// was there before is lost: diagnostics, typedef names and open
    /// scopes are only added behind those of `pre`.
    pub open spec fn follows(self, pre: Self) -> bool {
        &&& self.tokens == pre.tokens
        &&& self.wf()
        &&& pre.index <= self.index
        &&& keeps(pre.errors, self.errors)
        &&& keeps(pre.names, self.names)
        &&& keeps(pre.marks, self.marks)
    }

    /// How many tokens lie at the cursor and after it.
    pub open spec fn left(self) -> nat {
        (self.tokens.len() - self.index) as nat
    }

    /// What a rule that succeeds has done: it has moved the cursor forward
    /// to `end`, has closed every scope that it opened, and has declared
    /// no typedef name. The diagnostics that it leaves behind are of one
    /// kind.
    pub open spec fn reached(self, pre: Self, end: Option<int>) -> bool {
        &&& self.follows(pre)
        &&& adds_missing_tags_only(self.tokens, pre.errors, self.errors)
        &&& self.marks.len() == pre.marks.len()
        &&& self.names == pre.names
        &&& pre.index < self.index
        &&& end == Some(self.index)
    }

    /// As [`Self::reached`], for a rule that may succeed without moving
    /// the cursor.
    pub open spec fn covered(self, pre: Self, end: Option<int>) -> bool {
        &&& self.follows(pre)
        &&& adds_missing_tags_only(self.tokens, pre.errors, self.errors)
        &&& self.marks.len() == pre.marks.len()
        &&& self.names == pre.names
        &&& end == Some(self.index)
    }

    /// As [`Self::reached`], for a rule that declares the typedef names
    /// `names` in the innermost scope.
    pub open spec fn declared(self, pre: Self, end: Option<int>, names: Seq<&'a str>) -> bool {
        &&& self.follows(pre)
        &&& adds_missing_tags_only(self.tokens, pre.errors, self.errors)
        &&& self.marks.len() == pre.marks.len()
        &&& self.names == pre.names + names
        &&& pre.index < self.index
        &&& end == Some(self.index)
    }

    /// The result `r` of a rule and the cursor behind it are what the
    /// grammar gives: the tree and the position behind it, or a failure
    /// where the grammar reads nothing.
    pub open spec fn gives<T>(self, r: Res<T>, out: Option<(T, int)>) -> bool {
        match out {
            Some((tree, end)) => r == Ok::<T, ()>(tree) && self.index == end,
            None => r is Err,
        }
    }

    /// What a rule that fails where it began has done: nothing but to
    /// record what it expected at the token under the cursor.
    pub open spec fn failed_with(self, pre: Self, expected: Expected<'a>) -> bool {
        self == (ParserState {
            errors: pre.errors.push(ParseErr { at: pre.current(), expected }),
            ..pre
        })
    }

    /// The state with the innermost scope closed: its names are gone.
    pub open spec fn closed(self) -> Self {
        if self.marks.len() == 0 {
            self
        } else if self.marks.last() <= self.names.len() {
            ParserState {
                names: self.names.subrange(0, self.marks.last() as int),
                marks: self.marks.drop_last(),
                ..self
            }
        } else {
            ParserState { marks: self.marks.drop_last(), ..self }
        }
    }

    /// The state with one more scope opened.
    pub open spec fn opened(self) -> Self {
        ParserState { marks: self.marks.push(self.names.len() as usize), ..self }
    }
}

/// What follows a state that follows another follows that one too: however
/// many rules have run since an attempt began, what [`Parser::settle`]
/// asks for holds. The lemma is there for callers that chain the
/// primitives themselves; the rules get the same from their contracts
/// without a call.
pub proof fn lemma_follows_is_transitive<'a>(
    first: ParserState<'a>,
    second: ParserState<'a>,
    third: ParserState<'a>,
)
    requires
        second.follows(first),
        third.follows(second),
    ensures
        third.follows(first),
{
}

/// Where a speculative attempt began.
pub struct Checkpoint<'a> {
    index: usize,
    errors: usize,
    names: usize,
    marks: usize,
    origin: Ghost<ParserState<'a>>,
}

impl<'a> Checkpoint<'a> {
    /// The state in which the attempt began.
    pub closed spec fn origin(self) -> ParserState<'a> {
        self.origin@
    }

    /// The checkpoint holds the cursor and the lengths of the state in
    /// which the attempt began.
    pub closed spec fn wf(self) -> bool {
        &&& self.index == self.origin@.index
        &&& self.errors == self.origin@.errors.len()
        &&& self.names == self.origin@.names.len()
        &&& self.marks == self.origin@.marks.len()
    }
}

/// A parser over a slice of tokens.
pub struct Parser<'a, 'b> {
    tokens: &'b [Token<'a>],
    index: usize,
    errors: Vec<ParseErr<'a>>,
    names: Vec<&'a str>,
    marks: Vec<usize>,
}

impl<'a, 'b> View for Parser<'a, 'b> {
    type V = ParserState<'a>;

    closed spec fn view(&self) -> ParserState<'a> {
        ParserState {
            tokens: self.tokens@,
            index: self.index as int,
            errors: self.errors@,
            names: self.names@,
            marks: self.marks@,
        }
    }
}

impl<'a, 'b> Parser<'a, 'b> {
    /// A parser in front of the first of `tokens`.
    pub fn new(tokens: &'b [Token<'a>]) -> (parser: Self)
        ensures
            parser@ == ParserState::initial(tokens@),
    {
        Self { tokens, index: 0, errors: Vec::new(), names: Vec::new(), marks: Vec::new() }
    }

    /// Parses the tokens as a translation unit. Returns the tree, or the
    /// failure, and the diagnostics.
    ///
    /// The tokens hold an end marker; the parser does not read past the
    /// first one. The result is what the grammar gives from the first
    /// token with no typedef name declared
    /// ([`translation_unit_at`]): the tree of as many external
    /// declarations as can be read, which lies over the tokens up to the
    /// position that the grammar gives; the diagnostics that come with
    /// it stand for enum specifiers that lack a tag. Parsing fails where
    /// no external declaration can be read from the first token, and
    /// only there; the only diagnostic then says so.
    pub fn parse(self) -> (r: (Result<TranslationUnit<'a>, ()>, Vec<ParseErr<'a>>))
        requires
            self@ == ParserState::initial(self@.tokens),
            eof_ahead(self@.tokens, 0),
        ensures
            match translation_unit_at(self@.tokens, Some(0), Seq::empty()) {
                Some((unit, end)) => {
                    &&& r.0 == Ok::<TranslationUnit<'a>, ()>(unit)
                    &&& unit.span_end(self@.tokens, Some(0)) == Some(end)
                    &&& unit.well_scoped(Seq::empty())
                    &&& forall|i: int|
                        0 <= i < r.1@.len() ==> is_missing_tag(self@.tokens, #[trigger] r.1@[i])
                },
                None => {
                    &&& r.0 is Err
                    &&& r.1@ == seq![
                        ParseErr { at: self@.tokens[0], expected: Expected::ExternalDeclaration },
                    ]
                },
            },
    {
        let mut parser = self;
        let ast = parser.parse_translation_unit();
        proof {
            if ast is Err {
                assert(parser.errors@ =~= seq![
                    ParseErr { at: self@.tokens[0], expected: Expected::ExternalDeclaration },
                ]);
            }
        }
        (ast, parser.errors)
    }

    /// Where the cursor is.
    pub fn position(&self) -> (index: usize)
        ensures
            index == self@.index,
    {
        self.index
    }

    /// The diagnostics recorded so far.
    pub fn diagnostics(&self) -> (errors: &Vec<ParseErr<'a>>)
        ensures
            errors@ == self@.errors,
    {
        &self.errors
    }

    /// How many typedef scopes are open.
    pub fn depth(&self) -> (depth: usize)
        ensures
            depth == self@.marks.len(),
    {
        self.marks.len()
    }

    pub(crate) fn cur(&self) -> (token: Token<'a>)
        requires
            self@.wf(),
        ensures
            token == self@.current(),
    {
        self.tokens[self.index]
    }

    pub(crate) fn kind(&self) -> (kind: TokenKind<'a>)
        requires
            self@.wf(),
        ensures
            kind == self@.current().kind,
    {
        self.cur().kind
    }

    pub(crate) fn at(&self) -> (at: At)
        requires
            self@.wf(),
        ensures
            at == self@.current().at,
    {
        self.cur().at
    }

    /// Whether the token under the cursor is of the plain kind `kind`.
    pub(crate) fn is(&self, kind: TokenKind) -> (same: bool)
        requires
            self@.wf(),
            kind.is_plain(),
        ensures
            same == (self@.current().kind == kind),
    {
        self.kind().is(&kind)
    }

    /// Moves past the token under the cursor, which is not the end marker.
    pub(crate) fn next(&mut self) -> (at: At)
        requires
            old(self)@.wf(),
            !(old(self)@.current().kind is Eof),
        ensures
            at == old(self)@.current().at,
            final(self)@ == (ParserState { index: old(self)@.index + 1, ..old(self)@ }),
            final(self)@.wf(),
    {
        let at = self.at();
        let len = self.tokens.len();
        assert(self.index < len);
        self.index += 1;
        at
    }

    /// Records that `expected` was expected at the token `at`.
    pub(crate) fn err_at(&mut self, at: Token<'a>, expected: Expected<'a>)
        ensures
            final(self)@ == (ParserState {
                errors: old(self)@.errors.push(ParseErr { at, expected }),
                ..old(self)@
            }),
    {
        self.errors.push(ParseErr { at, expected });
    }

    /// Records that `expected` was expected at the token under the cursor.
    pub(crate) fn err(&mut self, expected: Expected<'a>)
        requires
            old(self)@.wf(),
        ensures
            final(self)@ == (ParserState {
                errors: old(self)@.errors.push(
                    ParseErr { at: old(self)@.current(), expected },
                ),
                ..old(self)@
            }),
    {
        let at = self.cur();
        self.err_at(at, expected);
    }

    /// Moves past a token of the plain kind `kind`, or fails with a
    /// diagnostic and leaves the cursor where it is.
    pub fn take(&mut self, kind: TokenKind<'a>) -> (r: Res<At>)
        requires
            old(self)@.wf(),
            kind.is_plain(),
            !(kind is Eof),
        ensures
            final(self)@.follows(old(self)@),
            match r {
                Ok(at) => {
                    &&& old(self)@.current() == (Token { at, kind })
                    &&& final(self)@ == (ParserState { index: old(self)@.index + 1, ..old(self)@ })
                },
                Err(_) => {
                    &&& old(self)@.current().kind != kind
                    &&& final(self)@ == (ParserState {
                        errors: old(self)@.errors.push(
                            ParseErr { at: old(self)@.current(), expected: Expected::Token(kind) },
                        ),
                        ..old(self)@
                    })
                },
            },
    {
        if !self.is(kind) {
            self.err(Expected::Token(kind));
            return Err(());
        }
        Ok(self.next())
    }

    /// Moves past an identifier and returns its name, or fails with a
    /// diagnostic and leaves the cursor where it is.
    pub fn take_identifier(&mut self) -> (r: Res<&'a str>)
        requires
            old(self)@.wf(),
        ensures
            final(self)@.follows(old(self)@),
            match r {
                Ok(name) => {
                    &&& old(self)@.current().kind == TokenKind::Identifier(name)
                    &&& final(self)@ == (ParserState { index: old(self)@.index + 1, ..old(self)@ })
                },
                Err(_) => {
                    &&& !(old(self)@.current().kind is Identifier)
                    &&& final(self)@ == (ParserState {
                        errors: old(self)@.errors.push(
                            ParseErr { at: old(self)@.current(), expected: Expected::Identifier },
                        ),
                        ..old(self)@
                    })
                },
            },
    {
        match self.kind() {
            TokenKind::Identifier(name) => {
                self.next();
                Ok(name)
            },
            _ => {
                self.err(Expected::Identifier);
                Err(())
            },
        }
    }

    /// Begins a speculative attempt: remembers the state and opens a scope
    /// for the typedef names that the attempt declares.
    pub fn begin(&mut self) -> (checkpoint: Checkpoint<'a>)
        ensures
            checkpoint.wf(),
            checkpoint.origin() == old(self)@,
            final(self)@ == old(self)@.opened(),
    {
        let checkpoint = Checkpoint {
            index: self.index,
            errors: self.errors.len(),
            names: self.names.len(),
            marks: self.marks.len(),
            origin: Ghost(self@),
        };
        self.marks.push(self.names.len());
        checkpoint
    }

    /// Ends a speculative attempt that began at `checkpoint` with the
    /// outcome `attempt`.
    ///
    /// After a success the scope of the attempt is merged into the one
    /// around it: its typedef names stay, and so do the diagnostics. After
    /// a failure everything is as it was when the attempt began: cursor,
    /// diagnostics and typedef scopes.
    pub fn settle<T>(&mut self, checkpoint: Checkpoint<'a>, attempt: Res<T>) -> (r: Res<T>)
        requires
            checkpoint.wf(),
            old(self)@.follows(checkpoint.origin().opened()),
            attempt is Ok ==> old(self)@.marks.len() == checkpoint.origin().marks.len() + 1,
        ensures
            r == attempt,
            r is Ok ==> final(self)@ == (ParserState {
                marks: checkpoint.origin().marks,
                ..old(self)@
            }),
            r is Err ==> final(self)@ == checkpoint.origin(),
    {
        match attempt {
            Ok(value) => {
                self.marks.pop();
                proof {
                    assert(self@.marks =~= checkpoint.origin().marks);
                }
                Ok(value)
            },
            Err(e) => {
                self.index = checkpoint.index;
                self.errors.truncate(checkpoint.errors);
                self.names.truncate(checkpoint.names);
                self.marks.truncate(checkpoint.marks);
                proof {
                    assert(self@.errors =~= checkpoint.origin().errors);
                    assert(self@.names =~= checkpoint.origin().names);
                    assert(self@.marks =~= checkpoint.origin().marks);
                }
                Err(e)
            },
        }
    }

    /// As [`Self::settle`], for an optional part: a failed attempt is an
    /// absent part.
    pub fn settle_optional<T>(&mut self, checkpoint: Checkpoint<'a>, attempt: Res<T>) -> (r:
        Option<T>)
        requires
            checkpoint.wf(),
            old(self)@.follows(checkpoint.origin().opened()),
            attempt is Ok ==> old(self)@.marks.len() == checkpoint.origin().marks.len() + 1,
        ensures
            match attempt {
                Ok(value) => r == Some(value) && final(self)@ == (ParserState {
                    marks: checkpoint.origin().marks,
                    ..old(self)@
                }),
                Err(_) => r is None && final(self)@ == checkpoint.origin(),
            },
    {
        match self.settle(checkpoint, attempt) {
            Ok(value) => Some(value),
            Err(_) => None,
        }
    }

    /// Tries to read attribute specifiers. None is ever read, so nothing
    /// changes.
    pub(crate) fn parse_optional_attributes(&mut self) -> (r: Option<AttributeSpecifierSequence<'a>>)
        requires
            old(self)@.wf(),
        ensures
            r is None,
            final(self)@ == old(self)@,
    {
        let checkpoint = self.begin();
        let attempt = self.parse_attribute_specifier_sequence();
        self.settle_optional(checkpoint, attempt)
    }

    /// Moves past an identifier, if one is under the cursor.
    pub(crate) fn take_optional_identifier(&mut self) -> (r: Option<&'a str>)
        requires
            old(self)@.wf(),
        ensures
            match r {
                Some(name) => {
                    &&& old(self)@.current().kind == TokenKind::Identifier(name)
                    &&& final(self)@ == (ParserState { index: old(self)@.index + 1, ..old(self)@ })
                    &&& final(self)@.wf()
                },
                None => !(old(self)@.current().kind is Identifier) && final(self)@ == old(self)@,
            },
    {
        let checkpoint = self.begin();
        let attempt = self.take_identifier();
        self.settle_optional(checkpoint, attempt)
    }

    /// Moves past a token of the plain kind `kind`, if one is under the
    /// cursor.
    pub(crate) fn take_optional(&mut self, kind: TokenKind<'a>) -> (r: Option<At>)
        requires
            old(self)@.wf(),
            kind.is_plain(),
            !(kind is Eof),
        ensures
            match r {
                Some(at) => {
                    &&& old(self)@.current() == (Token { at, kind })
                    &&& final(self)@ == (ParserState { index: old(self)@.index + 1, ..old(self)@ })
                    &&& final(self)@.wf()
                },
                None => old(self)@.current().kind != kind && final(self)@ == old(self)@,
            },
    {
        let checkpoint = self.begin();
        let attempt = self.take(kind);
        self.settle_optional(checkpoint, attempt)
    }

    /// Whether `name` is a typedef name in one of the open scopes.
    pub fn is_typedef_name(&self, name: &str) -> (known: bool)
        ensures
            known == self@.is_typedef_name(name@),
    {
        let mut i: usize = 0;
        while i < self.names.len()
            invariant
                i <= self.names@.len(),
                forall|j: int| 0 <= j < i ==> (#[trigger] self.names@[j])@ != name@,
            decreases self.names@.len() - i,
        {
            if crate::token::str_eq(self.names[i], name) {
                assert(self@.names[i as int]@ == name@);
                return true;
            }
            i += 1;
        }
        false
    }

    /// Declares `name` as a typedef name in the innermost scope.
    pub fn declare_typedef(&mut self, name: &'a str)
        ensures
            final(self)@ == (ParserState { names: old(self)@.names.push(name), ..old(self)@ }),
            old(self)@.wf() ==> final(self)@.wf(),
    {
        self.names.push(name);
        // Taking the length makes known that it fits in a usize.
        let _count = self.names.len();
    }

    /// Opens a scope for typedef names.
    pub fn push_scope(&mut self)
        ensures
            final(self)@ == old(self)@.opened(),
    {
        self.marks.push(self.names.len());
    }

    /// Closes the innermost scope and forgets its typedef names.
    pub fn pop_scope(&mut self)
        ensures
            final(self)@ == old(self)@.closed(),
    {
        match self.marks.pop() {
            Some(mark) => {
                self.names.truncate(mark);
                proof {
                    assert(self@.marks =~= old(self)@.marks.drop_last());
                }
            },
            None => {},
        }
    }
}

} // verus!
