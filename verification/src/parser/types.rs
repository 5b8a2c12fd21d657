//! The rules for type specifiers, qualifiers and type names.

use crate::ast::{
    AlignmentSpecifier, AlignmentSpecifierKind, AtomicTypeSpecifier, AttributeSpecifier,
    AttributeSpecifierSequence, CommaList, CommaListKind, EnumSpecifier, EnumTypeSpecifier,
    Enumerator, EnumeratorList, FunctionSpecifier, FunctionSpecifierKind, List, ListKind,
    MemberDeclaration, MemberDeclarationKind, MemberDeclarationList, MemberDeclarator,
    MemberDeclaratorList, SpecifierQualifierList, SpecifierQualifierListKind,
    StorageClassSpecifier, StorageClassSpecifierKind, StorageClassSpecifiers, StructOrUnion,
    StructOrUnionSpecifier, TypeName, TypeQualifier, TypeQualifierKind, TypeQualifierList,
    TypeSpecifier, TypeSpecifierKind, TypeSpecifierQualifier,
    TypeofSpecifier, TypeofSpecifierArgument, TypeofSpecifierArgumentKind,
};
use crate::parser::{is_missing_tag, Expected, ParseErr, Parser, ParserState, Res};
use crate::token::TokenKind;
use crate::grammar::types::{
    alignment_specifier_at, atomic_type_specifier_at, enum_specifier_at, enum_type_specifier_at,
    enumerator_at, enumerator_list_at, enumerator_list_rest, function_specifier_at,
    member_declaration_at, member_declaration_list_at, member_declaration_list_rest,
    member_declarator_at, member_declarator_list_at, member_declarator_list_rest,
    member_declarator_prime_at, specifier_qualifier_list_at, storage_class_specifier_at,
    storage_class_specifiers_at, storage_class_specifiers_rest, struct_or_union_of,
    struct_or_union_specifier_at, type_qualifier_at, type_qualifier_list_at,
    type_qualifier_list_rest, type_specifier_at, type_specifier_qualifier_at,
    typename_at, typeof_specifier_argument_at, typeof_specifier_at,
};
use crate::grammar::{forward, maybe};
use crate::grammar::types::{
    alignment_specifier_rule,
    atomic_type_specifier_rule,
    enum_specifier_rule,
    enum_type_specifier_rule,
    enumerator_list_rest_rule,
    enumerator_list_rule,
    enumerator_rule,
    member_declaration_list_rest_rule,
    member_declaration_list_rule,
    member_declaration_rule,
    member_declarator_list_rest_rule,
    member_declarator_list_rule,
    member_declarator_prime_rule,
    member_declarator_rule,
    specifier_qualifier_list_rule,
    struct_or_union_specifier_rule,
    type_specifier_qualifier_rule,
    type_specifier_rule,
    typename_rule,
    typeof_specifier_argument_rule,
    typeof_specifier_rule,
};
use vstd::prelude::*;

verus! {

impl<'a, 'b> Parser<'a, 'b> {
    /// Attribute specifiers are not read: the rule fails on every input,
    /// after the two opening brackets because no attribute follows them.
    pub(crate) fn parse_attribute_specifier(&mut self) -> (r: Res<AttributeSpecifier<'a>>)
        requires
            old(self)@.wf(),
        ensures
            r is Err,
            final(self)@.follows(old(self)@),
    {
        let _open_bracket_0 = self.take(TokenKind::OpenBracket)?;
        let _open_bracket_1 = self.take(TokenKind::OpenBracket)?;
        self.err(Expected::Identifier);
        Err(())
    }

    /// One or more attribute specifiers. None is ever read, so the rule
    /// fails on every input.
    pub(crate) fn parse_attribute_specifier_sequence(&mut self) -> (r: Res<
        AttributeSpecifierSequence<'a>,
    >)
        requires
            old(self)@.wf(),
        ensures
            r is Err,
            final(self)@.follows(old(self)@),
    {
        let first = self.parse_attribute_specifier()?;
        let mut left = AttributeSpecifierSequence { at: first.at, left: None, specifier: first };
        loop
            invariant
                self@.wf(),
            decreases self@.left(),
        {
            let checkpoint = self.begin();
            let attempt = self.parse_attribute_specifier();
            match self.settle(checkpoint, attempt) {
                Ok(specifier) => {
                    left =
                    AttributeSpecifierSequence {
                        at: left.at,
                        left: Some(Box::new(left)),
                        specifier,
                    };
                },
                Err(_) => { break ; },
            }
        }
        Ok(left)
    }

    /// A storage class specifier. `typedef` sets `is_typedef`.
    #[verifier::spinoff_prover]
    pub(crate) fn parse_storage_class_specifier(&mut self, is_typedef: &mut bool) -> (r: Res<
        StorageClassSpecifier,
    >)
        requires
            old(self)@.wf(),
        ensures
            final(self)@.gives(
                r,
                storage_class_specifier_at(old(self)@.tokens, Some(old(self)@.index)),
            ),
            r is Err <==> forall|kind: StorageClassSpecifierKind| #[trigger]
                kind.token() != old(self)@.current().kind,
            match r {
                Ok(node) => {
                    &&& final(self)@.reached(
                        old(self)@,
                        node.span_end(old(self)@.tokens, Some(old(self)@.index)),
                    )
                    &&& *final(is_typedef) == (*old(is_typedef) || node.is_typedef())
                },
                Err(_) => {
                    &&& final(self)@.failed_with(old(self)@, Expected::StorageClassSpecifier)
                    &&& *final(is_typedef) == *old(is_typedef)
                },
            },
    {
        let at = self.at();
        let kind = match self.kind() {
            TokenKind::Auto => StorageClassSpecifierKind::Auto,
            TokenKind::Constexpr => StorageClassSpecifierKind::Constexpr,
            TokenKind::Extern => StorageClassSpecifierKind::Extern,
            TokenKind::Register => StorageClassSpecifierKind::Register,
            TokenKind::Static => StorageClassSpecifierKind::Static,
            TokenKind::ThreadLocal => StorageClassSpecifierKind::ThreadLocal,
            TokenKind::Typedef => {
                *is_typedef = true;
                StorageClassSpecifierKind::Typedef
            },
            _ => {
                self.err(Expected::StorageClassSpecifier);
                return Err(());
            },
        };
        self.next();

        Ok(StorageClassSpecifier { at, kind })
    }

    /// One or more storage class specifiers.
    #[verifier::spinoff_prover]
    pub(crate) fn parse_storage_class_specifiers(&mut self, is_typedef: &mut bool) -> (r: Res<
        StorageClassSpecifiers,
    >)
        requires
            old(self)@.wf(),
        ensures
            final(self)@.gives(
                r,
                storage_class_specifiers_at(old(self)@.tokens, Some(old(self)@.index)),
            ),
            match r {
                Ok(node) => {
                    &&& final(self)@.reached(
                        old(self)@,
                        node.span_end(old(self)@.tokens, Some(old(self)@.index)),
                    )
                    &&& *final(is_typedef) == (*old(is_typedef) || node.has_typedef())
                },
                Err(_) => final(self)@.follows(old(self)@),
            },
    {
        let at = self.at();
        let first = self.parse_storage_class_specifier(is_typedef)?;
        let mut left = List { at, kind: ListKind::Leaf(Box::new(first)) };
        loop
            invariant
                storage_class_specifiers_rest(old(self)@.tokens, Some(self@.index), left)
                    == storage_class_specifiers_at(old(self)@.tokens, Some(old(self)@.index)),
                self@.reached(old(self)@, left.span_end(old(self)@.tokens, Some(old(self)@.index))),
                *is_typedef == (*old(is_typedef) || left.has_typedef()),
            decreases self@.left(),
        {
            let checkpoint = self.begin();
            let attempt = self.parse_storage_class_specifier(is_typedef);
            match self.settle(checkpoint, attempt) {
                Ok(right) => {
                    left =
                    List { at: left.at, kind: ListKind::Cons(Box::new(left), Box::new(right)) };
                },
                Err(_) => { return Ok(left); },
            }
        }
    }

    /// A type qualifier.
    #[verifier::spinoff_prover]
    pub(crate) fn parse_type_qualifier(&mut self) -> (r: Res<TypeQualifier>)
        requires
            old(self)@.wf(),
        ensures
            final(self)@.gives(r, type_qualifier_at(old(self)@.tokens, Some(old(self)@.index))),
            r is Err <==> forall|kind: TypeQualifierKind| #[trigger]
                kind.token() != old(self)@.current().kind,
            match r {
                Ok(node) => final(self)@.reached(
                    old(self)@,
                    node.span_end(old(self)@.tokens, Some(old(self)@.index)),
                ),
                Err(_) => final(self)@.failed_with(old(self)@, Expected::TypeQualifier),
            },
    {
        let at = self.at();
        let kind = match self.kind() {
            TokenKind::Const => TypeQualifierKind::Const,
            TokenKind::Restrict => TypeQualifierKind::Restrict,
            TokenKind::Volatile => TypeQualifierKind::Volatile,
            TokenKind::Atomic => TypeQualifierKind::Atomic,
            _ => {
                self.err(Expected::TypeQualifier);
                return Err(());
            },
        };
        self.next();

        Ok(TypeQualifier { at, kind })
    }

    /// One or more type qualifiers.
    #[verifier::spinoff_prover]
    pub(crate) fn parse_type_qualifier_list(&mut self) -> (r: Res<TypeQualifierList>)
        requires
            old(self)@.wf(),
        ensures
            final(self)@.gives(
                r,
                type_qualifier_list_at(old(self)@.tokens, Some(old(self)@.index)),
            ),
            match r {
                Ok(node) => final(self)@.reached(
                    old(self)@,
                    node.span_end(old(self)@.tokens, Some(old(self)@.index)),
                ),
                Err(_) => final(self)@.follows(old(self)@),
            },
    {
        let at = self.at();
        let first = self.parse_type_qualifier()?;
        let mut left = List { at, kind: ListKind::Leaf(Box::new(first)) };
        loop
            invariant
                type_qualifier_list_rest(old(self)@.tokens, Some(self@.index), left)
                    == type_qualifier_list_at(old(self)@.tokens, Some(old(self)@.index)),
                self@.reached(old(self)@, left.span_end(old(self)@.tokens, Some(old(self)@.index))),
            decreases self@.left(),
        {
            let checkpoint = self.begin();
            let attempt = self.parse_type_qualifier();
            match self.settle(checkpoint, attempt) {
                Ok(right) => {
                    left =
                    List { at: left.at, kind: ListKind::Cons(Box::new(left), Box::new(right)) };
                },
                Err(_) => { return Ok(left); },
            }
        }
    }

    /// Type qualifiers, if any stand under the cursor.
    pub(crate) fn parse_optional_type_qualifier_list(&mut self) -> (r: Option<TypeQualifierList>)
        requires
            old(self)@.wf(),
        ensures
            (r, Some(final(self)@.index)) == maybe(
                Some(old(self)@.index),
                forward(
                    old(self)@.tokens,
                    Some(old(self)@.index),
                    type_qualifier_list_at(old(self)@.tokens, Some(old(self)@.index)),
                ),
            ),
            match r {
                Some(node) => final(self)@.reached(
                    old(self)@,
                    node.span_end(old(self)@.tokens, Some(old(self)@.index)),
                ),
                None => final(self)@ == old(self)@,
            },
    {
        let checkpoint = self.begin();
        let attempt = self.parse_type_qualifier_list();
        self.settle_optional(checkpoint, attempt)
    }

    /// A function specifier.
    #[verifier::spinoff_prover]
    pub(crate) fn parse_function_specifier(&mut self) -> (r: Res<FunctionSpecifier>)
        requires
            old(self)@.wf(),
        ensures
            final(self)@.gives(
                r,
                function_specifier_at(old(self)@.tokens, Some(old(self)@.index)),
            ),
            r is Err <==> forall|kind: FunctionSpecifierKind| #[trigger]
                kind.token() != old(self)@.current().kind,
            match r {
                Ok(node) => final(self)@.reached(
                    old(self)@,
                    node.span_end(old(self)@.tokens, Some(old(self)@.index)),
                ),
                Err(_) => final(self)@.failed_with(old(self)@, Expected::TypeQualifier),
            },
    {
        let at = self.at();
        let kind = match self.kind() {
            TokenKind::Inline => FunctionSpecifierKind::Inline,
            TokenKind::Noreturn => FunctionSpecifierKind::NoReturn,
            _ => {
                self.err(Expected::TypeQualifier);
                return Err(());
            },
        };
        self.next();

        Ok(FunctionSpecifier { at, kind })
    }

    /// The keyword `struct` or `union`.
    pub(crate) fn parse_struct_or_union(&mut self) -> (r: Res<StructOrUnion>)
        requires
            old(self)@.wf(),
        ensures
            r is Ok <==> struct_or_union_of(old(self)@.current().kind) is Some,
            r matches Ok(which) ==> struct_or_union_of(old(self)@.current().kind) == Some(which),
            r is Err <==> forall|kind: StructOrUnion| #[trigger]
                kind.token() != old(self)@.current().kind,
            match r {
                Ok(node) => {
                    &&& old(self)@.current().kind == node.token()
                    &&& final(self)@ == (ParserState { index: old(self)@.index + 1, ..old(self)@ })
                    &&& final(self)@.wf()
                },
                Err(_) => final(self)@.failed_with(old(self)@, Expected::StructOrUnion),
            },
    {
        let out = match self.kind() {
            TokenKind::Struct => StructOrUnion::Struct,
            TokenKind::Union => StructOrUnion::Union,
            _ => {
                self.err(Expected::StructOrUnion);
                return Err(());
            },
        };
        self.next();
        Ok(out)
    }

    /// A type specifier. An identifier is one where it is a typedef name
    /// in scope.
    #[verifier::spinoff_prover]
    pub(crate) fn parse_type_specifier(&mut self) -> (r: Res<TypeSpecifier<'a>>)
        requires
            old(self)@.wf(),
        ensures
            r is Err && !(old(self)@.current().kind is BitInt) ==> final(self)@.failed_with(
                old(self)@,
                Expected::TypeSpecifier,
            ),
            final(self)@.gives(
                r,
                type_specifier_at(old(self)@.tokens, Some(old(self)@.index), old(self)@.names),
            ),
            r matches Ok(node) ==> node.well_scoped(old(self)@.names),
            match r {
                Ok(node) => {
                    &&& final(self)@.reached(
                        old(self)@,
                        node.span_end(old(self)@.tokens, Some(old(self)@.index)),
                    )
                    &&& node.kind matches TypeSpecifierKind::TypedefName(name)
                        ==> old(self)@.is_typedef_name(name@)
                },
                Err(_) => final(self)@.follows(old(self)@),
            },
            old(self)@.current().kind matches TokenKind::Identifier(name) ==> (r is Ok
                <==> old(self)@.is_typedef_name(name@)),
        decreases old(self)@.left(), 10nat,
    {
        proof {
            reveal(type_specifier_rule);
            assert(type_specifier_at(
                old(self)@.tokens,
                Some(old(self)@.index),
                old(self)@.names,
            ) == type_specifier_rule(
                old(self)@.tokens,
                Some(old(self)@.index),
                old(self)@.names,
            ));
        }
        let at = self.at();
        let kind = match self.kind() {
            TokenKind::Void => {
                self.next();
                TypeSpecifierKind::Void
            },
            TokenKind::Char => {
                self.next();
                TypeSpecifierKind::Char
            },
            TokenKind::Short => {
                self.next();
                TypeSpecifierKind::Short
            },
            TokenKind::Int => {
                self.next();
                TypeSpecifierKind::Int
            },
            TokenKind::Long => {
                self.next();
                TypeSpecifierKind::Long
            },
            TokenKind::Float => {
                self.next();
                TypeSpecifierKind::Float
            },
            TokenKind::Double => {
                self.next();
                TypeSpecifierKind::Double
            },
            TokenKind::Signed => {
                self.next();
                TypeSpecifierKind::Signed
            },
            TokenKind::Unsigned => {
                self.next();
                TypeSpecifierKind::Unsigned
            },
            TokenKind::Bool => {
                self.next();
                TypeSpecifierKind::Bool
            },
            TokenKind::Complex => {
                self.next();
                TypeSpecifierKind::Complex
            },
            TokenKind::Decimal32 => {
                self.next();
                TypeSpecifierKind::Decimal32
            },
            TokenKind::Decimal64 => {
                self.next();
                TypeSpecifierKind::Decimal64
            },
            TokenKind::Decimal128 => {
                self.next();
                TypeSpecifierKind::Decimal128
            },
            TokenKind::Identifier(name) => {
                if !self.is_typedef_name(name) {
                    self.err(Expected::TypeSpecifier);
                    return Err(());
                }
                self.next();
                TypeSpecifierKind::TypedefName(name)
            },
            TokenKind::BitInt => {
                let bitint_keyword = self.next();
                let open_parenthesis = self.take(TokenKind::OpenParenthesis)?;
                let width = self.parse_constant_expression()?;
                let close_parenthesis = self.take(TokenKind::CloseParenthesis)?;
                TypeSpecifierKind::BitInt {
                    bitint_keyword,
                    open_parenthesis,
                    width,
                    close_parenthesis,
                }
            },
            _ => {
                let checkpoint = self.begin();
                let attempt = self.parse_atomic_type_specifier();
                if let Ok(specifier) = self.settle(checkpoint, attempt) {
                    return Ok(TypeSpecifier { at, kind: TypeSpecifierKind::from(specifier) });
                }
                let checkpoint = self.begin();
                let attempt = self.parse_struct_or_union_specifier();
                if let Ok(specifier) = self.settle(checkpoint, attempt) {
                    return Ok(TypeSpecifier { at, kind: TypeSpecifierKind::from(specifier) });
                }
                let checkpoint = self.begin();
                let attempt = self.parse_enum_specifier();
                if let Ok(specifier) = self.settle(checkpoint, attempt) {
                    return Ok(TypeSpecifier { at, kind: TypeSpecifierKind::from(specifier) });
                }
                let checkpoint = self.begin();
                let attempt = self.parse_typeof_specifier();
                if let Ok(specifier) = self.settle(checkpoint, attempt) {
                    return Ok(TypeSpecifier { at, kind: TypeSpecifierKind::from(specifier) });
                }
                self.err(Expected::TypeSpecifier);
                return Err(());
            },
        };

        Ok(TypeSpecifier { at, kind })
    }

    /// `struct` or `union` with a tag, with members in braces, or with
    /// both.
    #[verifier::spinoff_prover]
    pub(crate) fn parse_struct_or_union_specifier(&mut self) -> (r: Res<StructOrUnionSpecifier<'a>>)
        requires
            old(self)@.wf(),
        ensures
            final(self)@.gives(
                r,
                struct_or_union_specifier_at(
                    old(self)@.tokens,
                    Some(old(self)@.index),
                    old(self)@.names,
                ),
            ),
            r matches Ok(node) ==> node.well_scoped(old(self)@.names),
            match r {
                Ok(node) => final(self)@.reached(
                    old(self)@,
                    node.span_end(old(self)@.tokens, Some(old(self)@.index)),
                ),
                Err(_) => final(self)@.follows(old(self)@),
            },
        decreases old(self)@.left(), 2nat,
    {
        proof {
            reveal(struct_or_union_specifier_rule);
            assert(struct_or_union_specifier_at(
                old(self)@.tokens,
                Some(old(self)@.index),
                old(self)@.names,
            ) == struct_or_union_specifier_rule(
                old(self)@.tokens,
                Some(old(self)@.index),
                old(self)@.names,
            ));
        }
        let at = self.at();
        let struct_or_union = (at, self.parse_struct_or_union()?);
        let attributes = self.parse_optional_attributes();
        let tag = self.take_optional_identifier();
        let members = if self.is(TokenKind::OpenBrace) || tag.is_none() {
            let open_brace = self.take(TokenKind::OpenBrace)?;
            let members = self.parse_member_declaration_list()?;
            let close_brace = self.take(TokenKind::CloseBrace)?;
            Some((open_brace, members, close_brace))
        } else {
            None
        };

        Ok(StructOrUnionSpecifier { at, struct_or_union, attributes, tag, members })
    }

    /// One or more member declarations.
    #[verifier::spinoff_prover]
    pub(crate) fn parse_member_declaration_list(&mut self) -> (r: Res<MemberDeclarationList<'a>>)
        requires
            old(self)@.wf(),
        ensures
            final(self)@.gives(
                r,
                member_declaration_list_at(
                    old(self)@.tokens,
                    Some(old(self)@.index),
                    old(self)@.names,
                ),
            ),
            r matches Ok(node) ==> node.well_scoped(old(self)@.names),
            match r {
                Ok(node) => final(self)@.reached(
                    old(self)@,
                    node.span_end(old(self)@.tokens, Some(old(self)@.index)),
                ),
                Err(_) => final(self)@.follows(old(self)@),
            },
        decreases old(self)@.left(), 78nat,
    {
        proof {
            reveal(member_declaration_list_rule);
            assert(member_declaration_list_at(
                old(self)@.tokens,
                Some(old(self)@.index),
                old(self)@.names,
            ) == member_declaration_list_rule(
                old(self)@.tokens,
                Some(old(self)@.index),
                old(self)@.names,
            ));
        }
        let at = self.at();
        let first = self.parse_member_declaration()?;
        let mut left = List { at, kind: ListKind::Leaf(Box::new(first)) };
        loop
            invariant
                member_declaration_list_rest(
                    old(self)@.tokens,
                    Some(self@.index),
                    old(self)@.names,
                    left,
                )
                    == member_declaration_list_at(
                        old(self)@.tokens,
                        Some(old(self)@.index),
                        old(self)@.names,
                    ),
                left.well_scoped(old(self)@.names),
                self@.reached(old(self)@, left.span_end(old(self)@.tokens, Some(old(self)@.index))),
            decreases self@.left(),
        {
            proof {
                reveal(member_declaration_list_rest_rule);
                assert(member_declaration_list_rest(
                    old(self)@.tokens,
                    Some(self@.index),
                    old(self)@.names,
                    left,
                ) == member_declaration_list_rest_rule(
                    old(self)@.tokens,
                    Some(self@.index),
                    old(self)@.names,
                    left,
                ));
            }
            let checkpoint = self.begin();
            let attempt = self.parse_member_declaration();
            match self.settle(checkpoint, attempt) {
                Ok(right) => {
                    left =
                    List { at: left.at, kind: ListKind::Cons(Box::new(left), Box::new(right)) };
                },
                Err(_) => { return Ok(left); },
            }
        }
    }

    /// A static assertion, or else specifiers and qualifiers, the member
    /// declarators if there are any, and a semicolon.
    #[verifier::spinoff_prover]
    pub(crate) fn parse_member_declaration(&mut self) -> (r: Res<MemberDeclaration<'a>>)
        requires
            old(self)@.wf(),
        ensures
            final(self)@.gives(
                r,
                member_declaration_at(old(self)@.tokens, Some(old(self)@.index), old(self)@.names),
            ),
            r matches Ok(node) ==> node.well_scoped(old(self)@.names),
            match r {
                Ok(node) => final(self)@.reached(
                    old(self)@,
                    node.span_end(old(self)@.tokens, Some(old(self)@.index)),
                ),
                Err(_) => final(self)@.follows(old(self)@),
            },
        decreases old(self)@.left(), 77nat,
    {
        proof {
            reveal(member_declaration_rule);
            assert(member_declaration_at(
                old(self)@.tokens,
                Some(old(self)@.index),
                old(self)@.names,
            ) == member_declaration_rule(
                old(self)@.tokens,
                Some(old(self)@.index),
                old(self)@.names,
            ));
        }
        let checkpoint = self.begin();
        let attempt = self.parse_static_assert_declaration();
        match self.settle(checkpoint, attempt) {
            Ok(assertion) => Ok(
                MemberDeclaration {
                    at: assertion.at,
                    kind: MemberDeclarationKind::Assert(assertion),
                },
            ),
            Err(_) => {
                let at = self.at();
                let attributes = self.parse_optional_attributes();
                let specifier_qualifiers = self.parse_specifier_qualifier_list()?;
                let checkpoint = self.begin();
                let attempt = self.parse_member_declarator_list();
                let member_declarators = self.settle_optional(checkpoint, attempt);
                let semicolon = self.take(TokenKind::Semicolon)?;
                Ok(
                    MemberDeclaration {
                        at,
                        kind: MemberDeclarationKind::Member {
                            attributes,
                            specifier_qualifiers,
                            member_declarators,
                            semicolon,
                        },
                    },
                )
            },
        }
    }

    /// One or more type specifiers and qualifiers.
    #[verifier::spinoff_prover]
    pub(crate) fn parse_specifier_qualifier_list(&mut self) -> (r: Res<SpecifierQualifierList<'a>>)
        requires
            old(self)@.wf(),
        ensures
            final(self)@.gives(
                r,
                specifier_qualifier_list_at(
                    old(self)@.tokens,
                    Some(old(self)@.index),
                    old(self)@.names,
                ),
            ),
            r matches Ok(node) ==> node.well_scoped(old(self)@.names),
            match r {
                Ok(node) => final(self)@.reached(
                    old(self)@,
                    node.span_end(old(self)@.tokens, Some(old(self)@.index)),
                ),
                Err(_) => final(self)@.follows(old(self)@),
            },
        decreases old(self)@.left(), 12nat,
    {
        proof {
            reveal(specifier_qualifier_list_rule);
            assert(specifier_qualifier_list_at(
                old(self)@.tokens,
                Some(old(self)@.index),
                old(self)@.names,
            ) == specifier_qualifier_list_rule(
                old(self)@.tokens,
                Some(old(self)@.index),
                old(self)@.names,
            ));
        }
        let at = self.at();
        let specifier_qualifier = Box::new(self.parse_type_specifier_qualifier()?);
        let checkpoint = self.begin();
        let attempt = self.parse_specifier_qualifier_list();
        let kind = match self.settle(checkpoint, attempt) {
            Ok(rest) => SpecifierQualifierListKind::Cons(Box::new(rest)),
            Err(_) => {
                let attributes = self.parse_optional_attributes();
                SpecifierQualifierListKind::Leaf(attributes)
            },
        };

        Ok(SpecifierQualifierList { at, specifier_qualifier, kind })
    }

    /// A type specifier, or else a type qualifier, or else an alignment
    /// specifier.
    #[verifier::spinoff_prover]
    pub(crate) fn parse_type_specifier_qualifier(&mut self) -> (r: Res<TypeSpecifierQualifier<'a>>)
        requires
            old(self)@.wf(),
        ensures
            final(self)@.gives(
                r,
                type_specifier_qualifier_at(
                    old(self)@.tokens,
                    Some(old(self)@.index),
                    old(self)@.names,
                ),
            ),
            r matches Ok(node) ==> node.well_scoped(old(self)@.names),
            match r {
                Ok(node) => final(self)@.reached(
                    old(self)@,
                    node.span_end(old(self)@.tokens, Some(old(self)@.index)),
                ),
                Err(_) => final(self)@.failed_with(old(self)@, Expected::TypeSpecifierQualifier),
            },
        decreases old(self)@.left(), 11nat,
    {
        proof {
            reveal(type_specifier_qualifier_rule);
            assert(type_specifier_qualifier_at(
                old(self)@.tokens,
                Some(old(self)@.index),
                old(self)@.names,
            ) == type_specifier_qualifier_rule(
                old(self)@.tokens,
                Some(old(self)@.index),
                old(self)@.names,
            ));
        }
        let checkpoint = self.begin();
        let attempt = self.parse_type_specifier();
        if let Ok(specifier) = self.settle(checkpoint, attempt) {
            return Ok(TypeSpecifierQualifier::from(specifier));
        }
        let checkpoint = self.begin();
        let attempt = self.parse_type_qualifier();
        if let Ok(qualifier) = self.settle(checkpoint, attempt) {
            return Ok(TypeSpecifierQualifier::from(qualifier));
        }
        let checkpoint = self.begin();
        let attempt = self.parse_alignment_specifier();
        if let Ok(alignment) = self.settle(checkpoint, attempt) {
            return Ok(TypeSpecifierQualifier::from(alignment));
        }
        self.err(Expected::TypeSpecifierQualifier);
        Err(())
    }

    /// One or more member declarators with commas between them. A comma
    /// that no declarator follows is left where it is.
    #[verifier::spinoff_prover]
    pub(crate) fn parse_member_declarator_list(&mut self) -> (r: Res<MemberDeclaratorList<'a>>)
        requires
            old(self)@.wf(),
        ensures
            final(self)@.gives(
                r,
                member_declarator_list_at(
                    old(self)@.tokens,
                    Some(old(self)@.index),
                    old(self)@.names,
                ),
            ),
            r matches Ok(node) ==> node.well_scoped(old(self)@.names),
            match r {
                Ok(node) => final(self)@.reached(
                    old(self)@,
                    node.span_end(old(self)@.tokens, Some(old(self)@.index)),
                ),
                Err(_) => final(self)@.follows(old(self)@),
            },
        decreases old(self)@.left(), 76nat,
    {
        proof {
            reveal(member_declarator_list_rule);
            assert(member_declarator_list_at(
                old(self)@.tokens,
                Some(old(self)@.index),
                old(self)@.names,
            ) == member_declarator_list_rule(
                old(self)@.tokens,
                Some(old(self)@.index),
                old(self)@.names,
            ));
        }
        let at = self.at();
        let first = self.parse_member_declarator()?;
        let mut left = CommaList { at, kind: CommaListKind::Leaf(Box::new(first)) };
        loop
            invariant
                member_declarator_list_rest(
                    old(self)@.tokens,
                    Some(self@.index),
                    old(self)@.names,
                    left,
                )
                    == member_declarator_list_at(
                        old(self)@.tokens,
                        Some(old(self)@.index),
                        old(self)@.names,
                    ),
                left.well_scoped(old(self)@.names),
                self@.reached(old(self)@, left.span_end(old(self)@.tokens, Some(old(self)@.index))),
            decreases self@.left(),
        {
            proof {
                reveal(member_declarator_list_rest_rule);
                assert(member_declarator_list_rest(
                    old(self)@.tokens,
                    Some(self@.index),
                    old(self)@.names,
                    left,
                ) == member_declarator_list_rest_rule(
                    old(self)@.tokens,
                    Some(self@.index),
                    old(self)@.names,
                    left,
                ));
            }
            if !self.is(TokenKind::Comma) {
                return Ok(left);
            }
            let checkpoint = self.begin();
            let comma = self.next();
            let attempt = self.parse_member_declarator();
            let right = match self.settle(checkpoint, attempt) {
                Ok(right) => right,
                Err(_) => { return Ok(left); },
            };
            left =
            CommaList {
                at: left.at,
                kind: CommaListKind::Cons { left: Box::new(left), comma, right: Box::new(right) },
            };
        }
    }

    /// A member declarator with a width, or else a declarator alone.
    #[verifier::spinoff_prover]
    pub(crate) fn parse_member_declarator(&mut self) -> (r: Res<MemberDeclarator<'a>>)
        requires
            old(self)@.wf(),
        ensures
            final(self)@.gives(
                r,
                member_declarator_at(old(self)@.tokens, Some(old(self)@.index), old(self)@.names),
            ),
            r matches Ok(node) ==> node.well_scoped(old(self)@.names),
            match r {
                Ok(node) => final(self)@.reached(
                    old(self)@,
                    node.span_end(old(self)@.tokens, Some(old(self)@.index)),
                ),
                Err(_) => final(self)@.follows(old(self)@),
            },
        decreases old(self)@.left(), 75nat,
    {
        proof {
            reveal(member_declarator_rule);
            assert(member_declarator_at(
                old(self)@.tokens,
                Some(old(self)@.index),
                old(self)@.names,
            ) == member_declarator_rule(
                old(self)@.tokens,
                Some(old(self)@.index),
                old(self)@.names,
            ));
        }
        let checkpoint = self.begin();
        let attempt = self.parse_member_declarator_prime();
        if let Ok(member) = self.settle(checkpoint, attempt) {
            return Ok(member);
        }
        let declarator = self.parse_declarator(false)?;

        Ok(MemberDeclarator { at: declarator.at, declarator: Some(declarator), width: None })
    }

    /// A declarator, if there is one, a colon and a width.
    #[verifier::spinoff_prover]
    pub(crate) fn parse_member_declarator_prime(&mut self) -> (r: Res<MemberDeclarator<'a>>)
        requires
            old(self)@.wf(),
        ensures
            final(self)@.gives(
                r,
                member_declarator_prime_at(
                    old(self)@.tokens,
                    Some(old(self)@.index),
                    old(self)@.names,
                ),
            ),
            r matches Ok(node) ==> node.well_scoped(old(self)@.names),
            match r {
                Ok(node) => final(self)@.reached(
                    old(self)@,
                    node.span_end(old(self)@.tokens, Some(old(self)@.index)),
                ),
                Err(_) => final(self)@.follows(old(self)@),
            },
        decreases old(self)@.left(), 74nat,
    {
        proof {
            reveal(member_declarator_prime_rule);
            assert(member_declarator_prime_at(
                old(self)@.tokens,
                Some(old(self)@.index),
                old(self)@.names,
            ) == member_declarator_prime_rule(
                old(self)@.tokens,
                Some(old(self)@.index),
                old(self)@.names,
            ));
        }
        let at = self.at();
        let checkpoint = self.begin();
        let attempt = self.parse_declarator(false);
        let declarator = self.settle_optional(checkpoint, attempt);
        let colon = self.take(TokenKind::Colon)?;
        let width = self.parse_constant_expression()?;

        Ok(MemberDeclarator { at, declarator, width: Some((colon, width)) })
    }

    /// An enum specifier. One without a tag and without enumerators is
    /// accepted with a diagnostic.
    #[verifier::spinoff_prover]
    pub(crate) fn parse_enum_specifier(&mut self) -> (r: Res<EnumSpecifier<'a>>)
        requires
            old(self)@.wf(),
        ensures
            final(self)@.gives(
                r,
                enum_specifier_at(old(self)@.tokens, Some(old(self)@.index), old(self)@.names),
            ),
            r matches Ok(node) ==> node.well_scoped(old(self)@.names),
            match r {
                Ok(node) => final(self)@.reached(
                    old(self)@,
                    node.span_end(old(self)@.tokens, Some(old(self)@.index)),
                ),
                Err(_) => final(self)@.follows(old(self)@),
            },
        decreases old(self)@.left(), 2nat,
    {
        proof {
            reveal(enum_specifier_rule);
            assert(enum_specifier_at(
                old(self)@.tokens,
                Some(old(self)@.index),
                old(self)@.names,
            ) == enum_specifier_rule(
                old(self)@.tokens,
                Some(old(self)@.index),
                old(self)@.names,
            ));
        }
        let at = self.at();
        let enum_keyword = self.take(TokenKind::Enum)?;
        let attributes = self.parse_optional_attributes();
        let tag_at = self.cur();
        proof {
            let k = self@.index;
            assert(self@.tokens[k - 1].kind is Enum && self@.tokens[k] == tag_at);
            assert(is_missing_tag(
                self@.tokens,
                ParseErr { at: tag_at, expected: Expected::Identifier },
            ));
        }
        let tag = self.take_optional_identifier();
        let checkpoint = self.begin();
        let attempt = self.parse_enum_type_specifier();
        let enum_type = self.settle_optional(checkpoint, attempt);

        let enumerators = if self.is(TokenKind::OpenBrace) {
            let open_brace = self.next();
            let enumerators = self.parse_enumerator_list()?;
            let final_comma = self.take_optional(TokenKind::Comma);
            let close_brace = self.take(TokenKind::CloseBrace)?;

            Some((open_brace, enumerators, final_comma, close_brace))
        } else {
            if tag.is_none() {
                self.err_at(tag_at, Expected::Identifier);
            }
            None
        };

        Ok(EnumSpecifier { at, enum_keyword, attributes, tag, enum_type, enumerators })
    }

    /// One or more enumerators with commas between them. A comma that no
    /// enumerator follows is left where it is.
    #[verifier::spinoff_prover]
    pub(crate) fn parse_enumerator_list(&mut self) -> (r: Res<EnumeratorList<'a>>)
        requires
            old(self)@.wf(),
        ensures
            final(self)@.gives(
                r,
                enumerator_list_at(old(self)@.tokens, Some(old(self)@.index), old(self)@.names),
            ),
            r matches Ok(node) ==> node.well_scoped(old(self)@.names),
            match r {
                Ok(node) => final(self)@.reached(
                    old(self)@,
                    node.span_end(old(self)@.tokens, Some(old(self)@.index)),
                ),
                Err(_) => final(self)@.follows(old(self)@),
            },
        decreases old(self)@.left(), 3nat,
    {
        proof {
            reveal(enumerator_list_rule);
            assert(enumerator_list_at(
                old(self)@.tokens,
                Some(old(self)@.index),
                old(self)@.names,
            ) == enumerator_list_rule(
                old(self)@.tokens,
                Some(old(self)@.index),
                old(self)@.names,
            ));
        }
        let at = self.at();
        let first = self.parse_enumerator()?;
        let mut left = CommaList { at, kind: CommaListKind::Leaf(Box::new(first)) };
        loop
            invariant
                enumerator_list_rest(old(self)@.tokens, Some(self@.index), old(self)@.names, left)
                    == enumerator_list_at(
                        old(self)@.tokens,
                        Some(old(self)@.index),
                        old(self)@.names,
                    ),
                left.well_scoped(old(self)@.names),
                self@.reached(old(self)@, left.span_end(old(self)@.tokens, Some(old(self)@.index))),
            decreases self@.left(),
        {
            proof {
                reveal(enumerator_list_rest_rule);
                assert(enumerator_list_rest(
                    old(self)@.tokens,
                    Some(self@.index),
                    old(self)@.names,
                    left,
                ) == enumerator_list_rest_rule(
                    old(self)@.tokens,
                    Some(self@.index),
                    old(self)@.names,
                    left,
                ));
            }
            if !self.is(TokenKind::Comma) {
                return Ok(left);
            }
            let checkpoint = self.begin();
            let comma = self.next();
            let attempt = self.parse_enumerator();
            let right = match self.settle(checkpoint, attempt) {
                Ok(right) => right,
                Err(_) => { return Ok(left); },
            };
            left =
            CommaList {
                at: left.at,
                kind: CommaListKind::Cons { left: Box::new(left), comma, right: Box::new(right) },
            };
        }
    }

    /// The name of an enumeration constant, with its value if it has one.
    #[verifier::spinoff_prover]
    pub(crate) fn parse_enumerator(&mut self) -> (r: Res<Enumerator<'a>>)
        requires
            old(self)@.wf(),
        ensures
            final(self)@.gives(
                r,
                enumerator_at(old(self)@.tokens, Some(old(self)@.index), old(self)@.names),
            ),
            r matches Ok(node) ==> node.well_scoped(old(self)@.names),
            match r {
                Ok(node) => final(self)@.reached(
                    old(self)@,
                    node.span_end(old(self)@.tokens, Some(old(self)@.index)),
                ),
                Err(_) => final(self)@.follows(old(self)@),
            },
        decreases old(self)@.left(), 2nat,
    {
        proof {
            reveal(enumerator_rule);
            assert(enumerator_at(
                old(self)@.tokens,
                Some(old(self)@.index),
                old(self)@.names,
            ) == enumerator_rule(
                old(self)@.tokens,
                Some(old(self)@.index),
                old(self)@.names,
            ));
        }
        let at = self.at();
        let name = self.take_identifier()?;
        let attributes = self.parse_optional_attributes();
        let value = if self.is(TokenKind::Equal) {
            let equal = self.next();
            let value = self.parse_constant_expression()?;
            Some((equal, value))
        } else {
            None
        };

        Ok(Enumerator { at, name, attributes, value })
    }

    /// A colon and the specifiers of the type that an enumeration is based
    /// on.
    #[verifier::spinoff_prover]
    pub(crate) fn parse_enum_type_specifier(&mut self) -> (r: Res<EnumTypeSpecifier<'a>>)
        requires
            old(self)@.wf(),
        ensures
            final(self)@.gives(
                r,
                enum_type_specifier_at(old(self)@.tokens, Some(old(self)@.index), old(self)@.names),
            ),
            r matches Ok(node) ==> node.well_scoped(old(self)@.names),
            match r {
                Ok(node) => final(self)@.reached(
                    old(self)@,
                    node.span_end(old(self)@.tokens, Some(old(self)@.index)),
                ),
                Err(_) => final(self)@.follows(old(self)@),
            },
        decreases old(self)@.left(), 2nat,
    {
        proof {
            reveal(enum_type_specifier_rule);
            assert(enum_type_specifier_at(
                old(self)@.tokens,
                Some(old(self)@.index),
                old(self)@.names,
            ) == enum_type_specifier_rule(
                old(self)@.tokens,
                Some(old(self)@.index),
                old(self)@.names,
            ));
        }
        let at = self.at();
        let colon = self.take(TokenKind::Colon)?;
        let specifier_qualifiers = self.parse_specifier_qualifier_list()?;

        Ok(EnumTypeSpecifier { at, colon, specifier_qualifiers })
    }

    /// `_Atomic` and a type name in parentheses.
    #[verifier::spinoff_prover]
    pub(crate) fn parse_atomic_type_specifier(&mut self) -> (r: Res<AtomicTypeSpecifier<'a>>)
        requires
            old(self)@.wf(),
        ensures
            final(self)@.gives(
                r,
                atomic_type_specifier_at(
                    old(self)@.tokens,
                    Some(old(self)@.index),
                    old(self)@.names,
                ),
            ),
            r matches Ok(node) ==> node.well_scoped(old(self)@.names),
            match r {
                Ok(node) => final(self)@.reached(
                    old(self)@,
                    node.span_end(old(self)@.tokens, Some(old(self)@.index)),
                ),
                Err(_) => final(self)@.follows(old(self)@),
            },
        decreases old(self)@.left(), 2nat,
    {
        proof {
            reveal(atomic_type_specifier_rule);
            assert(atomic_type_specifier_at(
                old(self)@.tokens,
                Some(old(self)@.index),
                old(self)@.names,
            ) == atomic_type_specifier_rule(
                old(self)@.tokens,
                Some(old(self)@.index),
                old(self)@.names,
            ));
        }
        let at = self.at();
        let atomic_keyword = self.take(TokenKind::Atomic)?;
        let open_parenthesis = self.take(TokenKind::OpenParenthesis)?;
        let typename = self.parse_type_name()?;
        let close_parenthesis = self.take(TokenKind::CloseParenthesis)?;

        Ok(
            AtomicTypeSpecifier { at,
            atomic_keyword,
            open_parenthesis,
            typename,
            close_parenthesis },
        )
    }

    /// `typeof` or `typeof_unqual` and its argument in parentheses.
    #[verifier::spinoff_prover]
    pub(crate) fn parse_typeof_specifier(&mut self) -> (r: Res<TypeofSpecifier<'a>>)
        requires
            old(self)@.wf(),
        ensures
            final(self)@.gives(
                r,
                typeof_specifier_at(old(self)@.tokens, Some(old(self)@.index), old(self)@.names),
            ),
            r matches Ok(node) ==> node.well_scoped(old(self)@.names),
            match r {
                Ok(node) => final(self)@.reached(
                    old(self)@,
                    node.span_end(old(self)@.tokens, Some(old(self)@.index)),
                ),
                Err(_) => final(self)@.follows(old(self)@),
            },
        decreases old(self)@.left(), 2nat,
    {
        proof {
            reveal(typeof_specifier_rule);
            assert(typeof_specifier_at(
                old(self)@.tokens,
                Some(old(self)@.index),
                old(self)@.names,
            ) == typeof_specifier_rule(
                old(self)@.tokens,
                Some(old(self)@.index),
                old(self)@.names,
            ));
        }
        let at = self.at();
        let (typeof_keyword, unqual) = if self.is(TokenKind::TypeofUnqual) {
            (self.next(), true)
        } else {
            (self.take(TokenKind::Typeof)?, false)
        };

        let open_parenthesis = self.take(TokenKind::OpenParenthesis)?;
        let argument = self.parse_typeof_specifier_argument()?;
        let close_parenthesis = self.take(TokenKind::CloseParenthesis)?;

        Ok(
            TypeofSpecifier {
                at,
                typeof_keyword,
                unqual,
                open_parenthesis,
                argument,
                close_parenthesis,
            },
        )
    }

    /// An expression, or else a type name.
    #[verifier::spinoff_prover]
    pub(crate) fn parse_typeof_specifier_argument(&mut self) -> (r: Res<
        TypeofSpecifierArgument<'a>,
    >)
        requires
            old(self)@.wf(),
        ensures
            final(self)@.gives(
                r,
                typeof_specifier_argument_at(
                    old(self)@.tokens,
                    Some(old(self)@.index),
                    old(self)@.names,
                ),
            ),
            r matches Ok(node) ==> node.well_scoped(old(self)@.names),
            match r {
                Ok(node) => final(self)@.reached(
                    old(self)@,
                    node.span_end(old(self)@.tokens, Some(old(self)@.index)),
                ),
                Err(_) => final(self)@.failed_with(old(self)@, Expected::TypeofSpecifierArgument),
            },
        decreases old(self)@.left(), 56nat,
    {
        proof {
            reveal(typeof_specifier_argument_rule);
            assert(typeof_specifier_argument_at(
                old(self)@.tokens,
                Some(old(self)@.index),
                old(self)@.names,
            ) == typeof_specifier_argument_rule(
                old(self)@.tokens,
                Some(old(self)@.index),
                old(self)@.names,
            ));
        }
        let at = self.at();
        let checkpoint = self.begin();
        let attempt = self.parse_expression();
        if let Ok(expression) = self.settle(checkpoint, attempt) {
            return Ok(
                TypeofSpecifierArgument {
                    at,
                    kind: TypeofSpecifierArgumentKind::Expression(expression),
                },
            );
        }
        let checkpoint = self.begin();
        let attempt = self.parse_type_name();
        if let Ok(typename) = self.settle(checkpoint, attempt) {
            return Ok(
                TypeofSpecifierArgument { at, kind: TypeofSpecifierArgumentKind::Type(typename) },
            );
        }
        self.err(Expected::TypeofSpecifierArgument);
        Err(())
    }

    /// `alignas` and in parentheses a constant expression, or else a type
    /// name.
    #[verifier::spinoff_prover]
    pub(crate) fn parse_alignment_specifier(&mut self) -> (r: Res<AlignmentSpecifier<'a>>)
        requires
            old(self)@.wf(),
        ensures
            final(self)@.gives(
                r,
                alignment_specifier_at(old(self)@.tokens, Some(old(self)@.index), old(self)@.names),
            ),
            r matches Ok(node) ==> node.well_scoped(old(self)@.names),
            match r {
                Ok(node) => final(self)@.reached(
                    old(self)@,
                    node.span_end(old(self)@.tokens, Some(old(self)@.index)),
                ),
                Err(_) => final(self)@.follows(old(self)@),
            },
        decreases old(self)@.left(), 2nat,
    {
        proof {
            reveal(alignment_specifier_rule);
            assert(alignment_specifier_at(
                old(self)@.tokens,
                Some(old(self)@.index),
                old(self)@.names,
            ) == alignment_specifier_rule(
                old(self)@.tokens,
                Some(old(self)@.index),
                old(self)@.names,
            ));
        }
        let at = self.at();
        let alignas_keyword = self.take(TokenKind::Alignas)?;
        let open_parenthesis = self.take(TokenKind::OpenParenthesis)?;
        let checkpoint = self.begin();
        let attempt = self.parse_constant_expression();
        let kind = match self.settle(checkpoint, attempt) {
            Ok(expression) => AlignmentSpecifierKind::Expression(expression),
            Err(_) => {
                let checkpoint = self.begin();
                let attempt = self.parse_type_name();
                match self.settle(checkpoint, attempt) {
                    Ok(typename) => AlignmentSpecifierKind::Type(typename),
                    Err(_) => {
                        self.err(Expected::AlignasArgument);
                        return Err(());
                    },
                }
            },
        };
        let close_parenthesis = self.take(TokenKind::CloseParenthesis)?;

        Ok(AlignmentSpecifier { at, alignas_keyword, open_parenthesis, kind, close_parenthesis })
    }

    /// A type name: specifiers and qualifiers, and an abstract declarator
    /// if one follows.
    #[verifier::spinoff_prover]
    pub(crate) fn parse_type_name(&mut self) -> (r: Res<TypeName<'a>>)
        requires
            old(self)@.wf(),
        ensures
            final(self)@.gives(
                r,
                typename_at(old(self)@.tokens, Some(old(self)@.index), old(self)@.names),
            ),
            r matches Ok(node) ==> node.well_scoped(old(self)@.names),
            match r {
                Ok(node) => final(self)@.reached(
                    old(self)@,
                    node.span_end(old(self)@.tokens, Some(old(self)@.index)),
                ),
                Err(_) => final(self)@.follows(old(self)@),
            },
        decreases old(self)@.left(), 13nat,
    {
        proof {
            reveal(typename_rule);
            assert(typename_at(
                old(self)@.tokens,
                Some(old(self)@.index),
                old(self)@.names,
            ) == typename_rule(
                old(self)@.tokens,
                Some(old(self)@.index),
                old(self)@.names,
            ));
        }
        let at = self.at();
        let specifier_qualifiers = self.parse_specifier_qualifier_list()?;
        let checkpoint = self.begin();
        let attempt = self.parse_abstract_declarator();
        let declarator = self.settle_optional(checkpoint, attempt);

        Ok(TypeName { at, specifier_qualifiers, declarator })
    }
}

} // verus!
