//! The rules for declarations, initializers and the translation unit.

use crate::ast::{
    AttributeDeclaration, BracedInitializer, CommaList, CommaListKind, Declaration,
    DeclarationKind, DeclarationSpecifier, DeclarationSpecifiers,
    DeclarationSpecifiersKind, Designation, Designator, DesignatorKind, DesignatorList,
    ExternalDeclaration, ExternalDeclarationKind, FunctionDefinition, InitDeclarator,
    InitDeclaratorList, Initializer, InitializerKind, InitializerList, List, ListKind,
    StaticAssertDeclaration, StringLiteral, TranslationUnit,
};
use crate::parser::{Expected, Parser, Res};
use crate::scope::declarations::designated_initializer_well_scoped;
use crate::span::declarations::designated_initializer_end;
use crate::token::TokenKind;
use crate::grammar::declarations::{
    braced_initializer_at, declaration_at, declaration_specifier_at, declaration_specifiers_at,
    designated_initializer_at, designation_at, designator_at, designator_list_at,
    designator_list_rest, external_declaration_at, function_definition_at,
    init_declarator_at, init_declarator_list_at, init_declarator_list_rest, initializer_at,
    initializer_list_at, initializer_list_rest, static_assert_declaration_at,
    translation_unit_at, translation_unit_rest,
};
use crate::grammar::declarations::{
    braced_initializer_rule,
    declaration_rule,
    declaration_specifier_rule,
    declaration_specifiers_rule,
    designated_initializer_rule,
    designation_rule,
    designator_list_rest_rule,
    designator_list_rule,
    designator_rule,
    external_declaration_rule,
    function_definition_rule,
    init_declarator_list_rest_rule,
    init_declarator_list_rule,
    init_declarator_rule,
    initializer_list_rest_rule,
    initializer_list_rule,
    initializer_rule,
    static_assert_declaration_rule,
    translation_unit_rest_rule,
    translation_unit_rule,
};
use vstd::prelude::*;

verus! {

impl<'a, 'b> Parser<'a, 'b> {
    /// A static assertion, or else specifiers, the declarators with their
    /// initializers, and a semicolon. Where the specifiers hold `typedef`,
    /// the declared names become typedef names of the innermost scope.
    #[verifier::spinoff_prover]
    pub(crate) fn parse_declaration(&mut self) -> (r: Res<Declaration<'a>>)
        requires
            old(self)@.wf(),
        ensures
            final(self)@.gives(
                r,
                declaration_at(old(self)@.tokens, Some(old(self)@.index), old(self)@.names),
            ),
            r matches Ok(node) ==> node.well_scoped(old(self)@.names),
            match r {
                Ok(node) => final(self)@.declared(
                    old(self)@,
                    node.span_end(old(self)@.tokens, Some(old(self)@.index)),
                    node.typedef_names(),
                ),
                Err(_) => final(self)@.follows(old(self)@),
            },
        decreases old(self)@.left(), 80nat,
    {
        proof {
            reveal(declaration_rule);
            assert(declaration_at(
                old(self)@.tokens,
                Some(old(self)@.index),
                old(self)@.names,
            ) == declaration_rule(
                old(self)@.tokens,
                Some(old(self)@.index),
                old(self)@.names,
            ));
        }
        let mut is_typedef = false;

        let at = self.at();
        let checkpoint = self.begin();
        let attempt = self.parse_static_assert_declaration();
        if let Ok(assertion) = self.settle(checkpoint, attempt) {
            let node = Declaration { at, kind: DeclarationKind::Assert(assertion) };
            proof {
                assert(self@.names =~= old(self)@.names + node.typedef_names());
            }
            return Ok(node);
        }
        let checkpoint = self.begin();
        let attempt = self.parse_attribute_declaration();
        if let Ok(attribute) = self.settle(checkpoint, attempt) {
            return Ok(Declaration { at, kind: DeclarationKind::Attribute(attribute) });
        }
        let checkpoint = self.begin();
        let attempt = self.parse_attribute_specifier_sequence();
        let kind = match self.settle(checkpoint, attempt) {
            Ok(attribute) => {
                let specifiers = self.parse_declaration_specifiers(&mut is_typedef)?;
                let init_declarators = self.parse_init_declarator_list(is_typedef)?;
                let semicolon = self.take(TokenKind::Semicolon)?;

                DeclarationKind::Normal {
                    attributes: Some(attribute),
                    specifiers,
                    init_declarators: Some(init_declarators),
                    semicolon,
                }
            },
            Err(_) => {
                let specifiers = self.parse_declaration_specifiers(&mut is_typedef)?;
                let checkpoint = self.begin();
                let attempt = self.parse_init_declarator_list(is_typedef);
                let init_declarators = self.settle_optional(checkpoint, attempt);
                let semicolon = self.take(TokenKind::Semicolon)?;
                DeclarationKind::Normal {
                    attributes: None,
                    specifiers,
                    init_declarators,
                    semicolon,
                }
            },
        };

        let node = Declaration { at, kind };
        proof {
            assert(self@.names =~= old(self)@.names + node.typedef_names());
        }
        Ok(node)
    }

    /// One or more declaration specifiers. `typedef` among them sets
    /// `is_typedef`.
    #[verifier::spinoff_prover]
    pub(crate) fn parse_declaration_specifiers(&mut self, is_typedef: &mut bool) -> (r: Res<
        DeclarationSpecifiers<'a>,
    >)
        requires
            old(self)@.wf(),
        ensures
            final(self)@.gives(
                r,
                declaration_specifiers_at(
                    old(self)@.tokens,
                    Some(old(self)@.index),
                    old(self)@.names,
                ),
            ),
            r matches Ok(node) ==> node.well_scoped(old(self)@.names),
            match r {
                Ok(node) => {
                    &&& final(self)@.reached(
                        old(self)@,
                        node.span_end(old(self)@.tokens, Some(old(self)@.index)),
                    )
                    &&& *final(is_typedef) == (*old(is_typedef) || node.has_typedef())
                },
                Err(_) => {
                    &&& final(self)@.follows(old(self)@)
                    &&& *final(is_typedef) == *old(is_typedef)
                },
            },
        decreases old(self)@.left(), 61nat,
    {
        proof {
            reveal(declaration_specifiers_rule);
            assert(declaration_specifiers_at(
                old(self)@.tokens,
                Some(old(self)@.index),
                old(self)@.names,
            ) == declaration_specifiers_rule(
                old(self)@.tokens,
                Some(old(self)@.index),
                old(self)@.names,
            ));
        }
        let at = self.at();
        let specifier = self.parse_declaration_specifier(is_typedef)?;
        let checkpoint = self.begin();
        let attempt = self.parse_declaration_specifiers(is_typedef);
        let kind = match self.settle(checkpoint, attempt) {
            Ok(rest) => DeclarationSpecifiersKind::Cons(Box::new(rest)),
            Err(_) => {
                let attributes = self.parse_optional_attributes();
                DeclarationSpecifiersKind::Leaf(attributes)
            },
        };

        Ok(DeclarationSpecifiers { at, specifier, kind })
    }

    /// A storage class specifier, or else a type specifier or qualifier,
    /// or else a function specifier.
    #[verifier::spinoff_prover]
    pub(crate) fn parse_declaration_specifier(&mut self, is_typedef: &mut bool) -> (r: Res<
        DeclarationSpecifier<'a>,
    >)
        requires
            old(self)@.wf(),
        ensures
            final(self)@.gives(
                r,
                declaration_specifier_at(
                    old(self)@.tokens,
                    Some(old(self)@.index),
                    old(self)@.names,
                ),
            ),
            r matches Ok(node) ==> node.well_scoped(old(self)@.names),
            match r {
                Ok(node) => {
                    &&& final(self)@.reached(
                        old(self)@,
                        node.span_end(old(self)@.tokens, Some(old(self)@.index)),
                    )
                    &&& *final(is_typedef) == (*old(is_typedef) || node.is_typedef())
                },
                Err(_) => {
                    &&& final(self)@.failed_with(old(self)@, Expected::DeclarationSpecifier)
                    &&& *final(is_typedef) == *old(is_typedef)
                },
            },
        decreases old(self)@.left(), 60nat,
    {
        proof {
            reveal(declaration_specifier_rule);
            assert(declaration_specifier_at(
                old(self)@.tokens,
                Some(old(self)@.index),
                old(self)@.names,
            ) == declaration_specifier_rule(
                old(self)@.tokens,
                Some(old(self)@.index),
                old(self)@.names,
            ));
        }
        let checkpoint = self.begin();
        let attempt = self.parse_storage_class_specifier(is_typedef);
        if let Ok(specifier) = self.settle(checkpoint, attempt) {
            return Ok(DeclarationSpecifier::from(specifier));
        }
        let checkpoint = self.begin();
        let attempt = self.parse_type_specifier_qualifier();
        if let Ok(specifier) = self.settle(checkpoint, attempt) {
            return Ok(DeclarationSpecifier::from(specifier));
        }
        let checkpoint = self.begin();
        let attempt = self.parse_function_specifier();
        if let Ok(specifier) = self.settle(checkpoint, attempt) {
            return Ok(DeclarationSpecifier::from(specifier));
        }
        self.err(Expected::DeclarationSpecifier);
        Err(())
    }

    /// One or more declarators, each with its initializer if it has one,
    /// with commas between them. A comma that no declarator follows is
    /// left where it is. With `is_typedef` the declared names become
    /// typedef names of the innermost scope.
    #[verifier::spinoff_prover]
    pub(crate) fn parse_init_declarator_list(&mut self, is_typedef: bool) -> (r: Res<
        InitDeclaratorList<'a>,
    >)
        requires
            old(self)@.wf(),
        ensures
            final(self)@.gives(
                r,
                init_declarator_list_at(
                    old(self)@.tokens,
                    Some(old(self)@.index),
                    old(self)@.names,
                    is_typedef,
                ),
            ),
            r matches Ok(node) ==> node.well_scoped(old(self)@.names, is_typedef),
            match r {
                Ok(node) => if is_typedef {
                    final(self)@.declared(
                        old(self)@,
                        node.span_end(old(self)@.tokens, Some(old(self)@.index)),
                        node.names(),
                    )
                } else {
                    final(self)@.reached(
                        old(self)@,
                        node.span_end(old(self)@.tokens, Some(old(self)@.index)),
                    )
                },
                Err(_) => final(self)@.follows(old(self)@),
            },
        decreases old(self)@.left(), 74nat,
    {
        proof {
            reveal(init_declarator_list_rule);
            assert(init_declarator_list_at(
                old(self)@.tokens,
                Some(old(self)@.index),
                old(self)@.names,
                is_typedef,
            ) == init_declarator_list_rule(
                old(self)@.tokens,
                Some(old(self)@.index),
                old(self)@.names,
                is_typedef,
            ));
        }
        let at = self.at();
        let first = self.parse_init_declarator(is_typedef)?;
        let mut left = CommaList { at, kind: CommaListKind::Leaf(Box::new(first)) };
        loop
            invariant
                init_declarator_list_rest(
                    old(self)@.tokens,
                    Some(self@.index),
                    old(self)@.names,
                    is_typedef,
                    left,
                )
                    == init_declarator_list_at(
                        old(self)@.tokens,
                        Some(old(self)@.index),
                        old(self)@.names,
                        is_typedef,
                    ),
                left.well_scoped(old(self)@.names, is_typedef),
                if is_typedef {
                    self@.declared(
                        old(self)@,
                        left.span_end(old(self)@.tokens, Some(old(self)@.index)),
                        left.names(),
                    )
                } else {
                    self@.reached(
                        old(self)@,
                        left.span_end(old(self)@.tokens, Some(old(self)@.index)),
                    )
                },
            decreases self@.left(),
        {
            proof {
                reveal(init_declarator_list_rest_rule);
                assert(init_declarator_list_rest(
                    old(self)@.tokens,
                    Some(self@.index),
                    old(self)@.names,
                    is_typedef,
                    left,
                ) == init_declarator_list_rest_rule(
                    old(self)@.tokens,
                    Some(self@.index),
                    old(self)@.names,
                    is_typedef,
                    left,
                ));
            }
            if !self.is(TokenKind::Comma) {
                return Ok(left);
            }
            let checkpoint = self.begin();
            let comma = self.next();
            let attempt = self.parse_init_declarator(is_typedef);
            let right = match self.settle(checkpoint, attempt) {
                Ok(right) => right,
                Err(_) => { return Ok(left); },
            };
            left =
            CommaList {
                at: left.at,
                kind: CommaListKind::Cons { left: Box::new(left), comma, right: Box::new(right) },
            };
            proof {
                if is_typedef {
                    assert(self@.names =~= old(self)@.names + left.names());
                }
            }
        }
    }

    /// A declarator with its initializer, if it has one.
    #[verifier::spinoff_prover]
    pub(crate) fn parse_init_declarator(&mut self, is_typedef: bool) -> (r: Res<
        InitDeclarator<'a>,
    >)
        requires
            old(self)@.wf(),
        ensures
            final(self)@.gives(
                r,
                init_declarator_at(
                    old(self)@.tokens,
                    Some(old(self)@.index),
                    old(self)@.names,
                    is_typedef,
                ),
            ),
            r matches Ok(node) ==> node.well_scoped(old(self)@.names, is_typedef),
            match r {
                Ok(node) => if is_typedef {
                    final(self)@.declared(
                        old(self)@,
                        node.span_end(old(self)@.tokens, Some(old(self)@.index)),
                        seq![node.declarator.name()],
                    )
                } else {
                    final(self)@.reached(
                        old(self)@,
                        node.span_end(old(self)@.tokens, Some(old(self)@.index)),
                    )
                },
                Err(_) => final(self)@.follows(old(self)@),
            },
        decreases old(self)@.left(), 73nat,
    {
        proof {
            reveal(init_declarator_rule);
            assert(init_declarator_at(
                old(self)@.tokens,
                Some(old(self)@.index),
                old(self)@.names,
                is_typedef,
            ) == init_declarator_rule(
                old(self)@.tokens,
                Some(old(self)@.index),
                old(self)@.names,
                is_typedef,
            ));
        }
        let at = self.at();
        let declarator = self.parse_declarator(is_typedef)?;
        let initializer = if self.is(TokenKind::Equal) {
            let equal = self.next();
            let initializer = self.parse_initializer()?;
            Some((equal, initializer))
        } else {
            None
        };

        Ok(InitDeclarator { at, declarator, initializer })
    }

    /// Attribute specifiers and a semicolon. No attribute specifier is ever
    /// read, so the rule fails on every input.
    pub(crate) fn parse_attribute_declaration(&mut self) -> (r: Res<AttributeDeclaration<'a>>)
        requires
            old(self)@.wf(),
        ensures
            r is Err,
            final(self)@.follows(old(self)@),
    {
        let at = self.at();
        let attributes = self.parse_attribute_specifier_sequence()?;
        let semicolon = self.take(TokenKind::Semicolon)?;
        Ok(AttributeDeclaration { at, attributes, semicolon })
    }

    /// Braces with an initializer list in them, if there is one, and a
    /// comma behind it, if there is one.
    #[verifier::spinoff_prover]
    pub(crate) fn parse_braced_initializer(&mut self) -> (r: Res<BracedInitializer<'a>>)
        requires
            old(self)@.wf(),
        ensures
            final(self)@.gives(
                r,
                braced_initializer_at(old(self)@.tokens, Some(old(self)@.index), old(self)@.names),
            ),
            r matches Ok(node) ==> node.well_scoped(old(self)@.names),
            match r {
                Ok(node) => final(self)@.reached(
                    old(self)@,
                    node.span_end(old(self)@.tokens, Some(old(self)@.index)),
                ),
                Err(_) => final(self)@.follows(old(self)@),
            },
        decreases old(self)@.left(), 2nat,
    {
        proof {
            reveal(braced_initializer_rule);
            assert(braced_initializer_at(
                old(self)@.tokens,
                Some(old(self)@.index),
                old(self)@.names,
            ) == braced_initializer_rule(
                old(self)@.tokens,
                Some(old(self)@.index),
                old(self)@.names,
            ));
        }
        let at = self.at();
        let open_brace = self.take(TokenKind::OpenBrace)?;
        let initializers = if self.is(TokenKind::CloseBrace) {
            None
        } else {
            let initializer = self.parse_initializer_list()?;
            let final_comma = self.take_optional(TokenKind::Comma);
            Some((initializer, final_comma))
        };
        let close_brace = self.take(TokenKind::CloseBrace)?;

        Ok(BracedInitializer { at, open_brace, initializers, close_brace })
    }

    /// An assignment expression, or else a braced initializer.
    #[verifier::spinoff_prover]
    pub(crate) fn parse_initializer(&mut self) -> (r: Res<Initializer<'a>>)
        requires
            old(self)@.wf(),
        ensures
            final(self)@.gives(
                r,
                initializer_at(old(self)@.tokens, Some(old(self)@.index), old(self)@.names),
            ),
            r matches Ok(node) ==> node.well_scoped(old(self)@.names),
            match r {
                Ok(node) => final(self)@.reached(
                    old(self)@,
                    node.span_end(old(self)@.tokens, Some(old(self)@.index)),
                ),
                Err(_) => final(self)@.failed_with(old(self)@, Expected::Initializer),
            },
        decreases old(self)@.left(), 71nat,
    {
        proof {
            reveal(initializer_rule);
            assert(initializer_at(
                old(self)@.tokens,
                Some(old(self)@.index),
                old(self)@.names,
            ) == initializer_rule(
                old(self)@.tokens,
                Some(old(self)@.index),
                old(self)@.names,
            ));
        }
        let at = self.at();
        let checkpoint = self.begin();
        let attempt = self.parse_assignment_expression();
        if let Ok(expression) = self.settle(checkpoint, attempt) {
            return Ok(Initializer { at, kind: InitializerKind::Expression(expression) });
        }
        let checkpoint = self.begin();
        let attempt = self.parse_braced_initializer();
        if let Ok(braced) = self.settle(checkpoint, attempt) {
            return Ok(Initializer { at, kind: InitializerKind::Braced(Box::new(braced)) });
        }
        self.err(Expected::Initializer);
        Err(())
    }

    /// An initializer with the designation in front of it, if it has one.
    #[verifier::spinoff_prover]
    pub(crate) fn parse_designated_initializer(&mut self) -> (r: Res<
        (Option<Designation<'a>>, Initializer<'a>),
    >)
        requires
            old(self)@.wf(),
        ensures
            final(self)@.gives(
                r,
                designated_initializer_at(
                    old(self)@.tokens,
                    Some(old(self)@.index),
                    old(self)@.names,
                ),
            ),
            r matches Ok(node) ==> designated_initializer_well_scoped(node, old(self)@.names),
            match r {
                Ok(node) => final(self)@.reached(
                    old(self)@,
                    designated_initializer_end(node, old(self)@.tokens, Some(old(self)@.index)),
                ),
                Err(_) => final(self)@.follows(old(self)@),
            },
        decreases old(self)@.left(), 72nat,
    {
        proof {
            reveal(designated_initializer_rule);
            assert(designated_initializer_at(
                old(self)@.tokens,
                Some(old(self)@.index),
                old(self)@.names,
            ) == designated_initializer_rule(
                old(self)@.tokens,
                Some(old(self)@.index),
                old(self)@.names,
            ));
        }
        let checkpoint = self.begin();
        let attempt = self.parse_designation();
        let designation = self.settle_optional(checkpoint, attempt);
        let initializer = self.parse_initializer()?;
        Ok((designation, initializer))
    }

    /// One or more initializers, each with its designation if it has one,
    /// with commas between them. A comma that no initializer follows is
    /// left where it is.
    #[verifier::spinoff_prover]
    pub(crate) fn parse_initializer_list(&mut self) -> (r: Res<InitializerList<'a>>)
        requires
            old(self)@.wf(),
        ensures
            final(self)@.gives(
                r,
                initializer_list_at(old(self)@.tokens, Some(old(self)@.index), old(self)@.names),
            ),
            r matches Ok(node) ==> node.well_scoped(old(self)@.names),
            match r {
                Ok(node) => final(self)@.reached(
                    old(self)@,
                    node.span_end(old(self)@.tokens, Some(old(self)@.index)),
                ),
                Err(_) => final(self)@.follows(old(self)@),
            },
        decreases old(self)@.left(), 73nat,
    {
        proof {
            reveal(initializer_list_rule);
            assert(initializer_list_at(
                old(self)@.tokens,
                Some(old(self)@.index),
                old(self)@.names,
            ) == initializer_list_rule(
                old(self)@.tokens,
                Some(old(self)@.index),
                old(self)@.names,
            ));
        }
        let at = self.at();
        let first = self.parse_designated_initializer()?;
        let mut left = CommaList { at, kind: CommaListKind::Leaf(Box::new(first)) };
        loop
            invariant
                initializer_list_rest(old(self)@.tokens, Some(self@.index), old(self)@.names, left)
                    == initializer_list_at(
                        old(self)@.tokens,
                        Some(old(self)@.index),
                        old(self)@.names,
                    ),
                left.well_scoped(old(self)@.names),
                self@.reached(old(self)@, left.span_end(old(self)@.tokens, Some(old(self)@.index))),
            decreases self@.left(),
        {
            proof {
                reveal(initializer_list_rest_rule);
                assert(initializer_list_rest(
                    old(self)@.tokens,
                    Some(self@.index),
                    old(self)@.names,
                    left,
                ) == initializer_list_rest_rule(
                    old(self)@.tokens,
                    Some(self@.index),
                    old(self)@.names,
                    left,
                ));
            }
            if !self.is(TokenKind::Comma) {
                return Ok(left);
            }
            let checkpoint = self.begin();
            let comma = self.next();
            let attempt = self.parse_designated_initializer();
            let right = match self.settle(checkpoint, attempt) {
                Ok(right) => right,
                Err(_) => { return Ok(left); },
            };
            left =
            CommaList {
                at: left.at,
                kind: CommaListKind::Cons { left: Box::new(left), comma, right: Box::new(right) },
            };
        }
    }

    /// One or more designators and `=`.
    #[verifier::spinoff_prover]
    pub(crate) fn parse_designation(&mut self) -> (r: Res<Designation<'a>>)
        requires
            old(self)@.wf(),
        ensures
            final(self)@.gives(
                r,
                designation_at(old(self)@.tokens, Some(old(self)@.index), old(self)@.names),
            ),
            r matches Ok(node) ==> node.well_scoped(old(self)@.names),
            match r {
                Ok(node) => final(self)@.reached(
                    old(self)@,
                    node.span_end(old(self)@.tokens, Some(old(self)@.index)),
                ),
                Err(_) => final(self)@.follows(old(self)@),
            },
        decreases old(self)@.left(), 4nat,
    {
        proof {
            reveal(designation_rule);
            assert(designation_at(
                old(self)@.tokens,
                Some(old(self)@.index),
                old(self)@.names,
            ) == designation_rule(
                old(self)@.tokens,
                Some(old(self)@.index),
                old(self)@.names,
            ));
        }
        let at = self.at();
        let designators = self.parse_designator_list()?;
        let equal = self.take(TokenKind::Equal)?;

        Ok(Designation { at, designators, equal })
    }

    /// One or more designators.
    #[verifier::spinoff_prover]
    pub(crate) fn parse_designator_list(&mut self) -> (r: Res<DesignatorList<'a>>)
        requires
            old(self)@.wf(),
        ensures
            final(self)@.gives(
                r,
                designator_list_at(old(self)@.tokens, Some(old(self)@.index), old(self)@.names),
            ),
            r matches Ok(node) ==> node.well_scoped(old(self)@.names),
            match r {
                Ok(node) => final(self)@.reached(
                    old(self)@,
                    node.span_end(old(self)@.tokens, Some(old(self)@.index)),
                ),
                Err(_) => final(self)@.follows(old(self)@),
            },
        decreases old(self)@.left(), 3nat,
    {
        proof {
            reveal(designator_list_rule);
            assert(designator_list_at(
                old(self)@.tokens,
                Some(old(self)@.index),
                old(self)@.names,
            ) == designator_list_rule(
                old(self)@.tokens,
                Some(old(self)@.index),
                old(self)@.names,
            ));
        }
        let at = self.at();
        let first = self.parse_designator()?;
        let mut left = List { at, kind: ListKind::Leaf(Box::new(first)) };
        loop
            invariant
                designator_list_rest(old(self)@.tokens, Some(self@.index), old(self)@.names, left)
                    == designator_list_at(
                        old(self)@.tokens,
                        Some(old(self)@.index),
                        old(self)@.names,
                    ),
                left.well_scoped(old(self)@.names),
                self@.reached(old(self)@, left.span_end(old(self)@.tokens, Some(old(self)@.index))),
            decreases self@.left(),
        {
            proof {
                reveal(designator_list_rest_rule);
                assert(designator_list_rest(
                    old(self)@.tokens,
                    Some(self@.index),
                    old(self)@.names,
                    left,
                ) == designator_list_rest_rule(
                    old(self)@.tokens,
                    Some(self@.index),
                    old(self)@.names,
                    left,
                ));
            }
            let checkpoint = self.begin();
            let attempt = self.parse_designator();
            match self.settle(checkpoint, attempt) {
                Ok(right) => {
                    left =
                    List { at: left.at, kind: ListKind::Cons(Box::new(left), Box::new(right)) };
                },
                Err(_) => { return Ok(left); },
            }
        }
    }

    /// A constant expression in brackets, or a period and a member name.
    #[verifier::spinoff_prover]
    pub(crate) fn parse_designator(&mut self) -> (r: Res<Designator<'a>>)
        requires
            old(self)@.wf(),
        ensures
            final(self)@.gives(
                r,
                designator_at(old(self)@.tokens, Some(old(self)@.index), old(self)@.names),
            ),
            r matches Ok(node) ==> node.well_scoped(old(self)@.names),
            match r {
                Ok(node) => final(self)@.reached(
                    old(self)@,
                    node.span_end(old(self)@.tokens, Some(old(self)@.index)),
                ),
                Err(_) => final(self)@.follows(old(self)@),
            },
        decreases old(self)@.left(), 2nat,
    {
        proof {
            reveal(designator_rule);
            assert(designator_at(
                old(self)@.tokens,
                Some(old(self)@.index),
                old(self)@.names,
            ) == designator_rule(
                old(self)@.tokens,
                Some(old(self)@.index),
                old(self)@.names,
            ));
        }
        let at = self.at();
        let kind = if self.is(TokenKind::OpenBracket) {
            let open_bracket = self.next();
            let value = self.parse_constant_expression()?;
            let close_bracket = self.take(TokenKind::CloseBracket)?;
            DesignatorKind::InBrackets { open_bracket, value, close_bracket }
        } else {
            let period = self.take(TokenKind::Period)?;
            let name = self.take_identifier()?;
            DesignatorKind::AfterPeriod { period, name }
        };

        Ok(Designator { at, kind })
    }

    /// `static_assert`, in parentheses the condition and, behind a comma,
    /// the message if there is one, and a semicolon.
    #[verifier::spinoff_prover]
    pub(crate) fn parse_static_assert_declaration(&mut self) -> (r: Res<
        StaticAssertDeclaration<'a>,
    >)
        requires
            old(self)@.wf(),
        ensures
            final(self)@.gives(
                r,
                static_assert_declaration_at(
                    old(self)@.tokens,
                    Some(old(self)@.index),
                    old(self)@.names,
                ),
            ),
            r matches Ok(node) ==> node.well_scoped(old(self)@.names),
            match r {
                Ok(node) => final(self)@.reached(
                    old(self)@,
                    node.span_end(old(self)@.tokens, Some(old(self)@.index)),
                ),
                Err(_) => final(self)@.follows(old(self)@),
            },
        decreases old(self)@.left(), 2nat,
    {
        proof {
            reveal(static_assert_declaration_rule);
            assert(static_assert_declaration_at(
                old(self)@.tokens,
                Some(old(self)@.index),
                old(self)@.names,
            ) == static_assert_declaration_rule(
                old(self)@.tokens,
                Some(old(self)@.index),
                old(self)@.names,
            ));
        }
        let at = self.at();
        let static_assert_keyword = self.take(TokenKind::StaticAssert)?;
        let open_parenthesis = self.take(TokenKind::OpenParenthesis)?;
        let condition = self.parse_constant_expression()?;
        let message = if self.is(TokenKind::Comma) {
            let comma = self.next();
            let string_at = self.at();
            match self.kind() {
                TokenKind::String(literal, encoding) => {
                    self.next();
                    Some((comma, StringLiteral { at: string_at, literal, encoding }))
                },
                _ => {
                    self.err(Expected::StringLiteral);
                    return Err(());
                },
            }
        } else {
            None
        };
        let close_parenthesis = self.take(TokenKind::CloseParenthesis)?;
        let semicolon = self.take(TokenKind::Semicolon)?;

        Ok(
            StaticAssertDeclaration {
                at,
                static_assert_keyword,
                open_parenthesis,
                condition,
                message,
                close_parenthesis,
                semicolon,
            },
        )
    }

    /// The external declarations of a file, read in the scope of the
    /// file. The rule fails only where the first of them fails.
    #[verifier::spinoff_prover]
    pub(crate) fn parse_translation_unit(&mut self) -> (r: Res<TranslationUnit<'a>>)
        requires
            old(self)@.wf(),
        ensures
            final(self)@.gives(
                r,
                translation_unit_at(old(self)@.tokens, Some(old(self)@.index), old(self)@.names),
            ),
            r matches Ok(node) ==> node.well_scoped(old(self)@.names),
            match r {
                Ok(node) => final(self)@.reached(
                    old(self)@,
                    node.span_end(old(self)@.tokens, Some(old(self)@.index)),
                ),
                Err(_) => final(self)@.failed_with(old(self)@, Expected::ExternalDeclaration),
            },
        decreases old(self)@.left(), 94nat,
    {
        proof {
            reveal(translation_unit_rule);
            assert(translation_unit_at(
                old(self)@.tokens,
                Some(old(self)@.index),
                old(self)@.names,
            ) == translation_unit_rule(
                old(self)@.tokens,
                Some(old(self)@.index),
                old(self)@.names,
            ));
        }
        self.push_scope();
        let out = self.parse_external_declaration_list();
        self.pop_scope();
        proof {
            assert(self@.names =~= old(self)@.names);
            assert(self@.marks =~= old(self)@.marks);
        }
        out
    }

    /// One or more external declarations. The rule stops in front of the
    /// first token that begins none.
    #[verifier::spinoff_prover]
    pub(crate) fn parse_external_declaration_list(&mut self) -> (r: Res<TranslationUnit<'a>>)
        requires
            old(self)@.wf(),
        ensures
            final(self)@.gives(
                r,
                translation_unit_at(old(self)@.tokens, Some(old(self)@.index), old(self)@.names),
            ),
            r matches Ok(node) ==> node.well_scoped(old(self)@.names),
            match r {
                Ok(node) => final(self)@.declared(
                    old(self)@,
                    node.span_end(old(self)@.tokens, Some(old(self)@.index)),
                    node.typedef_names(),
                ),
                Err(_) => final(self)@.failed_with(old(self)@, Expected::ExternalDeclaration),
            },
        decreases old(self)@.left(), 93nat,
    {
        proof {
            reveal(translation_unit_rule);
            assert(translation_unit_at(
                old(self)@.tokens,
                Some(old(self)@.index),
                old(self)@.names,
            ) == translation_unit_rule(
                old(self)@.tokens,
                Some(old(self)@.index),
                old(self)@.names,
            ));
        }
        let at = self.at();
        let first = self.parse_external_declaration()?;
        let mut left = List { at, kind: ListKind::Leaf(Box::new(first)) };
        loop
            invariant
                translation_unit_rest(old(self)@.tokens, Some(self@.index), old(self)@.names, left)
                    == translation_unit_at(
                        old(self)@.tokens,
                        Some(old(self)@.index),
                        old(self)@.names,
                    ),
                left.well_scoped(old(self)@.names),
                self@.declared(
                    old(self)@,
                    left.span_end(old(self)@.tokens, Some(old(self)@.index)),
                    left.typedef_names(),
                ),
            decreases self@.left(),
        {
            proof {
                reveal(translation_unit_rest_rule);
                assert(translation_unit_rest(
                    old(self)@.tokens,
                    Some(self@.index),
                    old(self)@.names,
                    left,
                ) == translation_unit_rest_rule(
                    old(self)@.tokens,
                    Some(self@.index),
                    old(self)@.names,
                    left,
                ));
            }
            let checkpoint = self.begin();
            let attempt = self.parse_external_declaration();
            match self.settle(checkpoint, attempt) {
                Ok(right) => {
                    left =
                    List { at: left.at, kind: ListKind::Cons(Box::new(left), Box::new(right)) };
                    proof {
                        assert(self@.names =~= old(self)@.names + left.typedef_names());
                    }
                },
                Err(_) => { return Ok(left); },
            }
        }
    }

    /// A function definition, or else a declaration.
    #[verifier::spinoff_prover]
    pub(crate) fn parse_external_declaration(&mut self) -> (r: Res<ExternalDeclaration<'a>>)
        requires
            old(self)@.wf(),
        ensures
            final(self)@.gives(
                r,
                external_declaration_at(
                    old(self)@.tokens,
                    Some(old(self)@.index),
                    old(self)@.names,
                ),
            ),
            r matches Ok(node) ==> node.well_scoped(old(self)@.names),
            match r {
                Ok(node) => final(self)@.declared(
                    old(self)@,
                    node.span_end(old(self)@.tokens, Some(old(self)@.index)),
                    node.typedef_names(),
                ),
                Err(_) => final(self)@.failed_with(old(self)@, Expected::ExternalDeclaration),
            },
        decreases old(self)@.left(), 92nat,
    {
        proof {
            reveal(external_declaration_rule);
            assert(external_declaration_at(
                old(self)@.tokens,
                Some(old(self)@.index),
                old(self)@.names,
            ) == external_declaration_rule(
                old(self)@.tokens,
                Some(old(self)@.index),
                old(self)@.names,
            ));
        }
        let at = self.at();
        let checkpoint = self.begin();
        let attempt = self.parse_function_definition();
        if let Ok(function) = self.settle(checkpoint, attempt) {
            let node = ExternalDeclaration { at, kind: ExternalDeclarationKind::Function(function) };
            proof {
                assert(self@.names =~= old(self)@.names + node.typedef_names());
            }
            return Ok(node);
        }
        let checkpoint = self.begin();
        let attempt = self.parse_declaration();
        if let Ok(declaration) = self.settle(checkpoint, attempt) {
            return Ok(
                ExternalDeclaration { at, kind: ExternalDeclarationKind::Declaration(declaration) },
            );
        }
        self.err(Expected::ExternalDeclaration);
        Err(())
    }

    /// The specifiers, the declarator and the body of a function.
    #[verifier::spinoff_prover]
    pub(crate) fn parse_function_definition(&mut self) -> (r: Res<FunctionDefinition<'a>>)
        requires
            old(self)@.wf(),
        ensures
            final(self)@.gives(
                r,
                function_definition_at(old(self)@.tokens, Some(old(self)@.index), old(self)@.names),
            ),
            r matches Ok(node) ==> node.well_scoped(old(self)@.names),
            match r {
                Ok(node) => final(self)@.reached(
                    old(self)@,
                    node.span_end(old(self)@.tokens, Some(old(self)@.index)),
                ),
                Err(_) => final(self)@.follows(old(self)@),
            },
        decreases old(self)@.left(), 91nat,
    {
        proof {
            reveal(function_definition_rule);
            assert(function_definition_at(
                old(self)@.tokens,
                Some(old(self)@.index),
                old(self)@.names,
            ) == function_definition_rule(
                old(self)@.tokens,
                Some(old(self)@.index),
                old(self)@.names,
            ));
        }
        let at = self.at();
        let attributes = self.parse_optional_attributes();
        let mut is_typedef = false;
        let specifiers = self.parse_declaration_specifiers(&mut is_typedef)?;
        let declarator = self.parse_declarator(false)?;
        let body = self.parse_compound_statement()?;

        Ok(FunctionDefinition { at, attributes, specifiers, declarator, body })
    }
}

} // verus!
