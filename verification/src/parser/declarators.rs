//! The rules for declarators, abstract declarators and parameters.

use crate::ast::{
    AbstractDeclarator, ArrayAbstractDeclarator, ArrayAbstractDeclaratorKind, ArrayDeclarator,
    ArrayDeclaratorKind, CommaList, CommaListKind, Declarator, DirectAbstractDeclarator,
    DirectAbstractDeclaratorKind, DirectDeclarator, DirectDeclaratorKind,
    FunctionAbstractDeclarator, FunctionDeclarator, ParameterDeclaration,
    ParameterDeclarationKind, ParameterList, ParameterTypeList, Pointer,
};
use crate::parser::{Expected, Parser, Res};
use crate::token::TokenKind;
use crate::grammar::declarators::{
    abstract_declarator_at, array_abstract_declarator_at, array_declarator_at, declarator_at,
    direct_abstract_declarator_at, direct_abstract_declarator_rest, direct_declarator_at,
    direct_declarator_leaf_at, direct_declarator_rest, function_abstract_declarator_at,
    function_declarator_at, parameter_declaration_at, parameter_list_at, parameter_list_rest,
    parameter_type_list_at, parenthesized_abstract_declarator_at, pointer_at,
};
use crate::grammar::declarators::{
    abstract_declarator_rule,
    array_abstract_declarator_rule,
    array_declarator_rule,
    declarator_rule,
    direct_abstract_declarator_rest_rule,
    direct_abstract_declarator_rule,
    direct_declarator_leaf_rule,
    direct_declarator_rest_rule,
    direct_declarator_rule,
    function_abstract_declarator_rule,
    function_declarator_rule,
    parameter_declaration_rule,
    parameter_list_rest_rule,
    parameter_list_rule,
    parameter_type_list_rule,
    parenthesized_abstract_declarator_rule,
};
use vstd::prelude::*;

verus! {

impl<'a, 'b> Parser<'a, 'b> {
    /// A declarator. With `is_typedef` the name that it declares becomes
    /// a typedef name of the innermost scope.
    #[verifier::spinoff_prover]
    pub(crate) fn parse_declarator(&mut self, is_typedef: bool) -> (r: Res<Declarator<'a>>)
        requires
            old(self)@.wf(),
        ensures
            final(self)@.gives(
                r,
                declarator_at(
                    old(self)@.tokens,
                    Some(old(self)@.index),
                    old(self)@.names,
                    is_typedef,
                ),
            ),
            r matches Ok(node) ==> node.well_scoped(old(self)@.names, is_typedef),
            match r {
                Ok(node) => if is_typedef {
                    final(self)@.declared(
                        old(self)@,
                        node.span_end(old(self)@.tokens, Some(old(self)@.index)),
                        seq![node.name()],
                    )
                } else {
                    final(self)@.reached(
                        old(self)@,
                        node.span_end(old(self)@.tokens, Some(old(self)@.index)),
                    )
                },
                Err(_) => final(self)@.follows(old(self)@),
            },
        decreases old(self)@.left(), 64nat,
    {
        proof {
            reveal(declarator_rule);
            assert(declarator_at(
                old(self)@.tokens,
                Some(old(self)@.index),
                old(self)@.names,
                is_typedef,
            ) == declarator_rule(
                old(self)@.tokens,
                Some(old(self)@.index),
                old(self)@.names,
                is_typedef,
            ));
        }
        let at = self.at();
        let checkpoint = self.begin();
        let attempt = self.parse_pointer();
        let pointer = self.settle_optional(checkpoint, attempt);
        let direct = self.parse_direct_declarator(is_typedef)?;
        Ok(Declarator { at, pointer, direct })
    }

    /// A name or a declarator in parentheses, and the brackets and
    /// parameter lists behind it.
    #[verifier::spinoff_prover]
    pub(crate) fn parse_direct_declarator(&mut self, is_typedef: bool) -> (r: Res<
        DirectDeclarator<'a>,
    >)
        requires
            old(self)@.wf(),
        ensures
            final(self)@.gives(
                r,
                direct_declarator_at(
                    old(self)@.tokens,
                    Some(old(self)@.index),
                    old(self)@.names,
                    is_typedef,
                ),
            ),
            r matches Ok(node) ==> node.well_scoped(old(self)@.names, is_typedef),
            match r {
                Ok(node) => if is_typedef {
                    final(self)@.declared(
                        old(self)@,
                        node.span_end(old(self)@.tokens, Some(old(self)@.index)),
                        seq![node.name()],
                    )
                } else {
                    final(self)@.reached(
                        old(self)@,
                        node.span_end(old(self)@.tokens, Some(old(self)@.index)),
                    )
                },
                Err(_) => final(self)@.follows(old(self)@),
            },
        decreases old(self)@.left(), 63nat,
    {
        proof {
            reveal(direct_declarator_rule);
            assert(direct_declarator_at(
                old(self)@.tokens,
                Some(old(self)@.index),
                old(self)@.names,
                is_typedef,
            ) == direct_declarator_rule(
                old(self)@.tokens,
                Some(old(self)@.index),
                old(self)@.names,
                is_typedef,
            ));
        }
        let ghost start = self@.index;
        let mut left = self.parse_direct_declarator_leaf(is_typedef)?;
        loop
            invariant
                direct_declarator_rest(
                    old(self)@.tokens,
                    Some(self@.index),
                    old(self)@.names,
                    is_typedef,
                    left,
                )
                    == direct_declarator_at(
                        old(self)@.tokens,
                        Some(old(self)@.index),
                        old(self)@.names,
                        is_typedef,
                    ),
                left.well_scoped(old(self)@.names, is_typedef),
                start == old(self)@.index,
                if is_typedef {
                    self@.declared(
                        old(self)@,
                        left.span_end(old(self)@.tokens, Some(start)),
                        seq![left.name()],
                    )
                } else {
                    self@.reached(old(self)@, left.span_end(old(self)@.tokens, Some(start)))
                },
            decreases self@.left(),
        {
            proof {
                reveal(direct_declarator_rest_rule);
                assert(direct_declarator_rest(
                    old(self)@.tokens,
                    Some(self@.index),
                    old(self)@.names,
                    is_typedef,
                    left,
                ) == direct_declarator_rest_rule(
                    old(self)@.tokens,
                    Some(self@.index),
                    old(self)@.names,
                    is_typedef,
                    left,
                ));
            }
            match self.kind() {
                TokenKind::OpenBracket => {
                    left = self.parse_array_declarator(left, Ghost(start))?;
                },
                TokenKind::OpenParenthesis => {
                    left = self.parse_function_declarator(left, Ghost(start))?;
                },
                _ => { return Ok(left); },
            }
        }
    }

    /// A declarator in parentheses, or the name that is declared.
    #[verifier::spinoff_prover]
    pub(crate) fn parse_direct_declarator_leaf(&mut self, is_typedef: bool) -> (r: Res<
        DirectDeclarator<'a>,
    >)
        requires
            old(self)@.wf(),
        ensures
            final(self)@.gives(
                r,
                direct_declarator_leaf_at(
                    old(self)@.tokens,
                    Some(old(self)@.index),
                    old(self)@.names,
                    is_typedef,
                ),
            ),
            r matches Ok(node) ==> node.well_scoped(old(self)@.names, is_typedef),
            match r {
                Ok(node) => if is_typedef {
                    final(self)@.declared(
                        old(self)@,
                        node.span_end(old(self)@.tokens, Some(old(self)@.index)),
                        seq![node.name()],
                    )
                } else {
                    final(self)@.reached(
                        old(self)@,
                        node.span_end(old(self)@.tokens, Some(old(self)@.index)),
                    )
                },
                Err(_) => final(self)@.follows(old(self)@),
            },
        decreases old(self)@.left(), 62nat,
    {
        proof {
            reveal(direct_declarator_leaf_rule);
            assert(direct_declarator_leaf_at(
                old(self)@.tokens,
                Some(old(self)@.index),
                old(self)@.names,
                is_typedef,
            ) == direct_declarator_leaf_rule(
                old(self)@.tokens,
                Some(old(self)@.index),
                old(self)@.names,
                is_typedef,
            ));
        }
        let at = self.at();
        if self.is(TokenKind::OpenParenthesis) {
            let open_parenthesis = self.next();
            let inner = Box::new(self.parse_declarator(is_typedef)?);
            let close_parenthesis = self.take(TokenKind::CloseParenthesis)?;
            Ok(
                DirectDeclarator {
                    at,
                    kind: DirectDeclaratorKind::Parenthesized {
                        open_parenthesis,
                        inner,
                        close_parenthesis,
                    },
                },
            )
        } else {
            let name = self.take_identifier()?;
            let attributes = self.parse_optional_attributes();

            if is_typedef {
                self.declare_typedef(name);
                proof {
                    assert(self@.names =~= old(self)@.names + seq![name]);
                }
            }
            Ok(DirectDeclarator { at, kind: DirectDeclaratorKind::Name(name, attributes) })
        }
    }

    /// The brackets of an array declarator, behind the declarator `left`
    /// that lies over the tokens from `start` to the cursor.
    #[verifier::spinoff_prover]
    pub(crate) fn parse_array_declarator(
        &mut self,
        left: DirectDeclarator<'a>,
        Ghost(start): Ghost<int>,
    ) -> (r: Res<DirectDeclarator<'a>>)
        requires
            old(self)@.wf(),
            left.span_end(old(self)@.tokens, Some(start)) == Some(old(self)@.index),
        ensures
            final(self)@.gives(
                r,
                array_declarator_at(
                    old(self)@.tokens,
                    Some(old(self)@.index),
                    old(self)@.names,
                    left,
                ),
            ),
            r matches Ok(node) ==> node.kind matches DirectDeclaratorKind::Array(array, _)
                && *array.left == left && array.size_well_scoped(old(self)@.names),
            match r {
                Ok(node) => {
                    &&& final(self)@.reached(
                        old(self)@,
                        node.span_end(old(self)@.tokens, Some(start)),
                    )
                    &&& node.name() == left.name()
                },
                Err(_) => final(self)@.follows(old(self)@),
            },
        decreases old(self)@.left(), 2nat,
    {
        proof {
            reveal(array_declarator_rule);
            assert(array_declarator_at(
                old(self)@.tokens,
                Some(old(self)@.index),
                old(self)@.names,
                left,
            ) == array_declarator_rule(
                old(self)@.tokens,
                Some(old(self)@.index),
                old(self)@.names,
                left,
            ));
        }
        let at = self.at();
        let left = Box::new(left);
        let open_bracket = self.take(TokenKind::OpenBracket)?;
        let array = if self.is(TokenKind::Static) {
            let static_keyword = Some(self.next());
            let qualifiers = self.parse_optional_type_qualifier_list();
            let size = Some(self.parse_assignment_expression()?);
            let close_bracket = self.take(TokenKind::CloseBracket)?;
            ArrayDeclarator {
                at,
                left,
                open_bracket,
                qualifiers,
                kind: ArrayDeclaratorKind::Normal { static_keyword, size },
                close_bracket,
            }
        } else {
            let qualifiers = self.parse_optional_type_qualifier_list();
            if qualifiers.is_some() && self.is(TokenKind::Static) {
                let static_keyword = Some(self.next());
                let size = Some(self.parse_assignment_expression()?);
                let close_bracket = self.take(TokenKind::CloseBracket)?;
                ArrayDeclarator {
                    at,
                    left,
                    open_bracket,
                    qualifiers,
                    kind: ArrayDeclaratorKind::Normal { static_keyword, size },
                    close_bracket,
                }
            } else if self.is(TokenKind::Asterisk) {
                let asterisk = self.next();
                let close_bracket = self.take(TokenKind::CloseBracket)?;
                ArrayDeclarator {
                    at,
                    left,
                    open_bracket,
                    qualifiers,
                    kind: ArrayDeclaratorKind::Var { asterisk },
                    close_bracket,
                }
            } else {
                let checkpoint = self.begin();
                let attempt = self.parse_assignment_expression();
                let size = self.settle_optional(checkpoint, attempt);
                let close_bracket = self.take(TokenKind::CloseBracket)?;
                ArrayDeclarator {
                    at,
                    left,
                    open_bracket,
                    qualifiers,
                    kind: ArrayDeclaratorKind::Normal { static_keyword: None, size },
                    close_bracket,
                }
            }
        };

        let attributes = self.parse_optional_attributes();
        Ok(DirectDeclarator { at, kind: DirectDeclaratorKind::Array(array, attributes) })
    }

    /// The parameter list of a function declarator, behind the declarator
    /// `left` that lies over the tokens from `start` to the cursor.
    #[verifier::spinoff_prover]
    pub(crate) fn parse_function_declarator(
        &mut self,
        left: DirectDeclarator<'a>,
        Ghost(start): Ghost<int>,
    ) -> (r: Res<DirectDeclarator<'a>>)
        requires
            old(self)@.wf(),
            left.span_end(old(self)@.tokens, Some(start)) == Some(old(self)@.index),
        ensures
            final(self)@.gives(
                r,
                function_declarator_at(
                    old(self)@.tokens,
                    Some(old(self)@.index),
                    old(self)@.names,
                    left,
                ),
            ),
            r matches Ok(node) ==> node.kind matches DirectDeclaratorKind::Function(function, _)
                && *function.left == left && function.parameters_well_scoped(old(self)@.names),
            match r {
                Ok(node) => {
                    &&& final(self)@.reached(
                        old(self)@,
                        node.span_end(old(self)@.tokens, Some(start)),
                    )
                    &&& node.name() == left.name()
                },
                Err(_) => final(self)@.follows(old(self)@),
            },
        decreases old(self)@.left(), 2nat,
    {
        proof {
            reveal(function_declarator_rule);
            assert(function_declarator_at(
                old(self)@.tokens,
                Some(old(self)@.index),
                old(self)@.names,
                left,
            ) == function_declarator_rule(
                old(self)@.tokens,
                Some(old(self)@.index),
                old(self)@.names,
                left,
            ));
        }
        let at = self.at();
        let left = Box::new(left);
        let open_parenthesis = self.take(TokenKind::OpenParenthesis)?;
        let parameters = self.parse_optional_parameter_type_list();
        let close_parenthesis = self.take(TokenKind::CloseParenthesis)?;
        let attributes = self.parse_optional_attributes();

        Ok(
            DirectDeclarator {
                at,
                kind: DirectDeclaratorKind::Function(
                    FunctionDeclarator {
                        at,
                        left,
                        open_parenthesis,
                        parameters,
                        close_parenthesis,
                    },
                    attributes,
                ),
            },
        )
    }

    /// `*` with its qualifiers, and the pointer behind it if there is one.
    #[verifier::spinoff_prover]
    pub(crate) fn parse_pointer(&mut self) -> (r: Res<Pointer<'a>>)
        requires
            old(self)@.wf(),
        ensures
            final(self)@.gives(r, pointer_at(old(self)@.tokens, Some(old(self)@.index))),
            match r {
                Ok(node) => final(self)@.reached(
                    old(self)@,
                    node.span_end(old(self)@.tokens, Some(old(self)@.index)),
                ),
                Err(_) => final(self)@.follows(old(self)@),
            },
        decreases old(self)@.left(), 2nat,
    {
        let at = self.at();
        let asterisk = self.take(TokenKind::Asterisk)?;
        let attributes = self.parse_optional_attributes();
        let qualifiers = self.parse_optional_type_qualifier_list();
        let checkpoint = self.begin();
        let attempt = self.parse_pointer();
        let right = match self.settle_optional(checkpoint, attempt) {
            Some(pointer) => Some(Box::new(pointer)),
            None => None,
        };

        Ok(Pointer { at, asterisk, attributes, qualifiers, right })
    }

    /// The parameters of a function, if the rule for them succeeds.
    pub(crate) fn parse_optional_parameter_type_list(&mut self) -> (r: Option<
        ParameterTypeList<'a>,
    >)
        requires
            old(self)@.wf(),
        ensures
            r matches Some(node) && final(self)@.gives(
                Ok(node),
                parameter_type_list_at(old(self)@.tokens, Some(old(self)@.index), old(self)@.names),
            ),
            r matches Some(node) ==> node.well_scoped(old(self)@.names),
            match r {
                Some(node) => final(self)@.covered(
                    old(self)@,
                    node.span_end(old(self)@.tokens, Some(old(self)@.index)),
                ),
                None => final(self)@ == old(self)@,
            },
        decreases old(self)@.left(), 68nat,
    {
        proof {
            reveal(parameter_type_list_rule);
            assert(parameter_type_list_at(
                old(self)@.tokens,
                Some(old(self)@.index),
                old(self)@.names,
            ) == parameter_type_list_rule(
                old(self)@.tokens,
                Some(old(self)@.index),
                old(self)@.names,
            ));
        }
        let checkpoint = self.begin();
        let attempt = self.parse_parameter_type_list();
        self.settle_optional(checkpoint, attempt)
    }

    /// The parameters of a function: the declared ones, then `...` alone
    /// or after a comma. Every part may be missing, so the rule succeeds
    /// on every input.
    #[verifier::spinoff_prover]
    pub(crate) fn parse_parameter_type_list(&mut self) -> (r: Res<ParameterTypeList<'a>>)
        requires
            old(self)@.wf(),
        ensures
            final(self)@.gives(
                r,
                parameter_type_list_at(old(self)@.tokens, Some(old(self)@.index), old(self)@.names),
            ),
            r matches Ok(node) ==> node.well_scoped(old(self)@.names),
            match r {
                Ok(node) => final(self)@.covered(
                    old(self)@,
                    node.span_end(old(self)@.tokens, Some(old(self)@.index)),
                ),
                Err(_) => false,
            },
        decreases old(self)@.left(), 67nat,
    {
        proof {
            reveal(parameter_type_list_rule);
            assert(parameter_type_list_at(
                old(self)@.tokens,
                Some(old(self)@.index),
                old(self)@.names,
            ) == parameter_type_list_rule(
                old(self)@.tokens,
                Some(old(self)@.index),
                old(self)@.names,
            ));
        }
        let at = self.at();
        let checkpoint = self.begin();
        let attempt = self.parse_parameter_list();
        let parameters = self.settle_optional(checkpoint, attempt);
        let final_comma = if parameters.is_some() && self.is(TokenKind::Comma) {
            Some(self.next())
        } else {
            None
        };
        let ellipses = if parameters.is_none() || final_comma.is_some() {
            self.take_optional(TokenKind::Ellipses)
        } else {
            None
        };
        let parameters = match parameters {
            Some(list) => Some((list, final_comma)),
            None => None,
        };

        Ok(ParameterTypeList { at, parameters, ellipses })
    }

    /// One or more parameter declarations with commas between them. A
    /// comma that no parameter follows is left where it is.
    #[verifier::spinoff_prover]
    pub(crate) fn parse_parameter_list(&mut self) -> (r: Res<ParameterList<'a>>)
        requires
            old(self)@.wf(),
        ensures
            final(self)@.gives(
                r,
                parameter_list_at(old(self)@.tokens, Some(old(self)@.index), old(self)@.names),
            ),
            r matches Ok(node) ==> node.well_scoped(old(self)@.names),
            match r {
                Ok(node) => final(self)@.reached(
                    old(self)@,
                    node.span_end(old(self)@.tokens, Some(old(self)@.index)),
                ),
                Err(_) => final(self)@.follows(old(self)@),
            },
        decreases old(self)@.left(), 66nat,
    {
        proof {
            reveal(parameter_list_rule);
            assert(parameter_list_at(
                old(self)@.tokens,
                Some(old(self)@.index),
                old(self)@.names,
            ) == parameter_list_rule(
                old(self)@.tokens,
                Some(old(self)@.index),
                old(self)@.names,
            ));
        }
        let at = self.at();
        let first = self.parse_parameter_declaration()?;
        let mut left = CommaList { at, kind: CommaListKind::Leaf(Box::new(first)) };
        loop
            invariant
                parameter_list_rest(old(self)@.tokens, Some(self@.index), old(self)@.names, left)
                    == parameter_list_at(
                        old(self)@.tokens,
                        Some(old(self)@.index),
                        old(self)@.names,
                    ),
                left.well_scoped(old(self)@.names),
                self@.reached(old(self)@, left.span_end(old(self)@.tokens, Some(old(self)@.index))),
            decreases self@.left(),
        {
            proof {
                reveal(parameter_list_rest_rule);
                assert(parameter_list_rest(
                    old(self)@.tokens,
                    Some(self@.index),
                    old(self)@.names,
                    left,
                ) == parameter_list_rest_rule(
                    old(self)@.tokens,
                    Some(self@.index),
                    old(self)@.names,
                    left,
                ));
            }
            if !self.is(TokenKind::Comma) {
                return Ok(left);
            }
            let checkpoint = self.begin();
            let comma = self.next();
            let attempt = self.parse_parameter_declaration();
            let right = match self.settle(checkpoint, attempt) {
                Ok(right) => right,
                Err(_) => { return Ok(left); },
            };
            left =
            CommaList {
                at: left.at,
                kind: CommaListKind::Cons { left: Box::new(left), comma, right: Box::new(right) },
            };
        }
    }

    /// The specifiers of a parameter, then a declarator, or else an
    /// abstract declarator or nothing.
    #[verifier::spinoff_prover]
    pub(crate) fn parse_parameter_declaration(&mut self) -> (r: Res<ParameterDeclaration<'a>>)
        requires
            old(self)@.wf(),
        ensures
            final(self)@.gives(
                r,
                parameter_declaration_at(
                    old(self)@.tokens,
                    Some(old(self)@.index),
                    old(self)@.names,
                ),
            ),
            r matches Ok(node) ==> node.well_scoped(old(self)@.names),
            match r {
                Ok(node) => final(self)@.reached(
                    old(self)@,
                    node.span_end(old(self)@.tokens, Some(old(self)@.index)),
                ),
                Err(_) => final(self)@.follows(old(self)@),
            },
        decreases old(self)@.left(), 65nat,
    {
        proof {
            reveal(parameter_declaration_rule);
            assert(parameter_declaration_at(
                old(self)@.tokens,
                Some(old(self)@.index),
                old(self)@.names,
            ) == parameter_declaration_rule(
                old(self)@.tokens,
                Some(old(self)@.index),
                old(self)@.names,
            ));
        }
        let at = self.at();
        let attributes = self.parse_optional_attributes();
        let mut is_typedef = false;
        let specifiers = self.parse_declaration_specifiers(&mut is_typedef)?;
        let checkpoint = self.begin();
        let attempt = self.parse_declarator(false);
        let kind = match self.settle(checkpoint, attempt) {
            Ok(declarator) => ParameterDeclarationKind::Concrete(declarator),
            Err(_) => {
                let checkpoint = self.begin();
                let attempt = self.parse_abstract_declarator();
                ParameterDeclarationKind::Abstract(self.settle_optional(checkpoint, attempt))
            },
        };

        Ok(ParameterDeclaration { at, attributes, specifiers, kind })
    }

    /// A pointer, a direct abstract declarator, or both.
    #[verifier::spinoff_prover]
    pub(crate) fn parse_abstract_declarator(&mut self) -> (r: Res<AbstractDeclarator<'a>>)
        requires
            old(self)@.wf(),
        ensures
            final(self)@.gives(
                r,
                abstract_declarator_at(old(self)@.tokens, Some(old(self)@.index), old(self)@.names),
            ),
            r matches Ok(node) ==> node.well_scoped(old(self)@.names),
            match r {
                Ok(node) => final(self)@.reached(
                    old(self)@,
                    node.span_end(old(self)@.tokens, Some(old(self)@.index)),
                ),
                Err(_) => final(self)@.follows(old(self)@),
            },
        decreases old(self)@.left(), 70nat,
    {
        proof {
            reveal(abstract_declarator_rule);
            assert(abstract_declarator_at(
                old(self)@.tokens,
                Some(old(self)@.index),
                old(self)@.names,
            ) == abstract_declarator_rule(
                old(self)@.tokens,
                Some(old(self)@.index),
                old(self)@.names,
            ));
        }
        let at = self.at();
        let checkpoint = self.begin();
        let attempt = self.parse_pointer();
        let pointer = self.settle_optional(checkpoint, attempt);
        if pointer.is_none() {
            let direct = self.parse_direct_abstract_declarator()?;
            Ok(AbstractDeclarator { at, pointer, direct: Some(direct) })
        } else {
            let checkpoint = self.begin();
            let attempt = self.parse_direct_abstract_declarator();
            let direct = self.settle_optional(checkpoint, attempt);
            Ok(AbstractDeclarator { at, pointer, direct })
        }
    }

    /// An abstract declarator in parentheses.
    #[verifier::spinoff_prover]
    pub(crate) fn parse_parenthesized_abstract_declarator(&mut self) -> (r: Res<
        DirectAbstractDeclarator<'a>,
    >)
        requires
            old(self)@.wf(),
        ensures
            final(self)@.gives(
                r,
                parenthesized_abstract_declarator_at(
                    old(self)@.tokens,
                    Some(old(self)@.index),
                    old(self)@.names,
                ),
            ),
            r matches Ok(node) ==> node.well_scoped(old(self)@.names),
            match r {
                Ok(node) => final(self)@.reached(
                    old(self)@,
                    node.span_end(old(self)@.tokens, Some(old(self)@.index)),
                ),
                Err(_) => final(self)@.follows(old(self)@),
            },
        decreases old(self)@.left(), 2nat,
    {
        proof {
            reveal(parenthesized_abstract_declarator_rule);
            assert(parenthesized_abstract_declarator_at(
                old(self)@.tokens,
                Some(old(self)@.index),
                old(self)@.names,
            ) == parenthesized_abstract_declarator_rule(
                old(self)@.tokens,
                Some(old(self)@.index),
                old(self)@.names,
            ));
        }
        let at = self.at();
        let open_parenthesis = self.take(TokenKind::OpenParenthesis)?;
        let inner = Box::new(self.parse_abstract_declarator()?);
        let close_parenthesis = self.take(TokenKind::CloseParenthesis)?;
        Ok(
            DirectAbstractDeclarator {
                at,
                kind: DirectAbstractDeclaratorKind::Parenthesized {
                    open_parenthesis,
                    inner,
                    close_parenthesis,
                },
            },
        )
    }

    /// An abstract declarator in parentheses, if there is one, and the
    /// brackets and parameter lists behind it; at least one of these.
    #[verifier::spinoff_prover]
    pub(crate) fn parse_direct_abstract_declarator(&mut self) -> (r: Res<
        DirectAbstractDeclarator<'a>,
    >)
        requires
            old(self)@.wf(),
        ensures
            final(self)@.gives(
                r,
                direct_abstract_declarator_at(
                    old(self)@.tokens,
                    Some(old(self)@.index),
                    old(self)@.names,
                ),
            ),
            r matches Ok(node) ==> node.well_scoped(old(self)@.names),
            match r {
                Ok(node) => final(self)@.reached(
                    old(self)@,
                    node.span_end(old(self)@.tokens, Some(old(self)@.index)),
                ),
                Err(_) => final(self)@.follows(old(self)@),
            },
        decreases old(self)@.left(), 69nat,
    {
        proof {
            reveal(direct_abstract_declarator_rule);
            assert(direct_abstract_declarator_at(
                old(self)@.tokens,
                Some(old(self)@.index),
                old(self)@.names,
            ) == direct_abstract_declarator_rule(
                old(self)@.tokens,
                Some(old(self)@.index),
                old(self)@.names,
            ));
        }
        let ghost start = self@.index;
        let checkpoint = self.begin();
        let attempt = self.parse_parenthesized_abstract_declarator();
        let mut left = self.settle_optional(checkpoint, attempt);

        loop
            invariant
                direct_abstract_declarator_rest(
                    old(self)@.tokens,
                    Some(self@.index),
                    old(self)@.names,
                    left,
                )
                    == direct_abstract_declarator_at(
                        old(self)@.tokens,
                        Some(old(self)@.index),
                        old(self)@.names,
                    ),
                left matches Some(node) ==> node.well_scoped(old(self)@.names),
                start == old(self)@.index,
                match left {
                    Some(node) => self@.reached(
                        old(self)@,
                        node.span_end(old(self)@.tokens, Some(start)),
                    ),
                    None => self@ == old(self)@,
                },
                self@.wf(),
            decreases self@.left(),
        {
            proof {
                reveal(direct_abstract_declarator_rest_rule);
                assert(direct_abstract_declarator_rest(
                    old(self)@.tokens,
                    Some(self@.index),
                    old(self)@.names,
                    left,
                ) == direct_abstract_declarator_rest_rule(
                    old(self)@.tokens,
                    Some(self@.index),
                    old(self)@.names,
                    left,
                ));
            }
            match self.kind() {
                TokenKind::OpenBracket => {
                    left = Some(self.parse_array_abstract_declarator(left, Ghost(start))?);
                },
                TokenKind::OpenParenthesis => {
                    left = Some(self.parse_function_abstract_declarator(left, Ghost(start))?);
                },
                _ => {
                    return match left {
                        Some(left) => Ok(left),
                        None => {
                            self.err(Expected::DirectAbstractDeclarator);
                            Err(())
                        },
                    };
                },
            }
        }
    }

    /// The brackets of an abstract array declarator, behind the
    /// declarator `left`, if there is one, that lies over the tokens from
    /// `start` to the cursor.
    #[verifier::spinoff_prover]
    pub(crate) fn parse_array_abstract_declarator(
        &mut self,
        left: Option<DirectAbstractDeclarator<'a>>,
        Ghost(start): Ghost<int>,
    ) -> (r: Res<DirectAbstractDeclarator<'a>>)
        requires
            old(self)@.wf(),
            match left {
                Some(node) => node.span_end(old(self)@.tokens, Some(start)) == Some(
                    old(self)@.index,
                ),
                None => start == old(self)@.index,
            },
            left matches Some(node) ==> node.well_scoped(old(self)@.names),
        ensures
            final(self)@.gives(
                r,
                array_abstract_declarator_at(
                    old(self)@.tokens,
                    Some(old(self)@.index),
                    old(self)@.names,
                    left,
                ),
            ),
            r matches Ok(node) ==> node.well_scoped(old(self)@.names),
            match r {
                Ok(node) => final(self)@.reached(
                    old(self)@,
                    node.span_end(old(self)@.tokens, Some(start)),
                ),
                Err(_) => final(self)@.follows(old(self)@),
            },
        decreases old(self)@.left(), 2nat,
    {
        proof {
            reveal(array_abstract_declarator_rule);
            assert(array_abstract_declarator_at(
                old(self)@.tokens,
                Some(old(self)@.index),
                old(self)@.names,
                left,
            ) == array_abstract_declarator_rule(
                old(self)@.tokens,
                Some(old(self)@.index),
                old(self)@.names,
                left,
            ));
        }
        let left = match left {
            Some(left) => Some(Box::new(left)),
            None => None,
        };
        let at = self.at();
        let open_bracket = self.take(TokenKind::OpenBracket)?;
        let kind = if self.is(TokenKind::Static) {
            let static_keyword = Some(self.next());
            let qualifiers = self.parse_optional_type_qualifier_list();
            let size = Some(Box::new(self.parse_assignment_expression()?));
            ArrayAbstractDeclaratorKind::Normal { qualifiers, static_keyword, size }
        } else if self.is(TokenKind::Asterisk) {
            ArrayAbstractDeclaratorKind::Var { asterisk: self.next() }
        } else {
            let qualifiers = self.parse_optional_type_qualifier_list();
            if qualifiers.is_some() && self.is(TokenKind::Static) {
                let static_keyword = Some(self.take(TokenKind::Static)?);
                let size = Some(Box::new(self.parse_assignment_expression()?));
                ArrayAbstractDeclaratorKind::Normal { qualifiers, static_keyword, size }
            } else {
                let checkpoint = self.begin();
                let attempt = self.parse_assignment_expression();
                let size = match self.settle_optional(checkpoint, attempt) {
                    Some(size) => Some(Box::new(size)),
                    None => None,
                };
                ArrayAbstractDeclaratorKind::Normal { qualifiers, static_keyword: None, size }
            }
        };

        let close_bracket = self.take(TokenKind::CloseBracket)?;

        let array = ArrayAbstractDeclarator { at, left, open_bracket, kind, close_bracket };

        let attributes = self.parse_optional_attributes();

        Ok(
            DirectAbstractDeclarator { at,
            kind: DirectAbstractDeclaratorKind::Array(array, attributes) },
        )
    }

    /// The parameter list of an abstract function declarator, behind the
    /// declarator `left`, if there is one, that lies over the tokens from
    /// `start` to the cursor.
    #[verifier::spinoff_prover]
    pub(crate) fn parse_function_abstract_declarator(
        &mut self,
        left: Option<DirectAbstractDeclarator<'a>>,
        Ghost(start): Ghost<int>,
    ) -> (r: Res<DirectAbstractDeclarator<'a>>)
        requires
            old(self)@.wf(),
            match left {
                Some(node) => node.span_end(old(self)@.tokens, Some(start)) == Some(
                    old(self)@.index,
                ),
                None => start == old(self)@.index,
            },
            left matches Some(node) ==> node.well_scoped(old(self)@.names),
        ensures
            final(self)@.gives(
                r,
                function_abstract_declarator_at(
                    old(self)@.tokens,
                    Some(old(self)@.index),
                    old(self)@.names,
                    left,
                ),
            ),
            r matches Ok(node) ==> node.well_scoped(old(self)@.names),
            match r {
                Ok(node) => final(self)@.reached(
                    old(self)@,
                    node.span_end(old(self)@.tokens, Some(start)),
                ),
                Err(_) => final(self)@.follows(old(self)@),
            },
        decreases old(self)@.left(), 2nat,
    {
        proof {
            reveal(function_abstract_declarator_rule);
            assert(function_abstract_declarator_at(
                old(self)@.tokens,
                Some(old(self)@.index),
                old(self)@.names,
                left,
            ) == function_abstract_declarator_rule(
                old(self)@.tokens,
                Some(old(self)@.index),
                old(self)@.names,
                left,
            ));
        }
        let left = match left {
            Some(left) => Some(Box::new(left)),
            None => None,
        };
        let at = self.at();
        let open_parenthesis = self.take(TokenKind::OpenParenthesis)?;
        let parameters = self.parse_optional_parameter_type_list();
        let close_parenthesis = self.take(TokenKind::CloseParenthesis)?;

        let function = FunctionAbstractDeclarator {
            at,
            left,
            open_parenthesis,
            parameters,
            close_parenthesis,
        };
        let attributes = self.parse_optional_attributes();

        Ok(
            DirectAbstractDeclarator {
                at,
                kind: DirectAbstractDeclaratorKind::Function(function, attributes),
            },
        )
    }
}

} // verus!
