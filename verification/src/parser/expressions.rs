//! The rules for expressions.
//!
//! Binary operators are read by one rule for all ten levels of
//! precedence, from `*` (level 0) to `||` (level 9): an operand of a level
//! is an expression of the level below it, and that of level 0 a cast
//! expression.

use crate::ast::{
    ArgumentExpressionList, AssignmentOperator, BinaryOperator, CommaList, CommaListKind,
    CompoundLiteral, Expression, ExpressionKind, GenericAssocList, GenericAssociation,
    GenericAssociationKind, GenericSelection, SizeofKind, StringLiteral, UnaryOperator,
};
use crate::parser::{Expected, Parser, Res};
use crate::token::TokenKind;
use crate::grammar::expressions::{
    argument_expression_list_at, argument_expression_list_rest, assignment_expression_at,
    assignment_expression_prime_at, assignment_operator_of, binary_expression_at,
    binary_expression_rest, binary_operand_at, binary_operator_of, cast_expression_at,
    cast_expression_prime_at, compound_literal_at, compound_literal_expression_at,
    conditional_expression_at, constant_expression_at, expression_at, expression_rest,
    generic_assoc_list_at, generic_assoc_list_rest, generic_association_at, generic_selection_at,
    postfix_expression_at, postfix_expression_leaf_at, postfix_expression_rest,
    primary_expression_at, unary_expression_at, unary_operator_of,
};
use crate::grammar::expressions::{
    argument_expression_list_rest_rule,
    argument_expression_list_rule,
    assignment_expression_prime_rule,
    assignment_expression_rule,
    binary_expression_rest_rule,
    binary_expression_rule,
    binary_operand_rule,
    cast_expression_prime_rule,
    cast_expression_rule,
    compound_literal_expression_rule,
    compound_literal_rule,
    conditional_expression_rule,
    constant_expression_rule,
    expression_rest_rule,
    expression_rule,
    generic_assoc_list_rest_rule,
    generic_assoc_list_rule,
    generic_association_rule,
    generic_selection_rule,
    postfix_expression_leaf_rule,
    postfix_expression_rest_rule,
    postfix_expression_rule,
    primary_expression_rule,
    unary_expression_rule,
};
use vstd::prelude::*;

verus! {

/// The binary operator of the given level that the token spells, if it
/// spells one.
pub(crate) fn binary_operator(kind: TokenKind, level: u8) -> (r: Option<BinaryOperator>)
    ensures
        r == binary_operator_of(kind, level),
        match r {
            Some(operator) => operator.token() == kind && operator.level() == level,
            None => forall|operator: BinaryOperator|
                operator.level() == level ==> #[trigger] operator.token() != kind,
        },
{
    match (level, kind) {
        (0, TokenKind::Asterisk) => Some(BinaryOperator::Multiply),
        (0, TokenKind::Slash) => Some(BinaryOperator::Divide),
        (0, TokenKind::Percent) => Some(BinaryOperator::Modulo),
        (1, TokenKind::Plus) => Some(BinaryOperator::Add),
        (1, TokenKind::Minus) => Some(BinaryOperator::Subtract),
        (2, TokenKind::DoubleLess) => Some(BinaryOperator::ShiftLeft),
        (2, TokenKind::DoubleGreater) => Some(BinaryOperator::ShiftRight),
        (3, TokenKind::Less) => Some(BinaryOperator::Less),
        (3, TokenKind::Greater) => Some(BinaryOperator::Greater),
        (3, TokenKind::LessEqual) => Some(BinaryOperator::LessEqual),
        (3, TokenKind::GreaterEqual) => Some(BinaryOperator::GreaterEqual),
        (4, TokenKind::DoubleEqual) => Some(BinaryOperator::Equal),
        (4, TokenKind::NotEqual) => Some(BinaryOperator::NotEqual),
        (5, TokenKind::Ampersand) => Some(BinaryOperator::BitAnd),
        (6, TokenKind::Caret) => Some(BinaryOperator::BitXor),
        (7, TokenKind::Bar) => Some(BinaryOperator::BitOr),
        (8, TokenKind::DoubleAmpersand) => Some(BinaryOperator::LogicalAnd),
        (9, TokenKind::DoubleBar) => Some(BinaryOperator::LogicalOr),
        _ => None,
    }
}

/// The assignment operator that the token spells, if it spells one.
pub(crate) fn assignment_operator(kind: TokenKind) -> (r: Option<AssignmentOperator>)
    ensures
        r == assignment_operator_of(kind),
        match r {
            Some(operator) => operator.token() == kind,
            None => forall|operator: AssignmentOperator| #[trigger] operator.token() != kind,
        },
{
    match kind {
        TokenKind::Equal => Some(AssignmentOperator::Assign),
        TokenKind::AsteriskEqual => Some(AssignmentOperator::Multiply),
        TokenKind::SlashEqual => Some(AssignmentOperator::Divide),
        TokenKind::PercentEqual => Some(AssignmentOperator::Modulo),
        TokenKind::PlusEqual => Some(AssignmentOperator::Add),
        TokenKind::MinusEqual => Some(AssignmentOperator::Subtract),
        TokenKind::DoubleLessEqual => Some(AssignmentOperator::ShiftLeft),
        TokenKind::DoubleGreaterEqual => Some(AssignmentOperator::ShiftRight),
        TokenKind::AmpersandEqual => Some(AssignmentOperator::And),
        TokenKind::CaretEqual => Some(AssignmentOperator::Xor),
        TokenKind::BarEqual => Some(AssignmentOperator::Or),
        _ => None,
    }
}

/// The unary operator that the token spells, if it spells one.
pub(crate) fn unary_operator(kind: TokenKind) -> (r: Option<UnaryOperator>)
    ensures
        r == unary_operator_of(kind),
        match r {
            Some(operator) => operator.token() == kind,
            None => forall|operator: UnaryOperator| #[trigger] operator.token() != kind,
        },
{
    match kind {
        TokenKind::Ampersand => Some(UnaryOperator::AddressOf),
        TokenKind::Asterisk => Some(UnaryOperator::Dereference),
        TokenKind::Plus => Some(UnaryOperator::Positive),
        TokenKind::Minus => Some(UnaryOperator::Negative),
        TokenKind::Tilde => Some(UnaryOperator::BitNot),
        TokenKind::Exclamation => Some(UnaryOperator::LogicalNot),
        _ => None,
    }
}

impl<'a, 'b> Parser<'a, 'b> {
    /// An identifier, a literal, an expression in parentheses or a generic
    /// selection.
    #[verifier::spinoff_prover]
    pub(crate) fn parse_primary_expression(&mut self) -> (r: Res<Expression<'a>>)
        requires
            old(self)@.wf(),
        ensures
            r is Err && !(old(self)@.current().kind is OpenParenthesis) && !(old(
                self,
            )@.current().kind is Generic) ==> final(self)@.failed_with(
                old(self)@,
                Expected::PrimaryExpression,
            ),
            final(self)@.gives(
                r,
                primary_expression_at(old(self)@.tokens, Some(old(self)@.index), old(self)@.names),
            ),
            r matches Ok(node) ==> node.well_scoped(old(self)@.names),
            r matches Ok(node) ==> node.level() <= 0,
            match r {
                Ok(node) => final(self)@.reached(
                    old(self)@,
                    node.span_end(old(self)@.tokens, Some(old(self)@.index)),
                ),
                Err(_) => final(self)@.follows(old(self)@),
            },
        decreases old(self)@.left(), 16nat,
    {
        proof {
            reveal(primary_expression_rule);
            assert(primary_expression_at(
                old(self)@.tokens,
                Some(old(self)@.index),
                old(self)@.names,
            ) == primary_expression_rule(
                old(self)@.tokens,
                Some(old(self)@.index),
                old(self)@.names,
            ));
        }
        let at = self.at();
        let kind = match self.kind() {
            TokenKind::Identifier(name) => {
                self.next();
                ExpressionKind::Identifier(name)
            },
            TokenKind::Integer(integer) => {
                self.next();
                ExpressionKind::Integer(integer)
            },
            TokenKind::String(literal, encoding) => {
                self.next();
                ExpressionKind::String(StringLiteral { at, literal, encoding })
            },
            TokenKind::OpenParenthesis => {
                let open_parenthesis = self.next();
                let inner = Box::new(self.parse_expression()?);
                let close_parenthesis = self.take(TokenKind::CloseParenthesis)?;
                ExpressionKind::Parenthesized { open_parenthesis, inner, close_parenthesis }
            },
            TokenKind::Generic => ExpressionKind::GenericSelection(
                self.parse_generic_selection()?,
            ),
            _ => {
                self.err(Expected::PrimaryExpression);
                return Err(());
            },
        };
        Ok(Expression { at, kind })
    }

    /// A generic selection: `_Generic`, and in parentheses the controlling
    /// expression and the associations.
    #[verifier::spinoff_prover]
    pub(crate) fn parse_generic_selection(&mut self) -> (r: Res<GenericSelection<'a>>)
        requires
            old(self)@.wf(),
        ensures
            final(self)@.gives(
                r,
                generic_selection_at(old(self)@.tokens, Some(old(self)@.index), old(self)@.names),
            ),
            r matches Ok(node) ==> node.well_scoped(old(self)@.names),
            match r {
                Ok(node) => final(self)@.reached(
                    old(self)@,
                    node.span_end(old(self)@.tokens, Some(old(self)@.index)),
                ),
                Err(_) => final(self)@.follows(old(self)@),
            },
        decreases old(self)@.left(), 2nat,
    {
        proof {
            reveal(generic_selection_rule);
            assert(generic_selection_at(
                old(self)@.tokens,
                Some(old(self)@.index),
                old(self)@.names,
            ) == generic_selection_rule(
                old(self)@.tokens,
                Some(old(self)@.index),
                old(self)@.names,
            ));
        }
        let at = self.at();
        let generic_keyword = self.take(TokenKind::Generic)?;
        let open_parenthesis = self.take(TokenKind::OpenParenthesis)?;
        let controlling_expression = Box::new(self.parse_assignment_expression()?);
        let comma = self.take(TokenKind::Comma)?;
        let generic_assocs = self.parse_generic_assoc_list()?;
        let close_parenthesis = self.take(TokenKind::CloseParenthesis)?;

        Ok(
            GenericSelection {
                at,
                generic_keyword,
                open_parenthesis,
                controlling_expression,
                comma,
                generic_assocs,
                close_parenthesis,
            },
        )
    }

    /// One or more generic associations with commas between them. A comma
    /// that no association follows is left where it is.
    #[verifier::spinoff_prover]
    pub(crate) fn parse_generic_assoc_list(&mut self) -> (r: Res<GenericAssocList<'a>>)
        requires
            old(self)@.wf(),
        ensures
            final(self)@.gives(
                r,
                generic_assoc_list_at(old(self)@.tokens, Some(old(self)@.index), old(self)@.names),
            ),
            r matches Ok(node) ==> node.well_scoped(old(self)@.names),
            match r {
                Ok(node) => final(self)@.reached(
                    old(self)@,
                    node.span_end(old(self)@.tokens, Some(old(self)@.index)),
                ),
                Err(_) => final(self)@.follows(old(self)@),
            },
        decreases old(self)@.left(), 15nat,
    {
        proof {
            reveal(generic_assoc_list_rule);
            assert(generic_assoc_list_at(
                old(self)@.tokens,
                Some(old(self)@.index),
                old(self)@.names,
            ) == generic_assoc_list_rule(
                old(self)@.tokens,
                Some(old(self)@.index),
                old(self)@.names,
            ));
        }
        let at = self.at();
        let first = self.parse_generic_association()?;
        let mut left = CommaList { at, kind: CommaListKind::Leaf(Box::new(first)) };
        loop
            invariant
                generic_assoc_list_rest(
                    old(self)@.tokens,
                    Some(self@.index),
                    old(self)@.names,
                    left,
                )
                    == generic_assoc_list_at(
                        old(self)@.tokens,
                        Some(old(self)@.index),
                        old(self)@.names,
                    ),
                left.well_scoped(old(self)@.names),
                self@.reached(old(self)@, left.span_end(old(self)@.tokens, Some(old(self)@.index))),
            decreases self@.left(),
        {
            proof {
                reveal(generic_assoc_list_rest_rule);
                assert(generic_assoc_list_rest(
                    old(self)@.tokens,
                    Some(self@.index),
                    old(self)@.names,
                    left,
                ) == generic_assoc_list_rest_rule(
                    old(self)@.tokens,
                    Some(self@.index),
                    old(self)@.names,
                    left,
                ));
            }
            if !self.is(TokenKind::Comma) {
                return Ok(left);
            }
            let checkpoint = self.begin();
            let comma = self.next();
            let attempt = self.parse_generic_association();
            let right = match self.settle(checkpoint, attempt) {
                Ok(right) => right,
                Err(_) => { return Ok(left); },
            };
            left =
            CommaList {
                at: left.at,
                kind: CommaListKind::Cons { left: Box::new(left), comma, right: Box::new(right) },
            };
        }
    }

    /// A type name or `default`, a colon and an assignment expression.
    #[verifier::spinoff_prover]
    pub(crate) fn parse_generic_association(&mut self) -> (r: Res<GenericAssociation<'a>>)
        requires
            old(self)@.wf(),
        ensures
            final(self)@.gives(
                r,
                generic_association_at(old(self)@.tokens, Some(old(self)@.index), old(self)@.names),
            ),
            r matches Ok(node) ==> node.well_scoped(old(self)@.names),
            match r {
                Ok(node) => final(self)@.reached(
                    old(self)@,
                    node.span_end(old(self)@.tokens, Some(old(self)@.index)),
                ),
                Err(_) => final(self)@.follows(old(self)@),
            },
        decreases old(self)@.left(), 14nat,
    {
        proof {
            reveal(generic_association_rule);
            assert(generic_association_at(
                old(self)@.tokens,
                Some(old(self)@.index),
                old(self)@.names,
            ) == generic_association_rule(
                old(self)@.tokens,
                Some(old(self)@.index),
                old(self)@.names,
            ));
        }
        let at = self.at();
        let kind = if self.is(TokenKind::Default) {
            GenericAssociationKind::Default { default_keyword: self.next() }
        } else {
            GenericAssociationKind::ForType(self.parse_type_name()?)
        };
        let colon = self.take(TokenKind::Colon)?;
        let value = self.parse_assignment_expression()?;

        Ok(GenericAssociation { at, colon, kind, value })
    }

    /// A compound literal or a primary expression, and the postfix forms
    /// behind it: subscripts, calls, member accesses, `++` and `--`.
    #[verifier::spinoff_prover]
    pub(crate) fn parse_postfix_expression(&mut self) -> (r: Res<Expression<'a>>)
        requires
            old(self)@.wf(),
        ensures
            final(self)@.gives(
                r,
                postfix_expression_at(old(self)@.tokens, Some(old(self)@.index), old(self)@.names),
            ),
            r matches Ok(node) ==> node.well_scoped(old(self)@.names),
            r matches Ok(node) ==> node.level() <= 1,
            match r {
                Ok(node) => final(self)@.reached(
                    old(self)@,
                    node.span_end(old(self)@.tokens, Some(old(self)@.index)),
                ),
                Err(_) => final(self)@.follows(old(self)@),
            },
        decreases old(self)@.left(), 18nat,
    {
        proof {
            reveal(postfix_expression_rule);
            assert(postfix_expression_at(
                old(self)@.tokens,
                Some(old(self)@.index),
                old(self)@.names,
            ) == postfix_expression_rule(
                old(self)@.tokens,
                Some(old(self)@.index),
                old(self)@.names,
            ));
        }
        let mut left = self.parse_postfix_expression_leaf()?;

        loop
            invariant
                postfix_expression_rest(
                    old(self)@.tokens,
                    Some(self@.index),
                    old(self)@.names,
                    left,
                )
                    == postfix_expression_at(
                        old(self)@.tokens,
                        Some(old(self)@.index),
                        old(self)@.names,
                    ),
                left.well_scoped(old(self)@.names),
                self@.reached(old(self)@, left.span_end(old(self)@.tokens, Some(old(self)@.index))),
                left.level() <= 1,
            decreases self@.left(),
        {
            proof {
                reveal(postfix_expression_rest_rule);
                assert(postfix_expression_rest(
                    old(self)@.tokens,
                    Some(self@.index),
                    old(self)@.names,
                    left,
                ) == postfix_expression_rest_rule(
                    old(self)@.tokens,
                    Some(self@.index),
                    old(self)@.names,
                    left,
                ));
            }
            let at = left.at;
            let kind = match self.kind() {
                TokenKind::OpenBracket => {
                    let open_bracket = self.next();
                    let index = Box::new(self.parse_expression()?);
                    let close_bracket = self.take(TokenKind::CloseBracket)?;
                    ExpressionKind::Index {
                        left: Box::new(left),
                        open_bracket,
                        index,
                        close_bracket,
                    }
                },
                TokenKind::OpenParenthesis => {
                    let open_parenthesis = self.next();
                    let checkpoint = self.begin();
                    let attempt = self.parse_argument_expression_list();
                    let arguments = self.settle_optional(checkpoint, attempt);
                    let close_parenthesis = self.take(TokenKind::CloseParenthesis)?;
                    ExpressionKind::Call {
                        left: Box::new(left),
                        open_parenthesis,
                        arguments,
                        close_parenthesis,
                    }
                },
                TokenKind::Period => {
                    let period = self.next();
                    let name = self.take_identifier()?;
                    ExpressionKind::Member { left: Box::new(left), period, name }
                },
                TokenKind::ArrowLeft => {
                    let arrow = self.next();
                    let name = self.take_identifier()?;
                    ExpressionKind::MemberIndirect { left: Box::new(left), arrow, name }
                },
                TokenKind::DoublePlus => {
                    let double_plus = self.next();
                    ExpressionKind::PostIncrement { left: Box::new(left), double_plus }
                },
                TokenKind::DoubleMinus => {
                    let double_minus = self.next();
                    ExpressionKind::PostDecrement { left: Box::new(left), double_minus }
                },
                _ => { return Ok(left); },
            };
            left = Expression { at, kind };
        }
    }

    /// A compound literal, or else a primary expression.
    #[verifier::spinoff_prover]
    pub(crate) fn parse_postfix_expression_leaf(&mut self) -> (r: Res<Expression<'a>>)
        requires
            old(self)@.wf(),
        ensures
            final(self)@.gives(
                r,
                postfix_expression_leaf_at(
                    old(self)@.tokens,
                    Some(old(self)@.index),
                    old(self)@.names,
                ),
            ),
            r matches Ok(node) ==> node.well_scoped(old(self)@.names),
            r matches Ok(node) ==> node.level() <= 1,
            match r {
                Ok(node) => final(self)@.reached(
                    old(self)@,
                    node.span_end(old(self)@.tokens, Some(old(self)@.index)),
                ),
                Err(_) => final(self)@.follows(old(self)@),
            },
        decreases old(self)@.left(), 17nat,
    {
        proof {
            reveal(postfix_expression_leaf_rule);
            assert(postfix_expression_leaf_at(
                old(self)@.tokens,
                Some(old(self)@.index),
                old(self)@.names,
            ) == postfix_expression_leaf_rule(
                old(self)@.tokens,
                Some(old(self)@.index),
                old(self)@.names,
            ));
        }
        let checkpoint = self.begin();
        let attempt = self.parse_compound_literal_expression();
        if let Ok(expression) = self.settle(checkpoint, attempt) {
            return Ok(expression);
        }
        let checkpoint = self.begin();
        let attempt = self.parse_primary_expression();
        if let Ok(expression) = self.settle(checkpoint, attempt) {
            return Ok(expression);
        }
        self.err(Expected::PrimaryExpression);
        Err(())
    }

    /// One or more assignment expressions with commas between them. A
    /// comma that no expression follows is left where it is.
    #[verifier::spinoff_prover]
    pub(crate) fn parse_argument_expression_list(&mut self) -> (r: Res<ArgumentExpressionList<'a>>)
        requires
            old(self)@.wf(),
        ensures
            final(self)@.gives(
                r,
                argument_expression_list_at(
                    old(self)@.tokens,
                    Some(old(self)@.index),
                    old(self)@.names,
                ),
            ),
            r matches Ok(node) ==> node.well_scoped(old(self)@.names),
            match r {
                Ok(node) => final(self)@.reached(
                    old(self)@,
                    node.span_end(old(self)@.tokens, Some(old(self)@.index)),
                ),
                Err(_) => final(self)@.follows(old(self)@),
            },
        decreases old(self)@.left(), 55nat,
    {
        proof {
            reveal(argument_expression_list_rule);
            assert(argument_expression_list_at(
                old(self)@.tokens,
                Some(old(self)@.index),
                old(self)@.names,
            ) == argument_expression_list_rule(
                old(self)@.tokens,
                Some(old(self)@.index),
                old(self)@.names,
            ));
        }
        let at = self.at();
        let first = self.parse_assignment_expression()?;
        let mut left = CommaList { at, kind: CommaListKind::Leaf(Box::new(first)) };
        loop
            invariant
                argument_expression_list_rest(
                    old(self)@.tokens,
                    Some(self@.index),
                    old(self)@.names,
                    left,
                )
                    == argument_expression_list_at(
                        old(self)@.tokens,
                        Some(old(self)@.index),
                        old(self)@.names,
                    ),
                left.well_scoped(old(self)@.names),
                self@.reached(old(self)@, left.span_end(old(self)@.tokens, Some(old(self)@.index))),
            decreases self@.left(),
        {
            proof {
                reveal(argument_expression_list_rest_rule);
                assert(argument_expression_list_rest(
                    old(self)@.tokens,
                    Some(self@.index),
                    old(self)@.names,
                    left,
                ) == argument_expression_list_rest_rule(
                    old(self)@.tokens,
                    Some(self@.index),
                    old(self)@.names,
                    left,
                ));
            }
            if !self.is(TokenKind::Comma) {
                return Ok(left);
            }
            let checkpoint = self.begin();
            let comma = self.next();
            let attempt = self.parse_assignment_expression();
            let right = match self.settle(checkpoint, attempt) {
                Ok(right) => right,
                Err(_) => { return Ok(left); },
            };
            left =
            CommaList {
                at: left.at,
                kind: CommaListKind::Cons { left: Box::new(left), comma, right: Box::new(right) },
            };
        }
    }

    /// A compound literal as an expression.
    #[verifier::spinoff_prover]
    pub(crate) fn parse_compound_literal_expression(&mut self) -> (r: Res<Expression<'a>>)
        requires
            old(self)@.wf(),
        ensures
            final(self)@.gives(
                r,
                compound_literal_expression_at(
                    old(self)@.tokens,
                    Some(old(self)@.index),
                    old(self)@.names,
                ),
            ),
            r matches Ok(node) ==> node.well_scoped(old(self)@.names),
            r matches Ok(node) ==> node.level() <= 1,
            match r {
                Ok(node) => final(self)@.reached(
                    old(self)@,
                    node.span_end(old(self)@.tokens, Some(old(self)@.index)),
                ),
                Err(_) => final(self)@.follows(old(self)@),
            },
        decreases old(self)@.left(), 3nat,
    {
        proof {
            reveal(compound_literal_expression_rule);
            assert(compound_literal_expression_at(
                old(self)@.tokens,
                Some(old(self)@.index),
                old(self)@.names,
            ) == compound_literal_expression_rule(
                old(self)@.tokens,
                Some(old(self)@.index),
                old(self)@.names,
            ));
        }
        let literal = self.parse_compound_literal()?;
        Ok(Expression { at: literal.at, kind: ExpressionKind::CompoundLiteral(literal) })
    }

    /// A type name in parentheses, with storage class specifiers in front
    /// of it if there are any, and a braced initializer.
    #[verifier::spinoff_prover]
    pub(crate) fn parse_compound_literal(&mut self) -> (r: Res<CompoundLiteral<'a>>)
        requires
            old(self)@.wf(),
        ensures
            final(self)@.gives(
                r,
                compound_literal_at(old(self)@.tokens, Some(old(self)@.index), old(self)@.names),
            ),
            r matches Ok(node) ==> node.well_scoped(old(self)@.names),
            match r {
                Ok(node) => final(self)@.reached(
                    old(self)@,
                    node.span_end(old(self)@.tokens, Some(old(self)@.index)),
                ),
                Err(_) => final(self)@.follows(old(self)@),
            },
        decreases old(self)@.left(), 2nat,
    {
        proof {
            reveal(compound_literal_rule);
            assert(compound_literal_at(
                old(self)@.tokens,
                Some(old(self)@.index),
                old(self)@.names,
            ) == compound_literal_rule(
                old(self)@.tokens,
                Some(old(self)@.index),
                old(self)@.names,
            ));
        }
        let at = self.at();
        let open_parenthesis = self.take(TokenKind::OpenParenthesis)?;
        let mut is_typedef = false;
        let checkpoint = self.begin();
        let attempt = self.parse_storage_class_specifiers(&mut is_typedef);
        let storage_class = self.settle_optional(checkpoint, attempt);
        let typename = self.parse_type_name()?;
        let close_parenthesis = self.take(TokenKind::CloseParenthesis)?;
        let initializer = self.parse_braced_initializer()?;
        Ok(
            CompoundLiteral {
                at,
                open_parenthesis,
                storage_class,
                typename,
                close_parenthesis,
                initializer,
            },
        )
    }

    /// An expression with a prefix operator in front of it, the size of an
    /// expression or of a type, the alignment of a type, or else a
    /// postfix expression.
    #[verifier::spinoff_prover]
    pub(crate) fn parse_unary_expression(&mut self) -> (r: Res<Expression<'a>>)
        requires
            old(self)@.wf(),
        ensures
            final(self)@.gives(
                r,
                unary_expression_at(old(self)@.tokens, Some(old(self)@.index), old(self)@.names),
            ),
            r matches Ok(node) ==> node.well_scoped(old(self)@.names),
            r matches Ok(node) ==> node.level() <= 2,
            match r {
                Ok(node) => final(self)@.reached(
                    old(self)@,
                    node.span_end(old(self)@.tokens, Some(old(self)@.index)),
                ),
                Err(_) => final(self)@.follows(old(self)@),
            },
        decreases old(self)@.left(), 19nat,
    {
        proof {
            reveal(unary_expression_rule);
            assert(unary_expression_at(
                old(self)@.tokens,
                Some(old(self)@.index),
                old(self)@.names,
            ) == unary_expression_rule(
                old(self)@.tokens,
                Some(old(self)@.index),
                old(self)@.names,
            ));
        }
        let at = self.at();
        let kind = match self.kind() {
            TokenKind::DoublePlus => {
                let double_plus = self.next();
                let right = self.parse_unary_expression()?;
                ExpressionKind::PreIncrement { double_plus, right: Box::new(right) }
            },
            TokenKind::DoubleMinus => {
                let double_minus = self.next();
                let right = self.parse_unary_expression()?;
                ExpressionKind::PreDecrement { double_minus, right: Box::new(right) }
            },
            TokenKind::Sizeof => {
                let sizeof_keyword = self.next();
                let checkpoint = self.begin();
                let attempt = self.parse_unary_expression();
                let kind = match self.settle(checkpoint, attempt) {
                    Ok(operand) => SizeofKind::Expression(Box::new(operand)),
                    Err(_) => {
                        let open_parenthesis = self.take(TokenKind::OpenParenthesis)?;
                        let typename = self.parse_type_name()?;
                        let close_parenthesis = self.take(TokenKind::CloseParenthesis)?;
                        SizeofKind::Type { open_parenthesis, typename, close_parenthesis }
                    },
                };
                ExpressionKind::Sizeof { sizeof_keyword, kind }
            },
            TokenKind::Alignof => {
                let alignof_keyword = self.next();
                let open_parenthesis = self.take(TokenKind::OpenParenthesis)?;
                let typename = self.parse_type_name()?;
                let close_parenthesis = self.take(TokenKind::CloseParenthesis)?;
                ExpressionKind::Alignof {
                    alignof_keyword,
                    open_parenthesis,
                    typename,
                    close_parenthesis,
                }
            },
            kind => match unary_operator(kind) {
                Some(operator) => {
                    self.next();
                    let right = self.parse_cast_expression()?;
                    ExpressionKind::Unary(operator, Box::new(right))
                },
                None => {
                    return self.parse_postfix_expression();
                },
            },
        };

        Ok(Expression { at, kind })
    }

    /// A cast, or else a unary expression.
    #[verifier::spinoff_prover]
    pub(crate) fn parse_cast_expression(&mut self) -> (r: Res<Expression<'a>>)
        requires
            old(self)@.wf(),
        ensures
            final(self)@.gives(
                r,
                cast_expression_at(old(self)@.tokens, Some(old(self)@.index), old(self)@.names),
            ),
            r matches Ok(node) ==> node.well_scoped(old(self)@.names),
            r matches Ok(node) ==> node.level() <= 3,
            match r {
                Ok(node) => final(self)@.reached(
                    old(self)@,
                    node.span_end(old(self)@.tokens, Some(old(self)@.index)),
                ),
                Err(_) => final(self)@.follows(old(self)@),
            },
        decreases old(self)@.left(), 20nat,
    {
        proof {
            reveal(cast_expression_rule);
            assert(cast_expression_at(
                old(self)@.tokens,
                Some(old(self)@.index),
                old(self)@.names,
            ) == cast_expression_rule(
                old(self)@.tokens,
                Some(old(self)@.index),
                old(self)@.names,
            ));
        }
        let checkpoint = self.begin();
        let attempt = self.parse_cast_expression_prime();
        match self.settle(checkpoint, attempt) {
            Ok(expression) => Ok(expression),
            Err(_) => self.parse_unary_expression(),
        }
    }

    /// A type name in parentheses and the expression that it is applied
    /// to.
    #[verifier::spinoff_prover]
    pub(crate) fn parse_cast_expression_prime(&mut self) -> (r: Res<Expression<'a>>)
        requires
            old(self)@.wf(),
        ensures
            final(self)@.gives(
                r,
                cast_expression_prime_at(
                    old(self)@.tokens,
                    Some(old(self)@.index),
                    old(self)@.names,
                ),
            ),
            r matches Ok(node) ==> node.well_scoped(old(self)@.names),
            r matches Ok(node) ==> node.level() <= 3,
            match r {
                Ok(node) => final(self)@.reached(
                    old(self)@,
                    node.span_end(old(self)@.tokens, Some(old(self)@.index)),
                ),
                Err(_) => final(self)@.follows(old(self)@),
            },
        decreases old(self)@.left(), 2nat,
    {
        proof {
            reveal(cast_expression_prime_rule);
            assert(cast_expression_prime_at(
                old(self)@.tokens,
                Some(old(self)@.index),
                old(self)@.names,
            ) == cast_expression_prime_rule(
                old(self)@.tokens,
                Some(old(self)@.index),
                old(self)@.names,
            ));
        }
        let at = self.at();
        let open_parenthesis = self.take(TokenKind::OpenParenthesis)?;
        let typename = self.parse_type_name()?;
        let close_parenthesis = self.take(TokenKind::CloseParenthesis)?;
        let right = self.parse_cast_expression()?;

        Ok(
            Expression {
                at,
                kind: ExpressionKind::Cast {
                    open_parenthesis,
                    typename,
                    close_parenthesis,
                    right: Box::new(right),
                },
            },
        )
    }

    /// An operand of a binary operator of the given level.
    #[verifier::spinoff_prover]
    pub(crate) fn parse_binary_operand(&mut self, level: u8) -> (r: Res<Expression<'a>>)
        requires
            old(self)@.wf(),
            level <= 9,
        ensures
            final(self)@.gives(
                r,
                binary_operand_at(
                    old(self)@.tokens,
                    Some(old(self)@.index),
                    old(self)@.names,
                    level,
                ),
            ),
            r matches Ok(node) ==> node.well_scoped(old(self)@.names),
            r matches Ok(node) ==> node.level() <= 3 + level,
            match r {
                Ok(node) => final(self)@.reached(
                    old(self)@,
                    node.span_end(old(self)@.tokens, Some(old(self)@.index)),
                ),
                Err(_) => final(self)@.follows(old(self)@),
            },
        decreases old(self)@.left(), 21 + 3 * level,
    {
        proof {
            reveal(binary_operand_rule);
            assert(binary_operand_at(
                old(self)@.tokens,
                Some(old(self)@.index),
                old(self)@.names,
                level,
            ) == binary_operand_rule(
                old(self)@.tokens,
                Some(old(self)@.index),
                old(self)@.names,
                level,
            ));
        }
        match level {
            0 => self.parse_cast_expression(),
            1 => self.parse_multiplicative_expression(),
            2 => self.parse_additive_expression(),
            3 => self.parse_shift_expression(),
            4 => self.parse_relational_expression(),
            5 => self.parse_equality_expression(),
            6 => self.parse_and_expression(),
            7 => self.parse_xor_expression(),
            8 => self.parse_or_expression(),
            _ => self.parse_logical_and_expression(),
        }
    }

    /// Operands of the given level with operators of that level between
    /// them, grouped from the left.
    #[verifier::spinoff_prover]
    pub(crate) fn parse_binary_expression(&mut self, level: u8) -> (r: Res<Expression<'a>>)
        requires
            old(self)@.wf(),
            level <= 9,
        ensures
            final(self)@.gives(
                r,
                binary_expression_at(
                    old(self)@.tokens,
                    Some(old(self)@.index),
                    old(self)@.names,
                    level,
                ),
            ),
            r matches Ok(node) ==> node.well_scoped(old(self)@.names),
            r matches Ok(node) ==> node.level() <= 4 + level,
            match r {
                Ok(node) => final(self)@.reached(
                    old(self)@,
                    node.span_end(old(self)@.tokens, Some(old(self)@.index)),
                ),
                Err(_) => final(self)@.follows(old(self)@),
            },
        decreases old(self)@.left(), 22 + 3 * level,
    {
        proof {
            reveal(binary_expression_rule);
            assert(binary_expression_at(
                old(self)@.tokens,
                Some(old(self)@.index),
                old(self)@.names,
                level,
            ) == binary_expression_rule(
                old(self)@.tokens,
                Some(old(self)@.index),
                old(self)@.names,
                level,
            ));
        }
        let mut left = self.parse_binary_operand(level)?;
        loop
            invariant
                binary_expression_rest(
                    old(self)@.tokens,
                    Some(self@.index),
                    old(self)@.names,
                    level,
                    left,
                )
                    == binary_expression_at(
                        old(self)@.tokens,
                        Some(old(self)@.index),
                        old(self)@.names,
                        level,
                    ),
                left.well_scoped(old(self)@.names),
                level <= 9,
                left.level() <= 4 + level,
                self@.reached(old(self)@, left.span_end(old(self)@.tokens, Some(old(self)@.index))),
            decreases self@.left(),
        {
            proof {
                reveal(binary_expression_rest_rule);
                assert(binary_expression_rest(
                    old(self)@.tokens,
                    Some(self@.index),
                    old(self)@.names,
                    level,
                    left,
                ) == binary_expression_rest_rule(
                    old(self)@.tokens,
                    Some(self@.index),
                    old(self)@.names,
                    level,
                    left,
                ));
            }
            match binary_operator(self.kind(), level) {
                Some(operator) => {
                    let at = left.at;
                    let operator_at = self.next();
                    let right = self.parse_binary_operand(level)?;
                    let kind = ExpressionKind::Binary {
                        left: Box::new(left),
                        operator: (operator_at, operator),
                        right: Box::new(right),
                    };
                    left = Expression { at, kind };
                },
                None => { return Ok(left); },
            }
        }
    }

    /// Cast expressions with `*`, `/` or `%` between them.
    #[verifier::spinoff_prover]
    pub(crate) fn parse_multiplicative_expression(&mut self) -> (r: Res<Expression<'a>>)
        requires
            old(self)@.wf(),
        ensures
            final(self)@.gives(
                r,
                binary_expression_at(
                    old(self)@.tokens,
                    Some(old(self)@.index),
                    old(self)@.names,
                    0,
                ),
            ),
            r matches Ok(node) ==> node.well_scoped(old(self)@.names),
            r matches Ok(node) ==> node.level() <= 4,
            match r {
                Ok(node) => final(self)@.reached(
                    old(self)@,
                    node.span_end(old(self)@.tokens, Some(old(self)@.index)),
                ),
                Err(_) => final(self)@.follows(old(self)@),
            },
        decreases old(self)@.left(), 23nat,
    {
        proof {
            reveal(binary_expression_rule);
            assert(binary_expression_at(
                old(self)@.tokens,
                Some(old(self)@.index),
                old(self)@.names,
                0,
            ) == binary_expression_rule(
                old(self)@.tokens,
                Some(old(self)@.index),
                old(self)@.names,
                0,
            ));
        }
        self.parse_binary_expression(0)
    }

    /// Multiplicative expressions with `+` or `-` between them.
    #[verifier::spinoff_prover]
    pub(crate) fn parse_additive_expression(&mut self) -> (r: Res<Expression<'a>>)
        requires
            old(self)@.wf(),
        ensures
            final(self)@.gives(
                r,
                binary_expression_at(
                    old(self)@.tokens,
                    Some(old(self)@.index),
                    old(self)@.names,
                    1,
                ),
            ),
            r matches Ok(node) ==> node.well_scoped(old(self)@.names),
            r matches Ok(node) ==> node.level() <= 5,
            match r {
                Ok(node) => final(self)@.reached(
                    old(self)@,
                    node.span_end(old(self)@.tokens, Some(old(self)@.index)),
                ),
                Err(_) => final(self)@.follows(old(self)@),
            },
        decreases old(self)@.left(), 26nat,
    {
        proof {
            reveal(binary_expression_rule);
            assert(binary_expression_at(
                old(self)@.tokens,
                Some(old(self)@.index),
                old(self)@.names,
                1,
            ) == binary_expression_rule(
                old(self)@.tokens,
                Some(old(self)@.index),
                old(self)@.names,
                1,
            ));
        }
        self.parse_binary_expression(1)
    }

    /// Additive expressions with `<<` or `>>` between them.
    #[verifier::spinoff_prover]
    pub(crate) fn parse_shift_expression(&mut self) -> (r: Res<Expression<'a>>)
        requires
            old(self)@.wf(),
        ensures
            final(self)@.gives(
                r,
                binary_expression_at(
                    old(self)@.tokens,
                    Some(old(self)@.index),
                    old(self)@.names,
                    2,
                ),
            ),
            r matches Ok(node) ==> node.well_scoped(old(self)@.names),
            r matches Ok(node) ==> node.level() <= 6,
            match r {
                Ok(node) => final(self)@.reached(
                    old(self)@,
                    node.span_end(old(self)@.tokens, Some(old(self)@.index)),
                ),
                Err(_) => final(self)@.follows(old(self)@),
            },
        decreases old(self)@.left(), 29nat,
    {
        proof {
            reveal(binary_expression_rule);
            assert(binary_expression_at(
                old(self)@.tokens,
                Some(old(self)@.index),
                old(self)@.names,
                2,
            ) == binary_expression_rule(
                old(self)@.tokens,
                Some(old(self)@.index),
                old(self)@.names,
                2,
            ));
        }
        self.parse_binary_expression(2)
    }

    /// Shift expressions with `<`, `>`, `<=` or `>=` between them.
    #[verifier::spinoff_prover]
    pub(crate) fn parse_relational_expression(&mut self) -> (r: Res<Expression<'a>>)
        requires
            old(self)@.wf(),
        ensures
            final(self)@.gives(
                r,
                binary_expression_at(
                    old(self)@.tokens,
                    Some(old(self)@.index),
                    old(self)@.names,
                    3,
                ),
            ),
            r matches Ok(node) ==> node.well_scoped(old(self)@.names),
            r matches Ok(node) ==> node.level() <= 7,
            match r {
                Ok(node) => final(self)@.reached(
                    old(self)@,
                    node.span_end(old(self)@.tokens, Some(old(self)@.index)),
                ),
                Err(_) => final(self)@.follows(old(self)@),
            },
        decreases old(self)@.left(), 32nat,
    {
        proof {
            reveal(binary_expression_rule);
            assert(binary_expression_at(
                old(self)@.tokens,
                Some(old(self)@.index),
                old(self)@.names,
                3,
            ) == binary_expression_rule(
                old(self)@.tokens,
                Some(old(self)@.index),
                old(self)@.names,
                3,
            ));
        }
        self.parse_binary_expression(3)
    }

    /// Relational expressions with `==` or `!=` between them.
    #[verifier::spinoff_prover]
    pub(crate) fn parse_equality_expression(&mut self) -> (r: Res<Expression<'a>>)
        requires
            old(self)@.wf(),
        ensures
            final(self)@.gives(
                r,
                binary_expression_at(
                    old(self)@.tokens,
                    Some(old(self)@.index),
                    old(self)@.names,
                    4,
                ),
            ),
            r matches Ok(node) ==> node.well_scoped(old(self)@.names),
            r matches Ok(node) ==> node.level() <= 8,
            match r {
                Ok(node) => final(self)@.reached(
                    old(self)@,
                    node.span_end(old(self)@.tokens, Some(old(self)@.index)),
                ),
                Err(_) => final(self)@.follows(old(self)@),
            },
        decreases old(self)@.left(), 35nat,
    {
        proof {
            reveal(binary_expression_rule);
            assert(binary_expression_at(
                old(self)@.tokens,
                Some(old(self)@.index),
                old(self)@.names,
                4,
            ) == binary_expression_rule(
                old(self)@.tokens,
                Some(old(self)@.index),
                old(self)@.names,
                4,
            ));
        }
        self.parse_binary_expression(4)
    }

    /// Equality expressions with `&` between them.
    #[verifier::spinoff_prover]
    pub(crate) fn parse_and_expression(&mut self) -> (r: Res<Expression<'a>>)
        requires
            old(self)@.wf(),
        ensures
            final(self)@.gives(
                r,
                binary_expression_at(
                    old(self)@.tokens,
                    Some(old(self)@.index),
                    old(self)@.names,
                    5,
                ),
            ),
            r matches Ok(node) ==> node.well_scoped(old(self)@.names),
            r matches Ok(node) ==> node.level() <= 9,
            match r {
                Ok(node) => final(self)@.reached(
                    old(self)@,
                    node.span_end(old(self)@.tokens, Some(old(self)@.index)),
                ),
                Err(_) => final(self)@.follows(old(self)@),
            },
        decreases old(self)@.left(), 38nat,
    {
        proof {
            reveal(binary_expression_rule);
            assert(binary_expression_at(
                old(self)@.tokens,
                Some(old(self)@.index),
                old(self)@.names,
                5,
            ) == binary_expression_rule(
                old(self)@.tokens,
                Some(old(self)@.index),
                old(self)@.names,
                5,
            ));
        }
        self.parse_binary_expression(5)
    }

    /// And expressions with `^` between them.
    #[verifier::spinoff_prover]
    pub(crate) fn parse_xor_expression(&mut self) -> (r: Res<Expression<'a>>)
        requires
            old(self)@.wf(),
        ensures
            final(self)@.gives(
                r,
                binary_expression_at(
                    old(self)@.tokens,
                    Some(old(self)@.index),
                    old(self)@.names,
                    6,
                ),
            ),
            r matches Ok(node) ==> node.well_scoped(old(self)@.names),
            r matches Ok(node) ==> node.level() <= 10,
            match r {
                Ok(node) => final(self)@.reached(
                    old(self)@,
                    node.span_end(old(self)@.tokens, Some(old(self)@.index)),
                ),
                Err(_) => final(self)@.follows(old(self)@),
            },
        decreases old(self)@.left(), 41nat,
    {
        proof {
            reveal(binary_expression_rule);
            assert(binary_expression_at(
                old(self)@.tokens,
                Some(old(self)@.index),
                old(self)@.names,
                6,
            ) == binary_expression_rule(
                old(self)@.tokens,
                Some(old(self)@.index),
                old(self)@.names,
                6,
            ));
        }
        self.parse_binary_expression(6)
    }

    /// Exclusive-or expressions with `|` between them.
    #[verifier::spinoff_prover]
    pub(crate) fn parse_or_expression(&mut self) -> (r: Res<Expression<'a>>)
        requires
            old(self)@.wf(),
        ensures
            final(self)@.gives(
                r,
                binary_expression_at(
                    old(self)@.tokens,
                    Some(old(self)@.index),
                    old(self)@.names,
                    7,
                ),
            ),
            r matches Ok(node) ==> node.well_scoped(old(self)@.names),
            r matches Ok(node) ==> node.level() <= 11,
            match r {
                Ok(node) => final(self)@.reached(
                    old(self)@,
                    node.span_end(old(self)@.tokens, Some(old(self)@.index)),
                ),
                Err(_) => final(self)@.follows(old(self)@),
            },
        decreases old(self)@.left(), 44nat,
    {
        proof {
            reveal(binary_expression_rule);
            assert(binary_expression_at(
                old(self)@.tokens,
                Some(old(self)@.index),
                old(self)@.names,
                7,
            ) == binary_expression_rule(
                old(self)@.tokens,
                Some(old(self)@.index),
                old(self)@.names,
                7,
            ));
        }
        self.parse_binary_expression(7)
    }

    /// Inclusive-or expressions with `&&` between them.
    #[verifier::spinoff_prover]
    pub(crate) fn parse_logical_and_expression(&mut self) -> (r: Res<Expression<'a>>)
        requires
            old(self)@.wf(),
        ensures
            final(self)@.gives(
                r,
                binary_expression_at(
                    old(self)@.tokens,
                    Some(old(self)@.index),
                    old(self)@.names,
                    8,
                ),
            ),
            r matches Ok(node) ==> node.well_scoped(old(self)@.names),
            r matches Ok(node) ==> node.level() <= 12,
            match r {
                Ok(node) => final(self)@.reached(
                    old(self)@,
                    node.span_end(old(self)@.tokens, Some(old(self)@.index)),
                ),
                Err(_) => final(self)@.follows(old(self)@),
            },
        decreases old(self)@.left(), 47nat,
    {
        proof {
            reveal(binary_expression_rule);
            assert(binary_expression_at(
                old(self)@.tokens,
                Some(old(self)@.index),
                old(self)@.names,
                8,
            ) == binary_expression_rule(
                old(self)@.tokens,
                Some(old(self)@.index),
                old(self)@.names,
                8,
            ));
        }
        self.parse_binary_expression(8)
    }

    /// Logical-and expressions with `||` between them.
    #[verifier::spinoff_prover]
    pub(crate) fn parse_logical_or_expression(&mut self) -> (r: Res<Expression<'a>>)
        requires
            old(self)@.wf(),
        ensures
            final(self)@.gives(
                r,
                binary_expression_at(
                    old(self)@.tokens,
                    Some(old(self)@.index),
                    old(self)@.names,
                    9,
                ),
            ),
            r matches Ok(node) ==> node.well_scoped(old(self)@.names),
            r matches Ok(node) ==> node.level() <= 13,
            match r {
                Ok(node) => final(self)@.reached(
                    old(self)@,
                    node.span_end(old(self)@.tokens, Some(old(self)@.index)),
                ),
                Err(_) => final(self)@.follows(old(self)@),
            },
        decreases old(self)@.left(), 50nat,
    {
        proof {
            reveal(binary_expression_rule);
            assert(binary_expression_at(
                old(self)@.tokens,
                Some(old(self)@.index),
                old(self)@.names,
                9,
            ) == binary_expression_rule(
                old(self)@.tokens,
                Some(old(self)@.index),
                old(self)@.names,
                9,
            ));
        }
        self.parse_binary_expression(9)
    }

    /// A logical-or expression, alone or as the condition in front of `?`,
    /// an expression, `:` and a conditional expression.
    #[verifier::spinoff_prover]
    pub(crate) fn parse_conditional_expression(&mut self) -> (r: Res<Expression<'a>>)
        requires
            old(self)@.wf(),
        ensures
            final(self)@.gives(
                r,
                conditional_expression_at(
                    old(self)@.tokens,
                    Some(old(self)@.index),
                    old(self)@.names,
                ),
            ),
            r matches Ok(node) ==> node.well_scoped(old(self)@.names),
            r matches Ok(node) ==> node.level() <= 14,
            match r {
                Ok(node) => final(self)@.reached(
                    old(self)@,
                    node.span_end(old(self)@.tokens, Some(old(self)@.index)),
                ),
                Err(_) => final(self)@.follows(old(self)@),
            },
        decreases old(self)@.left(), 51nat,
    {
        proof {
            reveal(conditional_expression_rule);
            assert(conditional_expression_at(
                old(self)@.tokens,
                Some(old(self)@.index),
                old(self)@.names,
            ) == conditional_expression_rule(
                old(self)@.tokens,
                Some(old(self)@.index),
                old(self)@.names,
            ));
        }
        let at = self.at();
        let left = self.parse_logical_or_expression()?;
        if !self.is(TokenKind::Question) {
            return Ok(left);
        }
        let condition = Box::new(left);
        let question = self.next();
        let then_value = Box::new(self.parse_expression()?);
        let colon = self.take(TokenKind::Colon)?;
        let else_value = Box::new(self.parse_conditional_expression()?);

        Ok(
            Expression {
                at,
                kind: ExpressionKind::Conditional {
                    condition,
                    question,
                    then_value,
                    colon,
                    else_value,
                },
            },
        )
    }

    /// An assignment, or else a conditional expression.
    #[verifier::spinoff_prover]
    pub(crate) fn parse_assignment_expression(&mut self) -> (r: Res<Expression<'a>>)
        requires
            old(self)@.wf(),
        ensures
            final(self)@.gives(
                r,
                assignment_expression_at(
                    old(self)@.tokens,
                    Some(old(self)@.index),
                    old(self)@.names,
                ),
            ),
            r matches Ok(node) ==> node.well_scoped(old(self)@.names),
            r matches Ok(node) ==> node.level() <= 15,
            match r {
                Ok(node) => final(self)@.reached(
                    old(self)@,
                    node.span_end(old(self)@.tokens, Some(old(self)@.index)),
                ),
                Err(_) => final(self)@.follows(old(self)@),
            },
        decreases old(self)@.left(), 53nat,
    {
        proof {
            reveal(assignment_expression_rule);
            assert(assignment_expression_at(
                old(self)@.tokens,
                Some(old(self)@.index),
                old(self)@.names,
            ) == assignment_expression_rule(
                old(self)@.tokens,
                Some(old(self)@.index),
                old(self)@.names,
            ));
        }
        let checkpoint = self.begin();
        let attempt = self.parse_assignment_expression_prime();
        match self.settle(checkpoint, attempt) {
            Ok(expression) => Ok(expression),
            Err(_) => self.parse_conditional_expression(),
        }
    }

    /// A unary expression, an assignment operator and the value assigned.
    #[verifier::spinoff_prover]
    pub(crate) fn parse_assignment_expression_prime(&mut self) -> (r: Res<Expression<'a>>)
        requires
            old(self)@.wf(),
        ensures
            final(self)@.gives(
                r,
                assignment_expression_prime_at(
                    old(self)@.tokens,
                    Some(old(self)@.index),
                    old(self)@.names,
                ),
            ),
            r matches Ok(node) ==> node.well_scoped(old(self)@.names),
            r matches Ok(node) ==> node.level() <= 15,
            match r {
                Ok(node) => final(self)@.reached(
                    old(self)@,
                    node.span_end(old(self)@.tokens, Some(old(self)@.index)),
                ),
                Err(_) => final(self)@.follows(old(self)@),
            },
        decreases old(self)@.left(), 52nat,
    {
        proof {
            reveal(assignment_expression_prime_rule);
            assert(assignment_expression_prime_at(
                old(self)@.tokens,
                Some(old(self)@.index),
                old(self)@.names,
            ) == assignment_expression_prime_rule(
                old(self)@.tokens,
                Some(old(self)@.index),
                old(self)@.names,
            ));
        }
        let at = self.at();
        let left = Box::new(self.parse_unary_expression()?);
        let operator = match assignment_operator(self.kind()) {
            Some(operator) => operator,
            None => {
                self.err(Expected::AssignmentOperator);
                return Err(());
            },
        };
        let operator_at = self.next();
        let right = Box::new(self.parse_assignment_expression()?);

        Ok(
            Expression {
                at,
                kind: ExpressionKind::Assign { left, operator: (operator_at, operator), right },
            },
        )
    }

    /// Assignment expressions with commas between them, grouped from the
    /// left. A comma that no expression follows is a failure.
    #[verifier::spinoff_prover]
    pub(crate) fn parse_expression(&mut self) -> (r: Res<Expression<'a>>)
        requires
            old(self)@.wf(),
        ensures
            final(self)@.gives(
                r,
                expression_at(old(self)@.tokens, Some(old(self)@.index), old(self)@.names),
            ),
            r matches Ok(node) ==> node.well_scoped(old(self)@.names),
            r matches Ok(node) ==> node.level() <= 16,
            match r {
                Ok(node) => final(self)@.reached(
                    old(self)@,
                    node.span_end(old(self)@.tokens, Some(old(self)@.index)),
                ),
                Err(_) => final(self)@.follows(old(self)@),
            },
        decreases old(self)@.left(), 54nat,
    {
        proof {
            reveal(expression_rule);
            assert(expression_at(
                old(self)@.tokens,
                Some(old(self)@.index),
                old(self)@.names,
            ) == expression_rule(
                old(self)@.tokens,
                Some(old(self)@.index),
                old(self)@.names,
            ));
        }
        let mut left = self.parse_assignment_expression()?;

        loop
            invariant
                expression_rest(old(self)@.tokens, Some(self@.index), old(self)@.names, left)
                    == expression_at(old(self)@.tokens, Some(old(self)@.index), old(self)@.names),
                left.well_scoped(old(self)@.names),
                self@.reached(old(self)@, left.span_end(old(self)@.tokens, Some(old(self)@.index))),
            decreases self@.left(),
        {
            proof {
                reveal(expression_rest_rule);
                assert(expression_rest(
                    old(self)@.tokens,
                    Some(self@.index),
                    old(self)@.names,
                    left,
                ) == expression_rest_rule(
                    old(self)@.tokens,
                    Some(self@.index),
                    old(self)@.names,
                    left,
                ));
            }
            if !self.is(TokenKind::Comma) {
                return Ok(left);
            }
            let comma = self.next();
            let right = Box::new(self.parse_assignment_expression()?);
            left =
            Expression {
                at: left.at,
                kind: ExpressionKind::Comma { left: Box::new(left), comma, right },
            }
        }
    }

    /// A conditional expression.
    #[verifier::spinoff_prover]
    pub(crate) fn parse_constant_expression(&mut self) -> (r: Res<Expression<'a>>)
        requires
            old(self)@.wf(),
        ensures
            final(self)@.gives(
                r,
                constant_expression_at(old(self)@.tokens, Some(old(self)@.index), old(self)@.names),
            ),
            r matches Ok(node) ==> node.well_scoped(old(self)@.names),
            r matches Ok(node) ==> node.level() <= 14,
            match r {
                Ok(node) => final(self)@.reached(
                    old(self)@,
                    node.span_end(old(self)@.tokens, Some(old(self)@.index)),
                ),
                Err(_) => final(self)@.follows(old(self)@),
            },
        decreases old(self)@.left(), 52nat,
    {
        proof {
            reveal(constant_expression_rule);
            assert(constant_expression_at(
                old(self)@.tokens,
                Some(old(self)@.index),
                old(self)@.names,
            ) == constant_expression_rule(
                old(self)@.tokens,
                Some(old(self)@.index),
                old(self)@.names,
            ));
        }
        self.parse_conditional_expression()
    }
}

} // verus!
