//! The rules for expressions.

use crate::ast::{
    AssignmentOperator, BinaryOperator, CommaList, CommaListKind, CompoundLiteral, Expression,
    ExpressionKind, GenericAssociation, GenericAssociationKind, GenericSelection, SizeofKind,
    StringLiteral, UnaryOperator,
};
use crate::grammar::declarations::braced_initializer_at;
use crate::grammar::types::{storage_class_specifiers_at, typename_at};
use crate::grammar::{
    behind, end, finish, forward, is_at, kind_of, maybe, node, place, room, take, take_identifier,
};
use crate::token::{Token, TokenKind};
use vstd::prelude::*;

verus! {

/// The binary operator of the given level that the token spells, if it
/// spells one.
pub open spec fn binary_operator_of(kind: TokenKind, level: u8) -> Option<BinaryOperator> {
    match kind {
        TokenKind::Asterisk if level == 0 => Some(BinaryOperator::Multiply),
        TokenKind::Slash if level == 0 => Some(BinaryOperator::Divide),
        TokenKind::Percent if level == 0 => Some(BinaryOperator::Modulo),
        TokenKind::Plus if level == 1 => Some(BinaryOperator::Add),
        TokenKind::Minus if level == 1 => Some(BinaryOperator::Subtract),
        TokenKind::DoubleLess if level == 2 => Some(BinaryOperator::ShiftLeft),
        TokenKind::DoubleGreater if level == 2 => Some(BinaryOperator::ShiftRight),
        TokenKind::Less if level == 3 => Some(BinaryOperator::Less),
        TokenKind::Greater if level == 3 => Some(BinaryOperator::Greater),
        TokenKind::LessEqual if level == 3 => Some(BinaryOperator::LessEqual),
        TokenKind::GreaterEqual if level == 3 => Some(BinaryOperator::GreaterEqual),
        TokenKind::DoubleEqual if level == 4 => Some(BinaryOperator::Equal),
        TokenKind::NotEqual if level == 4 => Some(BinaryOperator::NotEqual),
        TokenKind::Ampersand if level == 5 => Some(BinaryOperator::BitAnd),
        TokenKind::Caret if level == 6 => Some(BinaryOperator::BitXor),
        TokenKind::Bar if level == 7 => Some(BinaryOperator::BitOr),
        TokenKind::DoubleAmpersand if level == 8 => Some(BinaryOperator::LogicalAnd),
        TokenKind::DoubleBar if level == 9 => Some(BinaryOperator::LogicalOr),
        _ => None,
    }
}

/// The assignment operator that the token spells, if it spells one.
pub open spec fn assignment_operator_of(kind: TokenKind) -> Option<AssignmentOperator> {
    match kind {
        TokenKind::Equal => Some(AssignmentOperator::Assign),
        TokenKind::AsteriskEqual => Some(AssignmentOperator::Multiply),
        TokenKind::SlashEqual => Some(AssignmentOperator::Divide),
        TokenKind::PercentEqual => Some(AssignmentOperator::Modulo),
        TokenKind::PlusEqual => Some(AssignmentOperator::Add),
        TokenKind::MinusEqual => Some(AssignmentOperator::Subtract),
        TokenKind::DoubleLessEqual => Some(AssignmentOperator::ShiftLeft),
        TokenKind::DoubleGreaterEqual => Some(AssignmentOperator::ShiftRight),
        TokenKind::AmpersandEqual => Some(AssignmentOperator::And),
        TokenKind::CaretEqual => Some(AssignmentOperator::Xor),
        TokenKind::BarEqual => Some(AssignmentOperator::Or),
        _ => None,
    }
}

/// The unary operator that the token spells, if it spells one.
pub open spec fn unary_operator_of(kind: TokenKind) -> Option<UnaryOperator> {
    match kind {
        TokenKind::Ampersand => Some(UnaryOperator::AddressOf),
        TokenKind::Asterisk => Some(UnaryOperator::Dereference),
        TokenKind::Plus => Some(UnaryOperator::Positive),
        TokenKind::Minus => Some(UnaryOperator::Negative),
        TokenKind::Tilde => Some(UnaryOperator::BitNot),
        TokenKind::Exclamation => Some(UnaryOperator::LogicalNot),
        _ => None,
    }
}

/// An identifier, a literal, an expression in parentheses or a generic
/// selection.
pub open spec fn primary_expression_at<'a>(
    tokens: Seq<Token<'a>>,
    from: Option<int>,
    names: Seq<&'a str>,
) -> Option<(Expression<'a>, int)>
    decreases room(tokens, from), 16nat, 1nat,
{
    primary_expression_rule(tokens, from, names)
}

/// What [`primary_expression_at`] gives, written out.
#[verifier::opaque]
pub open spec fn primary_expression_rule<'a>(
    tokens: Seq<Token<'a>>,
    from: Option<int>,
    names: Seq<&'a str>,
) -> Option<(Expression<'a>, int)>
    decreases room(tokens, from), 16nat, 0nat,
{
    if kind_of(tokens, from) is None {
        None
    } else {
        let at = place(tokens, from);
        match kind_of(tokens, from) {
            Some(TokenKind::Identifier(name)) => finish(
                behind(from),
                Expression { at, kind: ExpressionKind::Identifier(name) },
            ),
            Some(TokenKind::Integer(integer)) => finish(
                behind(from),
                Expression { at, kind: ExpressionKind::Integer(integer) },
            ),
            Some(TokenKind::String(literal, encoding)) => finish(
                behind(from),
                Expression { at, kind: ExpressionKind::String(StringLiteral { at, literal, encoding }) },
            ),
            Some(TokenKind::OpenParenthesis) => {
                let a = forward(tokens, behind(from), expression_at(tokens, behind(from), names));
                let b = take(tokens, end(a), TokenKind::CloseParenthesis);
                finish(
                    end(b),
                    Expression {
                        at,
                        kind: ExpressionKind::Parenthesized {
                            open_parenthesis: at,
                            inner: Box::new(node(a)),
                            close_parenthesis: node(b),
                        },
                    },
                )
            },
            Some(TokenKind::Generic) => {
                let a = forward(tokens, from, generic_selection_at(tokens, from, names));
                finish(end(a), Expression { at, kind: ExpressionKind::GenericSelection(node(a)) })
            },
            _ => None,
        }
    }
}

/// `_Generic`, and in parentheses the controlling expression and the
/// associations.
pub open spec fn generic_selection_at<'a>(
    tokens: Seq<Token<'a>>,
    from: Option<int>,
    names: Seq<&'a str>,
) -> Option<(GenericSelection<'a>, int)>
    decreases room(tokens, from), 2nat, 1nat,
{
    generic_selection_rule(tokens, from, names)
}

/// What [`generic_selection_at`] gives, written out.
#[verifier::opaque]
pub open spec fn generic_selection_rule<'a>(
    tokens: Seq<Token<'a>>,
    from: Option<int>,
    names: Seq<&'a str>,
) -> Option<(GenericSelection<'a>, int)>
    decreases room(tokens, from), 2nat, 0nat,
{
    if kind_of(tokens, from) is None {
        None
    } else {
        let a = take(tokens, from, TokenKind::Generic);
        let b = take(tokens, end(a), TokenKind::OpenParenthesis);
        let c = forward(tokens, end(b), assignment_expression_at(tokens, end(b), names));
        let d = take(tokens, end(c), TokenKind::Comma);
        let e = forward(tokens, end(d), generic_assoc_list_at(tokens, end(d), names));
        let f = take(tokens, end(e), TokenKind::CloseParenthesis);
        finish(
            end(f),
            GenericSelection {
                at: place(tokens, from),
                generic_keyword: node(a),
                open_parenthesis: node(b),
                controlling_expression: Box::new(node(c)),
                comma: node(d),
                generic_assocs: node(e),
                close_parenthesis: node(f),
            },
        )
    }
}

/// One or more generic associations with commas between them.
pub open spec fn generic_assoc_list_at<'a>(
    tokens: Seq<Token<'a>>,
    from: Option<int>,
    names: Seq<&'a str>,
) -> Option<(CommaList<GenericAssociation<'a>>, int)>
    decreases room(tokens, from), 15nat, 1nat,
{
    generic_assoc_list_rule(tokens, from, names)
}

/// What [`generic_assoc_list_at`] gives, written out.
#[verifier::opaque]
pub open spec fn generic_assoc_list_rule<'a>(
    tokens: Seq<Token<'a>>,
    from: Option<int>,
    names: Seq<&'a str>,
) -> Option<(CommaList<GenericAssociation<'a>>, int)>
    decreases room(tokens, from), 15nat, 0nat,
{
    if kind_of(tokens, from) is None {
        None
    } else {
        let a = forward(tokens, from, generic_association_at(tokens, from, names));
        if a is Some {
            generic_assoc_list_rest(
                tokens,
                end(a),
                names,
                CommaList { at: place(tokens, from), kind: CommaListKind::Leaf(Box::new(node(a))) },
            )
        } else {
            None
        }
    }
}

/// The rest of a list of generic associations behind `left`: as many
/// commas with an association behind them as are there.
pub open spec fn generic_assoc_list_rest<'a>(
    tokens: Seq<Token<'a>>,
    from: Option<int>,
    names: Seq<&'a str>,
    left: CommaList<GenericAssociation<'a>>,
) -> Option<(CommaList<GenericAssociation<'a>>, int)>
    decreases room(tokens, from), 15nat, 1nat,
{
    generic_assoc_list_rest_rule(tokens, from, names, left)
}

/// What [`generic_assoc_list_rest`] gives, written out.
#[verifier::opaque]
pub open spec fn generic_assoc_list_rest_rule<'a>(
    tokens: Seq<Token<'a>>,
    from: Option<int>,
    names: Seq<&'a str>,
    left: CommaList<GenericAssociation<'a>>,
) -> Option<(CommaList<GenericAssociation<'a>>, int)>
    decreases room(tokens, from), 15nat, 0nat,
{
    if kind_of(tokens, from) is None {
        None
    } else {
        let a = forward(tokens, behind(from), generic_association_at(tokens, behind(from), names));
        if is_at(tokens, from, TokenKind::Comma) && a is Some {
            generic_assoc_list_rest(
                tokens,
                end(a),
                names,
                CommaList {
                    at: left.at,
                    kind: CommaListKind::Cons {
                        left: Box::new(left),
                        comma: place(tokens, from),
                        right: Box::new(node(a)),
                    },
                },
            )
        } else {
            finish(from, left)
        }
    }
}

/// A type name or `default`, a colon and an assignment expression.
pub open spec fn generic_association_at<'a>(
    tokens: Seq<Token<'a>>,
    from: Option<int>,
    names: Seq<&'a str>,
) -> Option<(GenericAssociation<'a>, int)>
    decreases room(tokens, from), 14nat, 1nat,
{
    generic_association_rule(tokens, from, names)
}

/// What [`generic_association_at`] gives, written out.
#[verifier::opaque]
pub open spec fn generic_association_rule<'a>(
    tokens: Seq<Token<'a>>,
    from: Option<int>,
    names: Seq<&'a str>,
) -> Option<(GenericAssociation<'a>, int)>
    decreases room(tokens, from), 14nat, 0nat,
{
    if kind_of(tokens, from) is None {
        None
    } else {
        let a = if is_at(tokens, from, TokenKind::Default) {
            finish(
                behind(from),
                GenericAssociationKind::Default { default_keyword: place(tokens, from) },
            )
        } else {
            let t = forward(tokens, from, typename_at(tokens, from, names));
            finish(end(t), GenericAssociationKind::ForType(node(t)))
        };
        let b = take(tokens, end(a), TokenKind::Colon);
        let c = forward(tokens, end(b), assignment_expression_at(tokens, end(b), names));
        finish(
            end(c),
            GenericAssociation { at: place(tokens, from), colon: node(b), kind: node(a), value: node(c) },
        )
    }
}

/// A compound literal or a primary expression, and the postfix forms
/// behind it.
pub open spec fn postfix_expression_at<'a>(
    tokens: Seq<Token<'a>>,
    from: Option<int>,
    names: Seq<&'a str>,
) -> Option<(Expression<'a>, int)>
    decreases room(tokens, from), 18nat, 1nat,
{
    postfix_expression_rule(tokens, from, names)
}

/// What [`postfix_expression_at`] gives, written out.
#[verifier::opaque]
pub open spec fn postfix_expression_rule<'a>(
    tokens: Seq<Token<'a>>,
    from: Option<int>,
    names: Seq<&'a str>,
) -> Option<(Expression<'a>, int)>
    decreases room(tokens, from), 18nat, 0nat,
{
    if kind_of(tokens, from) is None {
        None
    } else {
        let a = forward(tokens, from, postfix_expression_leaf_at(tokens, from, names));
        if a is Some {
            postfix_expression_rest(tokens, end(a), names, node(a))
        } else {
            None
        }
    }
}

/// The postfix forms behind the expression `left`: as many as are there.
/// One that is begun and not completed is a failure.
pub open spec fn postfix_expression_rest<'a>(
    tokens: Seq<Token<'a>>,
    from: Option<int>,
    names: Seq<&'a str>,
    left: Expression<'a>,
) -> Option<(Expression<'a>, int)>
    decreases room(tokens, from), 18nat, 1nat,
{
    postfix_expression_rest_rule(tokens, from, names, left)
}

/// What [`postfix_expression_rest`] gives, written out.
#[verifier::opaque]
pub open spec fn postfix_expression_rest_rule<'a>(
    tokens: Seq<Token<'a>>,
    from: Option<int>,
    names: Seq<&'a str>,
    left: Expression<'a>,
) -> Option<(Expression<'a>, int)>
    decreases room(tokens, from), 18nat, 0nat,
{
    if kind_of(tokens, from) is None {
        None
    } else {
        let at = left.at;
        let here = place(tokens, from);
        match kind_of(tokens, from) {
            Some(TokenKind::OpenBracket) => {
                let a = forward(tokens, behind(from), expression_at(tokens, behind(from), names));
                let b = take(tokens, end(a), TokenKind::CloseBracket);
                if b is Some {
                    postfix_expression_rest(
                        tokens,
                        end(b),
                        names,
                        Expression {
                            at,
                            kind: ExpressionKind::Index {
                                left: Box::new(left),
                                open_bracket: here,
                                index: Box::new(node(a)),
                                close_bracket: node(b),
                            },
                        },
                    )
                } else {
                    None
                }
            },
            Some(TokenKind::OpenParenthesis) => {
                let a = maybe(
                    behind(from),
                    forward(
                        tokens,
                        behind(from),
                        argument_expression_list_at(tokens, behind(from), names),
                    ),
                );
                let b = take(tokens, a.1, TokenKind::CloseParenthesis);
                if b is Some {
                    postfix_expression_rest(
                        tokens,
                        end(b),
                        names,
                        Expression {
                            at,
                            kind: ExpressionKind::Call {
                                left: Box::new(left),
                                open_parenthesis: here,
                                arguments: a.0,
                                close_parenthesis: node(b),
                            },
                        },
                    )
                } else {
                    None
                }
            },
            Some(TokenKind::Period) => {
                let a = take_identifier(tokens, behind(from));
                if a is Some {
                    postfix_expression_rest(
                        tokens,
                        end(a),
                        names,
                        Expression {
                            at,
                            kind: ExpressionKind::Member {
                                left: Box::new(left),
                                period: here,
                                name: node(a),
                            },
                        },
                    )
                } else {
                    None
                }
            },
            Some(TokenKind::ArrowLeft) => {
                let a = take_identifier(tokens, behind(from));
                if a is Some {
                    postfix_expression_rest(
                        tokens,
                        end(a),
                        names,
                        Expression {
                            at,
                            kind: ExpressionKind::MemberIndirect {
                                left: Box::new(left),
                                arrow: here,
                                name: node(a),
                            },
                        },
                    )
                } else {
                    None
                }
            },
            Some(TokenKind::DoublePlus) => postfix_expression_rest(
                tokens,
                behind(from),
                names,
                Expression {
                    at,
                    kind: ExpressionKind::PostIncrement { left: Box::new(left), double_plus: here },
                },
            ),
            Some(TokenKind::DoubleMinus) => postfix_expression_rest(
                tokens,
                behind(from),
                names,
                Expression {
                    at,
                    kind: ExpressionKind::PostDecrement { left: Box::new(left), double_minus: here },
                },
            ),
            _ => finish(from, left),
        }
    }
}

/// A compound literal, or else a primary expression.
pub open spec fn postfix_expression_leaf_at<'a>(
    tokens: Seq<Token<'a>>,
    from: Option<int>,
    names: Seq<&'a str>,
) -> Option<(Expression<'a>, int)>
    decreases room(tokens, from), 17nat, 1nat,
{
    postfix_expression_leaf_rule(tokens, from, names)
}

/// What [`postfix_expression_leaf_at`] gives, written out.
#[verifier::opaque]
pub open spec fn postfix_expression_leaf_rule<'a>(
    tokens: Seq<Token<'a>>,
    from: Option<int>,
    names: Seq<&'a str>,
) -> Option<(Expression<'a>, int)>
    decreases room(tokens, from), 17nat, 0nat,
{
    if kind_of(tokens, from) is None {
        None
    } else {
        let a = forward(tokens, from, compound_literal_expression_at(tokens, from, names));
        if a is Some {
            a
        } else {
            forward(tokens, from, primary_expression_at(tokens, from, names))
        }
    }
}

/// One or more assignment expressions with commas between them.
pub open spec fn argument_expression_list_at<'a>(
    tokens: Seq<Token<'a>>,
    from: Option<int>,
    names: Seq<&'a str>,
) -> Option<(CommaList<Expression<'a>>, int)>
    decreases room(tokens, from), 55nat, 1nat,
{
    argument_expression_list_rule(tokens, from, names)
}

/// What [`argument_expression_list_at`] gives, written out.
#[verifier::opaque]
pub open spec fn argument_expression_list_rule<'a>(
    tokens: Seq<Token<'a>>,
    from: Option<int>,
    names: Seq<&'a str>,
) -> Option<(CommaList<Expression<'a>>, int)>
    decreases room(tokens, from), 55nat, 0nat,
{
    if kind_of(tokens, from) is None {
        None
    } else {
        let a = forward(tokens, from, assignment_expression_at(tokens, from, names));
        if a is Some {
            argument_expression_list_rest(
                tokens,
                end(a),
                names,
                CommaList { at: place(tokens, from), kind: CommaListKind::Leaf(Box::new(node(a))) },
            )
        } else {
            None
        }
    }
}

/// The rest of an argument list behind `left`: as many commas with an
/// assignment expression behind them as are there.
pub open spec fn argument_expression_list_rest<'a>(
    tokens: Seq<Token<'a>>,
    from: Option<int>,
    names: Seq<&'a str>,
    left: CommaList<Expression<'a>>,
) -> Option<(CommaList<Expression<'a>>, int)>
    decreases room(tokens, from), 55nat, 1nat,
{
    argument_expression_list_rest_rule(tokens, from, names, left)
}

/// What [`argument_expression_list_rest`] gives, written out.
#[verifier::opaque]
pub open spec fn argument_expression_list_rest_rule<'a>(
    tokens: Seq<Token<'a>>,
    from: Option<int>,
    names: Seq<&'a str>,
    left: CommaList<Expression<'a>>,
) -> Option<(CommaList<Expression<'a>>, int)>
    decreases room(tokens, from), 55nat, 0nat,
{
    if kind_of(tokens, from) is None {
        None
    } else {
        let a = forward(tokens, behind(from), assignment_expression_at(tokens, behind(from), names));
        if is_at(tokens, from, TokenKind::Comma) && a is Some {
            argument_expression_list_rest(
                tokens,
                end(a),
                names,
                CommaList {
                    at: left.at,
                    kind: CommaListKind::Cons {
                        left: Box::new(left),
                        comma: place(tokens, from),
                        right: Box::new(node(a)),
                    },
                },
            )
        } else {
            finish(from, left)
        }
    }
}

/// A compound literal as an expression.
pub open spec fn compound_literal_expression_at<'a>(
    tokens: Seq<Token<'a>>,
    from: Option<int>,
    names: Seq<&'a str>,
) -> Option<(Expression<'a>, int)>
    decreases room(tokens, from), 3nat, 1nat,
{
    compound_literal_expression_rule(tokens, from, names)
}

/// What [`compound_literal_expression_at`] gives, written out.
#[verifier::opaque]
pub open spec fn compound_literal_expression_rule<'a>(
    tokens: Seq<Token<'a>>,
    from: Option<int>,
    names: Seq<&'a str>,
) -> Option<(Expression<'a>, int)>
    decreases room(tokens, from), 3nat, 0nat,
{
    if kind_of(tokens, from) is None {
        None
    } else {
        let a = forward(tokens, from, compound_literal_at(tokens, from, names));
        finish(end(a), Expression { at: node(a).at, kind: ExpressionKind::CompoundLiteral(node(a)) })
    }
}

/// A type name in parentheses, with storage class specifiers in front of
/// it if there are any, and a braced initializer.
pub open spec fn compound_literal_at<'a>(
    tokens: Seq<Token<'a>>,
    from: Option<int>,
    names: Seq<&'a str>,
) -> Option<(CompoundLiteral<'a>, int)>
    decreases room(tokens, from), 2nat, 1nat,
{
    compound_literal_rule(tokens, from, names)
}

/// What [`compound_literal_at`] gives, written out.
#[verifier::opaque]
pub open spec fn compound_literal_rule<'a>(
    tokens: Seq<Token<'a>>,
    from: Option<int>,
    names: Seq<&'a str>,
) -> Option<(CompoundLiteral<'a>, int)>
    decreases room(tokens, from), 2nat, 0nat,
{
    if kind_of(tokens, from) is None {
        None
    } else {
        let a = take(tokens, from, TokenKind::OpenParenthesis);
        let b = maybe(end(a), forward(tokens, end(a), storage_class_specifiers_at(tokens, end(a))));
        let c = forward(tokens, b.1, typename_at(tokens, b.1, names));
        let d = take(tokens, end(c), TokenKind::CloseParenthesis);
        let e = forward(tokens, end(d), braced_initializer_at(tokens, end(d), names));
        finish(
            end(e),
            CompoundLiteral {
                at: place(tokens, from),
                open_parenthesis: node(a),
                storage_class: b.0,
                typename: node(c),
                close_parenthesis: node(d),
                initializer: node(e),
            },
        )
    }
}

/// An expression with a prefix operator in front of it, the size of an
/// expression or of a type, the alignment of a type, or else a postfix
/// expression. The operand of `sizeof` is an expression where one can be
/// read, else a type name in parentheses.
pub open spec fn unary_expression_at<'a>(
    tokens: Seq<Token<'a>>,
    from: Option<int>,
    names: Seq<&'a str>,
) -> Option<(Expression<'a>, int)>
    decreases room(tokens, from), 19nat, 1nat,
{
    unary_expression_rule(tokens, from, names)
}

/// What [`unary_expression_at`] gives, written out.
#[verifier::opaque]
pub open spec fn unary_expression_rule<'a>(
    tokens: Seq<Token<'a>>,
    from: Option<int>,
    names: Seq<&'a str>,
) -> Option<(Expression<'a>, int)>
    decreases room(tokens, from), 19nat, 0nat,
{
    if kind_of(tokens, from) is None {
        None
    } else {
        let at = place(tokens, from);
        match kind_of(tokens, from) {
            Some(TokenKind::DoublePlus) => {
                let a = forward(tokens, behind(from), unary_expression_at(tokens, behind(from), names));
                finish(
                    end(a),
                    Expression {
                        at,
                        kind: ExpressionKind::PreIncrement {
                            double_plus: at,
                            right: Box::new(node(a)),
                        },
                    },
                )
            },
            Some(TokenKind::DoubleMinus) => {
                let a = forward(tokens, behind(from), unary_expression_at(tokens, behind(from), names));
                finish(
                    end(a),
                    Expression {
                        at,
                        kind: ExpressionKind::PreDecrement {
                            double_minus: at,
                            right: Box::new(node(a)),
                        },
                    },
                )
            },
            Some(TokenKind::Sizeof) => {
                let a = forward(tokens, behind(from), unary_expression_at(tokens, behind(from), names));
                if a is Some {
                    finish(
                        end(a),
                        Expression {
                            at,
                            kind: ExpressionKind::Sizeof {
                                sizeof_keyword: at,
                                kind: SizeofKind::Expression(Box::new(node(a))),
                            },
                        },
                    )
                } else {
                    let b = take(tokens, behind(from), TokenKind::OpenParenthesis);
                    let c = forward(tokens, end(b), typename_at(tokens, end(b), names));
                    let d = take(tokens, end(c), TokenKind::CloseParenthesis);
                    finish(
                        end(d),
                        Expression {
                            at,
                            kind: ExpressionKind::Sizeof {
                                sizeof_keyword: at,
                                kind: SizeofKind::Type {
                                    open_parenthesis: node(b),
                                    typename: node(c),
                                    close_parenthesis: node(d),
                                },
                            },
                        },
                    )
                }
            },
            Some(TokenKind::Alignof) => {
                let a = take(tokens, behind(from), TokenKind::OpenParenthesis);
                let b = forward(tokens, end(a), typename_at(tokens, end(a), names));
                let c = take(tokens, end(b), TokenKind::CloseParenthesis);
                finish(
                    end(c),
                    Expression {
                        at,
                        kind: ExpressionKind::Alignof {
                            alignof_keyword: at,
                            open_parenthesis: node(a),
                            typename: node(b),
                            close_parenthesis: node(c),
                        },
                    },
                )
            },
            Some(kind) => match unary_operator_of(kind) {
                Some(operator) => {
                    let a = forward(
                        tokens,
                        behind(from),
                        cast_expression_at(tokens, behind(from), names),
                    );
                    finish(
                        end(a),
                        Expression { at, kind: ExpressionKind::Unary(operator, Box::new(node(a))) },
                    )
                },
                None => forward(tokens, from, postfix_expression_at(tokens, from, names)),
            },
            None => None,
        }
    }
}

/// A cast, or else a unary expression.
pub open spec fn cast_expression_at<'a>(
    tokens: Seq<Token<'a>>,
    from: Option<int>,
    names: Seq<&'a str>,
) -> Option<(Expression<'a>, int)>
    decreases room(tokens, from), 20nat, 1nat,
{
    cast_expression_rule(tokens, from, names)
}

/// What [`cast_expression_at`] gives, written out.
#[verifier::opaque]
pub open spec fn cast_expression_rule<'a>(
    tokens: Seq<Token<'a>>,
    from: Option<int>,
    names: Seq<&'a str>,
) -> Option<(Expression<'a>, int)>
    decreases room(tokens, from), 20nat, 0nat,
{
    if kind_of(tokens, from) is None {
        None
    } else {
        let a = forward(tokens, from, cast_expression_prime_at(tokens, from, names));
        if a is Some {
            a
        } else {
            forward(tokens, from, unary_expression_at(tokens, from, names))
        }
    }
}

/// A type name in parentheses and the expression that it is applied to.
pub open spec fn cast_expression_prime_at<'a>(
    tokens: Seq<Token<'a>>,
    from: Option<int>,
    names: Seq<&'a str>,
) -> Option<(Expression<'a>, int)>
    decreases room(tokens, from), 2nat, 1nat,
{
    cast_expression_prime_rule(tokens, from, names)
}

/// What [`cast_expression_prime_at`] gives, written out.
#[verifier::opaque]
pub open spec fn cast_expression_prime_rule<'a>(
    tokens: Seq<Token<'a>>,
    from: Option<int>,
    names: Seq<&'a str>,
) -> Option<(Expression<'a>, int)>
    decreases room(tokens, from), 2nat, 0nat,
{
    if kind_of(tokens, from) is None {
        None
    } else {
        let a = take(tokens, from, TokenKind::OpenParenthesis);
        let b = forward(tokens, end(a), typename_at(tokens, end(a), names));
        let c = take(tokens, end(b), TokenKind::CloseParenthesis);
        let d = forward(tokens, end(c), cast_expression_at(tokens, end(c), names));
        finish(
            end(d),
            Expression {
                at: place(tokens, from),
                kind: ExpressionKind::Cast {
                    open_parenthesis: node(a),
                    typename: node(b),
                    close_parenthesis: node(c),
                    right: Box::new(node(d)),
                },
            },
        )
    }
}

/// An operand of a binary operator of the given level: an expression of
/// the level below, a cast expression below level 0.
pub open spec fn binary_operand_at<'a>(
    tokens: Seq<Token<'a>>,
    from: Option<int>,
    names: Seq<&'a str>,
    level: u8,
) -> Option<(Expression<'a>, int)>
    decreases room(tokens, from), 21 + 3 * level, 1nat,
{
    binary_operand_rule(tokens, from, names, level)
}

/// What [`binary_operand_at`] gives, written out.
#[verifier::opaque]
pub open spec fn binary_operand_rule<'a>(
    tokens: Seq<Token<'a>>,
    from: Option<int>,
    names: Seq<&'a str>,
    level: u8,
) -> Option<(Expression<'a>, int)>
    decreases room(tokens, from), 21 + 3 * level, 0nat,
{
    if kind_of(tokens, from) is None {
        None
    } else {
        if level == 0 {
            forward(tokens, from, cast_expression_at(tokens, from, names))
        } else {
            forward(tokens, from, binary_expression_at(tokens, from, names, (level - 1) as u8))
        }
    }
}

/// Operands of the given level with operators of that level between
/// them, grouped from the left. The levels are, from 0 to 9:
/// multiplicative, additive, shift, relational, equality, and, exclusive
/// or, inclusive or, logical and, logical or.
pub open spec fn binary_expression_at<'a>(
    tokens: Seq<Token<'a>>,
    from: Option<int>,
    names: Seq<&'a str>,
    level: u8,
) -> Option<(Expression<'a>, int)>
    decreases room(tokens, from), 22 + 3 * level, 1nat,
{
    binary_expression_rule(tokens, from, names, level)
}

/// What [`binary_expression_at`] gives, written out.
#[verifier::opaque]
pub open spec fn binary_expression_rule<'a>(
    tokens: Seq<Token<'a>>,
    from: Option<int>,
    names: Seq<&'a str>,
    level: u8,
) -> Option<(Expression<'a>, int)>
    decreases room(tokens, from), 22 + 3 * level, 0nat,
{
    if kind_of(tokens, from) is None {
        None
    } else {
        let a = forward(tokens, from, binary_operand_at(tokens, from, names, level));
        if a is Some {
            binary_expression_rest(tokens, end(a), names, level, node(a))
        } else {
            None
        }
    }
}

/// The operators of the given level behind the operand `left`, each with
/// its right operand: as many as are there. An operator that no operand
/// follows is a failure.
pub open spec fn binary_expression_rest<'a>(
    tokens: Seq<Token<'a>>,
    from: Option<int>,
    names: Seq<&'a str>,
    level: u8,
    left: Expression<'a>,
) -> Option<(Expression<'a>, int)>
    decreases room(tokens, from), 22 + 3 * level, 1nat,
{
    binary_expression_rest_rule(tokens, from, names, level, left)
}

/// What [`binary_expression_rest`] gives, written out.
#[verifier::opaque]
pub open spec fn binary_expression_rest_rule<'a>(
    tokens: Seq<Token<'a>>,
    from: Option<int>,
    names: Seq<&'a str>,
    level: u8,
    left: Expression<'a>,
) -> Option<(Expression<'a>, int)>
    decreases room(tokens, from), 22 + 3 * level, 0nat,
{
    if kind_of(tokens, from) is None {
        None
    } else {
        match kind_of(tokens, from) {
            Some(kind) => match binary_operator_of(kind, level) {
                Some(operator) => {
                    let a = forward(
                        tokens,
                        behind(from),
                        binary_operand_at(tokens, behind(from), names, level),
                    );
                    if a is Some {
                        binary_expression_rest(
                            tokens,
                            end(a),
                            names,
                            level,
                            Expression {
                                at: left.at,
                                kind: ExpressionKind::Binary {
                                    left: Box::new(left),
                                    operator: (place(tokens, from), operator),
                                    right: Box::new(node(a)),
                                },
                            },
                        )
                    } else {
                        None
                    }
                },
                None => finish(from, left),
            },
            None => None,
        }
    }
}

/// A logical-or expression, alone or as the condition in front of `?`,
/// an expression, `:` and a conditional expression.
pub open spec fn conditional_expression_at<'a>(
    tokens: Seq<Token<'a>>,
    from: Option<int>,
    names: Seq<&'a str>,
) -> Option<(Expression<'a>, int)>
    decreases room(tokens, from), 51nat, 1nat,
{
    conditional_expression_rule(tokens, from, names)
}

/// What [`conditional_expression_at`] gives, written out.
#[verifier::opaque]
pub open spec fn conditional_expression_rule<'a>(
    tokens: Seq<Token<'a>>,
    from: Option<int>,
    names: Seq<&'a str>,
) -> Option<(Expression<'a>, int)>
    decreases room(tokens, from), 51nat, 0nat,
{
    if kind_of(tokens, from) is None {
        None
    } else {
        let a = forward(tokens, from, binary_expression_at(tokens, from, names, 9));
        if a is Some && is_at(tokens, end(a), TokenKind::Question) {
            let b = forward(
                tokens,
                behind(end(a)),
                expression_at(tokens, behind(end(a)), names),
            );
            let c = take(tokens, end(b), TokenKind::Colon);
            let d = forward(tokens, end(c), conditional_expression_at(tokens, end(c), names));
            finish(
                end(d),
                Expression {
                    at: place(tokens, from),
                    kind: ExpressionKind::Conditional {
                        condition: Box::new(node(a)),
                        question: place(tokens, end(a)),
                        then_value: Box::new(node(b)),
                        colon: node(c),
                        else_value: Box::new(node(d)),
                    },
                },
            )
        } else {
            a
        }
    }
}

/// An assignment, or else a conditional expression.
pub open spec fn assignment_expression_at<'a>(
    tokens: Seq<Token<'a>>,
    from: Option<int>,
    names: Seq<&'a str>,
) -> Option<(Expression<'a>, int)>
    decreases room(tokens, from), 53nat, 1nat,
{
    assignment_expression_rule(tokens, from, names)
}

/// What [`assignment_expression_at`] gives, written out.
#[verifier::opaque]
pub open spec fn assignment_expression_rule<'a>(
    tokens: Seq<Token<'a>>,
    from: Option<int>,
    names: Seq<&'a str>,
) -> Option<(Expression<'a>, int)>
    decreases room(tokens, from), 53nat, 0nat,
{
    if kind_of(tokens, from) is None {
        None
    } else {
        let a = forward(tokens, from, assignment_expression_prime_at(tokens, from, names));
        if a is Some {
            a
        } else {
            forward(tokens, from, conditional_expression_at(tokens, from, names))
        }
    }
}

/// A unary expression, an assignment operator and the value assigned.
pub open spec fn assignment_expression_prime_at<'a>(
    tokens: Seq<Token<'a>>,
    from: Option<int>,
    names: Seq<&'a str>,
) -> Option<(Expression<'a>, int)>
    decreases room(tokens, from), 52nat, 1nat,
{
    assignment_expression_prime_rule(tokens, from, names)
}

/// What [`assignment_expression_prime_at`] gives, written out.
#[verifier::opaque]
pub open spec fn assignment_expression_prime_rule<'a>(
    tokens: Seq<Token<'a>>,
    from: Option<int>,
    names: Seq<&'a str>,
) -> Option<(Expression<'a>, int)>
    decreases room(tokens, from), 52nat, 0nat,
{
    if kind_of(tokens, from) is None {
        None
    } else {
        let a = forward(tokens, from, unary_expression_at(tokens, from, names));
        match kind_of(tokens, end(a)) {
            Some(kind) => match assignment_operator_of(kind) {
                Some(operator) => {
                    let b = forward(
                        tokens,
                        behind(end(a)),
                        assignment_expression_at(tokens, behind(end(a)), names),
                    );
                    finish(
                        end(b),
                        Expression {
                            at: place(tokens, from),
                            kind: ExpressionKind::Assign {
                                left: Box::new(node(a)),
                                operator: (place(tokens, end(a)), operator),
                                right: Box::new(node(b)),
                            },
                        },
                    )
                },
                None => None,
            },
            None => None,
        }
    }
}

/// Assignment expressions with commas between them, grouped from the
/// left.
pub open spec fn expression_at<'a>(
    tokens: Seq<Token<'a>>,
    from: Option<int>,
    names: Seq<&'a str>,
) -> Option<(Expression<'a>, int)>
    decreases room(tokens, from), 54nat, 1nat,
{
    expression_rule(tokens, from, names)
}

/// What [`expression_at`] gives, written out.
#[verifier::opaque]
pub open spec fn expression_rule<'a>(
    tokens: Seq<Token<'a>>,
    from: Option<int>,
    names: Seq<&'a str>,
) -> Option<(Expression<'a>, int)>
    decreases room(tokens, from), 54nat, 0nat,
{
    if kind_of(tokens, from) is None {
        None
    } else {
        let a = forward(tokens, from, assignment_expression_at(tokens, from, names));
        if a is Some {
            expression_rest(tokens, end(a), names, node(a))
        } else {
            None
        }
    }
}

/// The commas behind the expression `left`, each with the assignment
/// expression behind it. A comma that none follows is a failure.
pub open spec fn expression_rest<'a>(
    tokens: Seq<Token<'a>>,
    from: Option<int>,
    names: Seq<&'a str>,
    left: Expression<'a>,
) -> Option<(Expression<'a>, int)>
    decreases room(tokens, from), 54nat, 1nat,
{
    expression_rest_rule(tokens, from, names, left)
}

/// What [`expression_rest`] gives, written out.
#[verifier::opaque]
pub open spec fn expression_rest_rule<'a>(
    tokens: Seq<Token<'a>>,
    from: Option<int>,
    names: Seq<&'a str>,
    left: Expression<'a>,
) -> Option<(Expression<'a>, int)>
    decreases room(tokens, from), 54nat, 0nat,
{
    if kind_of(tokens, from) is None {
        None
    } else {
        if is_at(tokens, from, TokenKind::Comma) {
            let a = forward(
                tokens,
                behind(from),
                assignment_expression_at(tokens, behind(from), names),
            );
            if a is Some {
                expression_rest(
                    tokens,
                    end(a),
                    names,
                    Expression {
                        at: left.at,
                        kind: ExpressionKind::Comma {
                            left: Box::new(left),
                            comma: place(tokens, from),
                            right: Box::new(node(a)),
                        },
                    },
                )
            } else {
                None
            }
        } else {
            finish(from, left)
        }
    }
}

/// A conditional expression.
pub open spec fn constant_expression_at<'a>(
    tokens: Seq<Token<'a>>,
    from: Option<int>,
    names: Seq<&'a str>,
) -> Option<(Expression<'a>, int)>
    decreases room(tokens, from), 52nat, 1nat,
{
    constant_expression_rule(tokens, from, names)
}

/// What [`constant_expression_at`] gives, written out.
#[verifier::opaque]
pub open spec fn constant_expression_rule<'a>(
    tokens: Seq<Token<'a>>,
    from: Option<int>,
    names: Seq<&'a str>,
) -> Option<(Expression<'a>, int)>
    decreases room(tokens, from), 52nat, 0nat,
{
    if kind_of(tokens, from) is None {
        None
    } else {
        forward(tokens, from, conditional_expression_at(tokens, from, names))
    }
}

} // verus!
