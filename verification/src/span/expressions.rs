//! Expressions laid over tokens.

use crate::ast::{
    AssignmentOperator, BinaryOperator, CommaList, CommaListKind, CompoundLiteral, Expression,
    ExpressionKind, GenericAssociation, GenericAssociationKind, GenericSelection, SizeofKind,
    StringLiteral, UnaryOperator,
};
use crate::span::{kind_at, starts_at, token_at};
use crate::token::{Token, TokenKind};
use vstd::prelude::*;

verus! {

impl UnaryOperator {
    /// The token that spells the operator.
    pub open spec fn token(self) -> TokenKind<'static> {
        match self {
            UnaryOperator::AddressOf => TokenKind::Ampersand,
            UnaryOperator::Dereference => TokenKind::Asterisk,
            UnaryOperator::Positive => TokenKind::Plus,
            UnaryOperator::Negative => TokenKind::Minus,
            UnaryOperator::BitNot => TokenKind::Tilde,
            UnaryOperator::LogicalNot => TokenKind::Exclamation,
        }
    }
}

impl BinaryOperator {
    /// The token that spells the operator.
    pub open spec fn token(self) -> TokenKind<'static> {
        match self {
            BinaryOperator::Add => TokenKind::Plus,
            BinaryOperator::Subtract => TokenKind::Minus,
            BinaryOperator::Multiply => TokenKind::Asterisk,
            BinaryOperator::Divide => TokenKind::Slash,
            BinaryOperator::Modulo => TokenKind::Percent,
            BinaryOperator::ShiftLeft => TokenKind::DoubleLess,
            BinaryOperator::ShiftRight => TokenKind::DoubleGreater,
            BinaryOperator::Less => TokenKind::Less,
            BinaryOperator::Greater => TokenKind::Greater,
            BinaryOperator::LessEqual => TokenKind::LessEqual,
            BinaryOperator::GreaterEqual => TokenKind::GreaterEqual,
            BinaryOperator::Equal => TokenKind::DoubleEqual,
            BinaryOperator::NotEqual => TokenKind::NotEqual,
            BinaryOperator::BitAnd => TokenKind::Ampersand,
            BinaryOperator::BitOr => TokenKind::Bar,
            BinaryOperator::BitXor => TokenKind::Caret,
            BinaryOperator::LogicalAnd => TokenKind::DoubleAmpersand,
            BinaryOperator::LogicalOr => TokenKind::DoubleBar,
        }
    }
}

impl AssignmentOperator {
    /// The token that spells the operator.
    pub open spec fn token(self) -> TokenKind<'static> {
        match self {
            AssignmentOperator::Assign => TokenKind::Equal,
            AssignmentOperator::Multiply => TokenKind::AsteriskEqual,
            AssignmentOperator::Divide => TokenKind::SlashEqual,
            AssignmentOperator::Modulo => TokenKind::PercentEqual,
            AssignmentOperator::Add => TokenKind::PlusEqual,
            AssignmentOperator::Subtract => TokenKind::MinusEqual,
            AssignmentOperator::ShiftLeft => TokenKind::DoubleLessEqual,
            AssignmentOperator::ShiftRight => TokenKind::DoubleGreaterEqual,
            AssignmentOperator::And => TokenKind::AmpersandEqual,
            AssignmentOperator::Xor => TokenKind::CaretEqual,
            AssignmentOperator::Or => TokenKind::BarEqual,
        }
    }
}

impl BinaryOperator {
    /// The level of precedence of the operator, from 0 for `*` to 9 for
    /// `||`: the lower the level, the tighter the operator binds.
    pub open spec fn level(self) -> nat {
        match self {
            BinaryOperator::Multiply | BinaryOperator::Divide | BinaryOperator::Modulo => 0,
            BinaryOperator::Add | BinaryOperator::Subtract => 1,
            BinaryOperator::ShiftLeft | BinaryOperator::ShiftRight => 2,
            BinaryOperator::Less
            | BinaryOperator::Greater
            | BinaryOperator::LessEqual
            | BinaryOperator::GreaterEqual => 3,
            BinaryOperator::Equal | BinaryOperator::NotEqual => 4,
            BinaryOperator::BitAnd => 5,
            BinaryOperator::BitXor => 6,
            BinaryOperator::BitOr => 7,
            BinaryOperator::LogicalAnd => 8,
            BinaryOperator::LogicalOr => 9,
        }
    }
}

impl<'a> StringLiteral<'a> {
    pub open spec fn span_end(self, tokens: Seq<Token<'a>>, from: Option<int>) -> Option<int> {
        token_at(tokens, from, TokenKind::String(self.literal, self.encoding), self.at)
    }
}

impl<'a> Expression<'a> {
    /// The level of the expression in the grammar: 0 for a primary
    /// expression, 1 for a postfix expression, 2 for a unary expression,
    /// 3 for a cast, 4 to 13 for the binary operators from `*` to `||`,
    /// 14 for a conditional expression, 15 for an assignment and 16 for
    /// a comma expression. Where the grammar asks for an expression of a
    /// level, one of a lower level will do.
    pub open spec fn level(self) -> nat {
        match self.kind {
            ExpressionKind::Identifier(_)
            | ExpressionKind::Integer(_)
            | ExpressionKind::String(_)
            | ExpressionKind::Parenthesized { .. }
            | ExpressionKind::GenericSelection(_) => 0,
            ExpressionKind::Index { .. }
            | ExpressionKind::Call { .. }
            | ExpressionKind::Member { .. }
            | ExpressionKind::MemberIndirect { .. }
            | ExpressionKind::PostIncrement { .. }
            | ExpressionKind::PostDecrement { .. }
            | ExpressionKind::CompoundLiteral(_) => 1,
            ExpressionKind::PreIncrement { .. }
            | ExpressionKind::PreDecrement { .. }
            | ExpressionKind::Unary(_, _)
            | ExpressionKind::Sizeof { .. }
            | ExpressionKind::Alignof { .. } => 2,
            ExpressionKind::Cast { .. } => 3,
            ExpressionKind::Binary { operator, .. } => 4 + operator.1.level(),
            ExpressionKind::Conditional { .. } => 14,
            ExpressionKind::Assign { .. } => 15,
            ExpressionKind::Comma { .. } => 16,
        }
    }

    /// The position after the expression when it is laid over `tokens`
    /// from `from`. An expression starts where its first token stands,
    /// and its operands are of the levels that the grammar asks for: so
    /// an operator that binds tighter stands deeper in the tree, and
    /// binary operators of one level are grouped from the left.
    pub open spec fn span_end(self, tokens: Seq<Token<'a>>, from: Option<int>) -> Option<int>
        decreases self,
    {
        if starts_at(tokens, from, self.at) {
            match self.kind {
                ExpressionKind::Identifier(name) => kind_at(tokens, from, TokenKind::Identifier(name)),
                ExpressionKind::Integer(integer) => kind_at(tokens, from, TokenKind::Integer(integer)),
                ExpressionKind::String(literal) => literal.span_end(tokens, from),
                ExpressionKind::Parenthesized { open_parenthesis, inner, close_parenthesis } => {
                    let p = token_at(tokens, from, TokenKind::OpenParenthesis, open_parenthesis);
                    let p = inner.span_end(tokens, p);
                    token_at(tokens, p, TokenKind::CloseParenthesis, close_parenthesis)
                },
                ExpressionKind::GenericSelection(selection) => selection.span_end(tokens, from),
                ExpressionKind::Index { left, open_bracket, index, close_bracket } => if left.level() <= 1 {
                    let p = left.span_end(tokens, from);
                    let p = token_at(tokens, p, TokenKind::OpenBracket, open_bracket);
                    let p = index.span_end(tokens, p);
                    token_at(tokens, p, TokenKind::CloseBracket, close_bracket)
                } else {
                None
            },
                ExpressionKind::Call { left, open_parenthesis, arguments, close_parenthesis } => if left.level() <= 1 {
                    let p = left.span_end(tokens, from);
                    let p = token_at(tokens, p, TokenKind::OpenParenthesis, open_parenthesis);
                    let p = match arguments {
                        Some(list) => list.span_end(tokens, p),
                        None => p,
                    };
                    token_at(tokens, p, TokenKind::CloseParenthesis, close_parenthesis)
                } else {
                None
            },
                ExpressionKind::Member { left, period, name } => if left.level() <= 1 {
                    let p = left.span_end(tokens, from);
                    let p = token_at(tokens, p, TokenKind::Period, period);
                    kind_at(tokens, p, TokenKind::Identifier(name))
                } else {
                None
            },
                ExpressionKind::MemberIndirect { left, arrow, name } => if left.level() <= 1 {
                    let p = left.span_end(tokens, from);
                    let p = token_at(tokens, p, TokenKind::ArrowLeft, arrow);
                    kind_at(tokens, p, TokenKind::Identifier(name))
                } else {
                None
            },
                ExpressionKind::PostIncrement { left, double_plus } => if left.level() <= 1 {
                    let p = left.span_end(tokens, from);
                    token_at(tokens, p, TokenKind::DoublePlus, double_plus)
                } else {
                None
            },
                ExpressionKind::PostDecrement { left, double_minus } => if left.level() <= 1 {
                    let p = left.span_end(tokens, from);
                    token_at(tokens, p, TokenKind::DoubleMinus, double_minus)
                } else {
                None
            },
                ExpressionKind::CompoundLiteral(literal) => literal.span_end(tokens, from),
                ExpressionKind::PreIncrement { double_plus, right } => if right.level() <= 2 {
                    let p = token_at(tokens, from, TokenKind::DoublePlus, double_plus);
                    right.span_end(tokens, p)
                } else {
                None
            },
                ExpressionKind::PreDecrement { double_minus, right } => if right.level() <= 2 {
                    let p = token_at(tokens, from, TokenKind::DoubleMinus, double_minus);
                    right.span_end(tokens, p)
                } else {
                None
            },
                ExpressionKind::Unary(operator, right) => if right.level() <= 3 {
                    let p = kind_at(tokens, from, operator.token());
                    right.span_end(tokens, p)
                } else {
                None
            },
                ExpressionKind::Sizeof { sizeof_keyword, kind } => {
                    let p = token_at(tokens, from, TokenKind::Sizeof, sizeof_keyword);
                    match kind {
                        SizeofKind::Expression(operand) => if operand.level() <= 2 {
                        operand.span_end(tokens, p)
                    } else {
                        None
                    },
                        SizeofKind::Type { open_parenthesis, typename, close_parenthesis } => {
                            let p = token_at(tokens, p, TokenKind::OpenParenthesis, open_parenthesis);
                            let p = typename.span_end(tokens, p);
                            token_at(tokens, p, TokenKind::CloseParenthesis, close_parenthesis)
                        },
                    }
                },
                ExpressionKind::Alignof {
                    alignof_keyword,
                    open_parenthesis,
                    typename,
                    close_parenthesis,
                } => {
                    let p = token_at(tokens, from, TokenKind::Alignof, alignof_keyword);
                    let p = token_at(tokens, p, TokenKind::OpenParenthesis, open_parenthesis);
                    let p = typename.span_end(tokens, p);
                    token_at(tokens, p, TokenKind::CloseParenthesis, close_parenthesis)
                },
                ExpressionKind::Cast { open_parenthesis, typename, close_parenthesis, right } => if right.level() <= 3 {
                    let p = token_at(tokens, from, TokenKind::OpenParenthesis, open_parenthesis);
                    let p = typename.span_end(tokens, p);
                    let p = token_at(tokens, p, TokenKind::CloseParenthesis, close_parenthesis);
                    right.span_end(tokens, p)
                } else {
                None
            },
                ExpressionKind::Binary { left, operator, right } => if left.level() <= 4 + operator.1.level() && right.level() < 4 + operator.1.level() {
                    let p = left.span_end(tokens, from);
                    let p = token_at(tokens, p, operator.1.token(), operator.0);
                    right.span_end(tokens, p)
                } else {
                None
            },
                ExpressionKind::Conditional { condition, question, then_value, colon, else_value } => if condition.level() <= 13 && else_value.level() <= 14 {
                    let p = condition.span_end(tokens, from);
                    let p = token_at(tokens, p, TokenKind::Question, question);
                    let p = then_value.span_end(tokens, p);
                    let p = token_at(tokens, p, TokenKind::Colon, colon);
                    else_value.span_end(tokens, p)
                } else {
                None
            },
                ExpressionKind::Assign { left, operator, right } => if left.level() <= 2 && right.level() <= 15 {
                    let p = left.span_end(tokens, from);
                    let p = token_at(tokens, p, operator.1.token(), operator.0);
                    right.span_end(tokens, p)
                } else {
                None
            },
                ExpressionKind::Comma { left, comma, right } => if right.level() <= 15 {
                    let p = left.span_end(tokens, from);
                    let p = token_at(tokens, p, TokenKind::Comma, comma);
                    right.span_end(tokens, p)
                } else {
                None
            },
            }
        } else {
            None
        }
    }
}

impl<'a> CommaList<Expression<'a>> {
    /// The position after an argument list: assignment expressions with
    /// commas between them.
    pub open spec fn span_end(self, tokens: Seq<Token<'a>>, from: Option<int>) -> Option<int>
        decreases self,
    {
        if starts_at(tokens, from, self.at) {
            match self.kind {
                CommaListKind::Leaf(item) => if item.level() <= 15 {
                    item.span_end(tokens, from)
                } else {
                    None
                },
                CommaListKind::Cons { left, comma, right } => {
                    let p = left.span_end(tokens, from);
                    let p = token_at(tokens, p, TokenKind::Comma, comma);
                    if right.level() <= 15 {
                        right.span_end(tokens, p)
                    } else {
                        None
                    }
                },
            }
        } else {
            None
        }
    }
}

impl<'a> GenericSelection<'a> {
    pub open spec fn span_end(self, tokens: Seq<Token<'a>>, from: Option<int>) -> Option<int>
        decreases self,
    {
        if starts_at(tokens, from, self.at) {
            let p = from;
            let p = token_at(tokens, p, TokenKind::Generic, self.generic_keyword);
            let p = token_at(tokens, p, TokenKind::OpenParenthesis, self.open_parenthesis);
            let p = if self.controlling_expression.level() <= 15 {
                self.controlling_expression.span_end(tokens, p)
            } else {
                None
            };
            let p = token_at(tokens, p, TokenKind::Comma, self.comma);
            let p = self.generic_assocs.span_end(tokens, p);
            token_at(tokens, p, TokenKind::CloseParenthesis, self.close_parenthesis)
        } else {
            None
        }
    }
}

impl<'a> GenericAssociation<'a> {
    pub open spec fn span_end(self, tokens: Seq<Token<'a>>, from: Option<int>) -> Option<int>
        decreases self,
    {
        if starts_at(tokens, from, self.at) {
            let p = from;
            let p = match self.kind {
                GenericAssociationKind::Default { default_keyword } => token_at(
                    tokens,
                    p,
                    TokenKind::Default,
                    default_keyword,
                ),
                GenericAssociationKind::ForType(typename) => typename.span_end(tokens, p),
            };
            let p = token_at(tokens, p, TokenKind::Colon, self.colon);
            if self.value.level() <= 15 {
                self.value.span_end(tokens, p)
            } else {
                None
            }
        } else {
            None
        }
    }
}

impl<'a> CommaList<GenericAssociation<'a>> {
    pub open spec fn span_end(self, tokens: Seq<Token<'a>>, from: Option<int>) -> Option<int>
        decreases self,
    {
        if starts_at(tokens, from, self.at) {
            match self.kind {
                CommaListKind::Leaf(item) => item.span_end(tokens, from),
                CommaListKind::Cons { left, comma, right } => {
                    let p = left.span_end(tokens, from);
                    let p = token_at(tokens, p, TokenKind::Comma, comma);
                    right.span_end(tokens, p)
                },
            }
        } else {
            None
        }
    }
}

impl<'a> CompoundLiteral<'a> {
    pub open spec fn span_end(self, tokens: Seq<Token<'a>>, from: Option<int>) -> Option<int>
        decreases self,
    {
        if starts_at(tokens, from, self.at) {
            let p = from;
            let p = token_at(tokens, p, TokenKind::OpenParenthesis, self.open_parenthesis);
            let p = match self.storage_class {
                Some(list) => list.span_end(tokens, p),
                None => p,
            };
            let p = self.typename.span_end(tokens, p);
            let p = token_at(tokens, p, TokenKind::CloseParenthesis, self.close_parenthesis);
            self.initializer.span_end(tokens, p)
        } else {
            None
        }
    }
}

} // verus!
