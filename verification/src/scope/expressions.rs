//! Expressions and the typedef names in them.

use crate::ast::{
    CommaList, CommaListKind, CompoundLiteral, Expression, ExpressionKind, GenericAssociation,
    GenericAssociationKind, GenericSelection, SizeofKind,
};
use vstd::prelude::*;

verus! {

impl<'a> Expression<'a> {
    pub open spec fn well_scoped(self, names: Seq<&'a str>) -> bool
        decreases self,
    {
        match self.kind {
            ExpressionKind::Identifier(_) => true,
            ExpressionKind::Integer(_) => true,
            ExpressionKind::String(_) => true,
            ExpressionKind::Parenthesized { inner, .. } => inner.well_scoped(names),
            ExpressionKind::GenericSelection(selection) => selection.well_scoped(names),
            ExpressionKind::Index { left, index, .. } => left.well_scoped(names)
                && index.well_scoped(names),
            ExpressionKind::Call { left, arguments, .. } => left.well_scoped(names)
                && match arguments {
                Some(list) => list.well_scoped(names),
                None => true,
            },
            ExpressionKind::Member { left, .. } => left.well_scoped(names),
            ExpressionKind::MemberIndirect { left, .. } => left.well_scoped(names),
            ExpressionKind::PostIncrement { left, .. } => left.well_scoped(names),
            ExpressionKind::PostDecrement { left, .. } => left.well_scoped(names),
            ExpressionKind::CompoundLiteral(literal) => literal.well_scoped(names),
            ExpressionKind::PreIncrement { right, .. } => right.well_scoped(names),
            ExpressionKind::PreDecrement { right, .. } => right.well_scoped(names),
            ExpressionKind::Unary(_, right) => right.well_scoped(names),
            ExpressionKind::Sizeof { kind, .. } => match kind {
                SizeofKind::Expression(operand) => operand.well_scoped(names),
                SizeofKind::Type { typename, .. } => typename.well_scoped(names),
            },
            ExpressionKind::Alignof { typename, .. } => typename.well_scoped(names),
            ExpressionKind::Cast { typename, right, .. } => typename.well_scoped(names)
                && right.well_scoped(names),
            ExpressionKind::Binary { left, right, .. } => left.well_scoped(names)
                && right.well_scoped(names),
            ExpressionKind::Conditional { condition, then_value, else_value, .. } => {
                &&& condition.well_scoped(names)
                &&& then_value.well_scoped(names)
                &&& else_value.well_scoped(names)
            },
            ExpressionKind::Assign { left, right, .. } => left.well_scoped(names)
                && right.well_scoped(names),
            ExpressionKind::Comma { left, right, .. } => left.well_scoped(names)
                && right.well_scoped(names),
        }
    }
}

impl<'a> CommaList<Expression<'a>> {
    pub open spec fn well_scoped(self, names: Seq<&'a str>) -> bool
        decreases self,
    {
        match self.kind {
            CommaListKind::Leaf(item) => item.well_scoped(names),
            CommaListKind::Cons { left, right, .. } => left.well_scoped(names)
                && right.well_scoped(names),
        }
    }
}

impl<'a> GenericSelection<'a> {
    pub open spec fn well_scoped(self, names: Seq<&'a str>) -> bool
        decreases self,
    {
        self.controlling_expression.well_scoped(names) && self.generic_assocs.well_scoped(names)
    }
}

impl<'a> GenericAssociation<'a> {
    pub open spec fn well_scoped(self, names: Seq<&'a str>) -> bool
        decreases self,
    {
        self.value.well_scoped(names) && match self.kind {
            GenericAssociationKind::Default { .. } => true,
            GenericAssociationKind::ForType(typename) => typename.well_scoped(names),
        }
    }
}

impl<'a> CommaList<GenericAssociation<'a>> {
    pub open spec fn well_scoped(self, names: Seq<&'a str>) -> bool
        decreases self,
    {
        match self.kind {
            CommaListKind::Leaf(item) => item.well_scoped(names),
            CommaListKind::Cons { left, right, .. } => left.well_scoped(names)
                && right.well_scoped(names),
        }
    }
}

impl<'a> CompoundLiteral<'a> {
    pub open spec fn well_scoped(self, names: Seq<&'a str>) -> bool
        decreases self,
    {
        self.typename.well_scoped(names) && self.initializer.well_scoped(names)
    }
}

} // verus!
