//! Statements and the typedef names in them.

use crate::ast::{
    BlockItem, BlockItemKind, CompoundStatement, ExpressionStatement, ForInitializer,
    IterationStatement, IterationStatementKind, JumpStatement, JumpStatementKind, Label,
    LabelKind, LabeledStatement, List, ListKind, PrimaryBlock, PrimaryBlockKind, SecondaryBlock,
    SelectionStatement, SelectionStatementKind, Statement, StatementKind, UnlabeledStatement,
    UnlabeledStatementKind,
};
use vstd::prelude::*;

verus! {

impl<'a> Statement<'a> {
    pub open spec fn well_scoped(self, names: Seq<&'a str>) -> bool
        decreases self,
    {
        match self.kind {
            StatementKind::Labeled(labeled) => labeled.well_scoped(names),
            StatementKind::Unlabeled(unlabeled) => unlabeled.well_scoped(names),
        }
    }
}

impl<'a> UnlabeledStatement<'a> {
    pub open spec fn well_scoped(self, names: Seq<&'a str>) -> bool
        decreases self,
    {
        match self.kind {
            UnlabeledStatementKind::Expression(statement) => statement.well_scoped(names),
            UnlabeledStatementKind::Primary(_, block) => block.well_scoped(names),
            UnlabeledStatementKind::Jump(_, jump) => jump.well_scoped(names),
        }
    }
}

impl<'a> PrimaryBlock<'a> {
    pub open spec fn well_scoped(self, names: Seq<&'a str>) -> bool
        decreases self,
    {
        match self.kind {
            PrimaryBlockKind::Compound(compound) => compound.well_scoped(names),
            PrimaryBlockKind::Selection(selection) => selection.well_scoped(names),
            PrimaryBlockKind::Iteration(iteration) => iteration.well_scoped(names),
        }
    }
}

impl<'a> SecondaryBlock<'a> {
    pub open spec fn well_scoped(self, names: Seq<&'a str>) -> bool
        decreases self,
    {
        self.statement.well_scoped(names)
    }
}

impl<'a> Label<'a> {
    pub open spec fn well_scoped(self, names: Seq<&'a str>) -> bool
        decreases self,
    {
        match self.kind {
            LabelKind::Case { value, .. } => value.well_scoped(names),
            _ => true,
        }
    }
}

impl<'a> LabeledStatement<'a> {
    pub open spec fn well_scoped(self, names: Seq<&'a str>) -> bool
        decreases self,
    {
        self.label.well_scoped(names) && self.statement.well_scoped(names)
    }
}

impl<'a> CompoundStatement<'a> {
    /// The typedef names that the items of a block declare are known in
    /// the block only.
    pub open spec fn well_scoped(self, names: Seq<&'a str>) -> bool
        decreases self,
    {
        match self.items {
            Some(items) => items.well_scoped(names),
            None => true,
        }
    }
}

impl<'a> List<BlockItem<'a>> {
    /// Each item is read with the typedef names of those in front of it
    /// declared.
    pub open spec fn well_scoped(self, names: Seq<&'a str>) -> bool
        decreases self,
    {
        match self.kind {
            ListKind::Leaf(item) => item.well_scoped(names),
            ListKind::Cons(left, right) => left.well_scoped(names) && right.well_scoped(
                names + left.typedef_names(),
            ),
        }
    }
}

impl<'a> BlockItem<'a> {
    pub open spec fn well_scoped(self, names: Seq<&'a str>) -> bool
        decreases self,
    {
        match self.kind {
            BlockItemKind::Declaration(declaration) => declaration.well_scoped(names),
            BlockItemKind::Unlabeled(statement) => statement.well_scoped(names),
            BlockItemKind::Label(label) => label.well_scoped(names),
        }
    }
}

impl<'a> ExpressionStatement<'a> {
    pub open spec fn well_scoped(self, names: Seq<&'a str>) -> bool
        decreases self,
    {
        match self.expression {
            Some(expression) => expression.well_scoped(names),
            None => true,
        }
    }
}

impl<'a> SelectionStatement<'a> {
    pub open spec fn well_scoped(self, names: Seq<&'a str>) -> bool
        decreases self,
    {
        match self.kind {
            SelectionStatementKind::If { condition, then_body, else_body, .. } => {
                &&& condition.well_scoped(names)
                &&& then_body.well_scoped(names)
                &&& match else_body {
                    Some((_, body)) => body.well_scoped(names),
                    None => true,
                }
            },
            SelectionStatementKind::Switch { controlling_expression, body, .. } => {
                controlling_expression.well_scoped(names) && body.well_scoped(names)
            },
        }
    }
}

impl<'a> IterationStatement<'a> {
    /// The typedef names that the first clause of a `for` declares are
    /// known in the rest of the statement only.
    pub open spec fn well_scoped(self, names: Seq<&'a str>) -> bool
        decreases self,
    {
        match self.kind {
            IterationStatementKind::While { condition, body, .. } => condition.well_scoped(names)
                && body.well_scoped(names),
            IterationStatementKind::DoWhile { body, condition, .. } => body.well_scoped(names)
                && condition.well_scoped(names),
            IterationStatementKind::For { initializer, condition, counter, body, .. } => {
                let inner = names + initializer.typedef_names();
                &&& initializer.well_scoped(names)
                &&& match condition {
                    Some(condition) => condition.well_scoped(inner),
                    None => true,
                }
                &&& match counter {
                    Some(counter) => counter.well_scoped(inner),
                    None => true,
                }
                &&& body.well_scoped(inner)
            },
        }
    }
}

impl<'a> ForInitializer<'a> {
    pub open spec fn well_scoped(self, names: Seq<&'a str>) -> bool
        decreases self,
    {
        match self {
            ForInitializer::Expression(Some(expression), _) => expression.well_scoped(names),
            ForInitializer::Expression(None, _) => true,
            ForInitializer::Declaration(declaration) => declaration.well_scoped(names),
        }
    }
}

impl<'a> JumpStatement<'a> {
    pub open spec fn well_scoped(self, names: Seq<&'a str>) -> bool
        decreases self,
    {
        match self.kind {
            JumpStatementKind::Return { value: Some(value), .. } => value.well_scoped(names),
            _ => true,
        }
    }
}

} // verus!
