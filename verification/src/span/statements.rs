//! Statements laid over tokens.

use crate::ast::{
    BlockItem, BlockItemKind, CompoundStatement, ExpressionStatement, ForInitializer,
    IterationStatement, IterationStatementKind, JumpStatement, JumpStatementKind, Label,
    LabelKind, LabeledStatement, List, ListKind, PrimaryBlock, PrimaryBlockKind, SecondaryBlock,
    SelectionStatement, SelectionStatementKind, Statement, StatementKind, UnlabeledStatement,
    UnlabeledStatementKind,
};
use crate::span::{kind_at, starts_at, token_at};
use crate::token::{Token, TokenKind};
use vstd::prelude::*;

verus! {

impl<'a> Statement<'a> {
    /// Whether the statement ends with an `if` that has no `else`: an
    /// `else` behind such a statement would belong to that `if`.
    pub open spec fn ends_open(self) -> bool
        decreases self,
    {
        match self.kind {
            StatementKind::Labeled(labeled) => labeled.statement.ends_open(),
            StatementKind::Unlabeled(unlabeled) => unlabeled.ends_open(),
        }
    }
}

impl<'a> UnlabeledStatement<'a> {
    /// Whether the statement ends with an `if` that has no `else`.
    pub open spec fn ends_open(self) -> bool
        decreases self,
    {
        match self.kind {
            UnlabeledStatementKind::Expression(_) => false,
            UnlabeledStatementKind::Primary(_, block) => block.ends_open(),
            UnlabeledStatementKind::Jump(_, _) => false,
        }
    }
}

impl<'a> PrimaryBlock<'a> {
    /// Whether the block ends with an `if` that has no `else`.
    pub open spec fn ends_open(self) -> bool
        decreases self,
    {
        match self.kind {
            PrimaryBlockKind::Compound(_) => false,
            PrimaryBlockKind::Selection(selection) => selection.ends_open(),
            PrimaryBlockKind::Iteration(iteration) => iteration.ends_open(),
        }
    }
}

impl<'a> SecondaryBlock<'a> {
    /// Whether the block ends with an `if` that has no `else`.
    pub open spec fn ends_open(self) -> bool
        decreases self,
    {
        self.statement.ends_open()
    }
}

impl<'a> LabeledStatement<'a> {
    /// Whether the statement ends with an `if` that has no `else`.
    pub open spec fn ends_open(self) -> bool
        decreases self,
    {
        self.statement.ends_open()
    }
}

impl<'a> SelectionStatement<'a> {
    /// Whether the statement is an `if` that has no `else`, or ends with
    /// one.
    pub open spec fn ends_open(self) -> bool
        decreases self,
    {
        match self.kind {
            SelectionStatementKind::If { else_body: None, .. } => true,
            SelectionStatementKind::If { else_body: Some((_, body)), .. } => body.ends_open(),
            SelectionStatementKind::Switch { body, .. } => body.ends_open(),
        }
    }
}

impl<'a> IterationStatement<'a> {
    /// Whether the body of the loop ends the statement, and ends with an
    /// `if` that has no `else`.
    pub open spec fn ends_open(self) -> bool
        decreases self,
    {
        match self.kind {
            IterationStatementKind::While { body, .. } => body.ends_open(),
            IterationStatementKind::DoWhile { .. } => false,
            IterationStatementKind::For { body, .. } => body.ends_open(),
        }
    }
}

impl<'a> Statement<'a> {
    pub open spec fn span_end(self, tokens: Seq<Token<'a>>, from: Option<int>) -> Option<int>
        decreases self,
    {
        if starts_at(tokens, from, self.at) {
            let p = from;
            match self.kind {
                StatementKind::Labeled(labeled) => labeled.span_end(tokens, p),
                StatementKind::Unlabeled(unlabeled) => unlabeled.span_end(tokens, p),
            }
        } else {
            None
        }
    }
}

impl<'a> UnlabeledStatement<'a> {
    pub open spec fn span_end(self, tokens: Seq<Token<'a>>, from: Option<int>) -> Option<int>
        decreases self,
    {
        if starts_at(tokens, from, self.at) {
            let p = from;
            match self.kind {
                UnlabeledStatementKind::Expression(statement) => statement.span_end(tokens, p),
                UnlabeledStatementKind::Primary(attributes, block) => {
                    let p = match attributes {
                        Some(attributes) => attributes.span_end(tokens, p),
                        None => p,
                    };
                    block.span_end(tokens, p)
                },
                UnlabeledStatementKind::Jump(attributes, jump) => {
                    let p = match attributes {
                        Some(attributes) => attributes.span_end(tokens, p),
                        None => p,
                    };
                    jump.span_end(tokens, p)
                },
            }
        } else {
            None
        }
    }
}

impl<'a> PrimaryBlock<'a> {
    pub open spec fn span_end(self, tokens: Seq<Token<'a>>, from: Option<int>) -> Option<int>
        decreases self,
    {
        if starts_at(tokens, from, self.at) {
            let p = from;
            match self.kind {
                PrimaryBlockKind::Compound(compound) => compound.span_end(tokens, p),
                PrimaryBlockKind::Selection(selection) => selection.span_end(tokens, p),
                PrimaryBlockKind::Iteration(iteration) => iteration.span_end(tokens, p),
            }
        } else {
            None
        }
    }
}

impl<'a> SecondaryBlock<'a> {
    pub open spec fn span_end(self, tokens: Seq<Token<'a>>, from: Option<int>) -> Option<int>
        decreases self,
    {
        if starts_at(tokens, from, self.at) {
            let p = from;
            self.statement.span_end(tokens, p)
        } else {
            None
        }
    }
}

impl<'a> Label<'a> {
    pub open spec fn span_end(self, tokens: Seq<Token<'a>>, from: Option<int>) -> Option<int>
        decreases self,
    {
        if starts_at(tokens, from, self.at) {
            let p = from;
            let p = match self.attributes {
                Some(attributes) => attributes.span_end(tokens, p),
                None => p,
            };
            let p = match self.kind {
                LabelKind::Name(name) => kind_at(tokens, p, TokenKind::Identifier(name)),
                LabelKind::Case { case_keyword, value } => {
                    let p = token_at(tokens, p, TokenKind::Case, case_keyword);
                    (if value.level() <= 14 { value.span_end(tokens, p) } else { None })
                },
                LabelKind::Default { default_keyword } => token_at(
                    tokens,
                    p,
                    TokenKind::Default,
                    default_keyword,
                ),
            };
            token_at(tokens, p, TokenKind::Colon, self.colon)
        } else {
            None
        }
    }
}

impl<'a> LabeledStatement<'a> {
    pub open spec fn span_end(self, tokens: Seq<Token<'a>>, from: Option<int>) -> Option<int>
        decreases self,
    {
        if starts_at(tokens, from, self.at) {
            let p = from;
            let p = self.label.span_end(tokens, p);
            self.statement.span_end(tokens, p)
        } else {
            None
        }
    }
}

impl<'a> CompoundStatement<'a> {
    pub open spec fn span_end(self, tokens: Seq<Token<'a>>, from: Option<int>) -> Option<int>
        decreases self,
    {
        if starts_at(tokens, from, self.at) {
            let p = from;
            let p = token_at(tokens, p, TokenKind::OpenBrace, self.open_brace);
            let p = match self.items {
                Some(items) => items.span_end(tokens, p),
                None => p,
            };
            token_at(tokens, p, TokenKind::CloseBrace, self.close_brace)
        } else {
            None
        }
    }
}

impl<'a> List<BlockItem<'a>> {
    pub open spec fn span_end(self, tokens: Seq<Token<'a>>, from: Option<int>) -> Option<int>
        decreases self,
    {
        if starts_at(tokens, from, self.at) {
            match self.kind {
                ListKind::Leaf(item) => item.span_end(tokens, from),
                ListKind::Cons(left, right) => {
                    let p = left.span_end(tokens, from);
                    right.span_end(tokens, p)
                },
            }
        } else {
            None
        }
    }
}

impl<'a> BlockItem<'a> {
    pub open spec fn span_end(self, tokens: Seq<Token<'a>>, from: Option<int>) -> Option<int>
        decreases self,
    {
        if starts_at(tokens, from, self.at) {
            let p = from;
            match self.kind {
                BlockItemKind::Declaration(declaration) => declaration.span_end(tokens, p),
                BlockItemKind::Unlabeled(statement) => statement.span_end(tokens, p),
                BlockItemKind::Label(label) => label.span_end(tokens, p),
            }
        } else {
            None
        }
    }
}

impl<'a> ExpressionStatement<'a> {
    pub open spec fn span_end(self, tokens: Seq<Token<'a>>, from: Option<int>) -> Option<int>
        decreases self,
    {
        if starts_at(tokens, from, self.at) {
            let p = from;
            let p = match self.attributes {
                Some(attributes) => attributes.span_end(tokens, p),
                None => p,
            };
            let p = match self.expression {
                Some(expression) => expression.span_end(tokens, p),
                None => p,
            };
            token_at(tokens, p, TokenKind::Semicolon, self.semicolon)
        } else {
            None
        }
    }
}

impl<'a> SelectionStatement<'a> {
    /// An `else` belongs to the nearest `if` that has none: the body in
    /// front of an `else` does not end with an `if` without `else`.
    pub open spec fn span_end(self, tokens: Seq<Token<'a>>, from: Option<int>) -> Option<int>
        decreases self,
    {
        if starts_at(tokens, from, self.at) {
            let p = from;
            match self.kind {
                SelectionStatementKind::If {
                    if_keyword,
                    open_parenthesis,
                    condition,
                    close_parenthesis,
                    then_body,
                    else_body,
                } => {
                    let p = token_at(tokens, p, TokenKind::If, if_keyword);
                    let p = token_at(tokens, p, TokenKind::OpenParenthesis, open_parenthesis);
                    let p = condition.span_end(tokens, p);
                    let p = token_at(tokens, p, TokenKind::CloseParenthesis, close_parenthesis);
                    let p = then_body.span_end(tokens, p);
                    match else_body {
                        Some((else_keyword, body)) => if then_body.ends_open() {
                            None
                        } else {
                            let p = token_at(tokens, p, TokenKind::Else, else_keyword);
                            body.span_end(tokens, p)
                        },
                        None => p,
                    }
                },
                SelectionStatementKind::Switch {
                    switch_keyword,
                    open_parenthesis,
                    controlling_expression,
                    close_parenthesis,
                    body,
                } => {
                    let p = token_at(tokens, p, TokenKind::Switch, switch_keyword);
                    let p = token_at(tokens, p, TokenKind::OpenParenthesis, open_parenthesis);
                    let p = controlling_expression.span_end(tokens, p);
                    let p = token_at(tokens, p, TokenKind::CloseParenthesis, close_parenthesis);
                    body.span_end(tokens, p)
                },
            }
        } else {
            None
        }
    }
}

impl<'a> IterationStatement<'a> {
    pub open spec fn span_end(self, tokens: Seq<Token<'a>>, from: Option<int>) -> Option<int>
        decreases self,
    {
        if starts_at(tokens, from, self.at) {
            let p = from;
            match self.kind {
                IterationStatementKind::While {
                    while_keyword,
                    open_parenthesis,
                    condition,
                    close_parenthesis,
                    body,
                } => {
                    let p = token_at(tokens, p, TokenKind::While, while_keyword);
                    let p = token_at(tokens, p, TokenKind::OpenParenthesis, open_parenthesis);
                    let p = condition.span_end(tokens, p);
                    let p = token_at(tokens, p, TokenKind::CloseParenthesis, close_parenthesis);
                    body.span_end(tokens, p)
                },
                IterationStatementKind::DoWhile {
                    do_keyword,
                    body,
                    while_keyword,
                    open_parenthesis,
                    condition,
                    close_parenthesis,
                    semicolon,
                } => {
                    let p = token_at(tokens, p, TokenKind::Do, do_keyword);
                    let p = body.span_end(tokens, p);
                    let p = token_at(tokens, p, TokenKind::While, while_keyword);
                    let p = token_at(tokens, p, TokenKind::OpenParenthesis, open_parenthesis);
                    let p = condition.span_end(tokens, p);
                    let p = token_at(tokens, p, TokenKind::CloseParenthesis, close_parenthesis);
                    token_at(tokens, p, TokenKind::Semicolon, semicolon)
                },
                IterationStatementKind::For {
                    for_keyword,
                    open_parenthesis,
                    initializer,
                    condition,
                    semicolon,
                    counter,
                    close_parenthesis,
                    body,
                } => {
                    let p = token_at(tokens, p, TokenKind::For, for_keyword);
                    let p = token_at(tokens, p, TokenKind::OpenParenthesis, open_parenthesis);
                    let p = initializer.span_end(tokens, p);
                    let p = match condition {
                        Some(condition) => condition.span_end(tokens, p),
                        None => p,
                    };
                    let p = token_at(tokens, p, TokenKind::Semicolon, semicolon);
                    let p = match counter {
                        Some(counter) => counter.span_end(tokens, p),
                        None => p,
                    };
                    let p = token_at(tokens, p, TokenKind::CloseParenthesis, close_parenthesis);
                    body.span_end(tokens, p)
                },
            }
        } else {
            None
        }
    }
}

impl<'a> ForInitializer<'a> {
    pub open spec fn span_end(self, tokens: Seq<Token<'a>>, from: Option<int>) -> Option<int>
        decreases self,
    {
        match self {
            ForInitializer::Expression(Some(expression), semicolon) => {
                let p = expression.span_end(tokens, from);
                token_at(tokens, p, TokenKind::Semicolon, semicolon)
            },
            ForInitializer::Expression(None, semicolon) => token_at(
                tokens,
                from,
                TokenKind::Semicolon,
                semicolon,
            ),
            ForInitializer::Declaration(declaration) => declaration.span_end(tokens, from),
        }
    }
}

impl<'a> JumpStatement<'a> {
    pub open spec fn span_end(self, tokens: Seq<Token<'a>>, from: Option<int>) -> Option<int>
        decreases self,
    {
        if starts_at(tokens, from, self.at) {
            let p = from;
            let p = match self.kind {
                JumpStatementKind::Goto { goto_keyword, target } => {
                    let p = token_at(tokens, p, TokenKind::Goto, goto_keyword);
                    kind_at(tokens, p, TokenKind::Identifier(target))
                },
                JumpStatementKind::Continue { continue_keyword } => token_at(
                    tokens,
                    p,
                    TokenKind::Continue,
                    continue_keyword,
                ),
                JumpStatementKind::Break { break_keyword } => token_at(
                    tokens,
                    p,
                    TokenKind::Break,
                    break_keyword,
                ),
                JumpStatementKind::Return { return_keyword, value } => {
                    let p = token_at(tokens, p, TokenKind::Return, return_keyword);
                    match value {
                        Some(value) => value.span_end(tokens, p),
                        None => p,
                    }
                },
            };
            token_at(tokens, p, TokenKind::Semicolon, self.semicolon)
        } else {
            None
        }
    }
}

} // verus!
