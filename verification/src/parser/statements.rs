//! The rules for statements.

use crate::ast::{
    BlockItem, BlockItemKind, BlockItemList, CompoundStatement, ExpressionStatement,
    ForInitializer, IterationStatement, IterationStatementKind, JumpStatement, JumpStatementKind,
    Label, LabelKind, LabeledStatement, List, ListKind, PrimaryBlock, PrimaryBlockKind,
    SecondaryBlock, SelectionStatement, SelectionStatementKind, Statement, StatementKind,
    UnlabeledStatement, UnlabeledStatementKind,
};
use crate::parser::{Expected, Parser, Res};
use crate::token::TokenKind;
use crate::grammar::statements::{
    block_item_at, block_item_list_at, block_item_list_rest, compound_statement_at,
    expression_statement_at, for_initializer_at, iteration_statement_at, jump_statement_at,
    label_at, labeled_statement_at, primary_block_at, secondary_block_at,
    selection_statement_at, statement_at, unlabeled_statement_at,
};
use crate::grammar::statements::{
    block_item_list_rest_rule,
    block_item_list_rule,
    block_item_rule,
    compound_statement_rule,
    expression_statement_rule,
    for_initializer_rule,
    iteration_statement_rule,
    jump_statement_rule,
    label_rule,
    labeled_statement_rule,
    primary_block_rule,
    secondary_block_rule,
    selection_statement_rule,
    statement_rule,
    unlabeled_statement_rule,
};
use vstd::prelude::*;

verus! {

impl<'a, 'b> Parser<'a, 'b> {
    /// A labeled statement, or else an unlabeled one.
    #[verifier::spinoff_prover]
    pub(crate) fn parse_statement(&mut self) -> (r: Res<Statement<'a>>)
        requires
            old(self)@.wf(),
        ensures
            final(self)@.gives(
                r,
                statement_at(old(self)@.tokens, Some(old(self)@.index), old(self)@.names),
            ),
            r matches Ok(node) ==> node.well_scoped(old(self)@.names),
            r matches Ok(node) && node.ends_open() ==> final(self)@.current().kind
                != TokenKind::Else,
            match r {
                Ok(node) => final(self)@.reached(
                    old(self)@,
                    node.span_end(old(self)@.tokens, Some(old(self)@.index)),
                ),
                Err(_) => final(self)@.failed_with(old(self)@, Expected::Statement),
            },
        decreases old(self)@.left(), 87nat,
    {
        proof {
            reveal(statement_rule);
            assert(statement_at(
                old(self)@.tokens,
                Some(old(self)@.index),
                old(self)@.names,
            ) == statement_rule(
                old(self)@.tokens,
                Some(old(self)@.index),
                old(self)@.names,
            ));
        }
        let at = self.at();
        let checkpoint = self.begin();
        let attempt = self.parse_labeled_statement();
        if let Ok(labeled) = self.settle(checkpoint, attempt) {
            return Ok(Statement { at, kind: StatementKind::Labeled(labeled) });
        }
        let checkpoint = self.begin();
        let attempt = self.parse_unlabeled_statement();
        if let Ok(unlabeled) = self.settle(checkpoint, attempt) {
            return Ok(Statement { at, kind: StatementKind::Unlabeled(unlabeled) });
        }
        self.err(Expected::Statement);
        Err(())
    }

    /// An expression statement, or else a block, or else a jump.
    #[verifier::spinoff_prover]
    pub(crate) fn parse_unlabeled_statement(&mut self) -> (r: Res<UnlabeledStatement<'a>>)
        requires
            old(self)@.wf(),
        ensures
            final(self)@.gives(
                r,
                unlabeled_statement_at(old(self)@.tokens, Some(old(self)@.index), old(self)@.names),
            ),
            r matches Ok(node) ==> node.well_scoped(old(self)@.names),
            r matches Ok(node) && node.ends_open() ==> final(self)@.current().kind
                != TokenKind::Else,
            match r {
                Ok(node) => final(self)@.reached(
                    old(self)@,
                    node.span_end(old(self)@.tokens, Some(old(self)@.index)),
                ),
                Err(_) => final(self)@.failed_with(old(self)@, Expected::UnlabeledStatement),
            },
        decreases old(self)@.left(), 85nat,
    {
        proof {
            reveal(unlabeled_statement_rule);
            assert(unlabeled_statement_at(
                old(self)@.tokens,
                Some(old(self)@.index),
                old(self)@.names,
            ) == unlabeled_statement_rule(
                old(self)@.tokens,
                Some(old(self)@.index),
                old(self)@.names,
            ));
        }
        let at = self.at();
        let checkpoint = self.begin();
        let attempt = self.parse_expression_statement();
        if let Ok(statement) = self.settle(checkpoint, attempt) {
            return Ok(
                UnlabeledStatement { at, kind: UnlabeledStatementKind::Expression(statement) },
            );
        }
        let attributes = self.parse_optional_attributes();
        let checkpoint = self.begin();
        let attempt = self.parse_primary_block();
        if let Ok(primary) = self.settle(checkpoint, attempt) {
            return Ok(
                UnlabeledStatement {
                    at,
                    kind: UnlabeledStatementKind::Primary(attributes, primary),
                },
            );
        }
        let checkpoint = self.begin();
        let attempt = self.parse_jump_statement();
        if let Ok(jump) = self.settle(checkpoint, attempt) {
            return Ok(
                UnlabeledStatement { at, kind: UnlabeledStatementKind::Jump(attributes, jump) },
            );
        }
        self.err(Expected::UnlabeledStatement);
        Err(())
    }

    /// A compound statement, or else a selection statement, or else an
    /// iteration statement.
    #[verifier::spinoff_prover]
    pub(crate) fn parse_primary_block(&mut self) -> (r: Res<PrimaryBlock<'a>>)
        requires
            old(self)@.wf(),
        ensures
            final(self)@.gives(
                r,
                primary_block_at(old(self)@.tokens, Some(old(self)@.index), old(self)@.names),
            ),
            r matches Ok(node) ==> node.well_scoped(old(self)@.names),
            r matches Ok(node) && node.ends_open() ==> final(self)@.current().kind
                != TokenKind::Else,
            match r {
                Ok(node) => final(self)@.reached(
                    old(self)@,
                    node.span_end(old(self)@.tokens, Some(old(self)@.index)),
                ),
                Err(_) => final(self)@.failed_with(old(self)@, Expected::PrimaryBlock),
            },
        decreases old(self)@.left(), 84nat,
    {
        proof {
            reveal(primary_block_rule);
            assert(primary_block_at(
                old(self)@.tokens,
                Some(old(self)@.index),
                old(self)@.names,
            ) == primary_block_rule(
                old(self)@.tokens,
                Some(old(self)@.index),
                old(self)@.names,
            ));
        }
        let at = self.at();
        let checkpoint = self.begin();
        let attempt = self.parse_compound_statement();
        if let Ok(compound) = self.settle(checkpoint, attempt) {
            return Ok(PrimaryBlock { at, kind: PrimaryBlockKind::Compound(compound) });
        }
        let checkpoint = self.begin();
        let attempt = self.parse_selection_statement();
        if let Ok(selection) = self.settle(checkpoint, attempt) {
            return Ok(PrimaryBlock { at, kind: PrimaryBlockKind::Selection(selection) });
        }
        let checkpoint = self.begin();
        let attempt = self.parse_iteration_statement();
        if let Ok(iteration) = self.settle(checkpoint, attempt) {
            return Ok(PrimaryBlock { at, kind: PrimaryBlockKind::Iteration(iteration) });
        }
        self.err(Expected::PrimaryBlock);
        Err(())
    }

    /// A statement as the body of a selection or iteration statement.
    #[verifier::spinoff_prover]
    pub(crate) fn parse_secondary_block(&mut self) -> (r: Res<SecondaryBlock<'a>>)
        requires
            old(self)@.wf(),
        ensures
            final(self)@.gives(
                r,
                secondary_block_at(old(self)@.tokens, Some(old(self)@.index), old(self)@.names),
            ),
            r matches Ok(node) ==> node.well_scoped(old(self)@.names),
            r matches Ok(node) && node.ends_open() ==> final(self)@.current().kind
                != TokenKind::Else,
            match r {
                Ok(node) => final(self)@.reached(
                    old(self)@,
                    node.span_end(old(self)@.tokens, Some(old(self)@.index)),
                ),
                Err(_) => final(self)@.follows(old(self)@),
            },
        decreases old(self)@.left(), 88nat,
    {
        proof {
            reveal(secondary_block_rule);
            assert(secondary_block_at(
                old(self)@.tokens,
                Some(old(self)@.index),
                old(self)@.names,
            ) == secondary_block_rule(
                old(self)@.tokens,
                Some(old(self)@.index),
                old(self)@.names,
            ));
        }
        let at = self.at();
        let statement = self.parse_statement()?;
        Ok(SecondaryBlock { at, statement: Box::new(statement) })
    }

    /// A name, `case` with a constant expression, or `default`, and a
    /// colon.
    #[verifier::spinoff_prover]
    pub(crate) fn parse_label(&mut self) -> (r: Res<Label<'a>>)
        requires
            old(self)@.wf(),
        ensures
            final(self)@.gives(
                r,
                label_at(old(self)@.tokens, Some(old(self)@.index), old(self)@.names),
            ),
            r matches Ok(node) ==> node.well_scoped(old(self)@.names),
            match r {
                Ok(node) => final(self)@.reached(
                    old(self)@,
                    node.span_end(old(self)@.tokens, Some(old(self)@.index)),
                ),
                Err(_) => final(self)@.follows(old(self)@),
            },
        decreases old(self)@.left(), 82nat,
    {
        proof {
            reveal(label_rule);
            assert(label_at(
                old(self)@.tokens,
                Some(old(self)@.index),
                old(self)@.names,
            ) == label_rule(
                old(self)@.tokens,
                Some(old(self)@.index),
                old(self)@.names,
            ));
        }
        let at = self.at();
        let attributes = self.parse_optional_attributes();
        let kind = if self.is(TokenKind::Default) {
            let default_keyword = self.next();
            LabelKind::Default { default_keyword }
        } else if self.is(TokenKind::Case) {
            let case_keyword = self.next();
            let value = self.parse_constant_expression()?;
            LabelKind::Case { case_keyword, value }
        } else {
            let name = self.take_identifier()?;
            LabelKind::Name(name)
        };
        let colon = self.take(TokenKind::Colon)?;

        Ok(Label { at, attributes, kind, colon })
    }

    /// A label and the statement that it labels.
    #[verifier::spinoff_prover]
    pub(crate) fn parse_labeled_statement(&mut self) -> (r: Res<LabeledStatement<'a>>)
        requires
            old(self)@.wf(),
        ensures
            final(self)@.gives(
                r,
                labeled_statement_at(old(self)@.tokens, Some(old(self)@.index), old(self)@.names),
            ),
            r matches Ok(node) ==> node.well_scoped(old(self)@.names),
            r matches Ok(node) && node.ends_open() ==> final(self)@.current().kind
                != TokenKind::Else,
            match r {
                Ok(node) => final(self)@.reached(
                    old(self)@,
                    node.span_end(old(self)@.tokens, Some(old(self)@.index)),
                ),
                Err(_) => final(self)@.follows(old(self)@),
            },
        decreases old(self)@.left(), 86nat,
    {
        proof {
            reveal(labeled_statement_rule);
            assert(labeled_statement_at(
                old(self)@.tokens,
                Some(old(self)@.index),
                old(self)@.names,
            ) == labeled_statement_rule(
                old(self)@.tokens,
                Some(old(self)@.index),
                old(self)@.names,
            ));
        }
        let at = self.at();
        let label = self.parse_label()?;
        let statement = Box::new(self.parse_statement()?);
        Ok(LabeledStatement { at, label, statement })
    }

    /// A block in braces. Its items are read in a scope of their own: the
    /// typedef names that they declare are gone behind the closing brace.
    #[verifier::spinoff_prover]
    pub(crate) fn parse_compound_statement(&mut self) -> (r: Res<CompoundStatement<'a>>)
        requires
            old(self)@.wf(),
        ensures
            final(self)@.gives(
                r,
                compound_statement_at(old(self)@.tokens, Some(old(self)@.index), old(self)@.names),
            ),
            r matches Ok(node) ==> node.well_scoped(old(self)@.names),
            match r {
                Ok(node) => final(self)@.reached(
                    old(self)@,
                    node.span_end(old(self)@.tokens, Some(old(self)@.index)),
                ),
                Err(_) => final(self)@.follows(old(self)@),
            },
        decreases old(self)@.left(), 2nat,
    {
        proof {
            reveal(compound_statement_rule);
            assert(compound_statement_at(
                old(self)@.tokens,
                Some(old(self)@.index),
                old(self)@.names,
            ) == compound_statement_rule(
                old(self)@.tokens,
                Some(old(self)@.index),
                old(self)@.names,
            ));
        }
        let at = self.at();
        let open_brace = self.take(TokenKind::OpenBrace)?;

        self.push_scope();
        let checkpoint = self.begin();
        let attempt = self.parse_block_item_list();
        let items = self.settle_optional(checkpoint, attempt);
        self.pop_scope();
        proof {
            assert(self@.names =~= old(self)@.names);
            assert(self@.marks =~= old(self)@.marks);
        }

        let close_brace = self.take(TokenKind::CloseBrace)?;

        Ok(CompoundStatement { at, open_brace, items, close_brace })
    }

    /// One or more block items.
    #[verifier::spinoff_prover]
    pub(crate) fn parse_block_item_list(&mut self) -> (r: Res<BlockItemList<'a>>)
        requires
            old(self)@.wf(),
        ensures
            final(self)@.gives(
                r,
                block_item_list_at(old(self)@.tokens, Some(old(self)@.index), old(self)@.names),
            ),
            r matches Ok(node) ==> node.well_scoped(old(self)@.names),
            match r {
                Ok(node) => final(self)@.declared(
                    old(self)@,
                    node.span_end(old(self)@.tokens, Some(old(self)@.index)),
                    node.typedef_names(),
                ),
                Err(_) => final(self)@.follows(old(self)@),
            },
        decreases old(self)@.left(), 90nat,
    {
        proof {
            reveal(block_item_list_rule);
            assert(block_item_list_at(
                old(self)@.tokens,
                Some(old(self)@.index),
                old(self)@.names,
            ) == block_item_list_rule(
                old(self)@.tokens,
                Some(old(self)@.index),
                old(self)@.names,
            ));
        }
        let at = self.at();
        let first = self.parse_block_item()?;
        let mut left = List { at, kind: ListKind::Leaf(Box::new(first)) };
        loop
            invariant
                block_item_list_rest(old(self)@.tokens, Some(self@.index), old(self)@.names, left)
                    == block_item_list_at(
                        old(self)@.tokens,
                        Some(old(self)@.index),
                        old(self)@.names,
                    ),
                left.well_scoped(old(self)@.names),
                self@.declared(
                    old(self)@,
                    left.span_end(old(self)@.tokens, Some(old(self)@.index)),
                    left.typedef_names(),
                ),
            decreases self@.left(),
        {
            proof {
                reveal(block_item_list_rest_rule);
                assert(block_item_list_rest(
                    old(self)@.tokens,
                    Some(self@.index),
                    old(self)@.names,
                    left,
                ) == block_item_list_rest_rule(
                    old(self)@.tokens,
                    Some(self@.index),
                    old(self)@.names,
                    left,
                ));
            }
            let checkpoint = self.begin();
            let attempt = self.parse_block_item();
            match self.settle(checkpoint, attempt) {
                Ok(right) => {
                    left =
                    List { at: left.at, kind: ListKind::Cons(Box::new(left), Box::new(right)) };
                    proof {
                        assert(self@.names =~= old(self)@.names + left.typedef_names());
                    }
                },
                Err(_) => { return Ok(left); },
            }
        }
    }

    /// A declaration, or else an unlabeled statement, or else a label.
    #[verifier::spinoff_prover]
    pub(crate) fn parse_block_item(&mut self) -> (r: Res<BlockItem<'a>>)
        requires
            old(self)@.wf(),
        ensures
            final(self)@.gives(
                r,
                block_item_at(old(self)@.tokens, Some(old(self)@.index), old(self)@.names),
            ),
            r matches Ok(node) ==> node.well_scoped(old(self)@.names),
            match r {
                Ok(node) => final(self)@.declared(
                    old(self)@,
                    node.span_end(old(self)@.tokens, Some(old(self)@.index)),
                    node.typedef_names(),
                ),
                Err(_) => final(self)@.failed_with(old(self)@, Expected::BlockItem),
            },
        decreases old(self)@.left(), 89nat,
    {
        proof {
            reveal(block_item_rule);
            assert(block_item_at(
                old(self)@.tokens,
                Some(old(self)@.index),
                old(self)@.names,
            ) == block_item_rule(
                old(self)@.tokens,
                Some(old(self)@.index),
                old(self)@.names,
            ));
        }
        let at = self.at();
        let checkpoint = self.begin();
        let attempt = self.parse_declaration();
        if let Ok(declaration) = self.settle(checkpoint, attempt) {
            return Ok(BlockItem { at, kind: BlockItemKind::Declaration(declaration) });
        }
        let checkpoint = self.begin();
        let attempt = self.parse_unlabeled_statement();
        if let Ok(statement) = self.settle(checkpoint, attempt) {
            let node = BlockItem { at, kind: BlockItemKind::Unlabeled(statement) };
            proof {
                assert(self@.names =~= old(self)@.names + node.typedef_names());
            }
            return Ok(node);
        }
        let checkpoint = self.begin();
        let attempt = self.parse_label();
        if let Ok(label) = self.settle(checkpoint, attempt) {
            let node = BlockItem { at, kind: BlockItemKind::Label(label) };
            proof {
                assert(self@.names =~= old(self)@.names + node.typedef_names());
            }
            return Ok(node);
        }
        self.err(Expected::BlockItem);
        Err(())
    }

    /// An expression, if there is one, and a semicolon.
    #[verifier::spinoff_prover]
    pub(crate) fn parse_expression_statement(&mut self) -> (r: Res<ExpressionStatement<'a>>)
        requires
            old(self)@.wf(),
        ensures
            final(self)@.gives(
                r,
                expression_statement_at(
                    old(self)@.tokens,
                    Some(old(self)@.index),
                    old(self)@.names,
                ),
            ),
            r matches Ok(node) ==> node.well_scoped(old(self)@.names),
            match r {
                Ok(node) => final(self)@.reached(
                    old(self)@,
                    node.span_end(old(self)@.tokens, Some(old(self)@.index)),
                ),
                Err(_) => final(self)@.follows(old(self)@),
            },
        decreases old(self)@.left(), 83nat,
    {
        proof {
            reveal(expression_statement_rule);
            assert(expression_statement_at(
                old(self)@.tokens,
                Some(old(self)@.index),
                old(self)@.names,
            ) == expression_statement_rule(
                old(self)@.tokens,
                Some(old(self)@.index),
                old(self)@.names,
            ));
        }
        let at = self.at();
        let checkpoint = self.begin();
        let attempt = self.parse_attribute_specifier_sequence();
        match self.settle(checkpoint, attempt) {
            Ok(attributes) => {
                let expression = self.parse_expression()?;
                let semicolon = self.take(TokenKind::Semicolon)?;
                Ok(
                    ExpressionStatement {
                        at,
                        attributes: Some(attributes),
                        expression: Some(expression),
                        semicolon,
                    },
                )
            },
            Err(_) => {
                let checkpoint = self.begin();
                let attempt = self.parse_expression();
                let expression = self.settle_optional(checkpoint, attempt);
                let semicolon = self.take(TokenKind::Semicolon)?;
                Ok(ExpressionStatement { at, attributes: None, expression, semicolon })
            },
        }
    }

    /// An `if` with the `else` that follows its body, if one does, or a
    /// `switch`.
    #[verifier::spinoff_prover]
    #[verifier::rlimit(40)]
    pub(crate) fn parse_selection_statement(&mut self) -> (r: Res<SelectionStatement<'a>>)
        requires
            old(self)@.wf(),
        ensures
            !(old(self)@.current().kind is If) && !(old(self)@.current().kind is Switch)
                ==> final(self)@.failed_with(old(self)@, Expected::SelectionStatement),
            final(self)@.gives(
                r,
                selection_statement_at(old(self)@.tokens, Some(old(self)@.index), old(self)@.names),
            ),
            r matches Ok(node) ==> node.well_scoped(old(self)@.names),
            r matches Ok(node) && node.ends_open() ==> final(self)@.current().kind
                != TokenKind::Else,
            match r {
                Ok(node) => final(self)@.reached(
                    old(self)@,
                    node.span_end(old(self)@.tokens, Some(old(self)@.index)),
                ),
                Err(_) => final(self)@.follows(old(self)@),
            },
        decreases old(self)@.left(), 2nat,
    {
        proof {
            reveal(selection_statement_rule);
            assert(selection_statement_at(
                old(self)@.tokens,
                Some(old(self)@.index),
                old(self)@.names,
            ) == selection_statement_rule(
                old(self)@.tokens,
                Some(old(self)@.index),
                old(self)@.names,
            ));
        }
        let at = self.at();
        let kind = if self.is(TokenKind::If) {
            let if_keyword = self.next();
            let open_parenthesis = self.take(TokenKind::OpenParenthesis)?;
            let condition = self.parse_expression()?;
            let close_parenthesis = self.take(TokenKind::CloseParenthesis)?;
            let then_body = self.parse_secondary_block()?;

            let else_body = if self.is(TokenKind::Else) {
                let else_keyword = self.next();
                let else_body = self.parse_secondary_block()?;
                Some((else_keyword, else_body))
            } else {
                None
            };
            SelectionStatementKind::If {
                if_keyword,
                open_parenthesis,
                condition,
                close_parenthesis,
                then_body,
                else_body,
            }
        } else if self.is(TokenKind::Switch) {
            let switch_keyword = self.next();
            let open_parenthesis = self.take(TokenKind::OpenParenthesis)?;
            let controlling_expression = self.parse_expression()?;
            let close_parenthesis = self.take(TokenKind::CloseParenthesis)?;
            let body = self.parse_secondary_block()?;
            SelectionStatementKind::Switch {
                switch_keyword,
                open_parenthesis,
                controlling_expression,
                close_parenthesis,
                body,
            }
        } else {
            self.err(Expected::SelectionStatement);
            return Err(());
        };

        Ok(SelectionStatement { at, kind })
    }

    /// A `while`, a `do` or a `for`. A `for` is read in a scope of its
    /// own: the typedef names that its first clause declares are gone
    /// behind its body.
    #[verifier::spinoff_prover]
    #[verifier::rlimit(40)]
    pub(crate) fn parse_iteration_statement(&mut self) -> (r: Res<IterationStatement<'a>>)
        requires
            old(self)@.wf(),
        ensures
            final(self)@.gives(
                r,
                iteration_statement_at(old(self)@.tokens, Some(old(self)@.index), old(self)@.names),
            ),
            r matches Ok(node) ==> node.well_scoped(old(self)@.names),
            r matches Ok(node) && node.ends_open() ==> final(self)@.current().kind
                != TokenKind::Else,
            match r {
                Ok(node) => final(self)@.reached(
                    old(self)@,
                    node.span_end(old(self)@.tokens, Some(old(self)@.index)),
                ),
                Err(_) => final(self)@.follows(old(self)@),
            },
        decreases old(self)@.left(), 2nat,
    {
        proof {
            reveal(iteration_statement_rule);
            assert(iteration_statement_at(
                old(self)@.tokens,
                Some(old(self)@.index),
                old(self)@.names,
            ) == iteration_statement_rule(
                old(self)@.tokens,
                Some(old(self)@.index),
                old(self)@.names,
            ));
        }
        let at = self.at();
        let kind = if self.is(TokenKind::While) {
            let while_keyword = self.next();
            let open_parenthesis = self.take(TokenKind::OpenParenthesis)?;
            let condition = self.parse_expression()?;
            let close_parenthesis = self.take(TokenKind::CloseParenthesis)?;
            let body = self.parse_secondary_block()?;
            IterationStatementKind::While {
                while_keyword,
                open_parenthesis,
                condition,
                close_parenthesis,
                body,
            }
        } else if self.is(TokenKind::Do) {
            let do_keyword = self.next();
            let body = self.parse_secondary_block()?;
            let while_keyword = self.take(TokenKind::While)?;
            let open_parenthesis = self.take(TokenKind::OpenParenthesis)?;
            let condition = self.parse_expression()?;
            let close_parenthesis = self.take(TokenKind::CloseParenthesis)?;
            let semicolon = self.take(TokenKind::Semicolon)?;
            IterationStatementKind::DoWhile {
                do_keyword,
                body,
                while_keyword,
                open_parenthesis,
                condition,
                close_parenthesis,
                semicolon,
            }
        } else if self.is(TokenKind::For) {
            self.push_scope();
            let for_keyword = self.next();
            let open_parenthesis = self.take(TokenKind::OpenParenthesis)?;
            let initializer = self.parse_for_initializer()?;
            let checkpoint = self.begin();
            let attempt = self.parse_expression();
            let condition = self.settle_optional(checkpoint, attempt);
            let semicolon = self.take(TokenKind::Semicolon)?;
            let checkpoint = self.begin();
            let attempt = self.parse_expression();
            let counter = self.settle_optional(checkpoint, attempt);
            let close_parenthesis = self.take(TokenKind::CloseParenthesis)?;
            let body = self.parse_secondary_block()?;
            self.pop_scope();
            proof {
                assert(self@.names =~= old(self)@.names);
                assert(self@.marks =~= old(self)@.marks);
            }
            IterationStatementKind::For {
                for_keyword,
                open_parenthesis,
                initializer,
                condition,
                semicolon,
                counter,
                close_parenthesis,
                body,
            }
        } else {
            self.err(Expected::IterationStatement);
            return Err(());
        };

        Ok(IterationStatement { at, kind })
    }

    /// The first clause of a `for`: a declaration, or else an expression,
    /// if there is one, and a semicolon.
    #[verifier::spinoff_prover]
    pub(crate) fn parse_for_initializer(&mut self) -> (r: Res<ForInitializer<'a>>)
        requires
            old(self)@.wf(),
        ensures
            final(self)@.gives(
                r,
                for_initializer_at(old(self)@.tokens, Some(old(self)@.index), old(self)@.names),
            ),
            r matches Ok(node) ==> node.well_scoped(old(self)@.names),
            match r {
                Ok(node) => final(self)@.declared(
                    old(self)@,
                    node.span_end(old(self)@.tokens, Some(old(self)@.index)),
                    node.typedef_names(),
                ),
                Err(_) => final(self)@.follows(old(self)@),
            },
        decreases old(self)@.left(), 81nat,
    {
        proof {
            reveal(for_initializer_rule);
            assert(for_initializer_at(
                old(self)@.tokens,
                Some(old(self)@.index),
                old(self)@.names,
            ) == for_initializer_rule(
                old(self)@.tokens,
                Some(old(self)@.index),
                old(self)@.names,
            ));
        }
        let checkpoint = self.begin();
        let attempt = self.parse_declaration();
        match self.settle(checkpoint, attempt) {
            Ok(declaration) => Ok(ForInitializer::Declaration(declaration)),
            Err(_) => {
                let checkpoint = self.begin();
                let attempt = self.parse_expression();
                let expression = self.settle_optional(checkpoint, attempt);
                let semicolon = self.take(TokenKind::Semicolon)?;
                let node = ForInitializer::Expression(expression, semicolon);
                proof {
                    assert(self@.names =~= old(self)@.names + node.typedef_names());
                }
                Ok(node)
            },
        }
    }

    /// `goto` with a name, `continue`, `break`, or `return` with a value if
    /// there is one, and a semicolon.
    #[verifier::spinoff_prover]
    pub(crate) fn parse_jump_statement(&mut self) -> (r: Res<JumpStatement<'a>>)
        requires
            old(self)@.wf(),
        ensures
            !(old(self)@.current().kind is Goto) && !(old(self)@.current().kind is Continue)
                && !(old(self)@.current().kind is Break) && !(old(self)@.current().kind is Return)
                ==> final(self)@.failed_with(old(self)@, Expected::JumpStatement),
            final(self)@.gives(
                r,
                jump_statement_at(old(self)@.tokens, Some(old(self)@.index), old(self)@.names),
            ),
            r matches Ok(node) ==> node.well_scoped(old(self)@.names),
            match r {
                Ok(node) => final(self)@.reached(
                    old(self)@,
                    node.span_end(old(self)@.tokens, Some(old(self)@.index)),
                ),
                Err(_) => final(self)@.follows(old(self)@),
            },
        decreases old(self)@.left(), 2nat,
    {
        proof {
            reveal(jump_statement_rule);
            assert(jump_statement_at(
                old(self)@.tokens,
                Some(old(self)@.index),
                old(self)@.names,
            ) == jump_statement_rule(
                old(self)@.tokens,
                Some(old(self)@.index),
                old(self)@.names,
            ));
        }
        let at = self.at();
        let kind = if self.is(TokenKind::Goto) {
            let goto_keyword = self.next();
            let target = self.take_identifier()?;
            JumpStatementKind::Goto { goto_keyword, target }
        } else if self.is(TokenKind::Continue) {
            let continue_keyword = self.next();
            JumpStatementKind::Continue { continue_keyword }
        } else if self.is(TokenKind::Break) {
            let break_keyword = self.next();
            JumpStatementKind::Break { break_keyword }
        } else if self.is(TokenKind::Return) {
            let return_keyword = self.next();
            let checkpoint = self.begin();
            let attempt = self.parse_expression();
            let value = self.settle_optional(checkpoint, attempt);
            JumpStatementKind::Return { return_keyword, value }
        } else {
            self.err(Expected::JumpStatement);
            return Err(());
        };
        let semicolon = self.take(TokenKind::Semicolon)?;

        Ok(JumpStatement { at, kind, semicolon })
    }
}

} // verus!
