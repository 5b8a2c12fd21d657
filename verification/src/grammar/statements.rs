//! The rules for statements.

use crate::ast::{
    BlockItem, BlockItemKind, CompoundStatement, ExpressionStatement, ForInitializer,
    IterationStatement, IterationStatementKind, JumpStatement, JumpStatementKind, Label,
    LabelKind, LabeledStatement, List, ListKind, PrimaryBlock, PrimaryBlockKind, SecondaryBlock,
    SelectionStatement, SelectionStatementKind, Statement, StatementKind, UnlabeledStatement,
    UnlabeledStatementKind,
};
use crate::grammar::declarations::declaration_at;
use crate::grammar::expressions::{constant_expression_at, expression_at};
use crate::grammar::{
    behind, end, finish, forward, is_at, kind_of, maybe, node, place, room, take, take_identifier,
};
use crate::token::{Token, TokenKind};
use vstd::prelude::*;

verus! {

/// A labeled statement, or else an unlabeled one.
pub open spec fn statement_at<'a>(
    tokens: Seq<Token<'a>>,
    from: Option<int>,
    names: Seq<&'a str>,
) -> Option<(Statement<'a>, int)>
    decreases room(tokens, from), 87nat, 1nat,
{
    statement_rule(tokens, from, names)
}

/// What [`statement_at`] gives, written out.
#[verifier::opaque]
pub open spec fn statement_rule<'a>(
    tokens: Seq<Token<'a>>,
    from: Option<int>,
    names: Seq<&'a str>,
) -> Option<(Statement<'a>, int)>
    decreases room(tokens, from), 87nat, 0nat,
{
    if kind_of(tokens, from) is None {
        None
    } else {
        let a = forward(tokens, from, labeled_statement_at(tokens, from, names));
        let b = forward(tokens, from, unlabeled_statement_at(tokens, from, names));
        if a is Some {
            finish(end(a), Statement { at: place(tokens, from), kind: StatementKind::Labeled(node(a)) })
        } else {
            finish(
                end(b),
                Statement { at: place(tokens, from), kind: StatementKind::Unlabeled(node(b)) },
            )
        }
    }
}

/// An expression statement, or else a block, or else a jump.
pub open spec fn unlabeled_statement_at<'a>(
    tokens: Seq<Token<'a>>,
    from: Option<int>,
    names: Seq<&'a str>,
) -> Option<(UnlabeledStatement<'a>, int)>
    decreases room(tokens, from), 85nat, 1nat,
{
    unlabeled_statement_rule(tokens, from, names)
}

/// What [`unlabeled_statement_at`] gives, written out.
#[verifier::opaque]
pub open spec fn unlabeled_statement_rule<'a>(
    tokens: Seq<Token<'a>>,
    from: Option<int>,
    names: Seq<&'a str>,
) -> Option<(UnlabeledStatement<'a>, int)>
    decreases room(tokens, from), 85nat, 0nat,
{
    if kind_of(tokens, from) is None {
        None
    } else {
        let at = place(tokens, from);
        let a = forward(tokens, from, expression_statement_at(tokens, from, names));
        let b = forward(tokens, from, primary_block_at(tokens, from, names));
        let c = forward(tokens, from, jump_statement_at(tokens, from, names));
        if a is Some {
            finish(end(a), UnlabeledStatement { at, kind: UnlabeledStatementKind::Expression(node(a)) })
        } else if b is Some {
            finish(
                end(b),
                UnlabeledStatement { at, kind: UnlabeledStatementKind::Primary(None, node(b)) },
            )
        } else {
            finish(end(c), UnlabeledStatement { at, kind: UnlabeledStatementKind::Jump(None, node(c)) })
        }
    }
}

/// A compound statement, or else a selection statement, or else an
/// iteration statement.
pub open spec fn primary_block_at<'a>(
    tokens: Seq<Token<'a>>,
    from: Option<int>,
    names: Seq<&'a str>,
) -> Option<(PrimaryBlock<'a>, int)>
    decreases room(tokens, from), 84nat, 1nat,
{
    primary_block_rule(tokens, from, names)
}

/// What [`primary_block_at`] gives, written out.
#[verifier::opaque]
pub open spec fn primary_block_rule<'a>(
    tokens: Seq<Token<'a>>,
    from: Option<int>,
    names: Seq<&'a str>,
) -> Option<(PrimaryBlock<'a>, int)>
    decreases room(tokens, from), 84nat, 0nat,
{
    if kind_of(tokens, from) is None {
        None
    } else {
        let at = place(tokens, from);
        let a = forward(tokens, from, compound_statement_at(tokens, from, names));
        let b = forward(tokens, from, selection_statement_at(tokens, from, names));
        let c = forward(tokens, from, iteration_statement_at(tokens, from, names));
        if a is Some {
            finish(end(a), PrimaryBlock { at, kind: PrimaryBlockKind::Compound(node(a)) })
        } else if b is Some {
            finish(end(b), PrimaryBlock { at, kind: PrimaryBlockKind::Selection(node(b)) })
        } else {
            finish(end(c), PrimaryBlock { at, kind: PrimaryBlockKind::Iteration(node(c)) })
        }
    }
}

/// A statement as the body of a selection or iteration statement.
pub open spec fn secondary_block_at<'a>(
    tokens: Seq<Token<'a>>,
    from: Option<int>,
    names: Seq<&'a str>,
) -> Option<(SecondaryBlock<'a>, int)>
    decreases room(tokens, from), 88nat, 1nat,
{
    secondary_block_rule(tokens, from, names)
}

/// What [`secondary_block_at`] gives, written out.
#[verifier::opaque]
pub open spec fn secondary_block_rule<'a>(
    tokens: Seq<Token<'a>>,
    from: Option<int>,
    names: Seq<&'a str>,
) -> Option<(SecondaryBlock<'a>, int)>
    decreases room(tokens, from), 88nat, 0nat,
{
    if kind_of(tokens, from) is None {
        None
    } else {
        let a = forward(tokens, from, statement_at(tokens, from, names));
        finish(end(a), SecondaryBlock { at: place(tokens, from), statement: Box::new(node(a)) })
    }
}

/// A name, `case` with a constant expression, or `default`, and a colon.
pub open spec fn label_at<'a>(
    tokens: Seq<Token<'a>>,
    from: Option<int>,
    names: Seq<&'a str>,
) -> Option<(Label<'a>, int)>
    decreases room(tokens, from), 82nat, 1nat,
{
    label_rule(tokens, from, names)
}

/// What [`label_at`] gives, written out.
#[verifier::opaque]
pub open spec fn label_rule<'a>(
    tokens: Seq<Token<'a>>,
    from: Option<int>,
    names: Seq<&'a str>,
) -> Option<(Label<'a>, int)>
    decreases room(tokens, from), 82nat, 0nat,
{
    if kind_of(tokens, from) is None {
        None
    } else {
        let kind = if is_at(tokens, from, TokenKind::Default) {
            finish(behind(from), LabelKind::Default { default_keyword: place(tokens, from) })
        } else if is_at(tokens, from, TokenKind::Case) {
            let a = forward(
                tokens,
                behind(from),
                constant_expression_at(tokens, behind(from), names),
            );
            finish(end(a), LabelKind::Case { case_keyword: place(tokens, from), value: node(a) })
        } else {
            let a = take_identifier(tokens, from);
            finish(end(a), LabelKind::Name(node(a)))
        };
        let b = take(tokens, end(kind), TokenKind::Colon);
        finish(
            end(b),
            Label { at: place(tokens, from), attributes: None, kind: node(kind), colon: node(b) },
        )
    }
}

/// A label and the statement that it labels.
pub open spec fn labeled_statement_at<'a>(
    tokens: Seq<Token<'a>>,
    from: Option<int>,
    names: Seq<&'a str>,
) -> Option<(LabeledStatement<'a>, int)>
    decreases room(tokens, from), 86nat, 1nat,
{
    labeled_statement_rule(tokens, from, names)
}

/// What [`labeled_statement_at`] gives, written out.
#[verifier::opaque]
pub open spec fn labeled_statement_rule<'a>(
    tokens: Seq<Token<'a>>,
    from: Option<int>,
    names: Seq<&'a str>,
) -> Option<(LabeledStatement<'a>, int)>
    decreases room(tokens, from), 86nat, 0nat,
{
    if kind_of(tokens, from) is None {
        None
    } else {
        let a = forward(tokens, from, label_at(tokens, from, names));
        let b = forward(tokens, end(a), statement_at(tokens, end(a), names));
        finish(
            end(b),
            LabeledStatement { at: place(tokens, from), label: node(a), statement: Box::new(node(b)) },
        )
    }
}

/// Block items in braces.
pub open spec fn compound_statement_at<'a>(
    tokens: Seq<Token<'a>>,
    from: Option<int>,
    names: Seq<&'a str>,
) -> Option<(CompoundStatement<'a>, int)>
    decreases room(tokens, from), 2nat, 1nat,
{
    compound_statement_rule(tokens, from, names)
}

/// What [`compound_statement_at`] gives, written out.
#[verifier::opaque]
pub open spec fn compound_statement_rule<'a>(
    tokens: Seq<Token<'a>>,
    from: Option<int>,
    names: Seq<&'a str>,
) -> Option<(CompoundStatement<'a>, int)>
    decreases room(tokens, from), 2nat, 0nat,
{
    if kind_of(tokens, from) is None {
        None
    } else {
        let a = take(tokens, from, TokenKind::OpenBrace);
        let b = maybe(end(a), forward(tokens, end(a), block_item_list_at(tokens, end(a), names)));
        let c = take(tokens, b.1, TokenKind::CloseBrace);
        finish(
            end(c),
            CompoundStatement {
                at: place(tokens, from),
                open_brace: node(a),
                items: b.0,
                close_brace: node(c),
            },
        )
    }
}

/// One or more block items: as many as are there. Each is read with the
/// typedef names of those in front of it declared.
pub open spec fn block_item_list_at<'a>(
    tokens: Seq<Token<'a>>,
    from: Option<int>,
    names: Seq<&'a str>,
) -> Option<(List<BlockItem<'a>>, int)>
    decreases room(tokens, from), 90nat, 1nat,
{
    block_item_list_rule(tokens, from, names)
}

/// What [`block_item_list_at`] gives, written out.
#[verifier::opaque]
pub open spec fn block_item_list_rule<'a>(
    tokens: Seq<Token<'a>>,
    from: Option<int>,
    names: Seq<&'a str>,
) -> Option<(List<BlockItem<'a>>, int)>
    decreases room(tokens, from), 90nat, 0nat,
{
    if kind_of(tokens, from) is None {
        None
    } else {
        let a = forward(tokens, from, block_item_at(tokens, from, names));
        if a is Some {
            block_item_list_rest(
                tokens,
                end(a),
                names,
                List { at: place(tokens, from), kind: ListKind::Leaf(Box::new(node(a))) },
            )
        } else {
            None
        }
    }
}

pub open spec fn block_item_list_rest<'a>(
    tokens: Seq<Token<'a>>,
    from: Option<int>,
    names: Seq<&'a str>,
    left: List<BlockItem<'a>>,
) -> Option<(List<BlockItem<'a>>, int)>
    decreases room(tokens, from), 90nat, 1nat,
{
    block_item_list_rest_rule(tokens, from, names, left)
}

/// What [`block_item_list_rest`] gives, written out.
#[verifier::opaque]
pub open spec fn block_item_list_rest_rule<'a>(
    tokens: Seq<Token<'a>>,
    from: Option<int>,
    names: Seq<&'a str>,
    left: List<BlockItem<'a>>,
) -> Option<(List<BlockItem<'a>>, int)>
    decreases room(tokens, from), 90nat, 0nat,
{
    if kind_of(tokens, from) is None {
        None
    } else {
        let a = forward(tokens, from, block_item_at(tokens, from, names + left.typedef_names()));
        if a is Some {
            block_item_list_rest(
                tokens,
                end(a),
                names,
                List { at: left.at, kind: ListKind::Cons(Box::new(left), Box::new(node(a))) },
            )
        } else {
            finish(from, left)
        }
    }
}

/// A declaration, or else an unlabeled statement, or else a label.
pub open spec fn block_item_at<'a>(
    tokens: Seq<Token<'a>>,
    from: Option<int>,
    names: Seq<&'a str>,
) -> Option<(BlockItem<'a>, int)>
    decreases room(tokens, from), 89nat, 1nat,
{
    block_item_rule(tokens, from, names)
}

/// What [`block_item_at`] gives, written out.
#[verifier::opaque]
pub open spec fn block_item_rule<'a>(
    tokens: Seq<Token<'a>>,
    from: Option<int>,
    names: Seq<&'a str>,
) -> Option<(BlockItem<'a>, int)>
    decreases room(tokens, from), 89nat, 0nat,
{
    if kind_of(tokens, from) is None {
        None
    } else {
        let at = place(tokens, from);
        let a = forward(tokens, from, declaration_at(tokens, from, names));
        let b = forward(tokens, from, unlabeled_statement_at(tokens, from, names));
        let c = forward(tokens, from, label_at(tokens, from, names));
        if a is Some {
            finish(end(a), BlockItem { at, kind: BlockItemKind::Declaration(node(a)) })
        } else if b is Some {
            finish(end(b), BlockItem { at, kind: BlockItemKind::Unlabeled(node(b)) })
        } else {
            finish(end(c), BlockItem { at, kind: BlockItemKind::Label(node(c)) })
        }
    }
}

/// An expression, if there is one, and a semicolon.
pub open spec fn expression_statement_at<'a>(
    tokens: Seq<Token<'a>>,
    from: Option<int>,
    names: Seq<&'a str>,
) -> Option<(ExpressionStatement<'a>, int)>
    decreases room(tokens, from), 83nat, 1nat,
{
    expression_statement_rule(tokens, from, names)
}

/// What [`expression_statement_at`] gives, written out.
#[verifier::opaque]
pub open spec fn expression_statement_rule<'a>(
    tokens: Seq<Token<'a>>,
    from: Option<int>,
    names: Seq<&'a str>,
) -> Option<(ExpressionStatement<'a>, int)>
    decreases room(tokens, from), 83nat, 0nat,
{
    if kind_of(tokens, from) is None {
        None
    } else {
        let a = maybe(from, forward(tokens, from, expression_at(tokens, from, names)));
        let b = take(tokens, a.1, TokenKind::Semicolon);
        finish(
            end(b),
            ExpressionStatement {
                at: place(tokens, from),
                attributes: None,
                expression: a.0,
                semicolon: node(b),
            },
        )
    }
}

/// An `if` with the `else` that follows its body, if one does, or a
/// `switch`.
pub open spec fn selection_statement_at<'a>(
    tokens: Seq<Token<'a>>,
    from: Option<int>,
    names: Seq<&'a str>,
) -> Option<(SelectionStatement<'a>, int)>
    decreases room(tokens, from), 2nat, 1nat,
{
    selection_statement_rule(tokens, from, names)
}

/// What [`selection_statement_at`] gives, written out.
#[verifier::opaque]
pub open spec fn selection_statement_rule<'a>(
    tokens: Seq<Token<'a>>,
    from: Option<int>,
    names: Seq<&'a str>,
) -> Option<(SelectionStatement<'a>, int)>
    decreases room(tokens, from), 2nat, 0nat,
{
    if kind_of(tokens, from) is None {
        None
    } else {
        let at = place(tokens, from);
        let a = take(tokens, behind(from), TokenKind::OpenParenthesis);
        let b = forward(tokens, end(a), expression_at(tokens, end(a), names));
        let c = take(tokens, end(b), TokenKind::CloseParenthesis);
        let d = forward(tokens, end(c), secondary_block_at(tokens, end(c), names));
        if is_at(tokens, from, TokenKind::If) {
            if is_at(tokens, end(d), TokenKind::Else) {
                let e = forward(
                    tokens,
                    behind(end(d)),
                    secondary_block_at(tokens, behind(end(d)), names),
                );
                finish(
                    end(e),
                    SelectionStatement {
                        at,
                        kind: SelectionStatementKind::If {
                            if_keyword: at,
                            open_parenthesis: node(a),
                            condition: node(b),
                            close_parenthesis: node(c),
                            then_body: node(d),
                            else_body: Some((place(tokens, end(d)), node(e))),
                        },
                    },
                )
            } else {
                finish(
                    end(d),
                    SelectionStatement {
                        at,
                        kind: SelectionStatementKind::If {
                            if_keyword: at,
                            open_parenthesis: node(a),
                            condition: node(b),
                            close_parenthesis: node(c),
                            then_body: node(d),
                            else_body: None,
                        },
                    },
                )
            }
        } else if is_at(tokens, from, TokenKind::Switch) {
            finish(
                end(d),
                SelectionStatement {
                    at,
                    kind: SelectionStatementKind::Switch {
                        switch_keyword: at,
                        open_parenthesis: node(a),
                        controlling_expression: node(b),
                        close_parenthesis: node(c),
                        body: node(d),
                    },
                },
            )
        } else {
            None
        }
    }
}

/// A `while`, a `do` or a `for`. What stands behind the first clause of
/// a `for` is read with the typedef names of the clause declared.
pub open spec fn iteration_statement_at<'a>(
    tokens: Seq<Token<'a>>,
    from: Option<int>,
    names: Seq<&'a str>,
) -> Option<(IterationStatement<'a>, int)>
    decreases room(tokens, from), 2nat, 1nat,
{
    iteration_statement_rule(tokens, from, names)
}

/// What [`iteration_statement_at`] gives, written out.
#[verifier::opaque]
pub open spec fn iteration_statement_rule<'a>(
    tokens: Seq<Token<'a>>,
    from: Option<int>,
    names: Seq<&'a str>,
) -> Option<(IterationStatement<'a>, int)>
    decreases room(tokens, from), 2nat, 0nat,
{
    if kind_of(tokens, from) is None {
        None
    } else {
        let at = place(tokens, from);
        if is_at(tokens, from, TokenKind::While) {
            let a = take(tokens, behind(from), TokenKind::OpenParenthesis);
            let b = forward(tokens, end(a), expression_at(tokens, end(a), names));
            let c = take(tokens, end(b), TokenKind::CloseParenthesis);
            let d = forward(tokens, end(c), secondary_block_at(tokens, end(c), names));
            finish(
                end(d),
                IterationStatement {
                    at,
                    kind: IterationStatementKind::While {
                        while_keyword: at,
                        open_parenthesis: node(a),
                        condition: node(b),
                        close_parenthesis: node(c),
                        body: node(d),
                    },
                },
            )
        } else if is_at(tokens, from, TokenKind::Do) {
            let a = forward(tokens, behind(from), secondary_block_at(tokens, behind(from), names));
            let b = take(tokens, end(a), TokenKind::While);
            let c = take(tokens, end(b), TokenKind::OpenParenthesis);
            let d = forward(tokens, end(c), expression_at(tokens, end(c), names));
            let e = take(tokens, end(d), TokenKind::CloseParenthesis);
            let f = take(tokens, end(e), TokenKind::Semicolon);
            finish(
                end(f),
                IterationStatement {
                    at,
                    kind: IterationStatementKind::DoWhile {
                        do_keyword: at,
                        body: node(a),
                        while_keyword: node(b),
                        open_parenthesis: node(c),
                        condition: node(d),
                        close_parenthesis: node(e),
                        semicolon: node(f),
                    },
                },
            )
        } else if is_at(tokens, from, TokenKind::For) {
            let a = take(tokens, behind(from), TokenKind::OpenParenthesis);
            let b = forward(tokens, end(a), for_initializer_at(tokens, end(a), names));
            let inner = names + node(b).typedef_names();
            let c = maybe(end(b), forward(tokens, end(b), expression_at(tokens, end(b), inner)));
            let d = take(tokens, c.1, TokenKind::Semicolon);
            let e = maybe(end(d), forward(tokens, end(d), expression_at(tokens, end(d), inner)));
            let f = take(tokens, e.1, TokenKind::CloseParenthesis);
            let g = forward(tokens, end(f), secondary_block_at(tokens, end(f), inner));
            finish(
                end(g),
                IterationStatement {
                    at,
                    kind: IterationStatementKind::For {
                        for_keyword: at,
                        open_parenthesis: node(a),
                        initializer: node(b),
                        condition: c.0,
                        semicolon: node(d),
                        counter: e.0,
                        close_parenthesis: node(f),
                        body: node(g),
                    },
                },
            )
        } else {
            None
        }
    }
}

/// The first clause of a `for`: a declaration, or else an expression, if
/// there is one, and a semicolon.
pub open spec fn for_initializer_at<'a>(
    tokens: Seq<Token<'a>>,
    from: Option<int>,
    names: Seq<&'a str>,
) -> Option<(ForInitializer<'a>, int)>
    decreases room(tokens, from), 81nat, 1nat,
{
    for_initializer_rule(tokens, from, names)
}

/// What [`for_initializer_at`] gives, written out.
#[verifier::opaque]
pub open spec fn for_initializer_rule<'a>(
    tokens: Seq<Token<'a>>,
    from: Option<int>,
    names: Seq<&'a str>,
) -> Option<(ForInitializer<'a>, int)>
    decreases room(tokens, from), 81nat, 0nat,
{
    if kind_of(tokens, from) is None {
        None
    } else {
        let a = forward(tokens, from, declaration_at(tokens, from, names));
        if a is Some {
            finish(end(a), ForInitializer::Declaration(node(a)))
        } else {
            let b = maybe(from, forward(tokens, from, expression_at(tokens, from, names)));
            let c = take(tokens, b.1, TokenKind::Semicolon);
            finish(end(c), ForInitializer::Expression(b.0, node(c)))
        }
    }
}

/// `goto` with a name, `continue`, `break`, or `return` with a value if
/// there is one, and a semicolon.
pub open spec fn jump_statement_at<'a>(
    tokens: Seq<Token<'a>>,
    from: Option<int>,
    names: Seq<&'a str>,
) -> Option<(JumpStatement<'a>, int)>
    decreases room(tokens, from), 2nat, 1nat,
{
    jump_statement_rule(tokens, from, names)
}

/// What [`jump_statement_at`] gives, written out.
#[verifier::opaque]
pub open spec fn jump_statement_rule<'a>(
    tokens: Seq<Token<'a>>,
    from: Option<int>,
    names: Seq<&'a str>,
) -> Option<(JumpStatement<'a>, int)>
    decreases room(tokens, from), 2nat, 0nat,
{
    if kind_of(tokens, from) is None {
        None
    } else {
        let at = place(tokens, from);
        let kind = if is_at(tokens, from, TokenKind::Goto) {
            let a = take_identifier(tokens, behind(from));
            finish(end(a), JumpStatementKind::Goto { goto_keyword: at, target: node(a) })
        } else if is_at(tokens, from, TokenKind::Continue) {
            finish(behind(from), JumpStatementKind::Continue { continue_keyword: at })
        } else if is_at(tokens, from, TokenKind::Break) {
            finish(behind(from), JumpStatementKind::Break { break_keyword: at })
        } else if is_at(tokens, from, TokenKind::Return) {
            let a = maybe(
                behind(from),
                forward(tokens, behind(from), expression_at(tokens, behind(from), names)),
            );
            finish(a.1, JumpStatementKind::Return { return_keyword: at, value: a.0 })
        } else {
            None
        };
        let b = take(tokens, end(kind), TokenKind::Semicolon);
        finish(end(b), JumpStatement { at, kind: node(kind), semicolon: node(b) })
    }
}

} // verus!
