//! The rules for declarations, initializers and the translation unit.

use crate::ast::{
    BracedInitializer, CommaList, CommaListKind, Declaration, DeclarationKind,
    DeclarationSpecifier, DeclarationSpecifierKind, DeclarationSpecifiers,
    DeclarationSpecifiersKind, Designation, Designator, DesignatorKind, ExternalDeclaration,
    ExternalDeclarationKind, FunctionDefinition, InitDeclarator, Initializer, InitializerKind,
    List, ListKind, StaticAssertDeclaration, StringLiteral,
};
use crate::grammar::declarators::declarator_at;
use crate::grammar::expressions::{assignment_expression_at, constant_expression_at};
use crate::grammar::statements::compound_statement_at;
use crate::grammar::types::{
    function_specifier_at, storage_class_specifier_at, type_specifier_qualifier_at,
};
use crate::grammar::{
    behind, end, finish, forward, is_at, kind_of, maybe, node, place, room, take, take_identifier,
};
use crate::scope::extended;
use crate::token::{Token, TokenKind};
use vstd::prelude::*;

verus! {

/// A static assertion, or else specifiers, the declarators with their
/// initializers if there are any, and a semicolon.
pub open spec fn declaration_at<'a>(
    tokens: Seq<Token<'a>>,
    from: Option<int>,
    names: Seq<&'a str>,
) -> Option<(Declaration<'a>, int)>
    decreases room(tokens, from), 80nat, 1nat,
{
    declaration_rule(tokens, from, names)
}

/// What [`declaration_at`] gives, written out.
#[verifier::opaque]
pub open spec fn declaration_rule<'a>(
    tokens: Seq<Token<'a>>,
    from: Option<int>,
    names: Seq<&'a str>,
) -> Option<(Declaration<'a>, int)>
    decreases room(tokens, from), 80nat, 0nat,
{
    if kind_of(tokens, from) is None {
        None
    } else {
        let at = place(tokens, from);
        let a = forward(tokens, from, static_assert_declaration_at(tokens, from, names));
        if a is Some {
            finish(end(a), Declaration { at, kind: DeclarationKind::Assert(node(a)) })
        } else {
            let b = forward(tokens, from, declaration_specifiers_at(tokens, from, names));
            let c = maybe(
                end(b),
                forward(
                    tokens,
                    end(b),
                    init_declarator_list_at(tokens, end(b), names, node(b).has_typedef()),
                ),
            );
            let d = take(tokens, c.1, TokenKind::Semicolon);
            finish(
                end(d),
                Declaration {
                    at,
                    kind: DeclarationKind::Normal {
                        attributes: None,
                        specifiers: node(b),
                        init_declarators: c.0,
                        semicolon: node(d),
                    },
                },
            )
        }
    }
}

/// One or more declaration specifiers: as many as are there.
pub open spec fn declaration_specifiers_at<'a>(
    tokens: Seq<Token<'a>>,
    from: Option<int>,
    names: Seq<&'a str>,
) -> Option<(DeclarationSpecifiers<'a>, int)>
    decreases room(tokens, from), 61nat, 1nat,
{
    declaration_specifiers_rule(tokens, from, names)
}

/// What [`declaration_specifiers_at`] gives, written out.
#[verifier::opaque]
pub open spec fn declaration_specifiers_rule<'a>(
    tokens: Seq<Token<'a>>,
    from: Option<int>,
    names: Seq<&'a str>,
) -> Option<(DeclarationSpecifiers<'a>, int)>
    decreases room(tokens, from), 61nat, 0nat,
{
    if kind_of(tokens, from) is None {
        None
    } else {
        let a = forward(tokens, from, declaration_specifier_at(tokens, from, names));
        let b = forward(tokens, end(a), declaration_specifiers_at(tokens, end(a), names));
        if b is Some {
            finish(
                end(b),
                DeclarationSpecifiers {
                    at: place(tokens, from),
                    specifier: node(a),
                    kind: DeclarationSpecifiersKind::Cons(Box::new(node(b))),
                },
            )
        } else {
            finish(
                end(a),
                DeclarationSpecifiers {
                    at: place(tokens, from),
                    specifier: node(a),
                    kind: DeclarationSpecifiersKind::Leaf(None),
                },
            )
        }
    }
}

/// A storage class specifier, or else a type specifier or qualifier, or
/// else a function specifier.
pub open spec fn declaration_specifier_at<'a>(
    tokens: Seq<Token<'a>>,
    from: Option<int>,
    names: Seq<&'a str>,
) -> Option<(DeclarationSpecifier<'a>, int)>
    decreases room(tokens, from), 60nat, 1nat,
{
    declaration_specifier_rule(tokens, from, names)
}

/// What [`declaration_specifier_at`] gives, written out.
#[verifier::opaque]
pub open spec fn declaration_specifier_rule<'a>(
    tokens: Seq<Token<'a>>,
    from: Option<int>,
    names: Seq<&'a str>,
) -> Option<(DeclarationSpecifier<'a>, int)>
    decreases room(tokens, from), 60nat, 0nat,
{
    if kind_of(tokens, from) is None {
        None
    } else {
        let a = storage_class_specifier_at(tokens, from);
        let b = forward(tokens, from, type_specifier_qualifier_at(tokens, from, names));
        let c = function_specifier_at(tokens, from);
        if a is Some {
            finish(
                end(a),
                DeclarationSpecifier {
                    at: node(a).at,
                    kind: DeclarationSpecifierKind::StorageClass(node(a)),
                },
            )
        } else if b is Some {
            finish(
                end(b),
                DeclarationSpecifier { at: node(b).at, kind: DeclarationSpecifierKind::Type(node(b)) },
            )
        } else {
            finish(
                end(c),
                DeclarationSpecifier {
                    at: node(c).at,
                    kind: DeclarationSpecifierKind::Function(node(c)),
                },
            )
        }
    }
}

/// One or more declarators, each with its initializer if it has one, with
/// commas between them. With `is_typedef` each is read with the names of
/// those in front of it declared.
pub open spec fn init_declarator_list_at<'a>(
    tokens: Seq<Token<'a>>,
    from: Option<int>,
    names: Seq<&'a str>,
    is_typedef: bool,
) -> Option<(CommaList<InitDeclarator<'a>>, int)>
    decreases room(tokens, from), 74nat, 1nat,
{
    init_declarator_list_rule(tokens, from, names, is_typedef)
}

/// What [`init_declarator_list_at`] gives, written out.
#[verifier::opaque]
pub open spec fn init_declarator_list_rule<'a>(
    tokens: Seq<Token<'a>>,
    from: Option<int>,
    names: Seq<&'a str>,
    is_typedef: bool,
) -> Option<(CommaList<InitDeclarator<'a>>, int)>
    decreases room(tokens, from), 74nat, 0nat,
{
    if kind_of(tokens, from) is None {
        None
    } else {
        let a = forward(tokens, from, init_declarator_at(tokens, from, names, is_typedef));
        if a is Some {
            init_declarator_list_rest(
                tokens,
                end(a),
                names,
                is_typedef,
                CommaList { at: place(tokens, from), kind: CommaListKind::Leaf(Box::new(node(a))) },
            )
        } else {
            None
        }
    }
}

pub open spec fn init_declarator_list_rest<'a>(
    tokens: Seq<Token<'a>>,
    from: Option<int>,
    names: Seq<&'a str>,
    is_typedef: bool,
    left: CommaList<InitDeclarator<'a>>,
) -> Option<(CommaList<InitDeclarator<'a>>, int)>
    decreases room(tokens, from), 74nat, 1nat,
{
    init_declarator_list_rest_rule(tokens, from, names, is_typedef, left)
}

/// What [`init_declarator_list_rest`] gives, written out.
#[verifier::opaque]
pub open spec fn init_declarator_list_rest_rule<'a>(
    tokens: Seq<Token<'a>>,
    from: Option<int>,
    names: Seq<&'a str>,
    is_typedef: bool,
    left: CommaList<InitDeclarator<'a>>,
) -> Option<(CommaList<InitDeclarator<'a>>, int)>
    decreases room(tokens, from), 74nat, 0nat,
{
    if kind_of(tokens, from) is None {
        None
    } else {
        let inner = if is_typedef {
            names + left.names()
        } else {
            names
        };
        let a = forward(
            tokens,
            behind(from),
            init_declarator_at(tokens, behind(from), inner, is_typedef),
        );
        if is_at(tokens, from, TokenKind::Comma) && a is Some {
            init_declarator_list_rest(
                tokens,
                end(a),
                names,
                is_typedef,
                CommaList {
                    at: left.at,
                    kind: CommaListKind::Cons {
                        left: Box::new(left),
                        comma: place(tokens, from),
                        right: Box::new(node(a)),
                    },
                },
            )
        } else {
            finish(from, left)
        }
    }
}

/// A declarator with its initializer, if it has one. The initializer is
/// read with the name of the declarator declared, where it is one of a
/// `typedef`.
pub open spec fn init_declarator_at<'a>(
    tokens: Seq<Token<'a>>,
    from: Option<int>,
    names: Seq<&'a str>,
    is_typedef: bool,
) -> Option<(InitDeclarator<'a>, int)>
    decreases room(tokens, from), 73nat, 1nat,
{
    init_declarator_rule(tokens, from, names, is_typedef)
}

/// What [`init_declarator_at`] gives, written out.
#[verifier::opaque]
pub open spec fn init_declarator_rule<'a>(
    tokens: Seq<Token<'a>>,
    from: Option<int>,
    names: Seq<&'a str>,
    is_typedef: bool,
) -> Option<(InitDeclarator<'a>, int)>
    decreases room(tokens, from), 73nat, 0nat,
{
    if kind_of(tokens, from) is None {
        None
    } else {
        let a = forward(tokens, from, declarator_at(tokens, from, names, is_typedef));
        if is_at(tokens, end(a), TokenKind::Equal) {
            let b = forward(
                tokens,
                behind(end(a)),
                initializer_at(
                    tokens,
                    behind(end(a)),
                    extended(names, is_typedef, node(a).name()),
                ),
            );
            finish(
                end(b),
                InitDeclarator {
                    at: place(tokens, from),
                    declarator: node(a),
                    initializer: Some((place(tokens, end(a)), node(b))),
                },
            )
        } else {
            finish(
                end(a),
                InitDeclarator { at: place(tokens, from), declarator: node(a), initializer: None },
            )
        }
    }
}

/// Braces with an initializer list in them, if there is one, and a comma
/// behind it, if there is one.
pub open spec fn braced_initializer_at<'a>(
    tokens: Seq<Token<'a>>,
    from: Option<int>,
    names: Seq<&'a str>,
) -> Option<(BracedInitializer<'a>, int)>
    decreases room(tokens, from), 2nat, 1nat,
{
    braced_initializer_rule(tokens, from, names)
}

/// What [`braced_initializer_at`] gives, written out.
#[verifier::opaque]
pub open spec fn braced_initializer_rule<'a>(
    tokens: Seq<Token<'a>>,
    from: Option<int>,
    names: Seq<&'a str>,
) -> Option<(BracedInitializer<'a>, int)>
    decreases room(tokens, from), 2nat, 0nat,
{
    if kind_of(tokens, from) is None {
        None
    } else {
        let a = take(tokens, from, TokenKind::OpenBrace);
        if is_at(tokens, end(a), TokenKind::CloseBrace) {
            finish(
                behind(end(a)),
                BracedInitializer {
                    at: place(tokens, from),
                    open_brace: node(a),
                    initializers: None,
                    close_brace: place(tokens, end(a)),
                },
            )
        } else {
            let b = forward(tokens, end(a), initializer_list_at(tokens, end(a), names));
            let c = maybe(end(b), take(tokens, end(b), TokenKind::Comma));
            let d = take(tokens, c.1, TokenKind::CloseBrace);
            finish(
                end(d),
                BracedInitializer {
                    at: place(tokens, from),
                    open_brace: node(a),
                    initializers: Some((node(b), c.0)),
                    close_brace: node(d),
                },
            )
        }
    }
}

/// An assignment expression, or else a braced initializer.
pub open spec fn initializer_at<'a>(
    tokens: Seq<Token<'a>>,
    from: Option<int>,
    names: Seq<&'a str>,
) -> Option<(Initializer<'a>, int)>
    decreases room(tokens, from), 71nat, 1nat,
{
    initializer_rule(tokens, from, names)
}

/// What [`initializer_at`] gives, written out.
#[verifier::opaque]
pub open spec fn initializer_rule<'a>(
    tokens: Seq<Token<'a>>,
    from: Option<int>,
    names: Seq<&'a str>,
) -> Option<(Initializer<'a>, int)>
    decreases room(tokens, from), 71nat, 0nat,
{
    if kind_of(tokens, from) is None {
        None
    } else {
        let a = forward(tokens, from, assignment_expression_at(tokens, from, names));
        let b = forward(tokens, from, braced_initializer_at(tokens, from, names));
        if a is Some {
            finish(
                end(a),
                Initializer { at: place(tokens, from), kind: InitializerKind::Expression(node(a)) },
            )
        } else {
            finish(
                end(b),
                Initializer {
                    at: place(tokens, from),
                    kind: InitializerKind::Braced(Box::new(node(b))),
                },
            )
        }
    }
}

/// An initializer with the designation in front of it, if it has one.
pub open spec fn designated_initializer_at<'a>(
    tokens: Seq<Token<'a>>,
    from: Option<int>,
    names: Seq<&'a str>,
) -> Option<((Option<Designation<'a>>, Initializer<'a>), int)>
    decreases room(tokens, from), 72nat, 1nat,
{
    designated_initializer_rule(tokens, from, names)
}

/// What [`designated_initializer_at`] gives, written out.
#[verifier::opaque]
pub open spec fn designated_initializer_rule<'a>(
    tokens: Seq<Token<'a>>,
    from: Option<int>,
    names: Seq<&'a str>,
) -> Option<((Option<Designation<'a>>, Initializer<'a>), int)>
    decreases room(tokens, from), 72nat, 0nat,
{
    if kind_of(tokens, from) is None {
        None
    } else {
        let a = maybe(from, forward(tokens, from, designation_at(tokens, from, names)));
        let b = forward(tokens, a.1, initializer_at(tokens, a.1, names));
        finish(end(b), (a.0, node(b)))
    }
}

/// One or more initializers, each with its designation if it has one,
/// with commas between them.
pub open spec fn initializer_list_at<'a>(
    tokens: Seq<Token<'a>>,
    from: Option<int>,
    names: Seq<&'a str>,
) -> Option<(CommaList<(Option<Designation<'a>>, Initializer<'a>)>, int)>
    decreases room(tokens, from), 73nat, 1nat,
{
    initializer_list_rule(tokens, from, names)
}

/// What [`initializer_list_at`] gives, written out.
#[verifier::opaque]
pub open spec fn initializer_list_rule<'a>(
    tokens: Seq<Token<'a>>,
    from: Option<int>,
    names: Seq<&'a str>,
) -> Option<(CommaList<(Option<Designation<'a>>, Initializer<'a>)>, int)>
    decreases room(tokens, from), 73nat, 0nat,
{
    if kind_of(tokens, from) is None {
        None
    } else {
        let a = forward(tokens, from, designated_initializer_at(tokens, from, names));
        if a is Some {
            initializer_list_rest(
                tokens,
                end(a),
                names,
                CommaList { at: place(tokens, from), kind: CommaListKind::Leaf(Box::new(node(a))) },
            )
        } else {
            None
        }
    }
}

pub open spec fn initializer_list_rest<'a>(
    tokens: Seq<Token<'a>>,
    from: Option<int>,
    names: Seq<&'a str>,
    left: CommaList<(Option<Designation<'a>>, Initializer<'a>)>,
) -> Option<(CommaList<(Option<Designation<'a>>, Initializer<'a>)>, int)>
    decreases room(tokens, from), 73nat, 1nat,
{
    initializer_list_rest_rule(tokens, from, names, left)
}

/// What [`initializer_list_rest`] gives, written out.
#[verifier::opaque]
pub open spec fn initializer_list_rest_rule<'a>(
    tokens: Seq<Token<'a>>,
    from: Option<int>,
    names: Seq<&'a str>,
    left: CommaList<(Option<Designation<'a>>, Initializer<'a>)>,
) -> Option<(CommaList<(Option<Designation<'a>>, Initializer<'a>)>, int)>
    decreases room(tokens, from), 73nat, 0nat,
{
    if kind_of(tokens, from) is None {
        None
    } else {
        let a = forward(tokens, behind(from), designated_initializer_at(tokens, behind(from), names));
        if is_at(tokens, from, TokenKind::Comma) && a is Some {
            initializer_list_rest(
                tokens,
                end(a),
                names,
                CommaList {
                    at: left.at,
                    kind: CommaListKind::Cons {
                        left: Box::new(left),
                        comma: place(tokens, from),
                        right: Box::new(node(a)),
                    },
                },
            )
        } else {
            finish(from, left)
        }
    }
}

/// One or more designators and `=`.
pub open spec fn designation_at<'a>(
    tokens: Seq<Token<'a>>,
    from: Option<int>,
    names: Seq<&'a str>,
) -> Option<(Designation<'a>, int)>
    decreases room(tokens, from), 4nat, 1nat,
{
    designation_rule(tokens, from, names)
}

/// What [`designation_at`] gives, written out.
#[verifier::opaque]
pub open spec fn designation_rule<'a>(
    tokens: Seq<Token<'a>>,
    from: Option<int>,
    names: Seq<&'a str>,
) -> Option<(Designation<'a>, int)>
    decreases room(tokens, from), 4nat, 0nat,
{
    if kind_of(tokens, from) is None {
        None
    } else {
        let a = forward(tokens, from, designator_list_at(tokens, from, names));
        let b = take(tokens, end(a), TokenKind::Equal);
        finish(end(b), Designation { at: place(tokens, from), designators: node(a), equal: node(b) })
    }
}

/// One or more designators: as many as are there.
pub open spec fn designator_list_at<'a>(
    tokens: Seq<Token<'a>>,
    from: Option<int>,
    names: Seq<&'a str>,
) -> Option<(List<Designator<'a>>, int)>
    decreases room(tokens, from), 3nat, 1nat,
{
    designator_list_rule(tokens, from, names)
}

/// What [`designator_list_at`] gives, written out.
#[verifier::opaque]
pub open spec fn designator_list_rule<'a>(
    tokens: Seq<Token<'a>>,
    from: Option<int>,
    names: Seq<&'a str>,
) -> Option<(List<Designator<'a>>, int)>
    decreases room(tokens, from), 3nat, 0nat,
{
    if kind_of(tokens, from) is None {
        None
    } else {
        let a = forward(tokens, from, designator_at(tokens, from, names));
        if a is Some {
            designator_list_rest(
                tokens,
                end(a),
                names,
                List { at: place(tokens, from), kind: ListKind::Leaf(Box::new(node(a))) },
            )
        } else {
            None
        }
    }
}

pub open spec fn designator_list_rest<'a>(
    tokens: Seq<Token<'a>>,
    from: Option<int>,
    names: Seq<&'a str>,
    left: List<Designator<'a>>,
) -> Option<(List<Designator<'a>>, int)>
    decreases room(tokens, from), 3nat, 1nat,
{
    designator_list_rest_rule(tokens, from, names, left)
}

/// What [`designator_list_rest`] gives, written out.
#[verifier::opaque]
pub open spec fn designator_list_rest_rule<'a>(
    tokens: Seq<Token<'a>>,
    from: Option<int>,
    names: Seq<&'a str>,
    left: List<Designator<'a>>,
) -> Option<(List<Designator<'a>>, int)>
    decreases room(tokens, from), 3nat, 0nat,
{
    if kind_of(tokens, from) is None {
        None
    } else {
        let a = forward(tokens, from, designator_at(tokens, from, names));
        if a is Some {
            designator_list_rest(
                tokens,
                end(a),
                names,
                List { at: left.at, kind: ListKind::Cons(Box::new(left), Box::new(node(a))) },
            )
        } else {
            finish(from, left)
        }
    }
}

/// A constant expression in brackets, or a period and a member name.
pub open spec fn designator_at<'a>(
    tokens: Seq<Token<'a>>,
    from: Option<int>,
    names: Seq<&'a str>,
) -> Option<(Designator<'a>, int)>
    decreases room(tokens, from), 2nat, 1nat,
{
    designator_rule(tokens, from, names)
}

/// What [`designator_at`] gives, written out.
#[verifier::opaque]
pub open spec fn designator_rule<'a>(
    tokens: Seq<Token<'a>>,
    from: Option<int>,
    names: Seq<&'a str>,
) -> Option<(Designator<'a>, int)>
    decreases room(tokens, from), 2nat, 0nat,
{
    if kind_of(tokens, from) is None {
        None
    } else {
        let at = place(tokens, from);
        if is_at(tokens, from, TokenKind::OpenBracket) {
            let a = forward(
                tokens,
                behind(from),
                constant_expression_at(tokens, behind(from), names),
            );
            let b = take(tokens, end(a), TokenKind::CloseBracket);
            finish(
                end(b),
                Designator {
                    at,
                    kind: DesignatorKind::InBrackets {
                        open_bracket: at,
                        value: node(a),
                        close_bracket: node(b),
                    },
                },
            )
        } else {
            let a = take(tokens, from, TokenKind::Period);
            let b = take_identifier(tokens, end(a));
            finish(
                end(b),
                Designator { at, kind: DesignatorKind::AfterPeriod { period: node(a), name: node(b) } },
            )
        }
    }
}

/// A string literal at `from`.
pub open spec fn string_literal_at<'a>(tokens: Seq<Token<'a>>, from: Option<int>) -> Option<
    (StringLiteral<'a>, int),
> {
    match kind_of(tokens, from) {
        Some(TokenKind::String(literal, encoding)) => finish(
            behind(from),
            StringLiteral { at: place(tokens, from), literal, encoding },
        ),
        _ => None,
    }
}

/// `static_assert`, in parentheses the condition and, behind a comma, the
/// message if there is one, and a semicolon.
pub open spec fn static_assert_declaration_at<'a>(
    tokens: Seq<Token<'a>>,
    from: Option<int>,
    names: Seq<&'a str>,
) -> Option<(StaticAssertDeclaration<'a>, int)>
    decreases room(tokens, from), 2nat, 1nat,
{
    static_assert_declaration_rule(tokens, from, names)
}

/// What [`static_assert_declaration_at`] gives, written out.
#[verifier::opaque]
pub open spec fn static_assert_declaration_rule<'a>(
    tokens: Seq<Token<'a>>,
    from: Option<int>,
    names: Seq<&'a str>,
) -> Option<(StaticAssertDeclaration<'a>, int)>
    decreases room(tokens, from), 2nat, 0nat,
{
    if kind_of(tokens, from) is None {
        None
    } else {
        let a = take(tokens, from, TokenKind::StaticAssert);
        let b = take(tokens, end(a), TokenKind::OpenParenthesis);
        let c = forward(tokens, end(b), constant_expression_at(tokens, end(b), names));
        let message = if is_at(tokens, end(c), TokenKind::Comma) {
            let m = string_literal_at(tokens, behind(end(c)));
            finish(end(m), Some((place(tokens, end(c)), node(m))))
        } else {
            finish(end(c), None)
        };
        let d = take(tokens, end(message), TokenKind::CloseParenthesis);
        let e = take(tokens, end(d), TokenKind::Semicolon);
        finish(
            end(e),
            StaticAssertDeclaration {
                at: place(tokens, from),
                static_assert_keyword: node(a),
                open_parenthesis: node(b),
                condition: node(c),
                message: node(message),
                close_parenthesis: node(d),
                semicolon: node(e),
            },
        )
    }
}

/// The external declarations of a file: as many as are there, and at
/// least one. Each is read with the typedef names of those in front of
/// it declared.
pub open spec fn translation_unit_at<'a>(
    tokens: Seq<Token<'a>>,
    from: Option<int>,
    names: Seq<&'a str>,
) -> Option<(List<ExternalDeclaration<'a>>, int)>
    decreases room(tokens, from), 93nat, 1nat,
{
    translation_unit_rule(tokens, from, names)
}

/// What [`translation_unit_at`] gives, written out.
#[verifier::opaque]
pub open spec fn translation_unit_rule<'a>(
    tokens: Seq<Token<'a>>,
    from: Option<int>,
    names: Seq<&'a str>,
) -> Option<(List<ExternalDeclaration<'a>>, int)>
    decreases room(tokens, from), 93nat, 0nat,
{
    if kind_of(tokens, from) is None {
        None
    } else {
        let a = forward(tokens, from, external_declaration_at(tokens, from, names));
        if a is Some {
            translation_unit_rest(
                tokens,
                end(a),
                names,
                List { at: place(tokens, from), kind: ListKind::Leaf(Box::new(node(a))) },
            )
        } else {
            None
        }
    }
}

pub open spec fn translation_unit_rest<'a>(
    tokens: Seq<Token<'a>>,
    from: Option<int>,
    names: Seq<&'a str>,
    left: List<ExternalDeclaration<'a>>,
) -> Option<(List<ExternalDeclaration<'a>>, int)>
    decreases room(tokens, from), 93nat, 1nat,
{
    translation_unit_rest_rule(tokens, from, names, left)
}

/// What [`translation_unit_rest`] gives, written out.
#[verifier::opaque]
pub open spec fn translation_unit_rest_rule<'a>(
    tokens: Seq<Token<'a>>,
    from: Option<int>,
    names: Seq<&'a str>,
    left: List<ExternalDeclaration<'a>>,
) -> Option<(List<ExternalDeclaration<'a>>, int)>
    decreases room(tokens, from), 93nat, 0nat,
{
    if kind_of(tokens, from) is None {
        None
    } else {
        let a = forward(
            tokens,
            from,
            external_declaration_at(tokens, from, names + left.typedef_names()),
        );
        if a is Some {
            translation_unit_rest(
                tokens,
                end(a),
                names,
                List { at: left.at, kind: ListKind::Cons(Box::new(left), Box::new(node(a))) },
            )
        } else {
            finish(from, left)
        }
    }
}

/// A function definition, or else a declaration.
pub open spec fn external_declaration_at<'a>(
    tokens: Seq<Token<'a>>,
    from: Option<int>,
    names: Seq<&'a str>,
) -> Option<(ExternalDeclaration<'a>, int)>
    decreases room(tokens, from), 92nat, 1nat,
{
    external_declaration_rule(tokens, from, names)
}

/// What [`external_declaration_at`] gives, written out.
#[verifier::opaque]
pub open spec fn external_declaration_rule<'a>(
    tokens: Seq<Token<'a>>,
    from: Option<int>,
    names: Seq<&'a str>,
) -> Option<(ExternalDeclaration<'a>, int)>
    decreases room(tokens, from), 92nat, 0nat,
{
    if kind_of(tokens, from) is None {
        None
    } else {
        let a = forward(tokens, from, function_definition_at(tokens, from, names));
        let b = forward(tokens, from, declaration_at(tokens, from, names));
        if a is Some {
            finish(
                end(a),
                ExternalDeclaration {
                    at: place(tokens, from),
                    kind: ExternalDeclarationKind::Function(node(a)),
                },
            )
        } else {
            finish(
                end(b),
                ExternalDeclaration {
                    at: place(tokens, from),
                    kind: ExternalDeclarationKind::Declaration(node(b)),
                },
            )
        }
    }
}

/// The specifiers, the declarator and the body of a function.
pub open spec fn function_definition_at<'a>(
    tokens: Seq<Token<'a>>,
    from: Option<int>,
    names: Seq<&'a str>,
) -> Option<(FunctionDefinition<'a>, int)>
    decreases room(tokens, from), 91nat, 1nat,
{
    function_definition_rule(tokens, from, names)
}

/// What [`function_definition_at`] gives, written out.
#[verifier::opaque]
pub open spec fn function_definition_rule<'a>(
    tokens: Seq<Token<'a>>,
    from: Option<int>,
    names: Seq<&'a str>,
) -> Option<(FunctionDefinition<'a>, int)>
    decreases room(tokens, from), 91nat, 0nat,
{
    if kind_of(tokens, from) is None {
        None
    } else {
        let a = forward(tokens, from, declaration_specifiers_at(tokens, from, names));
        let b = forward(tokens, end(a), declarator_at(tokens, end(a), names, false));
        let c = forward(tokens, end(b), compound_statement_at(tokens, end(b), names));
        finish(
            end(c),
            FunctionDefinition {
                at: place(tokens, from),
                attributes: None,
                specifiers: node(a),
                declarator: node(b),
                body: node(c),
            },
        )
    }
}

} // verus!
