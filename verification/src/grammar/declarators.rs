//! The rules for declarators, abstract declarators and parameters.

use crate::ast::{
    AbstractDeclarator, ArrayAbstractDeclarator, ArrayAbstractDeclaratorKind, ArrayDeclarator,
    ArrayDeclaratorKind, CommaList, CommaListKind, Declarator, DirectAbstractDeclarator,
    DirectAbstractDeclaratorKind, DirectDeclarator, DirectDeclaratorKind,
    FunctionAbstractDeclarator, FunctionDeclarator, ParameterDeclaration,
    ParameterDeclarationKind, ParameterTypeList, Pointer,
};
use crate::grammar::declarations::declaration_specifiers_at;
use crate::grammar::expressions::assignment_expression_at;
use crate::grammar::types::type_qualifier_list_at;
use crate::grammar::{
    behind, end, finish, forward, is_at, kind_of, maybe, node, onward, place, room, take,
    take_identifier,
};
use crate::scope::extended;
use crate::token::{Token, TokenKind};
use vstd::prelude::*;

verus! {

/// The value in a box, where there is one.
pub open spec fn boxed<T>(value: Option<T>) -> Option<Box<T>> {
    match value {
        Some(v) => Some(Box::new(v)),
        None => None,
    }
}

/// A pointer, if there is one, and a direct declarator.
pub open spec fn declarator_at<'a>(
    tokens: Seq<Token<'a>>,
    from: Option<int>,
    names: Seq<&'a str>,
    is_typedef: bool,
) -> Option<(Declarator<'a>, int)>
    decreases room(tokens, from), 64nat, 1nat,
{
    declarator_rule(tokens, from, names, is_typedef)
}

/// What [`declarator_at`] gives, written out.
#[verifier::opaque]
pub open spec fn declarator_rule<'a>(
    tokens: Seq<Token<'a>>,
    from: Option<int>,
    names: Seq<&'a str>,
    is_typedef: bool,
) -> Option<(Declarator<'a>, int)>
    decreases room(tokens, from), 64nat, 0nat,
{
    if kind_of(tokens, from) is None {
        None
    } else {
        let a = maybe(from, forward(tokens, from, pointer_at(tokens, from)));
        let b = forward(tokens, a.1, direct_declarator_at(tokens, a.1, names, is_typedef));
        finish(end(b), Declarator { at: place(tokens, from), pointer: a.0, direct: node(b) })
    }
}

/// A name or a declarator in parentheses, and the brackets and parameter
/// lists behind it.
pub open spec fn direct_declarator_at<'a>(
    tokens: Seq<Token<'a>>,
    from: Option<int>,
    names: Seq<&'a str>,
    is_typedef: bool,
) -> Option<(DirectDeclarator<'a>, int)>
    decreases room(tokens, from), 63nat, 1nat,
{
    direct_declarator_rule(tokens, from, names, is_typedef)
}

/// What [`direct_declarator_at`] gives, written out.
#[verifier::opaque]
pub open spec fn direct_declarator_rule<'a>(
    tokens: Seq<Token<'a>>,
    from: Option<int>,
    names: Seq<&'a str>,
    is_typedef: bool,
) -> Option<(DirectDeclarator<'a>, int)>
    decreases room(tokens, from), 63nat, 0nat,
{
    if kind_of(tokens, from) is None {
        None
    } else {
        let a = forward(tokens, from, direct_declarator_leaf_at(tokens, from, names, is_typedef));
        if a is Some {
            direct_declarator_rest(tokens, end(a), names, is_typedef, node(a))
        } else {
            None
        }
    }
}

/// The brackets and parameter lists behind the declarator `left`: as
/// many as are there. They are read with the name of the declarator
/// declared, where it is one of a `typedef`.
pub open spec fn direct_declarator_rest<'a>(
    tokens: Seq<Token<'a>>,
    from: Option<int>,
    names: Seq<&'a str>,
    is_typedef: bool,
    left: DirectDeclarator<'a>,
) -> Option<(DirectDeclarator<'a>, int)>
    decreases room(tokens, from), 63nat, 1nat,
{
    direct_declarator_rest_rule(tokens, from, names, is_typedef, left)
}

/// What [`direct_declarator_rest`] gives, written out.
#[verifier::opaque]
pub open spec fn direct_declarator_rest_rule<'a>(
    tokens: Seq<Token<'a>>,
    from: Option<int>,
    names: Seq<&'a str>,
    is_typedef: bool,
    left: DirectDeclarator<'a>,
) -> Option<(DirectDeclarator<'a>, int)>
    decreases room(tokens, from), 63nat, 0nat,
{
    if kind_of(tokens, from) is None {
        None
    } else {
        let inner = extended(names, is_typedef, left.name());
        match kind_of(tokens, from) {
            Some(TokenKind::OpenBracket) => {
                let a = forward(tokens, from, array_declarator_at(tokens, from, inner, left));
                if a is Some {
                    direct_declarator_rest(tokens, end(a), names, is_typedef, node(a))
                } else {
                    None
                }
            },
            Some(TokenKind::OpenParenthesis) => {
                let a = forward(tokens, from, function_declarator_at(tokens, from, inner, left));
                if a is Some {
                    direct_declarator_rest(tokens, end(a), names, is_typedef, node(a))
                } else {
                    None
                }
            },
            _ => finish(from, left),
        }
    }
}

/// A declarator in parentheses, or the name that is declared.
pub open spec fn direct_declarator_leaf_at<'a>(
    tokens: Seq<Token<'a>>,
    from: Option<int>,
    names: Seq<&'a str>,
    is_typedef: bool,
) -> Option<(DirectDeclarator<'a>, int)>
    decreases room(tokens, from), 62nat, 1nat,
{
    direct_declarator_leaf_rule(tokens, from, names, is_typedef)
}

/// What [`direct_declarator_leaf_at`] gives, written out.
#[verifier::opaque]
pub open spec fn direct_declarator_leaf_rule<'a>(
    tokens: Seq<Token<'a>>,
    from: Option<int>,
    names: Seq<&'a str>,
    is_typedef: bool,
) -> Option<(DirectDeclarator<'a>, int)>
    decreases room(tokens, from), 62nat, 0nat,
{
    if kind_of(tokens, from) is None {
        None
    } else {
        let at = place(tokens, from);
        if is_at(tokens, from, TokenKind::OpenParenthesis) {
            let a = forward(
                tokens,
                behind(from),
                declarator_at(tokens, behind(from), names, is_typedef),
            );
            let b = take(tokens, end(a), TokenKind::CloseParenthesis);
            finish(
                end(b),
                DirectDeclarator {
                    at,
                    kind: DirectDeclaratorKind::Parenthesized {
                        open_parenthesis: at,
                        inner: Box::new(node(a)),
                        close_parenthesis: node(b),
                    },
                },
            )
        } else {
            let a = take_identifier(tokens, from);
            finish(end(a), DirectDeclarator { at, kind: DirectDeclaratorKind::Name(node(a), None) })
        }
    }
}

/// The brackets of an array declarator at `from`, behind the declarator
/// `left`. Between them stand `static`, qualifiers and a size; qualifiers,
/// `static` and a size; qualifiers and `*`; or qualifiers and a size, of
/// which each may be missing.
pub open spec fn array_declarator_at<'a>(
    tokens: Seq<Token<'a>>,
    from: Option<int>,
    names: Seq<&'a str>,
    left: DirectDeclarator<'a>,
) -> Option<(DirectDeclarator<'a>, int)>
    decreases room(tokens, from), 2nat, 1nat,
{
    array_declarator_rule(tokens, from, names, left)
}

/// What [`array_declarator_at`] gives, written out.
#[verifier::opaque]
pub open spec fn array_declarator_rule<'a>(
    tokens: Seq<Token<'a>>,
    from: Option<int>,
    names: Seq<&'a str>,
    left: DirectDeclarator<'a>,
) -> Option<(DirectDeclarator<'a>, int)>
    decreases room(tokens, from), 2nat, 0nat,
{
    if kind_of(tokens, from) is None {
        None
    } else {
        let at = place(tokens, from);
        let a = take(tokens, from, TokenKind::OpenBracket);
        let array = if is_at(tokens, end(a), TokenKind::Static) {
            let q = maybe(
                behind(end(a)),
                forward(tokens, behind(end(a)), type_qualifier_list_at(tokens, behind(end(a)))),
            );
            let s = forward(tokens, q.1, assignment_expression_at(tokens, q.1, names));
            let c = take(tokens, end(s), TokenKind::CloseBracket);
            finish(
                end(c),
                ArrayDeclarator {
                    at,
                    left: Box::new(left),
                    open_bracket: node(a),
                    qualifiers: q.0,
                    kind: ArrayDeclaratorKind::Normal {
                        static_keyword: Some(place(tokens, end(a))),
                        size: Some(node(s)),
                    },
                    close_bracket: node(c),
                },
            )
        } else {
            let q = maybe(end(a), forward(tokens, end(a), type_qualifier_list_at(tokens, end(a))));
            if q.0 is Some && is_at(tokens, q.1, TokenKind::Static) {
                let s = forward(
                    tokens,
                    behind(q.1),
                    assignment_expression_at(tokens, behind(q.1), names),
                );
                let c = take(tokens, end(s), TokenKind::CloseBracket);
                finish(
                    end(c),
                    ArrayDeclarator {
                        at,
                        left: Box::new(left),
                        open_bracket: node(a),
                        qualifiers: q.0,
                        kind: ArrayDeclaratorKind::Normal {
                            static_keyword: Some(place(tokens, q.1)),
                            size: Some(node(s)),
                        },
                        close_bracket: node(c),
                    },
                )
            } else if is_at(tokens, q.1, TokenKind::Asterisk) {
                let c = take(tokens, behind(q.1), TokenKind::CloseBracket);
                finish(
                    end(c),
                    ArrayDeclarator {
                        at,
                        left: Box::new(left),
                        open_bracket: node(a),
                        qualifiers: q.0,
                        kind: ArrayDeclaratorKind::Var { asterisk: place(tokens, q.1) },
                        close_bracket: node(c),
                    },
                )
            } else {
                let s = maybe(
                    q.1,
                    forward(tokens, q.1, assignment_expression_at(tokens, q.1, names)),
                );
                let c = take(tokens, s.1, TokenKind::CloseBracket);
                finish(
                    end(c),
                    ArrayDeclarator {
                        at,
                        left: Box::new(left),
                        open_bracket: node(a),
                        qualifiers: q.0,
                        kind: ArrayDeclaratorKind::Normal { static_keyword: None, size: s.0 },
                        close_bracket: node(c),
                    },
                )
            }
        };
        finish(end(array), DirectDeclarator { at, kind: DirectDeclaratorKind::Array(node(array), None) })
    }
}

/// The parameter list of a function declarator at `from`, behind the
/// declarator `left`.
pub open spec fn function_declarator_at<'a>(
    tokens: Seq<Token<'a>>,
    from: Option<int>,
    names: Seq<&'a str>,
    left: DirectDeclarator<'a>,
) -> Option<(DirectDeclarator<'a>, int)>
    decreases room(tokens, from), 2nat, 1nat,
{
    function_declarator_rule(tokens, from, names, left)
}

/// What [`function_declarator_at`] gives, written out.
#[verifier::opaque]
pub open spec fn function_declarator_rule<'a>(
    tokens: Seq<Token<'a>>,
    from: Option<int>,
    names: Seq<&'a str>,
    left: DirectDeclarator<'a>,
) -> Option<(DirectDeclarator<'a>, int)>
    decreases room(tokens, from), 2nat, 0nat,
{
    if kind_of(tokens, from) is None {
        None
    } else {
        let at = place(tokens, from);
        let a = take(tokens, from, TokenKind::OpenParenthesis);
        let b = onward(tokens, end(a), parameter_type_list_at(tokens, end(a), names));
        let c = take(tokens, end(b), TokenKind::CloseParenthesis);
        finish(
            end(c),
            DirectDeclarator {
                at,
                kind: DirectDeclaratorKind::Function(
                    FunctionDeclarator {
                        at,
                        left: Box::new(left),
                        open_parenthesis: node(a),
                        parameters: Some(node(b)),
                        close_parenthesis: node(c),
                    },
                    None,
                ),
            },
        )
    }
}

/// `*` with its qualifiers, and the pointer behind it if there is one.
pub open spec fn pointer_at<'a>(tokens: Seq<Token<'a>>, from: Option<int>) -> Option<
    (Pointer<'a>, int),
>
    decreases room(tokens, from),
{
    if kind_of(tokens, from) is None {
        None
    } else {
        let a = take(tokens, from, TokenKind::Asterisk);
        let q = maybe(end(a), forward(tokens, end(a), type_qualifier_list_at(tokens, end(a))));
        let r = maybe(q.1, forward(tokens, q.1, pointer_at(tokens, q.1)));
        if a is Some {
            finish(
                r.1,
                Pointer {
                    at: place(tokens, from),
                    asterisk: node(a),
                    attributes: None,
                    qualifiers: q.0,
                    right: boxed(r.0),
                },
            )
        } else {
            None
        }
    }
}

/// The parameters of a function: the declared ones, then `...` alone or
/// after a comma. Every part may be missing, so something is read from
/// every position at which a token stands, if only nothing.
pub open spec fn parameter_type_list_at<'a>(
    tokens: Seq<Token<'a>>,
    from: Option<int>,
    names: Seq<&'a str>,
) -> Option<(ParameterTypeList<'a>, int)>
    decreases room(tokens, from), 67nat, 1nat,
{
    parameter_type_list_rule(tokens, from, names)
}

/// What [`parameter_type_list_at`] gives, written out.
#[verifier::opaque]
pub open spec fn parameter_type_list_rule<'a>(
    tokens: Seq<Token<'a>>,
    from: Option<int>,
    names: Seq<&'a str>,
) -> Option<(ParameterTypeList<'a>, int)>
    decreases room(tokens, from), 67nat, 0nat,
{
    if kind_of(tokens, from) is None {
        None
    } else {
        let a = maybe(from, forward(tokens, from, parameter_list_at(tokens, from, names)));
        let comma = if a.0 is Some {
            maybe(a.1, take(tokens, a.1, TokenKind::Comma))
        } else {
            (None, a.1)
        };
        let ellipses = if a.0 is None || comma.0 is Some {
            maybe(comma.1, take(tokens, comma.1, TokenKind::Ellipses))
        } else {
            (None, comma.1)
        };
        if kind_of(tokens, from) is Some {
            finish(
                ellipses.1,
                ParameterTypeList {
                    at: place(tokens, from),
                    parameters: match a.0 {
                        Some(list) => Some((list, comma.0)),
                        None => None,
                    },
                    ellipses: ellipses.0,
                },
            )
        } else {
            None
        }
    }
}

/// One or more parameter declarations with commas between them.
pub open spec fn parameter_list_at<'a>(
    tokens: Seq<Token<'a>>,
    from: Option<int>,
    names: Seq<&'a str>,
) -> Option<(CommaList<ParameterDeclaration<'a>>, int)>
    decreases room(tokens, from), 66nat, 1nat,
{
    parameter_list_rule(tokens, from, names)
}

/// What [`parameter_list_at`] gives, written out.
#[verifier::opaque]
pub open spec fn parameter_list_rule<'a>(
    tokens: Seq<Token<'a>>,
    from: Option<int>,
    names: Seq<&'a str>,
) -> Option<(CommaList<ParameterDeclaration<'a>>, int)>
    decreases room(tokens, from), 66nat, 0nat,
{
    if kind_of(tokens, from) is None {
        None
    } else {
        let a = forward(tokens, from, parameter_declaration_at(tokens, from, names));
        if a is Some {
            parameter_list_rest(
                tokens,
                end(a),
                names,
                CommaList { at: place(tokens, from), kind: CommaListKind::Leaf(Box::new(node(a))) },
            )
        } else {
            None
        }
    }
}

pub open spec fn parameter_list_rest<'a>(
    tokens: Seq<Token<'a>>,
    from: Option<int>,
    names: Seq<&'a str>,
    left: CommaList<ParameterDeclaration<'a>>,
) -> Option<(CommaList<ParameterDeclaration<'a>>, int)>
    decreases room(tokens, from), 66nat, 1nat,
{
    parameter_list_rest_rule(tokens, from, names, left)
}

/// What [`parameter_list_rest`] gives, written out.
#[verifier::opaque]
pub open spec fn parameter_list_rest_rule<'a>(
    tokens: Seq<Token<'a>>,
    from: Option<int>,
    names: Seq<&'a str>,
    left: CommaList<ParameterDeclaration<'a>>,
) -> Option<(CommaList<ParameterDeclaration<'a>>, int)>
    decreases room(tokens, from), 66nat, 0nat,
{
    if kind_of(tokens, from) is None {
        None
    } else {
        let a = forward(tokens, behind(from), parameter_declaration_at(tokens, behind(from), names));
        if is_at(tokens, from, TokenKind::Comma) && a is Some {
            parameter_list_rest(
                tokens,
                end(a),
                names,
                CommaList {
                    at: left.at,
                    kind: CommaListKind::Cons {
                        left: Box::new(left),
                        comma: place(tokens, from),
                        right: Box::new(node(a)),
                    },
                },
            )
        } else {
            finish(from, left)
        }
    }
}

/// The specifiers of a parameter, then a declarator, or else an abstract
/// declarator or nothing.
pub open spec fn parameter_declaration_at<'a>(
    tokens: Seq<Token<'a>>,
    from: Option<int>,
    names: Seq<&'a str>,
) -> Option<(ParameterDeclaration<'a>, int)>
    decreases room(tokens, from), 65nat, 1nat,
{
    parameter_declaration_rule(tokens, from, names)
}

/// What [`parameter_declaration_at`] gives, written out.
#[verifier::opaque]
pub open spec fn parameter_declaration_rule<'a>(
    tokens: Seq<Token<'a>>,
    from: Option<int>,
    names: Seq<&'a str>,
) -> Option<(ParameterDeclaration<'a>, int)>
    decreases room(tokens, from), 65nat, 0nat,
{
    if kind_of(tokens, from) is None {
        None
    } else {
        let a = forward(tokens, from, declaration_specifiers_at(tokens, from, names));
        let b = forward(tokens, end(a), declarator_at(tokens, end(a), names, false));
        let c = maybe(end(a), forward(tokens, end(a), abstract_declarator_at(tokens, end(a), names)));
        if b is Some {
            finish(
                end(b),
                ParameterDeclaration {
                    at: place(tokens, from),
                    attributes: None,
                    specifiers: node(a),
                    kind: ParameterDeclarationKind::Concrete(node(b)),
                },
            )
        } else {
            finish(
                c.1,
                ParameterDeclaration {
                    at: place(tokens, from),
                    attributes: None,
                    specifiers: node(a),
                    kind: ParameterDeclarationKind::Abstract(c.0),
                },
            )
        }
    }
}

/// A pointer, a direct abstract declarator, or both.
pub open spec fn abstract_declarator_at<'a>(
    tokens: Seq<Token<'a>>,
    from: Option<int>,
    names: Seq<&'a str>,
) -> Option<(AbstractDeclarator<'a>, int)>
    decreases room(tokens, from), 70nat, 1nat,
{
    abstract_declarator_rule(tokens, from, names)
}

/// What [`abstract_declarator_at`] gives, written out.
#[verifier::opaque]
pub open spec fn abstract_declarator_rule<'a>(
    tokens: Seq<Token<'a>>,
    from: Option<int>,
    names: Seq<&'a str>,
) -> Option<(AbstractDeclarator<'a>, int)>
    decreases room(tokens, from), 70nat, 0nat,
{
    if kind_of(tokens, from) is None {
        None
    } else {
        let a = maybe(from, forward(tokens, from, pointer_at(tokens, from)));
        let b = forward(tokens, a.1, direct_abstract_declarator_at(tokens, a.1, names));
        if a.0 is None {
            finish(
                end(b),
                AbstractDeclarator { at: place(tokens, from), pointer: None, direct: Some(node(b)) },
            )
        } else {
            let c = maybe(a.1, b);
            finish(c.1, AbstractDeclarator { at: place(tokens, from), pointer: a.0, direct: c.0 })
        }
    }
}

/// An abstract declarator in parentheses.
pub open spec fn parenthesized_abstract_declarator_at<'a>(
    tokens: Seq<Token<'a>>,
    from: Option<int>,
    names: Seq<&'a str>,
) -> Option<(DirectAbstractDeclarator<'a>, int)>
    decreases room(tokens, from), 2nat, 1nat,
{
    parenthesized_abstract_declarator_rule(tokens, from, names)
}

/// What [`parenthesized_abstract_declarator_at`] gives, written out.
#[verifier::opaque]
pub open spec fn parenthesized_abstract_declarator_rule<'a>(
    tokens: Seq<Token<'a>>,
    from: Option<int>,
    names: Seq<&'a str>,
) -> Option<(DirectAbstractDeclarator<'a>, int)>
    decreases room(tokens, from), 2nat, 0nat,
{
    if kind_of(tokens, from) is None {
        None
    } else {
        let a = take(tokens, from, TokenKind::OpenParenthesis);
        let b = forward(tokens, end(a), abstract_declarator_at(tokens, end(a), names));
        let c = take(tokens, end(b), TokenKind::CloseParenthesis);
        finish(
            end(c),
            DirectAbstractDeclarator {
                at: place(tokens, from),
                kind: DirectAbstractDeclaratorKind::Parenthesized {
                    open_parenthesis: node(a),
                    inner: Box::new(node(b)),
                    close_parenthesis: node(c),
                },
            },
        )
    }
}

/// An abstract declarator in parentheses, if there is one, and the
/// brackets and parameter lists behind it; at least one of these.
pub open spec fn direct_abstract_declarator_at<'a>(
    tokens: Seq<Token<'a>>,
    from: Option<int>,
    names: Seq<&'a str>,
) -> Option<(DirectAbstractDeclarator<'a>, int)>
    decreases room(tokens, from), 69nat, 1nat,
{
    direct_abstract_declarator_rule(tokens, from, names)
}

/// What [`direct_abstract_declarator_at`] gives, written out.
#[verifier::opaque]
pub open spec fn direct_abstract_declarator_rule<'a>(
    tokens: Seq<Token<'a>>,
    from: Option<int>,
    names: Seq<&'a str>,
) -> Option<(DirectAbstractDeclarator<'a>, int)>
    decreases room(tokens, from), 69nat, 0nat,
{
    if kind_of(tokens, from) is None {
        None
    } else {
        let a = maybe(
            from,
            forward(tokens, from, parenthesized_abstract_declarator_at(tokens, from, names)),
        );
        direct_abstract_declarator_rest(tokens, a.1, names, a.0)
    }
}

/// The brackets and parameter lists behind the abstract declarator
/// `left`: as many as are there.
pub open spec fn direct_abstract_declarator_rest<'a>(
    tokens: Seq<Token<'a>>,
    from: Option<int>,
    names: Seq<&'a str>,
    left: Option<DirectAbstractDeclarator<'a>>,
) -> Option<(DirectAbstractDeclarator<'a>, int)>
    decreases room(tokens, from), 68nat, 1nat,
{
    direct_abstract_declarator_rest_rule(tokens, from, names, left)
}

/// What [`direct_abstract_declarator_rest`] gives, written out.
#[verifier::opaque]
pub open spec fn direct_abstract_declarator_rest_rule<'a>(
    tokens: Seq<Token<'a>>,
    from: Option<int>,
    names: Seq<&'a str>,
    left: Option<DirectAbstractDeclarator<'a>>,
) -> Option<(DirectAbstractDeclarator<'a>, int)>
    decreases room(tokens, from), 68nat, 0nat,
{
    if kind_of(tokens, from) is None {
        None
    } else {
        match kind_of(tokens, from) {
            Some(TokenKind::OpenBracket) => {
                let a = forward(tokens, from, array_abstract_declarator_at(tokens, from, names, left));
                if a is Some {
                    direct_abstract_declarator_rest(tokens, end(a), names, Some(node(a)))
                } else {
                    None
                }
            },
            Some(TokenKind::OpenParenthesis) => {
                let a = forward(
                    tokens,
                    from,
                    function_abstract_declarator_at(tokens, from, names, left),
                );
                if a is Some {
                    direct_abstract_declarator_rest(tokens, end(a), names, Some(node(a)))
                } else {
                    None
                }
            },
            Some(_) => match left {
                Some(left) => finish(from, left),
                None => None,
            },
            None => None,
        }
    }
}

/// The brackets of an abstract array declarator at `from`, behind the
/// declarator `left` if there is one.
pub open spec fn array_abstract_declarator_at<'a>(
    tokens: Seq<Token<'a>>,
    from: Option<int>,
    names: Seq<&'a str>,
    left: Option<DirectAbstractDeclarator<'a>>,
) -> Option<(DirectAbstractDeclarator<'a>, int)>
    decreases room(tokens, from), 2nat, 1nat,
{
    array_abstract_declarator_rule(tokens, from, names, left)
}

/// What [`array_abstract_declarator_at`] gives, written out.
#[verifier::opaque]
pub open spec fn array_abstract_declarator_rule<'a>(
    tokens: Seq<Token<'a>>,
    from: Option<int>,
    names: Seq<&'a str>,
    left: Option<DirectAbstractDeclarator<'a>>,
) -> Option<(DirectAbstractDeclarator<'a>, int)>
    decreases room(tokens, from), 2nat, 0nat,
{
    if kind_of(tokens, from) is None {
        None
    } else {
        let at = place(tokens, from);
        let a = take(tokens, from, TokenKind::OpenBracket);
        let kind = if is_at(tokens, end(a), TokenKind::Static) {
            let q = maybe(
                behind(end(a)),
                forward(tokens, behind(end(a)), type_qualifier_list_at(tokens, behind(end(a)))),
            );
            let s = forward(tokens, q.1, assignment_expression_at(tokens, q.1, names));
            finish(
                end(s),
                ArrayAbstractDeclaratorKind::Normal {
                    qualifiers: q.0,
                    static_keyword: Some(place(tokens, end(a))),
                    size: Some(Box::new(node(s))),
                },
            )
        } else if is_at(tokens, end(a), TokenKind::Asterisk) {
            finish(
                behind(end(a)),
                ArrayAbstractDeclaratorKind::Var { asterisk: place(tokens, end(a)) },
            )
        } else {
            let q = maybe(end(a), forward(tokens, end(a), type_qualifier_list_at(tokens, end(a))));
            if q.0 is Some && is_at(tokens, q.1, TokenKind::Static) {
                let s = forward(
                    tokens,
                    behind(q.1),
                    assignment_expression_at(tokens, behind(q.1), names),
                );
                finish(
                    end(s),
                    ArrayAbstractDeclaratorKind::Normal {
                        qualifiers: q.0,
                        static_keyword: Some(place(tokens, q.1)),
                        size: Some(Box::new(node(s))),
                    },
                )
            } else {
                let s = maybe(
                    q.1,
                    forward(tokens, q.1, assignment_expression_at(tokens, q.1, names)),
                );
                finish(
                    s.1,
                    ArrayAbstractDeclaratorKind::Normal {
                        qualifiers: q.0,
                        static_keyword: None,
                        size: boxed(s.0),
                    },
                )
            }
        };
        let c = take(tokens, end(kind), TokenKind::CloseBracket);
        finish(
            end(c),
            DirectAbstractDeclarator {
                at,
                kind: DirectAbstractDeclaratorKind::Array(
                    ArrayAbstractDeclarator {
                        at,
                        left: boxed(left),
                        open_bracket: node(a),
                        kind: node(kind),
                        close_bracket: node(c),
                    },
                    None,
                ),
            },
        )
    }
}

/// The parameter list of an abstract function declarator at `from`,
/// behind the declarator `left` if there is one.
pub open spec fn function_abstract_declarator_at<'a>(
    tokens: Seq<Token<'a>>,
    from: Option<int>,
    names: Seq<&'a str>,
    left: Option<DirectAbstractDeclarator<'a>>,
) -> Option<(DirectAbstractDeclarator<'a>, int)>
    decreases room(tokens, from), 2nat, 1nat,
{
    function_abstract_declarator_rule(tokens, from, names, left)
}

/// What [`function_abstract_declarator_at`] gives, written out.
#[verifier::opaque]
pub open spec fn function_abstract_declarator_rule<'a>(
    tokens: Seq<Token<'a>>,
    from: Option<int>,
    names: Seq<&'a str>,
    left: Option<DirectAbstractDeclarator<'a>>,
) -> Option<(DirectAbstractDeclarator<'a>, int)>
    decreases room(tokens, from), 2nat, 0nat,
{
    if kind_of(tokens, from) is None {
        None
    } else {
        let at = place(tokens, from);
        let a = take(tokens, from, TokenKind::OpenParenthesis);
        let b = onward(tokens, end(a), parameter_type_list_at(tokens, end(a), names));
        let c = take(tokens, end(b), TokenKind::CloseParenthesis);
        finish(
            end(c),
            DirectAbstractDeclarator {
                at,
                kind: DirectAbstractDeclaratorKind::Function(
                    FunctionAbstractDeclarator {
                        at,
                        left: boxed(left),
                        open_parenthesis: node(a),
                        parameters: Some(node(b)),
                        close_parenthesis: node(c),
                    },
                    None,
                ),
            },
        )
    }
}

} // verus!
