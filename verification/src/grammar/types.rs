//! The rules for type specifiers, qualifiers and type names.
//!
//! No attribute specifier is ever read, so every place for attributes in
//! a tree is empty.

use crate::ast::{
    AlignmentSpecifier, AlignmentSpecifierKind, AtomicTypeSpecifier, CommaList, CommaListKind,
    EnumSpecifier, EnumTypeSpecifier, Enumerator, FunctionSpecifier, FunctionSpecifierKind, List,
    ListKind, MemberDeclaration, MemberDeclarationKind, MemberDeclarator, SpecifierQualifierList,
    SpecifierQualifierListKind, StorageClassSpecifier, StorageClassSpecifierKind, StructOrUnion,
    StructOrUnionSpecifier, TypeName, TypeQualifier, TypeQualifierKind, TypeSpecifier,
    TypeSpecifierKind, TypeSpecifierQualifier, TypeSpecifierQualifierKind, TypeofSpecifier,
    TypeofSpecifierArgument, TypeofSpecifierArgumentKind,
};
use crate::grammar::declarations::static_assert_declaration_at;
use crate::grammar::declarators::{abstract_declarator_at, declarator_at};
use crate::grammar::expressions::{constant_expression_at, expression_at};
use crate::grammar::{
    behind, end, finish, forward, is_at, kind_of, maybe, node, place, room, take, take_identifier,
};
use crate::scope::declared;
use crate::token::{Token, TokenKind};
use vstd::prelude::*;

verus! {

/// The storage class that the token spells, if it spells one.
pub open spec fn storage_class_of(kind: TokenKind) -> Option<StorageClassSpecifierKind> {
    match kind {
        TokenKind::Auto => Some(StorageClassSpecifierKind::Auto),
        TokenKind::Constexpr => Some(StorageClassSpecifierKind::Constexpr),
        TokenKind::Extern => Some(StorageClassSpecifierKind::Extern),
        TokenKind::Register => Some(StorageClassSpecifierKind::Register),
        TokenKind::Static => Some(StorageClassSpecifierKind::Static),
        TokenKind::ThreadLocal => Some(StorageClassSpecifierKind::ThreadLocal),
        TokenKind::Typedef => Some(StorageClassSpecifierKind::Typedef),
        _ => None,
    }
}

/// The type qualifier that the token spells, if it spells one.
pub open spec fn type_qualifier_of(kind: TokenKind) -> Option<TypeQualifierKind> {
    match kind {
        TokenKind::Const => Some(TypeQualifierKind::Const),
        TokenKind::Restrict => Some(TypeQualifierKind::Restrict),
        TokenKind::Volatile => Some(TypeQualifierKind::Volatile),
        TokenKind::Atomic => Some(TypeQualifierKind::Atomic),
        _ => None,
    }
}

/// The function specifier that the token spells, if it spells one.
pub open spec fn function_specifier_of(kind: TokenKind) -> Option<FunctionSpecifierKind> {
    match kind {
        TokenKind::Inline => Some(FunctionSpecifierKind::Inline),
        TokenKind::Noreturn => Some(FunctionSpecifierKind::NoReturn),
        _ => None,
    }
}

/// `struct` or `union`, where the token spells one of them.
pub open spec fn struct_or_union_of(kind: TokenKind) -> Option<StructOrUnion> {
    match kind {
        TokenKind::Struct => Some(StructOrUnion::Struct),
        TokenKind::Union => Some(StructOrUnion::Union),
        _ => None,
    }
}

/// The type specifier that the keyword alone spells, if it spells one.
pub open spec fn keyword_type_of<'a>(kind: TokenKind<'a>) -> Option<TypeSpecifierKind<'a>> {
    match kind {
        TokenKind::Void => Some(TypeSpecifierKind::Void),
        TokenKind::Char => Some(TypeSpecifierKind::Char),
        TokenKind::Short => Some(TypeSpecifierKind::Short),
        TokenKind::Int => Some(TypeSpecifierKind::Int),
        TokenKind::Long => Some(TypeSpecifierKind::Long),
        TokenKind::Float => Some(TypeSpecifierKind::Float),
        TokenKind::Double => Some(TypeSpecifierKind::Double),
        TokenKind::Signed => Some(TypeSpecifierKind::Signed),
        TokenKind::Unsigned => Some(TypeSpecifierKind::Unsigned),
        TokenKind::Bool => Some(TypeSpecifierKind::Bool),
        TokenKind::Complex => Some(TypeSpecifierKind::Complex),
        TokenKind::Decimal32 => Some(TypeSpecifierKind::Decimal32),
        TokenKind::Decimal64 => Some(TypeSpecifierKind::Decimal64),
        TokenKind::Decimal128 => Some(TypeSpecifierKind::Decimal128),
        _ => None,
    }
}

pub open spec fn storage_class_specifier_at(tokens: Seq<Token>, from: Option<int>) -> Option<
    (StorageClassSpecifier, int),
> {
    match kind_of(tokens, from) {
        Some(kind) => match storage_class_of(kind) {
            Some(class) => finish(
                behind(from),
                StorageClassSpecifier { at: place(tokens, from), kind: class },
            ),
            None => None,
        },
        None => None,
    }
}

/// One or more storage class specifiers: as many as are there.
pub open spec fn storage_class_specifiers_at(tokens: Seq<Token>, from: Option<int>) -> Option<
    (List<StorageClassSpecifier>, int),
> {
    let a = storage_class_specifier_at(tokens, from);
    if a is Some {
        storage_class_specifiers_rest(
            tokens,
            end(a),
            List { at: place(tokens, from), kind: ListKind::Leaf(Box::new(node(a))) },
        )
    } else {
        None
    }
}

pub open spec fn storage_class_specifiers_rest(
    tokens: Seq<Token>,
    from: Option<int>,
    left: List<StorageClassSpecifier>,
) -> Option<(List<StorageClassSpecifier>, int)>
    decreases room(tokens, from),
{
    if kind_of(tokens, from) is None {
        None
    } else {
        let a = storage_class_specifier_at(tokens, from);
        if a is Some {
            storage_class_specifiers_rest(
                tokens,
                end(a),
                List { at: left.at, kind: ListKind::Cons(Box::new(left), Box::new(node(a))) },
            )
        } else {
            finish(from, left)
        }
    }
}

pub open spec fn type_qualifier_at(tokens: Seq<Token>, from: Option<int>) -> Option<
    (TypeQualifier, int),
> {
    match kind_of(tokens, from) {
        Some(kind) => match type_qualifier_of(kind) {
            Some(qualifier) => finish(
                behind(from),
                TypeQualifier { at: place(tokens, from), kind: qualifier },
            ),
            None => None,
        },
        None => None,
    }
}

/// One or more type qualifiers: as many as are there.
pub open spec fn type_qualifier_list_at(tokens: Seq<Token>, from: Option<int>) -> Option<
    (List<TypeQualifier>, int),
> {
    let a = type_qualifier_at(tokens, from);
    if a is Some {
        type_qualifier_list_rest(
            tokens,
            end(a),
            List { at: place(tokens, from), kind: ListKind::Leaf(Box::new(node(a))) },
        )
    } else {
        None
    }
}

pub open spec fn type_qualifier_list_rest(
    tokens: Seq<Token>,
    from: Option<int>,
    left: List<TypeQualifier>,
) -> Option<(List<TypeQualifier>, int)>
    decreases room(tokens, from),
{
    if kind_of(tokens, from) is None {
        None
    } else {
        let a = type_qualifier_at(tokens, from);
        if a is Some {
            type_qualifier_list_rest(
                tokens,
                end(a),
                List { at: left.at, kind: ListKind::Cons(Box::new(left), Box::new(node(a))) },
            )
        } else {
            finish(from, left)
        }
    }
}

pub open spec fn function_specifier_at(tokens: Seq<Token>, from: Option<int>) -> Option<
    (FunctionSpecifier, int),
> {
    match kind_of(tokens, from) {
        Some(kind) => match function_specifier_of(kind) {
            Some(specifier) => finish(
                behind(from),
                FunctionSpecifier { at: place(tokens, from), kind: specifier },
            ),
            None => None,
        },
        None => None,
    }
}

/// A type specifier: a keyword, an identifier that is a typedef name in
/// scope, `_BitInt` with its width, or else an atomic, struct or union,
/// enum or typeof specifier.
pub open spec fn type_specifier_at<'a>(
    tokens: Seq<Token<'a>>,
    from: Option<int>,
    names: Seq<&'a str>,
) -> Option<(TypeSpecifier<'a>, int)>
    decreases room(tokens, from), 10nat, 1nat,
{
    type_specifier_rule(tokens, from, names)
}

/// What [`type_specifier_at`] gives, written out.
#[verifier::opaque]
pub open spec fn type_specifier_rule<'a>(
    tokens: Seq<Token<'a>>,
    from: Option<int>,
    names: Seq<&'a str>,
) -> Option<(TypeSpecifier<'a>, int)>
    decreases room(tokens, from), 10nat, 0nat,
{
    if kind_of(tokens, from) is None {
        None
    } else {
        let at = place(tokens, from);
        match kind_of(tokens, from) {
            Some(TokenKind::Identifier(name)) => if declared(names, name) {
                finish(behind(from), TypeSpecifier { at, kind: TypeSpecifierKind::TypedefName(name) })
            } else {
                None
            },
            Some(TokenKind::BitInt) => {
                let a = take(tokens, behind(from), TokenKind::OpenParenthesis);
                let b = forward(tokens, end(a), constant_expression_at(tokens, end(a), names));
                let c = take(tokens, end(b), TokenKind::CloseParenthesis);
                finish(
                    end(c),
                    TypeSpecifier {
                        at,
                        kind: TypeSpecifierKind::BitInt {
                            bitint_keyword: at,
                            open_parenthesis: node(a),
                            width: node(b),
                            close_parenthesis: node(c),
                        },
                    },
                )
            },
            Some(kind) => match keyword_type_of(kind) {
                Some(specifier) => finish(behind(from), TypeSpecifier { at, kind: specifier }),
                None => {
                    let a = forward(tokens, from, atomic_type_specifier_at(tokens, from, names));
                    let b = forward(tokens, from, struct_or_union_specifier_at(tokens, from, names));
                    let c = forward(tokens, from, enum_specifier_at(tokens, from, names));
                    let d = forward(tokens, from, typeof_specifier_at(tokens, from, names));
                    if a is Some {
                        finish(end(a), TypeSpecifier { at, kind: TypeSpecifierKind::Atomic(node(a)) })
                    } else if b is Some {
                        finish(
                            end(b),
                            TypeSpecifier { at, kind: TypeSpecifierKind::StructOrUnion(node(b)) },
                        )
                    } else if c is Some {
                        finish(end(c), TypeSpecifier { at, kind: TypeSpecifierKind::Enum(node(c)) })
                    } else {
                        finish(end(d), TypeSpecifier { at, kind: TypeSpecifierKind::Typeof(node(d)) })
                    }
                },
            },
            None => None,
        }
    }
}

/// `struct` or `union` with a tag, with members in braces, or with both.
pub open spec fn struct_or_union_specifier_at<'a>(
    tokens: Seq<Token<'a>>,
    from: Option<int>,
    names: Seq<&'a str>,
) -> Option<(StructOrUnionSpecifier<'a>, int)>
    decreases room(tokens, from), 2nat, 1nat,
{
    struct_or_union_specifier_rule(tokens, from, names)
}

/// What [`struct_or_union_specifier_at`] gives, written out.
#[verifier::opaque]
pub open spec fn struct_or_union_specifier_rule<'a>(
    tokens: Seq<Token<'a>>,
    from: Option<int>,
    names: Seq<&'a str>,
) -> Option<(StructOrUnionSpecifier<'a>, int)>
    decreases room(tokens, from), 2nat, 0nat,
{
    if kind_of(tokens, from) is None {
        None
    } else {
        match kind_of(tokens, from) {
            Some(kind) => match struct_or_union_of(kind) {
                Some(which) => {
                    let at = place(tokens, from);
                    let tag = maybe(behind(from), take_identifier(tokens, behind(from)));
                    if is_at(tokens, tag.1, TokenKind::OpenBrace) || tag.0 is None {
                        let a = take(tokens, tag.1, TokenKind::OpenBrace);
                        let b = forward(
                            tokens,
                            end(a),
                            member_declaration_list_at(tokens, end(a), names),
                        );
                        let c = take(tokens, end(b), TokenKind::CloseBrace);
                        finish(
                            end(c),
                            StructOrUnionSpecifier {
                                at,
                                struct_or_union: (at, which),
                                attributes: None,
                                tag: tag.0,
                                members: Some((node(a), node(b), node(c))),
                            },
                        )
                    } else {
                        finish(
                            tag.1,
                            StructOrUnionSpecifier {
                                at,
                                struct_or_union: (at, which),
                                attributes: None,
                                tag: tag.0,
                                members: None,
                            },
                        )
                    }
                },
                None => None,
            },
            None => None,
        }
    }
}

/// One or more member declarations: as many as are there.
pub open spec fn member_declaration_list_at<'a>(
    tokens: Seq<Token<'a>>,
    from: Option<int>,
    names: Seq<&'a str>,
) -> Option<(List<MemberDeclaration<'a>>, int)>
    decreases room(tokens, from), 78nat, 1nat,
{
    member_declaration_list_rule(tokens, from, names)
}

/// What [`member_declaration_list_at`] gives, written out.
#[verifier::opaque]
pub open spec fn member_declaration_list_rule<'a>(
    tokens: Seq<Token<'a>>,
    from: Option<int>,
    names: Seq<&'a str>,
) -> Option<(List<MemberDeclaration<'a>>, int)>
    decreases room(tokens, from), 78nat, 0nat,
{
    if kind_of(tokens, from) is None {
        None
    } else {
        let a = forward(tokens, from, member_declaration_at(tokens, from, names));
        if a is Some {
            member_declaration_list_rest(
                tokens,
                end(a),
                names,
                List { at: place(tokens, from), kind: ListKind::Leaf(Box::new(node(a))) },
            )
        } else {
            None
        }
    }
}

pub open spec fn member_declaration_list_rest<'a>(
    tokens: Seq<Token<'a>>,
    from: Option<int>,
    names: Seq<&'a str>,
    left: List<MemberDeclaration<'a>>,
) -> Option<(List<MemberDeclaration<'a>>, int)>
    decreases room(tokens, from), 78nat, 1nat,
{
    member_declaration_list_rest_rule(tokens, from, names, left)
}

/// What [`member_declaration_list_rest`] gives, written out.
#[verifier::opaque]
pub open spec fn member_declaration_list_rest_rule<'a>(
    tokens: Seq<Token<'a>>,
    from: Option<int>,
    names: Seq<&'a str>,
    left: List<MemberDeclaration<'a>>,
) -> Option<(List<MemberDeclaration<'a>>, int)>
    decreases room(tokens, from), 78nat, 0nat,
{
    if kind_of(tokens, from) is None {
        None
    } else {
        let a = forward(tokens, from, member_declaration_at(tokens, from, names));
        if a is Some {
            member_declaration_list_rest(
                tokens,
                end(a),
                names,
                List { at: left.at, kind: ListKind::Cons(Box::new(left), Box::new(node(a))) },
            )
        } else {
            finish(from, left)
        }
    }
}

/// A static assertion, or else specifiers and qualifiers, the member
/// declarators if there are any, and a semicolon.
pub open spec fn member_declaration_at<'a>(
    tokens: Seq<Token<'a>>,
    from: Option<int>,
    names: Seq<&'a str>,
) -> Option<(MemberDeclaration<'a>, int)>
    decreases room(tokens, from), 77nat, 1nat,
{
    member_declaration_rule(tokens, from, names)
}

/// What [`member_declaration_at`] gives, written out.
#[verifier::opaque]
pub open spec fn member_declaration_rule<'a>(
    tokens: Seq<Token<'a>>,
    from: Option<int>,
    names: Seq<&'a str>,
) -> Option<(MemberDeclaration<'a>, int)>
    decreases room(tokens, from), 77nat, 0nat,
{
    if kind_of(tokens, from) is None {
        None
    } else {
        let a = forward(tokens, from, static_assert_declaration_at(tokens, from, names));
        if a is Some {
            finish(
                end(a),
                MemberDeclaration { at: node(a).at, kind: MemberDeclarationKind::Assert(node(a)) },
            )
        } else {
            let b = forward(tokens, from, specifier_qualifier_list_at(tokens, from, names));
            let c = maybe(
                end(b),
                forward(tokens, end(b), member_declarator_list_at(tokens, end(b), names)),
            );
            let d = take(tokens, c.1, TokenKind::Semicolon);
            finish(
                end(d),
                MemberDeclaration {
                    at: place(tokens, from),
                    kind: MemberDeclarationKind::Member {
                        attributes: None,
                        specifier_qualifiers: node(b),
                        member_declarators: c.0,
                        semicolon: node(d),
                    },
                },
            )
        }
    }
}

/// One or more type specifiers and qualifiers: as many as are there.
pub open spec fn specifier_qualifier_list_at<'a>(
    tokens: Seq<Token<'a>>,
    from: Option<int>,
    names: Seq<&'a str>,
) -> Option<(SpecifierQualifierList<'a>, int)>
    decreases room(tokens, from), 12nat, 1nat,
{
    specifier_qualifier_list_rule(tokens, from, names)
}

/// What [`specifier_qualifier_list_at`] gives, written out.
#[verifier::opaque]
pub open spec fn specifier_qualifier_list_rule<'a>(
    tokens: Seq<Token<'a>>,
    from: Option<int>,
    names: Seq<&'a str>,
) -> Option<(SpecifierQualifierList<'a>, int)>
    decreases room(tokens, from), 12nat, 0nat,
{
    if kind_of(tokens, from) is None {
        None
    } else {
        let a = forward(tokens, from, type_specifier_qualifier_at(tokens, from, names));
        let b = forward(tokens, end(a), specifier_qualifier_list_at(tokens, end(a), names));
        if b is Some {
            finish(
                end(b),
                SpecifierQualifierList {
                    at: place(tokens, from),
                    specifier_qualifier: Box::new(node(a)),
                    kind: SpecifierQualifierListKind::Cons(Box::new(node(b))),
                },
            )
        } else {
            finish(
                end(a),
                SpecifierQualifierList {
                    at: place(tokens, from),
                    specifier_qualifier: Box::new(node(a)),
                    kind: SpecifierQualifierListKind::Leaf(None),
                },
            )
        }
    }
}

/// A type specifier, or else a type qualifier, or else an alignment
/// specifier.
pub open spec fn type_specifier_qualifier_at<'a>(
    tokens: Seq<Token<'a>>,
    from: Option<int>,
    names: Seq<&'a str>,
) -> Option<(TypeSpecifierQualifier<'a>, int)>
    decreases room(tokens, from), 11nat, 1nat,
{
    type_specifier_qualifier_rule(tokens, from, names)
}

/// What [`type_specifier_qualifier_at`] gives, written out.
#[verifier::opaque]
pub open spec fn type_specifier_qualifier_rule<'a>(
    tokens: Seq<Token<'a>>,
    from: Option<int>,
    names: Seq<&'a str>,
) -> Option<(TypeSpecifierQualifier<'a>, int)>
    decreases room(tokens, from), 11nat, 0nat,
{
    if kind_of(tokens, from) is None {
        None
    } else {
        let a = forward(tokens, from, type_specifier_at(tokens, from, names));
        let b = type_qualifier_at(tokens, from);
        let c = forward(tokens, from, alignment_specifier_at(tokens, from, names));
        if a is Some {
            finish(
                end(a),
                TypeSpecifierQualifier {
                    at: node(a).at,
                    kind: TypeSpecifierQualifierKind::TypeSpecifier(node(a)),
                },
            )
        } else if b is Some {
            finish(
                end(b),
                TypeSpecifierQualifier {
                    at: node(b).at,
                    kind: TypeSpecifierQualifierKind::TypeQualifier(node(b)),
                },
            )
        } else {
            finish(
                end(c),
                TypeSpecifierQualifier {
                    at: node(c).at,
                    kind: TypeSpecifierQualifierKind::Alignment(node(c)),
                },
            )
        }
    }
}

/// One or more member declarators with commas between them.
pub open spec fn member_declarator_list_at<'a>(
    tokens: Seq<Token<'a>>,
    from: Option<int>,
    names: Seq<&'a str>,
) -> Option<(CommaList<MemberDeclarator<'a>>, int)>
    decreases room(tokens, from), 76nat, 1nat,
{
    member_declarator_list_rule(tokens, from, names)
}

/// What [`member_declarator_list_at`] gives, written out.
#[verifier::opaque]
pub open spec fn member_declarator_list_rule<'a>(
    tokens: Seq<Token<'a>>,
    from: Option<int>,
    names: Seq<&'a str>,
) -> Option<(CommaList<MemberDeclarator<'a>>, int)>
    decreases room(tokens, from), 76nat, 0nat,
{
    if kind_of(tokens, from) is None {
        None
    } else {
        let a = forward(tokens, from, member_declarator_at(tokens, from, names));
        if a is Some {
            member_declarator_list_rest(
                tokens,
                end(a),
                names,
                CommaList { at: place(tokens, from), kind: CommaListKind::Leaf(Box::new(node(a))) },
            )
        } else {
            None
        }
    }
}

pub open spec fn member_declarator_list_rest<'a>(
    tokens: Seq<Token<'a>>,
    from: Option<int>,
    names: Seq<&'a str>,
    left: CommaList<MemberDeclarator<'a>>,
) -> Option<(CommaList<MemberDeclarator<'a>>, int)>
    decreases room(tokens, from), 76nat, 1nat,
{
    member_declarator_list_rest_rule(tokens, from, names, left)
}

/// What [`member_declarator_list_rest`] gives, written out.
#[verifier::opaque]
pub open spec fn member_declarator_list_rest_rule<'a>(
    tokens: Seq<Token<'a>>,
    from: Option<int>,
    names: Seq<&'a str>,
    left: CommaList<MemberDeclarator<'a>>,
) -> Option<(CommaList<MemberDeclarator<'a>>, int)>
    decreases room(tokens, from), 76nat, 0nat,
{
    if kind_of(tokens, from) is None {
        None
    } else {
        let a = forward(tokens, behind(from), member_declarator_at(tokens, behind(from), names));
        if is_at(tokens, from, TokenKind::Comma) && a is Some {
            member_declarator_list_rest(
                tokens,
                end(a),
                names,
                CommaList {
                    at: left.at,
                    kind: CommaListKind::Cons {
                        left: Box::new(left),
                        comma: place(tokens, from),
                        right: Box::new(node(a)),
                    },
                },
            )
        } else {
            finish(from, left)
        }
    }
}

/// A member declarator with a width, or else a declarator alone.
pub open spec fn member_declarator_at<'a>(
    tokens: Seq<Token<'a>>,
    from: Option<int>,
    names: Seq<&'a str>,
) -> Option<(MemberDeclarator<'a>, int)>
    decreases room(tokens, from), 75nat, 1nat,
{
    member_declarator_rule(tokens, from, names)
}

/// What [`member_declarator_at`] gives, written out.
#[verifier::opaque]
pub open spec fn member_declarator_rule<'a>(
    tokens: Seq<Token<'a>>,
    from: Option<int>,
    names: Seq<&'a str>,
) -> Option<(MemberDeclarator<'a>, int)>
    decreases room(tokens, from), 75nat, 0nat,
{
    if kind_of(tokens, from) is None {
        None
    } else {
        let a = forward(tokens, from, member_declarator_prime_at(tokens, from, names));
        if a is Some {
            a
        } else {
            let b = forward(tokens, from, declarator_at(tokens, from, names, false));
            finish(
                end(b),
                MemberDeclarator { at: node(b).at, declarator: Some(node(b)), width: None },
            )
        }
    }
}

/// A declarator, if there is one, a colon and a width.
pub open spec fn member_declarator_prime_at<'a>(
    tokens: Seq<Token<'a>>,
    from: Option<int>,
    names: Seq<&'a str>,
) -> Option<(MemberDeclarator<'a>, int)>
    decreases room(tokens, from), 74nat, 1nat,
{
    member_declarator_prime_rule(tokens, from, names)
}

/// What [`member_declarator_prime_at`] gives, written out.
#[verifier::opaque]
pub open spec fn member_declarator_prime_rule<'a>(
    tokens: Seq<Token<'a>>,
    from: Option<int>,
    names: Seq<&'a str>,
) -> Option<(MemberDeclarator<'a>, int)>
    decreases room(tokens, from), 74nat, 0nat,
{
    if kind_of(tokens, from) is None {
        None
    } else {
        let a = maybe(from, forward(tokens, from, declarator_at(tokens, from, names, false)));
        let b = take(tokens, a.1, TokenKind::Colon);
        let c = forward(tokens, end(b), constant_expression_at(tokens, end(b), names));
        finish(
            end(c),
            MemberDeclarator {
                at: place(tokens, from),
                declarator: a.0,
                width: Some((node(b), node(c))),
            },
        )
    }
}

/// `enum` with a tag, the type that it is based on, and enumerators in
/// braces, each of them optional.
pub open spec fn enum_specifier_at<'a>(
    tokens: Seq<Token<'a>>,
    from: Option<int>,
    names: Seq<&'a str>,
) -> Option<(EnumSpecifier<'a>, int)>
    decreases room(tokens, from), 2nat, 1nat,
{
    enum_specifier_rule(tokens, from, names)
}

/// What [`enum_specifier_at`] gives, written out.
#[verifier::opaque]
pub open spec fn enum_specifier_rule<'a>(
    tokens: Seq<Token<'a>>,
    from: Option<int>,
    names: Seq<&'a str>,
) -> Option<(EnumSpecifier<'a>, int)>
    decreases room(tokens, from), 2nat, 0nat,
{
    if kind_of(tokens, from) is None {
        None
    } else {
        let a = take(tokens, from, TokenKind::Enum);
        let tag = maybe(end(a), take_identifier(tokens, end(a)));
        let b = maybe(tag.1, forward(tokens, tag.1, enum_type_specifier_at(tokens, tag.1, names)));
        if is_at(tokens, b.1, TokenKind::OpenBrace) {
            let c = forward(tokens, behind(b.1), enumerator_list_at(tokens, behind(b.1), names));
            let d = maybe(end(c), take(tokens, end(c), TokenKind::Comma));
            let e = take(tokens, d.1, TokenKind::CloseBrace);
            finish(
                end(e),
                EnumSpecifier {
                    at: place(tokens, from),
                    enum_keyword: node(a),
                    attributes: None,
                    tag: tag.0,
                    enum_type: b.0,
                    enumerators: Some((place(tokens, b.1), node(c), d.0, node(e))),
                },
            )
        } else {
            finish(
                b.1,
                EnumSpecifier {
                    at: place(tokens, from),
                    enum_keyword: node(a),
                    attributes: None,
                    tag: tag.0,
                    enum_type: b.0,
                    enumerators: None,
                },
            )
        }
    }
}

/// One or more enumerators with commas between them.
pub open spec fn enumerator_list_at<'a>(
    tokens: Seq<Token<'a>>,
    from: Option<int>,
    names: Seq<&'a str>,
) -> Option<(CommaList<Enumerator<'a>>, int)>
    decreases room(tokens, from), 3nat, 1nat,
{
    enumerator_list_rule(tokens, from, names)
}

/// What [`enumerator_list_at`] gives, written out.
#[verifier::opaque]
pub open spec fn enumerator_list_rule<'a>(
    tokens: Seq<Token<'a>>,
    from: Option<int>,
    names: Seq<&'a str>,
) -> Option<(CommaList<Enumerator<'a>>, int)>
    decreases room(tokens, from), 3nat, 0nat,
{
    if kind_of(tokens, from) is None {
        None
    } else {
        let a = forward(tokens, from, enumerator_at(tokens, from, names));
        if a is Some {
            enumerator_list_rest(
                tokens,
                end(a),
                names,
                CommaList { at: place(tokens, from), kind: CommaListKind::Leaf(Box::new(node(a))) },
            )
        } else {
            None
        }
    }
}

pub open spec fn enumerator_list_rest<'a>(
    tokens: Seq<Token<'a>>,
    from: Option<int>,
    names: Seq<&'a str>,
    left: CommaList<Enumerator<'a>>,
) -> Option<(CommaList<Enumerator<'a>>, int)>
    decreases room(tokens, from), 3nat, 1nat,
{
    enumerator_list_rest_rule(tokens, from, names, left)
}

/// What [`enumerator_list_rest`] gives, written out.
#[verifier::opaque]
pub open spec fn enumerator_list_rest_rule<'a>(
    tokens: Seq<Token<'a>>,
    from: Option<int>,
    names: Seq<&'a str>,
    left: CommaList<Enumerator<'a>>,
) -> Option<(CommaList<Enumerator<'a>>, int)>
    decreases room(tokens, from), 3nat, 0nat,
{
    if kind_of(tokens, from) is None {
        None
    } else {
        let a = forward(tokens, behind(from), enumerator_at(tokens, behind(from), names));
        if is_at(tokens, from, TokenKind::Comma) && a is Some {
            enumerator_list_rest(
                tokens,
                end(a),
                names,
                CommaList {
                    at: left.at,
                    kind: CommaListKind::Cons {
                        left: Box::new(left),
                        comma: place(tokens, from),
                        right: Box::new(node(a)),
                    },
                },
            )
        } else {
            finish(from, left)
        }
    }
}

/// The name of an enumeration constant, with its value if it has one.
pub open spec fn enumerator_at<'a>(
    tokens: Seq<Token<'a>>,
    from: Option<int>,
    names: Seq<&'a str>,
) -> Option<(Enumerator<'a>, int)>
    decreases room(tokens, from), 2nat, 1nat,
{
    enumerator_rule(tokens, from, names)
}

/// What [`enumerator_at`] gives, written out.
#[verifier::opaque]
pub open spec fn enumerator_rule<'a>(
    tokens: Seq<Token<'a>>,
    from: Option<int>,
    names: Seq<&'a str>,
) -> Option<(Enumerator<'a>, int)>
    decreases room(tokens, from), 2nat, 0nat,
{
    if kind_of(tokens, from) is None {
        None
    } else {
        let a = take_identifier(tokens, from);
        if is_at(tokens, end(a), TokenKind::Equal) {
            let b = forward(
                tokens,
                behind(end(a)),
                constant_expression_at(tokens, behind(end(a)), names),
            );
            finish(
                end(b),
                Enumerator {
                    at: place(tokens, from),
                    name: node(a),
                    attributes: None,
                    value: Some((place(tokens, end(a)), node(b))),
                },
            )
        } else {
            finish(
                end(a),
                Enumerator { at: place(tokens, from), name: node(a), attributes: None, value: None },
            )
        }
    }
}

/// A colon and the specifiers of the type that an enumeration is based
/// on.
pub open spec fn enum_type_specifier_at<'a>(
    tokens: Seq<Token<'a>>,
    from: Option<int>,
    names: Seq<&'a str>,
) -> Option<(EnumTypeSpecifier<'a>, int)>
    decreases room(tokens, from), 2nat, 1nat,
{
    enum_type_specifier_rule(tokens, from, names)
}

/// What [`enum_type_specifier_at`] gives, written out.
#[verifier::opaque]
pub open spec fn enum_type_specifier_rule<'a>(
    tokens: Seq<Token<'a>>,
    from: Option<int>,
    names: Seq<&'a str>,
) -> Option<(EnumTypeSpecifier<'a>, int)>
    decreases room(tokens, from), 2nat, 0nat,
{
    if kind_of(tokens, from) is None {
        None
    } else {
        let a = take(tokens, from, TokenKind::Colon);
        let b = forward(tokens, end(a), specifier_qualifier_list_at(tokens, end(a), names));
        finish(
            end(b),
            EnumTypeSpecifier { at: place(tokens, from), colon: node(a), specifier_qualifiers: node(b) },
        )
    }
}

/// `_Atomic` and a type name in parentheses.
pub open spec fn atomic_type_specifier_at<'a>(
    tokens: Seq<Token<'a>>,
    from: Option<int>,
    names: Seq<&'a str>,
) -> Option<(AtomicTypeSpecifier<'a>, int)>
    decreases room(tokens, from), 2nat, 1nat,
{
    atomic_type_specifier_rule(tokens, from, names)
}

/// What [`atomic_type_specifier_at`] gives, written out.
#[verifier::opaque]
pub open spec fn atomic_type_specifier_rule<'a>(
    tokens: Seq<Token<'a>>,
    from: Option<int>,
    names: Seq<&'a str>,
) -> Option<(AtomicTypeSpecifier<'a>, int)>
    decreases room(tokens, from), 2nat, 0nat,
{
    if kind_of(tokens, from) is None {
        None
    } else {
        let a = take(tokens, from, TokenKind::Atomic);
        let b = take(tokens, end(a), TokenKind::OpenParenthesis);
        let c = forward(tokens, end(b), typename_at(tokens, end(b), names));
        let d = take(tokens, end(c), TokenKind::CloseParenthesis);
        finish(
            end(d),
            AtomicTypeSpecifier {
                at: place(tokens, from),
                atomic_keyword: node(a),
                open_parenthesis: node(b),
                typename: node(c),
                close_parenthesis: node(d),
            },
        )
    }
}

/// `typeof` or `typeof_unqual` and its argument in parentheses.
pub open spec fn typeof_specifier_at<'a>(
    tokens: Seq<Token<'a>>,
    from: Option<int>,
    names: Seq<&'a str>,
) -> Option<(TypeofSpecifier<'a>, int)>
    decreases room(tokens, from), 2nat, 1nat,
{
    typeof_specifier_rule(tokens, from, names)
}

/// What [`typeof_specifier_at`] gives, written out.
#[verifier::opaque]
pub open spec fn typeof_specifier_rule<'a>(
    tokens: Seq<Token<'a>>,
    from: Option<int>,
    names: Seq<&'a str>,
) -> Option<(TypeofSpecifier<'a>, int)>
    decreases room(tokens, from), 2nat, 0nat,
{
    if kind_of(tokens, from) is None {
        None
    } else {
        let unqual = is_at(tokens, from, TokenKind::TypeofUnqual);
        let a = if unqual {
            take(tokens, from, TokenKind::TypeofUnqual)
        } else {
            take(tokens, from, TokenKind::Typeof)
        };
        let b = take(tokens, end(a), TokenKind::OpenParenthesis);
        let c = forward(tokens, end(b), typeof_specifier_argument_at(tokens, end(b), names));
        let d = take(tokens, end(c), TokenKind::CloseParenthesis);
        finish(
            end(d),
            TypeofSpecifier {
                at: place(tokens, from),
                typeof_keyword: node(a),
                unqual,
                open_parenthesis: node(b),
                argument: node(c),
                close_parenthesis: node(d),
            },
        )
    }
}

/// An expression, or else a type name.
pub open spec fn typeof_specifier_argument_at<'a>(
    tokens: Seq<Token<'a>>,
    from: Option<int>,
    names: Seq<&'a str>,
) -> Option<(TypeofSpecifierArgument<'a>, int)>
    decreases room(tokens, from), 56nat, 1nat,
{
    typeof_specifier_argument_rule(tokens, from, names)
}

/// What [`typeof_specifier_argument_at`] gives, written out.
#[verifier::opaque]
pub open spec fn typeof_specifier_argument_rule<'a>(
    tokens: Seq<Token<'a>>,
    from: Option<int>,
    names: Seq<&'a str>,
) -> Option<(TypeofSpecifierArgument<'a>, int)>
    decreases room(tokens, from), 56nat, 0nat,
{
    if kind_of(tokens, from) is None {
        None
    } else {
        let a = forward(tokens, from, expression_at(tokens, from, names));
        let b = forward(tokens, from, typename_at(tokens, from, names));
        if a is Some {
            finish(
                end(a),
                TypeofSpecifierArgument {
                    at: place(tokens, from),
                    kind: TypeofSpecifierArgumentKind::Expression(node(a)),
                },
            )
        } else {
            finish(
                end(b),
                TypeofSpecifierArgument {
                    at: place(tokens, from),
                    kind: TypeofSpecifierArgumentKind::Type(node(b)),
                },
            )
        }
    }
}

/// `alignas` and in parentheses a constant expression, or else a type
/// name.
pub open spec fn alignment_specifier_at<'a>(
    tokens: Seq<Token<'a>>,
    from: Option<int>,
    names: Seq<&'a str>,
) -> Option<(AlignmentSpecifier<'a>, int)>
    decreases room(tokens, from), 2nat, 1nat,
{
    alignment_specifier_rule(tokens, from, names)
}

/// What [`alignment_specifier_at`] gives, written out.
#[verifier::opaque]
pub open spec fn alignment_specifier_rule<'a>(
    tokens: Seq<Token<'a>>,
    from: Option<int>,
    names: Seq<&'a str>,
) -> Option<(AlignmentSpecifier<'a>, int)>
    decreases room(tokens, from), 2nat, 0nat,
{
    if kind_of(tokens, from) is None {
        None
    } else {
        let a = take(tokens, from, TokenKind::Alignas);
        let b = take(tokens, end(a), TokenKind::OpenParenthesis);
        let c = forward(tokens, end(b), constant_expression_at(tokens, end(b), names));
        let d = forward(tokens, end(b), typename_at(tokens, end(b), names));
        let kind = if c is Some {
            finish(end(c), AlignmentSpecifierKind::Expression(node(c)))
        } else {
            finish(end(d), AlignmentSpecifierKind::Type(node(d)))
        };
        let e = take(tokens, end(kind), TokenKind::CloseParenthesis);
        finish(
            end(e),
            AlignmentSpecifier {
                at: place(tokens, from),
                alignas_keyword: node(a),
                open_parenthesis: node(b),
                kind: node(kind),
                close_parenthesis: node(e),
            },
        )
    }
}

/// Specifiers and qualifiers, and an abstract declarator if one follows.
pub open spec fn typename_at<'a>(
    tokens: Seq<Token<'a>>,
    from: Option<int>,
    names: Seq<&'a str>,
) -> Option<(TypeName<'a>, int)>
    decreases room(tokens, from), 13nat, 1nat,
{
    typename_rule(tokens, from, names)
}

/// What [`typename_at`] gives, written out.
#[verifier::opaque]
pub open spec fn typename_rule<'a>(
    tokens: Seq<Token<'a>>,
    from: Option<int>,
    names: Seq<&'a str>,
) -> Option<(TypeName<'a>, int)>
    decreases room(tokens, from), 13nat, 0nat,
{
    if kind_of(tokens, from) is None {
        None
    } else {
        let a = forward(tokens, from, specifier_qualifier_list_at(tokens, from, names));
        let b = maybe(end(a), forward(tokens, end(a), abstract_declarator_at(tokens, end(a), names)));
        finish(
            b.1,
            TypeName { at: place(tokens, from), specifier_qualifiers: node(a), declarator: b.0 },
        )
    }
}

} // verus!
