//! Type specifiers, qualifiers and type names laid over tokens.

use crate::ast::{
    AlignmentSpecifier, AlignmentSpecifierKind, AtomicTypeSpecifier, AttributeSpecifierSequence,
    CommaList, CommaListKind, EnumSpecifier, EnumTypeSpecifier, Enumerator, List, ListKind,
    MemberDeclaration, MemberDeclarationKind, MemberDeclarator, SpecifierQualifierList,
    SpecifierQualifierListKind, StructOrUnion, StructOrUnionSpecifier, TypeName, TypeQualifier,
    TypeQualifierKind, TypeSpecifier, TypeSpecifierKind, TypeSpecifierQualifier,
    TypeSpecifierQualifierKind, TypeofSpecifier, TypeofSpecifierArgument,
    TypeofSpecifierArgumentKind,
};
use crate::span::{kind_at, starts_at, token_at};
use crate::token::{Token, TokenKind};
use vstd::prelude::*;

verus! {

impl<'a> AttributeSpecifierSequence<'a> {
    /// Attribute specifiers are not read: no run of tokens spells one out.
    pub open spec fn span_end(self, tokens: Seq<Token<'a>>, from: Option<int>) -> Option<int> {
        None
    }
}

impl TypeQualifierKind {
    /// The keyword that spells the qualifier.
    pub open spec fn token(self) -> TokenKind<'static> {
        match self {
            TypeQualifierKind::Const => TokenKind::Const,
            TypeQualifierKind::Restrict => TokenKind::Restrict,
            TypeQualifierKind::Volatile => TokenKind::Volatile,
            TypeQualifierKind::Atomic => TokenKind::Atomic,
        }
    }
}

impl TypeQualifier {
    pub open spec fn span_end(self, tokens: Seq<Token>, from: Option<int>) -> Option<int> {
        token_at(tokens, from, self.kind.token(), self.at)
    }
}

impl List<TypeQualifier> {
    pub open spec fn span_end(self, tokens: Seq<Token>, from: Option<int>) -> Option<int>
        decreases self,
    {
        if starts_at(tokens, from, self.at) {
            match self.kind {
                ListKind::Leaf(item) => item.span_end(tokens, from),
                ListKind::Cons(left, right) => {
                    let p = left.span_end(tokens, from);
                    right.span_end(tokens, p)
                },
            }
        } else {
            None
        }
    }
}

impl StructOrUnion {
    /// The keyword that spells the choice.
    pub open spec fn token(self) -> TokenKind<'static> {
        match self {
            StructOrUnion::Struct => TokenKind::Struct,
            StructOrUnion::Union => TokenKind::Union,
        }
    }
}

impl<'a> TypeName<'a> {
    pub open spec fn span_end(self, tokens: Seq<Token<'a>>, from: Option<int>) -> Option<int>
        decreases self,
    {
        if starts_at(tokens, from, self.at) {
            let p = from;
            let p = self.specifier_qualifiers.span_end(tokens, p);
            match self.declarator {
                Some(declarator) => declarator.span_end(tokens, p),
                None => p,
            }
        } else {
            None
        }
    }
}

impl<'a> SpecifierQualifierList<'a> {
    pub open spec fn span_end(self, tokens: Seq<Token<'a>>, from: Option<int>) -> Option<int>
        decreases self,
    {
        if starts_at(tokens, from, self.at) {
            let p = from;
            let p = self.specifier_qualifier.span_end(tokens, p);
            match self.kind {
                SpecifierQualifierListKind::Leaf(Some(attributes)) => attributes.span_end(tokens, p),
                SpecifierQualifierListKind::Leaf(None) => p,
                SpecifierQualifierListKind::Cons(rest) => rest.span_end(tokens, p),
            }
        } else {
            None
        }
    }
}

impl<'a> TypeSpecifierQualifier<'a> {
    pub open spec fn span_end(self, tokens: Seq<Token<'a>>, from: Option<int>) -> Option<int>
        decreases self,
    {
        if starts_at(tokens, from, self.at) {
            let p = from;
            match self.kind {
                TypeSpecifierQualifierKind::TypeSpecifier(specifier) => specifier.span_end(tokens, p),
                TypeSpecifierQualifierKind::TypeQualifier(qualifier) => qualifier.span_end(tokens, p),
                TypeSpecifierQualifierKind::Alignment(alignment) => alignment.span_end(tokens, p),
            }
        } else {
            None
        }
    }
}

impl<'a> TypeSpecifier<'a> {
    pub open spec fn span_end(self, tokens: Seq<Token<'a>>, from: Option<int>) -> Option<int>
        decreases self,
    {
        if starts_at(tokens, from, self.at) {
            let p = from;
            match self.kind {
                TypeSpecifierKind::Void => kind_at(tokens, p, TokenKind::Void),
                TypeSpecifierKind::Char => kind_at(tokens, p, TokenKind::Char),
                TypeSpecifierKind::Short => kind_at(tokens, p, TokenKind::Short),
                TypeSpecifierKind::Int => kind_at(tokens, p, TokenKind::Int),
                TypeSpecifierKind::Long => kind_at(tokens, p, TokenKind::Long),
                TypeSpecifierKind::Float => kind_at(tokens, p, TokenKind::Float),
                TypeSpecifierKind::Double => kind_at(tokens, p, TokenKind::Double),
                TypeSpecifierKind::Signed => kind_at(tokens, p, TokenKind::Signed),
                TypeSpecifierKind::Unsigned => kind_at(tokens, p, TokenKind::Unsigned),
                TypeSpecifierKind::BitInt {
                    bitint_keyword,
                    open_parenthesis,
                    width,
                    close_parenthesis,
                } => {
                    let p = token_at(tokens, p, TokenKind::BitInt, bitint_keyword);
                    let p = token_at(tokens, p, TokenKind::OpenParenthesis, open_parenthesis);
                    let p = (if width.level() <= 14 { width.span_end(tokens, p) } else { None });
                    token_at(tokens, p, TokenKind::CloseParenthesis, close_parenthesis)
                },
                TypeSpecifierKind::Bool => kind_at(tokens, p, TokenKind::Bool),
                TypeSpecifierKind::Complex => kind_at(tokens, p, TokenKind::Complex),
                TypeSpecifierKind::Decimal32 => kind_at(tokens, p, TokenKind::Decimal32),
                TypeSpecifierKind::Decimal64 => kind_at(tokens, p, TokenKind::Decimal64),
                TypeSpecifierKind::Decimal128 => kind_at(tokens, p, TokenKind::Decimal128),
                TypeSpecifierKind::Atomic(specifier) => specifier.span_end(tokens, p),
                TypeSpecifierKind::StructOrUnion(specifier) => specifier.span_end(tokens, p),
                TypeSpecifierKind::Enum(specifier) => specifier.span_end(tokens, p),
                TypeSpecifierKind::TypedefName(name) => kind_at(tokens, p, TokenKind::Identifier(name)),
                TypeSpecifierKind::Typeof(specifier) => specifier.span_end(tokens, p),
            }
        } else {
            None
        }
    }
}

impl<'a> StructOrUnionSpecifier<'a> {
    /// A struct or union specifier has a tag, a member list, or both.
    pub open spec fn span_end(self, tokens: Seq<Token<'a>>, from: Option<int>) -> Option<int>
        decreases self,
    {
        if starts_at(tokens, from, self.at) {
            let p = from;
            let p = token_at(tokens, p, self.struct_or_union.1.token(), self.struct_or_union.0);
            let p = match self.attributes {
                Some(attributes) => attributes.span_end(tokens, p),
                None => p,
            };
            let p = match self.tag {
                Some(name) => kind_at(tokens, p, TokenKind::Identifier(name)),
                None => p,
            };
            match self.members {
                Some((open_brace, members, close_brace)) => {
                    let p = token_at(tokens, p, TokenKind::OpenBrace, open_brace);
                    let p = members.span_end(tokens, p);
                    token_at(tokens, p, TokenKind::CloseBrace, close_brace)
                },
                None => if self.tag is Some {
                    p
                } else {
                    None
                },
            }
        } else {
            None
        }
    }
}

impl<'a> List<MemberDeclaration<'a>> {
    pub open spec fn span_end(self, tokens: Seq<Token<'a>>, from: Option<int>) -> Option<int>
        decreases self,
    {
        if starts_at(tokens, from, self.at) {
            match self.kind {
                ListKind::Leaf(item) => item.span_end(tokens, from),
                ListKind::Cons(left, right) => {
                    let p = left.span_end(tokens, from);
                    right.span_end(tokens, p)
                },
            }
        } else {
            None
        }
    }
}

impl<'a> MemberDeclaration<'a> {
    pub open spec fn span_end(self, tokens: Seq<Token<'a>>, from: Option<int>) -> Option<int>
        decreases self,
    {
        if starts_at(tokens, from, self.at) {
            let p = from;
            match self.kind {
                MemberDeclarationKind::Member {
                    attributes,
                    specifier_qualifiers,
                    member_declarators,
                    semicolon,
                } => {
                    let p = match attributes {
                        Some(attributes) => attributes.span_end(tokens, p),
                        None => p,
                    };
                    let p = specifier_qualifiers.span_end(tokens, p);
                    let p = match member_declarators {
                        Some(list) => list.span_end(tokens, p),
                        None => p,
                    };
                    token_at(tokens, p, TokenKind::Semicolon, semicolon)
                },
                MemberDeclarationKind::Assert(assertion) => assertion.span_end(tokens, p),
            }
        } else {
            None
        }
    }
}

impl<'a> CommaList<MemberDeclarator<'a>> {
    pub open spec fn span_end(self, tokens: Seq<Token<'a>>, from: Option<int>) -> Option<int>
        decreases self,
    {
        if starts_at(tokens, from, self.at) {
            match self.kind {
                CommaListKind::Leaf(item) => item.span_end(tokens, from),
                CommaListKind::Cons { left, comma, right } => {
                    let p = left.span_end(tokens, from);
                    let p = token_at(tokens, p, TokenKind::Comma, comma);
                    right.span_end(tokens, p)
                },
            }
        } else {
            None
        }
    }
}

impl<'a> MemberDeclarator<'a> {
    /// A member declarator has a declarator, a width, or both.
    pub open spec fn span_end(self, tokens: Seq<Token<'a>>, from: Option<int>) -> Option<int>
        decreases self,
    {
        if starts_at(tokens, from, self.at) {
            let p = from;
            let p = match self.declarator {
                Some(declarator) => declarator.span_end(tokens, p),
                None => p,
            };
            match self.width {
                Some((colon, width)) => {
                    let p = token_at(tokens, p, TokenKind::Colon, colon);
                    (if width.level() <= 14 { width.span_end(tokens, p) } else { None })
                },
                None => if self.declarator is Some {
                    p
                } else {
                    None
                },
            }
        } else {
            None
        }
    }
}

impl<'a> EnumSpecifier<'a> {
    pub open spec fn span_end(self, tokens: Seq<Token<'a>>, from: Option<int>) -> Option<int>
        decreases self,
    {
        if starts_at(tokens, from, self.at) {
            let p = from;
            let p = token_at(tokens, p, TokenKind::Enum, self.enum_keyword);
            let p = match self.attributes {
                Some(attributes) => attributes.span_end(tokens, p),
                None => p,
            };
            let p = match self.tag {
                Some(name) => kind_at(tokens, p, TokenKind::Identifier(name)),
                None => p,
            };
            let p = match self.enum_type {
                Some(enum_type) => enum_type.span_end(tokens, p),
                None => p,
            };
            match self.enumerators {
                Some((open_brace, enumerators, final_comma, close_brace)) => {
                    let p = token_at(tokens, p, TokenKind::OpenBrace, open_brace);
                    let p = enumerators.span_end(tokens, p);
                    let p = match final_comma {
                        Some(comma) => token_at(tokens, p, TokenKind::Comma, comma),
                        None => p,
                    };
                    token_at(tokens, p, TokenKind::CloseBrace, close_brace)
                },
                None => p,
            }
        } else {
            None
        }
    }
}

impl<'a> CommaList<Enumerator<'a>> {
    pub open spec fn span_end(self, tokens: Seq<Token<'a>>, from: Option<int>) -> Option<int>
        decreases self,
    {
        if starts_at(tokens, from, self.at) {
            match self.kind {
                CommaListKind::Leaf(item) => item.span_end(tokens, from),
                CommaListKind::Cons { left, comma, right } => {
                    let p = left.span_end(tokens, from);
                    let p = token_at(tokens, p, TokenKind::Comma, comma);
                    right.span_end(tokens, p)
                },
            }
        } else {
            None
        }
    }
}

impl<'a> Enumerator<'a> {
    pub open spec fn span_end(self, tokens: Seq<Token<'a>>, from: Option<int>) -> Option<int>
        decreases self,
    {
        if starts_at(tokens, from, self.at) {
            let p = from;
            let p = kind_at(tokens, p, TokenKind::Identifier(self.name));
            let p = match self.attributes {
                Some(attributes) => attributes.span_end(tokens, p),
                None => p,
            };
            match self.value {
                Some((equal, value)) => {
                    let p = token_at(tokens, p, TokenKind::Equal, equal);
                    (if value.level() <= 14 { value.span_end(tokens, p) } else { None })
                },
                None => p,
            }
        } else {
            None
        }
    }
}

impl<'a> EnumTypeSpecifier<'a> {
    pub open spec fn span_end(self, tokens: Seq<Token<'a>>, from: Option<int>) -> Option<int>
        decreases self,
    {
        if starts_at(tokens, from, self.at) {
            let p = from;
            let p = token_at(tokens, p, TokenKind::Colon, self.colon);
            self.specifier_qualifiers.span_end(tokens, p)
        } else {
            None
        }
    }
}

impl<'a> AtomicTypeSpecifier<'a> {
    pub open spec fn span_end(self, tokens: Seq<Token<'a>>, from: Option<int>) -> Option<int>
        decreases self,
    {
        if starts_at(tokens, from, self.at) {
            let p = from;
            let p = token_at(tokens, p, TokenKind::Atomic, self.atomic_keyword);
            let p = token_at(tokens, p, TokenKind::OpenParenthesis, self.open_parenthesis);
            let p = self.typename.span_end(tokens, p);
            token_at(tokens, p, TokenKind::CloseParenthesis, self.close_parenthesis)
        } else {
            None
        }
    }
}

impl<'a> TypeofSpecifier<'a> {
    pub open spec fn span_end(self, tokens: Seq<Token<'a>>, from: Option<int>) -> Option<int>
        decreases self,
    {
        if starts_at(tokens, from, self.at) {
            let p = from;
            let keyword = if self.unqual {
                TokenKind::TypeofUnqual
            } else {
                TokenKind::Typeof
            };
            let p = token_at(tokens, p, keyword, self.typeof_keyword);
            let p = token_at(tokens, p, TokenKind::OpenParenthesis, self.open_parenthesis);
            let p = self.argument.span_end(tokens, p);
            token_at(tokens, p, TokenKind::CloseParenthesis, self.close_parenthesis)
        } else {
            None
        }
    }
}

impl<'a> TypeofSpecifierArgument<'a> {
    pub open spec fn span_end(self, tokens: Seq<Token<'a>>, from: Option<int>) -> Option<int>
        decreases self,
    {
        if starts_at(tokens, from, self.at) {
            let p = from;
            match self.kind {
                TypeofSpecifierArgumentKind::Expression(expression) => expression.span_end(tokens, p),
                TypeofSpecifierArgumentKind::Type(typename) => typename.span_end(tokens, p),
            }
        } else {
            None
        }
    }
}

impl<'a> AlignmentSpecifier<'a> {
    pub open spec fn span_end(self, tokens: Seq<Token<'a>>, from: Option<int>) -> Option<int>
        decreases self,
    {
        if starts_at(tokens, from, self.at) {
            let p = from;
            let p = token_at(tokens, p, TokenKind::Alignas, self.alignas_keyword);
            let p = token_at(tokens, p, TokenKind::OpenParenthesis, self.open_parenthesis);
            let p = match self.kind {
                AlignmentSpecifierKind::Type(typename) => typename.span_end(tokens, p),
                AlignmentSpecifierKind::Expression(expression) => (if expression.level() <= 14 { expression.span_end(tokens, p) } else { None }),
            };
            token_at(tokens, p, TokenKind::CloseParenthesis, self.close_parenthesis)
        } else {
            None
        }
    }
}

} // verus!
