//! Declarations, initializers and the translation unit laid over tokens.

use crate::ast::{
    AttributeDeclaration, BracedInitializer, CommaList, CommaListKind, Declaration,
    DeclarationKind, DeclarationSpecifier, DeclarationSpecifierKind, DeclarationSpecifiers,
    DeclarationSpecifiersKind, Designation, Designator, DesignatorKind, ExternalDeclaration,
    ExternalDeclarationKind, FunctionDefinition, FunctionSpecifier, FunctionSpecifierKind,
    InitDeclarator, Initializer, InitializerKind, List, ListKind, StaticAssertDeclaration,
    StorageClassSpecifier, StorageClassSpecifierKind,
};
use crate::span::{kind_at, starts_at, token_at};
use crate::token::{Token, TokenKind};
use vstd::prelude::*;

verus! {

impl StorageClassSpecifierKind {
    /// The keyword that spells the storage class.
    pub open spec fn token(self) -> TokenKind<'static> {
        match self {
            StorageClassSpecifierKind::Auto => TokenKind::Auto,
            StorageClassSpecifierKind::Constexpr => TokenKind::Constexpr,
            StorageClassSpecifierKind::Extern => TokenKind::Extern,
            StorageClassSpecifierKind::Register => TokenKind::Register,
            StorageClassSpecifierKind::Static => TokenKind::Static,
            StorageClassSpecifierKind::ThreadLocal => TokenKind::ThreadLocal,
            StorageClassSpecifierKind::Typedef => TokenKind::Typedef,
        }
    }
}

impl StorageClassSpecifier {
    pub open spec fn span_end(self, tokens: Seq<Token>, from: Option<int>) -> Option<int> {
        token_at(tokens, from, self.kind.token(), self.at)
    }
}

impl List<StorageClassSpecifier> {
    pub open spec fn span_end(self, tokens: Seq<Token>, from: Option<int>) -> Option<int>
        decreases self,
    {
        if starts_at(tokens, from, self.at) {
            match self.kind {
                ListKind::Leaf(item) => item.span_end(tokens, from),
                ListKind::Cons(left, right) => {
                    let p = left.span_end(tokens, from);
                    right.span_end(tokens, p)
                },
            }
        } else {
            None
        }
    }
}

impl FunctionSpecifierKind {
    /// The keyword that spells the function specifier.
    pub open spec fn token(self) -> TokenKind<'static> {
        match self {
            FunctionSpecifierKind::Inline => TokenKind::Inline,
            FunctionSpecifierKind::NoReturn => TokenKind::Noreturn,
        }
    }
}

impl FunctionSpecifier {
    pub open spec fn span_end(self, tokens: Seq<Token>, from: Option<int>) -> Option<int> {
        token_at(tokens, from, self.kind.token(), self.at)
    }
}

impl<'a> Declaration<'a> {
    pub open spec fn span_end(self, tokens: Seq<Token<'a>>, from: Option<int>) -> Option<int>
        decreases self,
    {
        if starts_at(tokens, from, self.at) {
            let p = from;
            match self.kind {
                DeclarationKind::Normal { attributes, specifiers, init_declarators, semicolon } => {
                    let p = match attributes {
                        Some(attributes) => attributes.span_end(tokens, p),
                        None => p,
                    };
                    let p = specifiers.span_end(tokens, p);
                    let p = match init_declarators {
                        Some(list) => list.span_end(tokens, p),
                        None => p,
                    };
                    token_at(tokens, p, TokenKind::Semicolon, semicolon)
                },
                DeclarationKind::Assert(assertion) => assertion.span_end(tokens, p),
                DeclarationKind::Attribute(attribute) => attribute.span_end(tokens, p),
            }
        } else {
            None
        }
    }
}

impl<'a> DeclarationSpecifiers<'a> {
    pub open spec fn span_end(self, tokens: Seq<Token<'a>>, from: Option<int>) -> Option<int>
        decreases self,
    {
        if starts_at(tokens, from, self.at) {
            let p = from;
            let p = self.specifier.span_end(tokens, p);
            match self.kind {
                DeclarationSpecifiersKind::Leaf(Some(attributes)) => attributes.span_end(tokens, p),
                DeclarationSpecifiersKind::Leaf(None) => p,
                DeclarationSpecifiersKind::Cons(rest) => rest.span_end(tokens, p),
            }
        } else {
            None
        }
    }
}

impl<'a> DeclarationSpecifier<'a> {
    pub open spec fn span_end(self, tokens: Seq<Token<'a>>, from: Option<int>) -> Option<int>
        decreases self,
    {
        if starts_at(tokens, from, self.at) {
            let p = from;
            match self.kind {
                DeclarationSpecifierKind::StorageClass(specifier) => specifier.span_end(tokens, p),
                DeclarationSpecifierKind::Type(specifier) => specifier.span_end(tokens, p),
                DeclarationSpecifierKind::Function(specifier) => specifier.span_end(tokens, p),
            }
        } else {
            None
        }
    }
}

impl<'a> CommaList<InitDeclarator<'a>> {
    pub open spec fn span_end(self, tokens: Seq<Token<'a>>, from: Option<int>) -> Option<int>
        decreases self,
    {
        if starts_at(tokens, from, self.at) {
            match self.kind {
                CommaListKind::Leaf(item) => item.span_end(tokens, from),
                CommaListKind::Cons { left, comma, right } => {
                    let p = left.span_end(tokens, from);
                    let p = token_at(tokens, p, TokenKind::Comma, comma);
                    right.span_end(tokens, p)
                },
            }
        } else {
            None
        }
    }
}

impl<'a> InitDeclarator<'a> {
    pub open spec fn span_end(self, tokens: Seq<Token<'a>>, from: Option<int>) -> Option<int>
        decreases self,
    {
        if starts_at(tokens, from, self.at) {
            let p = from;
            let p = self.declarator.span_end(tokens, p);
            match self.initializer {
                Some((equal, initializer)) => {
                    let p = token_at(tokens, p, TokenKind::Equal, equal);
                    initializer.span_end(tokens, p)
                },
                None => p,
            }
        } else {
            None
        }
    }
}

impl<'a> AttributeDeclaration<'a> {
    pub open spec fn span_end(self, tokens: Seq<Token<'a>>, from: Option<int>) -> Option<int> {
        if starts_at(tokens, from, self.at) {
            let p = from;
            let p = self.attributes.span_end(tokens, p);
            token_at(tokens, p, TokenKind::Semicolon, self.semicolon)
        } else {
            None
        }
    }
}

impl<'a> StaticAssertDeclaration<'a> {
    pub open spec fn span_end(self, tokens: Seq<Token<'a>>, from: Option<int>) -> Option<int>
        decreases self,
    {
        if starts_at(tokens, from, self.at) {
            let p = from;
            let p = token_at(tokens, p, TokenKind::StaticAssert, self.static_assert_keyword);
            let p = token_at(tokens, p, TokenKind::OpenParenthesis, self.open_parenthesis);
            let p = (if self.condition.level() <= 14 { self.condition.span_end(tokens, p) } else { None });
            let p = match self.message {
                Some((comma, message)) => {
                    let p = token_at(tokens, p, TokenKind::Comma, comma);
                    message.span_end(tokens, p)
                },
                None => p,
            };
            let p = token_at(tokens, p, TokenKind::CloseParenthesis, self.close_parenthesis);
            token_at(tokens, p, TokenKind::Semicolon, self.semicolon)
        } else {
            None
        }
    }
}

impl<'a> BracedInitializer<'a> {
    pub open spec fn span_end(self, tokens: Seq<Token<'a>>, from: Option<int>) -> Option<int>
        decreases self,
    {
        if starts_at(tokens, from, self.at) {
            let p = from;
            let p = token_at(tokens, p, TokenKind::OpenBrace, self.open_brace);
            let p = match self.initializers {
                Some((list, Some(comma))) => {
                    let p = list.span_end(tokens, p);
                    token_at(tokens, p, TokenKind::Comma, comma)
                },
                Some((list, None)) => list.span_end(tokens, p),
                None => p,
            };
            token_at(tokens, p, TokenKind::CloseBrace, self.close_brace)
        } else {
            None
        }
    }
}

impl<'a> Initializer<'a> {
    pub open spec fn span_end(self, tokens: Seq<Token<'a>>, from: Option<int>) -> Option<int>
        decreases self,
    {
        if starts_at(tokens, from, self.at) {
            let p = from;
            match self.kind {
                InitializerKind::Expression(expression) => (if expression.level() <= 15 { expression.span_end(tokens, p) } else { None }),
                InitializerKind::Braced(braced) => braced.span_end(tokens, p),
            }
        } else {
            None
        }
    }
}

/// The position after one entry of an initializer list: an initializer
/// with the designation in front of it, where it has one.
pub open spec fn designated_initializer_end<'a>(
    item: (Option<Designation<'a>>, Initializer<'a>),
    tokens: Seq<Token<'a>>,
    from: Option<int>,
) -> Option<int>
    decreases item,
{
    let p = match item.0 {
        Some(designation) => designation.span_end(tokens, from),
        None => from,
    };
    item.1.span_end(tokens, p)
}

impl<'a> CommaList<(Option<Designation<'a>>, Initializer<'a>)> {
    pub open spec fn span_end(self, tokens: Seq<Token<'a>>, from: Option<int>) -> Option<int>
        decreases self,
    {
        if starts_at(tokens, from, self.at) {
            match self.kind {
                CommaListKind::Leaf(item) => designated_initializer_end(*item, tokens, from),
                CommaListKind::Cons { left, comma, right } => {
                    let p = left.span_end(tokens, from);
                    let p = token_at(tokens, p, TokenKind::Comma, comma);
                    designated_initializer_end(*right, tokens, p)
                },
            }
        } else {
            None
        }
    }
}

impl<'a> Designation<'a> {
    pub open spec fn span_end(self, tokens: Seq<Token<'a>>, from: Option<int>) -> Option<int>
        decreases self,
    {
        if starts_at(tokens, from, self.at) {
            let p = from;
            let p = self.designators.span_end(tokens, p);
            token_at(tokens, p, TokenKind::Equal, self.equal)
        } else {
            None
        }
    }
}

impl<'a> List<Designator<'a>> {
    pub open spec fn span_end(self, tokens: Seq<Token<'a>>, from: Option<int>) -> Option<int>
        decreases self,
    {
        if starts_at(tokens, from, self.at) {
            match self.kind {
                ListKind::Leaf(item) => item.span_end(tokens, from),
                ListKind::Cons(left, right) => {
                    let p = left.span_end(tokens, from);
                    right.span_end(tokens, p)
                },
            }
        } else {
            None
        }
    }
}

impl<'a> Designator<'a> {
    pub open spec fn span_end(self, tokens: Seq<Token<'a>>, from: Option<int>) -> Option<int>
        decreases self,
    {
        if starts_at(tokens, from, self.at) {
            let p = from;
            match self.kind {
                DesignatorKind::InBrackets { open_bracket, value, close_bracket } => {
                    let p = token_at(tokens, p, TokenKind::OpenBracket, open_bracket);
                    let p = (if value.level() <= 14 { value.span_end(tokens, p) } else { None });
                    token_at(tokens, p, TokenKind::CloseBracket, close_bracket)
                },
                DesignatorKind::AfterPeriod { period, name } => {
                    let p = token_at(tokens, p, TokenKind::Period, period);
                    kind_at(tokens, p, TokenKind::Identifier(name))
                },
            }
        } else {
            None
        }
    }
}

impl<'a> List<ExternalDeclaration<'a>> {
    /// The position after a translation unit.
    pub open spec fn span_end(self, tokens: Seq<Token<'a>>, from: Option<int>) -> Option<int>
        decreases self,
    {
        if starts_at(tokens, from, self.at) {
            match self.kind {
                ListKind::Leaf(item) => item.span_end(tokens, from),
                ListKind::Cons(left, right) => {
                    let p = left.span_end(tokens, from);
                    right.span_end(tokens, p)
                },
            }
        } else {
            None
        }
    }
}

impl<'a> ExternalDeclaration<'a> {
    pub open spec fn span_end(self, tokens: Seq<Token<'a>>, from: Option<int>) -> Option<int>
        decreases self,
    {
        if starts_at(tokens, from, self.at) {
            let p = from;
            match self.kind {
                ExternalDeclarationKind::Function(function) => function.span_end(tokens, p),
                ExternalDeclarationKind::Declaration(declaration) => declaration.span_end(tokens, p),
            }
        } else {
            None
        }
    }
}

impl<'a> FunctionDefinition<'a> {
    pub open spec fn span_end(self, tokens: Seq<Token<'a>>, from: Option<int>) -> Option<int>
        decreases self,
    {
        if starts_at(tokens, from, self.at) {
            let p = from;
            let p = match self.attributes {
                Some(attributes) => attributes.span_end(tokens, p),
                None => p,
            };
            let p = self.specifiers.span_end(tokens, p);
            let p = self.declarator.span_end(tokens, p);
            self.body.span_end(tokens, p)
        } else {
            None
        }
    }
}

} // verus!
