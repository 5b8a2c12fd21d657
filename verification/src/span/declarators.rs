//! Declarators, abstract declarators and parameter lists laid over tokens.

use crate::ast::{
    AbstractDeclarator, ArrayAbstractDeclarator, ArrayAbstractDeclaratorKind, ArrayDeclarator,
    ArrayDeclaratorKind, CommaList, CommaListKind, Declarator, DirectAbstractDeclarator,
    DirectAbstractDeclaratorKind, DirectDeclarator, DirectDeclaratorKind,
    FunctionAbstractDeclarator, FunctionDeclarator, ParameterDeclaration,
    ParameterDeclarationKind, ParameterTypeList, Pointer,
};
use crate::span::{kind_at, starts_at, token_at};
use crate::token::{Token, TokenKind};
use vstd::prelude::*;

verus! {

impl<'a> Declarator<'a> {
    pub open spec fn span_end(self, tokens: Seq<Token<'a>>, from: Option<int>) -> Option<int>
        decreases self,
    {
        if starts_at(tokens, from, self.at) {
            let p = from;
            let p = match self.pointer {
                Some(pointer) => pointer.span_end(tokens, p),
                None => p,
            };
            self.direct.span_end(tokens, p)
        } else {
            None
        }
    }
}

impl<'a> Pointer<'a> {
    pub open spec fn span_end(self, tokens: Seq<Token<'a>>, from: Option<int>) -> Option<int>
        decreases self,
    {
        if starts_at(tokens, from, self.at) {
            let p = from;
            let p = token_at(tokens, p, TokenKind::Asterisk, self.asterisk);
            let p = match self.attributes {
                Some(attributes) => attributes.span_end(tokens, p),
                None => p,
            };
            let p = match self.qualifiers {
                Some(qualifiers) => qualifiers.span_end(tokens, p),
                None => p,
            };
            match self.right {
                Some(right) => right.span_end(tokens, p),
                None => p,
            }
        } else {
            None
        }
    }
}

impl<'a> DirectDeclarator<'a> {
    /// A name or a parenthesized declarator starts where its first token
    /// stands; an array or function declarator is anchored at the bracket
    /// that follows what it is applied to.
    pub open spec fn span_end(self, tokens: Seq<Token<'a>>, from: Option<int>) -> Option<int>
        decreases self,
    {
        match self.kind {
            DirectDeclaratorKind::Name(name, attributes) => {
                if starts_at(tokens, from, self.at) {
                    let p = from;
                    let p = kind_at(tokens, p, TokenKind::Identifier(name));
                    match attributes {
                        Some(attributes) => attributes.span_end(tokens, p),
                        None => p,
                    }
                } else {
                    None
                }
            },
            DirectDeclaratorKind::Parenthesized { open_parenthesis, inner, close_parenthesis } => {
                if starts_at(tokens, from, self.at) {
                    let p = from;
                    let p = token_at(tokens, p, TokenKind::OpenParenthesis, open_parenthesis);
                    let p = inner.span_end(tokens, p);
                    token_at(tokens, p, TokenKind::CloseParenthesis, close_parenthesis)
                } else {
                    None
                }
            },
            DirectDeclaratorKind::Array(array, attributes) => {
                let p = if array.at == self.at {
                    array.span_end(tokens, from)
                } else {
                    None
                };
                match attributes {
                    Some(attributes) => attributes.span_end(tokens, p),
                    None => p,
                }
            },
            DirectDeclaratorKind::Function(function, attributes) => {
                let p = if function.at == self.at {
                    function.span_end(tokens, from)
                } else {
                    None
                };
                match attributes {
                    Some(attributes) => attributes.span_end(tokens, p),
                    None => p,
                }
            },
        }
    }
}

impl<'a> ArrayDeclarator<'a> {
    /// Between the brackets stand the qualifiers and the size. Where
    /// `static` is there it comes first, or else right after the
    /// qualifiers.
    pub open spec fn span_end(self, tokens: Seq<Token<'a>>, from: Option<int>) -> Option<int>
        decreases self,
    {
        let p = self.left.span_end(tokens, from);
        let p = if starts_at(tokens, p, self.at) {
            p
        } else {
            None
        };
        let p = token_at(tokens, p, TokenKind::OpenBracket, self.open_bracket);
        let after_qualifiers = match self.qualifiers {
            Some(qualifiers) => qualifiers.span_end(tokens, p),
            None => p,
        };
        let p = match self.kind {
            ArrayDeclaratorKind::Normal { static_keyword: Some(keyword), size: Some(size) } => {
                if kind_at(tokens, p, TokenKind::Static) is Some {
                    let p = token_at(tokens, p, TokenKind::Static, keyword);
                    let p = match self.qualifiers {
                        Some(qualifiers) => qualifiers.span_end(tokens, p),
                        None => p,
                    };
                    (if size.level() <= 15 { size.span_end(tokens, p) } else { None })
                } else if self.qualifiers is Some {
                    let p = token_at(tokens, after_qualifiers, TokenKind::Static, keyword);
                    (if size.level() <= 15 { size.span_end(tokens, p) } else { None })
                } else {
                    None
                }
            },
            ArrayDeclaratorKind::Normal { static_keyword: Some(_), size: None } => None,
            ArrayDeclaratorKind::Normal { static_keyword: None, size: Some(size) } => (if size.level()
                <= 15 { size.span_end(tokens, after_qualifiers) } else { None }),
            ArrayDeclaratorKind::Normal { static_keyword: None, size: None } => after_qualifiers,
            ArrayDeclaratorKind::Var { asterisk } => token_at(
                tokens,
                after_qualifiers,
                TokenKind::Asterisk,
                asterisk,
            ),
        };
        token_at(tokens, p, TokenKind::CloseBracket, self.close_bracket)
    }
}

impl<'a> FunctionDeclarator<'a> {
    pub open spec fn span_end(self, tokens: Seq<Token<'a>>, from: Option<int>) -> Option<int>
        decreases self,
    {
        let p = self.left.span_end(tokens, from);
        let p = if starts_at(tokens, p, self.at) {
            p
        } else {
            None
        };
        let p = token_at(tokens, p, TokenKind::OpenParenthesis, self.open_parenthesis);
        let p = match self.parameters {
            Some(parameters) => parameters.span_end(tokens, p),
            None => p,
        };
        token_at(tokens, p, TokenKind::CloseParenthesis, self.close_parenthesis)
    }
}

impl<'a> ParameterTypeList<'a> {
    /// The parameters, then `...` alone or after a comma. The list may be
    /// empty; it is anchored at the token that it starts with or that
    /// follows it.
    pub open spec fn span_end(self, tokens: Seq<Token<'a>>, from: Option<int>) -> Option<int>
        decreases self,
    {
        if starts_at(tokens, from, self.at) {
            let p = from;
            let p = match self.parameters {
                Some((parameters, Some(comma))) => {
                    let p = parameters.span_end(tokens, p);
                    token_at(tokens, p, TokenKind::Comma, comma)
                },
                Some((parameters, None)) => parameters.span_end(tokens, p),
                None => p,
            };
            match self.ellipses {
                Some(ellipses) => match self.parameters {
                    Some((_, None)) => None,
                    _ => token_at(tokens, p, TokenKind::Ellipses, ellipses),
                },
                None => p,
            }
        } else {
            None
        }
    }
}

impl<'a> CommaList<ParameterDeclaration<'a>> {
    pub open spec fn span_end(self, tokens: Seq<Token<'a>>, from: Option<int>) -> Option<int>
        decreases self,
    {
        if starts_at(tokens, from, self.at) {
            match self.kind {
                CommaListKind::Leaf(item) => item.span_end(tokens, from),
                CommaListKind::Cons { left, comma, right } => {
                    let p = left.span_end(tokens, from);
                    let p = token_at(tokens, p, TokenKind::Comma, comma);
                    right.span_end(tokens, p)
                },
            }
        } else {
            None
        }
    }
}

impl<'a> ParameterDeclaration<'a> {
    pub open spec fn span_end(self, tokens: Seq<Token<'a>>, from: Option<int>) -> Option<int>
        decreases self,
    {
        if starts_at(tokens, from, self.at) {
            let p = from;
            let p = match self.attributes {
                Some(attributes) => attributes.span_end(tokens, p),
                None => p,
            };
            let p = self.specifiers.span_end(tokens, p);
            match self.kind {
                ParameterDeclarationKind::Concrete(declarator) => declarator.span_end(tokens, p),
                ParameterDeclarationKind::Abstract(Some(declarator)) => declarator.span_end(tokens, p),
                ParameterDeclarationKind::Abstract(None) => p,
            }
        } else {
            None
        }
    }
}

impl<'a> AbstractDeclarator<'a> {
    /// An abstract declarator has a pointer, a direct part, or both.
    pub open spec fn span_end(self, tokens: Seq<Token<'a>>, from: Option<int>) -> Option<int>
        decreases self,
    {
        if starts_at(tokens, from, self.at) {
            let p = from;
            let p = match self.pointer {
                Some(pointer) => pointer.span_end(tokens, p),
                None => p,
            };
            match self.direct {
                Some(direct) => direct.span_end(tokens, p),
                None => if self.pointer is Some {
                    p
                } else {
                    None
                },
            }
        } else {
            None
        }
    }
}

impl<'a> DirectAbstractDeclarator<'a> {
    /// A parenthesized declarator starts where its first token stands; an
    /// array or function declarator is anchored at its opening bracket.
    pub open spec fn span_end(self, tokens: Seq<Token<'a>>, from: Option<int>) -> Option<int>
        decreases self,
    {
        match self.kind {
            DirectAbstractDeclaratorKind::Parenthesized {
                open_parenthesis,
                inner,
                close_parenthesis,
            } => {
                if starts_at(tokens, from, self.at) {
                    let p = from;
                    let p = token_at(tokens, p, TokenKind::OpenParenthesis, open_parenthesis);
                    let p = inner.span_end(tokens, p);
                    token_at(tokens, p, TokenKind::CloseParenthesis, close_parenthesis)
                } else {
                    None
                }
            },
            DirectAbstractDeclaratorKind::Array(array, attributes) => {
                let p = if array.at == self.at {
                    array.span_end(tokens, from)
                } else {
                    None
                };
                match attributes {
                    Some(attributes) => attributes.span_end(tokens, p),
                    None => p,
                }
            },
            DirectAbstractDeclaratorKind::Function(function, attributes) => {
                let p = if function.at == self.at {
                    function.span_end(tokens, from)
                } else {
                    None
                };
                match attributes {
                    Some(attributes) => attributes.span_end(tokens, p),
                    None => p,
                }
            },
        }
    }
}

impl<'a> ArrayAbstractDeclarator<'a> {
    /// As for an array declarator, but `*` stands alone between the
    /// brackets.
    pub open spec fn span_end(self, tokens: Seq<Token<'a>>, from: Option<int>) -> Option<int>
        decreases self,
    {
        let p = match self.left {
            Some(left) => left.span_end(tokens, from),
            None => from,
        };
        let p = if starts_at(tokens, p, self.at) {
            p
        } else {
            None
        };
        let p = token_at(tokens, p, TokenKind::OpenBracket, self.open_bracket);
        let p = match self.kind {
            ArrayAbstractDeclaratorKind::Normal {
                qualifiers,
                static_keyword: Some(keyword),
                size: Some(size),
            } => {
                if kind_at(tokens, p, TokenKind::Static) is Some {
                    let p = token_at(tokens, p, TokenKind::Static, keyword);
                    let p = match qualifiers {
                        Some(qualifiers) => qualifiers.span_end(tokens, p),
                        None => p,
                    };
                    (if size.level() <= 15 { size.span_end(tokens, p) } else { None })
                } else {
                    match qualifiers {
                        Some(qualifiers) => {
                            let p = qualifiers.span_end(tokens, p);
                            let p = token_at(tokens, p, TokenKind::Static, keyword);
                            (if size.level() <= 15 { size.span_end(tokens, p) } else { None })
                        },
                        None => None,
                    }
                }
            },
            ArrayAbstractDeclaratorKind::Normal {
                qualifiers,
                static_keyword: Some(_),
                size: None,
            } => None,
            ArrayAbstractDeclaratorKind::Normal { qualifiers, static_keyword: None, size } => {
                let p = match qualifiers {
                    Some(qualifiers) => qualifiers.span_end(tokens, p),
                    None => p,
                };
                match size {
                    Some(size) => (if size.level() <= 15 { size.span_end(tokens, p) } else { None }),
                    None => p,
                }
            },
            ArrayAbstractDeclaratorKind::Var { asterisk } => token_at(
                tokens,
                p,
                TokenKind::Asterisk,
                asterisk,
            ),
        };
        token_at(tokens, p, TokenKind::CloseBracket, self.close_bracket)
    }
}

impl<'a> FunctionAbstractDeclarator<'a> {
    pub open spec fn span_end(self, tokens: Seq<Token<'a>>, from: Option<int>) -> Option<int>
        decreases self,
    {
        let p = match self.left {
            Some(left) => left.span_end(tokens, from),
            None => from,
        };
        let p = if starts_at(tokens, p, self.at) {
            p
        } else {
            None
        };
        let p = token_at(tokens, p, TokenKind::OpenParenthesis, self.open_parenthesis);
        let p = match self.parameters {
            Some(parameters) => parameters.span_end(tokens, p),
            None => p,
        };
        token_at(tokens, p, TokenKind::CloseParenthesis, self.close_parenthesis)
    }
}

} // verus!
