//! Which typedef names a piece of syntax declares.
//!
//! A declaration whose specifiers hold `typedef` declares the name of each
//! of its declarators as a typedef name, in the scope that the
//! declaration stands in.

use crate::ast::{
    BlockItem, BlockItemKind, CommaList, CommaListKind, Declaration, DeclarationKind,
    DeclarationSpecifier, DeclarationSpecifierKind, DeclarationSpecifiers,
    DeclarationSpecifiersKind, Declarator, DirectDeclarator, DirectDeclaratorKind,
    ExternalDeclaration, ExternalDeclarationKind, ForInitializer, InitDeclarator, List, ListKind,
    StorageClassSpecifier,
};
use vstd::prelude::*;

verus! {

impl StorageClassSpecifier {
    pub open spec fn is_typedef(self) -> bool {
        self.kind is Typedef
    }
}

impl List<StorageClassSpecifier> {
    /// Whether `typedef` is among the specifiers.
    pub open spec fn has_typedef(self) -> bool
        decreases self,
    {
        match self.kind {
            ListKind::Leaf(item) => item.is_typedef(),
            ListKind::Cons(left, right) => left.has_typedef() || right.is_typedef(),
        }
    }
}

impl<'a> DeclarationSpecifier<'a> {
    pub open spec fn is_typedef(self) -> bool {
        match self.kind {
            DeclarationSpecifierKind::StorageClass(specifier) => specifier.is_typedef(),
            _ => false,
        }
    }
}

impl<'a> DeclarationSpecifiers<'a> {
    /// Whether `typedef` is among the specifiers.
    pub open spec fn has_typedef(self) -> bool
        decreases self,
    {
        self.specifier.is_typedef() || match self.kind {
            DeclarationSpecifiersKind::Leaf(_) => false,
            DeclarationSpecifiersKind::Cons(rest) => rest.has_typedef(),
        }
    }
}

impl<'a> DirectDeclarator<'a> {
    /// The name that the declarator declares.
    pub open spec fn name(self) -> &'a str
        decreases self,
    {
        match self.kind {
            DirectDeclaratorKind::Name(name, _) => name,
            DirectDeclaratorKind::Parenthesized { inner, .. } => inner.direct.name(),
            DirectDeclaratorKind::Array(array, _) => array.left.name(),
            DirectDeclaratorKind::Function(function, _) => function.left.name(),
        }
    }
}

impl<'a> Declarator<'a> {
    /// The name that the declarator declares.
    pub open spec fn name(self) -> &'a str {
        self.direct.name()
    }
}

impl<'a> CommaList<InitDeclarator<'a>> {
    /// The names that the declarators declare, in their order.
    pub open spec fn names(self) -> Seq<&'a str>
        decreases self,
    {
        match self.kind {
            CommaListKind::Leaf(item) => seq![item.declarator.name()],
            CommaListKind::Cons { left, right, .. } => left.names().push(right.declarator.name()),
        }
    }
}

impl<'a> Declaration<'a> {
    /// The typedef names that the declaration declares.
    pub open spec fn typedef_names(self) -> Seq<&'a str> {
        match self.kind {
            DeclarationKind::Normal { specifiers, init_declarators: Some(list), .. } => {
                if specifiers.has_typedef() {
                    list.names()
                } else {
                    Seq::empty()
                }
            },
            _ => Seq::empty(),
        }
    }
}

impl<'a> ForInitializer<'a> {
    /// The typedef names that the first clause of a `for` declares.
    pub open spec fn typedef_names(self) -> Seq<&'a str> {
        match self {
            ForInitializer::Declaration(declaration) => declaration.typedef_names(),
            ForInitializer::Expression(_, _) => Seq::empty(),
        }
    }
}

impl<'a> BlockItem<'a> {
    /// The typedef names that the item declares in its block.
    pub open spec fn typedef_names(self) -> Seq<&'a str> {
        match self.kind {
            BlockItemKind::Declaration(declaration) => declaration.typedef_names(),
            _ => Seq::empty(),
        }
    }
}

impl<'a> List<BlockItem<'a>> {
    /// The typedef names that the items declare in their block.
    pub open spec fn typedef_names(self) -> Seq<&'a str>
        decreases self,
    {
        match self.kind {
            ListKind::Leaf(item) => item.typedef_names(),
            ListKind::Cons(left, right) => left.typedef_names() + right.typedef_names(),
        }
    }
}

impl<'a> ExternalDeclaration<'a> {
    /// The typedef names that the declaration declares at file scope.
    pub open spec fn typedef_names(self) -> Seq<&'a str> {
        match self.kind {
            ExternalDeclarationKind::Declaration(declaration) => declaration.typedef_names(),
            ExternalDeclarationKind::Function(_) => Seq::empty(),
        }
    }
}

impl<'a> List<ExternalDeclaration<'a>> {
    /// The typedef names that a translation unit declares.
    pub open spec fn typedef_names(self) -> Seq<&'a str>
        decreases self,
    {
        match self.kind {
            ListKind::Leaf(item) => item.typedef_names(),
            ListKind::Cons(left, right) => left.typedef_names() + right.typedef_names(),
        }
    }
}

} // verus!
