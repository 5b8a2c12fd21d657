//! Declarations and initializers, and the typedef names in them.

use crate::ast::{
    BracedInitializer, CommaList, CommaListKind, Declaration, DeclarationKind,
    DeclarationSpecifier, DeclarationSpecifierKind, DeclarationSpecifiers,
    DeclarationSpecifiersKind, Designation, Designator, DesignatorKind, ExternalDeclaration,
    ExternalDeclarationKind, FunctionDefinition, InitDeclarator, Initializer, InitializerKind,
    List, ListKind, StaticAssertDeclaration,
};
use crate::scope::extended;
use vstd::prelude::*;

verus! {

impl<'a> DeclarationSpecifiers<'a> {
    pub open spec fn well_scoped(self, names: Seq<&'a str>) -> bool
        decreases self,
    {
        self.specifier.well_scoped(names) && match self.kind {
            DeclarationSpecifiersKind::Leaf(_) => true,
            DeclarationSpecifiersKind::Cons(rest) => rest.well_scoped(names),
        }
    }
}

impl<'a> DeclarationSpecifier<'a> {
    pub open spec fn well_scoped(self, names: Seq<&'a str>) -> bool
        decreases self,
    {
        match self.kind {
            DeclarationSpecifierKind::Type(specifier) => specifier.well_scoped(names),
            _ => true,
        }
    }
}

impl<'a> InitDeclarator<'a> {
    /// The initializer is read with the name of the declarator declared.
    pub open spec fn well_scoped(self, names: Seq<&'a str>, is_typedef: bool) -> bool
        decreases self,
    {
        self.declarator.well_scoped(names, is_typedef) && match self.initializer {
            Some((_, initializer)) => initializer.well_scoped(
                extended(names, is_typedef, self.declarator.name()),
            ),
            None => true,
        }
    }
}

impl<'a> CommaList<InitDeclarator<'a>> {
    /// Each declarator is read with the names of those in front of it
    /// declared.
    pub open spec fn well_scoped(self, names: Seq<&'a str>, is_typedef: bool) -> bool
        decreases self,
    {
        match self.kind {
            CommaListKind::Leaf(item) => item.well_scoped(names, is_typedef),
            CommaListKind::Cons { left, right, .. } => {
                &&& left.well_scoped(names, is_typedef)
                &&& right.well_scoped(
                    if is_typedef {
                        names + left.names()
                    } else {
                        names
                    },
                    is_typedef,
                )
            },
        }
    }
}

impl<'a> Declaration<'a> {
    pub open spec fn well_scoped(self, names: Seq<&'a str>) -> bool
        decreases self,
    {
        match self.kind {
            DeclarationKind::Normal { specifiers, init_declarators, .. } => {
                specifiers.well_scoped(names) && match init_declarators {
                    Some(list) => list.well_scoped(names, specifiers.has_typedef()),
                    None => true,
                }
            },
            DeclarationKind::Assert(assertion) => assertion.well_scoped(names),
            DeclarationKind::Attribute(_) => true,
        }
    }
}

impl<'a> StaticAssertDeclaration<'a> {
    pub open spec fn well_scoped(self, names: Seq<&'a str>) -> bool
        decreases self,
    {
        self.condition.well_scoped(names)
    }
}

impl<'a> BracedInitializer<'a> {
    pub open spec fn well_scoped(self, names: Seq<&'a str>) -> bool
        decreases self,
    {
        match self.initializers {
            Some((list, _)) => list.well_scoped(names),
            None => true,
        }
    }
}

impl<'a> Initializer<'a> {
    pub open spec fn well_scoped(self, names: Seq<&'a str>) -> bool
        decreases self,
    {
        match self.kind {
            InitializerKind::Expression(expression) => expression.well_scoped(names),
            InitializerKind::Braced(braced) => braced.well_scoped(names),
        }
    }
}

/// Whether one entry of an initializer list is well scoped: the
/// initializer, and the designation in front of it where it has one.
pub open spec fn designated_initializer_well_scoped<'a>(
    item: (Option<Designation<'a>>, Initializer<'a>),
    names: Seq<&'a str>,
) -> bool
    decreases item,
{
    item.1.well_scoped(names) && match item.0 {
        Some(designation) => designation.well_scoped(names),
        None => true,
    }
}

impl<'a> CommaList<(Option<Designation<'a>>, Initializer<'a>)> {
    pub open spec fn well_scoped(self, names: Seq<&'a str>) -> bool
        decreases self,
    {
        match self.kind {
            CommaListKind::Leaf(item) => designated_initializer_well_scoped(*item, names),
            CommaListKind::Cons { left, right, .. } => left.well_scoped(names)
                && designated_initializer_well_scoped(*right, names),
        }
    }
}

impl<'a> Designation<'a> {
    pub open spec fn well_scoped(self, names: Seq<&'a str>) -> bool
        decreases self,
    {
        self.designators.well_scoped(names)
    }
}

impl<'a> List<Designator<'a>> {
    pub open spec fn well_scoped(self, names: Seq<&'a str>) -> bool
        decreases self,
    {
        match self.kind {
            ListKind::Leaf(item) => item.well_scoped(names),
            ListKind::Cons(left, right) => left.well_scoped(names) && right.well_scoped(names),
        }
    }
}

impl<'a> Designator<'a> {
    pub open spec fn well_scoped(self, names: Seq<&'a str>) -> bool
        decreases self,
    {
        match self.kind {
            DesignatorKind::InBrackets { value, .. } => value.well_scoped(names),
            DesignatorKind::AfterPeriod { .. } => true,
        }
    }
}

impl<'a> List<ExternalDeclaration<'a>> {
    /// Each external declaration is read with the typedef names of those
    /// in front of it declared.
    pub open spec fn well_scoped(self, names: Seq<&'a str>) -> bool
        decreases self,
    {
        match self.kind {
            ListKind::Leaf(item) => item.well_scoped(names),
            ListKind::Cons(left, right) => left.well_scoped(names) && right.well_scoped(
                names + left.typedef_names(),
            ),
        }
    }
}

impl<'a> ExternalDeclaration<'a> {
    pub open spec fn well_scoped(self, names: Seq<&'a str>) -> bool
        decreases self,
    {
        match self.kind {
            ExternalDeclarationKind::Function(function) => function.well_scoped(names),
            ExternalDeclarationKind::Declaration(declaration) => declaration.well_scoped(names),
        }
    }
}

impl<'a> FunctionDefinition<'a> {
    pub open spec fn well_scoped(self, names: Seq<&'a str>) -> bool
        decreases self,
    {
        &&& self.specifiers.well_scoped(names)
        &&& self.declarator.well_scoped(names, false)
        &&& self.body.well_scoped(names)
    }
}

} // verus!
