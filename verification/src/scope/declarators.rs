//! Declarators and parameters, and the typedef names in them.
//!
//! A declarator that belongs to a `typedef` declares its name as a typedef
//! name. What stands behind the name in the declarator, array sizes and
//! parameter lists, is read with the name declared.

use crate::ast::{
    AbstractDeclarator, ArrayAbstractDeclarator, ArrayAbstractDeclaratorKind, ArrayDeclarator,
    ArrayDeclaratorKind, CommaList, CommaListKind, Declarator, DirectAbstractDeclarator,
    DirectAbstractDeclaratorKind, DirectDeclarator, DirectDeclaratorKind,
    FunctionAbstractDeclarator, FunctionDeclarator, ParameterDeclaration,
    ParameterDeclarationKind, ParameterTypeList,
};
use crate::scope::extended;
use vstd::prelude::*;

verus! {

impl<'a> Declarator<'a> {
    pub open spec fn well_scoped(self, names: Seq<&'a str>, is_typedef: bool) -> bool
        decreases self,
    {
        self.direct.well_scoped(names, is_typedef)
    }
}

impl<'a> DirectDeclarator<'a> {
    pub open spec fn well_scoped(self, names: Seq<&'a str>, is_typedef: bool) -> bool
        decreases self,
    {
        match self.kind {
            DirectDeclaratorKind::Name(_, _) => true,
            DirectDeclaratorKind::Parenthesized { inner, .. } => inner.well_scoped(
                names,
                is_typedef,
            ),
            DirectDeclaratorKind::Array(array, _) => {
                &&& array.left.well_scoped(names, is_typedef)
                &&& array.size_well_scoped(extended(names, is_typedef, array.left.name()))
            },
            DirectDeclaratorKind::Function(function, _) => {
                &&& function.left.well_scoped(names, is_typedef)
                &&& function.parameters_well_scoped(
                    extended(names, is_typedef, function.left.name()),
                )
            },
        }
    }
}

impl<'a> ArrayDeclarator<'a> {
    /// Whether what stands between the brackets is well scoped.
    pub open spec fn size_well_scoped(self, names: Seq<&'a str>) -> bool
        decreases self,
    {
        match self.kind {
            ArrayDeclaratorKind::Normal { size: Some(size), .. } => size.well_scoped(names),
            _ => true,
        }
    }
}

impl<'a> FunctionDeclarator<'a> {
    /// Whether the parameters are well scoped.
    pub open spec fn parameters_well_scoped(self, names: Seq<&'a str>) -> bool
        decreases self,
    {
        match self.parameters {
            Some(parameters) => parameters.well_scoped(names),
            None => true,
        }
    }
}

impl<'a> ParameterTypeList<'a> {
    pub open spec fn well_scoped(self, names: Seq<&'a str>) -> bool
        decreases self,
    {
        match self.parameters {
            Some((parameters, _)) => parameters.well_scoped(names),
            None => true,
        }
    }
}

impl<'a> CommaList<ParameterDeclaration<'a>> {
    pub open spec fn well_scoped(self, names: Seq<&'a str>) -> bool
        decreases self,
    {
        match self.kind {
            CommaListKind::Leaf(item) => item.well_scoped(names),
            CommaListKind::Cons { left, right, .. } => left.well_scoped(names)
                && right.well_scoped(names),
        }
    }
}

impl<'a> ParameterDeclaration<'a> {
    pub open spec fn well_scoped(self, names: Seq<&'a str>) -> bool
        decreases self,
    {
        self.specifiers.well_scoped(names) && match self.kind {
            ParameterDeclarationKind::Concrete(declarator) => declarator.well_scoped(names, false),
            ParameterDeclarationKind::Abstract(Some(declarator)) => declarator.well_scoped(names),
            ParameterDeclarationKind::Abstract(None) => true,
        }
    }
}

impl<'a> AbstractDeclarator<'a> {
    pub open spec fn well_scoped(self, names: Seq<&'a str>) -> bool
        decreases self,
    {
        match self.direct {
            Some(direct) => direct.well_scoped(names),
            None => true,
        }
    }
}

impl<'a> DirectAbstractDeclarator<'a> {
    pub open spec fn well_scoped(self, names: Seq<&'a str>) -> bool
        decreases self,
    {
        match self.kind {
            DirectAbstractDeclaratorKind::Parenthesized { inner, .. } => inner.well_scoped(names),
            DirectAbstractDeclaratorKind::Array(array, _) => array.well_scoped(names),
            DirectAbstractDeclaratorKind::Function(function, _) => function.well_scoped(names),
        }
    }
}

impl<'a> ArrayAbstractDeclarator<'a> {
    pub open spec fn well_scoped(self, names: Seq<&'a str>) -> bool
        decreases self,
    {
        &&& match self.left {
            Some(left) => left.well_scoped(names),
            None => true,
        }
        &&& match self.kind {
            ArrayAbstractDeclaratorKind::Normal { size: Some(size), .. } => size.well_scoped(
                names,
            ),
            _ => true,
        }
    }
}

impl<'a> FunctionAbstractDeclarator<'a> {
    pub open spec fn well_scoped(self, names: Seq<&'a str>) -> bool
        decreases self,
    {
        &&& match self.left {
            Some(left) => left.well_scoped(names),
            None => true,
        }
        &&& match self.parameters {
            Some(parameters) => parameters.well_scoped(names),
            None => true,
        }
    }
}

} // verus!
