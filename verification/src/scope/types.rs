//! Type specifiers and type names, and the typedef names in them.

use crate::ast::{
    AlignmentSpecifier, AlignmentSpecifierKind, AtomicTypeSpecifier, CommaList, CommaListKind,
    EnumSpecifier, EnumTypeSpecifier, Enumerator, List, ListKind, MemberDeclaration,
    MemberDeclarationKind, MemberDeclarator, SpecifierQualifierList,
    SpecifierQualifierListKind, StructOrUnionSpecifier, TypeName, TypeSpecifier,
    TypeSpecifierKind, TypeSpecifierQualifier, TypeSpecifierQualifierKind, TypeofSpecifier,
    TypeofSpecifierArgument, TypeofSpecifierArgumentKind,
};
use crate::scope::declared;
use vstd::prelude::*;

verus! {

impl<'a> TypeName<'a> {
    pub open spec fn well_scoped(self, names: Seq<&'a str>) -> bool
        decreases self,
    {
        self.specifier_qualifiers.well_scoped(names) && match self.declarator {
            Some(declarator) => declarator.well_scoped(names),
            None => true,
        }
    }
}

impl<'a> SpecifierQualifierList<'a> {
    pub open spec fn well_scoped(self, names: Seq<&'a str>) -> bool
        decreases self,
    {
        self.specifier_qualifier.well_scoped(names) && match self.kind {
            SpecifierQualifierListKind::Leaf(_) => true,
            SpecifierQualifierListKind::Cons(rest) => rest.well_scoped(names),
        }
    }
}

impl<'a> TypeSpecifierQualifier<'a> {
    pub open spec fn well_scoped(self, names: Seq<&'a str>) -> bool
        decreases self,
    {
        match self.kind {
            TypeSpecifierQualifierKind::TypeSpecifier(specifier) => specifier.well_scoped(names),
            TypeSpecifierQualifierKind::TypeQualifier(_) => true,
            TypeSpecifierQualifierKind::Alignment(alignment) => alignment.well_scoped(names),
        }
    }
}

impl<'a> TypeSpecifier<'a> {
    /// A typedef name is a type specifier only where it is declared.
    pub open spec fn well_scoped(self, names: Seq<&'a str>) -> bool
        decreases self,
    {
        match self.kind {
            TypeSpecifierKind::TypedefName(name) => declared(names, name),
            TypeSpecifierKind::BitInt { width, .. } => width.well_scoped(names),
            TypeSpecifierKind::Atomic(specifier) => specifier.well_scoped(names),
            TypeSpecifierKind::StructOrUnion(specifier) => specifier.well_scoped(names),
            TypeSpecifierKind::Enum(specifier) => specifier.well_scoped(names),
            TypeSpecifierKind::Typeof(specifier) => specifier.well_scoped(names),
            _ => true,
        }
    }
}

impl<'a> StructOrUnionSpecifier<'a> {
    pub open spec fn well_scoped(self, names: Seq<&'a str>) -> bool
        decreases self,
    {
        match self.members {
            Some((_, members, _)) => members.well_scoped(names),
            None => true,
        }
    }
}

impl<'a> List<MemberDeclaration<'a>> {
    pub open spec fn well_scoped(self, names: Seq<&'a str>) -> bool
        decreases self,
    {
        match self.kind {
            ListKind::Leaf(item) => item.well_scoped(names),
            ListKind::Cons(left, right) => left.well_scoped(names) && right.well_scoped(names),
        }
    }
}

impl<'a> MemberDeclaration<'a> {
    pub open spec fn well_scoped(self, names: Seq<&'a str>) -> bool
        decreases self,
    {
        match self.kind {
            MemberDeclarationKind::Member { specifier_qualifiers, member_declarators, .. } => {
                specifier_qualifiers.well_scoped(names) && match member_declarators {
                    Some(list) => list.well_scoped(names),
                    None => true,
                }
            },
            MemberDeclarationKind::Assert(assertion) => assertion.well_scoped(names),
        }
    }
}

impl<'a> CommaList<MemberDeclarator<'a>> {
    pub open spec fn well_scoped(self, names: Seq<&'a str>) -> bool
        decreases self,
    {
        match self.kind {
            CommaListKind::Leaf(item) => item.well_scoped(names),
            CommaListKind::Cons { left, right, .. } => left.well_scoped(names)
                && right.well_scoped(names),
        }
    }
}

impl<'a> MemberDeclarator<'a> {
    pub open spec fn well_scoped(self, names: Seq<&'a str>) -> bool
        decreases self,
    {
        &&& match self.declarator {
            Some(declarator) => declarator.well_scoped(names, false),
            None => true,
        }
        &&& match self.width {
            Some((_, width)) => width.well_scoped(names),
            None => true,
        }
    }
}

impl<'a> EnumSpecifier<'a> {
    pub open spec fn well_scoped(self, names: Seq<&'a str>) -> bool
        decreases self,
    {
        &&& match self.enum_type {
            Some(enum_type) => enum_type.well_scoped(names),
            None => true,
        }
        &&& match self.enumerators {
            Some((_, enumerators, _, _)) => enumerators.well_scoped(names),
            None => true,
        }
    }
}

impl<'a> CommaList<Enumerator<'a>> {
    pub open spec fn well_scoped(self, names: Seq<&'a str>) -> bool
        decreases self,
    {
        match self.kind {
            CommaListKind::Leaf(item) => item.well_scoped(names),
            CommaListKind::Cons { left, right, .. } => left.well_scoped(names)
                && right.well_scoped(names),
        }
    }
}

impl<'a> Enumerator<'a> {
    pub open spec fn well_scoped(self, names: Seq<&'a str>) -> bool
        decreases self,
    {
        match self.value {
            Some((_, value)) => value.well_scoped(names),
            None => true,
        }
    }
}

impl<'a> EnumTypeSpecifier<'a> {
    pub open spec fn well_scoped(self, names: Seq<&'a str>) -> bool
        decreases self,
    {
        self.specifier_qualifiers.well_scoped(names)
    }
}

impl<'a> AtomicTypeSpecifier<'a> {
    pub open spec fn well_scoped(self, names: Seq<&'a str>) -> bool
        decreases self,
    {
        self.typename.well_scoped(names)
    }
}

impl<'a> TypeofSpecifier<'a> {
    pub open spec fn well_scoped(self, names: Seq<&'a str>) -> bool
        decreases self,
    {
        self.argument.well_scoped(names)
    }
}

impl<'a> TypeofSpecifierArgument<'a> {
    pub open spec fn well_scoped(self, names: Seq<&'a str>) -> bool
        decreases self,
    {
        match self.kind {
            TypeofSpecifierArgumentKind::Expression(expression) => expression.well_scoped(names),
            TypeofSpecifierArgumentKind::Type(typename) => typename.well_scoped(names),
        }
    }
}

impl<'a> AlignmentSpecifier<'a> {
    pub open spec fn well_scoped(self, names: Seq<&'a str>) -> bool
        decreases self,
    {
        match self.kind {
            AlignmentSpecifierKind::Type(typename) => typename.well_scoped(names),
            AlignmentSpecifierKind::Expression(expression) => expression.well_scoped(names),
        }
    }
}

} // verus!
