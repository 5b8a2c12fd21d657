//! Which typedef names a piece of syntax may use as types.
//!
//! Every node of the tree that can hold a type specifier has a spec
//! function `well_scoped`. Given the typedef names of the scopes that are
//! open where the node begins, it says whether each typedef name that
//! stands as a type specifier in the node has been declared before it: in
//! one of those scopes, or further up in the node in a scope that is
//! still open. A typedef name is declared where the name of its
//! declarator stands; it is known to the end of the block, or of the
//! `for` statement, that its declaration stands in.
//!
//! The parser's contracts are stated with these functions: a rule that
//! succeeds returns a tree that is well scoped under the typedef names of
//! the state in which the rule began.

use vstd::prelude::*;

pub mod declarations;
pub mod declarators;
pub mod expressions;
pub mod statements;
pub mod types;

verus! {

/// Whether `name` is among the typedef names `names`.
pub open spec fn declared(names: Seq<&str>, name: &str) -> bool {
    exists|i: int| 0 <= i < names.len() && (#[trigger] names[i])@ == name@
}

/// The typedef names `names`, with `name` behind them where it is declared
/// as one.
pub open spec fn extended<'a>(names: Seq<&'a str>, is_typedef: bool, name: &'a str) -> Seq<
    &'a str,
> {
    if is_typedef {
        names + seq![name]
    } else {
        names
    }
}

} // verus!
