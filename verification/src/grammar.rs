//! The grammar: what each rule of the parser reads, as a function of the
//! tokens, the position and the typedef names in scope.
//!
//! A rule gives the tree that it reads from a position and the position
//! behind it, or nothing where it fails. The rules are written as the
//! parser runs them: the parts of a rule one after the other, and the
//! alternatives of a rule in their order, the first that reads something
//! being taken. Positions are threaded through as `Option<int>`, so that
//! a part that fails makes all that follows fail.
//!
//! The rules call each other recursively. Each call is passed through
//! [`forward`], which lets pass only what ends behind the position where
//! it began; every rule does, and the parser proves it of each together
//! with the equality to what the rule gives.
//!
//! Each rule is a pair of functions: `..._at` is what the contracts
//! speak of, and `..._rule` is the rule written out. The second is
//! opaque, so that a proof about one rule unfolds that rule and no
//! other.

use crate::token::{At, Token, TokenKind};
use vstd::prelude::*;

pub mod declarations;
pub mod declarators;
pub mod expressions;
pub mod statements;
pub mod types;

verus! {

/// How many tokens lie at a position and after it, and one more; nothing
/// for no position. The rules decrease it.
pub open spec fn room(tokens: Seq<Token>, from: Option<int>) -> nat {
    match from {
        Some(p) if 0 <= p <= tokens.len() => (tokens.len() - p + 1) as nat,
        _ => 0,
    }
}

/// The position behind what was read.
#[verifier::inline]
pub open spec fn end<T>(out: Option<(T, int)>) -> Option<int> {
    match out {
        Some((_, e)) => Some(e),
        None => None,
    }
}

/// What was read.
#[verifier::inline]
pub open spec fn node<T>(out: Option<(T, int)>) -> T {
    let pair = out->0;
    pair.0
}

/// The outcome of a rule that ends at `last`, if all its parts were read.
#[verifier::inline]
pub open spec fn finish<T>(last: Option<int>, tree: T) -> Option<(T, int)> {
    match last {
        Some(e) => Some((tree, e)),
        None => None,
    }
}

/// What a rule has read from `from`, as far as it ends behind `from` and
/// within the tokens.
#[verifier::inline]
pub open spec fn forward<T>(tokens: Seq<Token>, from: Option<int>, out: Option<(T, int)>) -> Option<
    (T, int),
> {
    match (from, out) {
        (Some(p), Some((_, e))) if p < e <= tokens.len() => out,
        _ => None,
    }
}

/// As [`forward`], for a rule that may read nothing: what it has read
/// from `from`, as far as it ends at `from` or behind it.
#[verifier::inline]
pub open spec fn onward<T>(tokens: Seq<Token>, from: Option<int>, out: Option<(T, int)>) -> Option<
    (T, int),
> {
    match (from, out) {
        (Some(p), Some((_, e))) if p <= e <= tokens.len() => out,
        _ => None,
    }
}

/// An optional part: what was read and the position behind it, or
/// nothing and the position where it would have begun.
#[verifier::inline]
pub open spec fn maybe<T>(from: Option<int>, out: Option<(T, int)>) -> (Option<T>, Option<int>) {
    match out {
        Some((tree, e)) => (Some(tree), Some(e)),
        None => (None, from),
    }
}

/// The kind of the token at `from`, where a token is there.
#[verifier::inline]
pub open spec fn kind_of<'a>(tokens: Seq<Token<'a>>, from: Option<int>) -> Option<TokenKind<'a>> {
    match from {
        Some(p) if 0 <= p < tokens.len() => Some(tokens[p].kind),
        _ => None,
    }
}

/// Whether a token of the kind `kind` stands at `from`.
#[verifier::inline]
pub open spec fn is_at(tokens: Seq<Token>, from: Option<int>, kind: TokenKind) -> bool {
    kind_of(tokens, from) == Some(kind)
}

/// The place of the token at `from`, where a token is there.
#[verifier::inline]
pub open spec fn place(tokens: Seq<Token>, from: Option<int>) -> At {
    tokens[from->0].at
}

/// The position behind the token at `from`.
#[verifier::inline]
pub open spec fn behind(from: Option<int>) -> Option<int> {
    match from {
        Some(p) if 0 <= p => Some(p + 1),
        _ => None,
    }
}

/// A token of the kind `kind` at `from`: its place and the position
/// behind it.
#[verifier::inline]
pub open spec fn take(tokens: Seq<Token>, from: Option<int>, kind: TokenKind) -> Option<(At, int)> {
    match from {
        Some(p) if 0 <= p < tokens.len() && tokens[p].kind == kind => Some((tokens[p].at, p + 1)),
        _ => None,
    }
}

/// An identifier at `from`: its name and the position behind it.
#[verifier::inline]
pub open spec fn take_identifier<'a>(tokens: Seq<Token<'a>>, from: Option<int>) -> Option<
    (&'a str, int),
> {
    match kind_of(tokens, from) {
        Some(TokenKind::Identifier(name)) => Some((name, from->0 + 1)),
        _ => None,
    }
}

} // verus!
