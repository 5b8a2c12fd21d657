//! What it means for a syntax tree to lie over a stretch of tokens.
//!
//! Every node of the tree has a spec function `span_end`. Given the token
//! sequence and a position in it, it walks the node and the tokens side by
//! side: each token that the node stands for must be there, of the right
//! kind and, where the node records it, at the recorded place. The result
//! is the position after the node's last token, or `None` where the tokens
//! do not spell the node out. Positions are threaded through as
//! `Option<int>`, so that a mismatch anywhere makes the whole walk `None`.
//!
//! The parser's contracts are stated with these functions: a rule that
//! succeeds returns a tree whose `span_end` from the old cursor is the new
//! cursor.

use crate::token::{At, Token, TokenKind};
use vstd::prelude::*;

pub mod declarations;
pub mod declarators;
pub mod expressions;
pub mod statements;
pub mod types;

verus! {

/// The token at `from` has the given kind and place: the position after it.
pub open spec fn token_at(tokens: Seq<Token>, from: Option<int>, kind: TokenKind, at: At) -> Option<
    int,
> {
    match from {
        Some(p) if 0 <= p < tokens.len() && tokens[p].kind == kind && tokens[p].at == at => Some(
            p + 1,
        ),
        _ => None,
    }
}

/// The token at `from` has the given kind: the position after it.
pub open spec fn kind_at(tokens: Seq<Token>, from: Option<int>, kind: TokenKind) -> Option<int> {
    match from {
        Some(p) if 0 <= p < tokens.len() && tokens[p].kind == kind => Some(p + 1),
        _ => None,
    }
}

/// Whether the token at `from` stands at the given place.
pub open spec fn starts_at(tokens: Seq<Token>, from: Option<int>, at: At) -> bool {
    match from {
        Some(p) => 0 <= p < tokens.len() && tokens[p].at == at,
        None => false,
    }
}

} // verus!
