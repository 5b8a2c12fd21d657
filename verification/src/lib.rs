//! A front end for a C-like language: a scanner that turns preprocessed
//! source text into tokens, and a recursive-descent parser that turns the
//! tokens into a concrete syntax tree.
//!
//! - [`token`]: tokens, source locations and the table of file names.
//! - [`lexer`]: the scanner. What it computes is defined in
//!   [`lexer::model`] as a function of the characters of the text; the
//!   scanner is proved to compute exactly that.
//! - [`ast`]: the syntax tree.
//! - [`grammar`]: what each rule of the parser reads, as a function of
//!   the tokens, the position and the typedef names in scope.
//! - [`parser`]: the parser: its state, the means to try a rule and take
//!   the attempt back, and the rules, each proved to return what the
//!   grammar gives.
//! - [`span`], [`scope`], [`typedefs`]: what the parser's contracts say
//!   of a tree: that it lies over the tokens that were read, in the shape
//!   that the grammar gives it; that the typedef names which it uses as
//!   types were declared before their use, in a scope that was still
//!   open; and which typedef names it declares.

pub mod ast;
pub mod grammar;
pub mod lexer;
pub mod parser;
pub mod scope;
pub mod span;
pub mod token;
pub mod typedefs;
