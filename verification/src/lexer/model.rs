//! What the scanner computes, as functions on the characters of the
//! source.
//!
//! [`scan`] gives the tokens and the file table of a source text. It is
//! built from [`step`], which reads one token, one blank or one line
//! directive, and moves the place in the text along.

use crate::lexer::laws::lemma_step_advances;
use crate::lexer::table::{fixed_kind, FIXED_COUNT};
use crate::token::{
    first_index_of, At, IntegerFormat, IntegerSuffix, Lexeme, StringEncoding, TokenKind,
    TokenView,
};
use vstd::prelude::*;

verus! {

/// The characters with the Unicode property `White_Space`.
pub open spec fn is_whitespace(c: char) -> bool {
    ||| '\u{9}' <= c <= '\u{d}'
    ||| c == ' '
    ||| c == '\u{85}'
    ||| c == '\u{a0}'
    ||| c == '\u{1680}'
    ||| '\u{2000}' <= c <= '\u{200a}'
    ||| c == '\u{2028}'
    ||| c == '\u{2029}'
    ||| c == '\u{202f}'
    ||| c == '\u{205f}'
    ||| c == '\u{3000}'
}

pub open spec fn is_decimal_digit(c: char) -> bool {
    '0' <= c <= '9'
}

pub open spec fn is_letter(c: char) -> bool {
    'a' <= c <= 'z' || 'A' <= c <= 'Z'
}

/// The characters that an identifier is made of.
pub open spec fn is_identifier_char(c: char) -> bool {
    is_letter(c) || is_decimal_digit(c) || c == '_'
}

/// The characters that the digits of an integer literal of the given
/// base are made of: its digits and the digit separator.
pub open spec fn is_digit_char(format: IntegerFormat, c: char) -> bool {
    c == '\'' || match format {
        IntegerFormat::Decimal => is_decimal_digit(c),
        IntegerFormat::Octal => '0' <= c <= '7',
        IntegerFormat::Hexadecimal => is_decimal_digit(c) || 'a' <= c <= 'f' || 'A' <= c <= 'F',
        IntegerFormat::Binary => c == '0' || c == '1',
    }
}

/// Whether `pattern` stands in `src` at `i`.
pub open spec fn matches_at(src: Seq<char>, i: int, pattern: Seq<char>) -> bool {
    &&& 0 <= i
    &&& i + pattern.len() <= src.len()
    &&& src.subrange(i, i + pattern.len()) == pattern
}

/// A set of characters that a run is made of.
#[derive(Clone, Copy)]
pub enum CharClass {
    /// The digits of an integer literal of a base, and the digit
    /// separator.
    Digits(IntegerFormat),
    /// The decimal digits.
    DecimalDigits,
    /// Letters, decimal digits and `_`.
    Identifier,
    /// Every character but one.
    Except(char),
}

impl CharClass {
    pub open spec fn holds(self, c: char) -> bool {
        match self {
            CharClass::Digits(format) => is_digit_char(format, c),
            CharClass::DecimalDigits => is_decimal_digit(c),
            CharClass::Identifier => is_identifier_char(c),
            CharClass::Except(other) => c != other,
        }
    }
}

/// The end of the longest run of characters of `class` that begins at
/// `from`.
pub open spec fn run_end(src: Seq<char>, from: int, class: CharClass) -> int
    decreases src.len() - from,
{
    if 0 <= from < src.len() && class.holds(src[from]) {
        run_end(src, from + 1, class)
    } else {
        from
    }
}

/// A location moved `by` columns to the right; the column stops at the
/// largest number that it can hold.
pub open spec fn moved(at: At, by: int) -> At {
    At {
        column: if at.column + by <= u32::MAX {
            (at.column + by) as u32
        } else {
            u32::MAX
        },
        ..at
    }
}

/// The first column of the following line; the line stops at the largest
/// number that it can hold.
pub open spec fn next_line(at: At) -> At {
    At {
        line: if at.line < u32::MAX {
            (at.line + 1) as u32
        } else {
            u32::MAX
        },
        column: 1,
        ..at
    }
}

/// Among the first `n` punctuators and keywords, the one with the longest
/// spelling that stands in `src` at `i`, and the first such one.
pub open spec fn best_fixed(src: Seq<char>, i: int, n: int) -> Option<TokenKind<'static>>
    decreases n,
{
    if n <= 0 {
        None
    } else {
        let kind = fixed_kind(n - 1);
        match best_fixed(src, i, n - 1) {
            Some(best) => if matches_at(src, i, kind.spelling()) && kind.spelling().len()
                > best.spelling().len() {
                Some(kind)
            } else {
                Some(best)
            },
            None => if matches_at(src, i, kind.spelling()) {
                Some(kind)
            } else {
                None
            },
        }
    }
}

/// The punctuator or keyword that stands in `src` at `i`: where several
/// do, the longest.
pub open spec fn fixed_at(src: Seq<char>, i: int) -> Option<TokenKind<'static>> {
    best_fixed(src, i, FIXED_COUNT as int)
}

/// The encoding and the length of the prefix of the string literal that
/// begins in `src` at `i`, if one begins there: an encoding prefix, if
/// any, right in front of a quote.
pub open spec fn string_prefix_at(src: Seq<char>, i: int) -> Option<(StringEncoding, int)> {
    if matches_at(src, i, "\""@) {
        Some((StringEncoding::Ordinary, 0))
    } else if matches_at(src, i, "u8\""@) {
        Some((StringEncoding::UTF8, 2))
    } else if matches_at(src, i, "u\""@) {
        Some((StringEncoding::UTF16, 1))
    } else if matches_at(src, i, "U\""@) {
        Some((StringEncoding::UTF32, 1))
    } else if matches_at(src, i, "L\""@) {
        Some((StringEncoding::Wide, 1))
    } else {
        None
    }
}

/// The place of the quote that ends the string literal whose contents
/// begin at `from`: the first quote that no backslash stands in front of.
pub open spec fn string_end(src: Seq<char>, from: int) -> Option<int>
    decreases src.len() - from,
{
    if from < 0 || from >= src.len() {
        None
    } else if src[from] == '\\' && from + 1 < src.len() && src[from + 1] == '"' {
        string_end(src, from + 2)
    } else if src[from] == '"' {
        Some(from)
    } else {
        string_end(src, from + 1)
    }
}

/// The suffix of an integer literal that stands in `src` at `i`, and its
/// length: where several do, the longest.
pub open spec fn suffix_at(src: Seq<char>, i: int) -> Option<(IntegerSuffix, int)> {
    if matches_at(src, i, "ull"@) || matches_at(src, i, "ULL"@) || matches_at(src, i, "uLL"@)
        || matches_at(src, i, "Ull"@) || matches_at(src, i, "llu"@) || matches_at(src, i, "LLU"@)
        || matches_at(src, i, "llU"@) || matches_at(src, i, "LLu"@) {
        Some((IntegerSuffix::LongLongUnsigned, 3))
    } else if matches_at(src, i, "uwb"@) || matches_at(src, i, "UWB"@) || matches_at(
        src,
        i,
        "uWB"@,
    ) || matches_at(src, i, "Uwb"@) || matches_at(src, i, "wbu"@) || matches_at(src, i, "WBU"@)
        || matches_at(src, i, "wbU"@) || matches_at(src, i, "WBu"@) {
        Some((IntegerSuffix::BitPreciseUnsigned, 3))
    } else if matches_at(src, i, "ul"@) || matches_at(src, i, "UL"@) || matches_at(src, i, "uL"@)
        || matches_at(src, i, "Ul"@) || matches_at(src, i, "lu"@) || matches_at(src, i, "LU"@)
        || matches_at(src, i, "lU"@) || matches_at(src, i, "Lu"@) {
        Some((IntegerSuffix::LongUnsigned, 2))
    } else if matches_at(src, i, "ll"@) || matches_at(src, i, "LL"@) {
        Some((IntegerSuffix::LongLong, 2))
    } else if matches_at(src, i, "wb"@) || matches_at(src, i, "WB"@) {
        Some((IntegerSuffix::BitPrecise, 2))
    } else if matches_at(src, i, "u"@) || matches_at(src, i, "U"@) {
        Some((IntegerSuffix::Unsigned, 1))
    } else if matches_at(src, i, "l"@) || matches_at(src, i, "L"@) {
        Some((IntegerSuffix::Long, 1))
    } else {
        None
    }
}

/// The integer literal whose digits begin in `src` at `from`, and the
/// place behind it: the digits, then the suffix if one follows.
pub open spec fn integer_at<'a>(src: Seq<char>, from: int, format: IntegerFormat) -> (Lexeme<'a>, int) {
    let end = run_end(src, from, CharClass::Digits(format));
    match suffix_at(src, end) {
        Some((suffix, length)) => (
            Lexeme::Integer(src.subrange(from, end), format, Some(suffix)),
            end + length,
        ),
        None => (Lexeme::Integer(src.subrange(from, end), format, None), end),
    }
}

/// The token that begins in `src` at `i`, where `i` is in the text, and
/// the place behind it.
///
/// A punctuator or keyword comes before everything else, so a keyword is
/// read also where more letters follow it. A string literal that is not
/// closed is an error token that runs to the end of the text. An integer
/// literal is hexadecimal after `0x`, binary after `0b`, octal where it
/// begins with `0`, else decimal. A character that begins no token is an
/// error token.
pub open spec fn token_at<'a>(src: Seq<char>, i: int) -> (Lexeme<'a>, int) {
    match fixed_at(src, i) {
        Some(kind) => (Lexeme::Plain(kind), i + kind.spelling().len()),
        None => match string_prefix_at(src, i) {
            Some((encoding, prefix)) => match string_end(src, i + prefix + 1) {
                Some(end) => (
                    Lexeme::String(src.subrange(i + prefix + 1, end), encoding),
                    end + 1,
                ),
                None => (Lexeme::Plain(TokenKind::Error), src.len() as int),
            },
            None => if matches_at(src, i, "0x"@) || matches_at(src, i, "0X"@) {
                integer_at(src, i + 2, IntegerFormat::Hexadecimal)
            } else if matches_at(src, i, "0b"@) || matches_at(src, i, "0B"@) {
                integer_at(src, i + 2, IntegerFormat::Binary)
            } else if src[i] == '0' {
                integer_at(src, i, IntegerFormat::Octal)
            } else if is_decimal_digit(src[i]) {
                integer_at(src, i, IntegerFormat::Decimal)
            } else if is_letter(src[i]) || src[i] == '_' {
                let end = run_end(src, i, CharClass::Identifier);
                (Lexeme::Identifier(src.subrange(i, end)), end)
            } else {
                (Lexeme::Plain(TokenKind::Error), i + 1)
            },
        },
    }
}

/// The number that decimal digits spell.
pub open spec fn decimal_value(digits: Seq<char>) -> nat
    decreases digits.len(),
{
    if digits.len() == 0 {
        0
    } else {
        10 * decimal_value(digits.drop_last()) + (digits.last() as u32 - '0' as u32) as nat
    }
}

/// A line directive: the line number and the file name that it sets, and
/// the place behind it.
pub struct Directive {
    pub line: u32,
    pub file: Seq<char>,
    pub next: int,
}

/// The line directive that begins in `src` at `i`, if one does: `#`, a
/// space, a decimal line number that a `u32` can hold, a space, a file
/// name in quotes, and the rest of the line with the newline that ends
/// it.
pub open spec fn directive_at(src: Seq<char>, i: int) -> Option<Directive> {
    let digits_end = run_end(src, i + 2, CharClass::DecimalDigits);
    let name_end = run_end(src, digits_end + 2, CharClass::Except('"'));
    let line_end = run_end(src, name_end + 1, CharClass::Except('\n'));
    if matches_at(src, i, "# "@) && i + 2 < digits_end && decimal_value(
        src.subrange(i + 2, digits_end),
    ) <= u32::MAX && matches_at(src, digits_end, " \""@) && name_end < src.len() && line_end
        < src.len() {
        Some(
            Directive {
                line: decimal_value(src.subrange(i + 2, digits_end)) as u32,
                file: src.subrange(digits_end + 2, name_end),
                next: line_end + 1,
            },
        )
    } else {
        None
    }
}

/// The file table with `name` in it, added at the end unless it is there.
pub open spec fn with_file(files: Seq<Seq<char>>, name: Seq<char>) -> Seq<Seq<char>> {
    if first_index_of(files, name) is Some {
        files
    } else {
        files.push(name)
    }
}

/// The id of `name` in the file table with `name` in it.
pub open spec fn file_id(files: Seq<Seq<char>>, name: Seq<char>) -> int {
    match first_index_of(files, name) {
        Some(id) => id,
        None => files.len() as int,
    }
}

/// Where the scanner is: the place in the text, the location that it
/// stands for, and the files seen so far.
pub struct ScanState {
    pub index: int,
    pub at: At,
    pub files: Seq<Seq<char>>,
}

/// One step of the scanner from a place in the text: the state behind
/// what was read, and the token if one was read.
///
/// A newline begins the next line, other white space is passed over, and
/// a line directive sets the file and the line of what follows it. A `#`
/// that begins no line directive is an error token.
pub open spec fn step<'a>(src: Seq<char>, state: ScanState) -> (ScanState, Option<TokenView<'a>>) {
    let c = src[state.index];
    if c == '\n' {
        (ScanState { index: state.index + 1, at: next_line(state.at), ..state }, None)
    } else if is_whitespace(c) {
        (ScanState { index: state.index + 1, at: moved(state.at, 1), ..state }, None)
    } else if c == '#' {
        match directive_at(src, state.index) {
            Some(directive) => (
                ScanState {
                    index: directive.next,
                    at: At {
                        file: file_id(state.files, directive.file) as usize,
                        line: directive.line,
                        column: 1,
                    },
                    files: with_file(state.files, directive.file),
                },
                None,
            ),
            None => (
                ScanState { index: state.index + 1, at: moved(state.at, 1), ..state },
                Some(TokenView { at: state.at, kind: Lexeme::Plain(TokenKind::Error) }),
            ),
        }
    } else {
        let (kind, next) = token_at(src, state.index);
        (
            ScanState { index: next, at: moved(state.at, next - state.index), ..state },
            Some(TokenView { at: state.at, kind }),
        )
    }
}

/// The tokens that the scanner reads from `state` on, and the file table
/// at the end of the text.
pub open spec fn scan_from<'a>(src: Seq<char>, state: ScanState) -> (Seq<TokenView<'a>>, Seq<Seq<char>>)
    decreases src.len() - state.index,
{
    if state.index < 0 || state.index >= src.len() {
        (Seq::empty(), state.files)
    } else {
        proof {
            lemma_step_advances(src, state);
        }
        let rest = scan_from::<'a>(src, step::<'a>(src, state).0);
        match step::<'a>(src, state).1 {
            Some(token) => (seq![token] + rest.0, rest.1),
            None => rest,
        }
    }
}

/// The name of the file that the scanner is in before the first line
/// directive.
pub open spec fn no_file() -> Seq<char> {
    "<dummy file; this should never appear; lexer bug>"@
}

/// The name of the file of the end marker.
pub open spec fn end_file() -> Seq<char> {
    "<EOF>"@
}

/// The state in which the scanner begins.
pub open spec fn start() -> ScanState {
    ScanState { index: 0, at: At { file: 0, line: 1, column: 1 }, files: seq![no_file()] }
}

/// The tokens and the file table of a source text: the tokens that are
/// read from its beginning, then the end marker.
pub open spec fn scan<'a>(src: Seq<char>) -> (Seq<TokenView<'a>>, Seq<Seq<char>>) {
    let (tokens, files) = scan_from::<'a>(src, start());
    (
        tokens.push(
            TokenView {
                at: At { file: file_id(files, end_file()) as usize, line: 1, column: 1 },
                kind: Lexeme::Plain(TokenKind::Eof),
            },
        ),
        with_file(files, end_file()),
    )
}

} // verus!
