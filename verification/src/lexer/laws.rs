//! What holds of the scanner on every text.

use crate::lexer::model::{
    best_fixed, directive_at, end_file, fixed_at, integer_at, matches_at, no_file, run_end,
    scan, scan_from, start, step, string_end, string_prefix_at, suffix_at, token_at, CharClass,
    ScanState,
};
use crate::lexer::table::{
    fixed_kind, lemma_fixed_kind_number, lemma_fixed_spellings, FIXED_COUNT,
};
use crate::parser::eof_ahead;
use crate::token::{first_index_of, views, At, IntegerFormat, Lexeme, Token, TokenKind, TokenView};
use vstd::prelude::*;

verus! {

/// What [`best_fixed`] finds among the first `n` punctuators and keywords:
/// one whose spelling stands in the text and is as long as any that does,
/// or nothing where none does.
pub proof fn lemma_best_fixed(src: Seq<char>, i: int, n: int)
    requires
        0 <= n <= FIXED_COUNT,
    ensures
        match best_fixed(src, i, n) {
            Some(best) => {
                &&& best.is_fixed()
                &&& matches_at(src, i, best.spelling())
                &&& forall|j: int|
                    0 <= j < n && matches_at(src, i, #[trigger] fixed_kind(j).spelling())
                        ==> fixed_kind(j).spelling().len() <= best.spelling().len()
            },
            None => forall|j: int|
                0 <= j < n ==> !matches_at(src, i, #[trigger] fixed_kind(j).spelling()),
        },
    decreases n,
{
    if n > 0 {
        lemma_best_fixed(src, i, n - 1);
        assert(fixed_kind(n - 1).is_fixed());
    }
}

/// Longest match: the punctuator or keyword that the scanner reads at a
/// place is spelled there, and no punctuator or keyword with a longer
/// spelling is; it reads none only where none is spelled there.
pub proof fn lemma_longest_match(src: Seq<char>, i: int, other: TokenKind)
    requires
        other.is_fixed(),
        matches_at(src, i, other.spelling()),
    ensures
        fixed_at(src, i) matches Some(kind) && kind.is_fixed() && matches_at(
            src,
            i,
            kind.spelling(),
        ) && other.spelling().len() <= kind.spelling().len(),
{
    lemma_best_fixed(src, i, FIXED_COUNT as int);
    lemma_fixed_kind_number(other);
    assert(fixed_kind(other.ordinal() - 3) == other);
}

/// Each punctuator and each keyword, scanned alone, is one token of its
/// own kind, with the end marker behind it.
pub proof fn lemma_fixed_token_scans_alone<'a>(kind: TokenKind<'a>)
    requires
        kind.is_fixed(),
    ensures
        scan::<'a>(kind.spelling()).0 == seq![
            TokenView { at: At { file: 0, line: 1, column: 1 }, kind: Lexeme::Plain(kind) },
            TokenView {
                at: At { file: 1, line: 1, column: 1 },
                kind: Lexeme::Plain(TokenKind::Eof),
            },
        ],
{
    let src = kind.spelling();
    lemma_fixed_spellings();
    assert(src.subrange(0, src.len() as int) =~= src);
    lemma_longest_match(src, 0, kind);
    let found = fixed_at(src, 0)->0;
    assert(found.spelling() =~= src) by {
        assert(found.spelling() == src.subrange(0, found.spelling().len() as int));
    }
    assert(found == kind);
    let first = TokenView::<'a> {
        at: At { file: 0, line: 1, column: 1 },
        kind: Lexeme::Plain(kind),
    };
    assert(token_at::<'a>(src, 0) == (Lexeme::<'a>::Plain(kind), src.len() as int));
    let next = step::<'a>(src, start()).0;
    assert(step::<'a>(src, start()).1 == Some(first));
    assert(next.index == src.len());
    assert(next.files == start().files);
    reveal_with_fuel(scan_from, 2);
    assert(scan_from::<'a>(src, start()).0 =~= seq![first]);
    assert(scan_from::<'a>(src, start()).1 == seq![no_file()]);
    reveal_strlit("<dummy file; this should never appear; lexer bug>");
    reveal_strlit("<EOF>");
    reveal_with_fuel(first_index_of, 2);
    assert(seq![no_file()].drop_last() =~= Seq::<Seq<char>>::empty());
    assert(no_file()[1] == 'd' && end_file()[1] == 'E');
    assert(seq![no_file()].last() == no_file());
    assert(first_index_of(seq![no_file()], end_file()) is None);
    assert(scan::<'a>(src).0 =~= seq![
        first,
        TokenView { at: At { file: 1, line: 1, column: 1 }, kind: Lexeme::Plain(TokenKind::Eof) },
    ]);
}

/// What the scanner gives can be parsed: the tokens of a text end with the
/// end marker that the parser asks for.
pub proof fn lemma_scanned_tokens_hold_an_end_marker<'a>(tokens: Seq<Token<'a>>, src: Seq<char>)
    requires
        views(tokens) == scan::<'a>(src).0,
    ensures
        tokens.len() > 0,
        tokens.last().kind is Eof,
        eof_ahead(tokens, 0),
{
    let scanned = scan_from::<'a>(src, start()).0;
    assert(views(tokens).len() == tokens.len());
    assert(scan::<'a>(src).0.len() == scanned.len() + 1);
    let last = tokens.len() - 1;
    assert(views(tokens)[last] == tokens[last]@);
    assert(scan::<'a>(src).0[last].kind == Lexeme::Plain(TokenKind::<'a>::Eof));
    assert(tokens[last].kind is Eof);
}

/// A run ends at its beginning or behind it, within the text.
pub proof fn lemma_run_end_bounds(src: Seq<char>, from: int, class: CharClass)
    requires
        0 <= from <= src.len(),
    ensures
        from <= run_end(src, from, class) <= src.len(),
    decreases src.len() - from,
{
    if from < src.len() && class.holds(src[from]) {
        lemma_run_end_bounds(src, from + 1, class);
    }
}

/// The quote that ends a string literal stands in the text, at the
/// beginning of the contents or behind it.
pub proof fn lemma_string_end_bounds(src: Seq<char>, from: int)
    requires
        0 <= from,
    ensures
        string_end(src, from) matches Some(end) ==> from <= end < src.len(),
    decreases src.len() - from,
{
    if from < src.len() {
        if src[from] == '\\' && from + 1 < src.len() && src[from + 1] == '"' {
            lemma_string_end_bounds(src, from + 2);
        } else if src[from] != '"' {
            lemma_string_end_bounds(src, from + 1);
        }
    }
}

/// A suffix has one to three characters, and they stand in the text.
pub proof fn lemma_suffix_at_bounds(src: Seq<char>, i: int)
    ensures
        suffix_at(src, i) matches Some((_, length)) ==> 1 <= length <= 3 && 0 <= i && i + length
            <= src.len(),
{
    reveal_strlit("ull");
    reveal_strlit("ULL");
    reveal_strlit("uLL");
    reveal_strlit("Ull");
    reveal_strlit("llu");
    reveal_strlit("LLU");
    reveal_strlit("llU");
    reveal_strlit("LLu");
    reveal_strlit("uwb");
    reveal_strlit("UWB");
    reveal_strlit("uWB");
    reveal_strlit("Uwb");
    reveal_strlit("wbu");
    reveal_strlit("WBU");
    reveal_strlit("wbU");
    reveal_strlit("WBu");
    reveal_strlit("ul");
    reveal_strlit("UL");
    reveal_strlit("uL");
    reveal_strlit("Ul");
    reveal_strlit("lu");
    reveal_strlit("LU");
    reveal_strlit("lU");
    reveal_strlit("Lu");
    reveal_strlit("ll");
    reveal_strlit("LL");
    reveal_strlit("wb");
    reveal_strlit("WB");
    reveal_strlit("u");
    reveal_strlit("U");
    reveal_strlit("l");
    reveal_strlit("L");
}

/// An integer literal ends at the beginning of its digits or behind it,
/// within the text.
pub proof fn lemma_integer_at_bounds<'a>(src: Seq<char>, from: int, format: IntegerFormat)
    requires
        0 <= from <= src.len(),
    ensures
        from <= integer_at::<'a>(src, from, format).1 <= src.len(),
        from < src.len() && CharClass::Digits(format).holds(src[from]) ==> from < integer_at::<'a>(
            src,
            from,
            format,
        ).1,
{
    lemma_run_end_bounds(src, from, CharClass::Digits(format));
    lemma_suffix_at_bounds(src, run_end(src, from, CharClass::Digits(format)));
    if from < src.len() && CharClass::Digits(format).holds(src[from]) {
        lemma_run_end_bounds(src, from + 1, CharClass::Digits(format));
    }
}

/// Every step of the scanner moves forward in the text, and not past its
/// end: the scanner reads the text to its end.
pub proof fn lemma_step_advances<'a>(src: Seq<char>, state: ScanState)
    requires
        0 <= state.index < src.len(),
    ensures
        state.index < step::<'a>(src, state).0.index <= src.len(),
{
    let i = state.index;
    let c = src[i];
    if c == '\n' || crate::lexer::model::is_whitespace(c) {
    } else if c == '#' {
        if directive_at(src, i) is Some {
            reveal_strlit("# ");
            reveal_strlit(" \"");
            let digits_end = run_end(src, i + 2, CharClass::DecimalDigits);
            lemma_run_end_bounds(src, i + 2, CharClass::DecimalDigits);
            lemma_run_end_bounds(src, digits_end + 2, CharClass::Except('"'));
            let name_end = run_end(src, digits_end + 2, CharClass::Except('"'));
            lemma_run_end_bounds(src, name_end + 1, CharClass::Except('\n'));
        }
    } else {
        lemma_best_fixed(src, i, FIXED_COUNT as int);
        lemma_fixed_spellings();
        match fixed_at(src, i) {
            Some(kind) => {},
            None => {
                reveal_strlit("\"");
                reveal_strlit("u8\"");
                reveal_strlit("u\"");
                reveal_strlit("U\"");
                reveal_strlit("L\"");
                reveal_strlit("0x");
                reveal_strlit("0X");
                reveal_strlit("0b");
                reveal_strlit("0B");
                match string_prefix_at(src, i) {
                    Some((encoding, prefix)) => {
                        lemma_string_end_bounds(src, i + prefix + 1);
                    },
                    None => {
                        if i + 2 <= src.len() {
                            lemma_integer_at_bounds(src, i + 2, IntegerFormat::Hexadecimal);
                            lemma_integer_at_bounds(src, i + 2, IntegerFormat::Binary);
                        }
                        lemma_integer_at_bounds(src, i, IntegerFormat::Octal);
                        lemma_integer_at_bounds(src, i, IntegerFormat::Decimal);
                        lemma_run_end_bounds(src, i + 1, CharClass::Identifier);
                    },
                }
            },
        }
    }
}

/// A name that is found in a table is found at a place in it.
pub proof fn lemma_first_index_of_bounds(names: Seq<Seq<char>>, name: Seq<char>)
    ensures
        first_index_of(names, name) matches Some(i) ==> 0 <= i < names.len(),
    decreases names.len(),
{
    if names.len() > 0 {
        lemma_first_index_of_bounds(names.drop_last(), name);
    }
}

/// No token that a step reads is the end marker.
pub proof fn lemma_step_reads_no_end_marker<'a>(src: Seq<char>, state: ScanState)
    requires
        0 <= state.index < src.len(),
    ensures
        step::<'a>(src, state).1 matches Some(token) ==> token.kind != Lexeme::Plain(
            TokenKind::<'a>::Eof,
        ),
{
    lemma_best_fixed(src, state.index, FIXED_COUNT as int);
}

/// The end marker is the last token of a scan, and the only one.
pub proof fn lemma_scan_from_holds_no_end_marker<'a>(src: Seq<char>, state: ScanState, i: int)
    requires
        0 <= i < scan_from::<'a>(src, state).0.len(),
    ensures
        scan_from::<'a>(src, state).0[i].kind != Lexeme::Plain(TokenKind::<'a>::Eof),
    decreases src.len() - state.index,
{
    if 0 <= state.index < src.len() {
        lemma_step_advances(src, state);
        lemma_step_reads_no_end_marker(src, state);
        let next = step::<'a>(src, state).0;
        match step::<'a>(src, state).1 {
            Some(token) => {
                if i > 0 {
                    lemma_scan_from_holds_no_end_marker(src, next, i - 1);
                }
            },
            None => {
                lemma_scan_from_holds_no_end_marker(src, next, i);
            },
        }
    }
}

/// The file table of a scan holds the files that were there when the
/// scan began.
pub proof fn lemma_scan_from_keeps_files<'a>(src: Seq<char>, state: ScanState)
    ensures
        state.files.len() <= scan_from::<'a>(src, state).1.len(),
    decreases src.len() - state.index,
{
    if 0 <= state.index < src.len() {
        lemma_step_advances(src, state);
        lemma_scan_from_keeps_files(src, step::<'a>(src, state).0);
    }
}

/// Every token of a scan stands in a file of the file table, where the
/// table is one that a `usize` can count.
pub proof fn lemma_scan_from_files<'a>(src: Seq<char>, state: ScanState, i: int)
    requires
        state.at.file < state.files.len(),
        scan_from::<'a>(src, state).1.len() <= usize::MAX,
        0 <= i < scan_from::<'a>(src, state).0.len(),
    ensures
        scan_from::<'a>(src, state).0[i].at.file < scan_from::<'a>(src, state).1.len(),
    decreases src.len() - state.index,
{
    if 0 <= state.index < src.len() {
        lemma_step_advances(src, state);
        let next = step::<'a>(src, state).0;
        lemma_scan_from_keeps_files(src, state);
        lemma_scan_from_keeps_files(src, next);
        if src[state.index] == '#' && directive_at(src, state.index) is Some {
            lemma_first_index_of_bounds(state.files, directive_at(src, state.index)->0.file);
        }
        match step::<'a>(src, state).1 {
            Some(token) => {
                if i > 0 {
                    lemma_scan_from_files(src, next, i - 1);
                }
            },
            None => {
                lemma_scan_from_files(src, next, i);
            },
        }
    }
}

/// Every token of a scanned text stands in a file of its file table, and
/// only the last token is the end marker.
pub proof fn lemma_scan_is_well_formed<'a>(src: Seq<char>, i: int)
    requires
        scan::<'a>(src).1.len() <= usize::MAX,
        0 <= i < scan::<'a>(src).0.len(),
    ensures
        scan::<'a>(src).0[i].at.file < scan::<'a>(src).1.len(),
        scan::<'a>(src).0[i].kind == Lexeme::Plain(TokenKind::<'a>::Eof) <==> i == scan::<'a>(
            src,
        ).0.len() - 1,
{
    let tokens = scan_from::<'a>(src, start()).0;
    let files = scan_from::<'a>(src, start()).1;
    lemma_scan_from_keeps_files(src, start());
    lemma_first_index_of_bounds(files, end_file());
    if i < tokens.len() {
        lemma_scan_from_files(src, start(), i);
        lemma_scan_from_holds_no_end_marker(src, start(), i);
    }
}

} // verus!
