//! The scanner: from source text to tokens.
//!
//! What the scanner computes is stated in [`model`]; the scanner here
//! computes it in one pass over the characters.

use crate::lexer::model::{
    best_fixed, decimal_value, directive_at, file_id, fixed_at, integer_at, is_decimal_digit,
    is_digit_char, is_identifier_char, is_letter, is_whitespace, matches_at, moved, no_file,
    run_end, scan, scan_from, start, step, string_end, string_prefix_at, suffix_at, token_at,
    with_file, CharClass, ScanState,
};
use crate::lexer::laws::{lemma_scan_is_well_formed, lemma_scanned_tokens_hold_an_end_marker};
use crate::lexer::table::{fixed_token, FIXED_COUNT};
use crate::parser::eof_ahead;
use crate::token::{
    skip_chars, views, At, Files, IntegerFormat, IntegerSuffix, IntegerToken, Lexeme, StringEncoding, Token,
    TokenKind,
};
use vstd::prelude::*;
use vstd::string::StrSliceExecFns;

pub mod laws;
pub mod model;
pub mod table;

verus! {

/// The characters of a string.
pub fn chars_of(s: &str) -> (chars: Vec<char>)
    ensures
        chars@ == s@,
{
    let mut chars: Vec<char> = Vec::new();
    for c in it: s.chars()
        invariant
            it.seq() == s@,
            chars@ == it.seq().take(it.index()),
    {
        chars.push(c);
        proof {
            assert(chars@ =~= it.seq().take(it.index() + 1));
        }
    }
    proof {
        assert(chars@ =~= s@);
    }
    chars
}

/// Whether `c` has the Unicode property `White_Space`.
pub fn is_whitespace_char(c: char) -> (r: bool)
    ensures
        r == is_whitespace(c),
{
    ('\u{9}' <= c && c <= '\u{d}') || c == ' ' || c == '\u{85}' || c == '\u{a0}' || c == '\u{1680}'
        || ('\u{2000}' <= c && c <= '\u{200a}') || c == '\u{2028}' || c == '\u{2029}' || c
        == '\u{202f}' || c == '\u{205f}' || c == '\u{3000}'
}

fn is_octal_digit(c: char) -> (r: bool)
    ensures
        r == ('0' <= c <= '7'),
{
    '0' <= c && c <= '7'
}

fn is_binary_digit(c: char) -> (r: bool)
    ensures
        r == (c == '0' || c == '1'),
{
    c == '0' || c == '1'
}

fn is_ascii_digit(c: char) -> (r: bool)
    ensures
        r == is_decimal_digit(c),
{
    '0' <= c && c <= '9'
}

fn is_ascii_letter(c: char) -> (r: bool)
    ensures
        r == is_letter(c),
{
    ('a' <= c && c <= 'z') || ('A' <= c && c <= 'Z')
}

fn is_ascii_hexdigit(c: char) -> (r: bool)
    ensures
        r == (is_decimal_digit(c) || 'a' <= c <= 'f' || 'A' <= c <= 'F'),
{
    is_ascii_digit(c) || ('a' <= c && c <= 'f') || ('A' <= c && c <= 'F')
}

/// Whether `c` is in the class.
fn in_class(class: CharClass, c: char) -> (r: bool)
    ensures
        r == class.holds(c),
{
    match class {
        CharClass::Digits(format) => c == '\'' || match format {
            IntegerFormat::Decimal => is_ascii_digit(c),
            IntegerFormat::Octal => is_octal_digit(c),
            IntegerFormat::Hexadecimal => is_ascii_hexdigit(c),
            IntegerFormat::Binary => is_binary_digit(c),
        },
        CharClass::DecimalDigits => is_ascii_digit(c),
        CharClass::Identifier => is_ascii_letter(c) || is_ascii_digit(c) || c == '_',
        CharClass::Except(other) => c != other,
    }
}

/// A scanner over a source text.
pub struct Lexer<'a> {
    src: &'a str,
    chars: Vec<char>,
    /// The text from the cursor on.
    rest: &'a str,
    index: usize,
    at: At,
    files: Files,
}

impl<'a> Lexer<'a> {
    /// The text that is scanned.
    pub closed spec fn source(&self) -> Seq<char> {
        self.src@
    }

    /// Where the scanner is.
    pub closed spec fn state(&self) -> ScanState {
        ScanState { index: self.index as int, at: self.at, files: self.files@ }
    }

    /// The scanner holds the characters of its text, and is in the text
    /// or at its end; it holds the rest of the text from there on.
    pub closed spec fn wf(&self) -> bool {
        &&& self.chars@ == self.src@
        &&& self.index <= self.chars@.len() <= usize::MAX
        &&& self.rest@ == self.src@.skip(self.index as int)
    }

    /// A scanner at the beginning of `src`.
    pub fn new(src: &'a str) -> (lexer: Self)
        ensures
            lexer.wf(),
            lexer.source() == src@,
            lexer.state() == start(),
    {
        let mut files = Files::new();
        let dummy_file = files.get_file_id("<dummy file; this should never appear; lexer bug>");
        let chars = chars_of(src);
        // Taking the length makes known that it fits in a usize.
        let _length = chars.len();
        let lexer = Self {
            src,
            chars,
            rest: src,
            index: 0,
            at: At::new(dummy_file, 1, 1),
            files,
        };
        proof {
            assert(src@.skip(0) =~= src@);
            assert(lexer.files@ =~= seq![no_file()]);
        }
        lexer
    }

    /// Scans the text: the tokens, with the end marker behind them, and
    /// the table of the files that line directives name. Every token
    /// stands in a file of the table.
    pub fn lex(self) -> (r: (Vec<Token<'a>>, Files))
        requires
            self.wf(),
            self.state() == start(),
        ensures
            views(r.0@) == scan::<'a>(self.source()).0,
            r.1@ == scan::<'a>(self.source()).1,
            eof_ahead(r.0@, 0),
            forall|i: int| 0 <= i < r.0@.len() ==> (#[trigger] r.0@[i]).at.file < r.1@.len(),
    {
        let mut lexer = self;
        let mut tokens: Vec<Token<'a>> = Vec::new();
        let ghost src = lexer.src@;
        proof {
            assert(views(tokens@) + scan_from::<'a>(src, lexer.state()).0 =~= scan_from::<'a>(
                src,
                start(),
            ).0);
        }
        while !lexer.is_eof()
            invariant
                lexer.wf(),
                src == lexer.src@,
                views(tokens@) + scan_from::<'a>(src, lexer.state()).0 == scan_from::<'a>(
                    src,
                    start(),
                ).0,
                scan_from::<'a>(src, lexer.state()).1 == scan_from::<'a>(src, start()).1,
            decreases lexer.chars@.len() - lexer.index,
        {
            let ghost seen = views(tokens@);
            match lexer.lex_next() {
                Some(token) => {
                    tokens.push(token);
                    proof {
                        assert(views(tokens@) =~= seen.push(token@));
                        assert(seen + (seq![token@] + scan_from::<'a>(src, lexer.state()).0)
                            =~= views(tokens@) + scan_from::<'a>(src, lexer.state()).0);
                    }
                },
                None => {},
            }
        }
        proof {
            assert(views(tokens@) =~= scan_from::<'a>(src, start()).0);
        }
        let ghost seen = views(tokens@);
        let eof_file = lexer.files.get_file_id("<EOF>");
        let token = Token { at: At::new(eof_file, 1, 1), kind: TokenKind::Eof };
        tokens.push(token);
        // Taking the length makes known that it fits in a usize.
        let _count = lexer.files.len();
        proof {
            assert(views(tokens@) =~= seen.push(token@));
            lemma_scanned_tokens_hold_an_end_marker(tokens@, src);
            assert forall|i: int| 0 <= i < tokens@.len() implies (#[trigger] tokens@[i]).at.file
                < lexer.files@.len() by {
                lemma_scan_is_well_formed(src, i);
                assert(views(tokens@)[i] == tokens@[i]@);
            }
        }
        (tokens, lexer.files)
    }

    /// One step of the scanner: reads a token, or passes over a blank or
    /// a line directive.
    fn lex_next(&mut self) -> (r: Option<Token<'a>>)
        requires
            old(self).wf(),
            old(self).index < old(self).chars@.len(),
        ensures
            final(self).wf(),
            final(self).src@ == old(self).src@,
            old(self).index < final(self).index,
            final(self).state() == step::<'a>(old(self).src@, old(self).state()).0,
            match r {
                Some(token) => step::<'a>(old(self).src@, old(self).state()).1 == Some(token@),
                None => step::<'a>(old(self).src@, old(self).state()).1 is None,
            },
    {
        let c = self.cur();
        if c == '\n' {
            self.move_to(self.index + 1);
            if self.at.line < u32::MAX {
                self.at.next_line();
            } else {
                self.at.column = 1;
            }
            None
        } else if is_whitespace_char(c) {
            self.next();
            None
        } else if c == '#' {
            if self.process_line_directive() {
                None
            } else {
                let at = self.at;
                self.next();
                Some(Token { at, kind: TokenKind::Error })
            }
        } else {
            Some(self.lex_token())
        }
    }

    /// Reads the line directive under the cursor, if one is there: moves
    /// behind it, and sets the file and the line. Changes nothing where
    /// no line directive is there.
    pub fn process_line_directive(&mut self) -> (found: bool)
        requires
            old(self).wf(),
            old(self).state().index < old(self).source().len(),
        ensures
            final(self).wf(),
            final(self).source() == old(self).source(),
            match directive_at(old(self).source(), old(self).state().index) {
                Some(directive) => {
                    &&& found
                    &&& old(self).state().index < final(self).state().index == directive.next
                    &&& final(self).state().at == (At {
                        file: file_id(old(self).state().files, directive.file) as usize,
                        line: directive.line,
                        column: 1,
                    })
                    &&& final(self).state().files == with_file(old(self).state().files, directive.file)
                },
                None => !found && final(self).state() == old(self).state(),
            },
    {
        let start = self.index;
        if !self.matches("# ") {
            return false;
        }
        proof {
            reveal_strlit("# ");
            reveal_strlit(" \"");
        }
        let digits_end = self.run(start + 2, CharClass::DecimalDigits);
        let line = match self.line_number(start + 2, digits_end) {
            Some(line) => line,
            None => {
                return false;
            },
        };
        if digits_end == start + 2 || !self.matches_from(digits_end, " \"") {
            return false;
        }
        let name_end = self.run(digits_end + 2, CharClass::Except('"'));
        if name_end >= self.chars.len() {
            return false;
        }
        let line_end = self.run(name_end + 1, CharClass::Except('\n'));
        if line_end >= self.chars.len() {
            return false;
        }
        let name = self.text(digits_end + 2, name_end);
        let file = self.files.get_file_id(name);
        self.move_to(line_end + 1);
        self.at = At::new(file, line, 1);
        true
    }

    /// The number that the decimal digits from `from` to `to` spell, if
    /// a `u32` can hold it.
    fn line_number(&self, from: usize, to: usize) -> (r: Option<u32>)
        requires
            self.wf(),
            from <= to <= self.chars@.len(),
            forall|i: int| from <= i < to ==> is_decimal_digit(#[trigger] self.chars@[i]),
        ensures
            match r {
                Some(value) => value == decimal_value(self.src@.subrange(from as int, to as int)),
                None => decimal_value(self.src@.subrange(from as int, to as int)) > u32::MAX,
            },
    {
        let limit: u64 = 0x1_0000_0000;
        let mut value: u64 = 0;
        let mut i = from;
        proof {
            assert(self.src@.subrange(from as int, from as int) =~= Seq::<char>::empty());
        }
        while i < to
            invariant
                self.wf(),
                from <= i <= to <= self.chars@.len(),
                limit == 0x1_0000_0000,
                forall|i: int| from <= i < to ==> is_decimal_digit(#[trigger] self.chars@[i]),
                value <= limit,
                value == if decimal_value(self.src@.subrange(from as int, i as int)) < limit {
                    decimal_value(self.src@.subrange(from as int, i as int)) as u64
                } else {
                    limit
                },
            decreases to - i,
        {
            let c = self.chars[i];
            let digit: u64 = (c as u32 - '0' as u32) as u64;
            proof {
                let longer = self.src@.subrange(from as int, i + 1);
                assert(longer.drop_last() =~= self.src@.subrange(from as int, i as int));
                assert(longer.last() == c);
            }
            value = value * 10 + digit;
            if value > limit {
                value = limit;
            }
            i += 1;
        }
        if value < limit {
            Some(value as u32)
        } else {
            None
        }
    }

    /// Reads the token under the cursor.
    pub fn lex_token(&mut self) -> (token: Token<'a>)
        requires
            old(self).wf(),
            old(self).state().index < old(self).source().len(),
        ensures
            final(self).wf(),
            final(self).source() == old(self).source(),
            final(self).state().files == old(self).state().files,
            old(self).state().index < final(self).state().index,
            token.at == old(self).state().at,
            (token.kind@, final(self).state().index) == token_at::<'a>(
                old(self).source(),
                old(self).state().index,
            ),
            final(self).state().at == moved(old(self).state().at, final(self).state().index - old(self).state().index),
    {
        let at = self.at;
        if let Some(kind) = self.lex_fixed() {
            return Token { at, kind };
        }
        proof {
            reveal_strlit("0x");
            reveal_strlit("0X");
            reveal_strlit("0b");
            reveal_strlit("0B");
        }
        if self.is_string_literal() {
            self.lex_string_literal()
        } else if self.matches("0x") || self.matches("0X") {
            self.lex_hexadecimal_literal()
        } else if self.matches("0b") || self.matches("0B") {
            self.lex_binary_literal()
        } else if self.cur() == '0' {
            self.lex_octal_literal()
        } else if is_ascii_digit(self.cur()) {
            self.lex_decimal_literal()
        } else if is_ascii_letter(self.cur()) || self.cur() == '_' {
            self.lex_identifier()
        } else {
            self.next();
            Token { at, kind: TokenKind::Error }
        }
    }

    /// Reads the punctuator or keyword under the cursor, if one is
    /// there: the longest.
    fn lex_fixed(&mut self) -> (r: Option<TokenKind<'a>>)
        requires
            old(self).wf(),
        ensures
            final(self).wf(),
            final(self).src@ == old(self).src@,
            final(self).files@ == old(self).files@,
            match fixed_at(old(self).src@, old(self).index as int) {
                Some(kind) => {
                    &&& r == Some(kind)
                    &&& kind.is_fixed()
                    &&& final(self).index == old(self).index + kind.spelling().len()
                    &&& old(self).index < final(self).index
                    &&& final(self).at == moved(old(self).at, kind.spelling().len() as int)
                },
                None => r is None && *final(self) == *old(self),
            },
    {
        let mut best: Option<(TokenKind<'static>, usize)> = None;
        let mut n: u8 = 0;
        while n < FIXED_COUNT
            invariant
                self.wf(),
                n <= FIXED_COUNT,
                match best {
                    Some((kind, length)) => {
                        &&& best_fixed(self.src@, self.index as int, n as int) == Some(kind)
                        &&& kind.is_fixed()
                        &&& matches_at(self.src@, self.index as int, kind.spelling())
                        &&& length == kind.spelling().len()
                        &&& length > 0
                    },
                    None => best_fixed(self.src@, self.index as int, n as int) is None,
                },
            decreases FIXED_COUNT - n,
        {
            let (kind, spelling) = fixed_token(n);
            if self.matches(spelling) {
                let length = spelling.unicode_len();
                match best {
                    Some((_, longest)) => {
                        if length > longest {
                            best = Some((kind, length));
                        }
                    },
                    None => {
                        best = Some((kind, length));
                    },
                }
            }
            n += 1;
        }
        match best {
            Some((kind, length)) => {
                self.advance(length);
                Some(kind)
            },
            None => None,
        }
    }

    /// Reads the string literal under the cursor: the contents between
    /// the quotes, as they are written. One that is not closed is an
    /// error token that runs to the end of the text.
    fn lex_string_literal(&mut self) -> (token: Token<'a>)
        requires
            old(self).wf(),
            string_prefix_at(old(self).src@, old(self).index as int) is Some,
        ensures
            final(self).wf(),
            final(self).src@ == old(self).src@,
            final(self).files@ == old(self).files@,
            old(self).index < final(self).index,
            token.at == old(self).at,
            final(self).at == moved(old(self).at, final(self).index - old(self).index),
            ({
                let src = old(self).src@;
                let i = old(self).index as int;
                let (encoding, prefix) = string_prefix_at(src, i)->0;
                match string_end(src, i + prefix + 1) {
                    Some(end) => {
                        &&& token.kind@ == Lexeme::<'a>::String(
                            src.subrange(i + prefix + 1, end),
                            encoding,
                        )
                        &&& final(self).index == end + 1
                    },
                    None => {
                        &&& token.kind == TokenKind::<'a>::Error
                        &&& final(self).index == src.len()
                    },
                }
            }),
    {
        let at = self.at;
        let begin = self.index;
        let (encoding, prefix) = self.lex_string_encoding();
        proof {
            reveal_strlit("\"");
            reveal_strlit("u8\"");
            reveal_strlit("u\"");
            reveal_strlit("U\"");
            reveal_strlit("L\"");
        }
        let start = begin + prefix + 1;
        match self.string_close(start) {
            Some(end) => {
                let literal = self.text(start, end);
                self.advance(end + 1 - begin);
                Token { at, kind: TokenKind::String(literal, encoding) }
            },
            None => {
                self.advance(self.chars.len() - begin);
                Token { at, kind: TokenKind::Error }
            },
        }
    }

    /// The place of the quote that ends the string literal whose contents
    /// begin at `from`, if the literal is closed.
    fn string_close(&self, from: usize) -> (r: Option<usize>)
        requires
            self.wf(),
            from <= self.chars@.len(),
        ensures
            match r {
                Some(end) => string_end(self.src@, from as int) == Some(end as int) && from <= end
                    < self.chars@.len(),
                None => string_end(self.src@, from as int) is None,
            },
    {
        let mut i = from;
        loop
            invariant
                self.wf(),
                from <= i <= self.chars@.len(),
                string_end(self.src@, i as int) == string_end(self.src@, from as int),
            decreases self.chars@.len() - i,
        {
            if i >= self.chars.len() {
                return None;
            }
            let c = self.chars[i];
            if c == '\\' && i + 1 < self.chars.len() && self.chars[i + 1] == '"' {
                i += 2;
            } else if c == '"' {
                return Some(i);
            } else {
                i += 1;
            }
        }
    }

    fn lex_hexadecimal_literal(&mut self) -> (token: Token<'a>)
        requires
            old(self).wf(),
            old(self).index + 2 <= old(self).chars@.len(),
        ensures
            final(self).wf(),
            final(self).src@ == old(self).src@,
            final(self).files@ == old(self).files@,
            old(self).index < final(self).index,
            token.at == old(self).at,
            (token.kind@, final(self).index as int) == integer_at::<'a>(
                old(self).src@,
                old(self).index + 2,
                IntegerFormat::Hexadecimal,
            ),
            final(self).at == moved(old(self).at, final(self).index - old(self).index),
    {
        self.lex_integer(IntegerFormat::Hexadecimal, 2)
    }

    fn lex_binary_literal(&mut self) -> (token: Token<'a>)
        requires
            old(self).wf(),
            old(self).index + 2 <= old(self).chars@.len(),
        ensures
            final(self).wf(),
            final(self).src@ == old(self).src@,
            final(self).files@ == old(self).files@,
            old(self).index < final(self).index,
            token.at == old(self).at,
            (token.kind@, final(self).index as int) == integer_at::<'a>(
                old(self).src@,
                old(self).index + 2,
                IntegerFormat::Binary,
            ),
            final(self).at == moved(old(self).at, final(self).index - old(self).index),
    {
        self.lex_integer(IntegerFormat::Binary, 2)
    }

    fn lex_octal_literal(&mut self) -> (token: Token<'a>)
        requires
            old(self).wf(),
            old(self).index < old(self).chars@.len(),
            old(self).chars@[old(self).index as int] == '0',
        ensures
            final(self).wf(),
            final(self).src@ == old(self).src@,
            final(self).files@ == old(self).files@,
            old(self).index < final(self).index,
            token.at == old(self).at,
            (token.kind@, final(self).index as int) == integer_at::<'a>(
                old(self).src@,
                old(self).index as int,
                IntegerFormat::Octal,
            ),
            final(self).at == moved(old(self).at, final(self).index - old(self).index),
    {
        self.lex_integer(IntegerFormat::Octal, 0)
    }

    fn lex_decimal_literal(&mut self) -> (token: Token<'a>)
        requires
            old(self).wf(),
            old(self).index < old(self).chars@.len(),
            is_decimal_digit(old(self).chars@[old(self).index as int]),
        ensures
            final(self).wf(),
            final(self).src@ == old(self).src@,
            final(self).files@ == old(self).files@,
            old(self).index < final(self).index,
            token.at == old(self).at,
            (token.kind@, final(self).index as int) == integer_at::<'a>(
                old(self).src@,
                old(self).index as int,
                IntegerFormat::Decimal,
            ),
            final(self).at == moved(old(self).at, final(self).index - old(self).index),
    {
        self.lex_integer(IntegerFormat::Decimal, 0)
    }

    /// Reads an integer literal of the given base behind a prefix of
    /// `prefix` characters: its digits and its suffix.
    fn lex_integer(&mut self, format: IntegerFormat, prefix: usize) -> (token: Token<'a>)
        requires
            old(self).wf(),
            old(self).index + prefix <= old(self).chars@.len(),
            prefix > 0 || (old(self).index < old(self).chars@.len() && is_digit_char(
                format,
                old(self).chars@[old(self).index as int],
            )),
        ensures
            final(self).wf(),
            final(self).src@ == old(self).src@,
            final(self).files@ == old(self).files@,
            old(self).index < final(self).index,
            token.at == old(self).at,
            (token.kind@, final(self).index as int) == integer_at::<'a>(
                old(self).src@,
                old(self).index + prefix,
                format,
            ),
            final(self).at == moved(old(self).at, final(self).index - old(self).index),
    {
        let at = self.at;
        let start = self.index + prefix;
        let end = self.run(start, CharClass::Digits(format));
        let source = self.text(start, end);
        self.advance(end - self.index);
        let suffix = self.lex_integer_suffix();
        Token { at, kind: TokenKind::Integer(IntegerToken { source, format, suffix }) }
    }

    fn lex_identifier(&mut self) -> (token: Token<'a>)
        requires
            old(self).wf(),
            old(self).index < old(self).chars@.len(),
            is_identifier_char(old(self).chars@[old(self).index as int]),
        ensures
            final(self).wf(),
            final(self).src@ == old(self).src@,
            final(self).files@ == old(self).files@,
            old(self).index < final(self).index,
            token.at == old(self).at,
            final(self).index == run_end(
                old(self).src@,
                old(self).index as int,
                CharClass::Identifier,
            ),
            token.kind@ == Lexeme::<'a>::Identifier(
                old(self).src@.subrange(old(self).index as int, final(self).index as int),
            ),
            final(self).at == moved(old(self).at, final(self).index - old(self).index),
    {
        let at = self.at;
        let start = self.index;
        let end = self.run(start, CharClass::Identifier);
        let name = self.text(start, end);
        self.advance(end - start);
        Token { at, kind: TokenKind::Identifier(name) }
    }

    /// Reads the suffix of an integer literal, if one is under the
    /// cursor: the longest.
    pub fn lex_integer_suffix(&mut self) -> (r: Option<IntegerSuffix>)
        requires
            old(self).wf(),
        ensures
            final(self).wf(),
            final(self).source() == old(self).source(),
            final(self).state().files == old(self).state().files,
            match suffix_at(old(self).source(), old(self).state().index) {
                Some((suffix, length)) => {
                    &&& r == Some(suffix)
                    &&& final(self).state().index == old(self).state().index + length
                    &&& final(self).state().at == moved(old(self).state().at, length)
                },
                None => r is None && final(self).state() == old(self).state(),
            },
    {
        proof {
            reveal_strlit("ull");
            reveal_strlit("ULL");
            reveal_strlit("uLL");
            reveal_strlit("Ull");
            reveal_strlit("llu");
            reveal_strlit("LLU");
            reveal_strlit("llU");
            reveal_strlit("LLu");
            reveal_strlit("uwb");
            reveal_strlit("UWB");
            reveal_strlit("uWB");
            reveal_strlit("Uwb");
            reveal_strlit("wbu");
            reveal_strlit("WBU");
            reveal_strlit("wbU");
            reveal_strlit("WBu");
            reveal_strlit("ul");
            reveal_strlit("UL");
            reveal_strlit("uL");
            reveal_strlit("Ul");
            reveal_strlit("lu");
            reveal_strlit("LU");
            reveal_strlit("lU");
            reveal_strlit("Lu");
            reveal_strlit("ll");
            reveal_strlit("LL");
            reveal_strlit("wb");
            reveal_strlit("WB");
            reveal_strlit("u");
            reveal_strlit("U");
            reveal_strlit("l");
            reveal_strlit("L");
        }
        if self.matches("ull") || self.matches("ULL") || self.matches("uLL") || self.matches("Ull")
            || self.matches("llu") || self.matches("LLU") || self.matches("llU") || self.matches(
            "LLu",
        ) {
            self.advance(3);
            Some(IntegerSuffix::LongLongUnsigned)
        } else if self.matches("uwb") || self.matches("UWB") || self.matches("uWB") || self.matches(
            "Uwb",
        ) || self.matches("wbu") || self.matches("WBU") || self.matches("wbU") || self.matches(
            "WBu",
        ) {
            self.advance(3);
            Some(IntegerSuffix::BitPreciseUnsigned)
        } else if self.matches("ul") || self.matches("UL") || self.matches("uL") || self.matches(
            "Ul",
        ) || self.matches("lu") || self.matches("LU") || self.matches("lU") || self.matches("Lu") {
            self.advance(2);
            Some(IntegerSuffix::LongUnsigned)
        } else if self.matches("ll") || self.matches("LL") {
            self.advance(2);
            Some(IntegerSuffix::LongLong)
        } else if self.matches("wb") || self.matches("WB") {
            self.advance(2);
            Some(IntegerSuffix::BitPrecise)
        } else if self.matches("u") || self.matches("U") {
            self.next();
            Some(IntegerSuffix::Unsigned)
        } else if self.matches("l") || self.matches("L") {
            self.next();
            Some(IntegerSuffix::Long)
        } else {
            None
        }
    }

    /// Whether a string literal begins under the cursor.
    fn is_string_literal(&self) -> (r: bool)
        requires
            self.wf(),
        ensures
            r == (string_prefix_at(self.src@, self.index as int) is Some),
    {
        self.matches("\"") || self.matches("u8\"") || self.matches("u\"") || self.matches("U\"")
            || self.matches("L\"")
    }

    /// The encoding of the string literal that begins under the cursor,
    /// and the length of its prefix.
    fn lex_string_encoding(&self) -> (r: (StringEncoding, usize))
        requires
            self.wf(),
            string_prefix_at(self.src@, self.index as int) is Some,
        ensures
            string_prefix_at(self.src@, self.index as int) == Some((r.0, r.1 as int)),
            r.1 <= 2,
            self.index + r.1 + 1 <= self.chars@.len(),
    {
        proof {
            reveal_strlit("\"");
            reveal_strlit("u8\"");
            reveal_strlit("u\"");
            reveal_strlit("U\"");
            reveal_strlit("L\"");
        }
        if self.matches("\"") {
            (StringEncoding::Ordinary, 0)
        } else if self.matches("u8\"") {
            (StringEncoding::UTF8, 2)
        } else if self.matches("u\"") {
            (StringEncoding::UTF16, 1)
        } else if self.matches("U\"") {
            (StringEncoding::UTF32, 1)
        } else {
            (StringEncoding::Wide, 1)
        }
    }

    /// Whether `pattern` stands under the cursor.
    fn matches(&self, pattern: &str) -> (r: bool)
        requires
            self.wf(),
        ensures
            r == matches_at(self.src@, self.index as int, pattern@),
    {
        self.matches_from(self.index, pattern)
    }

    /// Whether `pattern` stands in the text at `from`.
    fn matches_from(&self, from: usize, pattern: &str) -> (r: bool)
        requires
            self.wf(),
            from <= self.chars@.len(),
        ensures
            r == matches_at(self.src@, from as int, pattern@),
    {
        let length = pattern.unicode_len();
        if length > self.chars.len() - from {
            return false;
        }
        let mut k: usize = 0;
        while k < length
            invariant
                self.wf(),
                k <= length == pattern@.len(),
                from + length <= self.chars@.len(),
                forall|j: int| 0 <= j < k ==> self.chars@[from + j] == pattern@[j],
            decreases length - k,
        {
            if self.chars[from + k] != pattern.get_char(k) {
                proof {
                    assert(self.src@.subrange(from as int, from + length)[k as int]
                        != pattern@[k as int]);
                }
                return false;
            }
            k += 1;
        }
        proof {
            assert(self.src@.subrange(from as int, from + length) =~= pattern@);
        }
        true
    }

    /// The end of the longest run of characters of `class` that begins
    /// at `from`.
    fn run(&self, from: usize, class: CharClass) -> (end: usize)
        requires
            self.wf(),
            from <= self.chars@.len(),
        ensures
            end == run_end(self.src@, from as int, class),
            from <= end <= self.chars@.len(),
            forall|i: int| from <= i < end ==> class.holds(#[trigger] self.chars@[i]),
            end == self.chars@.len() || !class.holds(self.chars@[end as int]),
    {
        let mut end = from;
        while end < self.chars.len() && in_class(class, self.chars[end])
            invariant
                self.wf(),
                from <= end <= self.chars@.len(),
                run_end(self.src@, end as int, class) == run_end(self.src@, from as int, class),
                forall|i: int| from <= i < end ==> class.holds(#[trigger] self.chars@[i]),
            decreases self.chars@.len() - end,
        {
            end += 1;
        }
        end
    }

    /// Moves past one character.
    fn next(&mut self)
        requires
            old(self).wf(),
            old(self).index < old(self).chars@.len(),
        ensures
            final(self).wf(),
            final(self).src@ == old(self).src@,
            final(self).files@ == old(self).files@,
            final(self).index == old(self).index + 1,
            final(self).at == moved(old(self).at, 1),
    {
        self.advance(1);
    }

    /// Moves past `by` characters of one line.
    fn advance(&mut self, by: usize)
        requires
            old(self).wf(),
            old(self).index + by <= old(self).chars@.len(),
        ensures
            final(self).wf(),
            final(self).src@ == old(self).src@,
            final(self).files@ == old(self).files@,
            final(self).index == old(self).index + by,
            final(self).at == moved(old(self).at, by as int),
    {
        self.move_to(self.index + by);
        if by <= (u32::MAX - self.at.column) as usize {
            self.at.next_column(by as u32);
        } else {
            self.at.column = u32::MAX;
        }
    }

    /// Moves the cursor forward to `index`.
    fn move_to(&mut self, index: usize)
        requires
            old(self).wf(),
            old(self).index <= index <= old(self).chars@.len(),
        ensures
            final(self).wf(),
            final(self).src@ == old(self).src@,
            final(self).files@ == old(self).files@,
            final(self).at == old(self).at,
            final(self).index == index,
    {
        self.rest = skip_chars(self.rest, index - self.index);
        self.index = index;
        proof {
            assert(self.rest@ =~= self.src@.skip(index as int));
        }
    }

    /// The text from `from` to `to`, which lie at the cursor or behind
    /// it.
    fn text(&self, from: usize, to: usize) -> (text: &'a str)
        requires
            self.wf(),
            self.index <= from <= to <= self.chars@.len(),
        ensures
            text@ == self.src@.subrange(from as int, to as int),
    {
        let text = self.rest.substring_char(from - self.index, to - self.index);
        proof {
            assert(text@ =~= self.src@.subrange(from as int, to as int));
        }
        text
    }

    /// The character under the cursor.
    fn cur(&self) -> (c: char)
        requires
            self.wf(),
            self.index < self.chars@.len(),
        ensures
            c == self.src@[self.index as int],
    {
        self.chars[self.index]
    }

    /// Whether the cursor is at the end of the text.
    fn is_eof(&self) -> (r: bool)
        requires
            self.wf(),
        ensures
            r == (self.index >= self.chars@.len()),
    {
        self.index >= self.chars.len()
    }
}

} // verus!
