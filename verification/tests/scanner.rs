use ecc::lexer::table::{fixed_token, FIXED_COUNT};
use ecc::lexer::{is_whitespace_char, Lexer};
use ecc::token::{
    At, Files, IntegerFormat, IntegerSuffix, IntegerToken, StringEncoding, Token, TokenKind,
};

fn kinds(src: &str) -> Vec<TokenKind<'_>> {
    let (tokens, _) = Lexer::new(src).lex();
    tokens.iter().map(|token| token.kind).collect()
}

fn integer(source: &str, format: IntegerFormat, suffix: Option<IntegerSuffix>) -> TokenKind<'_> {
    TokenKind::Integer(IntegerToken { source, format, suffix })
}

#[test]
fn empty_text_is_the_end_marker_alone() {
    let (tokens, files) = Lexer::new("").lex();
    assert_eq!(tokens, vec![Token { at: At::new(1, 1, 1), kind: TokenKind::Eof }]);
    assert_eq!(files.len(), 2);
    assert_eq!(files.name(0), "<dummy file; this should never appear; lexer bug>");
    assert_eq!(files.name(1), "<EOF>");
}

#[test]
fn every_punctuator_and_keyword_scans_alone_to_itself() {
    for n in 0..FIXED_COUNT {
        let (kind, spelling) = fixed_token(n);
        assert_eq!(kinds(spelling), vec![kind, TokenKind::Eof], "{spelling}");
    }
}

#[test]
fn shift_left_assign_is_one_token() {
    assert_eq!(kinds("<<="), vec![TokenKind::DoubleLessEqual, TokenKind::Eof]);
}

#[test]
fn and_assign_is_one_token() {
    assert_eq!(kinds("a &= b"), vec![
        TokenKind::Identifier("a"),
        TokenKind::AmpersandEqual,
        TokenKind::Identifier("b"),
        TokenKind::Eof,
    ]);
}

#[test]
fn longest_operator_wins() {
    assert_eq!(kinds("<<= <<"), vec![
        TokenKind::DoubleLessEqual,
        TokenKind::DoubleLess,
        TokenKind::Eof,
    ]);
    assert_eq!(kinds("<<<"), vec![TokenKind::DoubleLess, TokenKind::Less, TokenKind::Eof]);
    assert_eq!(kinds("...."), vec![TokenKind::Ellipses, TokenKind::Period, TokenKind::Eof]);
}

#[test]
fn longest_keyword_wins() {
    assert_eq!(kinds("constexpr const"), vec![
        TokenKind::Constexpr,
        TokenKind::Const,
        TokenKind::Eof,
    ]);
    assert_eq!(kinds("double do"), vec![TokenKind::Double, TokenKind::Do, TokenKind::Eof]);
    assert_eq!(kinds("static_assert typeof_unqual"), vec![
        TokenKind::StaticAssert,
        TokenKind::TypeofUnqual,
        TokenKind::Eof,
    ]);
}

#[test]
fn keyword_is_read_in_front_of_more_letters() {
    assert_eq!(kinds("integer"), vec![
        TokenKind::Int,
        TokenKind::Identifier("eger"),
        TokenKind::Eof,
    ]);
}

#[test]
fn integer_suffixes() {
    assert_eq!(kinds("123ull"), vec![
        integer("123", IntegerFormat::Decimal, Some(IntegerSuffix::LongLongUnsigned)),
        TokenKind::Eof,
    ]);
    assert_eq!(kinds("0x1Fu"), vec![
        integer("1F", IntegerFormat::Hexadecimal, Some(IntegerSuffix::Unsigned)),
        TokenKind::Eof,
    ]);
    assert_eq!(kinds("7 7u 7l 7ul 7lu 7ll 7LLu 7wb 7uWB 7WBu"), vec![
        integer("7", IntegerFormat::Decimal, None),
        integer("7", IntegerFormat::Decimal, Some(IntegerSuffix::Unsigned)),
        integer("7", IntegerFormat::Decimal, Some(IntegerSuffix::Long)),
        integer("7", IntegerFormat::Decimal, Some(IntegerSuffix::LongUnsigned)),
        integer("7", IntegerFormat::Decimal, Some(IntegerSuffix::LongUnsigned)),
        integer("7", IntegerFormat::Decimal, Some(IntegerSuffix::LongLong)),
        integer("7", IntegerFormat::Decimal, Some(IntegerSuffix::LongLongUnsigned)),
        integer("7", IntegerFormat::Decimal, Some(IntegerSuffix::BitPrecise)),
        integer("7", IntegerFormat::Decimal, Some(IntegerSuffix::BitPreciseUnsigned)),
        integer("7", IntegerFormat::Decimal, Some(IntegerSuffix::BitPreciseUnsigned)),
        TokenKind::Eof,
    ]);
}

#[test]
fn integer_bases() {
    assert_eq!(kinds("0 017 0b101 0B1 0xff 0XA'B 1'000"), vec![
        integer("0", IntegerFormat::Octal, None),
        integer("017", IntegerFormat::Octal, None),
        integer("101", IntegerFormat::Binary, None),
        integer("1", IntegerFormat::Binary, None),
        integer("ff", IntegerFormat::Hexadecimal, None),
        integer("A'B", IntegerFormat::Hexadecimal, None),
        integer("1'000", IntegerFormat::Decimal, None),
        TokenKind::Eof,
    ]);
}

#[test]
fn digits_outside_the_base_begin_another_token() {
    assert_eq!(kinds("09"), vec![
        integer("0", IntegerFormat::Octal, None),
        integer("9", IntegerFormat::Decimal, None),
        TokenKind::Eof,
    ]);
    assert_eq!(kinds("0x"), vec![integer("", IntegerFormat::Hexadecimal, None), TokenKind::Eof]);
}

#[test]
fn string_literals() {
    assert_eq!(kinds(r#""abc" u8"x" u"y" U"z" L"w" """#), vec![
        TokenKind::String("abc", StringEncoding::Ordinary),
        TokenKind::String("x", StringEncoding::UTF8),
        TokenKind::String("y", StringEncoding::UTF16),
        TokenKind::String("z", StringEncoding::UTF32),
        TokenKind::String("w", StringEncoding::Wide),
        TokenKind::String("", StringEncoding::Ordinary),
        TokenKind::Eof,
    ]);
}

#[test]
fn escaped_quote_does_not_end_a_string() {
    assert_eq!(kinds(r#""a\"b" c"#), vec![
        TokenKind::String(r#"a\"b"#, StringEncoding::Ordinary),
        TokenKind::Identifier("c"),
        TokenKind::Eof,
    ]);
}

#[test]
fn open_string_is_an_error_to_the_end() {
    let (tokens, _) = Lexer::new("x \"abc\ny").lex();
    assert_eq!(tokens[0].kind, TokenKind::Identifier("x"));
    assert_eq!(tokens[1], Token { at: At::new(0, 1, 3), kind: TokenKind::Error });
    assert_eq!(tokens[2].kind, TokenKind::Eof);
    assert_eq!(tokens.len(), 3);
}

#[test]
fn identifiers() {
    assert_eq!(kinds("foo _bar b4z x_1"), vec![
        TokenKind::Identifier("foo"),
        TokenKind::Identifier("_bar"),
        TokenKind::Identifier("b4z"),
        TokenKind::Identifier("x_1"),
        TokenKind::Eof,
    ]);
}

#[test]
fn identifier_at_the_end_of_the_text() {
    assert_eq!(kinds("x"), vec![TokenKind::Identifier("x"), TokenKind::Eof]);
}

#[test]
fn unknown_character_is_an_error_token() {
    let (tokens, _) = Lexer::new("a @ é b").lex();
    assert_eq!(tokens, vec![
        Token { at: At::new(0, 1, 1), kind: TokenKind::Identifier("a") },
        Token { at: At::new(0, 1, 3), kind: TokenKind::Error },
        Token { at: At::new(0, 1, 5), kind: TokenKind::Error },
        Token { at: At::new(0, 1, 7), kind: TokenKind::Identifier("b") },
        Token { at: At::new(1, 1, 1), kind: TokenKind::Eof },
    ]);
}

#[test]
fn columns_count_characters_not_bytes() {
    let (tokens, _) = Lexer::new("\"é\" x").lex();
    assert_eq!(tokens[0], Token {
        at: At::new(0, 1, 1),
        kind: TokenKind::String("é", StringEncoding::Ordinary),
    });
    assert_eq!(tokens[1], Token { at: At::new(0, 1, 5), kind: TokenKind::Identifier("x") });
}

#[test]
fn lines_and_columns() {
    let (tokens, _) = Lexer::new("a b\n  c\n\nd").lex();
    let places: Vec<(u32, u32)> = tokens.iter().map(|t| (t.at.line, t.at.column)).collect();
    assert_eq!(places, vec![(1, 1), (1, 3), (2, 3), (4, 1), (1, 1)]);
}

#[test]
fn line_directive_sets_file_and_line() {
    let (tokens, files) = Lexer::new("# 5 \"foo.c\"\nx;\n").lex();
    assert_eq!(tokens[0].kind, TokenKind::Identifier("x"));
    assert_eq!(files.name(tokens[0].at.file), "foo.c");
    assert_eq!(tokens[0].at.line, 5);
    assert_eq!(tokens[0].at.column, 1);
    assert_eq!(tokens[1], Token { at: At::new(1, 5, 2), kind: TokenKind::Semicolon });
    assert_eq!(tokens[2], Token { at: At::new(2, 1, 1), kind: TokenKind::Eof });
    assert_eq!(files.name(2), "<EOF>");
}

#[test]
fn line_directive_with_flags_and_a_known_file() {
    let src = "# 1 \"a.c\"\nx\n# 7 \"b.h\" 1 3\ny\n# 2 \"a.c\" 2\nz\n";
    let (tokens, files) = Lexer::new(src).lex();
    assert_eq!(tokens, vec![
        Token { at: At::new(1, 1, 1), kind: TokenKind::Identifier("x") },
        Token { at: At::new(2, 7, 1), kind: TokenKind::Identifier("y") },
        Token { at: At::new(1, 2, 1), kind: TokenKind::Identifier("z") },
        Token { at: At::new(3, 1, 1), kind: TokenKind::Eof },
    ]);
    assert_eq!(files.len(), 4);
    assert_eq!(files.name(1), "a.c");
    assert_eq!(files.name(2), "b.h");
}

#[test]
fn line_number_at_the_limit() {
    let (tokens, _) = Lexer::new("# 4294967295 \"f\"\nx\ny").lex();
    assert_eq!(tokens[0].at, At::new(1, 4294967295, 1));
    assert_eq!(tokens[1].at, At::new(1, 4294967295, 1));
}

#[test]
fn malformed_line_directive_is_an_error_token() {
    for src in ["#", "#x", "# x \"f\"\n", "# 4294967296 \"f\"\n", "# 5 f\n", "# 5 \"f\n", "# 5 \"f\""] {
        let (tokens, files) = Lexer::new(src).lex();
        assert_eq!(tokens[0], Token { at: At::new(0, 1, 1), kind: TokenKind::Error }, "{src}");
        assert_eq!(files.len(), 2, "{src}");
    }
}

#[test]
fn white_space_is_what_the_standard_library_says() {
    for code in 0..=0x10ffff_u32 {
        if let Some(c) = char::from_u32(code) {
            assert_eq!(is_whitespace_char(c), c.is_whitespace(), "{code:x}");
        }
    }
}

#[test]
fn file_table_gives_each_name_one_id() {
    let mut files = Files::new();
    assert_eq!(files.get_file_id("a"), 0);
    assert_eq!(files.get_file_id("b"), 1);
    assert_eq!(files.get_file_id("a"), 0);
    assert_eq!(files.len(), 2);
    assert_eq!(files.name(1), "b");
}

#[test]
fn locations_move() {
    let mut at = At::new(3, 10, 20);
    at.next_column(5);
    assert_eq!(at, At { file: 3, line: 10, column: 25 });
    at.next_line();
    assert_eq!(at, At { file: 3, line: 11, column: 1 });
}

#[test]
fn long_text_with_wide_characters() {
    let line = "x = \"é€😀\" + y1; /* ü */\n";
    let src = line.repeat(20_000);
    let (tokens, _) = Lexer::new(&src).lex();
    // x = "…" + y1 ; and five error tokens and two punctuators for the comment
    let per_line = tokens.iter().take_while(|token| token.at.line == 1).count();
    assert_eq!(tokens.len(), 20_000 * per_line + 1);
    assert_eq!(tokens[2].kind, TokenKind::String("é€😀", StringEncoding::Ordinary));
    let last = tokens[tokens.len() - 2];
    assert_eq!(last.at.line, 20_000);
    assert_eq!(tokens[per_line].at, At::new(0, 2, 1));
    assert_eq!(tokens[per_line + 4], Token {
        at: At::new(0, 2, 13),
        kind: TokenKind::Identifier("y1"),
    });
}
