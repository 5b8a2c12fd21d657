//! The punctuators and keywords, each with the characters that spell it.

use crate::lexer::model::is_whitespace;
use crate::token::TokenKind;
use vstd::prelude::*;

verus! {

/// How many punctuators and keywords there are.
pub const FIXED_COUNT: u8 = 101;

impl<'a> TokenKind<'a> {
    /// Whether the kind is a punctuator or a keyword.
    pub open spec fn is_fixed(self) -> bool {
        self.is_plain() && !(self is Eof) && !(self is Error)
    }

    /// The characters that spell a punctuator or a keyword; no characters
    /// for any other kind.
    pub open spec fn spelling(self) -> Seq<char> {
        match self {
            TokenKind::OpenBracket => "["@,
            TokenKind::CloseBracket => "]"@,
            TokenKind::OpenParenthesis => "("@,
            TokenKind::CloseParenthesis => ")"@,
            TokenKind::OpenBrace => "{"@,
            TokenKind::CloseBrace => "}"@,
            TokenKind::Period => "."@,
            TokenKind::ArrowLeft => "->"@,
            TokenKind::DoublePlus => "++"@,
            TokenKind::DoubleMinus => "--"@,
            TokenKind::Ampersand => "&"@,
            TokenKind::Asterisk => "*"@,
            TokenKind::Plus => "+"@,
            TokenKind::Minus => "-"@,
            TokenKind::Tilde => "~"@,
            TokenKind::Exclamation => "!"@,
            TokenKind::Slash => "/"@,
            TokenKind::Percent => "%"@,
            TokenKind::DoubleLess => "<<"@,
            TokenKind::DoubleGreater => ">>"@,
            TokenKind::Less => "<"@,
            TokenKind::Greater => ">"@,
            TokenKind::LessEqual => "<="@,
            TokenKind::GreaterEqual => ">="@,
            TokenKind::DoubleEqual => "=="@,
            TokenKind::NotEqual => "!="@,
            TokenKind::Caret => "^"@,
            TokenKind::Bar => "|"@,
            TokenKind::DoubleAmpersand => "&&"@,
            TokenKind::DoubleBar => "||"@,
            TokenKind::Question => "?"@,
            TokenKind::Colon => ":"@,
            TokenKind::DoubleColon => "::"@,
            TokenKind::Semicolon => ";"@,
            TokenKind::Ellipses => "..."@,
            TokenKind::Equal => "="@,
            TokenKind::AsteriskEqual => "*="@,
            TokenKind::SlashEqual => "/="@,
            TokenKind::PercentEqual => "%="@,
            TokenKind::PlusEqual => "+="@,
            TokenKind::MinusEqual => "-="@,
            TokenKind::DoubleLessEqual => "<<="@,
            TokenKind::DoubleGreaterEqual => ">>="@,
            TokenKind::AmpersandEqual => "&="@,
            TokenKind::CaretEqual => "^="@,
            TokenKind::BarEqual => "|="@,
            TokenKind::Comma => ","@,
            TokenKind::Alignas => "alignas"@,
            TokenKind::Alignof => "alignof"@,
            TokenKind::Auto => "auto"@,
            TokenKind::Bool => "bool"@,
            TokenKind::Break => "break"@,
            TokenKind::Case => "case"@,
            TokenKind::Char => "char"@,
            TokenKind::Const => "const"@,
            TokenKind::Constexpr => "constexpr"@,
            TokenKind::Continue => "continue"@,
            TokenKind::Default => "default"@,
            TokenKind::Do => "do"@,
            TokenKind::Double => "double"@,
            TokenKind::Else => "else"@,
            TokenKind::Enum => "enum"@,
            TokenKind::Extern => "extern"@,
            TokenKind::False => "false"@,
            TokenKind::Float => "float"@,
            TokenKind::For => "for"@,
            TokenKind::Goto => "goto"@,
            TokenKind::If => "if"@,
            TokenKind::Inline => "inline"@,
            TokenKind::Int => "int"@,
            TokenKind::Long => "long"@,
            TokenKind::Nullptr => "nullptr"@,
            TokenKind::Register => "register"@,
            TokenKind::Restrict => "restrict"@,
            TokenKind::Return => "return"@,
            TokenKind::Short => "short"@,
            TokenKind::Signed => "signed"@,
            TokenKind::Sizeof => "sizeof"@,
            TokenKind::Static => "static"@,
            TokenKind::StaticAssert => "static_assert"@,
            TokenKind::Struct => "struct"@,
            TokenKind::Switch => "switch"@,
            TokenKind::ThreadLocal => "thread_local"@,
            TokenKind::True => "true"@,
            TokenKind::Typedef => "typedef"@,
            TokenKind::Typeof => "typeof"@,
            TokenKind::TypeofUnqual => "typeof_unqual"@,
            TokenKind::Union => "union"@,
            TokenKind::Unsigned => "unsigned"@,
            TokenKind::Void => "void"@,
            TokenKind::Volatile => "volatile"@,
            TokenKind::While => "while"@,
            TokenKind::Atomic => "_Atomic"@,
            TokenKind::BitInt => "_BitInt"@,
            TokenKind::Complex => "_Complex"@,
            TokenKind::Decimal128 => "_Decimal128"@,
            TokenKind::Decimal32 => "_Decimal32"@,
            TokenKind::Decimal64 => "_Decimal64"@,
            TokenKind::Generic => "_Generic"@,
            TokenKind::Imaginary => "_Imaginary"@,
            TokenKind::Noreturn => "_Noreturn"@,
            _ => Seq::empty(),
        }
    }
}

/// The punctuators and keywords, numbered from 0.
pub open spec fn fixed_kind(n: int) -> TokenKind<'static> {
    if n == 0 {
        TokenKind::OpenBracket
    } else if n == 1 {
        TokenKind::CloseBracket
    } else if n == 2 {
        TokenKind::OpenParenthesis
    } else if n == 3 {
        TokenKind::CloseParenthesis
    } else if n == 4 {
        TokenKind::OpenBrace
    } else if n == 5 {
        TokenKind::CloseBrace
    } else if n == 6 {
        TokenKind::Period
    } else if n == 7 {
        TokenKind::ArrowLeft
    } else if n == 8 {
        TokenKind::DoublePlus
    } else if n == 9 {
        TokenKind::DoubleMinus
    } else if n == 10 {
        TokenKind::Ampersand
    } else if n == 11 {
        TokenKind::Asterisk
    } else if n == 12 {
        TokenKind::Plus
    } else if n == 13 {
        TokenKind::Minus
    } else if n == 14 {
        TokenKind::Tilde
    } else if n == 15 {
        TokenKind::Exclamation
    } else if n == 16 {
        TokenKind::Slash
    } else if n == 17 {
        TokenKind::Percent
    } else if n == 18 {
        TokenKind::DoubleLess
    } else if n == 19 {
        TokenKind::DoubleGreater
    } else if n == 20 {
        TokenKind::Less
    } else if n == 21 {
        TokenKind::Greater
    } else if n == 22 {
        TokenKind::LessEqual
    } else if n == 23 {
        TokenKind::GreaterEqual
    } else if n == 24 {
        TokenKind::DoubleEqual
    } else if n == 25 {
        TokenKind::NotEqual
    } else if n == 26 {
        TokenKind::Caret
    } else if n == 27 {
        TokenKind::Bar
    } else if n == 28 {
        TokenKind::DoubleAmpersand
    } else if n == 29 {
        TokenKind::DoubleBar
    } else if n == 30 {
        TokenKind::Question
    } else if n == 31 {
        TokenKind::Colon
    } else if n == 32 {
        TokenKind::DoubleColon
    } else if n == 33 {
        TokenKind::Semicolon
    } else if n == 34 {
        TokenKind::Ellipses
    } else if n == 35 {
        TokenKind::Equal
    } else if n == 36 {
        TokenKind::AsteriskEqual
    } else if n == 37 {
        TokenKind::SlashEqual
    } else if n == 38 {
        TokenKind::PercentEqual
    } else if n == 39 {
        TokenKind::PlusEqual
    } else if n == 40 {
        TokenKind::MinusEqual
    } else if n == 41 {
        TokenKind::DoubleLessEqual
    } else if n == 42 {
        TokenKind::DoubleGreaterEqual
    } else if n == 43 {
        TokenKind::AmpersandEqual
    } else if n == 44 {
        TokenKind::CaretEqual
    } else if n == 45 {
        TokenKind::BarEqual
    } else if n == 46 {
        TokenKind::Comma
    } else if n == 47 {
        TokenKind::Alignas
    } else if n == 48 {
        TokenKind::Alignof
    } else if n == 49 {
        TokenKind::Auto
    } else if n == 50 {
        TokenKind::Bool
    } else if n == 51 {
        TokenKind::Break
    } else if n == 52 {
        TokenKind::Case
    } else if n == 53 {
        TokenKind::Char
    } else if n == 54 {
        TokenKind::Const
    } else if n == 55 {
        TokenKind::Constexpr
    } else if n == 56 {
        TokenKind::Continue
    } else if n == 57 {
        TokenKind::Default
    } else if n == 58 {
        TokenKind::Do
    } else if n == 59 {
        TokenKind::Double
    } else if n == 60 {
        TokenKind::Else
    } else if n == 61 {
        TokenKind::Enum
    } else if n == 62 {
        TokenKind::Extern
    } else if n == 63 {
        TokenKind::False
    } else if n == 64 {
        TokenKind::Float
    } else if n == 65 {
        TokenKind::For
    } else if n == 66 {
        TokenKind::Goto
    } else if n == 67 {
        TokenKind::If
    } else if n == 68 {
        TokenKind::Inline
    } else if n == 69 {
        TokenKind::Int
    } else if n == 70 {
        TokenKind::Long
    } else if n == 71 {
        TokenKind::Nullptr
    } else if n == 72 {
        TokenKind::Register
    } else if n == 73 {
        TokenKind::Restrict
    } else if n == 74 {
        TokenKind::Return
    } else if n == 75 {
        TokenKind::Short
    } else if n == 76 {
        TokenKind::Signed
    } else if n == 77 {
        TokenKind::Sizeof
    } else if n == 78 {
        TokenKind::Static
    } else if n == 79 {
        TokenKind::StaticAssert
    } else if n == 80 {
        TokenKind::Struct
    } else if n == 81 {
        TokenKind::Switch
    } else if n == 82 {
        TokenKind::ThreadLocal
    } else if n == 83 {
        TokenKind::True
    } else if n == 84 {
        TokenKind::Typedef
    } else if n == 85 {
        TokenKind::Typeof
    } else if n == 86 {
        TokenKind::TypeofUnqual
    } else if n == 87 {
        TokenKind::Union
    } else if n == 88 {
        TokenKind::Unsigned
    } else if n == 89 {
        TokenKind::Void
    } else if n == 90 {
        TokenKind::Volatile
    } else if n == 91 {
        TokenKind::While
    } else if n == 92 {
        TokenKind::Atomic
    } else if n == 93 {
        TokenKind::BitInt
    } else if n == 94 {
        TokenKind::Complex
    } else if n == 95 {
        TokenKind::Decimal128
    } else if n == 96 {
        TokenKind::Decimal32
    } else if n == 97 {
        TokenKind::Decimal64
    } else if n == 98 {
        TokenKind::Generic
    } else if n == 99 {
        TokenKind::Imaginary
    } else if n == 100 {
        TokenKind::Noreturn
    } else {
        TokenKind::Error
    }
}

/// The punctuator or keyword with the number `n`, and its spelling.
pub fn fixed_token(n: u8) -> (r: (TokenKind<'static>, &'static str))
    requires
        n < FIXED_COUNT,
    ensures
        r.0 == fixed_kind(n as int),
        r.0.is_fixed(),
        r.1@ == r.0.spelling(),
        r.1@.len() > 0,
{
    let r = match n {
        0 => (TokenKind::OpenBracket, "["),
        1 => (TokenKind::CloseBracket, "]"),
        2 => (TokenKind::OpenParenthesis, "("),
        3 => (TokenKind::CloseParenthesis, ")"),
        4 => (TokenKind::OpenBrace, "{"),
        5 => (TokenKind::CloseBrace, "}"),
        6 => (TokenKind::Period, "."),
        7 => (TokenKind::ArrowLeft, "->"),
        8 => (TokenKind::DoublePlus, "++"),
        9 => (TokenKind::DoubleMinus, "--"),
        10 => (TokenKind::Ampersand, "&"),
        11 => (TokenKind::Asterisk, "*"),
        12 => (TokenKind::Plus, "+"),
        13 => (TokenKind::Minus, "-"),
        14 => (TokenKind::Tilde, "~"),
        15 => (TokenKind::Exclamation, "!"),
        16 => (TokenKind::Slash, "/"),
        17 => (TokenKind::Percent, "%"),
        18 => (TokenKind::DoubleLess, "<<"),
        19 => (TokenKind::DoubleGreater, ">>"),
        20 => (TokenKind::Less, "<"),
        21 => (TokenKind::Greater, ">"),
        22 => (TokenKind::LessEqual, "<="),
        23 => (TokenKind::GreaterEqual, ">="),
        24 => (TokenKind::DoubleEqual, "=="),
        25 => (TokenKind::NotEqual, "!="),
        26 => (TokenKind::Caret, "^"),
        27 => (TokenKind::Bar, "|"),
        28 => (TokenKind::DoubleAmpersand, "&&"),
        29 => (TokenKind::DoubleBar, "||"),
        30 => (TokenKind::Question, "?"),
        31 => (TokenKind::Colon, ":"),
        32 => (TokenKind::DoubleColon, "::"),
        33 => (TokenKind::Semicolon, ";"),
        34 => (TokenKind::Ellipses, "..."),
        35 => (TokenKind::Equal, "="),
        36 => (TokenKind::AsteriskEqual, "*="),
        37 => (TokenKind::SlashEqual, "/="),
        38 => (TokenKind::PercentEqual, "%="),
        39 => (TokenKind::PlusEqual, "+="),
        40 => (TokenKind::MinusEqual, "-="),
        41 => (TokenKind::DoubleLessEqual, "<<="),
        42 => (TokenKind::DoubleGreaterEqual, ">>="),
        43 => (TokenKind::AmpersandEqual, "&="),
        44 => (TokenKind::CaretEqual, "^="),
        45 => (TokenKind::BarEqual, "|="),
        46 => (TokenKind::Comma, ","),
        47 => (TokenKind::Alignas, "alignas"),
        48 => (TokenKind::Alignof, "alignof"),
        49 => (TokenKind::Auto, "auto"),
        50 => (TokenKind::Bool, "bool"),
        51 => (TokenKind::Break, "break"),
        52 => (TokenKind::Case, "case"),
        53 => (TokenKind::Char, "char"),
        54 => (TokenKind::Const, "const"),
        55 => (TokenKind::Constexpr, "constexpr"),
        56 => (TokenKind::Continue, "continue"),
        57 => (TokenKind::Default, "default"),
        58 => (TokenKind::Do, "do"),
        59 => (TokenKind::Double, "double"),
        60 => (TokenKind::Else, "else"),
        61 => (TokenKind::Enum, "enum"),
        62 => (TokenKind::Extern, "extern"),
        63 => (TokenKind::False, "false"),
        64 => (TokenKind::Float, "float"),
        65 => (TokenKind::For, "for"),
        66 => (TokenKind::Goto, "goto"),
        67 => (TokenKind::If, "if"),
        68 => (TokenKind::Inline, "inline"),
        69 => (TokenKind::Int, "int"),
        70 => (TokenKind::Long, "long"),
        71 => (TokenKind::Nullptr, "nullptr"),
        72 => (TokenKind::Register, "register"),
        73 => (TokenKind::Restrict, "restrict"),
        74 => (TokenKind::Return, "return"),
        75 => (TokenKind::Short, "short"),
        76 => (TokenKind::Signed, "signed"),
        77 => (TokenKind::Sizeof, "sizeof"),
        78 => (TokenKind::Static, "static"),
        79 => (TokenKind::StaticAssert, "static_assert"),
        80 => (TokenKind::Struct, "struct"),
        81 => (TokenKind::Switch, "switch"),
        82 => (TokenKind::ThreadLocal, "thread_local"),
        83 => (TokenKind::True, "true"),
        84 => (TokenKind::Typedef, "typedef"),
        85 => (TokenKind::Typeof, "typeof"),
        86 => (TokenKind::TypeofUnqual, "typeof_unqual"),
        87 => (TokenKind::Union, "union"),
        88 => (TokenKind::Unsigned, "unsigned"),
        89 => (TokenKind::Void, "void"),
        90 => (TokenKind::Volatile, "volatile"),
        91 => (TokenKind::While, "while"),
        92 => (TokenKind::Atomic, "_Atomic"),
        93 => (TokenKind::BitInt, "_BitInt"),
        94 => (TokenKind::Complex, "_Complex"),
        95 => (TokenKind::Decimal128, "_Decimal128"),
        96 => (TokenKind::Decimal32, "_Decimal32"),
        97 => (TokenKind::Decimal64, "_Decimal64"),
        98 => (TokenKind::Generic, "_Generic"),
        99 => (TokenKind::Imaginary, "_Imaginary"),
        _ => (TokenKind::Noreturn, "_Noreturn"),
    };
    proof {
        lemma_fixed_spellings();
        assert(r.0.is_fixed());
    }
    r
}

/// What the spellings are like: none is empty, none begins with white
/// space or with `#`, and no two kinds are spelled alike.
pub proof fn lemma_fixed_spellings()
    ensures
        forall|kind: TokenKind| #[trigger] kind.is_fixed() ==> kind.spelling().len() > 0,
        forall|kind: TokenKind| #[trigger]
            kind.is_fixed() ==> kind.spelling()[0] != '#' && !is_whitespace(kind.spelling()[0]),
        forall|a: TokenKind, b: TokenKind|
            #![trigger a.spelling(), b.spelling()]
            a.is_fixed() && b.is_fixed() && a.spelling() == b.spelling() ==> a == b,
{
    reveal_strlit("[");
    reveal_strlit("]");
    reveal_strlit("(");
    reveal_strlit(")");
    reveal_strlit("{");
    reveal_strlit("}");
    reveal_strlit(".");
    reveal_strlit("->");
    reveal_strlit("++");
    reveal_strlit("--");
    reveal_strlit("&");
    reveal_strlit("*");
    reveal_strlit("+");
    reveal_strlit("-");
    reveal_strlit("~");
    reveal_strlit("!");
    reveal_strlit("/");
    reveal_strlit("%");
    reveal_strlit("<<");
    reveal_strlit(">>");
    reveal_strlit("<");
    reveal_strlit(">");
    reveal_strlit("<=");
    reveal_strlit(">=");
    reveal_strlit("==");
    reveal_strlit("!=");
    reveal_strlit("^");
    reveal_strlit("|");
    reveal_strlit("&&");
    reveal_strlit("||");
    reveal_strlit("?");
    reveal_strlit(":");
    reveal_strlit("::");
    reveal_strlit(";");
    reveal_strlit("...");
    reveal_strlit("=");
    reveal_strlit("*=");
    reveal_strlit("/=");
    reveal_strlit("%=");
    reveal_strlit("+=");
    reveal_strlit("-=");
    reveal_strlit("<<=");
    reveal_strlit(">>=");
    reveal_strlit("&=");
    reveal_strlit("^=");
    reveal_strlit("|=");
    reveal_strlit(",");
    reveal_strlit("alignas");
    reveal_strlit("alignof");
    reveal_strlit("auto");
    reveal_strlit("bool");
    reveal_strlit("break");
    reveal_strlit("case");
    reveal_strlit("char");
    reveal_strlit("const");
    reveal_strlit("constexpr");
    reveal_strlit("continue");
    reveal_strlit("default");
    reveal_strlit("do");
    reveal_strlit("double");
    reveal_strlit("else");
    reveal_strlit("enum");
    reveal_strlit("extern");
    reveal_strlit("false");
    reveal_strlit("float");
    reveal_strlit("for");
    reveal_strlit("goto");
    reveal_strlit("if");
    reveal_strlit("inline");
    reveal_strlit("int");
    reveal_strlit("long");
    reveal_strlit("nullptr");
    reveal_strlit("register");
    reveal_strlit("restrict");
    reveal_strlit("return");
    reveal_strlit("short");
    reveal_strlit("signed");
    reveal_strlit("sizeof");
    reveal_strlit("static");
    reveal_strlit("static_assert");
    reveal_strlit("struct");
    reveal_strlit("switch");
    reveal_strlit("thread_local");
    reveal_strlit("true");
    reveal_strlit("typedef");
    reveal_strlit("typeof");
    reveal_strlit("typeof_unqual");
    reveal_strlit("union");
    reveal_strlit("unsigned");
    reveal_strlit("void");
    reveal_strlit("volatile");
    reveal_strlit("while");
    reveal_strlit("_Atomic");
    reveal_strlit("_BitInt");
    reveal_strlit("_Complex");
    reveal_strlit("_Decimal128");
    reveal_strlit("_Decimal32");
    reveal_strlit("_Decimal64");
    reveal_strlit("_Generic");
    reveal_strlit("_Imaginary");
    reveal_strlit("_Noreturn");
    assert forall|a: TokenKind, b: TokenKind|
        #![trigger a.spelling(), b.spelling()]
        a.is_fixed() && b.is_fixed() && a.spelling() == b.spelling() implies a == b by {
        let s = a.spelling();
        let t = b.spelling();
        assert(s.len() == t.len());
        assert(forall|i: int| 0 <= i < 13 ==> s[i] == t[i]);
        assert(s[0] == t[0] && s[1] == t[1] && s[2] == t[2] && s[3] == t[3] && s[4] == t[4]);
        assert(s[5] == t[5] && s[6] == t[6] && s[7] == t[7] && s[8] == t[8] && s[9] == t[9]);
        assert(s[10] == t[10] && s[11] == t[11] && s[12] == t[12]);
    }
}

/// A punctuator or keyword is the one with its number.
pub proof fn lemma_fixed_kind_number(kind: TokenKind)
    requires
        kind.is_fixed(),
    ensures
        0 <= kind.ordinal() - 3 < FIXED_COUNT,
        fixed_kind(kind.ordinal() - 3) == kind,
{
}

} // verus!
