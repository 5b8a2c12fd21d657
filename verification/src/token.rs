//! Tokens, source locations and the table of file names.

use vstd::prelude::*;
use vstd::string::{StrSliceExecFns, StringSliceAdditionalSpecFns};
use vstd::utf8::{decode_utf8_split, encode_utf8_decode_utf8, encode_utf8_valid_utf8};

verus! {

/// Whether two strings hold the same characters.
pub fn str_eq(a: &str, b: &str) -> (same: bool)
    ensures
        same == (a@ == b@),
{
    let x = a.as_bytes();
    let y = b.as_bytes();
    if x.len() != y.len() {
        return false;
    }
    let mut i: usize = 0;
    while i < x.len()
        invariant
            x@.len() == y@.len(),
            i <= x@.len(),
            x@ == a.spec_bytes(),
            y@ == b.spec_bytes(),
            forall|j: int| 0 <= j < i ==> x@[j] == y@[j],
        decreases x@.len() - i,
    {
        if x[i] != y[i] {
            return false;
        }
        i += 1;
    }
    proof {
        assert(x@ =~= y@);
        encode_utf8_decode_utf8(a@);
        encode_utf8_decode_utf8(b@);
    }
    true
}

/// The string without its first `count` characters. Takes time in
/// proportion to `count`, not to the length of the string.
pub fn skip_chars(s: &str, count: usize) -> (rest: &str)
    requires
        count <= s@.len(),
    ensures
        rest@ == s@.skip(count as int),
{
    let prefix = s.substring_char(0, count);
    let mid = prefix.len();
    if s.is_char_boundary(mid) {
        let (head, tail) = s.split_at(mid);
        if head.unicode_len() == count {
            proof {
                let bytes = s.spec_bytes();
                encode_utf8_valid_utf8(s@);
                decode_utf8_split(bytes, mid as int);
                encode_utf8_decode_utf8(s@);
                encode_utf8_decode_utf8(head@);
                encode_utf8_decode_utf8(tail@);
                assert(s@ =~= head@ + tail@);
                assert(tail@ =~= s@.skip(count as int));
            }
            return tail;
        }
    }
    let length = s.unicode_len();
    s.substring_char(count, length)
}

/// A place in the source text: a file of the file table, a line and a
/// column, both counted from 1.
#[derive(Copy, Clone, Debug, PartialEq, Eq, Structural)]
pub struct At {
    pub file: usize,
    pub line: u32,
    pub column: u32,
}

impl At {
    pub fn new(file: usize, line: u32, column: u32) -> (at: Self)
        ensures
            at == (At { file, line, column }),
    {
        Self { file, line, column }
    }

    /// Moves `by` columns to the right on the same line.
    pub fn next_column(&mut self, by: u32)
        requires
            old(self).column + by <= u32::MAX,
        ensures
            *final(self) == (At { column: (old(self).column + by) as u32, ..*old(self) }),
    {
        self.column += by;
    }

    /// Moves to the first column of the following line.
    pub fn next_line(&mut self)
        requires
            old(self).line < u32::MAX,
        ensures
            *final(self) == (At { line: (old(self).line + 1) as u32, column: 1, ..*old(self) }),
    {
        self.line += 1;
        self.column = 1;
    }
}

/// One token: what it is and where it starts.
#[derive(Copy, Clone, Debug, PartialEq, Eq)]
pub struct Token<'a> {
    pub at: At,
    pub kind: TokenKind<'a>,
}

/// The number base that an integer literal is written in.
#[derive(Copy, Clone, Debug, PartialEq, Eq, Structural)]
pub enum IntegerFormat {
    Decimal,
    Octal,
    Hexadecimal,
    Binary,
}

/// The type suffix of an integer literal.
#[derive(Copy, Clone, Debug, PartialEq, Eq, Structural)]
pub enum IntegerSuffix {
    Unsigned,
    Long,
    LongUnsigned,
    LongLong,
    LongLongUnsigned,
    BitPrecise,
    BitPreciseUnsigned,
}

/// The encoding prefix of a string literal.
#[derive(Copy, Clone, Debug, PartialEq, Eq, Structural)]
pub enum StringEncoding {
    Ordinary,
    UTF8,
    UTF16,
    UTF32,
    Wide,
}

/// An integer literal: its digits as written (without the base prefix
/// and the suffix), its base and its suffix.
#[derive(Copy, Clone, Debug, PartialEq, Eq)]
pub struct IntegerToken<'a> {
    pub source: &'a str,
    pub format: IntegerFormat,
    pub suffix: Option<IntegerSuffix>,
}

#[derive(Copy, Clone, Debug, PartialEq, Eq)]
pub enum TokenKind<'a> {
    Identifier(&'a str),
    Integer(IntegerToken<'a>),
    String(&'a str, StringEncoding),

    OpenBracket,
    CloseBracket,
    OpenParenthesis,
    CloseParenthesis,
    OpenBrace,
    CloseBrace,
    Period,
    ArrowLeft,
    DoublePlus,
    DoubleMinus,
    Ampersand,
    Asterisk,
    Plus,
    Minus,
    Tilde,
    Exclamation,
    Slash,
    Percent,
    DoubleLess,
    DoubleGreater,
    Less,
    Greater,
    LessEqual,
    GreaterEqual,
    DoubleEqual,
    NotEqual,
    Caret,
    Bar,
    DoubleAmpersand,
    DoubleBar,
    Question,
    Colon,
    DoubleColon,
    Semicolon,
    Ellipses,
    Equal,
    AsteriskEqual,
    SlashEqual,
    PercentEqual,
    PlusEqual,
    MinusEqual,
    DoubleLessEqual,
    DoubleGreaterEqual,
    AmpersandEqual,
    CaretEqual,
    BarEqual,
    Comma,

    Alignas,
    Alignof,
    Auto,
    Bool,
    Break,
    Case,
    Char,
    Const,
    Constexpr,
    Continue,
    Default,
    Do,
    Double,
    Else,
    Enum,
    Extern,
    False,
    Float,
    For,
    Goto,
    If,
    Inline,
    Int,
    Long,
    Nullptr,
    Register,
    Restrict,
    Return,
    Short,
    Signed,
    Sizeof,
    Static,
    StaticAssert,
    Struct,
    Switch,
    ThreadLocal,
    True,
    Typedef,
    Typeof,
    TypeofUnqual,
    Union,
    Unsigned,
    Void,
    Volatile,
    While,
    Atomic,
    BitInt,
    Complex,
    Decimal128,
    Decimal32,
    Decimal64,
    Generic,
    Imaginary,
    Noreturn,

    Eof,
    Error,
}

/// What a token kind is, with the text that it borrows replaced by the
/// characters themselves.
pub enum Lexeme<'a> {
    Identifier(Seq<char>),
    Integer(Seq<char>, IntegerFormat, Option<IntegerSuffix>),
    String(Seq<char>, StringEncoding),
    /// A punctuator, a keyword, the end marker or the error marker.
    Plain(TokenKind<'a>),
}

impl<'a> View for TokenKind<'a> {
    type V = Lexeme<'a>;

    open spec fn view(&self) -> Lexeme<'a> {
        match *self {
            TokenKind::Identifier(name) => Lexeme::Identifier(name@),
            TokenKind::Integer(integer) => Lexeme::Integer(
                integer.source@,
                integer.format,
                integer.suffix,
            ),
            TokenKind::String(literal, encoding) => Lexeme::String(literal@, encoding),
            kind => Lexeme::Plain(kind),
        }
    }
}

/// A token with the text that it borrows replaced by the characters
/// themselves.
pub struct TokenView<'a> {
    pub at: At,
    pub kind: Lexeme<'a>,
}

impl<'a> View for Token<'a> {
    type V = TokenView<'a>;

    open spec fn view(&self) -> TokenView<'a> {
        TokenView { at: self.at, kind: self.kind@ }
    }
}

/// The tokens of a sequence, each by its view.
pub open spec fn views<'a>(tokens: Seq<Token<'a>>) -> Seq<TokenView<'a>> {
    Seq::new(tokens.len(), |i: int| tokens[i]@)
}

impl<'a> TokenKind<'a> {
    /// Whether the kind carries no text of its own: a punctuator, a
    /// keyword, the end marker or the error marker.
    pub open spec fn is_plain(self) -> bool {
        !(self is Identifier || self is Integer || self is String)
    }

    /// A number that tells the variants apart.
    pub open spec fn ordinal(self) -> int {
        match self {
            TokenKind::Identifier(_) => 0,
            TokenKind::Integer(_) => 1,
            TokenKind::String(_, _) => 2,
            TokenKind::OpenBracket => 3,
            TokenKind::CloseBracket => 4,
            TokenKind::OpenParenthesis => 5,
            TokenKind::CloseParenthesis => 6,
            TokenKind::OpenBrace => 7,
            TokenKind::CloseBrace => 8,
            TokenKind::Period => 9,
            TokenKind::ArrowLeft => 10,
            TokenKind::DoublePlus => 11,
            TokenKind::DoubleMinus => 12,
            TokenKind::Ampersand => 13,
            TokenKind::Asterisk => 14,
            TokenKind::Plus => 15,
            TokenKind::Minus => 16,
            TokenKind::Tilde => 17,
            TokenKind::Exclamation => 18,
            TokenKind::Slash => 19,
            TokenKind::Percent => 20,
            TokenKind::DoubleLess => 21,
            TokenKind::DoubleGreater => 22,
            TokenKind::Less => 23,
            TokenKind::Greater => 24,
            TokenKind::LessEqual => 25,
            TokenKind::GreaterEqual => 26,
            TokenKind::DoubleEqual => 27,
            TokenKind::NotEqual => 28,
            TokenKind::Caret => 29,
            TokenKind::Bar => 30,
            TokenKind::DoubleAmpersand => 31,
            TokenKind::DoubleBar => 32,
            TokenKind::Question => 33,
            TokenKind::Colon => 34,
            TokenKind::DoubleColon => 35,
            TokenKind::Semicolon => 36,
            TokenKind::Ellipses => 37,
            TokenKind::Equal => 38,
            TokenKind::AsteriskEqual => 39,
            TokenKind::SlashEqual => 40,
            TokenKind::PercentEqual => 41,
            TokenKind::PlusEqual => 42,
            TokenKind::MinusEqual => 43,
            TokenKind::DoubleLessEqual => 44,
            TokenKind::DoubleGreaterEqual => 45,
            TokenKind::AmpersandEqual => 46,
            TokenKind::CaretEqual => 47,
            TokenKind::BarEqual => 48,
            TokenKind::Comma => 49,
            TokenKind::Alignas => 50,
            TokenKind::Alignof => 51,
            TokenKind::Auto => 52,
            TokenKind::Bool => 53,
            TokenKind::Break => 54,
            TokenKind::Case => 55,
            TokenKind::Char => 56,
            TokenKind::Const => 57,
            TokenKind::Constexpr => 58,
            TokenKind::Continue => 59,
            TokenKind::Default => 60,
            TokenKind::Do => 61,
            TokenKind::Double => 62,
            TokenKind::Else => 63,
            TokenKind::Enum => 64,
            TokenKind::Extern => 65,
            TokenKind::False => 66,
            TokenKind::Float => 67,
            TokenKind::For => 68,
            TokenKind::Goto => 69,
            TokenKind::If => 70,
            TokenKind::Inline => 71,
            TokenKind::Int => 72,
            TokenKind::Long => 73,
            TokenKind::Nullptr => 74,
            TokenKind::Register => 75,
            TokenKind::Restrict => 76,
            TokenKind::Return => 77,
            TokenKind::Short => 78,
            TokenKind::Signed => 79,
            TokenKind::Sizeof => 80,
            TokenKind::Static => 81,
            TokenKind::StaticAssert => 82,
            TokenKind::Struct => 83,
            TokenKind::Switch => 84,
            TokenKind::ThreadLocal => 85,
            TokenKind::True => 86,
            TokenKind::Typedef => 87,
            TokenKind::Typeof => 88,
            TokenKind::TypeofUnqual => 89,
            TokenKind::Union => 90,
            TokenKind::Unsigned => 91,
            TokenKind::Void => 92,
            TokenKind::Volatile => 93,
            TokenKind::While => 94,
            TokenKind::Atomic => 95,
            TokenKind::BitInt => 96,
            TokenKind::Complex => 97,
            TokenKind::Decimal128 => 98,
            TokenKind::Decimal32 => 99,
            TokenKind::Decimal64 => 100,
            TokenKind::Generic => 101,
            TokenKind::Imaginary => 102,
            TokenKind::Noreturn => 103,
            TokenKind::Eof => 104,
            TokenKind::Error => 105,
        }
    }

    /// Two plain kinds with the same ordinal are the same kind.
    pub proof fn lemma_ordinal_injective(self, other: Self)
        requires
            self.is_plain(),
            self.ordinal() == other.ordinal(),
        ensures
            self == other,
    {
    }

    fn exec_ordinal(&self) -> (n: u8)
        ensures
            n == self.ordinal(),
    {
        match self {
            TokenKind::Identifier(_) => 0,
            TokenKind::Integer(_) => 1,
            TokenKind::String(_, _) => 2,
            TokenKind::OpenBracket => 3,
            TokenKind::CloseBracket => 4,
            TokenKind::OpenParenthesis => 5,
            TokenKind::CloseParenthesis => 6,
            TokenKind::OpenBrace => 7,
            TokenKind::CloseBrace => 8,
            TokenKind::Period => 9,
            TokenKind::ArrowLeft => 10,
            TokenKind::DoublePlus => 11,
            TokenKind::DoubleMinus => 12,
            TokenKind::Ampersand => 13,
            TokenKind::Asterisk => 14,
            TokenKind::Plus => 15,
            TokenKind::Minus => 16,
            TokenKind::Tilde => 17,
            TokenKind::Exclamation => 18,
            TokenKind::Slash => 19,
            TokenKind::Percent => 20,
            TokenKind::DoubleLess => 21,
            TokenKind::DoubleGreater => 22,
            TokenKind::Less => 23,
            TokenKind::Greater => 24,
            TokenKind::LessEqual => 25,
            TokenKind::GreaterEqual => 26,
            TokenKind::DoubleEqual => 27,
            TokenKind::NotEqual => 28,
            TokenKind::Caret => 29,
            TokenKind::Bar => 30,
            TokenKind::DoubleAmpersand => 31,
            TokenKind::DoubleBar => 32,
            TokenKind::Question => 33,
            TokenKind::Colon => 34,
            TokenKind::DoubleColon => 35,
            TokenKind::Semicolon => 36,
            TokenKind::Ellipses => 37,
            TokenKind::Equal => 38,
            TokenKind::AsteriskEqual => 39,
            TokenKind::SlashEqual => 40,
            TokenKind::PercentEqual => 41,
            TokenKind::PlusEqual => 42,
            TokenKind::MinusEqual => 43,
            TokenKind::DoubleLessEqual => 44,
            TokenKind::DoubleGreaterEqual => 45,
            TokenKind::AmpersandEqual => 46,
            TokenKind::CaretEqual => 47,
            TokenKind::BarEqual => 48,
            TokenKind::Comma => 49,
            TokenKind::Alignas => 50,
            TokenKind::Alignof => 51,
            TokenKind::Auto => 52,
            TokenKind::Bool => 53,
            TokenKind::Break => 54,
            TokenKind::Case => 55,
            TokenKind::Char => 56,
            TokenKind::Const => 57,
            TokenKind::Constexpr => 58,
            TokenKind::Continue => 59,
            TokenKind::Default => 60,
            TokenKind::Do => 61,
            TokenKind::Double => 62,
            TokenKind::Else => 63,
            TokenKind::Enum => 64,
            TokenKind::Extern => 65,
            TokenKind::False => 66,
            TokenKind::Float => 67,
            TokenKind::For => 68,
            TokenKind::Goto => 69,
            TokenKind::If => 70,
            TokenKind::Inline => 71,
            TokenKind::Int => 72,
            TokenKind::Long => 73,
            TokenKind::Nullptr => 74,
            TokenKind::Register => 75,
            TokenKind::Restrict => 76,
            TokenKind::Return => 77,
            TokenKind::Short => 78,
            TokenKind::Signed => 79,
            TokenKind::Sizeof => 80,
            TokenKind::Static => 81,
            TokenKind::StaticAssert => 82,
            TokenKind::Struct => 83,
            TokenKind::Switch => 84,
            TokenKind::ThreadLocal => 85,
            TokenKind::True => 86,
            TokenKind::Typedef => 87,
            TokenKind::Typeof => 88,
            TokenKind::TypeofUnqual => 89,
            TokenKind::Union => 90,
            TokenKind::Unsigned => 91,
            TokenKind::Void => 92,
            TokenKind::Volatile => 93,
            TokenKind::While => 94,
            TokenKind::Atomic => 95,
            TokenKind::BitInt => 96,
            TokenKind::Complex => 97,
            TokenKind::Decimal128 => 98,
            TokenKind::Decimal32 => 99,
            TokenKind::Decimal64 => 100,
            TokenKind::Generic => 101,
            TokenKind::Imaginary => 102,
            TokenKind::Noreturn => 103,
            TokenKind::Eof => 104,
            TokenKind::Error => 105,
        }
    }

    /// Whether this is the plain kind `other`.
    pub fn is(&self, other: &TokenKind) -> (same: bool)
        requires
            other.is_plain(),
        ensures
            same == (*self == *other),
    {
        let same = self.exec_ordinal() == other.exec_ordinal();
        proof {
            if same {
                other.lemma_ordinal_injective(*self);
            }
        }
        same
    }
}

/// The table of file names: a file's id is its place in the table, and no
/// name stands in it twice.
#[derive(Clone, Debug)]
pub struct Files {
    files: Vec<String>,
}

impl View for Files {
    type V = Seq<Seq<char>>;

    closed spec fn view(&self) -> Seq<Seq<char>> {
        Seq::new(self.files@.len(), |i: int| self.files@[i]@)
    }
}

/// The first place at which `name` stands in `names`, if it stands there.
pub open spec fn first_index_of(names: Seq<Seq<char>>, name: Seq<char>) -> Option<int>
    decreases names.len(),
{
    if names.len() == 0 {
        None
    } else {
        match first_index_of(names.drop_last(), name) {
            Some(i) => Some(i),
            None => if names.last() == name {
                Some(names.len() - 1)
            } else {
                None
            },
        }
    }
}

impl Files {
    pub fn new() -> (files: Self)
        ensures
            files@ == Seq::<Seq<char>>::empty(),
    {
        let files = Self { files: Vec::new() };
        assert(files@ =~= Seq::<Seq<char>>::empty());
        files
    }

    /// The id of the file `name`: that of its first entry in the table,
    /// or that of a new entry at the end.
    pub fn get_file_id(&mut self, name: &str) -> (id: usize)
        ensures
            match first_index_of(old(self)@, name@) {
                Some(i) => id == i && final(self)@ == old(self)@,
                None => id == old(self)@.len() && final(self)@ == old(self)@.push(name@),
            },
    {
        let mut i: usize = 0;
        while i < self.files.len()
            invariant
                *self == *old(self),
                i <= self.files@.len(),
                self@.len() == self.files@.len(),
                first_index_of(self@.take(i as int), name@) is None,
            decreases self.files@.len() - i,
        {
            proof {
                assert(self@.take(i + 1).drop_last() =~= self@.take(i as int));
            }
            if str_eq(self.files[i].as_str(), name) {
                proof {
                    lemma_first_index_of_prefix(self@, i + 1, name@);
                }
                return i;
            }
            i += 1;
        }
        proof {
            assert(self@.take(i as int) =~= self@);
        }
        self.files.push(name.to_owned());
        proof {
            assert(self@ =~= old(self)@.push(name@));
        }
        i
    }

    /// The number of files in the table.
    pub fn len(&self) -> (n: usize)
        ensures
            n == self@.len(),
    {
        self.files.len()
    }

    /// The name of the file `id`.
    pub fn name(&self, id: usize) -> (name: &str)
        requires
            id < self@.len(),
        ensures
            name@ == self@[id as int],
    {
        self.files[id].as_str()
    }
}

/// What is found in the first `n` names is found in all of them.
pub proof fn lemma_first_index_of_prefix(names: Seq<Seq<char>>, n: int, name: Seq<char>)
    requires
        0 <= n <= names.len(),
        first_index_of(names.take(n), name) is Some,
    ensures
        first_index_of(names, name) == first_index_of(names.take(n), name),
    decreases names.len() - n,
{
    if n < names.len() {
        assert(names.take(n + 1).drop_last() =~= names.take(n));
        lemma_first_index_of_prefix(names, n + 1, name);
    } else {
        assert(names.take(n) =~= names);
    }
}

} // verus!
