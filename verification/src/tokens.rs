use vstd::prelude::*;
use vstd::pervasive::unreached;
use crate::chars::str_to_chars;
use crate::stream::{CellSpec, Cursor, TokenStream, TokenTree, TreeSpec};

verus! {

broadcast use vstd::seq::group_seq_axioms;

/// The closed set of C keywords, one variant per lexeme.
#[allow(non_camel_case_types)]
#[derive(Clone, Copy, Debug, PartialEq, Eq, Structural)]
pub enum Keyword {
    Auto,
    Extern,
    Short,
    While,
    Break,
    Float,
    Signed,
    _Alignas,
    Case,
    For,
    Sizeof,
    _Alignof,
    Char,
    Goto,
    Static,
    _Atomic,
    Const,
    If,
    Struct,
    _Bool,
    Continue,
    Inline,
    Switch,
    _Complex,
    Default,
    Int,
    Typedef,
    _Generic,
    Do,
    Long,
    Union,
    _Imaginary,
    Double,
    Register,
    Unsigned,
    _Noreturn,
    Else,
    Restrict,
    Void,
    _Static_assert,
    Enum,
    Return,
    Volatile,
    _Thread_local,
}

/// The closed set of punctuators, one variant per lexeme.
#[derive(Clone, Copy, Debug, PartialEq, Eq, Structural)]
pub enum Punct {
    Dot,
    Arrow,
    PlusPlus,
    MinusMinus,
    Ampersand,
    Asterix,
    Plus,
    Minus,
    Tilde,
    ExclamationMark,
    Slash,
    Percent,
    DoubleLeftArrow,
    DoubleRightArrow,
    LeftArrow,
    RightArrow,
    LeftEqualArrow,
    RightEqualArrow,
    EqualEqual,
    ExclamationEqual,
    Carat,
    VerticalBar,
    DoubleAmpersand,
    DoubleVerticalBar,
    QuestionMark,
    Colon,
    SemiColon,
    DotDotDot,
    Equal,
    AsterixEqual,
    SlashEqual,
    PercentEqual,
    PlusEqual,
    MinusEqual,
    DoubleLeftArrowEqual,
    DoubleRightArrowEqual,
    AmpersandEqual,
    CaratEqual,
    VerticalBarEqual,
    Comma,
    Hashtag,
    DoubleHashtag,
    LeftArrowColon,
    ColonRightArrow,
    LeftArrowPercent,
    PercentRightArrow,
    PercentColon,
    DoublePercentColon,
}

/// The three bracket families that define group nesting.
#[derive(Clone, Copy, Debug, PartialEq, Eq, Structural)]
pub enum Delimeter {
    Paren,
    Brace,
    Bracket,
}

/// The outcome of holding a candidate string against the punctuator table.
#[derive(Clone, Copy, Debug, PartialEq, Eq, Structural)]
pub enum PunctMatch {
    /// The candidate exactly equals a table entry.
    Matched(Punct),
    /// The candidate is a proper prefix of at least one entry but equals none.
    Partial,
    /// No table entry has the candidate as a prefix.
    NoMatch,
}

/// The display text of a keyword.
pub open spec fn spec_keyword_text(k: Keyword) -> Seq<char> {
    match k {
        Keyword::Auto => "auto"@,
        Keyword::Extern => "extern"@,
        Keyword::Short => "short"@,
        Keyword::While => "while"@,
        Keyword::Break => "break"@,
        Keyword::Float => "float"@,
        Keyword::Signed => "signed"@,
        Keyword::_Alignas => "_Alignas"@,
        Keyword::Case => "case"@,
        Keyword::For => "for"@,
        Keyword::Sizeof => "sizeof"@,
        Keyword::_Alignof => "_Alignof"@,
        Keyword::Char => "char"@,
        Keyword::Goto => "goto"@,
        Keyword::Static => "static"@,
        Keyword::_Atomic => "_Atomic"@,
        Keyword::Const => "const"@,
        Keyword::If => "if"@,
        Keyword::Struct => "struct"@,
        Keyword::_Bool => "_Bool"@,
        Keyword::Continue => "Continue"@,
        Keyword::Inline => "inline"@,
        Keyword::Switch => "switch"@,
        Keyword::_Complex => "_Complex"@,
        Keyword::Default => "default"@,
        Keyword::Int => "int"@,
        Keyword::Typedef => "typedef"@,
        Keyword::_Generic => "_Generic"@,
        Keyword::Do => "do"@,
        Keyword::Long => "long"@,
        Keyword::Union => "union"@,
        Keyword::_Imaginary => "_Imaginary"@,
        Keyword::Double => "double"@,
        Keyword::Register => "register"@,
        Keyword::Unsigned => "unsigned"@,
        Keyword::_Noreturn => "_Noreturn"@,
        Keyword::Else => "else"@,
        Keyword::Restrict => "restrict"@,
        Keyword::Void => "void"@,
        Keyword::_Static_assert => "_Static_assert"@,
        Keyword::Enum => "enum"@,
        Keyword::Return => "return"@,
        Keyword::Volatile => "volatile"@,
        Keyword::_Thread_local => "_Thread_local"@,
    }
}

/// The display text of a keyword.
pub fn keyword_text(k: Keyword) -> (r: &'static str)
    ensures
        r@ == spec_keyword_text(k),
{
    match k {
        Keyword::Auto => "auto",
        Keyword::Extern => "extern",
        Keyword::Short => "short",
        Keyword::While => "while",
        Keyword::Break => "break",
        Keyword::Float => "float",
        Keyword::Signed => "signed",
        Keyword::_Alignas => "_Alignas",
        Keyword::Case => "case",
        Keyword::For => "for",
        Keyword::Sizeof => "sizeof",
        Keyword::_Alignof => "_Alignof",
        Keyword::Char => "char",
        Keyword::Goto => "goto",
        Keyword::Static => "static",
        Keyword::_Atomic => "_Atomic",
        Keyword::Const => "const",
        Keyword::If => "if",
        Keyword::Struct => "struct",
        Keyword::_Bool => "_Bool",
        Keyword::Continue => "Continue",
        Keyword::Inline => "inline",
        Keyword::Switch => "switch",
        Keyword::_Complex => "_Complex",
        Keyword::Default => "default",
        Keyword::Int => "int",
        Keyword::Typedef => "typedef",
        Keyword::_Generic => "_Generic",
        Keyword::Do => "do",
        Keyword::Long => "long",
        Keyword::Union => "union",
        Keyword::_Imaginary => "_Imaginary",
        Keyword::Double => "double",
        Keyword::Register => "register",
        Keyword::Unsigned => "unsigned",
        Keyword::_Noreturn => "_Noreturn",
        Keyword::Else => "else",
        Keyword::Restrict => "restrict",
        Keyword::Void => "void",
        Keyword::_Static_assert => "_Static_assert",
        Keyword::Enum => "enum",
        Keyword::Return => "return",
        Keyword::Volatile => "volatile",
        Keyword::_Thread_local => "_Thread_local",
    }
}

/// The keyword whose display text is `s`, if any.
pub open spec fn spec_keyword_of(s: Seq<char>) -> Option<Keyword> {
    if s == "auto"@ { Some(Keyword::Auto) }
    else if s == "extern"@ { Some(Keyword::Extern) }
    else if s == "short"@ { Some(Keyword::Short) }
    else if s == "while"@ { Some(Keyword::While) }
    else if s == "break"@ { Some(Keyword::Break) }
    else if s == "float"@ { Some(Keyword::Float) }
    else if s == "signed"@ { Some(Keyword::Signed) }
    else if s == "_Alignas"@ { Some(Keyword::_Alignas) }
    else if s == "case"@ { Some(Keyword::Case) }
    else if s == "for"@ { Some(Keyword::For) }
    else if s == "sizeof"@ { Some(Keyword::Sizeof) }
    else if s == "_Alignof"@ { Some(Keyword::_Alignof) }
    else if s == "char"@ { Some(Keyword::Char) }
    else if s == "goto"@ { Some(Keyword::Goto) }
    else if s == "static"@ { Some(Keyword::Static) }
    else if s == "_Atomic"@ { Some(Keyword::_Atomic) }
    else if s == "const"@ { Some(Keyword::Const) }
    else if s == "if"@ { Some(Keyword::If) }
    else if s == "struct"@ { Some(Keyword::Struct) }
    else if s == "_Bool"@ { Some(Keyword::_Bool) }
    else if s == "Continue"@ { Some(Keyword::Continue) }
    else if s == "inline"@ { Some(Keyword::Inline) }
    else if s == "switch"@ { Some(Keyword::Switch) }
    else if s == "_Complex"@ { Some(Keyword::_Complex) }
    else if s == "default"@ { Some(Keyword::Default) }
    else if s == "int"@ { Some(Keyword::Int) }
    else if s == "typedef"@ { Some(Keyword::Typedef) }
    else if s == "_Generic"@ { Some(Keyword::_Generic) }
    else if s == "do"@ { Some(Keyword::Do) }
    else if s == "long"@ { Some(Keyword::Long) }
    else if s == "union"@ { Some(Keyword::Union) }
    else if s == "_Imaginary"@ { Some(Keyword::_Imaginary) }
    else if s == "double"@ { Some(Keyword::Double) }
    else if s == "register"@ { Some(Keyword::Register) }
    else if s == "unsigned"@ { Some(Keyword::Unsigned) }
    else if s == "_Noreturn"@ { Some(Keyword::_Noreturn) }
    else if s == "else"@ { Some(Keyword::Else) }
    else if s == "restrict"@ { Some(Keyword::Restrict) }
    else if s == "void"@ { Some(Keyword::Void) }
    else if s == "_Static_assert"@ { Some(Keyword::_Static_assert) }
    else if s == "enum"@ { Some(Keyword::Enum) }
    else if s == "return"@ { Some(Keyword::Return) }
    else if s == "volatile"@ { Some(Keyword::Volatile) }
    else if s == "_Thread_local"@ { Some(Keyword::_Thread_local) }
    else { None }
}

/// Compares two character vectors for equality.
pub fn chars_eq(a: &Vec<char>, b: &Vec<char>) -> (r: bool)
    ensures
        r == (a@ == b@),
{
    if a.len() != b.len() {
        proof {
            assert(a@ != b@);
        }
        return false;
    }
    let n = a.len();
    let mut i: usize = 0;
    while i < n
        invariant
            n == a@.len() == b@.len(),
            i <= n,
            forall|k: int| 0 <= k < i ==> a@[k] == b@[k],
        decreases n - i,
    {
        if a[i] != b[i] {
            return false;
        }
        i = i + 1;
    }
    proof {
        assert(a@ =~= b@);
    }
    true
}

pub open spec fn spec_is_prefix(s: Seq<char>, of: Seq<char>) -> bool {
    s.len() <= of.len() && s == of.subrange(0, s.len() as int)
}

/// Whether `a` is a (non-strict) prefix of `b`.
pub fn chars_prefix(a: &Vec<char>, b: &Vec<char>) -> (r: bool)
    ensures
        r == spec_is_prefix(a@, b@),
{
    if a.len() > b.len() {
        return false;
    }
    let n = a.len();
    let mut i: usize = 0;
    while i < n
        invariant
            n == a@.len(),
            n <= b@.len(),
            i <= n,
            forall|k: int| 0 <= k < i ==> a@[k] == b@[k],
        decreases n - i,
    {
        if a[i] != b[i] {
            proof {
                assert(a@[i as int] != b@.subrange(0, a@.len() as int)[i as int]);
            }
            return false;
        }
        i = i + 1;
    }
    proof {
        assert(a@ =~= b@.subrange(0, a@.len() as int));
    }
    true
}

/// Compares a character vector against a string slice.
pub fn chars_eq_str(a: &Vec<char>, b: &str) -> (r: bool)
    ensures
        r == (a@ == b@),
{
    let bv = str_to_chars(b);
    chars_eq(a, &bv)
}

/// The keyword whose display text is `s`, if any.
pub fn keyword_of(s: &str) -> (r: Option<Keyword>)
    ensures
        r == spec_keyword_of(s@),
{
    let v = str_to_chars(s);
    if chars_eq_str(&v, "auto") { Some(Keyword::Auto) }
    else if chars_eq_str(&v, "extern") { Some(Keyword::Extern) }
    else if chars_eq_str(&v, "short") { Some(Keyword::Short) }
    else if chars_eq_str(&v, "while") { Some(Keyword::While) }
    else if chars_eq_str(&v, "break") { Some(Keyword::Break) }
    else if chars_eq_str(&v, "float") { Some(Keyword::Float) }
    else if chars_eq_str(&v, "signed") { Some(Keyword::Signed) }
    else if chars_eq_str(&v, "_Alignas") { Some(Keyword::_Alignas) }
    else if chars_eq_str(&v, "case") { Some(Keyword::Case) }
    else if chars_eq_str(&v, "for") { Some(Keyword::For) }
    else if chars_eq_str(&v, "sizeof") { Some(Keyword::Sizeof) }
    else if chars_eq_str(&v, "_Alignof") { Some(Keyword::_Alignof) }
    else if chars_eq_str(&v, "char") { Some(Keyword::Char) }
    else if chars_eq_str(&v, "goto") { Some(Keyword::Goto) }
    else if chars_eq_str(&v, "static") { Some(Keyword::Static) }
    else if chars_eq_str(&v, "_Atomic") { Some(Keyword::_Atomic) }
    else if chars_eq_str(&v, "const") { Some(Keyword::Const) }
    else if chars_eq_str(&v, "if") { Some(Keyword::If) }
    else if chars_eq_str(&v, "struct") { Some(Keyword::Struct) }
    else if chars_eq_str(&v, "_Bool") { Some(Keyword::_Bool) }
    else if chars_eq_str(&v, "Continue") { Some(Keyword::Continue) }
    else if chars_eq_str(&v, "inline") { Some(Keyword::Inline) }
    else if chars_eq_str(&v, "switch") { Some(Keyword::Switch) }
    else if chars_eq_str(&v, "_Complex") { Some(Keyword::_Complex) }
    else if chars_eq_str(&v, "default") { Some(Keyword::Default) }
    else if chars_eq_str(&v, "int") { Some(Keyword::Int) }
    else if chars_eq_str(&v, "typedef") { Some(Keyword::Typedef) }
    else if chars_eq_str(&v, "_Generic") { Some(Keyword::_Generic) }
    else if chars_eq_str(&v, "do") { Some(Keyword::Do) }
    else if chars_eq_str(&v, "long") { Some(Keyword::Long) }
    else if chars_eq_str(&v, "union") { Some(Keyword::Union) }
    else if chars_eq_str(&v, "_Imaginary") { Some(Keyword::_Imaginary) }
    else if chars_eq_str(&v, "double") { Some(Keyword::Double) }
    else if chars_eq_str(&v, "register") { Some(Keyword::Register) }
    else if chars_eq_str(&v, "unsigned") { Some(Keyword::Unsigned) }
    else if chars_eq_str(&v, "_Noreturn") { Some(Keyword::_Noreturn) }
    else if chars_eq_str(&v, "else") { Some(Keyword::Else) }
    else if chars_eq_str(&v, "restrict") { Some(Keyword::Restrict) }
    else if chars_eq_str(&v, "void") { Some(Keyword::Void) }
    else if chars_eq_str(&v, "_Static_assert") { Some(Keyword::_Static_assert) }
    else if chars_eq_str(&v, "enum") { Some(Keyword::Enum) }
    else if chars_eq_str(&v, "return") { Some(Keyword::Return) }
    else if chars_eq_str(&v, "volatile") { Some(Keyword::Volatile) }
    else if chars_eq_str(&v, "_Thread_local") { Some(Keyword::_Thread_local) }
    else { None }
}

/// Whether `s` is the display text of some keyword.
pub fn is_keyword(s: &str) -> (r: bool)
    ensures
        r == (spec_keyword_of(s@) is Some),
{
    keyword_of(s).is_some()
}

/// The punctuator table: each entry maps a lexeme to its tagged variant.
pub open spec fn spec_punct_table() -> Seq<(Seq<char>, Punct)> {
    seq![
        ("."@, Punct::Dot),
        ("->"@, Punct::Arrow),
        ("++"@, Punct::PlusPlus),
        ("--"@, Punct::MinusMinus),
        ("&"@, Punct::Ampersand),
        ("*"@, Punct::Asterix),
        ("+"@, Punct::Plus),
        ("-"@, Punct::Minus),
        ("~"@, Punct::Tilde),
        ("!"@, Punct::ExclamationMark),
        ("/"@, Punct::Slash),
        ("%"@, Punct::Percent),
        ("<<"@, Punct::DoubleLeftArrow),
        (">>"@, Punct::DoubleRightArrow),
        ("<"@, Punct::LeftArrow),
        (">"@, Punct::RightArrow),
        ("<="@, Punct::LeftEqualArrow),
        (">="@, Punct::RightEqualArrow),
        ("=="@, Punct::EqualEqual),
        ("!="@, Punct::ExclamationEqual),
        ("^"@, Punct::Carat),
        ("|"@, Punct::VerticalBar),
        ("&&"@, Punct::DoubleAmpersand),
        ("||"@, Punct::DoubleVerticalBar),
        ("?"@, Punct::QuestionMark),
        (":"@, Punct::Colon),
        (";"@, Punct::SemiColon),
        ("..."@, Punct::DotDotDot),
        ("="@, Punct::Equal),
        ("*="@, Punct::AsterixEqual),
        ("/="@, Punct::SlashEqual),
        ("%="@, Punct::PercentEqual),
        ("+="@, Punct::PlusEqual),
        ("-="@, Punct::MinusEqual),
        ("<<="@, Punct::DoubleLeftArrowEqual),
        (">>="@, Punct::DoubleRightArrowEqual),
        ("&="@, Punct::AmpersandEqual),
        ("^="@, Punct::CaratEqual),
        ("|="@, Punct::VerticalBarEqual),
        (","@, Punct::Comma),
        ("#"@, Punct::Hashtag),
        ("##"@, Punct::DoubleHashtag),
        ("<:"@, Punct::LeftArrowColon),
        (":>"@, Punct::ColonRightArrow),
        ("<%"@, Punct::LeftArrowPercent),
        ("%>"@, Punct::PercentRightArrow),
        ("%:"@, Punct::PercentColon),
        ("%:%:"@, Punct::DoublePercentColon),
    ]
}

/// The entry of the punctuator table at index `i`.
pub fn punct_entry(i: usize) -> (r: (&'static str, Punct))
    requires
        i < spec_punct_table().len(),
    ensures
        r.0@ == spec_punct_table()[i as int].0,
        r.1 == spec_punct_table()[i as int].1,
{
    match i {
        0 => (".", Punct::Dot),
        1 => ("->", Punct::Arrow),
        2 => ("++", Punct::PlusPlus),
        3 => ("--", Punct::MinusMinus),
        4 => ("&", Punct::Ampersand),
        5 => ("*", Punct::Asterix),
        6 => ("+", Punct::Plus),
        7 => ("-", Punct::Minus),
        8 => ("~", Punct::Tilde),
        9 => ("!", Punct::ExclamationMark),
        10 => ("/", Punct::Slash),
        11 => ("%", Punct::Percent),
        12 => ("<<", Punct::DoubleLeftArrow),
        13 => (">>", Punct::DoubleRightArrow),
        14 => ("<", Punct::LeftArrow),
        15 => (">", Punct::RightArrow),
        16 => ("<=", Punct::LeftEqualArrow),
        17 => (">=", Punct::RightEqualArrow),
        18 => ("==", Punct::EqualEqual),
        19 => ("!=", Punct::ExclamationEqual),
        20 => ("^", Punct::Carat),
        21 => ("|", Punct::VerticalBar),
        22 => ("&&", Punct::DoubleAmpersand),
        23 => ("||", Punct::DoubleVerticalBar),
        24 => ("?", Punct::QuestionMark),
        25 => (":", Punct::Colon),
        26 => (";", Punct::SemiColon),
        27 => ("...", Punct::DotDotDot),
        28 => ("=", Punct::Equal),
        29 => ("*=", Punct::AsterixEqual),
        30 => ("/=", Punct::SlashEqual),
        31 => ("%=", Punct::PercentEqual),
        32 => ("+=", Punct::PlusEqual),
        33 => ("-=", Punct::MinusEqual),
        34 => ("<<=", Punct::DoubleLeftArrowEqual),
        35 => (">>=", Punct::DoubleRightArrowEqual),
        36 => ("&=", Punct::AmpersandEqual),
        37 => ("^=", Punct::CaratEqual),
        38 => ("|=", Punct::VerticalBarEqual),
        39 => (",", Punct::Comma),
        40 => ("#", Punct::Hashtag),
        41 => ("##", Punct::DoubleHashtag),
        42 => ("<:", Punct::LeftArrowColon),
        43 => (":>", Punct::ColonRightArrow),
        44 => ("<%", Punct::LeftArrowPercent),
        45 => ("%>", Punct::PercentRightArrow),
        46 => ("%:", Punct::PercentColon),
        47 => ("%:%:", Punct::DoublePercentColon),
        _ => unreached(),
    }
}

/// The display text of a punctuator: the first table entry carrying it.
pub open spec fn spec_punct_text(p: Punct) -> Seq<char> {
    match p {
        Punct::Dot => "."@,
        Punct::Arrow => "->"@,
        Punct::PlusPlus => "++"@,
        Punct::MinusMinus => "--"@,
        Punct::Ampersand => "&"@,
        Punct::Asterix => "*"@,
        Punct::Plus => "+"@,
        Punct::Minus => "-"@,
        Punct::Tilde => "~"@,
        Punct::ExclamationMark => "!"@,
        Punct::Slash => "/"@,
        Punct::Percent => "%"@,
        Punct::DoubleLeftArrow => "<<"@,
        Punct::DoubleRightArrow => ">>"@,
        Punct::LeftArrow => "<"@,
        Punct::RightArrow => ">"@,
        Punct::LeftEqualArrow => "<="@,
        Punct::RightEqualArrow => ">="@,
        Punct::EqualEqual => "=="@,
        Punct::ExclamationEqual => "!="@,
        Punct::Carat => "^"@,
        Punct::VerticalBar => "|"@,
        Punct::DoubleAmpersand => "&&"@,
        Punct::DoubleVerticalBar => "||"@,
        Punct::QuestionMark => "?"@,
        Punct::Colon => ":"@,
        Punct::SemiColon => ";"@,
        Punct::DotDotDot => "..."@,
        Punct::Equal => "="@,
        Punct::AsterixEqual => "*="@,
        Punct::SlashEqual => "/="@,
        Punct::PercentEqual => "%="@,
        Punct::PlusEqual => "+="@,
        Punct::MinusEqual => "-="@,
        Punct::DoubleLeftArrowEqual => "<<="@,
        Punct::DoubleRightArrowEqual => ">>="@,
        Punct::AmpersandEqual => "&="@,
        Punct::CaratEqual => "^="@,
        Punct::VerticalBarEqual => "|="@,
        Punct::Comma => ","@,
        Punct::Hashtag => "#"@,
        Punct::DoubleHashtag => "##"@,
        Punct::LeftArrowColon => "<:"@,
        Punct::ColonRightArrow => ":>"@,
        Punct::LeftArrowPercent => "<%"@,
        Punct::PercentRightArrow => "%>"@,
        Punct::PercentColon => "%:"@,
        Punct::DoublePercentColon => "%:%:"@,
    }
}

/// The display text of a punctuator.
pub fn punct_text(p: Punct) -> (r: &'static str)
    ensures
        r@ == spec_punct_text(p),
{
    match p {
        Punct::Dot => ".",
        Punct::Arrow => "->",
        Punct::PlusPlus => "++",
        Punct::MinusMinus => "--",
        Punct::Ampersand => "&",
        Punct::Asterix => "*",
        Punct::Plus => "+",
        Punct::Minus => "-",
        Punct::Tilde => "~",
        Punct::ExclamationMark => "!",
        Punct::Slash => "/",
        Punct::Percent => "%",
        Punct::DoubleLeftArrow => "<<",
        Punct::DoubleRightArrow => ">>",
        Punct::LeftArrow => "<",
        Punct::RightArrow => ">",
        Punct::LeftEqualArrow => "<=",
        Punct::RightEqualArrow => ">=",
        Punct::EqualEqual => "==",
        Punct::ExclamationEqual => "!=",
        Punct::Carat => "^",
        Punct::VerticalBar => "|",
        Punct::DoubleAmpersand => "&&",
        Punct::DoubleVerticalBar => "||",
        Punct::QuestionMark => "?",
        Punct::Colon => ":",
        Punct::SemiColon => ";",
        Punct::DotDotDot => "...",
        Punct::Equal => "=",
        Punct::AsterixEqual => "*=",
        Punct::SlashEqual => "/=",
        Punct::PercentEqual => "%=",
        Punct::PlusEqual => "+=",
        Punct::MinusEqual => "-=",
        Punct::DoubleLeftArrowEqual => "<<=",
        Punct::DoubleRightArrowEqual => ">>=",
        Punct::AmpersandEqual => "&=",
        Punct::CaratEqual => "^=",
        Punct::VerticalBarEqual => "|=",
        Punct::Comma => ",",
        Punct::Hashtag => "#",
        Punct::DoubleHashtag => "##",
        Punct::LeftArrowColon => "<:",
        Punct::ColonRightArrow => ":>",
        Punct::LeftArrowPercent => "<%",
        Punct::PercentRightArrow => "%>",
        Punct::PercentColon => "%:",
        Punct::DoublePercentColon => "%:%:",
    }
}

/// The first table entry from index `i` on whose lexeme equals `s`.
pub open spec fn table_lookup(s: Seq<char>, i: int) -> Option<Punct>
    decreases spec_punct_table().len() - i when 0 <= i <= spec_punct_table().len()
{
    if i >= spec_punct_table().len() {
        None
    } else if spec_punct_table()[i].0 == s {
        Some(spec_punct_table()[i].1)
    } else {
        table_lookup(s, i + 1)
    }
}

/// Whether `s` is a prefix of some table lexeme from index `i` on.
pub open spec fn table_prefix(s: Seq<char>, i: int) -> bool
    decreases spec_punct_table().len() - i when 0 <= i <= spec_punct_table().len()
{
    if i >= spec_punct_table().len() {
        false
    } else if spec_is_prefix(s, spec_punct_table()[i].0) {
        true
    } else {
        table_prefix(s, i + 1)
    }
}

/// What the punctuator matcher answers for a candidate `s`: an exact table
/// match wins; otherwise a candidate that can still be extended to an entry
/// is `Partial`; otherwise nothing in the table starts with `s`.
pub open spec fn spec_punct_match(s: Seq<char>) -> PunctMatch {
    match table_lookup(s, 0) {
        Some(p) => PunctMatch::Matched(p),
        None => if table_prefix(s, 0) {
            PunctMatch::Partial
        } else {
            PunctMatch::NoMatch
        },
    }
}

/// Holds a candidate, given as characters, against the punctuator table.
pub fn match_punct_chars(v: &Vec<char>) -> (r: PunctMatch)
    ensures
        r == spec_punct_match(v@),
{
    let ghost n = spec_punct_table().len();
    let mut i: usize = 0;
    let mut found: Option<Punct> = None;
    let mut pref: bool = false;
    while i < 48
        invariant
            0 <= i <= n,
            n == 48,
            match found {
                Some(p) => table_lookup(v@, 0) == Some::<Punct>(p),
                None => table_lookup(v@, 0) == table_lookup(v@, i as int),
            },
            table_prefix(v@, 0) == (pref || table_prefix(v@, i as int)),
        decreases 48 - i,
    {
        let (txt, p) = punct_entry(i);
        let tv = str_to_chars(txt);
        if found.is_none() && chars_eq(v, &tv) {
            found = Some(p);
        }
        if chars_prefix(v, &tv) {
            pref = true;
        }
        i = i + 1;
    }
    match found {
        Some(p) => PunctMatch::Matched(p),
        None => {
            if pref {
                PunctMatch::Partial
            } else {
                PunctMatch::NoMatch
            }
        },
    }
}

/// Holds a candidate string against the punctuator table: `Matched` when it
/// exactly equals an entry, `Partial` when it is a strict prefix of one,
/// `NoMatch` when no entry starts with it.
pub fn match_punct(s: &str) -> (r: PunctMatch)
    ensures
        r == spec_punct_match(s@),
{
    let v = str_to_chars(s);
    match_punct_chars(&v)
}

/// A terminal-marker capability: a fixed token shape that can be tested at a
/// cursor without consuming, and displayed for diagnostics.
pub trait Token {
    /// Whether the cell at index `i` of `cells` satisfies this marker.
    spec fn token_matches(&self, cells: Seq<CellSpec>, i: int) -> bool;

    /// The display text of this marker.
    spec fn display_spec(&self) -> Seq<char>;

    /// A marker only ever matches an entry that exists.
    proof fn matches_in_range(&self, cells: Seq<CellSpec>, i: int)
        ensures
            self.token_matches(cells, i) ==> 0 <= i < cells.len(),
    ;

    /// Tests the current token-tree node without advancing.
    fn peek(&self, stream: &TokenStream, cursor: Cursor) -> (r: bool)
        ensures
            r == self.token_matches(stream@, cursor.idx as int),
    ;

    /// The display text of this marker, for diagnostics.
    fn display(&self) -> (r: String)
        ensures
            r@ == self.display_spec(),
    ;
}

impl Token for Keyword {
    proof fn matches_in_range(&self, cells: Seq<CellSpec>, i: int) {
    }

    open spec fn token_matches(&self, cells: Seq<CellSpec>, i: int) -> bool {
        &&& 0 <= i < cells.len()
        &&& cells[i].tree matches TreeSpec::Ident(name) && name == spec_keyword_text(*self)
    }

    open spec fn display_spec(&self) -> Seq<char> {
        spec_keyword_text(*self)
    }

    fn peek(&self, stream: &TokenStream, cursor: Cursor) -> (r: bool) {
        match stream.get(cursor) {
            Some(cell) => match &cell.tt {
                TokenTree::Ident(name) => {
                    let nv = str_to_chars(name.as_str());
                    let tv = str_to_chars(keyword_text(*self));
                    chars_eq(&nv, &tv)
                },
                _ => false,
            },
            None => false,
        }
    }

    fn display(&self) -> (r: String) {
        let mut out = String::new();
        out.append(keyword_text(*self));
        out
    }
}

impl Token for Punct {
    proof fn matches_in_range(&self, cells: Seq<CellSpec>, i: int) {
    }

    open spec fn token_matches(&self, cells: Seq<CellSpec>, i: int) -> bool {
        &&& 0 <= i < cells.len()
        &&& cells[i].tree matches TreeSpec::Punct(p) && p == *self
    }

    open spec fn display_spec(&self) -> Seq<char> {
        spec_punct_text(*self)
    }

    fn peek(&self, stream: &TokenStream, cursor: Cursor) -> (r: bool) {
        match stream.get(cursor) {
            Some(cell) => match &cell.tt {
                TokenTree::Punct(p) => *p == *self,
                _ => false,
            },
            None => false,
        }
    }

    fn display(&self) -> (r: String) {
        let mut out = String::new();
        out.append(punct_text(*self));
        out
    }
}

impl Token for Delimeter {
    proof fn matches_in_range(&self, cells: Seq<CellSpec>, i: int) {
    }

    open spec fn token_matches(&self, cells: Seq<CellSpec>, i: int) -> bool {
        &&& 0 <= i < cells.len()
        &&& cells[i].tree matches TreeSpec::Group(d, _) && d == *self
    }

    open spec fn display_spec(&self) -> Seq<char> {
        match *self {
            Delimeter::Paren => "("@,
            Delimeter::Brace => "{"@,
            Delimeter::Bracket => "["@,
        }
    }

    fn peek(&self, stream: &TokenStream, cursor: Cursor) -> (r: bool) {
        match stream.get(cursor) {
            Some(cell) => match &cell.tt {
                TokenTree::Group(d, _) => *d == *self,
                _ => false,
            },
            None => false,
        }
    }

    fn display(&self) -> (r: String) {
        let mut out = String::new();
        match *self {
            Delimeter::Paren => out.append("("),
            Delimeter::Brace => out.append("{"),
            Delimeter::Bracket => out.append("["),
        }
        out
    }
}

} // verus!
