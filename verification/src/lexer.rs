//! The scanner: source bytes to tokens by longest match.
//!
//! Blanks, line feeds, line comments and closed block comments are skipped.
//! Every other byte starts a token. What cannot start one, a string without
//! its closing quote and a block comment that is never closed come out as
//! `Error` tokens, and the stream always ends with an `Error` token placed at
//! the length of the source.

use crate::smol_str::SmolStr;
use vstd::prelude::*;
use vstd::slice::slice_subrange;
use vstd::string::StringSliceAdditionalSpecFns;

verus! {

/// The kind of a token.
#[derive(Clone, Copy, PartialEq, Eq, Structural, Debug, Hash)]
pub enum TKind {
    LeftParen,
    RightParen,
    LeftBracket,
    RightBracket,
    LeftBrace,
    RightBrace,
    Tilde,
    Comma,
    Dot,
    Minus,
    Plus,
    Semicolon,
    Colon,
    ColonColon,
    Slash,
    Star,
    Arrow,
    QuestionMark,
    Bang,
    BangEqual,
    Equal,
    EqualEqual,
    Greater,
    GreaterEqual,
    Less,
    LessEqual,
    Identifier,
    String,
    Int,
    Float,
    And,
    Break,
    Class,
    Else,
    Enum,
    Extern,
    False,
    For,
    Fun,
    If,
    Import,
    In,
    Interface,
    Is,
    Null,
    Or,
    Return,
    Static,
    True,
    Var,
    Val,
    When,
    While,
    Error,
    Comment,
    Whitespace,
    Newline,
}

/// Left and right binding power of `kind` as an infix operator.
pub open spec fn infix_power(kind: TKind) -> Option<(u8, u8)> {
    match kind {
        TKind::Equal => Some((6u8, 5u8)),
        TKind::Or => Some((10u8, 9u8)),
        TKind::And => Some((12u8, 11u8)),
        TKind::BangEqual | TKind::EqualEqual => Some((14u8, 13u8)),
        TKind::Less | TKind::LessEqual | TKind::Greater | TKind::GreaterEqual => Some(
            (16u8, 15u8),
        ),
        TKind::Plus | TKind::Minus => Some((16u8, 15u8)),
        TKind::Star | TKind::Slash => Some((18u8, 17u8)),
        TKind::Is => Some((20u8, 19u8)),
        _ => None,
    }
}

/// Binding power of `kind` as a prefix operator.
pub open spec fn prefix_power(kind: TKind) -> Option<u8> {
    match kind {
        TKind::Minus | TKind::Bang => Some(30u8),
        _ => None,
    }
}

/// Whether `kind` is a comparison or a logical connective.
pub open spec fn binary_logic(kind: TKind) -> bool {
    match kind {
        TKind::EqualEqual
        | TKind::BangEqual
        | TKind::Less
        | TKind::LessEqual
        | TKind::Greater
        | TKind::GreaterEqual
        | TKind::And
        | TKind::Or => true,
        _ => false,
    }
}

impl TKind {
    pub fn infix_binding_power(&self) -> (r: Option<(u8, u8)>)
        ensures
            r == infix_power(*self),
    {
        match self {
            TKind::Equal => Some((6, 5)),
            TKind::Or => Some((10, 9)),
            TKind::And => Some((12, 11)),
            TKind::BangEqual | TKind::EqualEqual => Some((14, 13)),
            TKind::Less | TKind::LessEqual | TKind::Greater | TKind::GreaterEqual => Some(
                (16, 15),
            ),
            TKind::Plus | TKind::Minus => Some((16, 15)),
            TKind::Star | TKind::Slash => Some((18, 17)),
            TKind::Is => Some((20, 19)),
            _ => None,
        }
    }

    pub fn prefix_binding_power(&self) -> (r: Option<u8>)
        ensures
            r == prefix_power(*self),
    {
        match self {
            TKind::Minus | TKind::Bang => Some(30),
            _ => None,
        }
    }

    pub fn is_binary_logic(&self) -> (r: bool)
        ensures
            r == binary_logic(*self),
    {
        match self {
            TKind::EqualEqual
            | TKind::BangEqual
            | TKind::Less
            | TKind::LessEqual
            | TKind::Greater
            | TKind::GreaterEqual
            | TKind::And
            | TKind::Or => true,
            _ => false,
        }
    }
}

/// A token as specifications see it.
pub struct SpecToken {
    pub kind: TKind,
    pub lex: Seq<u8>,
    pub start: nat,
}

/// A token: its kind, its text and the offset of its first byte.
pub struct Token {
    pub kind: TKind,
    pub lex: SmolStr,
    pub start: usize,
}

impl View for Token {
    type V = SpecToken;

    open spec fn view(&self) -> SpecToken {
        SpecToken { kind: self.kind, lex: self.lex@, start: self.start as nat }
    }
}

impl Clone for Token {
    fn clone(&self) -> (r: Token)
        ensures
            r@ == self@,
    {
        Token { kind: self.kind, lex: self.lex.clone(), start: self.start }
    }
}

/// The views of the tokens of `tokens`, in order.
pub open spec fn token_views(tokens: Seq<Token>) -> Seq<SpecToken> {
    Seq::new(tokens.len(), |i: int| tokens[i]@)
}

/// Sets of bytes that the scanner takes in runs.
#[derive(Clone, Copy, PartialEq, Eq, Structural)]
pub enum ByteClass {
    /// `0` to `9`.
    Digit,
    /// Letters, digits and the underscore.
    Word,
    /// Everything but a line feed.
    InLine,
    /// Everything but a double quote.
    InString,
    /// The bytes `0x80` to `0xBF`, which continue a UTF-8 character.
    Continuation,
}

pub open spec fn is_blank(b: u8) -> bool {
    b == (' ' as u8) || b == 9 || b == 12 || b == 10
}

pub open spec fn is_digit(b: u8) -> bool {
    ('0' as u8) <= b <= ('9' as u8)
}

pub open spec fn is_word_start(b: u8) -> bool {
    (('a' as u8) <= b <= ('z' as u8)) || (('A' as u8) <= b <= ('Z' as u8)) || b == ('_' as u8)
}

pub open spec fn in_class(class: ByteClass, b: u8) -> bool {
    match class {
        ByteClass::Digit => is_digit(b),
        ByteClass::Word => is_word_start(b) || is_digit(b),
        ByteClass::InLine => b != 10,
        ByteClass::InString => b != ('"' as u8),
        ByteClass::Continuation => 0x80 <= b <= 0xBF,
    }
}

/// Length of the longest run of bytes of `class` that starts at `pos`.
pub open spec fn run(src: Seq<u8>, pos: int, class: ByteClass) -> int
    decreases src.len() - pos,
{
    if 0 <= pos < src.len() && in_class(class, src[pos]) {
        1 + run(src, pos + 1, class)
    } else {
        0
    }
}

/// Whether the bytes of `word` stand in `src` from `pos` on.
pub open spec fn has_at(src: Seq<u8>, pos: int, word: Seq<u8>) -> bool {
    0 <= pos && pos + word.len() <= src.len() && src.subrange(pos, pos + word.len()) == word
}

/// The offset just behind the first `*/` that starts at `pos` or later, or
/// `-1` where there is none.
pub open spec fn comment_close(src: Seq<u8>, pos: int) -> int
    decreases src.len() - pos,
{
    if pos < 0 || pos + 1 >= src.len() {
        -1
    } else if src[pos] == ('*' as u8) && src[pos + 1] == ('/' as u8) {
        pos + 2
    } else {
        comment_close(src, pos + 1)
    }
}

/// Length of the one piece of skipped text that starts at `pos`: a blank, a
/// line comment or a closed block comment; `0` where none starts there.
pub open spec fn trivia_piece(src: Seq<u8>, pos: int) -> int {
    if pos < 0 || pos >= src.len() {
        0
    } else if is_blank(src[pos]) {
        1
    } else if src[pos] == ('/' as u8) && pos + 1 < src.len() && src[pos + 1] == ('/' as u8) {
        2 + run(src, pos + 2, ByteClass::InLine)
    } else if src[pos] == ('/' as u8) && pos + 1 < src.len() && src[pos + 1] == ('*' as u8) && comment_close(
        src,
        pos + 2,
    ) >= 0 {
        comment_close(src, pos + 2) - pos
    } else {
        0
    }
}

/// Length of all the skipped text that starts at `pos`.
pub open spec fn trivia_len(src: Seq<u8>, pos: int) -> int
    decreases src.len() - pos,
{
    let n = trivia_piece(src, pos);
    if n <= 0 || pos + n > src.len() {
        0
    } else {
        n + trivia_len(src, pos + n)
    }
}

/// The kind of the word `lex`: that of a keyword, or `Identifier`.
pub open spec fn word_kind(lex: Seq<u8>) -> TKind {
    if lex == seq![('a' as u8), ('n' as u8), ('d' as u8)] {
        TKind::And
    } else if lex == seq![('b' as u8), ('r' as u8), ('e' as u8), ('a' as u8), ('k' as u8)] {
        TKind::Break
    } else if lex == seq![('c' as u8), ('l' as u8), ('a' as u8), ('s' as u8), ('s' as u8)] {
        TKind::Class
    } else if lex == seq![('e' as u8), ('l' as u8), ('s' as u8), ('e' as u8)] {
        TKind::Else
    } else if lex == seq![('e' as u8), ('n' as u8), ('u' as u8), ('m' as u8)] {
        TKind::Enum
    } else if lex == seq![('e' as u8), ('x' as u8), ('t' as u8), ('e' as u8), ('r' as u8), ('n' as u8)] {
        TKind::Extern
    } else if lex == seq![('f' as u8), ('a' as u8), ('l' as u8), ('s' as u8), ('e' as u8)] {
        TKind::False
    } else if lex == seq![('f' as u8), ('o' as u8), ('r' as u8)] {
        TKind::For
    } else if lex == seq![('f' as u8), ('u' as u8), ('n' as u8)] {
        TKind::Fun
    } else if lex == seq![('i' as u8), ('f' as u8)] {
        TKind::If
    } else if lex == seq![('i' as u8), ('m' as u8), ('p' as u8), ('o' as u8), ('r' as u8), ('t' as u8)] {
        TKind::Import
    } else if lex == seq![('i' as u8), ('n' as u8)] {
        TKind::In
    } else if lex == seq![('i' as u8), ('n' as u8), ('t' as u8), ('e' as u8), ('r' as u8), ('f' as u8), ('a' as u8), ('c' as u8), ('e' as u8)] {
        TKind::Interface
    } else if lex == seq![('i' as u8), ('s' as u8)] {
        TKind::Is
    } else if lex == seq![('n' as u8), ('u' as u8), ('l' as u8), ('l' as u8)] {
        TKind::Null
    } else if lex == seq![('o' as u8), ('r' as u8)] {
        TKind::Or
    } else if lex == seq![('r' as u8), ('e' as u8), ('t' as u8), ('u' as u8), ('r' as u8), ('n' as u8)] {
        TKind::Return
    } else if lex == seq![('s' as u8), ('t' as u8), ('a' as u8), ('t' as u8), ('i' as u8), ('c' as u8)] {
        TKind::Static
    } else if lex == seq![('t' as u8), ('r' as u8), ('u' as u8), ('e' as u8)] {
        TKind::True
    } else if lex == seq![('v' as u8), ('a' as u8), ('r' as u8)] {
        TKind::Var
    } else if lex == seq![('v' as u8), ('a' as u8), ('l' as u8)] {
        TKind::Val
    } else if lex == seq![('w' as u8), ('h' as u8), ('e' as u8), ('n' as u8)] {
        TKind::When
    } else if lex == seq![('w' as u8), ('h' as u8), ('i' as u8), ('l' as u8), ('e' as u8)] {
        TKind::While
    } else {
        TKind::Identifier
    }
}

/// Length of the width suffix of an integer literal that starts at `pos`
/// (`i` or `u`, then `size`, `8`, `16`, `32` or `64`); `0` where none does.
pub open spec fn int_suffix(src: Seq<u8>, pos: int) -> int {
    if 0 <= pos < src.len() && (src[pos] == ('i' as u8) || src[pos] == ('u' as u8)) {
        if has_at(src, pos + 1, seq![('s' as u8), ('i' as u8), ('z' as u8), ('e' as u8)]) {
            5
        } else if has_at(src, pos + 1, seq![('8' as u8)]) {
            2
        } else if has_at(src, pos + 1, seq![('1' as u8), ('6' as u8)]) || has_at(src, pos + 1, seq![('3' as u8), ('2' as u8)])
            || has_at(src, pos + 1, seq![('6' as u8), ('4' as u8)]) {
            3
        } else {
            0
        }
    } else {
        0
    }
}

/// Length of the width suffix of a float literal that starts at `pos`
/// (`f32` or `f64`); `0` where none does.
pub open spec fn float_suffix(src: Seq<u8>, pos: int) -> int {
    if has_at(src, pos, seq![('f' as u8), ('3' as u8), ('2' as u8)]) || has_at(src, pos, seq![('f' as u8), ('6' as u8), ('4' as u8)]) {
        3
    } else {
        0
    }
}

/// Kind and length of the number that starts at `pos`, where a digit stands.
pub open spec fn number_at(src: Seq<u8>, pos: int) -> (TKind, int) {
    let whole = run(src, pos, ByteClass::Digit);
    let dot = pos + whole;
    if dot + 1 < src.len() && src[dot] == ('.' as u8) && is_digit(src[dot + 1]) {
        let fraction = run(src, dot + 1, ByteClass::Digit);
        (TKind::Float, whole + 1 + fraction + float_suffix(src, dot + 1 + fraction))
    } else {
        (TKind::Int, whole + int_suffix(src, dot))
    }
}

/// Kind and length of the operator or bracket that starts at `pos`, or of the
/// `Error` token that stands for a byte that starts no token.
pub open spec fn symbol_at(src: Seq<u8>, pos: int) -> (TKind, int) {
    let b = src[pos];
    let next_is = |c: u8| pos + 1 < src.len() && src[pos + 1] == c;
    if b == ('(' as u8) {
        (TKind::LeftParen, 1)
    } else if b == (')' as u8) {
        (TKind::RightParen, 1)
    } else if b == ('[' as u8) {
        (TKind::LeftBracket, 1)
    } else if b == (']' as u8) {
        (TKind::RightBracket, 1)
    } else if b == ('{' as u8) {
        (TKind::LeftBrace, 1)
    } else if b == ('}' as u8) {
        (TKind::RightBrace, 1)
    } else if b == ('~' as u8) {
        (TKind::Tilde, 1)
    } else if b == (',' as u8) {
        (TKind::Comma, 1)
    } else if b == ('.' as u8) {
        (TKind::Dot, 1)
    } else if b == ('-' as u8) {
        if next_is(('>' as u8)) {
            (TKind::Arrow, 2)
        } else {
            (TKind::Minus, 1)
        }
    } else if b == ('+' as u8) {
        (TKind::Plus, 1)
    } else if b == (';' as u8) {
        (TKind::Semicolon, 1)
    } else if b == (':' as u8) {
        if next_is((':' as u8)) {
            (TKind::ColonColon, 2)
        } else {
            (TKind::Colon, 1)
        }
    } else if b == ('/' as u8) {
        if next_is(('*' as u8)) {
            (TKind::Error, src.len() - pos)
        } else {
            (TKind::Slash, 1)
        }
    } else if b == ('*' as u8) {
        (TKind::Star, 1)
    } else if b == ('?' as u8) {
        (TKind::QuestionMark, 1)
    } else if b == ('!' as u8) {
        if next_is(('=' as u8)) {
            (TKind::BangEqual, 2)
        } else {
            (TKind::Bang, 1)
        }
    } else if b == ('=' as u8) {
        if next_is(('=' as u8)) {
            (TKind::EqualEqual, 2)
        } else {
            (TKind::Equal, 1)
        }
    } else if b == ('>' as u8) {
        if next_is(('=' as u8)) {
            (TKind::GreaterEqual, 2)
        } else {
            (TKind::Greater, 1)
        }
    } else if b == ('<' as u8) {
        if next_is(('=' as u8)) {
            (TKind::LessEqual, 2)
        } else {
            (TKind::Less, 1)
        }
    } else {
        (TKind::Error, 1 + run(src, pos + 1, ByteClass::Continuation))
    }
}

/// Kind and length of the token that starts at `pos`, where no skipped text
/// starts and the source has not ended.
pub open spec fn token_at(src: Seq<u8>, pos: int) -> (TKind, int) {
    let b = src[pos];
    if is_word_start(b) {
        let n = 1 + run(src, pos + 1, ByteClass::Word);
        (word_kind(src.subrange(pos, pos + n)), n)
    } else if is_digit(b) {
        number_at(src, pos)
    } else if b == ('"' as u8) {
        let inner = run(src, pos + 1, ByteClass::InString);
        if pos + 1 + inner < src.len() {
            (TKind::String, inner + 2)
        } else {
            (TKind::Error, 1 + run(src, pos + 1, ByteClass::Continuation))
        }
    } else {
        symbol_at(src, pos)
    }
}

/// The token that ends every stream: `Error`, with a NUL for its text, placed
/// at the length of the source.
pub open spec fn end_token(src: Seq<u8>) -> SpecToken {
    SpecToken { kind: TKind::Error, lex: seq![0u8], start: src.len() }
}

/// Where the next token after `pos` starts; the length of the source where
/// only skipped text is left.
pub open spec fn next_start(src: Seq<u8>, pos: int) -> int {
    pos + trivia_len(src, pos)
}

/// The token that starts at `start`.
pub open spec fn token_from(src: Seq<u8>, start: int) -> SpecToken {
    let (kind, n) = token_at(src, start);
    SpecToken { kind, lex: src.subrange(start, start + n), start: start as nat }
}

/// The tokens of `src` from `pos` on, the closing `Error` token included.
pub open spec fn tokens_from(src: Seq<u8>, pos: int) -> Seq<SpecToken>
    decreases src.len() - pos,
{
    let start = next_start(src, pos);
    if pos < 0 || start >= src.len() || start < pos {
        seq![end_token(src)]
    } else {
        let end = start + token_at(src, start).1;
        if end <= start || end > src.len() {
            seq![end_token(src)]
        } else {
            seq![token_from(src, start)] + tokens_from(src, end)
        }
    }
}

/// The tokens of `src`.
pub open spec fn tokens_of(src: Seq<u8>) -> Seq<SpecToken> {
    tokens_from(src, 0)
}

/// A run never leaves the source.
pub proof fn lemma_run_bounds(src: Seq<u8>, pos: int, class: ByteClass)
    requires
        0 <= pos <= src.len(),
    ensures
        0 <= run(src, pos, class) <= src.len() - pos,
    decreases src.len() - pos,
{
    if pos < src.len() && in_class(class, src[pos]) {
        lemma_run_bounds(src, pos + 1, class);
    }
}

/// Where a block comment closes lies behind its opening and inside the
/// source.
pub proof fn lemma_close_bounds(src: Seq<u8>, pos: int)
    requires
        0 <= pos,
    ensures
        comment_close(src, pos) == -1 || pos + 2 <= comment_close(src, pos) <= src.len(),
    decreases src.len() - pos,
{
    if pos + 1 < src.len() && !(src[pos] == ('*' as u8) && src[pos + 1] == ('/' as u8)) {
        lemma_close_bounds(src, pos + 1);
    }
}

/// One piece of skipped text never leaves the source.
pub proof fn lemma_piece_bounds(src: Seq<u8>, pos: int)
    requires
        0 <= pos <= src.len(),
    ensures
        0 <= trivia_piece(src, pos) <= src.len() - pos,
{
    if pos + 1 < src.len() {
        lemma_run_bounds(src, pos + 2, ByteClass::InLine);
        lemma_close_bounds(src, pos + 2);
    }
}

/// Skipped text never leaves the source.
pub proof fn lemma_trivia_bounds(src: Seq<u8>, pos: int)
    requires
        0 <= pos <= src.len(),
    ensures
        0 <= trivia_len(src, pos) <= src.len() - pos,
    decreases src.len() - pos,
{
    lemma_piece_bounds(src, pos);
    let n = trivia_piece(src, pos);
    if n > 0 {
        lemma_trivia_bounds(src, pos + n);
    }
}

/// A token holds at least one byte and never leaves the source.
pub proof fn lemma_token_bounds(src: Seq<u8>, pos: int)
    requires
        0 <= pos < src.len(),
    ensures
        1 <= token_at(src, pos).1 <= src.len() - pos,
{
    let b = src[pos];
    lemma_run_bounds(src, pos + 1, ByteClass::Word);
    lemma_run_bounds(src, pos + 1, ByteClass::InString);
    lemma_run_bounds(src, pos + 1, ByteClass::Continuation);
    if is_digit(b) {
        let whole = run(src, pos, ByteClass::Digit);
        lemma_run_bounds(src, pos + 1, ByteClass::Digit);
        assert(whole == 1 + run(src, pos + 1, ByteClass::Digit));
        let dot = pos + whole;
        if dot + 1 < src.len() && src[dot] == ('.' as u8) && is_digit(src[dot + 1]) {
            lemma_run_bounds(src, dot + 1, ByteClass::Digit);
        }
    }
}

fn is_class(class: ByteClass, b: u8) -> (r: bool)
    ensures
        r == in_class(class, b),
{
    match class {
        ByteClass::Digit => '0' as u8 <= b && b <= '9' as u8,
        ByteClass::Word => ('a' as u8 <= b && b <= 'z' as u8) || ('A' as u8 <= b && b <= 'Z' as u8)
            || b == '_' as u8 || ('0' as u8 <= b && b <= '9' as u8),
        ByteClass::InLine => b != 10,
        ByteClass::InString => b != '"' as u8,
        ByteClass::Continuation => 0x80 <= b && b <= 0xBF,
    }
}

fn run_of(src: &[u8], pos: usize, class: ByteClass) -> (n: usize)
    requires
        src@.len() <= usize::MAX,
        pos <= src@.len(),
    ensures
        n == run(src@, pos as int, class),
        pos + n <= src@.len(),
{
    let mut i: usize = pos;
    while i < src.len() && is_class(class, src[i])
        invariant
            pos <= i <= src@.len() <= usize::MAX,
            run(src@, pos as int, class) == (i - pos) + run(src@, i as int, class),
        decreases src@.len() - i,
    {
        i += 1;
    }
    i - pos
}

fn byte_is(src: &[u8], pos: usize, b: u8) -> (r: bool)
    ensures
        r == (pos < src@.len() && src@[pos as int] == b),
{
    pos < src.len() && src[pos] == b
}

fn has(src: &[u8], pos: usize, word: &[u8]) -> (r: bool)
    requires
        src@.len() <= usize::MAX,
        pos <= src@.len(),
    ensures
        r == has_at(src@, pos as int, word@),
{
    let n = word.len();
    if n > src.len() - pos {
        return false;
    }
    let mut i: usize = 0;
    while i < n
        invariant
            i <= n,
            n == word@.len(),
            pos + n <= src@.len() <= usize::MAX,
            forall|j: int| 0 <= j < i ==> src@[pos + j] == word@[j],
        decreases n - i,
    {
        if src[pos + i] != word[i] {
            assert(src@.subrange(pos as int, pos + n)[i as int] != word@[i as int]);
            return false;
        }
        i += 1;
    }
    assert(src@.subrange(pos as int, pos + n) =~= word@);
    true
}

fn close_of(src: &[u8], pos: usize) -> (r: Option<usize>)
    requires
        src@.len() <= usize::MAX,
        pos <= src@.len(),
    ensures
        match r {
            Some(e) => comment_close(src@, pos as int) == e && pos + 2 <= e <= src@.len(),
            None => comment_close(src@, pos as int) == -1,
        },
{
    let mut i: usize = pos;
    while i < src.len() && src.len() - i >= 2
        invariant
            pos <= i <= src@.len() <= usize::MAX,
            comment_close(src@, pos as int) == comment_close(src@, i as int),
        decreases src@.len() - i,
    {
        if src[i] == '*' as u8 && src[i + 1] == '/' as u8 {
            return Some(i + 2);
        }
        i += 1;
    }
    None
}

fn piece_of(src: &[u8], pos: usize) -> (n: usize)
    requires
        src@.len() <= usize::MAX,
        pos <= src@.len(),
    ensures
        n == trivia_piece(src@, pos as int),
        pos + n <= src@.len(),
{
    proof {
        lemma_piece_bounds(src@, pos as int);
    }
    if pos >= src.len() {
        return 0;
    }
    let b = src[pos];
    if b == ' ' as u8 || b == 9 || b == 12 || b == 10 {
        1
    } else if b == '/' as u8 && byte_is(src, pos + 1, '/' as u8) {
        2 + run_of(src, pos + 2, ByteClass::InLine)
    } else if b == '/' as u8 && byte_is(src, pos + 1, '*' as u8) {
        match close_of(src, pos + 2) {
            Some(e) => e - pos,
            None => 0,
        }
    } else {
        0
    }
}

fn skip(src: &[u8], pos: usize) -> (r: usize)
    requires
        src@.len() <= usize::MAX,
        pos <= src@.len(),
    ensures
        r == next_start(src@, pos as int),
        pos <= r <= src@.len(),
{
    let mut cur: usize = pos;
    let mut n: usize = piece_of(src, cur);
    while n > 0
        invariant
            pos <= cur <= src@.len() <= usize::MAX,
            n == trivia_piece(src@, cur as int),
            cur + n <= src@.len(),
            cur + trivia_len(src@, cur as int) == pos + trivia_len(src@, pos as int),
        decreases src@.len() - cur,
    {
        cur += n;
        n = piece_of(src, cur);
    }
    cur
}

fn word_kind_of(src: &[u8], pos: usize, n: usize) -> (r: TKind)
    requires
        src@.len() <= usize::MAX,
        pos + n <= src@.len(),
    ensures
        r == word_kind(src@.subrange(pos as int, pos + n)),
{
    let ghost lex = src@.subrange(pos as int, pos + n);
    let w = |word: &[u8]| -> (r: bool)
        requires
            pos + n <= src@.len() <= usize::MAX,
        ensures
            r == (src@.subrange(pos as int, pos + n) == word@),
        { n == word.len() && has(src, pos, word) };
    if w(['a' as u8, 'n' as u8, 'd' as u8].as_slice()) {
        TKind::And
    } else if w(['b' as u8, 'r' as u8, 'e' as u8, 'a' as u8, 'k' as u8].as_slice()) {
        TKind::Break
    } else if w(['c' as u8, 'l' as u8, 'a' as u8, 's' as u8, 's' as u8].as_slice()) {
        TKind::Class
    } else if w(['e' as u8, 'l' as u8, 's' as u8, 'e' as u8].as_slice()) {
        TKind::Else
    } else if w(['e' as u8, 'n' as u8, 'u' as u8, 'm' as u8].as_slice()) {
        TKind::Enum
    } else if w(['e' as u8, 'x' as u8, 't' as u8, 'e' as u8, 'r' as u8, 'n' as u8].as_slice()) {
        TKind::Extern
    } else if w(['f' as u8, 'a' as u8, 'l' as u8, 's' as u8, 'e' as u8].as_slice()) {
        TKind::False
    } else if w(['f' as u8, 'o' as u8, 'r' as u8].as_slice()) {
        TKind::For
    } else if w(['f' as u8, 'u' as u8, 'n' as u8].as_slice()) {
        TKind::Fun
    } else if w(['i' as u8, 'f' as u8].as_slice()) {
        TKind::If
    } else if w(['i' as u8, 'm' as u8, 'p' as u8, 'o' as u8, 'r' as u8, 't' as u8].as_slice()) {
        TKind::Import
    } else if w(['i' as u8, 'n' as u8].as_slice()) {
        TKind::In
    } else if w(
        [
            'i' as u8,
            'n' as u8,
            't' as u8,
            'e' as u8,
            'r' as u8,
            'f' as u8,
            'a' as u8,
            'c' as u8,
            'e' as u8,
        ].as_slice(),
    ) {
        TKind::Interface
    } else if w(['i' as u8, 's' as u8].as_slice()) {
        TKind::Is
    } else if w(['n' as u8, 'u' as u8, 'l' as u8, 'l' as u8].as_slice()) {
        TKind::Null
    } else if w(['o' as u8, 'r' as u8].as_slice()) {
        TKind::Or
    } else if w(['r' as u8, 'e' as u8, 't' as u8, 'u' as u8, 'r' as u8, 'n' as u8].as_slice()) {
        TKind::Return
    } else if w(['s' as u8, 't' as u8, 'a' as u8, 't' as u8, 'i' as u8, 'c' as u8].as_slice()) {
        TKind::Static
    } else if w(['t' as u8, 'r' as u8, 'u' as u8, 'e' as u8].as_slice()) {
        TKind::True
    } else if w(['v' as u8, 'a' as u8, 'r' as u8].as_slice()) {
        TKind::Var
    } else if w(['v' as u8, 'a' as u8, 'l' as u8].as_slice()) {
        TKind::Val
    } else if w(['w' as u8, 'h' as u8, 'e' as u8, 'n' as u8].as_slice()) {
        TKind::When
    } else if w(['w' as u8, 'h' as u8, 'i' as u8, 'l' as u8, 'e' as u8].as_slice()) {
        TKind::While
    } else {
        TKind::Identifier
    }
}

fn int_suffix_of(src: &[u8], pos: usize) -> (n: usize)
    requires
        src@.len() <= usize::MAX,
        pos <= src@.len(),
    ensures
        n == int_suffix(src@, pos as int),
        pos + n <= src@.len(),
{
    let size = ['s' as u8, 'i' as u8, 'z' as u8, 'e' as u8];
    let w8 = ['8' as u8];
    let w16 = ['1' as u8, '6' as u8];
    let w32 = ['3' as u8, '2' as u8];
    let w64 = ['6' as u8, '4' as u8];
    proof {
        assert(size@ =~= seq![('s' as u8), ('i' as u8), ('z' as u8), ('e' as u8)]);
        assert(w8@ =~= seq![('8' as u8)]);
        assert(w16@ =~= seq![('1' as u8), ('6' as u8)]);
        assert(w32@ =~= seq![('3' as u8), ('2' as u8)]);
        assert(w64@ =~= seq![('6' as u8), ('4' as u8)]);
    }
    if byte_is(src, pos, 'i' as u8) || byte_is(src, pos, 'u' as u8) {
        if has(src, pos + 1, size.as_slice()) {
            5
        } else if has(src, pos + 1, w8.as_slice()) {
            2
        } else if has(src, pos + 1, w16.as_slice()) || has(src, pos + 1, w32.as_slice()) || has(
            src,
            pos + 1,
            w64.as_slice(),
        ) {
            3
        } else {
            0
        }
    } else {
        0
    }
}

fn float_suffix_of(src: &[u8], pos: usize) -> (n: usize)
    requires
        src@.len() <= usize::MAX,
        pos <= src@.len(),
    ensures
        n == float_suffix(src@, pos as int),
        pos + n <= src@.len(),
{
    let w32 = ['f' as u8, '3' as u8, '2' as u8];
    let w64 = ['f' as u8, '6' as u8, '4' as u8];
    proof {
        assert(w32@ =~= seq![('f' as u8), ('3' as u8), ('2' as u8)]);
        assert(w64@ =~= seq![('f' as u8), ('6' as u8), ('4' as u8)]);
    }
    if has(src, pos, w32.as_slice()) || has(src, pos, w64.as_slice()) {
        3
    } else {
        0
    }
}

fn number_of(src: &[u8], pos: usize) -> (r: (TKind, usize))
    requires
        src@.len() <= usize::MAX,
        pos < src@.len(),
        is_digit(src@[pos as int]),
    ensures
        r.0 == number_at(src@, pos as int).0,
        r.1 == number_at(src@, pos as int).1,
        pos + r.1 <= src@.len(),
{
    let whole = run_of(src, pos, ByteClass::Digit);
    let dot = pos + whole;
    if byte_is(src, dot, '.' as u8) && dot + 1 < src.len() && is_class(
        ByteClass::Digit,
        src[dot + 1],
    ) {
        let fraction = run_of(src, dot + 1, ByteClass::Digit);
        let suffix = float_suffix_of(src, dot + 1 + fraction);
        (TKind::Float, whole + 1 + fraction + suffix)
    } else {
        let suffix = int_suffix_of(src, dot);
        (TKind::Int, whole + suffix)
    }
}

fn symbol_of(src: &[u8], pos: usize) -> (r: (TKind, usize))
    requires
        src@.len() <= usize::MAX,
        pos < src@.len(),
    ensures
        r.0 == symbol_at(src@, pos as int).0,
        r.1 == symbol_at(src@, pos as int).1,
{
    let b = src[pos];
    if b == '(' as u8 {
        (TKind::LeftParen, 1)
    } else if b == ')' as u8 {
        (TKind::RightParen, 1)
    } else if b == '[' as u8 {
        (TKind::LeftBracket, 1)
    } else if b == ']' as u8 {
        (TKind::RightBracket, 1)
    } else if b == '{' as u8 {
        (TKind::LeftBrace, 1)
    } else if b == '}' as u8 {
        (TKind::RightBrace, 1)
    } else if b == '~' as u8 {
        (TKind::Tilde, 1)
    } else if b == ',' as u8 {
        (TKind::Comma, 1)
    } else if b == '.' as u8 {
        (TKind::Dot, 1)
    } else if b == '-' as u8 {
        if byte_is(src, pos + 1, '>' as u8) {
            (TKind::Arrow, 2)
        } else {
            (TKind::Minus, 1)
        }
    } else if b == '+' as u8 {
        (TKind::Plus, 1)
    } else if b == ';' as u8 {
        (TKind::Semicolon, 1)
    } else if b == ':' as u8 {
        if byte_is(src, pos + 1, ':' as u8) {
            (TKind::ColonColon, 2)
        } else {
            (TKind::Colon, 1)
        }
    } else if b == '/' as u8 {
        if byte_is(src, pos + 1, '*' as u8) {
            (TKind::Error, src.len() - pos)
        } else {
            (TKind::Slash, 1)
        }
    } else if b == '*' as u8 {
        (TKind::Star, 1)
    } else if b == '?' as u8 {
        (TKind::QuestionMark, 1)
    } else if b == '!' as u8 {
        if byte_is(src, pos + 1, '=' as u8) {
            (TKind::BangEqual, 2)
        } else {
            (TKind::Bang, 1)
        }
    } else if b == '=' as u8 {
        if byte_is(src, pos + 1, '=' as u8) {
            (TKind::EqualEqual, 2)
        } else {
            (TKind::Equal, 1)
        }
    } else if b == '>' as u8 {
        if byte_is(src, pos + 1, '=' as u8) {
            (TKind::GreaterEqual, 2)
        } else {
            (TKind::Greater, 1)
        }
    } else if b == '<' as u8 {
        if byte_is(src, pos + 1, '=' as u8) {
            (TKind::LessEqual, 2)
        } else {
            (TKind::Less, 1)
        }
    } else {
        (TKind::Error, 1 + run_of(src, pos + 1, ByteClass::Continuation))
    }
}

fn scan(src: &[u8], pos: usize) -> (r: (TKind, usize))
    requires
        src@.len() <= usize::MAX,
        pos < src@.len(),
    ensures
        r.0 == token_at(src@, pos as int).0,
        r.1 == token_at(src@, pos as int).1,
        1 <= r.1,
        pos + r.1 <= src@.len(),
{
    proof {
        lemma_token_bounds(src@, pos as int);
    }
    let b = src[pos];
    if ('a' as u8 <= b && b <= 'z' as u8) || ('A' as u8 <= b && b <= 'Z' as u8) || b == '_' as u8 {
        let n = 1 + run_of(src, pos + 1, ByteClass::Word);
        (word_kind_of(src, pos, n), n)
    } else if '0' as u8 <= b && b <= '9' as u8 {
        number_of(src, pos)
    } else if b == '"' as u8 {
        let inner = run_of(src, pos + 1, ByteClass::InString);
        if inner < src.len() - pos - 1 {
            (TKind::String, inner + 2)
        } else {
            (TKind::Error, 1 + run_of(src, pos + 1, ByteClass::Continuation))
        }
    } else {
        symbol_of(src, pos)
    }
}

/// A scanner over one source text.
pub struct Lexer<'l> {
    src: &'l [u8],
    pos: usize,
}

impl<'l> Lexer<'l> {
    #[verifier::type_invariant]
    spec fn inv(self) -> bool {
        self.pos <= self.src@.len() <= usize::MAX
    }

    /// The bytes of the source.
    pub closed spec fn source(&self) -> Seq<u8> {
        self.src@
    }

    /// The offset behind the last token handed out.
    pub closed spec fn offset(&self) -> int {
        self.pos as int
    }

    /// A scanner at the start of `input`.
    pub fn new(input: &'l str) -> (r: Lexer<'l>)
        ensures
            r.source() == input.spec_bytes(),
            r.offset() == 0,
    {
        let src = input.as_bytes();
        let _ = src.len();
        Lexer { src, pos: 0 }
    }

    /// The next token, or `None` where only skipped text is left.
    pub fn next(&mut self) -> (r: Option<Token>)
        ensures
            final(self).source() == old(self).source(),
            0 <= old(self).offset() <= final(self).offset() <= old(self).source().len(),
            ({
                let src = old(self).source();
                let start = next_start(src, old(self).offset());
                if start >= src.len() {
                    r is None && final(self).offset() == src.len()
                } else {
                    &&& r is Some
                    &&& r->0@ == token_from(src, start)
                    &&& final(self).offset() == start + token_at(src, start).1
                    &&& final(self).offset() > start
                }
            }),
    {
        proof {
            use_type_invariant(&*self);
        }
        let start = skip(self.src, self.pos);
        if start >= self.src.len() {
            self.pos = start;
            return None;
        }
        let (kind, n) = scan(self.src, start);
        let lex = SmolStr::from_bytes(slice_subrange(self.src, start, start + n));
        self.pos = start + n;
        Some(Token { kind, lex, start })
    }
}

/// The tokens of `input`, the closing `Error` token included.
pub fn tokenize(input: &str) -> (r: Vec<Token>)
    ensures
        token_views(r@) == tokens_of(input.spec_bytes()),
        r@.len() >= 1,
{
    let mut lexer = Lexer::new(input);
    let ghost src = input.spec_bytes();
    let mut out: Vec<Token> = Vec::new();
    loop
        invariant
            src == input.spec_bytes(),
            lexer.source() == src,
            0 <= lexer.offset() <= src.len(),
            token_views(out@) + tokens_from(src, lexer.offset()) == tokens_of(src),
        decreases src.len() - lexer.offset(),
    {
        let ghost before = lexer.offset();
        let ghost views = token_views(out@);
        proof {
            lemma_trivia_bounds(src, before);
            if next_start(src, before) < src.len() {
                lemma_token_bounds(src, next_start(src, before));
            }
        }
        match lexer.next() {
            None => {
                let nul = [0u8];
                let lex = SmolStr::from_bytes(nul.as_slice());
                proof {
                    assert(lex@ =~= seq![0u8]);
                }
                out.push(Token { kind: TKind::Error, lex, start: input.as_bytes().len() });
                proof {
                    assert(out@.last()@ == end_token(src));
                    assert(token_views(out@) =~= views + seq![end_token(src)]);
                }
                return out;
            },
            Some(token) => {
                out.push(token);
                proof {
                    assert(token_views(out@) =~= views + seq![token@]);
                    assert(views + (seq![token@] + tokens_from(src, lexer.offset())) =~= (views
                        + seq![token@]) + tokens_from(src, lexer.offset()));
                }
            },
        }
    }
}

/// Every token stream ends with the `Error` token that stands at the length
/// of the source.
pub proof fn lemma_stream_ends_with_error(src: Seq<u8>, pos: int)
    ensures
        tokens_from(src, pos).len() >= 1,
        tokens_from(src, pos).last() == end_token(src),
    decreases src.len() - pos,
{
    let start = next_start(src, pos);
    if !(pos < 0 || start >= src.len() || start < pos) {
        let end = start + token_at(src, start).1;
        if !(end <= start || end > src.len()) {
            lemma_stream_ends_with_error(src, end);
        }
    }
}

/// Whether `tokens` and the text skipped between them make up the source
/// from `pos` on: skipped text, then the bytes of the first token, then
/// skipped text again and so on, until the closing `Error` token is all that
/// is left and stands at the end of the source.
pub open spec fn tiles(src: Seq<u8>, pos: int, tokens: Seq<SpecToken>) -> bool
    decreases tokens.len(),
{
    if tokens.len() == 0 {
        false
    } else if tokens.len() == 1 {
        tokens[0] == end_token(src) && next_start(src, pos) == src.len()
    } else {
        let t = tokens[0];
        &&& t.start == next_start(src, pos)
        &&& t.lex.len() >= 1
        &&& t.start + t.lex.len() <= src.len()
        &&& t.lex == src.subrange(t.start as int, (t.start + t.lex.len()) as int)
        &&& tiles(src, (t.start + t.lex.len()) as int, tokens.subrange(1, tokens.len() as int))
    }
}

/// The texts of the tokens of a source, with the text skipped between them,
/// make up the source: nothing is lost and nothing is read twice.
pub proof fn lemma_tokens_tile_source(src: Seq<u8>, pos: int)
    requires
        0 <= pos <= src.len(),
    ensures
        tiles(src, pos, tokens_from(src, pos)),
    decreases src.len() - pos,
{
    lemma_trivia_bounds(src, pos);
    let start = next_start(src, pos);
    if start < src.len() {
        lemma_token_bounds(src, start);
        let end = start + token_at(src, start).1;
        lemma_tokens_tile_source(src, end);
        lemma_stream_ends_with_error(src, end);
        let rest = tokens_from(src, end);
        let all = tokens_from(src, pos);
        assert(all == seq![token_from(src, start)] + rest);
        assert(all.subrange(1, all.len() as int) =~= rest);
    }
}

} // verus!
