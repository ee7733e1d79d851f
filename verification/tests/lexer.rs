use yacari::lexer::tokenize;
use yacari::lexer::Lexer;
use yacari::lexer::TKind;

fn kinds(src: &str) -> Vec<TKind> {
    tokenize(src).iter().map(|t| t.kind).collect()
}

fn lexemes(src: &str) -> Vec<(TKind, String, usize)> {
    tokenize(src).iter().map(|t| (t.kind, t.lex.as_str(), t.start)).collect()
}

#[test]
fn a_function_is_cut_into_its_tokens() {
    assert_eq!(
        lexemes("fun main() -> i64 { 5 + 37 }"),
        vec![
            (TKind::Fun, "fun".to_string(), 0),
            (TKind::Identifier, "main".to_string(), 4),
            (TKind::LeftParen, "(".to_string(), 8),
            (TKind::RightParen, ")".to_string(), 9),
            (TKind::Arrow, "->".to_string(), 11),
            (TKind::Identifier, "i64".to_string(), 14),
            (TKind::LeftBrace, "{".to_string(), 18),
            (TKind::Int, "5".to_string(), 20),
            (TKind::Plus, "+".to_string(), 22),
            (TKind::Int, "37".to_string(), 24),
            (TKind::RightBrace, "}".to_string(), 27),
            (TKind::Error, "\0".to_string(), 28),
        ]
    );
}

#[test]
fn every_stream_ends_with_error_at_the_length_of_the_source() {
    for src in ["", " ", "a", "a ", "// only a comment", "/* closed */", "1 +", "/* open", "\"open", "#"] {
        let tokens = tokenize(src);
        let last = tokens.last().unwrap();
        assert_eq!(last.kind, TKind::Error);
        assert_eq!(last.start, src.len());
        assert_eq!(last.lex.as_str(), "\0");
    }
    assert_eq!(tokenize("").len(), 1);
}

#[test]
fn lexemes_and_skipped_text_make_up_the_source() {
    let src = "fun f(a: i64) -> bool { // c\n  a >= 10 /* x */ and !(a == 3.5) }\n";
    let tokens = tokenize(src);
    let mut at = 0;
    for t in &tokens[..tokens.len() - 1] {
        assert!(t.start >= at);
        let skipped = &src[at..t.start];
        assert!(skipped.chars().all(|c| " \n\t/*cx".contains(c)), "{:?}", skipped);
        assert_eq!(&src[t.start..t.start + t.lex.len()], t.lex.as_str());
        at = t.start + t.lex.len();
    }
    assert_eq!(src[at..].trim(), "");
}

#[test]
fn blanks_and_comments_are_skipped() {
    assert_eq!(
        lexemes("// c\n1 /* x */ 2"),
        vec![
            (TKind::Int, "1".to_string(), 5),
            (TKind::Int, "2".to_string(), 15),
            (TKind::Error, "\0".to_string(), 16),
        ]
    );
    assert_eq!(kinds(" \t\u{c}\n"), vec![TKind::Error]);
    assert_eq!(kinds("/* a /* b */ c"), vec![TKind::Identifier, TKind::Error]);
    assert_eq!(kinds("/***/1"), vec![TKind::Int, TKind::Error]);
    assert_eq!(kinds("1 / 2"), vec![TKind::Int, TKind::Slash, TKind::Int, TKind::Error]);
}

#[test]
fn the_longest_match_wins() {
    assert_eq!(
        kinds("= == ! != < <= > >= - -> : ::"),
        vec![
            TKind::Equal,
            TKind::EqualEqual,
            TKind::Bang,
            TKind::BangEqual,
            TKind::Less,
            TKind::LessEqual,
            TKind::Greater,
            TKind::GreaterEqual,
            TKind::Minus,
            TKind::Arrow,
            TKind::Colon,
            TKind::ColonColon,
            TKind::Error,
        ]
    );
    assert_eq!(kinds("==="), vec![TKind::EqualEqual, TKind::Equal, TKind::Error]);
    assert_eq!(
        kinds("( ) [ ] { } ~ , . + ; * ?"),
        vec![
            TKind::LeftParen,
            TKind::RightParen,
            TKind::LeftBracket,
            TKind::RightBracket,
            TKind::LeftBrace,
            TKind::RightBrace,
            TKind::Tilde,
            TKind::Comma,
            TKind::Dot,
            TKind::Plus,
            TKind::Semicolon,
            TKind::Star,
            TKind::QuestionMark,
            TKind::Error,
        ]
    );
}

#[test]
fn keywords_are_no_identifiers() {
    assert_eq!(
        kinds("and break class else enum extern false for fun if import in interface is null or return static true var val when while"),
        vec![
            TKind::And,
            TKind::Break,
            TKind::Class,
            TKind::Else,
            TKind::Enum,
            TKind::Extern,
            TKind::False,
            TKind::For,
            TKind::Fun,
            TKind::If,
            TKind::Import,
            TKind::In,
            TKind::Interface,
            TKind::Is,
            TKind::Null,
            TKind::Or,
            TKind::Return,
            TKind::Static,
            TKind::True,
            TKind::Var,
            TKind::Val,
            TKind::When,
            TKind::While,
            TKind::Error,
        ]
    );
    assert_eq!(
        kinds("funny iff _x x1 While"),
        vec![
            TKind::Identifier,
            TKind::Identifier,
            TKind::Identifier,
            TKind::Identifier,
            TKind::Identifier,
            TKind::Error,
        ]
    );
}

#[test]
fn numbers_take_their_suffix() {
    assert_eq!(
        lexemes("1.5f64 7i32 3. 12usize 9i7 2.5f16"),
        vec![
            (TKind::Float, "1.5f64".to_string(), 0),
            (TKind::Int, "7i32".to_string(), 7),
            (TKind::Int, "3".to_string(), 12),
            (TKind::Dot, ".".to_string(), 13),
            (TKind::Int, "12usize".to_string(), 15),
            (TKind::Int, "9".to_string(), 23),
            (TKind::Identifier, "i7".to_string(), 24),
            (TKind::Float, "2.5".to_string(), 27),
            (TKind::Identifier, "f16".to_string(), 30),
            (TKind::Error, "\0".to_string(), 33),
        ]
    );
    assert_eq!(
        lexemes("35.42 0 8u8 16i16 64u64"),
        vec![
            (TKind::Float, "35.42".to_string(), 0),
            (TKind::Int, "0".to_string(), 6),
            (TKind::Int, "8u8".to_string(), 8),
            (TKind::Int, "16i16".to_string(), 12),
            (TKind::Int, "64u64".to_string(), 18),
            (TKind::Error, "\0".to_string(), 23),
        ]
    );
}

#[test]
fn text_runs_to_its_closing_quote() {
    assert_eq!(
        lexemes("\"abc\" \"\" \"a b\nc\""),
        vec![
            (TKind::String, "\"abc\"".to_string(), 0),
            (TKind::String, "\"\"".to_string(), 6),
            (TKind::String, "\"a b\nc\"".to_string(), 9),
            (TKind::Error, "\0".to_string(), 16),
        ]
    );
}

#[test]
fn what_starts_no_token_is_an_error() {
    assert_eq!(
        lexemes("\"abc"),
        vec![
            (TKind::Error, "\"".to_string(), 0),
            (TKind::Identifier, "abc".to_string(), 1),
            (TKind::Error, "\0".to_string(), 4),
        ]
    );
    assert_eq!(
        lexemes("1 /* never"),
        vec![
            (TKind::Int, "1".to_string(), 0),
            (TKind::Error, "/* never".to_string(), 2),
            (TKind::Error, "\0".to_string(), 10),
        ]
    );
    assert_eq!(
        lexemes("a # b"),
        vec![
            (TKind::Identifier, "a".to_string(), 0),
            (TKind::Error, "#".to_string(), 2),
            (TKind::Identifier, "b".to_string(), 4),
            (TKind::Error, "\0".to_string(), 5),
        ]
    );
    assert_eq!(
        lexemes("é1"),
        vec![
            (TKind::Error, "é".to_string(), 0),
            (TKind::Int, "1".to_string(), 2),
            (TKind::Error, "\0".to_string(), 3),
        ]
    );
    assert_eq!(kinds("a\rb"), vec![TKind::Identifier, TKind::Error, TKind::Identifier, TKind::Error]);
}

#[test]
fn the_scanner_hands_out_tokens_one_by_one() {
    let mut lexer = Lexer::new("  a + 1 // done");
    let a = lexer.next().unwrap();
    assert_eq!((a.kind, a.start), (TKind::Identifier, 2));
    let plus = lexer.next().unwrap();
    assert_eq!((plus.kind, plus.start), (TKind::Plus, 4));
    let one = lexer.next().unwrap();
    assert_eq!((one.kind, one.start), (TKind::Int, 6));
    assert!(lexer.next().is_none());
    assert!(lexer.next().is_none());
    let copy = one.clone();
    assert_eq!(copy.lex.as_str(), "1");
}

#[test]
fn binding_powers() {
    assert_eq!(TKind::Equal.infix_binding_power(), Some((6, 5)));
    assert_eq!(TKind::Or.infix_binding_power(), Some((10, 9)));
    assert_eq!(TKind::And.infix_binding_power(), Some((12, 11)));
    assert_eq!(TKind::BangEqual.infix_binding_power(), Some((14, 13)));
    assert_eq!(TKind::EqualEqual.infix_binding_power(), Some((14, 13)));
    for k in [TKind::Less, TKind::LessEqual, TKind::Greater, TKind::GreaterEqual, TKind::Plus, TKind::Minus] {
        assert_eq!(k.infix_binding_power(), Some((16, 15)));
    }
    assert_eq!(TKind::Star.infix_binding_power(), Some((18, 17)));
    assert_eq!(TKind::Slash.infix_binding_power(), Some((18, 17)));
    assert_eq!(TKind::Is.infix_binding_power(), Some((20, 19)));
    assert_eq!(TKind::Bang.infix_binding_power(), None);
    assert_eq!(TKind::Identifier.infix_binding_power(), None);
    assert_eq!(TKind::Minus.prefix_binding_power(), Some(30));
    assert_eq!(TKind::Bang.prefix_binding_power(), Some(30));
    assert_eq!(TKind::Plus.prefix_binding_power(), None);
}

#[test]
fn comparisons_and_connectives_are_logic() {
    for k in [
        TKind::EqualEqual,
        TKind::BangEqual,
        TKind::Less,
        TKind::LessEqual,
        TKind::Greater,
        TKind::GreaterEqual,
        TKind::And,
        TKind::Or,
    ] {
        assert!(k.is_binary_logic());
    }
    for k in [TKind::Plus, TKind::Minus, TKind::Star, TKind::Slash, TKind::Equal, TKind::Is, TKind::Bang] {
        assert!(!k.is_binary_logic());
    }
}
