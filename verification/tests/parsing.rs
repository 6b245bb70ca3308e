use cyn::to_tokens::{braced, bracketed, multiple, parenthesized, to_tokens, ToTokens};
use cyn::tokens::{is_keyword, keyword_text};
use cyn::{
    Cursor, Delimeter, Keyword, Literal, Parse, ParseBuffer, Punct, Token, TokenCell, TokenStream,
    TokenTree,
};

#[test]
fn emit_parse_keyword_round_trip() {
    let ts = to_tokens(&Keyword::Int);
    let back: Keyword = ts.parse_as().unwrap();
    assert_eq!(back, Keyword::Int);
}

#[test]
fn emit_parse_punct_round_trip() {
    let ts = to_tokens(&Punct::Arrow);
    let back: Punct = ts.parse_as().unwrap();
    assert_eq!(back, Punct::Arrow);
}

#[test]
fn every_keyword_survives_emission() {
    let keywords = [
        Keyword::Auto,
        Keyword::While,
        Keyword::Sizeof,
        Keyword::_Alignas,
        Keyword::_Thread_local,
        Keyword::Return,
    ];
    for k in keywords {
        let ts = to_tokens(&k);
        let back: Keyword = ts.parse_as().unwrap();
        assert_eq!(back, k);
    }
}

#[test]
fn keyword_emission_is_its_display_text() {
    let ts = to_tokens(&Keyword::Struct);
    assert_eq!(ts.render(), "struct");
    assert_eq!(keyword_text(Keyword::Struct), "struct");
}

#[test]
fn failed_alternative_leaves_cursor_unchanged() {
    let ts = TokenStream::from_str("42").unwrap();
    let mut buf = ParseBuffer::new(&ts);
    let before = buf.cursor();
    let attempt = buf.parse_keyword();
    assert!(attempt.is_err());
    assert_eq!(buf.cursor(), before);
    let lit = buf.parse_literal().unwrap();
    assert!(matches!(lit, Literal::Int(42)));
}

#[test]
fn step_commits_only_on_success() {
    let ts = TokenStream::from_str("x y").unwrap();
    let mut buf = ParseBuffer::new(&ts);
    let failed: Result<(), _> = buf.step(|stream, cursor| {
        let (_, after) = stream.ident(cursor).unwrap();
        let _ = after;
        Err(cyn::Error::new(String::from("abandoned"), None, 0, 0))
    });
    assert!(failed.is_err());
    assert_eq!(buf.cursor(), Cursor { idx: 0 });
    let committed: Result<String, _> = buf.step(|stream, cursor| match stream.ident(cursor) {
        Some((name, after)) => Ok((name.clone(), after)),
        None => Err(cyn::Error::new(String::from("expected identifier"), None, 0, 0)),
    });
    assert_eq!(committed.unwrap(), "x");
    assert_eq!(buf.cursor(), Cursor { idx: 1 });
}

#[test]
fn expect_reports_expected_and_actual() {
    let ts = TokenStream::from_str("42").unwrap();
    let mut buf = ParseBuffer::new(&ts);
    let err = buf.expect(&Keyword::Int).unwrap_err();
    assert_eq!(err.msg, "expected token 'int', got '42'");
    assert_eq!(err.pos.row, 1);
    assert_eq!(err.pos.col, 1);
    assert_eq!(buf.cursor(), Cursor { idx: 0 });
}

#[test]
fn expect_at_end_of_buffer() {
    let ts = TokenStream::from_str("").unwrap();
    let mut buf = ParseBuffer::new(&ts);
    let err = buf.expect(&Punct::Comma).unwrap_err();
    assert_eq!(err.msg, "expected token ',', got 'end of buffer'");
}

#[test]
fn expect_consumes_on_match() {
    let ts = TokenStream::from_str("int x").unwrap();
    let mut buf = ParseBuffer::new(&ts);
    buf.expect(&Keyword::Int).unwrap();
    assert_eq!(buf.cursor(), Cursor { idx: 1 });
}

#[test]
fn parse_inner_yields_nested_stream() {
    let ts = TokenStream::from_str("( 1 + 2 )").unwrap();
    let mut buf = ParseBuffer::new(&ts);
    let inner = Delimeter::Paren.parse_inner(&mut buf).unwrap();
    assert_eq!(inner.entries.len(), 3);
    assert_eq!(buf.cursor(), Cursor { idx: 1 });
}

#[test]
fn parse_inner_mismatch_is_atomic() {
    let ts = TokenStream::from_str("( 1 )").unwrap();
    let mut buf = ParseBuffer::new(&ts);
    let attempt = Delimeter::Brace.parse_inner(&mut buf);
    assert!(attempt.is_err());
    assert_eq!(buf.cursor(), Cursor { idx: 0 });
    assert!(Delimeter::Paren.parse_inner(&mut buf).is_ok());
}

#[test]
fn peek_does_not_consume() {
    let ts = TokenStream::from_str("while ( x )").unwrap();
    let buf = ParseBuffer::new(&ts);
    assert!(Keyword::While.peek(&ts, buf.cursor()));
    assert!(!Keyword::If.peek(&ts, buf.cursor()));
    assert!(Delimeter::Paren.peek(&ts, Cursor { idx: 1 }));
    assert_eq!(buf.cursor(), Cursor { idx: 0 });
}

#[test]
fn delimiter_helpers_wrap_emission() {
    let ts = to_tokens(&parenthesized(&Keyword::Int));
    assert_eq!(ts.render(), "( int )");
    let ts = to_tokens(&bracketed(&Punct::Comma));
    assert_eq!(ts.render(), "[ , ]");
    let ts = to_tokens(&braced(&Keyword::Return));
    assert_eq!(ts.render(), "{ return }");
}

#[test]
fn emitted_groups_have_no_position() {
    let d = parenthesized(&Keyword::Int);
    let ts = to_tokens(&d);
    assert!(ts.entries[0].pos().is_none());
}

#[test]
fn option_emission_vanishes_when_absent() {
    let absent: Option<Keyword> = None;
    let ts = to_tokens(&absent);
    assert_eq!(ts.entries.len(), 0);
    let present = Some(Keyword::Void);
    let ts = to_tokens(&present);
    assert_eq!(ts.render(), "void");
}

#[test]
fn multiple_sequences_emissions() {
    let m = multiple(|mut ts: TokenStream| {
        Keyword::Int.to_tokens(&mut ts);
        Punct::Asterix.to_tokens(&mut ts);
        ts
    });
    let ts = to_tokens(&m);
    assert_eq!(ts.render(), "int *");
}

#[test]
fn render_negative_and_extreme_integers() {
    let mut ts = TokenStream::new_empty();
    ts.extend_one(TokenTree::Literal(Literal::Int(-45)));
    assert_eq!(ts.render(), "-45");
    let mut ts = TokenStream::new_empty();
    ts.extend_one(TokenTree::Literal(Literal::Int(i128::MIN)));
    assert_eq!(ts.render(), "-170141183460469231731687303715884105728");
    let mut ts = TokenStream::new_empty();
    ts.extend_one(TokenTree::Literal(Literal::Int(0)));
    assert_eq!(ts.render(), "0");
}

#[test]
fn cells_carry_their_creation_position() {
    let with_pos = TokenCell::new_with_pos(TokenTree::Punct(Punct::Dot), 7, 3);
    let p = with_pos.pos().unwrap();
    assert_eq!((p.col, p.row), (7, 3));
    let without = TokenCell::new(TokenTree::Punct(Punct::Dot));
    assert!(without.pos().is_none());
}

#[test]
fn extend_appends_copies() {
    let a = TokenStream::from_str("1 2").unwrap();
    let mut b = TokenStream::from_str("0").unwrap();
    b.extend(&a);
    assert_eq!(b.render(), "0 1 2");
    assert_eq!(a.render(), "1 2");
}

#[test]
fn literal_parse_trait_dispatch() {
    let ts = TokenStream::from_str("\"s\"").unwrap();
    let lit = Literal::parse(&mut ParseBuffer::new(&ts)).unwrap();
    assert!(matches!(lit, Literal::Str(s) if s == "s"));
}

#[test]
fn keyword_table_quirks_are_faithful() {
    assert!(is_keyword("Continue"));
    assert!(!is_keyword("continue"));
    assert!(is_keyword("volatile"));
    assert!(!is_keyword("Volatile"));
}
