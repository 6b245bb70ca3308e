use cyn::tokens::{match_punct, is_keyword, PunctMatch};
use cyn::{Delimeter, Literal, Punct, TokenStream, TokenTree};

fn single_punct(source: &str) -> Punct {
    let ts = TokenStream::from_str(source).unwrap();
    assert_eq!(ts.entries.len(), 1);
    match &ts.entries[0].tt {
        TokenTree::Punct(p) => *p,
        other => panic!("expected a punctuator, got {:?}", other),
    }
}

#[test]
fn maximal_munch_three_char() {
    assert_eq!(single_punct("<<="), Punct::DoubleLeftArrowEqual);
}

#[test]
fn maximal_munch_four_char() {
    assert_eq!(single_punct("%:%:"), Punct::DoublePercentColon);
}

#[test]
fn maximal_munch_two_char() {
    assert_eq!(single_punct("<="), Punct::LeftEqualArrow);
    assert_eq!(single_punct(">>"), Punct::DoubleRightArrow);
}

#[test]
fn maximal_munch_in_context() {
    let ts = TokenStream::from_str("a <<= b").unwrap();
    assert_eq!(ts.entries.len(), 3);
    assert!(matches!(&ts.entries[1].tt, TokenTree::Punct(Punct::DoubleLeftArrowEqual)));
}

#[test]
fn punct_matcher_answers() {
    assert_eq!(match_punct("<"), PunctMatch::Matched(Punct::LeftArrow));
    assert_eq!(match_punct("%:"), PunctMatch::Matched(Punct::PercentColon));
    assert_eq!(match_punct("%:%"), PunctMatch::Partial);
    assert_eq!(match_punct("@"), PunctMatch::NoMatch);
    assert_eq!(match_punct("<<<"), PunctMatch::NoMatch);
}

#[test]
fn nested_group_round_trip() {
    let ts = TokenStream::from_str("( 1 + ( 2 * 3 ) )").unwrap();
    assert_eq!(ts.render(), "( 1 + ( 2 * 3 ) )");
}

#[test]
fn nested_group_structure() {
    let ts = TokenStream::from_str("(1+(2*3))").unwrap();
    assert_eq!(ts.entries.len(), 1);
    match &ts.entries[0].tt {
        TokenTree::Group(_, inner) => {
            assert_eq!(inner.entries.len(), 3);
            assert!(matches!(&inner.entries[2].tt, TokenTree::Group(_, _)));
        }
        other => panic!("expected a group, got {:?}", other),
    }
}

#[test]
fn unterminated_string_fails_at_opening_quote() {
    let err = TokenStream::from_str("\"abc").unwrap_err();
    assert_eq!(err.pos.row, 1);
    assert_eq!(err.pos.col, 1);
    assert_eq!(err.msg, "missing closing '\"' for string literal");
}

#[test]
fn string_literal_content() {
    let ts = TokenStream::from_str("\"hi there\"").unwrap();
    assert_eq!(ts.entries.len(), 1);
    match &ts.entries[0].tt {
        TokenTree::Literal(Literal::Str(s)) => assert_eq!(s, "hi there"),
        other => panic!("expected a string literal, got {:?}", other),
    }
}

#[test]
fn unmatched_close_fails() {
    let err = TokenStream::from_str("( 1 ]").unwrap_err();
    assert_eq!(err.msg, "mismatched group delimiter");
    assert_eq!(err.pos.row, 1);
    assert_eq!(err.pos.col, 5);
}

#[test]
fn top_level_close_fails() {
    let err = TokenStream::from_str("]").unwrap_err();
    assert_eq!(err.msg, "unexpected group delimiter");
}

#[test]
fn unterminated_group_fails() {
    let err = TokenStream::from_str("( 1 + 2").unwrap_err();
    assert_eq!(err.msg, "unterminated group");
    assert_eq!(err.pos.col, 1);
}

#[test]
fn identifier_keyword_boundary() {
    let ts = TokenStream::from_str("intx").unwrap();
    assert_eq!(ts.entries.len(), 1);
    match &ts.entries[0].tt {
        TokenTree::Ident(name) => assert_eq!(name, "intx"),
        other => panic!("expected one identifier, got {:?}", other),
    }
    assert!(is_keyword("int"));
    assert!(!is_keyword("intx"));
}

#[test]
fn position_accuracy_across_newline() {
    let ts = TokenStream::from_str("a\nbb").unwrap();
    assert_eq!(ts.entries.len(), 2);
    let a = ts.entries[0].pos().unwrap();
    let bb = ts.entries[1].pos().unwrap();
    assert_eq!((a.row, a.col), (1, 1));
    assert_eq!((bb.row, bb.col), (2, 1));
}

#[test]
fn positions_within_row() {
    let ts = TokenStream::from_str("ab cd").unwrap();
    let first = ts.entries[0].pos().unwrap();
    let second = ts.entries[1].pos().unwrap();
    assert_eq!((first.row, first.col), (1, 1));
    assert_eq!((second.row, second.col), (1, 4));
}

#[test]
fn integer_literal_value() {
    let ts = TokenStream::from_str("123").unwrap();
    match &ts.entries[0].tt {
        TokenTree::Literal(Literal::Int(v)) => assert_eq!(*v, 123),
        other => panic!("expected an integer literal, got {:?}", other),
    }
}

#[test]
fn largest_integer_parses() {
    let ts = TokenStream::from_str("170141183460469231731687303715884105727").unwrap();
    match &ts.entries[0].tt {
        TokenTree::Literal(Literal::Int(v)) => assert_eq!(*v, i128::MAX),
        other => panic!("expected an integer literal, got {:?}", other),
    }
}

#[test]
fn integer_overflow_is_reported() {
    let err = TokenStream::from_str("170141183460469231731687303715884105728").unwrap_err();
    assert_eq!(err.msg, "invalid numeric literal");
}

#[test]
fn dotted_number_is_reported() {
    let err = TokenStream::from_str("1.5").unwrap_err();
    assert_eq!(err.msg, "invalid numeric literal");
    assert_eq!(err.pos.col, 1);
}

#[test]
fn unknown_character_is_reported() {
    let err = TokenStream::from_str("a $ b").unwrap_err();
    assert_eq!(err.msg, "Expected punctuator, got '$'");
    assert_eq!(err.pos.col, 3);
}

#[test]
fn empty_input_is_empty_stream() {
    let ts = TokenStream::from_str("").unwrap();
    assert_eq!(ts.entries.len(), 0);
    assert_eq!(ts.render(), "");
}

#[test]
fn whitespace_only_is_empty_stream() {
    let ts = TokenStream::from_str(" \t\r\n ").unwrap();
    assert_eq!(ts.entries.len(), 0);
}

#[test]
fn all_delimiter_kinds_nest() {
    let ts = TokenStream::from_str("{ [ ( x ) ] }").unwrap();
    assert_eq!(ts.render(), "{ [ ( x ) ] }");
}

#[test]
fn deep_nesting_does_not_overflow_the_stack() {
    let depth = 1000;
    let mut source = String::new();
    for _ in 0..depth {
        source.push('(');
    }
    for _ in 0..depth {
        source.push(')');
    }
    let ts = TokenStream::from_str(&source).unwrap();
    assert_eq!(ts.entries.len(), 1);
}

#[test]
fn identifier_run_takes_digits_and_underscores() {
    let ts = TokenStream::from_str("x1_y z").unwrap();
    assert_eq!(ts.entries.len(), 2);
    match &ts.entries[0].tt {
        TokenTree::Ident(name) => assert_eq!(name, "x1_y"),
        other => panic!("expected an identifier, got {:?}", other),
    }
}

#[test]
fn multiline_string_positions() {
    let ts = TokenStream::from_str("\"a\nb\" c").unwrap();
    assert_eq!(ts.entries.len(), 2);
    match &ts.entries[0].tt {
        TokenTree::Literal(Literal::Str(s)) => assert_eq!(s, "a\nb"),
        other => panic!("expected a string literal, got {:?}", other),
    }
    let c = ts.entries[1].pos().unwrap();
    assert_eq!((c.row, c.col), (2, 4));
}

#[test]
fn group_rendering_trims_nested_content() {
    let ts = TokenStream::from_str("(\" x \")").unwrap();
    assert_eq!(ts.render(), "( x )");
    let mut inner = TokenStream::new_empty();
    inner.extend_one(TokenTree::Literal(Literal::Str(String::from(" padded "))));
    let mut outer = TokenStream::new_empty();
    outer.extend_one(TokenTree::Group(Delimeter::Bracket, inner));
    assert_eq!(outer.render(), "[ padded ]");
}

#[test]
fn empty_group_renders_with_spaces() {
    let ts = TokenStream::from_str("()").unwrap();
    assert_eq!(ts.render(), "(  )");
}
