use mun_types::tokens::{
    kind_by_prefix, prefix_by_kind, str_starts_with, Comment, CommentKind, CommentPlacement,
    CommentShape, SyntaxKind, SyntaxToken, Whitespace,
};

fn comment(text: &str) -> Comment {
    Comment(SyntaxToken { kind: SyntaxKind::Comment, text: String::from(text) })
}

fn whitespace(text: &str) -> Whitespace {
    Whitespace(SyntaxToken { kind: SyntaxKind::Whitespace, text: String::from(text) })
}

#[test]
fn comment_kinds_by_prefix() {
    let line = |doc| CommentKind { shape: CommentShape::Line, doc };
    let block = |doc| CommentKind { shape: CommentShape::Block, doc };
    assert_eq!(kind_by_prefix("/// docs"), line(Some(CommentPlacement::Outer)));
    assert_eq!(kind_by_prefix("//! docs"), line(Some(CommentPlacement::Inner)));
    assert_eq!(kind_by_prefix("/** docs */"), block(Some(CommentPlacement::Outer)));
    assert_eq!(kind_by_prefix("/*! docs */"), block(Some(CommentPlacement::Inner)));
    assert_eq!(kind_by_prefix("// plain"), line(None));
    assert_eq!(kind_by_prefix("/* plain */"), block(None));
}

#[test]
fn prefixes_round_trip_through_kinds() {
    for prefix in ["///", "//!", "/**", "/*!", "//", "/*"] {
        assert_eq!(prefix_by_kind(kind_by_prefix(prefix)), prefix);
    }
}

#[test]
fn comment_methods_classify_their_text() {
    let c = comment("/// the docs");
    assert_eq!(c.kind(), CommentKind { shape: CommentShape::Line, doc: Some(CommentPlacement::Outer) });
    assert_eq!(c.prefix(), "///");
    let c = comment("/* inline */");
    assert_eq!(c.kind(), CommentKind { shape: CommentShape::Block, doc: None });
    assert_eq!(c.prefix(), "/*");
}

#[test]
fn comment_shape_predicates() {
    assert!(CommentShape::Line.is_line());
    assert!(!CommentShape::Line.is_block());
    assert!(CommentShape::Block.is_block());
    assert!(!CommentShape::Block.is_line());
}

#[test]
fn casting_checks_the_token_kind() {
    assert!(Comment::can_cast(SyntaxKind::Comment));
    assert!(!Comment::can_cast(SyntaxKind::Whitespace));
    assert!(Whitespace::can_cast(SyntaxKind::Whitespace));
    assert!(!Whitespace::can_cast(SyntaxKind::Ident));
    let tok = SyntaxToken { kind: SyntaxKind::Comment, text: String::from("// c") };
    assert!(Comment::cast(tok).is_some());
    let tok = SyntaxToken { kind: SyntaxKind::Ident, text: String::from("x") };
    assert!(Comment::cast(tok).is_none());
    let tok = SyntaxToken { kind: SyntaxKind::Whitespace, text: String::from("  ") };
    assert!(Whitespace::cast(tok).is_some());
}

#[test]
fn syntax_returns_the_wrapped_token() {
    let c = comment("// c");
    assert_eq!(c.syntax().text, "// c");
    assert_eq!(c.text(), "// c");
    let w = whitespace(" \n ");
    assert_eq!(w.syntax().text, " \n ");
}

#[test]
fn whitespace_spanning_multiple_lines_needs_two_breaks() {
    assert!(!whitespace("").spans_multiple_lines());
    assert!(!whitespace("   ").spans_multiple_lines());
    assert!(!whitespace(" \n ").spans_multiple_lines());
    assert!(whitespace(" \n \n").spans_multiple_lines());
    assert!(whitespace("\n\n\n").spans_multiple_lines());
}

#[test]
fn prefix_matching_is_exact() {
    assert!(str_starts_with("/// x", "///"));
    assert!(str_starts_with("abc", ""));
    assert!(!str_starts_with("//", "///"));
    assert!(!str_starts_with("*//", "//"));
}
