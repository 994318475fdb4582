//! Hand-written token wrappers of the surface syntax: comments and
//! whitespace, classified by their leading characters.

use vstd::prelude::*;
use vstd::string::*;

verus! {

/// The kind of a lexed token.
#[derive(Clone, Copy, PartialEq, Eq, Structural, Debug)]
pub enum SyntaxKind {
    Comment,
    Whitespace,
    Ident,
}

/// One lexed token: its kind and its text.
pub struct SyntaxToken {
    pub kind: SyntaxKind,
    pub text: String,
}

/// A comment token.
pub struct Comment(pub SyntaxToken);

/// How a comment is written and whether it documents something.
#[derive(Clone, Copy, PartialEq, Eq, Structural, Debug)]
pub struct CommentKind {
    pub shape: CommentShape,
    pub doc: Option<CommentPlacement>,
}

/// Line comment or block comment.
#[derive(Clone, Copy, PartialEq, Eq, Structural, Debug)]
pub enum CommentShape {
    Line,
    Block,
}

impl CommentShape {
    pub fn is_line(self) -> (r: bool)
        ensures
            r == (self == CommentShape::Line),
    {
        self == CommentShape::Line
    }

    pub fn is_block(self) -> (r: bool)
        ensures
            r == (self == CommentShape::Block),
    {
        self == CommentShape::Block
    }
}

/// Whether a doc comment documents its parent or its own enclosing item.
#[derive(Clone, Copy, PartialEq, Eq, Structural, Debug)]
pub enum CommentPlacement {
    Inner,
    Outer,
}

/// The text begins with one of the six comment prefixes.
pub open spec fn has_comment_prefix(s: Seq<char>) -> bool {
    ||| "//"@.is_prefix_of(s)
    ||| "/*"@.is_prefix_of(s)
}

/// The comment kind chosen by the longest-first prefix table:
/// `///`, `//!`, `/**`, `/*!`, then plain `//` and `/*`.
pub open spec fn spec_kind_by_prefix(s: Seq<char>) -> CommentKind {
    if "///"@.is_prefix_of(s) {
        CommentKind { shape: CommentShape::Line, doc: Some(CommentPlacement::Outer) }
    } else if "//!"@.is_prefix_of(s) {
        CommentKind { shape: CommentShape::Line, doc: Some(CommentPlacement::Inner) }
    } else if "/**"@.is_prefix_of(s) {
        CommentKind { shape: CommentShape::Block, doc: Some(CommentPlacement::Outer) }
    } else if "/*!"@.is_prefix_of(s) {
        CommentKind { shape: CommentShape::Block, doc: Some(CommentPlacement::Inner) }
    } else if "//"@.is_prefix_of(s) {
        CommentKind { shape: CommentShape::Line, doc: None }
    } else if "/*"@.is_prefix_of(s) {
        CommentKind { shape: CommentShape::Block, doc: None }
    } else {
        arbitrary()
    }
}

/// The prefix that announces a comment kind.
pub open spec fn spec_prefix_by_kind(kind: CommentKind) -> Seq<char> {
    match (kind.shape, kind.doc) {
        (CommentShape::Line, Some(CommentPlacement::Outer)) => "///"@,
        (CommentShape::Line, Some(CommentPlacement::Inner)) => "//!"@,
        (CommentShape::Block, Some(CommentPlacement::Outer)) => "/**"@,
        (CommentShape::Block, Some(CommentPlacement::Inner)) => "/*!"@,
        (CommentShape::Line, None) => "//"@,
        (CommentShape::Block, None) => "/*"@,
    }
}

/// The prefix table is consistent: classifying the prefix of a kind gives
/// back that kind, for every one of the six kinds.
pub proof fn lemma_prefix_kind_round_trip(kind: CommentKind)
    ensures
        spec_kind_by_prefix(spec_prefix_by_kind(kind)) == kind,
{
    reveal_strlit("///");
    reveal_strlit("//!");
    reveal_strlit("/**");
    reveal_strlit("/*!");
    reveal_strlit("//");
    reveal_strlit("/*");
    match (kind.shape, kind.doc) {
        (CommentShape::Line, Some(CommentPlacement::Outer)) => {
            assert("///"@.is_prefix_of("///"@));
        },
        (CommentShape::Line, Some(CommentPlacement::Inner)) => {
            assert("///"@[2] != "//!"@[2]);
            assert(!"///"@.is_prefix_of("//!"@));
            assert("//!"@.is_prefix_of("//!"@));
        },
        (CommentShape::Block, Some(CommentPlacement::Outer)) => {
            assert("///"@[1] != "/**"@[1]);
            assert(!"///"@.is_prefix_of("/**"@));
            assert("//!"@[1] != "/**"@[1]);
            assert(!"//!"@.is_prefix_of("/**"@));
            assert("/**"@.is_prefix_of("/**"@));
        },
        (CommentShape::Block, Some(CommentPlacement::Inner)) => {
            assert("///"@[1] != "/*!"@[1]);
            assert(!"///"@.is_prefix_of("/*!"@));
            assert("//!"@[1] != "/*!"@[1]);
            assert(!"//!"@.is_prefix_of("/*!"@));
            assert("/**"@[2] != "/*!"@[2]);
            assert(!"/**"@.is_prefix_of("/*!"@));
            assert("/*!"@.is_prefix_of("/*!"@));
        },
        (CommentShape::Line, None) => {
            assert(!"///"@.is_prefix_of("//"@));
            assert(!"//!"@.is_prefix_of("//"@));
            assert(!"/**"@.is_prefix_of("//"@));
            assert(!"/*!"@.is_prefix_of("//"@));
            assert("//"@.is_prefix_of("//"@));
        },
        (CommentShape::Block, None) => {
            assert(!"///"@.is_prefix_of("/*"@));
            assert(!"//!"@.is_prefix_of("/*"@));
            assert(!"/**"@.is_prefix_of("/*"@));
            assert(!"/*!"@.is_prefix_of("/*"@));
            assert("//"@[1] != "/*"@[1]);
            assert(!"//"@.is_prefix_of("/*"@));
            assert("/*"@.is_prefix_of("/*"@));
        },
    }
}

/// Whether `p` is a leading substring of `s`.
pub fn str_starts_with(s: &str, p: &str) -> (r: bool)
    ensures
        r == p@.is_prefix_of(s@),
{
    let np = p.unicode_len();
    let ns = s.unicode_len();
    if np > ns {
        return false;
    }
    let mut i: usize = 0;
    while i < np
        invariant
            np == p@.len(),
            ns == s@.len(),
            np <= ns,
            0 <= i <= np,
            forall|j: int| 0 <= j < i ==> s@[j] == p@[j],
        decreases np - i,
    {
        if s.get_char(i) != p.get_char(i) {
            proof {
                assert(s@.subrange(0, np as int)[i as int] != p@[i as int]);
            }
            return false;
        }
        i = i + 1;
    }
    proof {
        assert(s@.subrange(0, np as int) =~= p@);
    }
    true
}

/// Classifies comment text by its prefix. The text must begin like a
/// comment; anything else is bad token text that the lexer never
/// produces.
pub fn kind_by_prefix(text: &str) -> (r: CommentKind)
    requires
        has_comment_prefix(text@),
    ensures
        r == spec_kind_by_prefix(text@),
{
    if str_starts_with(text, "///") {
        CommentKind { shape: CommentShape::Line, doc: Some(CommentPlacement::Outer) }
    } else if str_starts_with(text, "//!") {
        CommentKind { shape: CommentShape::Line, doc: Some(CommentPlacement::Inner) }
    } else if str_starts_with(text, "/**") {
        CommentKind { shape: CommentShape::Block, doc: Some(CommentPlacement::Outer) }
    } else if str_starts_with(text, "/*!") {
        CommentKind { shape: CommentShape::Block, doc: Some(CommentPlacement::Inner) }
    } else if str_starts_with(text, "//") {
        CommentKind { shape: CommentShape::Line, doc: None }
    } else {
        let is_block = str_starts_with(text, "/*");
        proof {
            assert(is_block);
        }
        CommentKind { shape: CommentShape::Block, doc: None }
    }
}

/// The prefix that announces a comment kind.
pub fn prefix_by_kind(kind: CommentKind) -> (r: &'static str)
    ensures
        r@ == spec_prefix_by_kind(kind),
{
    match (kind.shape, kind.doc) {
        (CommentShape::Line, Some(CommentPlacement::Outer)) => "///",
        (CommentShape::Line, Some(CommentPlacement::Inner)) => "//!",
        (CommentShape::Block, Some(CommentPlacement::Outer)) => "/**",
        (CommentShape::Block, Some(CommentPlacement::Inner)) => "/*!",
        (CommentShape::Line, None) => "//",
        (CommentShape::Block, None) => "/*",
    }
}

impl Comment {
    /// A comment wraps exactly the comment-kinded tokens.
    pub fn can_cast(kind: SyntaxKind) -> (r: bool)
        ensures
            r == (kind == SyntaxKind::Comment),
    {
        kind == SyntaxKind::Comment
    }

    /// Wraps a token if it is a comment.
    pub fn cast(token: SyntaxToken) -> (r: Option<Comment>)
        ensures
            token.kind == SyntaxKind::Comment ==> (r matches Some(c) && c.0 == token),
            token.kind != SyntaxKind::Comment ==> r is None,
    {
        if Self::can_cast(token.kind) {
            Some(Comment(token))
        } else {
            None
        }
    }

    /// The wrapped token.
    pub fn syntax(&self) -> (r: &SyntaxToken)
        ensures
            *r == self.0,
    {
        &self.0
    }

    /// The token's text.
    pub fn text(&self) -> (r: &str)
        ensures
            r@ == self.0.text@,
    {
        self.0.text.as_str()
    }

    /// The comment's kind, classified by its prefix.
    pub fn kind(&self) -> (r: CommentKind)
        requires
            has_comment_prefix(self.0.text@),
        ensures
            r == spec_kind_by_prefix(self.0.text@),
    {
        kind_by_prefix(self.text())
    }

    /// The prefix this comment starts with.
    pub fn prefix(&self) -> (r: &'static str)
        requires
            has_comment_prefix(self.0.text@),
        ensures
            r@ == spec_prefix_by_kind(spec_kind_by_prefix(self.0.text@)),
    {
        prefix_by_kind(self.kind())
    }
}

/// A whitespace token.
pub struct Whitespace(pub SyntaxToken);

/// How many line breaks the text holds.
pub open spec fn newline_count(s: Seq<char>) -> nat
    decreases s.len(),
{
    if s.len() == 0 {
        0
    } else {
        newline_count(s.drop_last()) + (if s.last() == '\n' {
            1nat
        } else {
            0nat
        })
    }
}

impl Whitespace {
    /// A whitespace wrapper accepts exactly the whitespace-kinded tokens.
    pub fn can_cast(kind: SyntaxKind) -> (r: bool)
        ensures
            r == (kind == SyntaxKind::Whitespace),
    {
        kind == SyntaxKind::Whitespace
    }

    /// Wraps a token if it is whitespace.
    pub fn cast(token: SyntaxToken) -> (r: Option<Whitespace>)
        ensures
            token.kind == SyntaxKind::Whitespace ==> (r matches Some(w) && w.0 == token),
            token.kind != SyntaxKind::Whitespace ==> r is None,
    {
        if Self::can_cast(token.kind) {
            Some(Whitespace(token))
        } else {
            None
        }
    }

    /// The wrapped token.
    pub fn syntax(&self) -> (r: &SyntaxToken)
        ensures
            *r == self.0,
    {
        &self.0
    }

    /// The run of whitespace crosses more than one line break: there is a
    /// line break, and another one after it.
    pub fn spans_multiple_lines(&self) -> (r: bool)
        ensures
            r == (newline_count(self.0.text@) >= 2),
    {
        let text = self.0.text.as_str();
        let n = text.unicode_len();
        let mut count: usize = 0;
        let mut i: usize = 0;
        while i < n
            invariant
                n == text@.len(),
                0 <= i <= n,
                count == newline_count(text@.take(i as int)),
                count <= i,
            decreases n - i,
        {
            let c = text.get_char(i);
            proof {
                assert(text@.take(i + 1).drop_last() =~= text@.take(i as int));
                assert(text@.take(i + 1).last() == text@[i as int]);
            }
            if c == '\n' {
                count = count + 1;
            }
            i = i + 1;
        }
        proof {
            assert(text@.take(n as int) =~= text@);
        }
        count >= 2
    }
}

} // verus!
