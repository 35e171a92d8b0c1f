//! Syntax highlighting of the viewport text: tree-sitter's Rust grammar
//! finds the syntactic regions, and the theme styles those it knows.
use vstd::prelude::*;
use crate::render::StyleInfo;
use crate::theme::{first_style, Theme};

verus! {

/// What tree-sitter's Rust highlight query captures in `code`, in the order
/// its query cursor yields the matches: each capture's byte range and
/// capture name. `None` when the grammar or the query cannot be loaded, or
/// the text cannot be parsed.
pub uninterp spec fn rust_captures(code: Seq<char>) -> Option<Seq<(usize, usize, Seq<char>)>>;

/// The view of captures as plain values.
pub open spec fn captures_view(v: Seq<(usize, usize, String)>) -> Seq<(usize, usize, Seq<char>)> {
    v.map_values(|c: (usize, usize, String)| (c.0, c.1, c.2@))
}

/// Relies on tree-sitter 0.20 and tree-sitter-rust 0.20: `Parser::new`,
/// `Parser::set_language` with `tree_sitter_rust::language()`,
/// `Parser::parse`, `Query::new` with `HIGHLIGHT_QUERY`, and
/// `QueryCursor::matches` over the parse tree's root node, reading each
/// capture's `Node::start_byte`, `Node::end_byte` and capture name. What
/// they return depends on the text alone; a failure of any of them gives
/// `None`.
#[verifier::external_body]
fn rust_highlight_captures(code: &str) -> (r: Option<Vec<(usize, usize, String)>>)
    ensures
        r is Some ==> rust_captures(code@) == Some(captures_view(r->0@)),
        r is None ==> rust_captures(code@) is None,
{
    let language = tree_sitter_rust::language();
    let mut parser = tree_sitter::Parser::new();
    parser.set_language(language).ok()?;
    let tree = parser.parse(code, None)?;
    let query = tree_sitter::Query::new(language, tree_sitter_rust::HIGHLIGHT_QUERY).ok()?;
    let names = query.capture_names();
    let mut cursor = tree_sitter::QueryCursor::new();
    let matches = cursor.matches(&query, tree.root_node(), code.as_bytes());
    Some(matches.flat_map(|m| m.captures.iter().map(|c|
        (c.node.start_byte(), c.node.end_byte(), names[c.index as usize].clone())
    ).collect::<Vec<_>>()).collect())
}

/// The captures that `theme` has a style for, in order, each with the style
/// of the first token style listing its name.
pub open spec fn styled_spans(caps: Seq<(usize, usize, Seq<char>)>, theme: Theme) -> Seq<StyleInfo>
    decreases caps.len(),
{
    if caps.len() == 0 {
        Seq::empty()
    } else {
        let rest = styled_spans(caps.drop_last(), theme);
        let c = caps.last();
        match first_style(theme.token_style@, c.2) {
            Some(st) => rest.push(StyleInfo { start: c.0, end: c.1, style: st }),
            None => rest,
        }
    }
}

/// Styles the captures of a highlighter with `theme`.
pub fn highlight_spans(captures: &Vec<(usize, usize, String)>, theme: &Theme) -> (r: Vec<
    StyleInfo,
>)
    ensures
        r@ == styled_spans(captures_view(captures@), *theme),
{
    let mut spans: Vec<StyleInfo> = Vec::new();
    let mut i: usize = 0;
    while i < captures.len()
        invariant
            i <= captures@.len(),
            spans@ == styled_spans(captures_view(captures@.take(i as int)), *theme),
        decreases captures.len() - i,
    {
        let ghost before = captures_view(captures@.take(i as int));
        let ghost after = captures_view(captures@.take(i + 1));
        assert(after.drop_last() =~= before);
        let (start, end, ref scope) = captures[i];
        match theme.get_style(scope.as_str()) {
            Some(style) => spans.push(StyleInfo { start, end, style }),
            None => {},
        }
        i = i + 1;
    }
    assert(captures@.take(i as int) =~= captures@);
    spans
}

/// The styled regions of `code` (the viewport text): tree-sitter's
/// captures that the theme has a style for. When tree-sitter fails there
/// are none, and the text is drawn in the default style.
pub fn highlight(theme: &Theme, code: &str) -> (r: Vec<StyleInfo>)
    ensures
        rust_captures(code@) is Some ==> r@ == styled_spans(rust_captures(code@)->0, *theme),
        rust_captures(code@) is None ==> r@.len() == 0,
{
    match rust_highlight_captures(code) {
        Some(captures) => highlight_spans(&captures, theme),
        None => Vec::new(),
    }
}

} // verus!
