use rusted::buffer::Buffer;
use rusted::editor::Editor;
use rusted::highlight::{highlight, highlight_spans};
use rusted::render::StyleInfo;
use rusted::theme::{build_theme, Rgb, Style, Theme, TokenStyle};

fn theme() -> Theme {
    let kw = TokenStyle::from_settings(
        None,
        vec!["keyword".to_string()],
        Some("#8839ef".to_string()),
        None,
        None,
    )
    .unwrap();
    build_theme(Some("t".to_string()), "#4c4f69", "#eff1f5", vec![kw]).unwrap()
}

#[test]
fn highlight_styles_keywords() {
    let t = theme();
    let spans = highlight(&t, "fn main() {}");
    assert!(!spans.is_empty());
    let first = spans[0];
    assert_eq!((first.start, first.end), (0, 2));
    assert_eq!(first.style.fg, Some(Rgb { r: 0x88, g: 0x39, b: 0xef }));
}

#[test]
fn highlight_without_matching_styles_is_empty() {
    let t = build_theme(None, "#000000", "#ffffff", vec![]).unwrap();
    assert!(highlight(&t, "fn main() {}").is_empty());
}

#[test]
fn highlight_spans_keeps_styled_captures_in_order() {
    let t = theme();
    let caps = vec![
        (0, 2, "keyword".to_string()),
        (3, 7, "function".to_string()),
        (10, 12, "keyword".to_string()),
    ];
    let spans = highlight_spans(&caps, &t);
    assert_eq!(spans.len(), 2);
    assert_eq!((spans[0].start, spans[0].end), (0, 2));
    assert_eq!((spans[1].start, spans[1].end), (10, 12));
}

#[test]
fn viewport_rows_place_and_style_characters() {
    let text = "ab\ncdef\ng";
    let e = Editor::new(Buffer::new(Some("x".to_string()), Some(text.to_string())), (6, 4));
    assert_eq!(e.vleft(), 3);
    let red = Style { fg: Some(Rgb { r: 255, g: 0, b: 0 }), ..Style::default() };
    let spans = vec![StyleInfo { start: 4, end: 6, style: red }];
    let rows = e.viewport_rows(&spans, Style::default());
    assert_eq!(rows.len(), 2);
    let chars: Vec<String> = rows.iter().map(|r| r.iter().map(|c| c.0).collect()).collect();
    assert_eq!(chars, vec!["ab ", "cde"]);
    assert_eq!(rows[0][2].1.fg, None);
    assert_eq!(rows[0][1].1.fg, None);
    assert_eq!(rows[1][0].1.fg, None);
    assert_eq!(rows[1][1].1.fg, Some(Rgb { r: 255, g: 0, b: 0 }));
    assert_eq!(rows[1][2].1.fg, Some(Rgb { r: 255, g: 0, b: 0 }));
}

#[test]
fn viewport_rows_use_byte_offsets_and_blank_rows() {
    let e = Editor::new(Buffer::new(Some("x".to_string()), Some("éa\nb".to_string())), (8, 5));
    let red = Style { fg: Some(Rgb { r: 255, g: 0, b: 0 }), ..Style::default() };
    // "éa\nb": 'é' is bytes 0..2, 'a' byte 2, '\n' byte 3, 'b' byte 4.
    let spans = vec![StyleInfo { start: 2, end: 3, style: red }, StyleInfo { start: 4, end: 5, style: red }];
    let rows = e.viewport_rows(&spans, Style::default());
    assert_eq!(rows.len(), 3);
    assert!(rows.iter().all(|r| r.len() == 5));
    assert_eq!(rows[0][0].0, 'é');
    assert_eq!(rows[0][1].0, 'a');
    assert_eq!(rows[0][0].1.fg, None);
    assert_eq!(rows[0][1].1.fg, Some(Rgb { r: 255, g: 0, b: 0 }));
    assert_eq!(rows[1][0].1.fg, Some(Rgb { r: 255, g: 0, b: 0 }));
    assert!(rows[2].iter().all(|c| c.0 == ' ' && c.1.fg.is_none()));
}
