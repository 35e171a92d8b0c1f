use rusted::render::{
    compose_status, gutter_label, gutter_width, style_for_position, StyleInfo,
};
use rusted::action::Mode;
use rusted::theme::{
    build_theme, parse_rgb, translate_scope, ColorError, Rgb, Style, Theme, TokenStyle,
};

fn rgb(r: u8, g: u8, b: u8) -> Rgb {
    Rgb { r, g, b }
}

#[test]
fn parse_rgb_reads_hex() {
    assert_eq!(parse_rgb("#1e66f5"), Ok(rgb(0x1e, 0x66, 0xf5)));
    assert_eq!(parse_rgb("#FFa0B0"), Ok(rgb(255, 0xa0, 0xb0)));
    assert_eq!(parse_rgb("#00000080"), Ok(rgb(0, 0, 0)));
}

#[test]
fn parse_rgb_errors() {
    assert_eq!(parse_rgb("1e66f5"), Err(ColorError::NotHexCode));
    assert_eq!(parse_rgb(""), Err(ColorError::NotHexCode));
    assert_eq!(parse_rgb("#12"), Err(ColorError::BadDigits));
    assert_eq!(parse_rgb("#12345g"), Err(ColorError::BadDigits));
}

#[test]
fn translate_scope_renames_two_scopes() {
    assert_eq!(translate_scope("meta.function-call.constructor".to_string()), "constructor");
    assert_eq!(translate_scope("meta.annotation.rust".to_string()), "attribute");
    assert_eq!(translate_scope("keyword".to_string()), "keyword");
}

#[test]
fn token_style_from_settings() {
    let ts = TokenStyle::from_settings(
        Some("Keywords".to_string()),
        vec!["keyword".to_string(), "meta.annotation.rust".to_string()],
        Some("#8839ef".to_string()),
        None,
        Some("bold italic".to_string()),
    )
    .unwrap();
    assert_eq!(ts.name.as_deref(), Some("Keywords"));
    assert_eq!(ts.scope, vec!["keyword", "attribute"]);
    assert_eq!(ts.style.fg, Some(rgb(0x88, 0x39, 0xef)));
    assert_eq!(ts.style.bg, None);
    assert!(ts.style.bold && ts.style.italic);
    let plain = TokenStyle::from_settings(None, vec![], None, None, Some("underline".to_string()))
        .unwrap();
    assert!(!plain.style.bold && !plain.style.italic);
    let bad = TokenStyle::from_settings(None, vec![], None, Some("red".to_string()), None);
    assert_eq!(bad.err(), Some(ColorError::NotHexCode));
}

fn sample_theme() -> Theme {
    let a = TokenStyle::from_settings(None, vec!["string".to_string()], Some("#40a02b".to_string()), None, None).unwrap();
    let b = TokenStyle::from_settings(None, vec!["comment".to_string(), "string".to_string()], Some("#9ca0b0".to_string()), None, None).unwrap();
    build_theme(Some("Latte".to_string()), "#4c4f69", "#eff1f5", vec![a, b]).unwrap()
}

#[test]
fn build_theme_sets_default_style() {
    let t = sample_theme();
    assert_eq!(t.name, "Latte");
    assert_eq!(t.style.fg, Some(rgb(0x4c, 0x4f, 0x69)));
    assert_eq!(t.style.bg, Some(rgb(0xef, 0xf1, 0xf5)));
    assert_eq!(t.token_style.len(), 2);
    let unnamed = build_theme(None, "#000000", "#ffffff", vec![]).unwrap();
    assert_eq!(unnamed.name, "");
    assert_eq!(build_theme(None, "#000000", "white", vec![]).err(), Some(ColorError::NotHexCode));
}

#[test]
fn get_style_takes_first_match() {
    let t = sample_theme();
    assert_eq!(t.get_style("string").unwrap().fg, Some(rgb(0x40, 0xa0, 0x2b)));
    assert_eq!(t.get_style("comment").unwrap().fg, Some(rgb(0x9c, 0xa0, 0xb0)));
    assert!(t.get_style("keyword").is_none());
}

#[test]
fn convert_to_style_falls_back() {
    let t = sample_theme();
    let partial = Style { fg: Some(rgb(1, 2, 3)), bg: None, bold: false, italic: false };
    assert_eq!(partial.convert_to_style(&t.style), (rgb(1, 2, 3), rgb(0xef, 0xf1, 0xf5)));
    let empty = Style::default();
    assert_eq!(empty.convert_to_style(&t.style), (rgb(0x4c, 0x4f, 0x69), rgb(0xef, 0xf1, 0xf5)));
}

#[test]
fn style_for_position_first_span_or_default() {
    let red = Style { fg: Some(rgb(255, 0, 0)), ..Style::default() };
    let blue = Style { fg: Some(rgb(0, 0, 255)), ..Style::default() };
    let spans = vec![
        StyleInfo { start: 0, end: 4, style: red },
        StyleInfo { start: 2, end: 8, style: blue },
    ];
    assert!(spans[0].contains(3) && !spans[0].contains(4));
    let d = Style::default();
    assert_eq!(style_for_position(&spans, 3, d).fg, Some(rgb(255, 0, 0)));
    assert_eq!(style_for_position(&spans, 5, d).fg, Some(rgb(0, 0, 255)));
    assert_eq!(style_for_position(&spans, 8, d).fg, None);
}

#[test]
fn gutter_labels_right_aligned() {
    assert_eq!(gutter_width(120), 4);
    assert_eq!(gutter_label(7, 3), "  7 ");
    assert_eq!(gutter_label(120, 3), "120 ");
    assert_eq!(gutter_label(1234, 2), "1234 ");
}

#[test]
fn status_line_segments() {
    let s = compose_status(Mode::Normal, 4, 12, Some("main.rs"), 30);
    assert_eq!(s.mode, "NORMAL");
    assert_eq!(s.pos, " 4:12 ");
    assert_eq!(s.file, format!("{:<16}", " main.rs "));
    let narrow = compose_status(Mode::Insert, 0, 0, None, 10);
    assert_eq!(narrow.mode, "INSERT");
    assert_eq!(narrow.file, " No Name ");
}
