use workspace_cli::utils::html_to_md::{html_to_markdown, html_to_text, is_html, smart_convert, try_smart_convert};

#[test]
fn test_html_detection() {
    assert!(is_html("<html><body>Hello</body></html>"));
    assert!(is_html("<!DOCTYPE html><html>"));
    assert!(is_html("<div>Some content</div>"));
    assert!(!is_html("Plain text without HTML"));
    assert!(!is_html("Just a < symbol"));
}

#[test]
fn test_html_to_markdown() {
    let html = "<h1>Title</h1><p>Paragraph</p>";
    let md = html_to_markdown(html);
    assert!(md.contains("Title"));
    assert!(md.contains("Paragraph"));
}

#[test]
fn html_detection_skips_leading_whitespace() {
    assert!(is_html("  \n\t<!doctype html>"));
    assert!(is_html("\u{3000}<HTML>"));
}

#[test]
fn html_detection_needs_structure() {
    // A tag alone, with a single '<' and no "/>", is not enough.
    assert!(!is_html("<div"));
    assert!(is_html("<br/>"));
    assert!(!is_html("array<int> and x < 5"));
    assert!(is_html("<span>a</span>"));
}

#[test]
fn smart_convert_leaves_plain_text() {
    assert_eq!(smart_convert("x < 5 and y > 3"), "x < 5 and y > 3");
    assert_eq!(try_smart_convert("plain"), Some("plain".to_string()));
}

#[test]
fn smart_convert_renders_html() {
    let out = smart_convert("<div>Hello</div><p>World</p>");
    assert!(out.contains("Hello"));
    assert!(out.contains("World"));
    assert!(!out.contains("<div>"));
}

#[test]
fn html_to_text_drops_blank_lines() {
    let text = html_to_text("<p>  One  </p><p></p><p>Two</p>");
    assert_eq!(text, "One\nTwo");
}
